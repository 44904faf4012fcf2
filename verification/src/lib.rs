//! A verified core for a documentation-site link inspector.
//!
//! The library crawls outward from a root URL, deciding for every discovered
//! link whether it is in scope, and classifying each visited URL as valid,
//! missing, erroring, or intentionally ignored.  Network access is left to the
//! caller: the crawler is a step machine that hands out URLs to fetch and takes
//! fetch outcomes back, so everything it decides is stated and proved here.

pub mod config;
pub mod crawler;
pub mod extract;
pub mod link;
pub mod patterns;
pub mod policy;
pub mod render;
pub mod text;
pub mod urls;
