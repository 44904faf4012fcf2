//! Crawl configuration and validation of a loaded configuration document.
//!
//! The caller merges file and command-line settings into a `Config`; the
//! library never reads files or arguments itself.  Before a document is
//! deserialized into a `Config`, its shape is checked by `validate_config`
//! over a `RawConfig`, the reduction of the document to the kinds of the
//! fields that validation inspects.

use vstd::prelude::*;

verus! {

/// Configuration for one crawl, fully resolved by the caller.
#[derive(Debug)]
pub struct Config {
    pub url: Option<String>,
    pub ignore: Option<IgnoreConfig>,
    pub forbidden_domains: Option<Vec<String>>,
    pub ignored_childs: Option<Vec<String>>,
    pub timeout: Option<u64>,
    pub default_output: Option<String>,
}

/// The ignore section of a configuration: domain suffixes and regular
/// expression patterns.
#[derive(Debug)]
pub struct IgnoreConfig {
    pub domains: Option<Vec<String>>,
    pub regex: Option<Vec<String>>,
}

/// Why a configuration document was rejected.
#[derive(Debug)]
pub enum ConfigError {
    /// A required field is absent; carries the field name.
    MissingField(String),
    /// A field holds a value of the wrong kind; carries a description.
    InvalidFieldType(String),
}

/// The mathematical value of an `IgnoreConfig`.
#[verifier::ext_equal]
pub ghost struct IgnoreView {
    pub domains: Option<Seq<Seq<char>>>,
    pub regex: Option<Seq<Seq<char>>>,
}

impl View for IgnoreConfig {
    type V = IgnoreView;

    open spec fn view(&self) -> IgnoreView {
        IgnoreView {
            domains: match self.domains {
                Some(d) => Some(d.deep_view()),
                None => None,
            },
            regex: match self.regex {
                Some(r) => Some(r.deep_view()),
                None => None,
            },
        }
    }
}

/// The mathematical value of a `Config`.
#[verifier::ext_equal]
pub ghost struct ConfigView {
    pub url: Option<Seq<char>>,
    pub ignore: Option<IgnoreView>,
    pub forbidden_domains: Option<Seq<Seq<char>>>,
    pub ignored_childs: Option<Seq<Seq<char>>>,
    pub timeout: Option<u64>,
    pub default_output: Option<Seq<char>>,
}

impl View for Config {
    type V = ConfigView;

    open spec fn view(&self) -> ConfigView {
        ConfigView {
            url: match self.url {
                Some(ref u) => Some(u@),
                None => None,
            },
            ignore: match self.ignore {
                Some(ref i) => Some(i@),
                None => None,
            },
            forbidden_domains: match self.forbidden_domains {
                Some(ref d) => Some(d.deep_view()),
                None => None,
            },
            ignored_childs: match self.ignored_childs {
                Some(ref c) => Some(c.deep_view()),
                None => None,
            },
            timeout: self.timeout,
            default_output: match self.default_output {
                Some(ref o) => Some(o@),
                None => None,
            },
        }
    }
}

impl ConfigError {
    /// The human-readable description of the error.
    pub fn message(&self) -> (r: String)
        ensures
            self@ matches ConfigErrorView::MissingField(f) ==> r@ == "Missing required field: "@
                + f,
            self@ matches ConfigErrorView::InvalidFieldType(d) ==> r@ == "Invalid field type: "@
                + d,
    {
        match self {
            ConfigError::MissingField(f) => String::from_str("Missing required field: ").concat(
                f.as_str(),
            ),
            ConfigError::InvalidFieldType(d) => String::from_str("Invalid field type: ").concat(
                d.as_str(),
            ),
        }
    }
}

/// The mathematical value of a `ConfigError`.
pub ghost enum ConfigErrorView {
    MissingField(Seq<char>),
    InvalidFieldType(Seq<char>),
}

impl View for ConfigError {
    type V = ConfigErrorView;

    open spec fn view(&self) -> ConfigErrorView {
        match self {
            ConfigError::MissingField(f) => ConfigErrorView::MissingField(f@),
            ConfigError::InvalidFieldType(d) => ConfigErrorView::InvalidFieldType(d@),
        }
    }
}

/// The kind of a value found in a configuration document.
#[derive(Debug, PartialEq, Eq, Structural, Clone, Copy)]
pub enum FieldKind {
    /// A string.
    Text,
    /// A mapping from keys to values.
    Mapping,
    /// A sequence of values.
    Sequence,
    /// Anything else: a number, a boolean, or null.
    Other,
}

/// A configuration document reduced to the kinds of the fields that
/// validation inspects; `None` means the field is absent.  The two nested
/// fields describe the entries of the ignore section and are only
/// meaningful when `ignore` is a mapping.
pub struct RawConfig {
    pub url: Option<FieldKind>,
    pub ignore: Option<FieldKind>,
    pub ignore_domains: Option<FieldKind>,
    pub ignore_regex: Option<FieldKind>,
}

/// A document is well-shaped when `url` is present as a string and the
/// ignore section, if present, is a mapping whose `domains` and `regex`
/// entries, if present, are sequences.
pub open spec fn spec_config_valid(raw: RawConfig) -> bool {
    &&& raw.url == Some(FieldKind::Text)
    &&& raw.ignore matches Some(k) ==> {
        &&& k == FieldKind::Mapping
        &&& raw.ignore_domains matches Some(d) ==> d == FieldKind::Sequence
        &&& raw.ignore_regex matches Some(x) ==> x == FieldKind::Sequence
    }
}

/// Check the shape of a configuration document: `url` must be present as a
/// string, the ignore section must be a mapping, and its `domains` and
/// `regex` entries must be sequences.  The first failing check, in that
/// order, decides the error.
pub fn validate_config(raw: &RawConfig) -> (r: Result<(), ConfigError>)
    ensures
        r is Ok <==> spec_config_valid(*raw),
        raw.url is None ==> r is Err && r->Err_0@ == ConfigErrorView::MissingField("url"@),
        raw.url is Some && raw.url.unwrap() != FieldKind::Text ==> r is Err && r->Err_0@
            == ConfigErrorView::InvalidFieldType("url must be a string"@),
        raw.url == Some(FieldKind::Text) && raw.ignore is Some && raw.ignore.unwrap()
            != FieldKind::Mapping ==> r is Err && r->Err_0@ == ConfigErrorView::InvalidFieldType(
            "ignore must be an object"@,
        ),
        raw.url == Some(FieldKind::Text) && raw.ignore == Some(FieldKind::Mapping)
            && raw.ignore_domains is Some && raw.ignore_domains.unwrap() != FieldKind::Sequence
            ==> r is Err && r->Err_0@ == ConfigErrorView::InvalidFieldType(
            "ignore.domains must be an array"@,
        ),
        raw.url == Some(FieldKind::Text) && raw.ignore == Some(FieldKind::Mapping) && (
        raw.ignore_domains is None || raw.ignore_domains == Some(FieldKind::Sequence))
            && raw.ignore_regex is Some && raw.ignore_regex.unwrap() != FieldKind::Sequence ==> r
            is Err && r->Err_0@ == ConfigErrorView::InvalidFieldType(
            "ignore.regex must be an array"@,
        ),
{
    match raw.url {
        None => {
            return Err(ConfigError::MissingField(String::from_str("url")));
        },
        Some(FieldKind::Text) => {},
        Some(_) => {
            return Err(ConfigError::InvalidFieldType(String::from_str("url must be a string")));
        },
    }
    if let Some(kind) = raw.ignore {
        match kind {
            FieldKind::Mapping => {},
            _ => {
                return Err(
                    ConfigError::InvalidFieldType(String::from_str("ignore must be an object")),
                );
            },
        }
        if let Some(domains) = raw.ignore_domains {
            match domains {
                FieldKind::Sequence => {},
                _ => {
                    return Err(
                        ConfigError::InvalidFieldType(
                            String::from_str("ignore.domains must be an array"),
                        ),
                    );
                },
            }
        }
        if let Some(regex) = raw.ignore_regex {
            match regex {
                FieldKind::Sequence => {},
                _ => {
                    return Err(
                        ConfigError::InvalidFieldType(
                            String::from_str("ignore.regex must be an array"),
                        ),
                    );
                },
            }
        }
    }
    Ok(())
}

} // verus!
