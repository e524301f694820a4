//! What can go wrong.

use cargo_util_schemas::manifest::NameValidationError;
use vstd::prelude::*;

use crate::text::{join, opt_text};

verus! {

/// Everything that can stop a run.
#[derive(Debug)]
pub enum CraterError {
    /// A patch argument held no entry.
    NoPatch,
    /// A patch argument held more than one entry.
    TooManyPatches,
    /// A text is not the TOML that was asked for.
    TomlRead(toml::de::Error),
    /// A manifest could not be written as TOML.
    TomlWrite(toml::ser::Error),
    /// A name is not one that a package may have.
    PackageName(NameValidationError),
    /// An address is not a URL.
    Url(url::ParseError),
    /// A query could not be encoded.
    Query(serde_urlencoded::ser::Error),
    /// The selection is not a regular expression.
    Regex(regex::Error),
    /// A file could not be read as text.
    Io(std::io::Error),
    /// No manifest in a checkout describes the crate.
    NoCargoToml { name: String, root: String },
    /// The place of a checkout is not text.
    PathNotUtf8,
}

impl CraterError {
    /// What there is to say about an error of this library's own; other errors speak for
    /// themselves.
    pub open spec fn message_text(self) -> Option<Seq<char>> {
        match self {
            CraterError::NoPatch => Some("No patch provided"@),
            CraterError::TooManyPatches => Some("Too many patches found"@),
            CraterError::NoCargoToml { name, root } => Some(
                "Could not find a suitable Cargo toml for "@ + name@ + " in "@ + root@,
            ),
            CraterError::PathNotUtf8 => Some("Path was not UTF-8"@),
            _ => None,
        }
    }

    /// What there is to say about an error of this library's own; other errors speak for
    /// themselves.
    pub fn message(&self) -> (r: Option<String>)
        ensures
            opt_text(r) == self.message_text(),
    {
        match self {
            CraterError::NoPatch => Some("No patch provided".to_owned()),
            CraterError::TooManyPatches => Some("Too many patches found".to_owned()),
            CraterError::NoCargoToml { name, root } => {
                let start = join("Could not find a suitable Cargo toml for ", name);
                Some(join(&join(&start, " in "), root))
            },
            CraterError::PathNotUtf8 => Some("Path was not UTF-8".to_owned()),
            _ => None,
        }
    }
}

} // verus!
