//! Loading the persisted binding rules.
//!
//! The rules live in one file, a JSON array.  Reading the file and decoding JSON are the
//! caller's work; what the outcome means is decided here: a file that is missing, empty
//! or all white space stands for an empty rule list, and a file that cannot be read or
//! decoded is an error.

use crate::models::{DeviceConfig, DeviceConfigModel};
use vstd::prelude::*;

verus! {

/// Whether a character has the Unicode property `White_Space`, as the standard library
/// tells it.
pub uninterp spec fn is_white_space(c: char) -> bool;

/// `char::is_whitespace` returns whether the character has the `White_Space` property.
/// The answer depends on the character alone.
pub assume_specification[ char::is_whitespace ](c: char) -> (r: bool)
    ensures
        r == is_white_space(c),
;

/// A text is blank when every character of it is white space; the empty text is blank.
pub open spec fn is_blank(text: Seq<char>) -> bool {
    forall|i: int| 0 <= i < text.len() ==> is_white_space(#[trigger] text[i])
}

/// Tells whether `text` is blank: whether nothing is left of it once the white space
/// at both ends is trimmed away.
pub fn blank(text: &str) -> (r: bool)
    ensures
        r == is_blank(text@),
{
    let mut all: bool = true;
    for c in it: text.chars()
        invariant
            it.seq() == text@,
            all == forall|j: int| 0 <= j < it.index() ==> is_white_space(#[trigger] text@[j]),
    {
        all = all && c.is_whitespace();
    }
    all
}

/// What the caller found where the rule file should be.
#[derive(Debug, PartialEq, Eq)]
pub enum RuleFile {
    /// There is no such file.
    Missing,
    /// The file is there and could not be read.
    Unreadable,
    /// The file was read.  `parsed` is what the JSON decoder made of `content`: the
    /// rules, or `None` where it rejected the text.
    Read { content: String, parsed: Option<Vec<DeviceConfig>> },
}

/// Why the rules could not be loaded.
#[derive(Debug, Clone, Copy, PartialEq, Eq, Structural)]
pub enum LoadError {
    /// The file exists and could not be read.
    Unreadable,
    /// The file holds text that is not a JSON array of rules.
    Malformed,
}

/// The rules that a rule file stands for, or the reason why it stands for none.
pub open spec fn loaded(file: RuleFile) -> Result<Seq<DeviceConfigModel>, LoadError> {
    match file {
        RuleFile::Missing => Ok(Seq::empty()),
        RuleFile::Unreadable => Err(LoadError::Unreadable),
        RuleFile::Read { content, parsed } => if is_blank(content@) {
            Ok(Seq::empty())
        } else {
            match parsed {
                Some(rules) => Ok(rules.deep_view()),
                None => Err(LoadError::Malformed),
            }
        },
    }
}

/// The rules as result of [`load_rules`] holds them, by their models.
pub open spec fn loaded_view(r: Result<Vec<DeviceConfig>, LoadError>) -> Result<
    Seq<DeviceConfigModel>,
    LoadError,
> {
    match r {
        Ok(rules) => Ok(rules.deep_view()),
        Err(e) => Err(e),
    }
}

/// Decides which rules the program starts with.
///
/// A missing file and a blank file give the empty list and no error.  A file with other
/// content gives the rules that the decoder found in it, and [`LoadError::Malformed`]
/// where the decoder rejected it.  A file that could not be read gives
/// [`LoadError::Unreadable`].
pub fn load_rules(file: RuleFile) -> (r: Result<Vec<DeviceConfig>, LoadError>)
    ensures
        loaded_view(r) == loaded(file),
{
    match file {
        RuleFile::Missing => {
            let rules: Vec<DeviceConfig> = Vec::new();
            assert(rules.deep_view() =~= Seq::<DeviceConfigModel>::empty());
            Ok(rules)
        },
        RuleFile::Unreadable => Err(LoadError::Unreadable),
        RuleFile::Read { content, parsed } => {
            if blank(content.as_str()) {
                let rules: Vec<DeviceConfig> = Vec::new();
                assert(rules.deep_view() =~= Seq::<DeviceConfigModel>::empty());
                Ok(rules)
            } else {
                match parsed {
                    Some(rules) => Ok(rules),
                    None => Err(LoadError::Malformed),
                }
            }
        },
    }
}

} // verus!
