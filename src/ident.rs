//! Workspace names of the form `<screen digit><separator><index>`, such as `1-2`.
use vstd::prelude::*;
use vstd::utf8::{encode_utf8, is_ascii_chars};

use crate::decimal::{parse_usize, parse_usize_spec, ASCII_NINE, ASCII_ZERO};

verus! {

/// The ASCII code of `1`.
const ASCII_ONE: u8 = 49;

/// Which workspace an entry stands for: its screen, and its position on that screen
/// counted from 1.
#[derive(Clone, Copy, Debug, PartialEq, Eq, Structural)]
pub struct WorkspaceId {
    pub screen: usize,
    pub index: usize,
}

/// Why a workspace name could not be read.
#[derive(Clone, Copy, Debug, PartialEq, Eq, Structural)]
pub enum ParseError {
    /// The name holds fewer than three bytes.
    TooShort,
    /// The name holds a character that takes more than one byte.
    NotSingleByte,
    /// The first character is not a digit from 1 to 9.
    InvalidScreen,
    /// What follows the separator is not a positive decimal number.
    InvalidIndex,
}

/// A digit from 1 to 9: the only screen numbers a one-character field can name.
pub open spec fn is_screen_digit(c: char) -> bool {
    '1' <= c && c <= '9'
}

/// What a workspace name denotes. The byte length is that of the name's UTF-8
/// encoding; a name is single-byte text exactly when all its characters are ASCII,
/// the characters that UTF-8 writes in one byte each.
pub open spec fn parse_name_spec(name: Seq<char>) -> Result<WorkspaceId, ParseError> {
    if encode_utf8(name).len() < 3 {
        Err(ParseError::TooShort)
    } else if !is_ascii_chars(name) {
        Err(ParseError::NotSingleByte)
    } else if !is_screen_digit(name[0]) {
        Err(ParseError::InvalidScreen)
    } else {
        match parse_usize_spec(name.subrange(2, name.len() as int)) {
            Some(index) => if index >= 1 {
                Ok(WorkspaceId { screen: (name[0] as nat - '0' as nat) as usize, index })
            } else {
                Err(ParseError::InvalidIndex)
            },
            None => Err(ParseError::InvalidIndex),
        }
    }
}

/// Reads a workspace name such as `1-2` (screen 1, workspace 2). The first character
/// is the screen, the second a separator that is skipped whatever it is, and the
/// rest the index.
pub fn parse_workspace_name(name: &str) -> (r: Result<WorkspaceId, ParseError>)
    ensures
        r == parse_name_spec(name@),
{
    if name.as_bytes().len() < 3 {
        return Err(ParseError::TooShort);
    }
    if !name.is_ascii() {
        return Err(ParseError::NotSingleByte);
    }
    let n = name.unicode_len();
    let s = name.get_ascii(0);
    if s < ASCII_ONE || s > ASCII_NINE {
        return Err(ParseError::InvalidScreen);
    }
    let rest = name.substring_ascii(2, n);
    match parse_usize(rest) {
        Some(index) => {
            if index >= 1 {
                Ok(WorkspaceId { screen: (s - ASCII_ZERO) as usize, index })
            } else {
                Err(ParseError::InvalidIndex)
            }
        },
        None => Err(ParseError::InvalidIndex),
    }
}

} // verus!
