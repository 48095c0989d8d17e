//! Reading the text that the shortcut translates.
use vstd::prelude::*;

verus! {

/// Why the system clipboard could not give its text.
#[derive(Debug, PartialEq, Eq)]
pub enum ClipboardFault {
    /// The clipboard is empty or holds no text.
    ContentNotAvailable,
    /// The system offers no clipboard that can be used.
    ClipboardNotSupported,
    /// Another party holds the clipboard.
    ClipboardOccupied,
    /// The content could not be converted to text.
    ConversionFailure,
    /// Any other failure, with its description.
    Unknown(String),
}

/// Why no selected text could be had. Either way the translation that asked
/// for it is abandoned.
#[derive(Clone, Copy, Debug, PartialEq, Eq, Structural)]
pub enum AccessError {
    /// The clipboard could not be used.
    Unavailable,
    /// The clipboard holds no text, or only an empty one.
    NoText,
}

/// The error that a clipboard fault becomes.
pub open spec fn access_error_of(fault: ClipboardFault) -> AccessError {
    match fault {
        ClipboardFault::ContentNotAvailable | ClipboardFault::ConversionFailure => AccessError::NoText,
        _ => AccessError::Unavailable,
    }
}

/// The selected text, from what a read of the clipboard gave: a non-empty
/// text is returned as it is; an empty one, or no text at all, is an error,
/// never an empty selection.
pub fn get_selected_text(read: Result<String, ClipboardFault>) -> (r: Result<String, AccessError>)
    ensures
        match read {
            Ok(t) => if t@.len() > 0 {
                r is Ok && r->Ok_0@ == t@
            } else {
                r == Err::<String, AccessError>(AccessError::NoText)
            },
            Err(fault) => r == Err::<String, AccessError>(access_error_of(fault)),
        },
{
    match read {
        Ok(text) => {
            if text.as_str().unicode_len() > 0 {
                Ok(text)
            } else {
                Err(AccessError::NoText)
            }
        },
        Err(fault) => match fault {
            ClipboardFault::ContentNotAvailable => Err(AccessError::NoText),
            ClipboardFault::ConversionFailure => Err(AccessError::NoText),
            _ => Err(AccessError::Unavailable),
        },
    }
}

} // verus!
