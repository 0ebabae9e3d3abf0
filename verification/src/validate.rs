//! The rules a text body must meet before it is stored.

use vstd::prelude::*;
use vstd::string::*;
use vstd::utf8::*;
use crate::message::{
    empty_body_message, err_msg, get_err_msg, lemma_bad_request_messages, too_long_message,
    CODE_BAD_REQUEST, MSG_EMPTY_TEXT_BODY, MSG_TEXT_BODY_TOO_LONG,
};

verus! {

/// Largest accepted length of a text body, in bytes of its UTF-8 encoding.
pub const MAX_TEXT_LEN: usize = 100;

/// Why a text body was refused.
#[derive(Clone, Copy, Debug, PartialEq, Eq, Structural)]
pub enum ValidationError {
    /// The request carried no text body at all.
    EmptyBody,
    /// The text body is longer than `MAX_TEXT_LEN` bytes.
    TooLong,
}

/// Length of a text in bytes of its UTF-8 encoding.
pub open spec fn byte_len(text: Seq<char>) -> nat {
    encode_utf8(text).len()
}

/// What validation makes of an optional text: an absent text is refused as
/// empty, a text of more than `MAX_TEXT_LEN` bytes as too long, and any
/// other text, the empty string included, is accepted as it is.
pub open spec fn validation(text: Option<Seq<char>>) -> Result<Seq<char>, ValidationError> {
    match text {
        None => Err(ValidationError::EmptyBody),
        Some(t) => if byte_len(t) > MAX_TEXT_LEN {
            Err(ValidationError::TooLong)
        } else {
            Ok(t)
        },
    }
}

/// The view of an optional string.
pub open spec fn text_view(text: Option<String>) -> Option<Seq<char>> {
    match text {
        None => None,
        Some(t) => Some(t@),
    }
}

impl ValidationError {
    /// The status code this failure is reported under.
    pub open spec fn code_spec(self) -> nat {
        CODE_BAD_REQUEST as nat
    }

    /// The text of this failure, without the status code.
    pub open spec fn text_spec(self) -> Seq<char> {
        match self {
            ValidationError::EmptyBody => MSG_EMPTY_TEXT_BODY@,
            ValidationError::TooLong => MSG_TEXT_BODY_TOO_LONG@,
        }
    }

    /// The full message of this failure.
    pub open spec fn message_spec(self) -> Seq<char> {
        match self {
            ValidationError::EmptyBody => empty_body_message(),
            ValidationError::TooLong => too_long_message(),
        }
    }

    /// The status code this failure is reported under.
    pub fn code(&self) -> (c: u16)
        ensures
            c as nat == self.code_spec(),
            c == 400,
    {
        CODE_BAD_REQUEST
    }

    /// The text of this failure, without the status code.
    pub fn text(&self) -> (t: &'static str)
        ensures
            t@ == self.text_spec(),
    {
        match self {
            ValidationError::EmptyBody => MSG_EMPTY_TEXT_BODY,
            ValidationError::TooLong => MSG_TEXT_BODY_TOO_LONG,
        }
    }

    /// The full message of this failure: `[400] Empty text body.` or
    /// `[400] Text body is too long (max: 100)`.
    pub fn message(&self) -> (m: String)
        ensures
            m@ == self.message_spec(),
            m@ == err_msg(self.code_spec(), self.text_spec()),
    {
        proof {
            lemma_bad_request_messages();
        }
        get_err_msg(self.code(), self.text())
    }
}

/// Checks an optional text body. The accepted text is handed back unchanged.
pub fn validate(text: Option<String>) -> (res: Result<String, ValidationError>)
    ensures
        result_view(res) == validation(text_view(text)),
        res is Ok ==> text == Some(res->Ok_0),
{
    match text {
        None => Err(ValidationError::EmptyBody),
        Some(t) => {
            if t.as_str().as_bytes().len() > MAX_TEXT_LEN {
                Err(ValidationError::TooLong)
            } else {
                Ok(t)
            }
        },
    }
}

/// The view of a validation result.
pub open spec fn result_view(res: Result<String, ValidationError>) -> Result<
    Seq<char>,
    ValidationError,
> {
    match res {
        Ok(t) => Ok(t@),
        Err(e) => Err(e),
    }
}

} // verus!
