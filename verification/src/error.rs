//! Domain error codes and the command error that carries them.

use vstd::prelude::*;

verus! {

/// Domain error codes that the gateway distinguishes.
#[derive(Clone, Copy, Debug, PartialEq, Eq, Structural)]
pub enum ErrorCode {
    InternalError,
    BadValue,
    Unauthorized,
    TypeMismatch,
    AuthenticationFailed,
    ExceededTimeLimit,
    DuplicateKey,
}

impl ErrorCode {
    /// The numeric code that stands for this error on the wire.
    pub open spec fn spec_code(self) -> int {
        match self {
            ErrorCode::InternalError => 1,
            ErrorCode::BadValue => 2,
            ErrorCode::Unauthorized => 13,
            ErrorCode::TypeMismatch => 14,
            ErrorCode::AuthenticationFailed => 18,
            ErrorCode::ExceededTimeLimit => 262,
            ErrorCode::DuplicateKey => 11000,
        }
    }

    /// The error that a numeric code names, if it names one.
    pub open spec fn spec_from_i32(code: int) -> Option<ErrorCode> {
        if code == 1 {
            Some(ErrorCode::InternalError)
        } else if code == 2 {
            Some(ErrorCode::BadValue)
        } else if code == 13 {
            Some(ErrorCode::Unauthorized)
        } else if code == 14 {
            Some(ErrorCode::TypeMismatch)
        } else if code == 18 {
            Some(ErrorCode::AuthenticationFailed)
        } else if code == 262 {
            Some(ErrorCode::ExceededTimeLimit)
        } else if code == 11000 {
            Some(ErrorCode::DuplicateKey)
        } else {
            None
        }
    }

    pub fn code(self) -> (c: i32)
        ensures
            c == self.spec_code(),
    {
        match self {
            ErrorCode::InternalError => 1,
            ErrorCode::BadValue => 2,
            ErrorCode::Unauthorized => 13,
            ErrorCode::TypeMismatch => 14,
            ErrorCode::AuthenticationFailed => 18,
            ErrorCode::ExceededTimeLimit => 262,
            ErrorCode::DuplicateKey => 11000,
        }
    }

    pub fn from_i32(code: i32) -> (e: Option<ErrorCode>)
        ensures
            e == Self::spec_from_i32(code as int),
    {
        if code == 1 {
            Some(ErrorCode::InternalError)
        } else if code == 2 {
            Some(ErrorCode::BadValue)
        } else if code == 13 {
            Some(ErrorCode::Unauthorized)
        } else if code == 14 {
            Some(ErrorCode::TypeMismatch)
        } else if code == 18 {
            Some(ErrorCode::AuthenticationFailed)
        } else if code == 262 {
            Some(ErrorCode::ExceededTimeLimit)
        } else if code == 11000 {
            Some(ErrorCode::DuplicateKey)
        } else {
            None
        }
    }
}

/// Every error is the one that its numeric code names.
pub proof fn lemma_code_names_its_error(error: ErrorCode)
    ensures
        ErrorCode::spec_from_i32(error.spec_code()) == Some(error),
{
}

/// What a command error holds, with its message as characters.
pub struct CommandErrorView {
    pub code: ErrorCode,
    pub message: Seq<char>,
}

/// A command that failed: the domain error code and a message for the client.
#[derive(Debug, Clone, PartialEq, Eq)]
pub struct CommandError {
    pub code: ErrorCode,
    pub message: String,
}

impl View for CommandError {
    type V = CommandErrorView;

    open spec fn view(&self) -> CommandErrorView {
        CommandErrorView { code: self.code, message: self.message@ }
    }
}

impl CommandError {
    /// An error with the given code and message.
    pub fn documentdb_error(code: ErrorCode, message: String) -> (e: CommandError)
        ensures
            e@ == (CommandErrorView { code, message: message@ }),
    {
        CommandError { code, message }
    }

    pub fn internal_error(message: String) -> (e: CommandError)
        ensures
            e@ == (CommandErrorView { code: ErrorCode::InternalError, message: message@ }),
    {
        CommandError { code: ErrorCode::InternalError, message }
    }

    pub fn type_mismatch(message: String) -> (e: CommandError)
        ensures
            e@ == (CommandErrorView { code: ErrorCode::TypeMismatch, message: message@ }),
    {
        CommandError { code: ErrorCode::TypeMismatch, message }
    }

    pub fn bad_value(message: String) -> (e: CommandError)
        ensures
            e@ == (CommandErrorView { code: ErrorCode::BadValue, message: message@ }),
    {
        CommandError { code: ErrorCode::BadValue, message }
    }

    /// A copy of this error.
    pub fn duplicate(&self) -> (e: CommandError)
        ensures
            e@ == self@,
    {
        CommandError { code: self.code, message: self.message.clone() }
    }
}

} // verus!
