//! The typed failures of the library. Every operation fails fast: the first
//! error aborts the whole operation and is reported to the caller unchanged.

use vstd::prelude::*;
use vstd::string::StringExecFns;

use crate::text::dec_seq;
use crate::text::u32_to_decimal;

verus! {

/// One typed failure.
///
/// - `Config`: the environment or the invocation itself cannot be trusted
///   (malformed escalation hint, a non-absolute trusted program path, or a
///   privilege contract violation).
/// - `Authorization`: the caller does not own the mount path.
/// - `NotFound`: no system-owned volume carries the wanted label.
/// - `ToolExecution`: an external command exited with failure.
/// - `Decode`: structured listing output could not be decoded.
/// - `Io`: filesystem metadata for the mount path was unreadable.
#[derive(Debug)]
pub enum OpError {
    Config { message: String },
    Authorization { path_uid: u32, real_uid: u32 },
    NotFound { label: String },
    ToolExecution { message: String },
    Decode { message: String },
    Io { message: String },
}

/// The mathematical shape of an [`OpError`], with strings as character
/// sequences.
pub ghost enum OpErrorView {
    Config { message: Seq<char> },
    Authorization { path_uid: u32, real_uid: u32 },
    NotFound { label: Seq<char> },
    ToolExecution { message: Seq<char> },
    Decode { message: Seq<char> },
    Io { message: Seq<char> },
}

impl View for OpError {
    type V = OpErrorView;

    open spec fn view(&self) -> OpErrorView {
        match self {
            OpError::Config { message } => OpErrorView::Config { message: message@ },
            OpError::Authorization { path_uid, real_uid } => OpErrorView::Authorization {
                path_uid: *path_uid,
                real_uid: *real_uid,
            },
            OpError::NotFound { label } => OpErrorView::NotFound { label: label@ },
            OpError::ToolExecution { message } => OpErrorView::ToolExecution { message: message@ },
            OpError::Decode { message } => OpErrorView::Decode { message: message@ },
            OpError::Io { message } => OpErrorView::Io { message: message@ },
        }
    }
}

/// The descriptive text of an error, as a character sequence.
pub open spec fn message_spec(e: OpErrorView) -> Seq<char> {
    match e {
        OpErrorView::Config { message } => "configuration error: "@ + message,
        OpErrorView::Authorization { path_uid, real_uid } => "authorization error: path is owned by uid "@
            + dec_seq(path_uid as nat) + " but the real uid is "@ + dec_seq(real_uid as nat),
        OpErrorView::NotFound { label } => "not found: no volume named "@ + label,
        OpErrorView::ToolExecution { message } => "tool execution failed: "@ + message,
        OpErrorView::Decode { message } => "decoding error: "@ + message,
        OpErrorView::Io { message } => "io error: "@ + message,
    }
}

impl OpError {
    /// A human-readable description of the failure.
    pub fn message(&self) -> (r: String)
        ensures
            r@ == message_spec(self@),
    {
        match self {
            OpError::Config { message } => {
                let mut r = String::from_str("configuration error: ");
                r.append(message.as_str());
                r
            },
            OpError::Authorization { path_uid, real_uid } => {
                let mut r = String::from_str("authorization error: path is owned by uid ");
                r.append(u32_to_decimal(*path_uid).as_str());
                r.append(" but the real uid is ");
                r.append(u32_to_decimal(*real_uid).as_str());
                r
            },
            OpError::NotFound { label } => {
                let mut r = String::from_str("not found: no volume named ");
                r.append(label.as_str());
                r
            },
            OpError::ToolExecution { message } => {
                let mut r = String::from_str("tool execution failed: ");
                r.append(message.as_str());
                r
            },
            OpError::Decode { message } => {
                let mut r = String::from_str("decoding error: ");
                r.append(message.as_str());
                r
            },
            OpError::Io { message } => {
                let mut r = String::from_str("io error: ");
                r.append(message.as_str());
                r
            },
        }
    }
}

} // verus!
