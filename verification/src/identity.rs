//! Resolving the real, unprivileged identity of the caller, even when the
//! process runs with an elevated effective identity.

use vstd::prelude::*;
use vstd::string::StringExecFns;

use crate::errors::OpError;
use crate::errors::OpErrorView;
use crate::text::all_digits;
use crate::text::dec_val;
use crate::text::parse_u32_decimal;

verus! {

/// The escalation-context hint: what the environment says about who invoked
/// the privilege escalation, when the process is genuinely root.
pub enum EscalationHint {
    /// No hint is present: the caller really is root.
    Absent,
    /// The hint is present as a text value (expected: a numeric uid).
    Text(String),
    /// The hint is present but holds non-text data. Never silently ignored.
    NotText,
}

/// Whether a hint text is a well-formed uid: non-empty, purely numeric, and
/// within range.
pub open spec fn valid_hint(s: Seq<char>) -> bool {
    s.len() > 0 && all_digits(s) && dec_val(s) <= u32::MAX
}

/// Determine the real caller's uid. A non-zero real uid is the answer
/// itself. A real uid of zero means the process is genuinely root, so the
/// escalation hint decides: absent keeps root, a valid numeric hint names
/// the caller, and anything malformed is fatal, never worked around.
pub fn resolve_real_uid(real_uid: u32, hint: &EscalationHint) -> (r: Result<u32, OpError>)
    ensures
        real_uid != 0 ==> (r matches Ok(u) && u == real_uid),
        real_uid == 0 && hint is Absent ==> (r matches Ok(u) && u == 0),
        real_uid == 0 && hint is NotText ==> (r matches Err(e) && e@ is Config),
        real_uid == 0 ==> (hint matches EscalationHint::Text(s) ==> if valid_hint(s@) {
            r matches Ok(u) && u as nat == dec_val(s@)
        } else {
            r matches Err(e) && e@ is Config
        }),
{
    if real_uid != 0 {
        return Ok(real_uid);
    }
    match hint {
        EscalationHint::Absent => Ok(0),
        EscalationHint::NotText => Err(
            OpError::Config { message: String::from_str("the escalation hint is not text") },
        ),
        EscalationHint::Text(s) => match parse_u32_decimal(s.as_str()) {
            Some(uid) => Ok(uid),
            None => Err(
                OpError::Config {
                    message: String::from_str(
                        "the escalation hint is not a numeric uid",
                    ),
                },
            ),
        },
    }
}

} // verus!
