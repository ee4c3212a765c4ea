//! Command planning: which external program runs, with which arguments, and
//! under which identity. The library never spawns a process; it produces a
//! [`CommandPlan`] and proves under what conditions one is produced. Only the
//! actual mount primitive ever runs with elevated privilege; every other
//! command is deliberately de-privileged.

use vstd::prelude::*;
use vstd::string::StrSliceExecFns;
use vstd::string::StringExecFns;

use crate::errors::OpError;
use crate::errors::OpErrorView;

verus! {

/// The identity a planned command must run under.
#[derive(Clone, Copy, PartialEq, Eq, Structural, Debug)]
pub enum Privilege {
    /// Run as the real, unprivileged caller even if the process holds
    /// elevated privilege.
    Deprivileged,
    /// Run unchanged, inheriting elevated privilege. Only the mount
    /// primitive is ever planned this way.
    Elevated,
}

/// A fully determined external command: program, arguments, identity.
pub struct CommandPlan {
    pub program: String,
    pub args: Vec<String>,
    pub privilege: Privilege,
}

/// The mathematical shape of a [`CommandPlan`].
pub ghost struct CommandPlanView {
    pub program: Seq<char>,
    pub args: Seq<Seq<char>>,
    pub privilege: Privilege,
}

impl View for CommandPlan {
    type V = CommandPlanView;

    open spec fn view(&self) -> CommandPlanView {
        CommandPlanView {
            program: self.program@,
            args: self.args.deep_view(),
            privilege: self.privilege,
        }
    }
}

/// An absolute path: non-empty and rooted.
pub open spec fn is_absolute_spec(s: Seq<char>) -> bool {
    s.len() > 0 && s[0] == '/'
}

/// The diagnostic for a trusted program path that is not absolute.
pub open spec fn not_absolute_msg() -> Seq<char> {
    "program path is not absolute"@
}

/// The diagnostic for an elevated command planned without root privilege.
pub open spec fn root_required_msg() -> Seq<char> {
    "contract violation: root privilege is required but absent"@
}

/// Is `s` an absolute path?
pub fn is_absolute_path(s: &str) -> (b: bool)
    ensures
        b == is_absolute_spec(s@),
{
    s.unicode_len() > 0 && s.get_char(0) == '/'
}

/// Plan a command that runs as the real caller. The program path must be
/// absolute; anything else is a configuration error, never worked around.
pub fn plan_unprivileged_command(program: &str, args: Vec<String>) -> (r: Result<
    CommandPlan,
    OpError,
>)
    ensures
        r is Ok <==> is_absolute_spec(program@),
        r matches Ok(p) ==> p@ == (CommandPlanView {
            program: program@,
            args: args.deep_view(),
            privilege: Privilege::Deprivileged,
        }),
        r matches Err(e) ==> e@ == (OpErrorView::Config { message: not_absolute_msg() }),
{
    if !is_absolute_path(program) {
        return Err(
            OpError::Config { message: String::from_str("program path is not absolute") },
        );
    }
    Ok(
        CommandPlan {
            program: String::from_str(program),
            args,
            privilege: Privilege::Deprivileged,
        },
    )
}

/// Plan a command that runs with elevated privilege, unchanged. The
/// caller must already have confirmed that the process's effective
/// identity is root: calling this without that confirmation is a fatal
/// contract violation, rejected when the caller is verified, and one that
/// an unverified caller must assert before reaching. The program path must
/// be absolute; anything else is a configuration error.
pub fn plan_privileged_command(program: &str, args: Vec<String>, effective_uid: u32) -> (r: Result<
    CommandPlan,
    OpError,
>)
    requires
        effective_uid == 0,
    ensures
        r is Ok <==> is_absolute_spec(program@),
        r matches Ok(p) ==> p@ == (CommandPlanView {
            program: program@,
            args: args.deep_view(),
            privilege: Privilege::Elevated,
        }),
        r matches Err(e) ==> e@ == (OpErrorView::Config { message: not_absolute_msg() }),
{
    if !is_absolute_path(program) {
        return Err(
            OpError::Config { message: String::from_str("program path is not absolute") },
        );
    }
    Ok(
        CommandPlan {
            program: String::from_str(program),
            args,
            privilege: Privilege::Elevated,
        },
    )
}

/// The identity a de-privileged command must drop to before it runs: when the
/// process holds elevated effective privilege, the real caller's uid and gid;
/// otherwise nothing needs forcing.
pub fn deprivileged_ids(effective_uid: u32, real_uid: u32, real_gid: u32) -> (r: Option<
    (u32, u32),
>)
    ensures
        r == if effective_uid == 0 {
            Some((real_uid, real_gid))
        } else {
            None::<(u32, u32)>
        },
{
    if effective_uid == 0 {
        Some((real_uid, real_gid))
    } else {
        None
    }
}

} // verus!
