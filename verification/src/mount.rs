//! The mount flow: an explicit state machine over plain values.
//!
//! Each step consumes one event (the outcome of the previous external
//! action) and decides the next state and the next action. The caller
//! performs the actions — reading filesystem metadata, resolving the real
//! identity, running the catalog query, spawning planned commands, changing
//! ownership — and feeds the outcome back in. The ordered checks of the
//! flow live here, verified: the ownership check comes before everything
//! else, an existing volume is re-used rather than re-created, a volume
//! auto-mounted elsewhere is force-unmounted first, and the one elevated
//! command — the mount primitive itself — is only ever planned after the
//! check has passed and with root privilege confirmed.

use vstd::prelude::*;
use vstd::string::StringExecFns;

use crate::catalog::add_volume_args_spec;
use crate::catalog::diskutil_path;
use crate::catalog::find_existing_volume;
use crate::catalog::find_in_containers;
use crate::catalog::plan_add_volume_command;
use crate::catalog::plan_unmount_command;
use crate::catalog::unmount_args_spec;
use crate::catalog::ApfsContainer;
use crate::catalog::ContainerView;
use crate::codec::encode_mount_point_as_volume_name;
use crate::codec::encode_spec;
use crate::commands::is_absolute_spec;
use crate::commands::plan_privileged_command;
use crate::commands::root_required_msg;
use crate::commands::CommandPlan;
use crate::commands::CommandPlanView;
use crate::commands::Privilege;
use crate::errors::OpError;
use crate::errors::OpErrorView;
use crate::text::dec_seq;
use crate::text::str_eq;
use crate::text::u32_to_decimal;

verus! {

/// The recorded owner of the mount path, as the filesystem reports it.
#[derive(Clone, Copy, PartialEq, Eq, Structural, Debug)]
pub struct FileOwner {
    pub uid: u32,
    pub gid: u32,
}

/// Where the mount flow stands: each waiting state names the action whose
/// outcome it expects next.
pub enum MountState {
    Start,
    AwaitPathInfo,
    AwaitIdentity { owner: FileOwner },
    AwaitListing { owner: FileOwner, real_uid: u32 },
    AwaitPreUnmount { owner: FileOwner, real_uid: u32, device: String },
    AwaitCreation { owner: FileOwner, real_uid: u32 },
    AwaitRelisting { owner: FileOwner, real_uid: u32 },
    AwaitMount { owner: FileOwner, real_uid: u32 },
    AwaitChown { owner: FileOwner },
    Done,
    Failed(OpError),
}

/// The mathematical shape of a [`MountState`].
pub ghost enum MountStateView {
    Start,
    AwaitPathInfo,
    AwaitIdentity { owner: FileOwner },
    AwaitListing { owner: FileOwner, real_uid: u32 },
    AwaitPreUnmount { owner: FileOwner, real_uid: u32, device: Seq<char> },
    AwaitCreation { owner: FileOwner, real_uid: u32 },
    AwaitRelisting { owner: FileOwner, real_uid: u32 },
    AwaitMount { owner: FileOwner, real_uid: u32 },
    AwaitChown { owner: FileOwner },
    Done,
    Failed(OpErrorView),
}

impl View for MountState {
    type V = MountStateView;

    open spec fn view(&self) -> MountStateView {
        match self {
            MountState::Start => MountStateView::Start,
            MountState::AwaitPathInfo => MountStateView::AwaitPathInfo,
            MountState::AwaitIdentity { owner } => MountStateView::AwaitIdentity { owner: *owner },
            MountState::AwaitListing { owner, real_uid } => MountStateView::AwaitListing {
                owner: *owner,
                real_uid: *real_uid,
            },
            MountState::AwaitPreUnmount { owner, real_uid, device } => MountStateView::AwaitPreUnmount {
                owner: *owner,
                real_uid: *real_uid,
                device: device@,
            },
            MountState::AwaitCreation { owner, real_uid } => MountStateView::AwaitCreation {
                owner: *owner,
                real_uid: *real_uid,
            },
            MountState::AwaitRelisting { owner, real_uid } => MountStateView::AwaitRelisting {
                owner: *owner,
                real_uid: *real_uid,
            },
            MountState::AwaitMount { owner, real_uid } => MountStateView::AwaitMount {
                owner: *owner,
                real_uid: *real_uid,
            },
            MountState::AwaitChown { owner } => MountStateView::AwaitChown { owner: *owner },
            MountState::Done => MountStateView::Done,
            MountState::Failed(e) => MountStateView::Failed(e@),
        }
    }
}

/// One outcome handed back to the flow.
pub enum MountEvent {
    /// Nothing has happened yet; ask for the first action.
    Begin,
    /// The filesystem metadata of the mount path, or the reason it was
    /// unreadable.
    PathInfo(Result<FileOwner, String>),
    /// The resolved real uid of the caller, or the failure of resolving it.
    RealUid(Result<u32, OpError>),
    /// The decoded catalog, or the failure of querying or decoding it.
    Listing(Result<Vec<ApfsContainer>, OpError>),
    /// Completion of the last planned command, or its failure text.
    CommandDone(Result<(), String>),
    /// Completion of the ownership fixup, or its failure text.
    ChownDone(Result<(), String>),
}

/// The mathematical shape of a [`MountEvent`].
pub ghost enum MountEventView {
    Begin,
    PathInfo(Result<FileOwner, Seq<char>>),
    RealUid(Result<u32, OpErrorView>),
    Listing(Result<Seq<ContainerView>, OpErrorView>),
    CommandDone(Result<(), Seq<char>>),
    ChownDone(Result<(), Seq<char>>),
}

impl View for MountEvent {
    type V = MountEventView;

    open spec fn view(&self) -> MountEventView {
        match self {
            MountEvent::Begin => MountEventView::Begin,
            MountEvent::PathInfo(res) => MountEventView::PathInfo(
                match res {
                    Ok(owner) => Ok(*owner),
                    Err(m) => Err(m@),
                },
            ),
            MountEvent::RealUid(res) => MountEventView::RealUid(
                match res {
                    Ok(u) => Ok(*u),
                    Err(e) => Err(e@),
                },
            ),
            MountEvent::Listing(res) => MountEventView::Listing(
                match res {
                    Ok(cs) => Ok(cs.deep_view()),
                    Err(e) => Err(e@),
                },
            ),
            MountEvent::CommandDone(res) => MountEventView::CommandDone(
                match res {
                    Ok(u) => Ok(*u),
                    Err(m) => Err(m@),
                },
            ),
            MountEvent::ChownDone(res) => MountEventView::ChownDone(
                match res {
                    Ok(u) => Ok(*u),
                    Err(m) => Err(m@),
                },
            ),
        }
    }
}

/// What the caller must do next.
pub enum MountAction {
    /// Nothing: the flow is finished or has failed.
    Idle,
    /// Read the uid and gid of the mount path from the filesystem.
    ReadPathInfo,
    /// Resolve the caller's real uid.
    ResolveIdentity,
    /// Run the catalog query and decode its output.
    ListCatalog,
    /// Spawn the planned command under its planned identity.
    Run(CommandPlan),
    /// Change ownership of the mount path to the given uid and gid.
    Chown { uid: u32, gid: u32 },
}

/// The mathematical shape of a [`MountAction`].
pub ghost enum MountActionView {
    Idle,
    ReadPathInfo,
    ResolveIdentity,
    ListCatalog,
    Run(CommandPlanView),
    Chown { uid: u32, gid: u32 },
}

impl View for MountAction {
    type V = MountActionView;

    open spec fn view(&self) -> MountActionView {
        match self {
            MountAction::Idle => MountActionView::Idle,
            MountAction::ReadPathInfo => MountActionView::ReadPathInfo,
            MountAction::ResolveIdentity => MountActionView::ResolveIdentity,
            MountAction::ListCatalog => MountActionView::ListCatalog,
            MountAction::Run(p) => MountActionView::Run(p@),
            MountAction::Chown { uid, gid } => MountActionView::Chown { uid: *uid, gid: *gid },
        }
    }
}

/// Path of the privileged mount primitive.
pub open spec fn mount_apfs_path() -> Seq<char> {
    "/sbin/mount_apfs"@
}

/// The arguments of the privileged mount command: device files and setuid
/// binaries disabled, no browsing, ownership taken from the mount path's
/// own metadata, the device under its device tree path, then the target.
pub open spec fn mount_args_spec(device: Seq<char>, uid: u32, gid: u32, mp: Seq<char>) -> Seq<
    Seq<char>,
> {
    seq![
        "-onobrowse,nodev,nosuid"@,
        "-u"@,
        dec_seq(uid as nat),
        "-g"@,
        dec_seq(gid as nat),
        "/dev/"@ + device,
        mp,
    ]
}

/// The one elevated command of the whole system.
pub open spec fn mount_plan_view(device: Seq<char>, uid: u32, gid: u32, mp: Seq<char>) -> CommandPlanView {
    CommandPlanView {
        program: mount_apfs_path(),
        args: mount_args_spec(device, uid, gid, mp),
        privilege: Privilege::Elevated,
    }
}

/// The diagnostic for an event that the current state does not expect.
pub open spec fn protocol_msg() -> Seq<char> {
    "protocol violation: unexpected event"@
}

/// The step taken once a device is resolved: plan the elevated mount when
/// root privilege is confirmed, fail the flow otherwise.
pub open spec fn mount_or_fail(
    mp: Seq<char>,
    effective_uid: u32,
    owner: FileOwner,
    real_uid: u32,
    device: Seq<char>,
) -> (MountStateView, MountActionView) {
    if effective_uid == 0 {
        (
            MountStateView::AwaitMount { owner, real_uid },
            MountActionView::Run(mount_plan_view(device, owner.uid, owner.gid, mp)),
        )
    } else {
        (
            MountStateView::Failed(OpErrorView::Config { message: root_required_msg() }),
            MountActionView::Idle,
        )
    }
}

/// The whole transition relation of the mount flow, in the order the
/// design fixes: metadata, then identity, then the ownership check, then
/// lookup, then (re-)use or creation, then the elevated mount, then the
/// ownership fixup. A failed fixup reports the failure but leaves the
/// mount in place.
pub open spec fn mount_transition(
    mp: Seq<char>,
    effective_uid: u32,
    s: MountStateView,
    e: MountEventView,
) -> (MountStateView, MountActionView) {
    match (s, e) {
        (MountStateView::Start, MountEventView::Begin) => (
            MountStateView::AwaitPathInfo,
            MountActionView::ReadPathInfo,
        ),
        (MountStateView::AwaitPathInfo, MountEventView::PathInfo(res)) => match res {
            Ok(owner) => (
                MountStateView::AwaitIdentity { owner },
                MountActionView::ResolveIdentity,
            ),
            Err(m) => (
                MountStateView::Failed(OpErrorView::Io { message: m }),
                MountActionView::Idle,
            ),
        },
        (MountStateView::AwaitIdentity { owner }, MountEventView::RealUid(res)) => match res {
            Ok(real_uid) => if real_uid == owner.uid {
                (MountStateView::AwaitListing { owner, real_uid }, MountActionView::ListCatalog)
            } else {
                (
                    MountStateView::Failed(
                        OpErrorView::Authorization { path_uid: owner.uid, real_uid },
                    ),
                    MountActionView::Idle,
                )
            },
            Err(err) => (MountStateView::Failed(err), MountActionView::Idle),
        },
        (MountStateView::AwaitListing { owner, real_uid }, MountEventView::Listing(res)) => match res {
            Ok(cs) => match find_in_containers(cs, encode_spec(mp)) {
                Some(v) => if v.mount_point is Some && v.mount_point != Some(mp) {
                    (
                        MountStateView::AwaitPreUnmount {
                            owner,
                            real_uid,
                            device: v.device_identifier,
                        },
                        MountActionView::Run(
                            CommandPlanView {
                                program: diskutil_path(),
                                args: unmount_args_spec(v.device_identifier, true),
                                privilege: Privilege::Deprivileged,
                            },
                        ),
                    )
                } else {
                    mount_or_fail(mp, effective_uid, owner, real_uid, v.device_identifier)
                },
                None => (
                    MountStateView::AwaitCreation { owner, real_uid },
                    MountActionView::Run(
                        CommandPlanView {
                            program: diskutil_path(),
                            args: add_volume_args_spec(encode_spec(mp)),
                            privilege: Privilege::Deprivileged,
                        },
                    ),
                ),
            },
            Err(err) => (MountStateView::Failed(err), MountActionView::Idle),
        },
        (
            MountStateView::AwaitPreUnmount { owner, real_uid, device },
            MountEventView::CommandDone(res),
        ) => match res {
            Ok(_) => mount_or_fail(mp, effective_uid, owner, real_uid, device),
            Err(m) => (
                MountStateView::Failed(OpErrorView::ToolExecution { message: m }),
                MountActionView::Idle,
            ),
        },
        (MountStateView::AwaitCreation { owner, real_uid }, MountEventView::CommandDone(res)) => match res {
            Ok(_) => (
                MountStateView::AwaitRelisting { owner, real_uid },
                MountActionView::ListCatalog,
            ),
            Err(m) => (
                MountStateView::Failed(OpErrorView::ToolExecution { message: m }),
                MountActionView::Idle,
            ),
        },
        (MountStateView::AwaitRelisting { owner, real_uid }, MountEventView::Listing(res)) => match res {
            Ok(cs) => match find_in_containers(cs, encode_spec(mp)) {
                Some(v) => mount_or_fail(mp, effective_uid, owner, real_uid, v.device_identifier),
                None => (
                    MountStateView::Failed(OpErrorView::NotFound { label: encode_spec(mp) }),
                    MountActionView::Idle,
                ),
            },
            Err(err) => (MountStateView::Failed(err), MountActionView::Idle),
        },
        (MountStateView::AwaitMount { owner, real_uid }, MountEventView::CommandDone(res)) => match res {
            Ok(_) => (
                MountStateView::AwaitChown { owner },
                MountActionView::Chown { uid: owner.uid, gid: owner.gid },
            ),
            Err(m) => (
                MountStateView::Failed(OpErrorView::ToolExecution { message: m }),
                MountActionView::Idle,
            ),
        },
        (MountStateView::AwaitChown { owner }, MountEventView::ChownDone(res)) => match res {
            Ok(_) => (MountStateView::Done, MountActionView::Idle),
            Err(m) => (
                MountStateView::Failed(OpErrorView::ToolExecution { message: m }),
                MountActionView::Idle,
            ),
        },
        (MountStateView::Done, _) => (MountStateView::Done, MountActionView::Idle),
        (MountStateView::Failed(err), _) => (MountStateView::Failed(err), MountActionView::Idle),
        _ => (
            MountStateView::Failed(OpErrorView::Config { message: protocol_msg() }),
            MountActionView::Idle,
        ),
    }
}

/// Plan the one elevated command: mount `device` at `mount_point` with the
/// path owner's uid and gid, device files, setuid binaries and browsing
/// disabled. The caller must already have confirmed root privilege:
/// calling this without it is a fatal contract violation, and without
/// that confirmation no command is ever planned.
pub fn plan_mount_command(
    device: &str,
    uid: u32,
    gid: u32,
    mount_point: &str,
    effective_uid: u32,
) -> (r: CommandPlan)
    requires
        effective_uid == 0,
    ensures
        r@ == mount_plan_view(device@, uid, gid, mount_point@),
{
    let mut args: Vec<String> = Vec::new();
    args.push(String::from_str("-onobrowse,nodev,nosuid"));
    args.push(String::from_str("-u"));
    args.push(u32_to_decimal(uid));
    args.push(String::from_str("-g"));
    args.push(u32_to_decimal(gid));
    let mut dev = String::from_str("/dev/");
    dev.append(device);
    args.push(dev);
    args.push(String::from_str(mount_point));
    proof {
        reveal_strlit("/sbin/mount_apfs");
        assert(is_absolute_spec("/sbin/mount_apfs"@));
        assert(args.deep_view() =~= mount_args_spec(device@, uid, gid, mount_point@));
    }
    match plan_privileged_command("/sbin/mount_apfs", args, effective_uid) {
        Ok(plan) => plan,
        Err(_) => vstd::pervasive::unreached(),
    }
}

fn step_mount(
    mount_point: &str,
    effective_uid: u32,
    owner: FileOwner,
    real_uid: u32,
    device: &str,
) -> (r: (MountState, MountAction))
    ensures
        (r.0@, r.1@) == mount_or_fail(mount_point@, effective_uid, owner, real_uid, device@),
{
    if effective_uid == 0 {
        let plan = plan_mount_command(device, owner.uid, owner.gid, mount_point, effective_uid);
        (MountState::AwaitMount { owner, real_uid }, MountAction::Run(plan))
    } else {
        (
            MountState::Failed(
                OpError::Config {
                    message: String::from_str(
                        "contract violation: root privilege is required but absent",
                    ),
                },
            ),
            MountAction::Idle,
        )
    }
}

/// One run of the mount flow for one target path.
pub struct MountFlow {
    pub mount_point: String,
    pub effective_uid: u32,
    pub state: MountState,
}

/// The mathematical shape of a [`MountFlow`].
pub ghost struct MountFlowView {
    pub mount_point: Seq<char>,
    pub effective_uid: u32,
    pub state: MountStateView,
}

impl View for MountFlow {
    type V = MountFlowView;

    open spec fn view(&self) -> MountFlowView {
        MountFlowView {
            mount_point: self.mount_point@,
            effective_uid: self.effective_uid,
            state: self.state@,
        }
    }
}

impl MountFlow {
    /// Begin the mount flow for `mount_point`, with the process's current
    /// effective identity passed in explicitly.
    pub fn new(mount_point: String, effective_uid: u32) -> (r: MountFlow)
        ensures
            r@ == (MountFlowView {
                mount_point: mount_point@,
                effective_uid,
                state: MountStateView::Start,
            }),
    {
        MountFlow { mount_point, effective_uid, state: MountState::Start }
    }

    /// Consume one event and decide the next state and action, exactly as
    /// [`mount_transition`] specifies.
    pub fn step(self, event: MountEvent) -> (r: (MountFlow, MountAction))
        ensures
            ({
                let (s2, a2) = mount_transition(
                    self@.mount_point,
                    self@.effective_uid,
                    self@.state,
                    event@,
                );
                r.0@ == (MountFlowView {
                    mount_point: self@.mount_point,
                    effective_uid: self@.effective_uid,
                    state: s2,
                }) && r.1@ == a2
            }),
    {
        let MountFlow { mount_point, effective_uid, state } = self;
        let (next, action) = match (state, event) {
            (MountState::Start, MountEvent::Begin) => (
                MountState::AwaitPathInfo,
                MountAction::ReadPathInfo,
            ),
            (MountState::AwaitPathInfo, MountEvent::PathInfo(Ok(owner))) => (
                MountState::AwaitIdentity { owner },
                MountAction::ResolveIdentity,
            ),
            (MountState::AwaitPathInfo, MountEvent::PathInfo(Err(m))) => (
                MountState::Failed(OpError::Io { message: m }),
                MountAction::Idle,
            ),
            (MountState::AwaitIdentity { owner }, MountEvent::RealUid(Ok(real_uid))) => {
                if real_uid == owner.uid {
                    (MountState::AwaitListing { owner, real_uid }, MountAction::ListCatalog)
                } else {
                    (
                        MountState::Failed(
                            OpError::Authorization { path_uid: owner.uid, real_uid },
                        ),
                        MountAction::Idle,
                    )
                }
            },
            (MountState::AwaitIdentity { .. }, MountEvent::RealUid(Err(err))) => (
                MountState::Failed(err),
                MountAction::Idle,
            ),
            (
                MountState::AwaitListing { owner, real_uid },
                MountEvent::Listing(Ok(containers)),
            ) => {
                let label = encode_mount_point_as_volume_name(mount_point.as_str());
                match find_existing_volume(&containers, label.as_str()) {
                    Some(volume) => {
                        let mounted_elsewhere = match &volume.mount_point {
                            Some(at) => !str_eq(at.as_str(), mount_point.as_str()),
                            None => false,
                        };
                        if mounted_elsewhere {
                            let device = volume.device_identifier.clone();
                            let plan = plan_unmount_command(device.as_str(), true);
                            (
                                MountState::AwaitPreUnmount { owner, real_uid, device },
                                MountAction::Run(plan),
                            )
                        } else {
                            step_mount(
                                mount_point.as_str(),
                                effective_uid,
                                owner,
                                real_uid,
                                volume.device_identifier.as_str(),
                            )
                        }
                    },
                    None => {
                        let plan = plan_add_volume_command(label.as_str());
                        (MountState::AwaitCreation { owner, real_uid }, MountAction::Run(plan))
                    },
                }
            },
            (MountState::AwaitListing { .. }, MountEvent::Listing(Err(err))) => (
                MountState::Failed(err),
                MountAction::Idle,
            ),
            (
                MountState::AwaitPreUnmount { owner, real_uid, device },
                MountEvent::CommandDone(Ok(())),
            ) => step_mount(mount_point.as_str(), effective_uid, owner, real_uid, device.as_str()),
            (MountState::AwaitPreUnmount { .. }, MountEvent::CommandDone(Err(m))) => (
                MountState::Failed(OpError::ToolExecution { message: m }),
                MountAction::Idle,
            ),
            (
                MountState::AwaitCreation { owner, real_uid },
                MountEvent::CommandDone(Ok(())),
            ) => (MountState::AwaitRelisting { owner, real_uid }, MountAction::ListCatalog),
            (MountState::AwaitCreation { .. }, MountEvent::CommandDone(Err(m))) => (
                MountState::Failed(OpError::ToolExecution { message: m }),
                MountAction::Idle,
            ),
            (
                MountState::AwaitRelisting { owner, real_uid },
                MountEvent::Listing(Ok(containers)),
            ) => {
                let label = encode_mount_point_as_volume_name(mount_point.as_str());
                match find_existing_volume(&containers, label.as_str()) {
                    Some(volume) => step_mount(
                        mount_point.as_str(),
                        effective_uid,
                        owner,
                        real_uid,
                        volume.device_identifier.as_str(),
                    ),
                    None => (
                        MountState::Failed(OpError::NotFound { label }),
                        MountAction::Idle,
                    ),
                }
            },
            (MountState::AwaitRelisting { .. }, MountEvent::Listing(Err(err))) => (
                MountState::Failed(err),
                MountAction::Idle,
            ),
            (MountState::AwaitMount { owner, real_uid: _ }, MountEvent::CommandDone(Ok(()))) => (
                MountState::AwaitChown { owner },
                MountAction::Chown { uid: owner.uid, gid: owner.gid },
            ),
            (MountState::AwaitMount { .. }, MountEvent::CommandDone(Err(m))) => (
                MountState::Failed(OpError::ToolExecution { message: m }),
                MountAction::Idle,
            ),
            (MountState::AwaitChown { .. }, MountEvent::ChownDone(Ok(()))) => (
                MountState::Done,
                MountAction::Idle,
            ),
            (MountState::AwaitChown { .. }, MountEvent::ChownDone(Err(m))) => (
                MountState::Failed(OpError::ToolExecution { message: m }),
                MountAction::Idle,
            ),
            (MountState::Done, _) => (MountState::Done, MountAction::Idle),
            (MountState::Failed(err), _) => (MountState::Failed(err), MountAction::Idle),
            _ => (
                MountState::Failed(
                    OpError::Config {
                        message: String::from_str("protocol violation: unexpected event"),
                    },
                ),
                MountAction::Idle,
            ),
        };
        (MountFlow { mount_point, effective_uid, state: next }, action)
    }
}

/// A state is well-formed when everything recorded past the ownership check
/// still says the real caller owns the path.
pub open spec fn wf_state(s: MountStateView) -> bool {
    match s {
        MountStateView::AwaitListing { owner, real_uid } => real_uid == owner.uid,
        MountStateView::AwaitPreUnmount { owner, real_uid, .. } => real_uid == owner.uid,
        MountStateView::AwaitCreation { owner, real_uid } => real_uid == owner.uid,
        MountStateView::AwaitRelisting { owner, real_uid } => real_uid == owner.uid,
        MountStateView::AwaitMount { owner, real_uid } => real_uid == owner.uid,
        _ => true,
    }
}

/// A state that stands past the ownership check: it records a caller who
/// owns the path and may still lead to the elevated mount.
pub open spec fn authorized_state(s: MountStateView) -> bool {
    match s {
        MountStateView::AwaitListing { owner, real_uid } => real_uid == owner.uid,
        MountStateView::AwaitPreUnmount { owner, real_uid, .. } => real_uid == owner.uid,
        MountStateView::AwaitRelisting { owner, real_uid } => real_uid == owner.uid,
        _ => false,
    }
}

/// Every step preserves well-formedness: once past the ownership check, the flow
/// never forgets that the caller owns the path.
pub proof fn lemma_step_preserves_wf(
    mp: Seq<char>,
    effective_uid: u32,
    s: MountStateView,
    e: MountEventView,
)
    requires
        wf_state(s),
    ensures
        wf_state(mount_transition(mp, effective_uid, s, e).0),
{
}

/// A caller who does not own the path is rejected at the ownership check with an
/// authorization error, and the flow takes no action at all.
pub proof fn lemma_unauthorized_caller_rejected(
    mp: Seq<char>,
    effective_uid: u32,
    owner: FileOwner,
    real_uid: u32,
)
    requires
        real_uid != owner.uid,
    ensures
        mount_transition(
            mp,
            effective_uid,
            MountStateView::AwaitIdentity { owner },
            MountEventView::RealUid(Ok(real_uid)),
        ) == (
            MountStateView::Failed(OpErrorView::Authorization { path_uid: owner.uid, real_uid }),
            MountActionView::Idle,
        ),
{
}

/// A failed flow is inert: whatever arrives, the failure is kept and no
/// further action — in particular no command — is ever taken.
pub proof fn lemma_failed_flow_is_inert(
    mp: Seq<char>,
    effective_uid: u32,
    err: OpErrorView,
    e: MountEventView,
)
    ensures
        mount_transition(mp, effective_uid, MountStateView::Failed(err), e) == (
            MountStateView::Failed(err),
            MountActionView::Idle,
        ),
{
}

/// The elevated mount command is only ever planned from a state past the
/// ownership check, so a caller who does not own the path can never cause
/// it: their flow fails at that check and stays inert.
pub proof fn lemma_elevated_only_when_authorized(
    mp: Seq<char>,
    effective_uid: u32,
    s: MountStateView,
    e: MountEventView,
)
    requires
        wf_state(s),
        ({
            let a = mount_transition(mp, effective_uid, s, e).1;
            a matches MountActionView::Run(p) && p.privilege == Privilege::Elevated
        }),
    ensures
        authorized_state(s),
{
}

/// A target whose volume already exists is never provisioned again: the
/// flow re-uses the found volume, and when it is already mounted at the
/// right place it goes straight to the elevated mount of that device.
pub proof fn lemma_existing_volume_reused(
    mp: Seq<char>,
    effective_uid: u32,
    owner: FileOwner,
    real_uid: u32,
    cs: Seq<ContainerView>,
)
    requires
        find_in_containers(cs, encode_spec(mp)) is Some,
    ensures
        !(mount_transition(
            mp,
            effective_uid,
            MountStateView::AwaitListing { owner, real_uid },
            MountEventView::Listing(Ok(cs)),
        ).0 is AwaitCreation),
        match find_in_containers(cs, encode_spec(mp)) {
            Some(v) => (v.mount_point == Some(mp) && effective_uid == 0) ==> mount_transition(
                mp,
                effective_uid,
                MountStateView::AwaitListing { owner, real_uid },
                MountEventView::Listing(Ok(cs)),
            ) == (
                MountStateView::AwaitMount { owner, real_uid },
                MountActionView::Run(mount_plan_view(v.device_identifier, owner.uid, owner.gid, mp)),
            ),
            None => true,
        },
{
}

} // verus!
