use apfs_mount_helper::catalog::ApfsContainer;
use apfs_mount_helper::catalog::ApfsVolume;
use apfs_mount_helper::commands::Privilege;
use apfs_mount_helper::errors::OpError;
use apfs_mount_helper::mount::FileOwner;
use apfs_mount_helper::mount::MountAction;
use apfs_mount_helper::mount::MountEvent;
use apfs_mount_helper::mount::MountFlow;
use apfs_mount_helper::mount::MountState;

const TARGET: &str = "/Users/u/repo/buck-out";

fn catalog_with(volumes: Vec<ApfsVolume>) -> Vec<ApfsContainer> {
    vec![ApfsContainer { container_reference: "disk1".to_owned(), volumes }]
}

fn own_volume(mount_point: Option<&str>) -> ApfsVolume {
    ApfsVolume {
        device_identifier: "disk1s5".to_owned(),
        mount_point: mount_point.map(|s| s.to_owned()),
        name: Some(format!("edenfs:{}", TARGET)),
    }
}

/// Drive the flow through metadata and identity with the given uids.
fn flow_past_gate(owner_uid: u32, real_uid: u32) -> (MountFlow, MountAction) {
    let flow = MountFlow::new(TARGET.to_owned(), 0);
    let (flow, action) = flow.step(MountEvent::Begin);
    assert!(matches!(action, MountAction::ReadPathInfo));
    let (flow, action) = flow.step(MountEvent::PathInfo(Ok(FileOwner {
        uid: owner_uid,
        gid: 20,
    })));
    assert!(matches!(action, MountAction::ResolveIdentity));
    flow.step(MountEvent::RealUid(Ok(real_uid)))
}

#[test]
fn unauthorized_caller_fails_at_the_gate_with_no_action() {
    let (flow, action) = flow_past_gate(0, 501);
    assert!(matches!(action, MountAction::Idle));
    match &flow.state {
        MountState::Failed(OpError::Authorization { path_uid, real_uid }) => {
            assert_eq!(*path_uid, 0);
            assert_eq!(*real_uid, 501);
        },
        _ => panic!("expected an authorization failure"),
    }
    // The failed flow is inert: nothing later ever plans a command.
    let (flow, action) = flow.step(MountEvent::Listing(Ok(vec![])));
    assert!(matches!(action, MountAction::Idle));
    assert!(matches!(flow.state, MountState::Failed(_)));
}

#[test]
fn owner_passes_the_gate_and_queries_the_catalog() {
    let (flow, action) = flow_past_gate(501, 501);
    assert!(matches!(action, MountAction::ListCatalog));
    assert!(matches!(flow.state, MountState::AwaitListing { .. }));
}

#[test]
fn existing_volume_is_reused_not_recreated() {
    let (flow, _) = flow_past_gate(501, 501);
    let listing = catalog_with(vec![own_volume(Some(TARGET))]);
    let (flow, action) = flow.step(MountEvent::Listing(Ok(listing)));
    match action {
        MountAction::Run(plan) => {
            assert_eq!(plan.program, "/sbin/mount_apfs");
            assert_eq!(plan.privilege, Privilege::Elevated);
            assert_eq!(plan.args[5], "/dev/disk1s5");
        },
        _ => panic!("expected the mount command, not volume creation"),
    }
    assert!(matches!(flow.state, MountState::AwaitMount { .. }));
}

#[test]
fn volume_auto_mounted_elsewhere_is_force_unmounted_first() {
    let (flow, _) = flow_past_gate(501, 501);
    let listing = catalog_with(vec![own_volume(Some("/Volumes/somewhere"))]);
    let (flow, action) = flow.step(MountEvent::Listing(Ok(listing)));
    match action {
        MountAction::Run(plan) => {
            assert_eq!(plan.program, "/usr/sbin/diskutil");
            assert_eq!(
                plan.args,
                vec!["unmount".to_owned(), "force".to_owned(), "disk1s5".to_owned()]
            );
            assert_eq!(plan.privilege, Privilege::Deprivileged);
        },
        _ => panic!("expected a forced unmount"),
    }
    assert!(matches!(flow.state, MountState::AwaitPreUnmount { .. }));
    let (flow, action) = flow.step(MountEvent::CommandDone(Ok(())));
    match action {
        MountAction::Run(plan) => {
            assert_eq!(plan.program, "/sbin/mount_apfs");
            assert_eq!(plan.privilege, Privilege::Elevated);
        },
        _ => panic!("expected the mount command after the unmount"),
    }
    assert!(matches!(flow.state, MountState::AwaitMount { .. }));
}

#[test]
fn missing_volume_is_created_without_auto_mount_then_relocated() {
    let (flow, _) = flow_past_gate(501, 501);
    let (flow, action) = flow.step(MountEvent::Listing(Ok(catalog_with(vec![]))));
    match action {
        MountAction::Run(plan) => {
            assert_eq!(plan.program, "/usr/sbin/diskutil");
            assert_eq!(
                plan.args,
                vec![
                    "apfs".to_owned(),
                    "addVolume".to_owned(),
                    "disk1".to_owned(),
                    "apfs".to_owned(),
                    format!("edenfs:{}", TARGET),
                    "-nomount".to_owned(),
                ]
            );
            assert_eq!(plan.privilege, Privilege::Deprivileged);
        },
        _ => panic!("expected volume creation"),
    }
    assert!(matches!(flow.state, MountState::AwaitCreation { .. }));
    let (flow, action) = flow.step(MountEvent::CommandDone(Ok(())));
    assert!(matches!(action, MountAction::ListCatalog));
    let listing = catalog_with(vec![own_volume(None)]);
    let (flow, action) = flow.step(MountEvent::Listing(Ok(listing)));
    assert!(matches!(action, MountAction::Run(_)));
    assert!(matches!(flow.state, MountState::AwaitMount { .. }));
}

#[test]
fn created_volume_that_cannot_be_relocated_is_not_found() {
    let (flow, _) = flow_past_gate(501, 501);
    let (flow, _) = flow.step(MountEvent::Listing(Ok(catalog_with(vec![]))));
    let (flow, _) = flow.step(MountEvent::CommandDone(Ok(())));
    let (flow, action) = flow.step(MountEvent::Listing(Ok(catalog_with(vec![]))));
    assert!(matches!(action, MountAction::Idle));
    match &flow.state {
        MountState::Failed(OpError::NotFound { label }) => {
            assert_eq!(label, &format!("edenfs:{}", TARGET));
        },
        _ => panic!("expected a not-found failure"),
    }
}

#[test]
fn successful_mount_ends_with_ownership_fixup() {
    let (flow, _) = flow_past_gate(501, 501);
    let listing = catalog_with(vec![own_volume(Some(TARGET))]);
    let (flow, _) = flow.step(MountEvent::Listing(Ok(listing)));
    let (flow, action) = flow.step(MountEvent::CommandDone(Ok(())));
    match action {
        MountAction::Chown { uid, gid } => {
            assert_eq!(uid, 501);
            assert_eq!(gid, 20);
        },
        _ => panic!("expected the ownership fixup"),
    }
    assert!(matches!(flow.state, MountState::AwaitChown { .. }));
    let (flow, action) = flow.step(MountEvent::ChownDone(Ok(())));
    assert!(matches!(action, MountAction::Idle));
    assert!(matches!(flow.state, MountState::Done));
}

#[test]
fn failed_fixup_is_reported_but_the_mount_stands() {
    let (flow, _) = flow_past_gate(501, 501);
    let listing = catalog_with(vec![own_volume(Some(TARGET))]);
    let (flow, _) = flow.step(MountEvent::Listing(Ok(listing)));
    let (flow, _) = flow.step(MountEvent::CommandDone(Ok(())));
    let (flow, action) = flow.step(MountEvent::ChownDone(Err("permission denied".to_owned())));
    assert!(matches!(action, MountAction::Idle));
    assert!(matches!(flow.state, MountState::Failed(OpError::ToolExecution { .. })));
}

#[test]
fn unreadable_path_fails_before_anything_else() {
    let flow = MountFlow::new(TARGET.to_owned(), 0);
    let (flow, _) = flow.step(MountEvent::Begin);
    let (flow, action) = flow.step(MountEvent::PathInfo(Err("no such file".to_owned())));
    assert!(matches!(action, MountAction::Idle));
    assert!(matches!(flow.state, MountState::Failed(OpError::Io { .. })));
}

#[test]
fn mount_without_root_privilege_fails_instead_of_planning() {
    let flow = MountFlow::new(TARGET.to_owned(), 501);
    let (flow, _) = flow.step(MountEvent::Begin);
    let (flow, _) = flow.step(MountEvent::PathInfo(Ok(FileOwner { uid: 501, gid: 20 })));
    let (flow, _) = flow.step(MountEvent::RealUid(Ok(501)));
    let listing = catalog_with(vec![own_volume(Some(TARGET))]);
    let (flow, action) = flow.step(MountEvent::Listing(Ok(listing)));
    assert!(matches!(action, MountAction::Idle));
    assert!(matches!(flow.state, MountState::Failed(OpError::Config { .. })));
}

#[test]
fn failed_listing_fails_the_flow() {
    let (flow, _) = flow_past_gate(501, 501);
    let (flow, action) = flow.step(MountEvent::Listing(Err(OpError::ToolExecution {
        message: "diskutil exited with failure".to_owned(),
    })));
    assert!(matches!(action, MountAction::Idle));
    assert!(matches!(flow.state, MountState::Failed(OpError::ToolExecution { .. })));
}
