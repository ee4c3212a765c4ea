use apfs_mount_helper::catalog::find_existing_volume;
use apfs_mount_helper::catalog::plan_delete;
use apfs_mount_helper::catalog::plan_list_command;
use apfs_mount_helper::catalog::plan_unmount;
use apfs_mount_helper::catalog::select_owned_volumes;
use apfs_mount_helper::catalog::ApfsContainer;
use apfs_mount_helper::catalog::ApfsVolume;
use apfs_mount_helper::commands::Privilege;
use apfs_mount_helper::errors::OpError;

fn volume(device: &str, name: Option<&str>, mount_point: Option<&str>) -> ApfsVolume {
    ApfsVolume {
        device_identifier: device.to_owned(),
        mount_point: mount_point.map(|s| s.to_owned()),
        name: name.map(|s| s.to_owned()),
    }
}

fn sample_catalog() -> Vec<ApfsContainer> {
    vec![
        ApfsContainer {
            container_reference: "disk1".to_owned(),
            volumes: vec![
                volume("disk1s1", Some("Macintosh HD"), Some("/")),
                volume("disk1s5", Some("edenfs:/Users/u/repo/buck-out"), None),
                volume("disk1s6", None, None),
            ],
        },
        ApfsContainer {
            container_reference: "disk2".to_owned(),
            volumes: vec![
                volume("disk2s1", Some("edenfs:/Users/u/repo/buck-out"), None),
                volume("disk2s2", Some("edenfs:/Users/u/other"), Some("/Users/u/other")),
            ],
        },
    ]
}

#[test]
fn find_scans_in_order_first_match_wins() {
    let catalog = sample_catalog();
    let v = find_existing_volume(&catalog, "edenfs:/Users/u/repo/buck-out").unwrap();
    assert_eq!(v.device_identifier, "disk1s5");
}

#[test]
fn find_misses_unknown_and_unnamed_volumes() {
    let catalog = sample_catalog();
    assert!(find_existing_volume(&catalog, "edenfs:/nowhere").is_none());
    assert!(find_existing_volume(&catalog, "").is_none());
}

#[test]
fn owned_selection_keeps_only_system_labels() {
    let catalog = sample_catalog();
    let owned = select_owned_volumes(&catalog);
    let devices: Vec<&str> = owned.iter().map(|v| v.device_identifier.as_str()).collect();
    assert_eq!(devices, vec!["disk1s5", "disk2s1", "disk2s2"]);
}

#[test]
fn list_command_is_deprivileged() {
    let plan = plan_list_command();
    assert_eq!(plan.program, "/usr/sbin/diskutil");
    assert_eq!(
        plan.args,
        vec!["apfs".to_owned(), "list".to_owned(), "-plist".to_owned()]
    );
    assert_eq!(plan.privilege, Privilege::Deprivileged);
}

#[test]
fn unmount_plans_only_for_owned_volumes() {
    let catalog = sample_catalog();
    let plan = plan_unmount(&catalog, "/Users/u/repo/buck-out", false).unwrap();
    assert_eq!(plan.program, "/usr/sbin/diskutil");
    assert_eq!(plan.args, vec!["unmount".to_owned(), "disk1s5".to_owned()]);
    assert_eq!(plan.privilege, Privilege::Deprivileged);
}

#[test]
fn unmount_force_adds_the_force_word() {
    let catalog = sample_catalog();
    let plan = plan_unmount(&catalog, "/Users/u/repo/buck-out", true).unwrap();
    assert_eq!(
        plan.args,
        vec!["unmount".to_owned(), "force".to_owned(), "disk1s5".to_owned()]
    );
}

#[test]
fn unmount_of_unknown_target_is_not_found_and_plans_nothing() {
    let catalog = sample_catalog();
    let r = plan_unmount(&catalog, "/Users/u/unprovisioned", false);
    match r {
        Err(OpError::NotFound { label }) => {
            assert_eq!(label, "edenfs:/Users/u/unprovisioned");
        },
        _ => panic!("expected a not-found failure"),
    }
}

#[test]
fn unmount_never_selects_a_foreign_volume() {
    // A volume mounted at the target but labeled by someone else is not ours.
    let catalog = vec![ApfsContainer {
        container_reference: "disk1".to_owned(),
        volumes: vec![volume("disk1s9", Some("NotOurs"), Some("/Users/u/target"))],
    }];
    let r = plan_unmount(&catalog, "/Users/u/target", false);
    assert!(matches!(r, Err(OpError::NotFound { .. })));
}

#[test]
fn delete_plans_only_for_owned_volumes() {
    let catalog = sample_catalog();
    let plan = plan_delete(&catalog, "/Users/u/other").unwrap();
    assert_eq!(plan.program, "/usr/sbin/diskutil");
    assert_eq!(
        plan.args,
        vec!["apfs".to_owned(), "deleteVolume".to_owned(), "disk2s2".to_owned()]
    );
    assert_eq!(plan.privilege, Privilege::Deprivileged);
}

#[test]
fn delete_of_unknown_target_is_not_found_and_plans_nothing() {
    let catalog = sample_catalog();
    let r = plan_delete(&catalog, "/Users/u/unprovisioned");
    assert!(matches!(r, Err(OpError::NotFound { .. })));
}
