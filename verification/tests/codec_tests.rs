use apfs_mount_helper::codec::encode_mount_point_as_volume_name;
use apfs_mount_helper::codec::label_is_system;

#[test]
fn encode_embeds_path_verbatim_after_prefix() {
    let label = encode_mount_point_as_volume_name("/Users/someone/repo/buck-out");
    assert_eq!(label, "edenfs:/Users/someone/repo/buck-out");
}

#[test]
fn encode_is_stable() {
    let a = encode_mount_point_as_volume_name("/var/scratch");
    let b = encode_mount_point_as_volume_name("/var/scratch");
    assert_eq!(a, b);
}

#[test]
fn distinct_paths_get_distinct_labels() {
    let a = encode_mount_point_as_volume_name("/var/scratch");
    let b = encode_mount_point_as_volume_name("/var/scratch2");
    assert_ne!(a, b);
}

#[test]
fn every_encoded_label_is_system_owned() {
    let label = encode_mount_point_as_volume_name("/x");
    assert!(label_is_system(&label));
}

#[test]
fn foreign_labels_are_not_system_owned() {
    assert!(!label_is_system("Macintosh HD"));
    assert!(!label_is_system("Preboot"));
    assert!(!label_is_system(""));
    assert!(!label_is_system("edenfs"));
    assert!(label_is_system("edenfs:"));
    assert!(label_is_system("edenfs:/anything"));
}
