use apfs_mount_helper::catalog::{ApfsContainer, ApfsVolume};
use apfs_mount_helper::plist_codec::parse_apfs_plist;

#[test]
fn test_plist() {
    let data = r#"
<?xml version="1.0" encoding="UTF-8"?>
<!DOCTYPE plist PUBLIC "-//Apple//DTD PLIST 1.0//EN" "http://www.apple.com/DTDs/PropertyList-1.0.dtd">
<plist version="1.0">
<dict>
	<key>Containers</key>
	<array>
		<dict>
			<key>APFSContainerUUID</key>
			<string>C4AC89F6-8658-4857-972C-D485C213523A</string>
			<key>CapacityCeiling</key>
			<integer>499963174912</integer>
			<key>CapacityFree</key>
			<integer>30714478592</integer>
			<key>ContainerReference</key>
			<string>disk1</string>
			<key>DesignatedPhysicalStore</key>
			<string>disk0s2</string>
			<key>Fusion</key>
			<false/>
			<key>PhysicalStores</key>
			<array>
				<dict>
					<key>DeviceIdentifier</key>
					<string>disk0s2</string>
					<key>DiskUUID</key>
					<string>2F978E12-5A2C-4EEB-BAE2-0E09CAEADC06</string>
					<key>Size</key>
					<integer>499963174912</integer>
				</dict>
			</array>
			<key>Volumes</key>
			<array>
				<dict>
					<key>APFSVolumeUUID</key>
					<string>9AA7F3A4-A615-4F8D-91E3-F5C86D988D71</string>
					<key>CapacityInUse</key>
					<integer>461308219392</integer>
					<key>CapacityQuota</key>
					<integer>0</integer>
					<key>CapacityReserve</key>
					<integer>0</integer>
					<key>CryptoMigrationOn</key>
					<false/>
					<key>DeviceIdentifier</key>
					<string>disk1s1</string>
					<key>Encryption</key>
					<true/>
					<key>FileVault</key>
					<true/>
					<key>Locked</key>
					<false/>
					<key>Name</key>
					<string>Macintosh HD</string>
					<key>Roles</key>
					<array/>
				</dict>
				<dict>
					<key>APFSVolumeUUID</key>
					<string>A91FD4EA-684D-4122-9ACD-27E1465E99F6</string>
					<key>CapacityInUse</key>
					<integer>43061248</integer>
					<key>CapacityQuota</key>
					<integer>0</integer>
					<key>CapacityReserve</key>
					<integer>0</integer>
					<key>CryptoMigrationOn</key>
					<false/>
					<key>DeviceIdentifier</key>
					<string>disk1s2</string>
					<key>Encryption</key>
					<false/>
					<key>FileVault</key>
					<false/>
					<key>Locked</key>
					<false/>
					<key>Name</key>
					<string>Preboot</string>
					<key>Roles</key>
					<array>
						<string>Preboot</string>
					</array>
				</dict>
				<dict>
					<key>APFSVolumeUUID</key>
					<string>1C94FFC8-7649-470E-952D-16672E135C43</string>
					<key>CapacityInUse</key>
					<integer>510382080</integer>
					<key>CapacityQuota</key>
					<integer>0</integer>
					<key>CapacityReserve</key>
					<integer>0</integer>
					<key>CryptoMigrationOn</key>
					<false/>
					<key>DeviceIdentifier</key>
					<string>disk1s3</string>
					<key>Encryption</key>
					<false/>
					<key>FileVault</key>
					<false/>
					<key>Locked</key>
					<false/>
					<key>Name</key>
					<string>Recovery</string>
					<key>Roles</key>
					<array>
						<string>Recovery</string>
					</array>
				</dict>
				<dict>
					<key>APFSVolumeUUID</key>
					<string>6BC72964-0CA0-48AE-AAE1-7E9BFA8B2005</string>
					<key>CapacityInUse</key>
					<integer>6442676224</integer>
					<key>CapacityQuota</key>
					<integer>0</integer>
					<key>CapacityReserve</key>
					<integer>0</integer>
					<key>CryptoMigrationOn</key>
					<false/>
					<key>DeviceIdentifier</key>
					<string>disk1s4</string>
					<key>Encryption</key>
					<true/>
					<key>FileVault</key>
					<false/>
					<key>Locked</key>
					<false/>
					<key>Name</key>
					<string>VM</string>
					<key>Roles</key>
					<array>
						<string>VM</string>
					</array>
				</dict>
				<dict>
					<key>APFSVolumeUUID</key>
					<string>6C7EEDAD-385B-49AB-857B-AD15D98D13ED</string>
					<key>CapacityInUse</key>
					<integer>790528</integer>
					<key>CapacityQuota</key>
					<integer>0</integer>
					<key>CapacityReserve</key>
					<integer>0</integer>
					<key>CryptoMigrationOn</key>
					<false/>
					<key>DeviceIdentifier</key>
					<string>disk1s5</string>
					<key>Encryption</key>
					<true/>
					<key>FileVault</key>
					<false/>
					<key>Locked</key>
					<false/>
					<key>Name</key>
					<string>edenfs:/Users/wez/fbsource/buck-out</string>
					<key>Roles</key>
					<array/>
				</dict>
				<dict>
					<key>APFSVolumeUUID</key>
					<string>0DAB1407-0283-408E-88EE-CD41CE9E7BCA</string>
					<key>CapacityInUse</key>
					<integer>781156352</integer>
					<key>CapacityQuota</key>
					<integer>0</integer>
					<key>CapacityReserve</key>
					<integer>0</integer>
					<key>CryptoMigrationOn</key>
					<false/>
					<key>DeviceIdentifier</key>
					<string>disk1s6</string>
					<key>Encryption</key>
					<true/>
					<key>FileVault</key>
					<false/>
					<key>Locked</key>
					<false/>
					<key>Name</key>
					<string>edenfs:/Users/wez/fbsource/fbcode/buck-out</string>
					<key>Roles</key>
					<array/>
				</dict>
				<dict>
					<key>APFSVolumeUUID</key>
					<string>253A48CA-074E-496E-9A62-9F64831D7A65</string>
					<key>CapacityInUse</key>
					<integer>925696</integer>
					<key>CapacityQuota</key>
					<integer>0</integer>
					<key>CapacityReserve</key>
					<integer>0</integer>
					<key>CryptoMigrationOn</key>
					<false/>
					<key>DeviceIdentifier</key>
					<string>disk1s7</string>
					<key>Encryption</key>
					<true/>
					<key>FileVault</key>
					<false/>
					<key>Locked</key>
					<false/>
					<key>Name</key>
					<string>edenfs:/Users/wez/fbsource/fbobjc/buck-out</string>
					<key>Roles</key>
					<array/>
				</dict>
			</array>
		</dict>
	</array>
</dict>
</plist>"#;
    let containers = parse_apfs_plist(data).unwrap();
    assert_eq!(
        containers,
        vec![ApfsContainer {
            container_reference: "disk1".to_owned(),
            volumes: vec![
                ApfsVolume {
                    device_identifier: "disk1s1".to_owned(),
                    mount_point: None,
                    name: Some("Macintosh HD".to_owned()),
                },
                ApfsVolume {
                    device_identifier: "disk1s2".to_owned(),
                    mount_point: None,
                    name: Some("Preboot".to_owned()),
                },
                ApfsVolume {
                    device_identifier: "disk1s3".to_owned(),
                    mount_point: None,
                    name: Some("Recovery".to_owned()),
                },
                ApfsVolume {
                    device_identifier: "disk1s4".to_owned(),
                    mount_point: None,
                    name: Some("VM".to_owned()),
                },
                ApfsVolume {
                    device_identifier: "disk1s5".to_owned(),
                    mount_point: None,
                    name: Some("edenfs:/Users/wez/fbsource/buck-out".to_owned()),
                },
                ApfsVolume {
                    device_identifier: "disk1s6".to_owned(),
                    mount_point: None,
                    name: Some("edenfs:/Users/wez/fbsource/fbcode/buck-out".to_owned()),
                },
                ApfsVolume {
                    device_identifier: "disk1s7".to_owned(),
                    mount_point: None,
                    name: Some("edenfs:/Users/wez/fbsource/fbobjc/buck-out".to_owned()),
                },
            ],
        },]
    );
}
