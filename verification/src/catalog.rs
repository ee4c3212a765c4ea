//! The volume catalog: typed records for the volume manager's containers and
//! volumes, first-match lookup by label, the system-owned filter used by the
//! listing operation, and the planned commands for querying and mutating the
//! catalog.

use vstd::prelude::*;
use vstd::string::StringExecFns;

use crate::codec::encode_mount_point_as_volume_name;
use crate::codec::encode_spec;
use crate::codec::is_system_label;
use crate::codec::label_is_system;
use crate::commands::is_absolute_spec;
use crate::commands::CommandPlan;
use crate::commands::Privilege;
use crate::errors::OpError;
use crate::errors::OpErrorView;
use crate::text::str_eq;

verus! {

/// One volume of a storage container. A volume with no name was not created
/// by this tool and is never a candidate for any operation here.
#[derive(Debug, PartialEq, Eq)]
pub struct ApfsVolume {
    /// Opaque device identifier used to address the volume.
    pub device_identifier: String,
    /// Where the volume is currently mounted, if anywhere.
    pub mount_point: Option<String>,
    /// The volume's label, if it has one.
    pub name: Option<String>,
}

/// One storage container: a pool holding an ordered sequence of volumes.
#[derive(Debug, PartialEq, Eq)]
pub struct ApfsContainer {
    pub container_reference: String,
    pub volumes: Vec<ApfsVolume>,
}

/// The mathematical shape of an [`ApfsVolume`].
pub ghost struct VolumeView {
    pub device_identifier: Seq<char>,
    pub mount_point: Option<Seq<char>>,
    pub name: Option<Seq<char>>,
}

/// The mathematical shape of an [`ApfsContainer`].
pub ghost struct ContainerView {
    pub container_reference: Seq<char>,
    pub volumes: Seq<VolumeView>,
}

impl View for ApfsVolume {
    type V = VolumeView;

    open spec fn view(&self) -> VolumeView {
        VolumeView {
            device_identifier: self.device_identifier@,
            mount_point: self.mount_point.deep_view(),
            name: self.name.deep_view(),
        }
    }
}

impl DeepView for ApfsVolume {
    type V = VolumeView;

    open spec fn deep_view(&self) -> VolumeView {
        self.view()
    }
}

impl View for ApfsContainer {
    type V = ContainerView;

    open spec fn view(&self) -> ContainerView {
        ContainerView {
            container_reference: self.container_reference@,
            volumes: self.volumes.deep_view(),
        }
    }
}

impl DeepView for ApfsContainer {
    type V = ContainerView;

    open spec fn deep_view(&self) -> ContainerView {
        self.view()
    }
}

/// The first volume named `name` within `vols`, scanning in order.
pub open spec fn find_in_volumes(vols: Seq<VolumeView>, name: Seq<char>) -> Option<VolumeView>
    decreases vols.len(),
{
    if vols.len() == 0 {
        None
    } else if vols[0].name == Some(name) {
        Some(vols[0])
    } else {
        find_in_volumes(vols.drop_first(), name)
    }
}

/// The first volume named `name` across `cs`, scanning containers in order
/// and volumes within each container in order. First match wins.
pub open spec fn find_in_containers(cs: Seq<ContainerView>, name: Seq<char>) -> Option<VolumeView>
    decreases cs.len(),
{
    if cs.len() == 0 {
        None
    } else {
        match find_in_volumes(cs[0].volumes, name) {
            Some(v) => Some(v),
            None => find_in_containers(cs.drop_first(), name),
        }
    }
}

proof fn lemma_find_in_volumes_skip(vols: Seq<VolumeView>, name: Seq<char>, j: int)
    requires
        0 <= j <= vols.len(),
        forall|k: int| 0 <= k < j ==> (#[trigger] vols[k]).name != Some(name),
    ensures
        find_in_volumes(vols, name) == find_in_volumes(vols.skip(j), name),
    decreases j,
{
    if j > 0 {
        let rest = vols.drop_first();
        assert(vols[0].name != Some(name));
        assert forall|k: int| 0 <= k < j - 1 implies (#[trigger] rest[k]).name != Some(name) by {
            assert(rest[k] == vols[k + 1]);
        }
        lemma_find_in_volumes_skip(rest, name, j - 1);
        assert(rest.skip(j - 1) =~= vols.skip(j));
    } else {
        assert(vols.skip(0) =~= vols);
    }
}

proof fn lemma_find_in_containers_skip(cs: Seq<ContainerView>, name: Seq<char>, i: int)
    requires
        0 <= i <= cs.len(),
        forall|k: int| 0 <= k < i ==> find_in_volumes((#[trigger] cs[k]).volumes, name) is None,
    ensures
        find_in_containers(cs, name) == find_in_containers(cs.skip(i), name),
    decreases i,
{
    if i > 0 {
        let rest = cs.drop_first();
        assert(find_in_volumes(cs[0].volumes, name) is None);
        assert forall|k: int| 0 <= k < i - 1 implies find_in_volumes(
            (#[trigger] rest[k]).volumes,
            name,
        ) is None by {
            assert(rest[k] == cs[k + 1]);
        }
        lemma_find_in_containers_skip(rest, name, i - 1);
        assert(rest.skip(i - 1) =~= cs.skip(i));
    } else {
        assert(cs.skip(0) =~= cs);
    }
}

/// Find the first volume named `name`, scanning containers in order, then
/// volumes within a container in order.
pub fn find_existing_volume<'a>(containers: &'a Vec<ApfsContainer>, name: &str) -> (r: Option<
    &'a ApfsVolume,
>)
    ensures
        match r {
            Some(v) => find_in_containers(containers.deep_view(), name@) == Some(v@),
            None => find_in_containers(containers.deep_view(), name@) is None,
        },
{
    let ghost cs = containers.deep_view();
    let mut i: usize = 0;
    while i < containers.len()
        invariant
            cs == containers.deep_view(),
            cs.len() == containers.len(),
            0 <= i <= cs.len(),
            forall|k: int| 0 <= k < i ==> find_in_volumes((#[trigger] cs[k]).volumes, name@) is None,
        decreases cs.len() - i,
    {
        let container = &containers[i];
        let ghost vols = cs[i as int].volumes;
        proof {
            assert(cs[i as int] == containers@[i as int].deep_view());
            assert(vols.len() == container.volumes@.len());
        }
        let mut j: usize = 0;
        while j < container.volumes.len()
            invariant
                cs == containers.deep_view(),
                cs.len() == containers.len(),
                0 <= i < cs.len(),
                cs[i as int].volumes == vols,
                forall|k: int|
                    0 <= k < i ==> find_in_volumes((#[trigger] cs[k]).volumes, name@) is None,
                vols == container.volumes.deep_view(),
                vols.len() == container.volumes.len(),
                0 <= j <= vols.len(),
                forall|k: int| 0 <= k < j ==> (#[trigger] vols[k]).name != Some(name@),
            decreases vols.len() - j,
        {
            let volume = &container.volumes[j];
            proof {
                assert(vols[j as int] == container.volumes@[j as int].deep_view());
            }
            let matches_name = match &volume.name {
                Some(n) => str_eq(n.as_str(), name),
                None => false,
            };
            if matches_name {
                proof {
                    lemma_find_in_volumes_skip(vols, name@, j as int);
                    assert(vols.skip(j as int)[0] == vols[j as int]);
                    assert(find_in_volumes(vols, name@) == Some(vols[j as int]));
                    lemma_find_in_containers_skip(cs, name@, i as int);
                    assert(cs.skip(i as int)[0] == cs[i as int]);
                    assert(find_in_containers(cs, name@) == Some(vols[j as int]));
                }
                return Some(volume);
            }
            j = j + 1;
        }
        proof {
            lemma_find_in_volumes_skip(vols, name@, vols.len() as int);
            assert(vols.skip(vols.len() as int) =~= Seq::<VolumeView>::empty());
        }
        i = i + 1;
    }
    proof {
        lemma_find_in_containers_skip(cs, name@, cs.len() as int);
        assert(cs.skip(cs.len() as int) =~= Seq::<ContainerView>::empty());
    }
    None
}

proof fn lemma_find_in_volumes_carries_name(vols: Seq<VolumeView>, name: Seq<char>)
    requires
        find_in_volumes(vols, name) is Some,
    ensures
        match find_in_volumes(vols, name) {
            Some(v) => v.name == Some(name),
            None => true,
        },
    decreases vols.len(),
{
    if vols.len() > 0 && vols[0].name != Some(name) {
        lemma_find_in_volumes_carries_name(vols.drop_first(), name);
    }
}

/// Whatever the label lookup returns is a volume that carries exactly the
/// label that was looked up.
pub proof fn lemma_found_volume_carries_label(cs: Seq<ContainerView>, name: Seq<char>)
    requires
        find_in_containers(cs, name) is Some,
    ensures
        match find_in_containers(cs, name) {
            Some(v) => v.name == Some(name),
            None => true,
        },
    decreases cs.len(),
{
    if cs.len() > 0 {
        if find_in_volumes(cs[0].volumes, name) is Some {
            lemma_find_in_volumes_carries_name(cs[0].volumes, name);
        } else {
            lemma_found_volume_carries_label(cs.drop_first(), name);
        }
    }
}

/// No operation ever treats a foreign volume as system-owned: the volume
/// selected for a target path always carries that path's namespaced label,
/// and such a label always has the namespace prefix.
pub proof fn lemma_selected_volume_is_system_owned(cs: Seq<ContainerView>, p: Seq<char>)
    requires
        find_in_containers(cs, encode_spec(p)) is Some,
    ensures
        match find_in_containers(cs, encode_spec(p)) {
            Some(v) => volume_is_owned(v),
            None => true,
        },
{
    lemma_found_volume_carries_label(cs, encode_spec(p));
    crate::codec::lemma_encode_is_system(p);
}

/// Is this volume owned by this tool: labeled, with the namespace prefix?
pub open spec fn volume_is_owned(v: VolumeView) -> bool {
    match v.name {
        Some(l) => is_system_label(l),
        None => false,
    }
}

/// The system-owned volumes of `vs`, in order.
pub open spec fn owned_in_volumes(vs: Seq<VolumeView>) -> Seq<VolumeView>
    decreases vs.len(),
{
    if vs.len() == 0 {
        Seq::empty()
    } else {
        owned_in_volumes(vs.drop_last()) + if volume_is_owned(vs.last()) {
            seq![vs.last()]
        } else {
            Seq::empty()
        }
    }
}

/// The system-owned volumes of `cs`, scanning containers in order.
pub open spec fn owned_in_containers(cs: Seq<ContainerView>) -> Seq<VolumeView>
    decreases cs.len(),
{
    if cs.len() == 0 {
        Seq::empty()
    } else {
        owned_in_containers(cs.drop_last()) + owned_in_volumes(cs.last().volumes)
    }
}

/// The volumes that this tool is responsible for: exactly those whose label
/// carries the namespace prefix. Foreign volumes are never included; the
/// listing operation surfaces them only in its unfiltered mode.
pub fn select_owned_volumes<'a>(containers: &'a Vec<ApfsContainer>) -> (r: Vec<&'a ApfsVolume>)
    ensures
        r.deep_view() == owned_in_containers(containers.deep_view()),
        forall|k: int| 0 <= k < r.deep_view().len() ==> volume_is_owned(#[trigger] r.deep_view()[k]),
{
    let ghost cs = containers.deep_view();
    let mut r: Vec<&'a ApfsVolume> = Vec::new();
    let mut i: usize = 0;
    while i < containers.len()
        invariant
            cs == containers.deep_view(),
            cs.len() == containers.len(),
            0 <= i <= cs.len(),
            r.deep_view() == owned_in_containers(cs.take(i as int)),
            forall|k: int|
                0 <= k < r.deep_view().len() ==> volume_is_owned(#[trigger] r.deep_view()[k]),
        decreases cs.len() - i,
    {
        let container = &containers[i];
        let ghost vols = cs[i as int].volumes;
        proof {
            assert(cs[i as int] == containers@[i as int].deep_view());
            assert(r.deep_view() =~= owned_in_containers(cs.take(i as int)) + owned_in_volumes(
                vols.take(0),
            ));
        }
        let mut j: usize = 0;
        while j < container.volumes.len()
            invariant
                cs == containers.deep_view(),
                vols == container.volumes.deep_view(),
                vols.len() == container.volumes.len(),
                0 <= i < cs.len(),
                cs[i as int].volumes == vols,
                0 <= j <= vols.len(),
                r.deep_view() == owned_in_containers(cs.take(i as int)) + owned_in_volumes(
                    vols.take(j as int),
                ),
                forall|k: int|
                    0 <= k < r.deep_view().len() ==> volume_is_owned(#[trigger] r.deep_view()[k]),
            decreases vols.len() - j,
        {
            let volume = &container.volumes[j];
            proof {
                assert(vols[j as int] == container.volumes@[j as int].deep_view());
                assert(vols.take(j + 1).drop_last() =~= vols.take(j as int));
                assert(vols.take(j + 1).last() == vols[j as int]);
            }
            let owned = match &volume.name {
                Some(n) => label_is_system(n.as_str()),
                None => false,
            };
            if owned {
                let ghost prev = r.deep_view();
                r.push(volume);
                proof {
                    assert(volume_is_owned(volume@));
                    assert(r.deep_view() =~= prev.push(volume@));
                    assert(owned_in_volumes(vols.take(j + 1)) == owned_in_volumes(
                        vols.take(j as int),
                    ) + seq![vols[j as int]]);
                    assert(r.deep_view() =~= owned_in_containers(cs.take(i as int))
                        + owned_in_volumes(vols.take(j + 1)));
                }
            } else {
                proof {
                    assert(!volume_is_owned(vols[j as int]));
                    assert(owned_in_volumes(vols.take(j + 1)) == owned_in_volumes(
                        vols.take(j as int),
                    ) + Seq::<VolumeView>::empty());
                    assert(r.deep_view() =~= owned_in_containers(cs.take(i as int))
                        + owned_in_volumes(vols.take(j + 1)));
                }
            }
            j = j + 1;
        }
        proof {
            assert(vols.take(vols.len() as int) =~= vols);
            assert(cs.take(i + 1).drop_last() =~= cs.take(i as int));
            assert(cs.take(i + 1).last() == cs[i as int]);
            assert(r.deep_view() =~= owned_in_containers(cs.take(i + 1)));
        }
        i = i + 1;
    }
    proof {
        assert(cs.take(cs.len() as int) =~= cs);
    }
    r
}

/// Path of the volume manager's command line tool.
pub open spec fn diskutil_path() -> Seq<char> {
    "/usr/sbin/diskutil"@
}

/// The arguments of the catalog query command.
pub open spec fn list_args_spec() -> Seq<Seq<char>> {
    seq!["apfs"@, "list"@, "-plist"@]
}

/// The arguments that create a volume named `label` without mounting it.
/// New volumes must never be auto-mounted before this tool mounts them under
/// controlled permissions.
pub open spec fn add_volume_args_spec(label: Seq<char>) -> Seq<Seq<char>> {
    seq!["apfs"@, "addVolume"@, "disk1"@, "apfs"@, label, "-nomount"@]
}

/// The arguments that unmount the volume at `device`, optionally forced.
pub open spec fn unmount_args_spec(device: Seq<char>, force: bool) -> Seq<Seq<char>> {
    if force {
        seq!["unmount"@, "force"@, device]
    } else {
        seq!["unmount"@, device]
    }
}

/// The arguments that delete the volume at `device`. Deletion implicitly
/// unmounts first; the volume manager handles that.
pub open spec fn delete_args_spec(device: Seq<char>) -> Seq<Seq<char>> {
    seq!["apfs"@, "deleteVolume"@, device]
}

/// The de-privileged command that queries the catalog.
pub fn plan_list_command() -> (r: CommandPlan)
    ensures
        r@.program == diskutil_path(),
        is_absolute_spec(r@.program),
        r@.args == list_args_spec(),
        r@.privilege == Privilege::Deprivileged,
{
    let mut args: Vec<String> = Vec::new();
    args.push(String::from_str("apfs"));
    args.push(String::from_str("list"));
    args.push(String::from_str("-plist"));
    proof {
        reveal_strlit("/usr/sbin/diskutil");
        assert(is_absolute_spec(diskutil_path()));
        assert(args.deep_view() =~= list_args_spec());
    }
    CommandPlan {
        program: String::from_str("/usr/sbin/diskutil"),
        args,
        privilege: Privilege::Deprivileged,
    }
}

/// The de-privileged command that creates a new volume named `label`,
/// explicitly not auto-mounted.
pub fn plan_add_volume_command(label: &str) -> (r: CommandPlan)
    ensures
        r@.program == diskutil_path(),
        is_absolute_spec(r@.program),
        r@.args == add_volume_args_spec(label@),
        r@.privilege == Privilege::Deprivileged,
{
    let mut args: Vec<String> = Vec::new();
    args.push(String::from_str("apfs"));
    args.push(String::from_str("addVolume"));
    args.push(String::from_str("disk1"));
    args.push(String::from_str("apfs"));
    args.push(String::from_str(label));
    args.push(String::from_str("-nomount"));
    proof {
        reveal_strlit("/usr/sbin/diskutil");
        assert(is_absolute_spec(diskutil_path()));
        assert(args.deep_view() =~= add_volume_args_spec(label@));
    }
    CommandPlan {
        program: String::from_str("/usr/sbin/diskutil"),
        args,
        privilege: Privilege::Deprivileged,
    }
}

/// The de-privileged command that unmounts `device`, optionally forced.
pub fn plan_unmount_command(device: &str, force: bool) -> (r: CommandPlan)
    ensures
        r@.program == diskutil_path(),
        is_absolute_spec(r@.program),
        r@.args == unmount_args_spec(device@, force),
        r@.privilege == Privilege::Deprivileged,
{
    let mut args: Vec<String> = Vec::new();
    args.push(String::from_str("unmount"));
    if force {
        args.push(String::from_str("force"));
    }
    args.push(String::from_str(device));
    proof {
        reveal_strlit("/usr/sbin/diskutil");
        assert(is_absolute_spec(diskutil_path()));
        assert(args.deep_view() =~= unmount_args_spec(device@, force));
    }
    CommandPlan {
        program: String::from_str("/usr/sbin/diskutil"),
        args,
        privilege: Privilege::Deprivileged,
    }
}

/// The de-privileged command that deletes `device`.
pub fn plan_delete_command(device: &str) -> (r: CommandPlan)
    ensures
        r@.program == diskutil_path(),
        is_absolute_spec(r@.program),
        r@.args == delete_args_spec(device@),
        r@.privilege == Privilege::Deprivileged,
{
    let mut args: Vec<String> = Vec::new();
    args.push(String::from_str("apfs"));
    args.push(String::from_str("deleteVolume"));
    args.push(String::from_str(device));
    proof {
        reveal_strlit("/usr/sbin/diskutil");
        assert(is_absolute_spec(diskutil_path()));
        assert(args.deep_view() =~= delete_args_spec(device@));
    }
    CommandPlan {
        program: String::from_str("/usr/sbin/diskutil"),
        args,
        privilege: Privilege::Deprivileged,
    }
}

/// Plan the unmount operation for `mount_point`: only a volume whose label
/// is exactly the encoding of the target is ever selected, so nothing this
/// tool did not create can be unmounted. When no such volume exists the
/// operation fails with a not-found error and plans no command at all.
pub fn plan_unmount(containers: &Vec<ApfsContainer>, mount_point: &str, force: bool) -> (r: Result<
    CommandPlan,
    OpError,
>)
    ensures
        match find_in_containers(containers.deep_view(), encode_spec(mount_point@)) {
            Some(v) => r matches Ok(p) && p@ == (crate::commands::CommandPlanView {
                program: diskutil_path(),
                args: unmount_args_spec(v.device_identifier, force),
                privilege: Privilege::Deprivileged,
            }),
            None => r matches Err(e) && e@ == (OpErrorView::NotFound {
                label: encode_spec(mount_point@),
            }),
        },
{
    let label = encode_mount_point_as_volume_name(mount_point);
    match find_existing_volume(containers, label.as_str()) {
        Some(volume) => Ok(plan_unmount_command(volume.device_identifier.as_str(), force)),
        None => Err(OpError::NotFound { label }),
    }
}

/// Plan the delete operation for `mount_point`, under the same ownership
/// enforcement as unmounting. Deletion implicitly unmounts first.
pub fn plan_delete(containers: &Vec<ApfsContainer>, mount_point: &str) -> (r: Result<
    CommandPlan,
    OpError,
>)
    ensures
        match find_in_containers(containers.deep_view(), encode_spec(mount_point@)) {
            Some(v) => r matches Ok(p) && p@ == (crate::commands::CommandPlanView {
                program: diskutil_path(),
                args: delete_args_spec(v.device_identifier),
                privilege: Privilege::Deprivileged,
            }),
            None => r matches Err(e) && e@ == (OpErrorView::NotFound {
                label: encode_spec(mount_point@),
            }),
        },
{
    let label = encode_mount_point_as_volume_name(mount_point);
    match find_existing_volume(containers, label.as_str()) {
        Some(volume) => Ok(plan_delete_command(volume.device_identifier.as_str())),
        None => Err(OpError::NotFound { label }),
    }
}

} // verus!
