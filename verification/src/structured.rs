//! Decoding the volume manager's structured listing output.
//!
//! The listing arrives as a tree-shaped document (a property list, or the
//! same document converted to JSON). Both encodings are reduced to one plain
//! tree type, [`StructValue`], and a single verified decoder turns that tree
//! into typed catalog records, so the result is identical regardless of
//! which encoding was taken. Malformed trees fail loudly with a decoding
//! error; an empty record list is only ever produced from a tree that
//! genuinely holds an empty container array.

use vstd::prelude::*;
use vstd::string::StringExecFns;

use crate::catalog::ApfsContainer;
use crate::catalog::ApfsVolume;
use crate::catalog::ContainerView;
use crate::catalog::VolumeView;
use crate::errors::OpError;
use crate::errors::OpErrorView;
use crate::text::str_eq;

verus! {

/// A structured document tree, reduced to what the decoder reads: text,
/// arrays, dictionaries, an explicit null, and any other scalar.
pub enum StructValue {
    Text(String),
    Array(Vec<StructValue>),
    Dict(Vec<(String, StructValue)>),
    Null,
    Scalar,
}

/// The first value stored under `key`, scanning entries in order.
pub open spec fn dict_get(entries: Seq<(String, StructValue)>, key: Seq<char>) -> Option<
    StructValue,
>
    decreases entries.len(),
{
    if entries.len() == 0 {
        None
    } else if entries[0].0@ == key {
        Some(entries[0].1)
    } else {
        dict_get(entries.drop_first(), key)
    }
}

/// A required text field: the value under `key` must be present and textual.
pub open spec fn req_text(entries: Seq<(String, StructValue)>, key: Seq<char>) -> Option<
    Seq<char>,
> {
    match dict_get(entries, key) {
        Some(StructValue::Text(s)) => Some(s@),
        _ => None,
    }
}

/// An optional text field: absent or null decodes to nothing, text decodes
/// to itself, and any other shape is a decoding error (the outer `None`).
pub open spec fn opt_text(entries: Seq<(String, StructValue)>, key: Seq<char>) -> Option<
    Option<Seq<char>>,
> {
    match dict_get(entries, key) {
        None => Some(None),
        Some(StructValue::Null) => Some(None),
        Some(StructValue::Text(s)) => Some(Some(s@)),
        Some(_) => None,
    }
}

/// The volume record encoded by `v`, if `v` has the volume shape: a
/// dictionary with a textual device identifier and optional textual name
/// and mount point. No field is ever guessed.
pub open spec fn decode_volume_spec(v: StructValue) -> Option<VolumeView> {
    match v {
        StructValue::Dict(entries) => match (
            req_text(entries@, "DeviceIdentifier"@),
            opt_text(entries@, "MountPoint"@),
            opt_text(entries@, "Name"@),
        ) {
            (Some(device), Some(mount_point), Some(name)) => Some(
                VolumeView { device_identifier: device, mount_point, name },
            ),
            _ => None,
        },
        _ => None,
    }
}

/// The volume records of `items`, in order; any malformed element poisons
/// the whole sequence.
pub open spec fn decode_volumes_spec(items: Seq<StructValue>) -> Option<Seq<VolumeView>>
    decreases items.len(),
{
    if items.len() == 0 {
        Some(Seq::empty())
    } else {
        match (decode_volumes_spec(items.drop_last()), decode_volume_spec(items.last())) {
            (Some(pre), Some(v)) => Some(pre.push(v)),
            _ => None,
        }
    }
}

/// The container record encoded by `v`: a dictionary with a textual
/// container reference and an array of volumes.
pub open spec fn decode_container_spec(v: StructValue) -> Option<ContainerView> {
    match v {
        StructValue::Dict(entries) => match (
            req_text(entries@, "ContainerReference"@),
            dict_get(entries@, "Volumes"@),
        ) {
            (Some(reference), Some(StructValue::Array(items))) => match decode_volumes_spec(
                items@,
            ) {
                Some(volumes) => Some(
                    ContainerView { container_reference: reference, volumes },
                ),
                None => None,
            },
            _ => None,
        },
        _ => None,
    }
}

/// The container records of `items`, in order; any malformed element
/// poisons the whole sequence.
pub open spec fn decode_containers_spec(items: Seq<StructValue>) -> Option<Seq<ContainerView>>
    decreases items.len(),
{
    if items.len() == 0 {
        Some(Seq::empty())
    } else {
        match (decode_containers_spec(items.drop_last()), decode_container_spec(items.last())) {
            (Some(pre), Some(c)) => Some(pre.push(c)),
            _ => None,
        }
    }
}

/// The whole listing: a dictionary whose `Containers` entry is an array of
/// containers. Anything else is malformed.
pub open spec fn decode_listing_spec(v: StructValue) -> Option<Seq<ContainerView>> {
    match v {
        StructValue::Dict(entries) => match dict_get(entries@, "Containers"@) {
            Some(StructValue::Array(items)) => decode_containers_spec(items@),
            _ => None,
        },
        _ => None,
    }
}

proof fn lemma_dict_get_skip(entries: Seq<(String, StructValue)>, key: Seq<char>, j: int)
    requires
        0 <= j <= entries.len(),
        forall|k: int| 0 <= k < j ==> (#[trigger] entries[k]).0@ != key,
    ensures
        dict_get(entries, key) == dict_get(entries.skip(j), key),
    decreases j,
{
    if j > 0 {
        let rest = entries.drop_first();
        assert forall|k: int| 0 <= k < j - 1 implies (#[trigger] rest[k]).0@ != key by {
            assert(rest[k] == entries[k + 1]);
        }
        lemma_dict_get_skip(rest, key, j - 1);
        assert(rest.skip(j - 1) =~= entries.skip(j));
    } else {
        assert(entries.skip(0) =~= entries);
    }
}

/// Look up the first entry stored under `key`.
fn dict_lookup<'a>(entries: &'a Vec<(String, StructValue)>, key: &str) -> (r: Option<
    &'a StructValue,
>)
    ensures
        match r {
            Some(v) => dict_get(entries@, key@) == Some(*v),
            None => dict_get(entries@, key@) is None,
        },
{
    let mut j: usize = 0;
    while j < entries.len()
        invariant
            0 <= j <= entries@.len(),
            forall|k: int| 0 <= k < j ==> (#[trigger] entries@[k]).0@ != key@,
        decreases entries@.len() - j,
    {
        if str_eq(entries[j].0.as_str(), key) {
            proof {
                lemma_dict_get_skip(entries@, key@, j as int);
                assert(entries@.skip(j as int)[0] == entries@[j as int]);
            }
            return Some(&entries[j].1);
        }
        j = j + 1;
    }
    proof {
        lemma_dict_get_skip(entries@, key@, entries@.len() as int);
        assert(entries@.skip(entries@.len() as int) =~= Seq::<(String, StructValue)>::empty());
    }
    None
}

fn decode_error(what: &str) -> (r: OpError)
    ensures
        r@ is Decode,
{
    OpError::Decode { message: String::from_str(what) }
}

/// Decode one volume record.
fn decode_volume(v: &StructValue) -> (r: Result<ApfsVolume, OpError>)
    ensures
        match decode_volume_spec(*v) {
            Some(view) => r matches Ok(out) && out@ == view,
            None => r matches Err(e) && e@ is Decode,
        },
{
    let entries = match v {
        StructValue::Dict(entries) => entries,
        _ => {
            return Err(decode_error("a volume is not a dictionary"));
        },
    };
    let device_identifier = match dict_lookup(entries, "DeviceIdentifier") {
        Some(StructValue::Text(s)) => s.clone(),
        _ => {
            return Err(decode_error("a volume has no textual device identifier"));
        },
    };
    let mount_point = match dict_lookup(entries, "MountPoint") {
        None => None,
        Some(StructValue::Null) => None,
        Some(StructValue::Text(s)) => Some(s.clone()),
        Some(_) => {
            return Err(decode_error("a volume's mount point is not text"));
        },
    };
    let name = match dict_lookup(entries, "Name") {
        None => None,
        Some(StructValue::Null) => None,
        Some(StructValue::Text(s)) => Some(s.clone()),
        Some(_) => {
            return Err(decode_error("a volume's name is not text"));
        },
    };
    Ok(ApfsVolume { device_identifier, mount_point, name })
}

proof fn lemma_decode_volumes_poisoned(items: Seq<StructValue>, j: int)
    requires
        0 <= j < items.len(),
        decode_volume_spec(items[j]) is None,
    ensures
        decode_volumes_spec(items) is None,
    decreases items.len(),
{
    if j < items.len() - 1 {
        lemma_decode_volumes_poisoned(items.drop_last(), j);
    }
}

proof fn lemma_decode_containers_poisoned(items: Seq<StructValue>, j: int)
    requires
        0 <= j < items.len(),
        decode_container_spec(items[j]) is None,
    ensures
        decode_containers_spec(items) is None,
    decreases items.len(),
{
    if j < items.len() - 1 {
        lemma_decode_containers_poisoned(items.drop_last(), j);
    }
}

/// Decode an array of volume records.
fn decode_volumes(items: &Vec<StructValue>) -> (r: Result<Vec<ApfsVolume>, OpError>)
    ensures
        match decode_volumes_spec(items@) {
            Some(views) => r matches Ok(out) && out.deep_view() == views,
            None => r matches Err(e) && e@ is Decode,
        },
{
    let mut out: Vec<ApfsVolume> = Vec::new();
    let mut j: usize = 0;
    while j < items.len()
        invariant
            0 <= j <= items@.len(),
            decode_volumes_spec(items@.take(j as int)) == Some(out.deep_view()),
        decreases items@.len() - j,
    {
        let ghost prev = out.deep_view();
        match decode_volume(&items[j]) {
            Ok(volume) => {
                let ghost vv = volume@;
                out.push(volume);
                proof {
                    assert(items@.take(j + 1).drop_last() =~= items@.take(j as int));
                    assert(items@.take(j + 1).last() == items@[j as int]);
                    assert(out.deep_view() =~= prev.push(vv));
                }
            },
            Err(e) => {
                proof {
                    lemma_decode_volumes_poisoned(items@, j as int);
                }
                return Err(e);
            },
        }
        j = j + 1;
    }
    proof {
        assert(items@.take(items@.len() as int) =~= items@);
    }
    Ok(out)
}

/// Decode one container record.
fn decode_container(v: &StructValue) -> (r: Result<ApfsContainer, OpError>)
    ensures
        match decode_container_spec(*v) {
            Some(view) => r matches Ok(out) && out@ == view,
            None => r matches Err(e) && e@ is Decode,
        },
{
    let entries = match v {
        StructValue::Dict(entries) => entries,
        _ => {
            return Err(decode_error("a container is not a dictionary"));
        },
    };
    let container_reference = match dict_lookup(entries, "ContainerReference") {
        Some(StructValue::Text(s)) => s.clone(),
        _ => {
            return Err(decode_error("a container has no textual reference"));
        },
    };
    let items = match dict_lookup(entries, "Volumes") {
        Some(StructValue::Array(items)) => items,
        _ => {
            return Err(decode_error("a container has no volume array"));
        },
    };
    let volumes = decode_volumes(items)?;
    Ok(ApfsContainer { container_reference, volumes })
}

/// Decode the whole structured listing into catalog records. Succeeds
/// exactly on trees of the listing shape; every malformed or truncated tree
/// is a decoding error, never a silently empty result.
pub fn decode_listing(v: &StructValue) -> (r: Result<Vec<ApfsContainer>, OpError>)
    ensures
        match decode_listing_spec(*v) {
            Some(views) => r matches Ok(out) && out.deep_view() == views,
            None => r matches Err(e) && e@ is Decode,
        },
{
    let entries = match v {
        StructValue::Dict(entries) => entries,
        _ => {
            return Err(decode_error("the listing is not a dictionary"));
        },
    };
    let items = match dict_lookup(entries, "Containers") {
        Some(StructValue::Array(items)) => items,
        _ => {
            return Err(decode_error("the listing has no container array"));
        },
    };
    proof {
        assert(decode_listing_spec(*v) == decode_containers_spec(items@));
    }
    let mut out: Vec<ApfsContainer> = Vec::new();
    let mut j: usize = 0;
    while j < items.len()
        invariant
            0 <= j <= items@.len(),
            decode_listing_spec(*v) == decode_containers_spec(items@),
            decode_containers_spec(items@.take(j as int)) == Some(out.deep_view()),
        decreases items@.len() - j,
    {
        let ghost prev = out.deep_view();
        match decode_container(&items[j]) {
            Ok(container) => {
                let ghost cv = container@;
                out.push(container);
                proof {
                    assert(items@.take(j + 1).drop_last() =~= items@.take(j as int));
                    assert(items@.take(j + 1).last() == items@[j as int]);
                    assert(out.deep_view() =~= prev.push(cv));
                }
            },
            Err(e) => {
                proof {
                    lemma_decode_containers_poisoned(items@, j as int);
                }
                return Err(e);
            },
        }
        j = j + 1;
    }
    proof {
        assert(items@.take(items@.len() as int) =~= items@);
    }
    Ok(out)
}

} // verus!
