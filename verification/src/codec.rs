//! The volume identity codec: a deterministic, collision-free mapping from a
//! mount path to a namespaced volume label. Recognition works only forward:
//! a volume is owned by this tool exactly when its label equals the encoding
//! of the target path, and every label this codec produces carries the fixed
//! namespace prefix, so foreign volumes are never selected.

use vstd::prelude::*;
use vstd::string::StringExecFns;

use crate::text::str_starts_with;

verus! {

/// The namespace prefix that every label produced by this codec carries.
pub open spec fn label_prefix() -> Seq<char> {
    "edenfs:"@
}

/// The label bound to mount path `p`: the namespace prefix followed by the
/// path itself, verbatim.
pub open spec fn encode_spec(p: Seq<char>) -> Seq<char> {
    label_prefix() + p
}

/// A label that carries the namespace prefix, i.e. one that may have been
/// produced by this codec. Anything else is foreign.
pub open spec fn is_system_label(l: Seq<char>) -> bool {
    l.len() >= label_prefix().len() && l.subrange(0, label_prefix().len() as int)
        == label_prefix()
}

/// Encode a mount path as the volume label this tool will own.
pub fn encode_mount_point_as_volume_name(mount_point: &str) -> (r: String)
    ensures
        r@ == encode_spec(mount_point@),
{
    let mut r = String::from_str("edenfs:");
    r.append(mount_point);
    r
}

/// Does `label` carry the namespace prefix?
pub fn label_is_system(label: &str) -> (b: bool)
    ensures
        b == is_system_label(label@),
{
    str_starts_with(label, "edenfs:")
}

/// Distinct paths always receive distinct labels.
pub proof fn lemma_encode_injective(p1: Seq<char>, p2: Seq<char>)
    requires
        p1 != p2,
    ensures
        encode_spec(p1) != encode_spec(p2),
{
    if encode_spec(p1) == encode_spec(p2) {
        assert(encode_spec(p1).len() == label_prefix().len() + p1.len());
        assert(encode_spec(p2).len() == label_prefix().len() + p2.len());
        assert(p1.len() == p2.len());
        assert forall|i: int| 0 <= i < p1.len() implies p1[i] == p2[i] by {
            assert(encode_spec(p1)[label_prefix().len() + i] == p1[i]);
            assert(encode_spec(p2)[label_prefix().len() + i] == p2[i]);
        }
        assert(p1 =~= p2);
    }
}

/// Every label produced by the codec carries the namespace prefix.
pub proof fn lemma_encode_is_system(p: Seq<char>)
    ensures
        is_system_label(encode_spec(p)),
{
    assert(encode_spec(p).subrange(0, label_prefix().len() as int) =~= label_prefix());
}

/// A label without the namespace prefix is never the encoding of any path,
/// so label-based matching never treats a foreign volume as system-owned.
pub proof fn lemma_foreign_label_never_encoded(l: Seq<char>, p: Seq<char>)
    requires
        !is_system_label(l),
    ensures
        l != encode_spec(p),
{
    lemma_encode_is_system(p);
}

} // verus!
