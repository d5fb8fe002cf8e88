//! The set of currently disputed transaction ids, kept in a
//! `tinyset::SetU32`. The set is opaque to the verifier; its contents are
//! named by `set_u32_elems`, and each method the account logic calls has a
//! contract stating what the crate's source shows it does to those contents.

use vstd::prelude::*;

verus! {

#[verifier::external_type_specification]
#[verifier::external_body]
pub struct ExSetU32(tinyset::SetU32);

/// The elements a `tinyset::SetU32` currently holds.
pub uninterp spec fn set_u32_elems(s: tinyset::SetU32) -> Set<u32>;

/// Relies on tinyset::SetU32::new: the returned set is empty.
#[verifier::external_body]
pub(crate) fn set_u32_new() -> (r: tinyset::SetU32)
    ensures
        set_u32_elems(r) == Set::<u32>::empty(),
{
    tinyset::SetU32::new()
}

/// Relies on tinyset::SetU32::contains: membership in the set's contents.
#[verifier::external_body]
pub(crate) fn set_u32_contains(s: &tinyset::SetU32, e: u32) -> (r: bool)
    ensures
        r == set_u32_elems(*s).contains(e),
{
    s.contains(e)
}

/// Relies on tinyset::SetU32::insert: adds the element and reports whether it
/// was absent before.
#[verifier::external_body]
pub(crate) fn set_u32_insert(s: &mut tinyset::SetU32, e: u32) -> (r: bool)
    ensures
        set_u32_elems(*final(s)) == set_u32_elems(*old(s)).insert(e),
        r == !set_u32_elems(*old(s)).contains(e),
{
    s.insert(e)
}

/// Relies on tinyset::SetU32::remove: takes the element out and reports
/// whether it was present.
#[verifier::external_body]
pub(crate) fn set_u32_remove(s: &mut tinyset::SetU32, e: u32) -> (r: bool)
    ensures
        set_u32_elems(*final(s)) == set_u32_elems(*old(s)).remove(e),
        r == set_u32_elems(*old(s)).contains(e),
{
    s.remove(e)
}

} // verus!
