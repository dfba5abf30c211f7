//! The fixed-capacity vectors of `heapless` that carry motion profiles and
//! custom action lists, with what each call used here does to their contents.
use vstd::prelude::*;
use crate::packet::Action;

verus! {

/// `heapless::Vec<T, N>`: a vector stored inline with room for `N` items.
#[verifier::external_type_specification]
#[verifier::external_body]
#[verifier::reject_recursive_types(T)]
pub struct ExFixedVec<T, const N: usize>(heapless::Vec<T, N>);

/// The items of a delay buffer, first pushed first.
pub uninterp spec fn delay_items(v: heapless::Vec<u32, 256>) -> Seq<u32>;

/// The items of an action list, first pushed first.
pub uninterp spec fn action_items(v: heapless::Vec<Action, 256>) -> Seq<Action>;

/// What a push onto a vector of capacity `cap` holding `items` leaves in it.
pub open spec fn pushed<T>(items: Seq<T>, cap: nat, x: T) -> Seq<T> {
    if items.len() < cap {
        items.push(x)
    } else {
        items
    }
}

/// `heapless::Vec::<u32, 256>::new`: an empty buffer.
#[verifier::external_body]
pub(crate) fn delay_buffer_new() -> (v: heapless::Vec<u32, 256>)
    ensures
        delay_items(v) == Seq::<u32>::empty(),
{
    heapless::Vec::new()
}

/// `heapless::Vec::<u32, 256>::push`: appends `x` when fewer than 256 items
/// are held and returns `Ok`; otherwise leaves the buffer as it was and hands
/// `x` back in `Err`.
#[verifier::external_body]
pub(crate) fn delay_buffer_push(v: &mut heapless::Vec<u32, 256>, x: u32) -> (r: Result<(), u32>)
    ensures
        (r is Ok) == (delay_items(*old(v)).len() < 256),
        delay_items(*final(v)) == pushed(delay_items(*old(v)), 256, x),
        r matches Err(y) ==> y == x,
{
    v.push(x)
}

/// The item at index `i` of a delay buffer (slice indexing through `Deref`).
#[verifier::external_body]
pub(crate) fn delay_buffer_get(v: &heapless::Vec<u32, 256>, i: usize) -> (r: u32)
    requires
        i < delay_items(*v).len(),
    ensures
        r == delay_items(*v)[i as int],
{
    v[i]
}

/// The length of a delay buffer (`len` of the slice it dereferences to); a
/// buffer never holds more than its capacity.
#[verifier::external_body]
pub(crate) fn delay_buffer_len(v: &heapless::Vec<u32, 256>) -> (r: usize)
    ensures
        r == delay_items(*v).len(),
        r <= 256,
{
    v.len()
}

/// `heapless::Vec::<Action, 256>::new`: an empty list.
#[verifier::external_body]
pub(crate) fn action_list_new() -> (v: heapless::Vec<Action, 256>)
    ensures
        action_items(v) == Seq::<Action>::empty(),
{
    heapless::Vec::new()
}

/// `heapless::Vec::<Action, 256>::push`: appends `x` when fewer than 256
/// items are held and returns `Ok`; otherwise leaves the list as it was and
/// hands `x` back in `Err`.
#[verifier::external_body]
pub(crate) fn action_list_push(v: &mut heapless::Vec<Action, 256>, x: Action) -> (r: Result<(), Action>)
    ensures
        (r is Ok) == (action_items(*old(v)).len() < 256),
        action_items(*final(v)) == pushed(action_items(*old(v)), 256, x),
        r matches Err(y) ==> y == x,
{
    v.push(x)
}

/// The length of an action list (`len` of the slice it dereferences to);
/// a list never holds more than its capacity.
#[verifier::external_body]
pub(crate) fn action_list_len(v: &heapless::Vec<Action, 256>) -> (r: usize)
    ensures
        r == action_items(*v).len(),
        r <= 256,
{
    v.len()
}

/// The item at index `i` of an action list (slice indexing through `Deref`).
#[verifier::external_body]
pub(crate) fn action_list_get(v: &heapless::Vec<Action, 256>, i: usize) -> (r: Action)
    requires
        i < action_items(*v).len(),
    ensures
        r == action_items(*v)[i as int],
{
    v[i]
}

} // verus!
