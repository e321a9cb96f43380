use vstd::prelude::*;

verus! {

/// The value the integer is allocated with.
pub const INITIAL_VALUE: u32 = 100;

/// The value written through the raw address.
pub const UPDATED_VALUE: u32 = 200;

/// An owning handle on one heap integer. It is neither `Copy` nor `Clone`, so
/// each handle is owned in exactly one place.
pub struct OwnedInt {
    value: u32,
}

impl View for OwnedInt {
    type V = u32;

    closed spec fn view(&self) -> u32 {
        self.value
    }
}

impl OwnedInt {
    /// A handle on a fresh integer holding `value`.
    pub fn new(value: u32) -> (r: OwnedInt)
        ensures
            r@ == value,
    {
        OwnedInt { value }
    }

    /// The integer the handle owns.
    pub fn get(&self) -> (r: u32)
        ensures
            r == self@,
    {
        self.value
    }
}

/// The address of a cell that some handle gave up.
#[derive(Clone, Copy)]
pub struct RawAddress {
    index: usize,
}

impl RawAddress {
    /// The position of the cell in the heap.
    pub closed spec fn index(self) -> int {
        self.index as int
    }
}

/// The cells that handles were turned into. A cell is `Some(v)` while no
/// handle owns it (it holds `v` and can be written through its address), and
/// `None` once a handle took it back, after which its address is dead.
pub struct SlotHeap {
    cells: Vec<Option<u32>>,
}

impl View for SlotHeap {
    type V = Seq<Option<u32>>;

    closed spec fn view(&self) -> Seq<Option<u32>> {
        self.cells@
    }
}

impl SlotHeap {
    /// A heap with no cells.
    pub fn new() -> (r: SlotHeap)
        ensures
            r@ == Seq::<Option<u32>>::empty(),
    {
        SlotHeap { cells: Vec::new() }
    }

    /// Whether `a` names a cell that no handle owns.
    pub open spec fn is_detached(&self, a: RawAddress) -> bool {
        0 <= a.index() < self@.len() && self@[a.index()] is Some
    }

    /// The positions of the cells that no handle owns: each of them is memory
    /// that only a later reconstruction releases.
    pub open spec fn detached(&self) -> Set<int> {
        Set::new(|i: int| 0 <= i < self@.len() && self@[i] is Some)
    }

    /// Gives up the handle: its integer now lives in a new cell that only
    /// the returned address reaches.
    pub fn into_raw(&mut self, handle: OwnedInt) -> (a: RawAddress)
        requires
            old(self)@.len() < usize::MAX,
        ensures
            final(self)@ == old(self)@.push(Some(handle@)),
            a.index() == old(self)@.len(),
    {
        let a = RawAddress { index: self.cells.len() };
        self.cells.push(Some(handle.value));
        a
    }

    /// Writes `value` through the address of a detached cell.
    pub fn write(&mut self, a: RawAddress, value: u32)
        requires
            old(self).is_detached(a),
        ensures
            final(self)@ == old(self)@.update(a.index(), Some(value)),
    {
        self.cells.set(a.index, Some(value));
    }

    /// Reconstructs an owning handle from the address of a detached cell. The
    /// cell is then owned again, so a second reconstruction from the same
    /// address is refused.
    pub fn from_raw(&mut self, a: RawAddress) -> (h: OwnedInt)
        requires
            old(self).is_detached(a),
        ensures
            h@ == old(self)@[a.index()]->0,
            final(self)@ == old(self)@.update(a.index(), None),
    {
        let value = self.cells[a.index].unwrap();
        self.cells.set(a.index, None);
        OwnedInt { value }
    }
}

/// Allocates `initial` under a handle, turns the handle into an address,
/// writes `updated` through it and reconstructs the handle exactly once.
/// Returns what the reconstructed handle holds. Exactly one cell is added,
/// and it ends owned again; every cell that was detached before is detached
/// after, and no other, so nothing leaks.
pub fn raw_round_trip(heap: &mut SlotHeap, initial: u32, updated: u32) -> (r: u32)
    requires
        old(heap)@.len() < usize::MAX,
    ensures
        r == updated,
        final(heap)@ == old(heap)@.push(None),
        final(heap).detached() == old(heap).detached(),
{
    let boxed = OwnedInt::new(initial);
    let raw = heap.into_raw(boxed);
    heap.write(raw, updated);
    let boxed_again = heap.from_raw(raw);
    let r = boxed_again.get();
    proof {
        assert(heap@ =~= old(heap)@.push(None));
        assert(heap.detached() =~= old(heap).detached());
    }
    r
}

/// Reconstruction releases a cell once and for all: after a handle is taken
/// back from a detached address (as `from_raw` leaves the heap), that address
/// is no longer detached, so no write through it and no second reconstruction
/// from it can follow, and the detached cells are the earlier ones less this
/// one.
pub proof fn lemma_reconstruct_once(before: SlotHeap, after: SlotHeap, a: RawAddress)
    requires
        before.is_detached(a),
        after@ == before@.update(a.index(), None),
    ensures
        !after.is_detached(a),
        after.detached() == before.detached().remove(a.index()),
{
    assert(after.detached() =~= before.detached().remove(a.index()));
}

/// A write through a detached address keeps the cell detached and leaves the
/// set of detached cells as it was: writing neither releases nor leaks.
pub proof fn lemma_write_keeps_detached(before: SlotHeap, after: SlotHeap, a: RawAddress, value: u32)
    requires
        before.is_detached(a),
        after@ == before@.update(a.index(), Some(value)),
    ensures
        after.is_detached(a),
        after.detached() == before.detached(),
{
    assert(after.detached() =~= before.detached());
}

/// The round trip on a fresh heap, from the initial value to the updated one:
/// the reconstructed handle holds the updated value.
pub fn raw_pointer_demo() -> (r: u32)
    ensures
        r == UPDATED_VALUE,
{
    let mut heap = SlotHeap::new();
    raw_round_trip(&mut heap, INITIAL_VALUE, UPDATED_VALUE)
}

} // verus!
