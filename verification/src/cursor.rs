use vstd::prelude::*;

verus! {

/// Number of rotating instance-buffer slots in the pool.
pub const POOL_SLOTS: usize = 3;

/// The slot index that holds the cursor after `i` advances from `initial`.
pub open spec fn slot_after(initial: nat, i: nat) -> nat {
    (initial + i) % (POOL_SLOTS as nat)
}

/// Selects which pool slot is current for each frame. The cursor is always a
/// valid slot index and moves by exactly one slot per advance; the caller must
/// serialize `advance` so that it runs exactly once per frame.
pub struct FrameCursor {
    index: usize,
}

impl FrameCursor {
    /// The current slot index, as a mathematical value.
    pub closed spec fn spec_index(self) -> nat {
        self.index as nat
    }

    /// The cursor always denotes one of the pool's slots.
    pub closed spec fn wf(self) -> bool {
        self.index < POOL_SLOTS
    }

    pub fn new() -> (c: FrameCursor)
        ensures
            c.wf(),
            c.spec_index() == 0,
    {
        FrameCursor { index: 0 }
    }

    /// The slot index the cursor currently rests on.
    pub fn current(&self) -> (slot: usize)
        requires
            self.wf(),
        ensures
            slot == self.spec_index(),
            slot < POOL_SLOTS,
    {
        self.index
    }

    /// Computes the next cursor value and returns the slot index to use for
    /// this frame.
    pub fn advance(&mut self) -> (slot: usize)
        requires
            old(self).wf(),
        ensures
            final(self).wf(),
            slot == final(self).spec_index(),
            final(self).spec_index() == slot_after(old(self).spec_index(), 1),
            slot < POOL_SLOTS,
    {
        self.index = (self.index + 1) % POOL_SLOTS;
        self.index
    }
}

/// Advancing rotates one step at a time: moving the cursor `i + k` steps
/// selects the slot reached by moving it `i` steps and then rotating `k`
/// further positions around the pool.
pub proof fn lemma_selection_follows_rotation(initial: nat, i: nat, k: nat)
    ensures
        slot_after(initial, i + k) == (slot_after(initial, i) + k) % (POOL_SLOTS as nat),
{
    vstd::arithmetic::div_mod::lemma_add_mod_noop_right(
        k as int,
        (initial + i) as int,
        POOL_SLOTS as int,
    );
}

/// No slot index repeats within any `POOL_SLOTS` consecutive selections.
pub proof fn lemma_no_repeat_within_pool(initial: nat, i: nat, j: nat)
    requires
        i < j < i + POOL_SLOTS,
    ensures
        slot_after(initial, i) != slot_after(initial, j),
{
    let p = POOL_SLOTS as nat;
    let k = (j - i) as nat;
    lemma_selection_follows_rotation(initial, i, k);
    assert(slot_after(initial, i) < p && slot_after(initial, j) < p) by {
        vstd::arithmetic::div_mod::lemma_mod_pos_bound((initial + i) as int, p as int);
        vstd::arithmetic::div_mod::lemma_mod_pos_bound((initial + j) as int, p as int);
    }
}

/// The slot indices a run of `k` frames selects, in order: the entry at `i`
/// is what the `1 + i`-th advance from `initial` returns.
pub open spec fn selected_slots(initial: nat, k: nat) -> Seq<nat> {
    Seq::new(k, |i: int| slot_after(initial, (i + 1) as nat))
}

/// Over any run of `k` frames the selected slot indices follow
/// `(first + i) % POOL_SLOTS` from the first selection onward, and no index
/// repeats within any `POOL_SLOTS` consecutive frames.
pub proof fn lemma_selected_slots(initial: nat, k: nat)
    ensures
        selected_slots(initial, k).len() == k,
        forall|i: int|
            0 <= i < k ==> #[trigger] selected_slots(initial, k)[i] == (slot_after(initial, 1)
                + i) % (POOL_SLOTS as int),
        forall|i: int, j: int|
            #![trigger selected_slots(initial, k)[i], selected_slots(initial, k)[j]]
            0 <= i < j < k && j < i + POOL_SLOTS ==> selected_slots(initial, k)[i]
                != selected_slots(initial, k)[j],
{
    assert forall|i: int| 0 <= i < k implies #[trigger] selected_slots(initial, k)[i] == (
    slot_after(initial, 1) + i) % (POOL_SLOTS as int) by {
        lemma_selection_follows_rotation(initial, 1, i as nat);
    }
    assert forall|i: int, j: int|
        #![trigger selected_slots(initial, k)[i], selected_slots(initial, k)[j]]
        0 <= i < j < k && j < i + POOL_SLOTS implies selected_slots(initial, k)[i]
        != selected_slots(initial, k)[j] by {
        lemma_no_repeat_within_pool(initial, (i + 1) as nat, (j + 1) as nat);
    }
}

} // verus!
