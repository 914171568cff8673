use vstd::prelude::*;

verus! {

/// Forward-only position in a native null-terminated array. The caller reads
/// the slot at `position()` and hands it to `advance`: a null slot (`None`)
/// ends the sequence and leaves the position where it is, so every later step
/// reads that same terminator again.
pub struct ArrayCursor {
    position: usize,
}

/// The slot at index `i` of a native array, with every index past its end
/// read as null.
pub open spec fn slot_at<T>(slots: Seq<Option<T>>, i: nat) -> Option<T> {
    if i < slots.len() {
        slots[i as int]
    } else {
        None
    }
}

/// The position after one step over a slot.
pub open spec fn next_position<T>(position: nat, slot: Option<T>) -> nat {
    match slot {
        Some(_) => position + 1,
        None => position,
    }
}

/// What `k` successive steps from `position` over `slots` hand out.
pub open spec fn walk<T>(slots: Seq<Option<T>>, position: nat, k: nat) -> Seq<Option<T>>
    decreases k,
{
    if k == 0 {
        Seq::empty()
    } else {
        let slot = slot_at(slots, position);
        seq![slot] + walk(slots, next_position(position, slot), (k - 1) as nat)
    }
}

/// Whether `slots` is a native array of `n` entries followed by its null
/// terminator.
pub open spec fn null_terminated<T>(slots: Seq<Option<T>>, n: nat) -> bool {
    &&& slots.len() == n + 1
    &&& slots[n as int] is None
    &&& forall|i: int| 0 <= i < n ==> slots[i] is Some
}

impl View for ArrayCursor {
    type V = nat;

    closed spec fn view(&self) -> nat {
        self.position as nat
    }
}

impl ArrayCursor {
    /// A cursor on the first slot of an array.
    pub fn new() -> (r: ArrayCursor)
        ensures
            r@ == 0,
    {
        ArrayCursor { position: 0 }
    }

    /// The index of the slot that the next step reads.
    pub fn position(&self) -> (r: usize)
        ensures
            r == self@,
    {
        self.position
    }

    /// One step over the slot at `position()`: hands out its entry, or `None`
    /// at the terminator, and moves past an entry only.
    pub fn advance<T>(&mut self, slot: Option<T>) -> (r: Option<T>)
        requires
            slot is Some ==> old(self)@ < usize::MAX,
        ensures
            r == slot,
            final(self)@ == next_position(old(self)@, slot),
    {
        if slot.is_some() {
            self.position = self.position + 1;
        }
        slot
    }
}

proof fn lemma_walk_from<T>(slots: Seq<Option<T>>, n: nat, position: nat, extra: nat)
    requires
        null_terminated(slots, n),
        position <= n,
    ensures
        walk(slots, position, (n - position) as nat + 1 + extra) == Seq::new(
            (n - position) as nat,
            |i: int| slots[position + i],
        ) + Seq::new(extra + 1, |i: int| None::<T>),
    decreases n - position + extra,
{
    let k = (n - position) as nat + 1 + extra;
    let rest = (k - 1) as nat;
    let items = Seq::new((n - position) as nat, |i: int| slots[position + i]);
    let nulls = Seq::new(extra + 1, |i: int| None::<T>);
    if position < n {
        lemma_walk_from(slots, n, position + 1, extra);
        let tail_items = Seq::new((n - (position + 1)) as nat, |i: int| slots[position + 1 + i]);
        assert(items =~= seq![slots[position as int]] + tail_items);
        assert(walk(slots, position, k) =~= seq![slots[position as int]] + (tail_items + nulls));
    } else if extra == 0 {
        assert(walk(slots, position, rest) =~= Seq::empty());
        assert(walk(slots, position, k) =~= items + nulls);
    } else {
        lemma_walk_from(slots, n, position, (extra - 1) as nat);
        let fewer = Seq::new(extra as nat, |i: int| None::<T>);
        assert(walk(slots, position, rest) =~= items + fewer);
        assert(walk(slots, position, k) =~= items + nulls);
    }
}

/// Walking a native array of `n` entries and its null terminator from the
/// first slot hands out exactly the `n` entries, in the array's order, and
/// then reports exhaustion at every later step. With `n == 0`, an array whose
/// first slot is null, it hands out nothing.
pub proof fn lemma_walk_yields_entries_then_ends<T>(slots: Seq<Option<T>>, n: nat, extra: nat)
    requires
        null_terminated(slots, n),
    ensures
        walk(slots, 0, n + 1 + extra) == Seq::new(n, |i: int| slots[i]) + Seq::new(
            extra + 1,
            |i: int| None::<T>,
        ),
{
    lemma_walk_from(slots, n, 0, extra);
    assert(Seq::new(n, |i: int| slots[0 + i]) =~= Seq::new(n, |i: int| slots[i]));
}

} // verus!
