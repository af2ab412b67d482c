//! Handle Cache: owns the controller handle stored for each device slot.
//!
//! Handles are opened lazily and refreshed unconditionally: a resolve for a
//! valid slot always stores a freshly opened handle, replacing (and thereby
//! releasing) whatever the slot held before.  The mapping grows to make a
//! slot addressable and never shrinks.  An invalid slot leaves the cache
//! untouched.

use vstd::prelude::*;

use crate::sdl::GameController;

verus! {

/// `s` extended with empty entries until it has at least `n` entries.
pub open spec fn grow_model(s: Seq<Option<GameController>>, n: int) -> Seq<
    Option<GameController>,
> {
    if s.len() >= n {
        s
    } else {
        s + Seq::new((n - s.len()) as nat, |i: int| None)
    }
}

/// The cache contents after a resolve of valid `slot` stored the freshly
/// opened handle `h`: the mapping grown to make `slot` addressable, existing
/// entries kept, and `slot` now holding `h` in place of its old occupant.
pub open spec fn resolve_model(
    s: Seq<Option<GameController>>,
    slot: int,
    h: GameController,
) -> Seq<Option<GameController>>
    recommends
        0 <= slot,
{
    grow_model(s, slot + 1).update(slot, Some(h))
}

/// The slot-indexed store of controller handles.
pub struct Controllers {
    handles: Vec<Option<GameController>>,
}

impl View for Controllers {
    type V = Seq<Option<GameController>>;

    closed spec fn view(&self) -> Seq<Option<GameController>> {
        self.handles@
    }
}

impl Controllers {
    /// An empty cache: no slot has ever been resolved.
    pub fn new() -> (r: Controllers)
        ensures
            r@ == Seq::<Option<GameController>>::empty(),
    {
        Controllers { handles: Vec::new() }
    }

    /// How many slots are addressable so far.
    pub fn len(&self) -> (n: usize)
        ensures
            n == self@.len(),
    {
        self.handles.len()
    }

    /// The handle currently stored for `slot`, if the slot is addressable
    /// and occupied.
    pub fn get(&self, slot: usize) -> (r: Option<GameController>)
        ensures
            r == if slot < self@.len() {
                self@[slot as int]
            } else {
                None::<GameController>
            },
    {
        if slot < self.handles.len() {
            self.handles[slot]
        } else {
            None
        }
    }

    /// Resolves one poll request against the provider's verdict on
    /// `device_index`.  `opened` is `None` when the provider said the slot
    /// is not a controller: the cache is left untouched, stale entries
    /// included.  `opened` is `Some(h)` when the provider opened a fresh
    /// handle `h` for the slot: the mapping grows to make the slot
    /// addressable, the fresh handle replaces (and thereby releases) any
    /// previous occupant, and the stored handle is returned.  The mapping
    /// never shrinks.
    pub fn handle(&mut self, device_index: usize, opened: Option<GameController>) -> (r: Option<
        GameController,
    >)
        requires
            opened is Some ==> device_index < usize::MAX,
        ensures
            final(self)@.len() >= old(self)@.len(),
            opened is None ==> final(self)@ == old(self)@ && r is None,
            opened matches Some(h) ==> final(self)@ == resolve_model(
                old(self)@,
                device_index as int,
                h,
            ) && r == opened,
    {
        let h = match opened {
            None => {
                return None;
            },
            Some(h) => h,
        };
        while self.handles.len() < device_index + 1
            invariant
                device_index < usize::MAX,
                self.handles@ == grow_model(old(self)@, self.handles@.len() as int),
                self.handles@.len() >= old(self)@.len(),
                old(self)@.len() < self.handles@.len() ==> self.handles@.len() <= device_index
                    + 1,
            decreases device_index + 1 - self.handles.len(),
        {
            proof {
                let cur = self.handles@;
                assert(grow_model(old(self)@, cur.len() as int + 1) =~= cur.push(
                    None::<GameController>,
                ));
            }
            self.handles.push(None);
        }
        proof {
            assert(self.handles@ =~= grow_model(old(self)@, device_index + 1));
        }
        self.handles.set(device_index, Some(h));
        Some(h)
    }
}

/// Law: a resolve never shrinks the cache; the mapping keeps its length or
/// grows to exactly the resolved slot's index plus one, whichever is larger.
pub proof fn lemma_cache_never_shrinks(s: Seq<Option<GameController>>, slot: int, h: GameController)
    requires
        0 <= slot,
    ensures
        resolve_model(s, slot, h).len() >= s.len(),
        resolve_model(s, slot, h).len() == if s.len() >= slot + 1 {
            s.len()
        } else {
            (slot + 1) as nat
        },
{
}

/// Law: resolving the same valid slot twice in a row yields two
/// independently stored handles.  The first resolve stores the first
/// handle; the second stores the second handle over it, releasing the first
/// occupant exactly once (by that single replacement), while every other
/// entry and the cache length stay exactly as the first resolve left them.
pub proof fn lemma_resolve_same_slot_twice(
    s: Seq<Option<GameController>>,
    slot: int,
    h1: GameController,
    h2: GameController,
)
    requires
        0 <= slot,
    ensures
        resolve_model(s, slot, h1)[slot] == Some(h1),
        resolve_model(resolve_model(s, slot, h1), slot, h2)[slot] == Some(h2),
        resolve_model(resolve_model(s, slot, h1), slot, h2).len() == resolve_model(
            s,
            slot,
            h1,
        ).len(),
        forall|i: int|
            0 <= i < resolve_model(s, slot, h1).len() && i != slot ==> resolve_model(
                resolve_model(s, slot, h1),
                slot,
                h2,
            )[i] == resolve_model(s, slot, h1)[i],
{
    let first = resolve_model(s, slot, h1);
    assert(first.len() >= slot + 1);
    assert(grow_model(first, slot + 1) == first);
}

} // verus!
