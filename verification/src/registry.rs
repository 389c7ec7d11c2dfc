//! The registry engine: id allocation, the asset store, the ownership
//! index, and the three atomic operations `create`, `transfer` and
//! `breed`. Every operation validates its preconditions before touching
//! any state, so a failed operation leaves the registry unchanged.

use crate::dna::{combine_dna, combined_code, Kitty};
use std::collections::HashMap;
use vstd::prelude::*;

verus! {

broadcast use vstd::std_specs::hash::group_hash_axioms;

/// The validation failures an operation can report. All are terminal:
/// the failed operation mutates nothing and the error surfaces verbatim.
#[derive(Clone, Copy, Debug, PartialEq, Eq, Structural)]
pub enum Error {
    /// The id allocator is already at the maximum id.
    KittiesCountOverflow,
    /// A breeding parent id is absent from the asset store.
    InvalidKittyId,
    /// The asset referenced by a transfer does not exist.
    KittyNotExists,
    /// The transfer caller is not the current owner of the asset.
    NotKittyOwner,
    /// The transfer recipient equals the caller.
    TransferToSelf,
    /// Both breeding parent ids are the same asset.
    RequiredDiffrentParent,
}

/// The notifications a successful operation emits.
#[derive(Clone, Copy, Debug, PartialEq, Eq, Structural)]
pub enum Event {
    /// `Created(owner, kitty_id)`: a new asset was created or bred.
    Created(u64, u32),
    /// `Transferred(from, to, kitty_id)`: an asset changed owner.
    Transferred(u64, u64, u32),
}

/// The mathematical model of a registry: the asset store and ownership
/// index as maps, the allocator counter, and the emitted events in order.
#[verifier::ext_equal]
pub struct RegistryView {
    /// Genetic code of each live asset, keyed by id.
    pub kitties: Map<u32, Seq<u8>>,
    /// Current owner of each live asset, keyed by id.
    pub kitty_owners: Map<u32, u64>,
    /// One past the highest id ever allocated; the next id to issue.
    pub kitties_count: u32,
    /// Every notification emitted so far, oldest first.
    pub events: Seq<Event>,
}

impl RegistryView {
    /// Well-formedness: the asset store and the ownership index hold
    /// exactly the same ids (lock-step), every live id is below the
    /// allocator counter, and every stored code is 16 bytes.
    pub open spec fn wf(self) -> bool {
        &&& forall|kitty_id: u32| #[trigger]
            self.kitties.contains_key(kitty_id) ==> self.kitty_owners.contains_key(kitty_id)
        &&& forall|kitty_id: u32| #[trigger]
            self.kitty_owners.contains_key(kitty_id) ==> self.kitties.contains_key(kitty_id)
        &&& forall|kitty_id: u32| #[trigger]
            self.kitties.contains_key(kitty_id) ==> kitty_id < self.kitties_count
        &&& forall|kitty_id: u32| #[trigger]
            self.kitties.contains_key(kitty_id) ==> self.kitties[kitty_id].len() == 16
    }
}

/// The asset registry. All three persistent regions (asset store,
/// ownership index, allocator counter) are owned here and mutated only
/// by the registry's own operations.
pub struct Registry {
    kitties: HashMap<u32, Kitty>,
    kitty_owners: HashMap<u32, u64>,
    kitties_count: u32,
    events: Vec<Event>,
}

impl View for Registry {
    type V = RegistryView;

    closed spec fn view(&self) -> RegistryView {
        RegistryView {
            kitties: self.kitties@.map_values(|k: Kitty| k@),
            kitty_owners: self.kitty_owners@,
            kitties_count: self.kitties_count,
            events: self.events@,
        }
    }
}

impl Registry {
    /// An empty registry: no assets, no owners, counter at zero.
    pub fn new() -> (r: Registry)
        ensures
            r@.wf(),
            r@.kitties == Map::<u32, Seq<u8>>::empty(),
            r@.kitty_owners == Map::<u32, u64>::empty(),
            r@.kitties_count == 0,
            r@.events == Seq::<Event>::empty(),
    {
        let r = Registry {
            kitties: HashMap::new(),
            kitty_owners: HashMap::new(),
            kitties_count: 0,
            events: Vec::new(),
        };
        proof {
            assert(r@.kitties =~= Map::<u32, Seq<u8>>::empty());
        }
        r
    }

    /// An empty registry whose allocator counter is pre-set to
    /// `kitties_count`, as a persisted genesis state would be.
    pub fn with_kitties_count(kitties_count: u32) -> (r: Registry)
        ensures
            r@.wf(),
            r@.kitties == Map::<u32, Seq<u8>>::empty(),
            r@.kitty_owners == Map::<u32, u64>::empty(),
            r@.kitties_count == kitties_count,
            r@.events == Seq::<Event>::empty(),
    {
        let r = Registry {
            kitties: HashMap::new(),
            kitty_owners: HashMap::new(),
            kitties_count,
            events: Vec::new(),
        };
        proof {
            assert(r@.kitties =~= Map::<u32, Seq<u8>>::empty());
        }
        r
    }

    /// The id the allocator would issue next: the counter itself, unless
    /// the counter has reached the maximum id, which is kept as an
    /// unreachable sentinel and never issued.
    pub fn next_kitty_id(&self) -> (r: Result<u32, Error>)
        ensures
            r == (if self@.kitties_count == u32::MAX {
                Err::<u32, Error>(Error::KittiesCountOverflow)
            } else {
                Ok::<u32, Error>(self@.kitties_count)
            }),
    {
        if self.kitties_count == u32::MAX {
            Err(Error::KittiesCountOverflow)
        } else {
            Ok(self.kitties_count)
        }
    }

    /// Insert a freshly allocated asset: store its record, record its
    /// owner, and advance the allocator counter past the new id. The id
    /// must be the one the allocator is about to issue, so the counter
    /// keeps its "one past the highest id" meaning.
    pub fn insert_kitty(&mut self, owner: u64, kitty_id: u32, kitty: Kitty)
        requires
            old(self)@.wf(),
            kitty_id == old(self)@.kitties_count,
            kitty_id < u32::MAX,
        ensures
            final(self)@.wf(),
            final(self)@.kitties == old(self)@.kitties.insert(kitty_id, kitty@),
            final(self)@.kitty_owners == old(self)@.kitty_owners.insert(kitty_id, owner),
            final(self)@.kitties_count == kitty_id + 1,
            final(self)@.events == old(self)@.events,
    {
        self.kitties.insert(kitty_id, kitty);
        self.kitties_count = kitty_id + 1;
        self.kitty_owners.insert(kitty_id, owner);
        proof {
            assert(self@.kitties =~= old(self)@.kitties.insert(kitty_id, kitty@));
            assert forall|id: u32| #[trigger]
                self@.kitty_owners.contains_key(id) implies self@.kitties.contains_key(id) by {
                if id != kitty_id {
                    assert(old(self)@.kitty_owners.contains_key(id));
                }
            }
        }
    }

    /// Create a new asset with the given genetic code, owned by
    /// `sender`, and emit `Created`. Fails only with
    /// `KittiesCountOverflow`, when the allocator is exhausted; the
    /// failed call changes nothing.
    pub fn create(&mut self, sender: u64, dna: [u8; 16]) -> (r: Result<u32, Error>)
        requires
            old(self)@.wf(),
        ensures
            final(self)@.wf(),
            (match r {
                Ok(kitty_id) => allocates(old(self)@, final(self)@, kitty_id),
                Err(_) => true,
            }),
            (match r {
                Ok(kitty_id) => {
                    &&& old(self)@.kitties_count < u32::MAX
                    &&& kitty_id == old(self)@.kitties_count
                    &&& final(self)@.kitties == old(self)@.kitties.insert(kitty_id, dna@)
                    &&& final(self)@.kitty_owners == old(self)@.kitty_owners.insert(
                        kitty_id,
                        sender,
                    )
                    &&& final(self)@.kitties_count == kitty_id + 1
                    &&& final(self)@.events == old(self)@.events.push(
                        Event::Created(sender, kitty_id),
                    )
                },
                Err(e) => {
                    &&& e == Error::KittiesCountOverflow
                    &&& old(self)@.kitties_count == u32::MAX
                    &&& *final(self) == *old(self)
                },
            }),
    {
        let kitty_id = match self.next_kitty_id() {
            Ok(kitty_id) => kitty_id,
            Err(e) => {
                return Err(e);
            },
        };
        let kitty = Kitty(dna);
        self.insert_kitty(sender, kitty_id, kitty);
        self.events.push(Event::Created(sender, kitty_id));
        Ok(kitty_id)
    }

    /// Transfer the asset `kitty_id` from `sender` to `to` and emit
    /// `Transferred`. The checks run in order — the asset must exist,
    /// `sender` must be its current owner, and `to` must differ from
    /// `sender` — and the first failure wins, with nothing mutated. On
    /// success only the ownership entry changes: the record itself, the
    /// allocator, and every other entry stay as they were.
    pub fn transfer(&mut self, sender: u64, to: u64, kitty_id: u32) -> (r: Result<(), Error>)
        requires
            old(self)@.wf(),
        ensures
            final(self)@.wf(),
            (match r {
                Ok(_) => {
                    &&& old(self)@.kitties.contains_key(kitty_id)
                    &&& old(self)@.kitty_owners[kitty_id] == sender
                    &&& to != sender
                    &&& final(self)@.kitties == old(self)@.kitties
                    &&& final(self)@.kitty_owners == old(self)@.kitty_owners.insert(kitty_id, to)
                    &&& final(self)@.kitties_count == old(self)@.kitties_count
                    &&& final(self)@.events == old(self)@.events.push(
                        Event::Transferred(sender, to, kitty_id),
                    )
                },
                Err(e) => {
                    &&& *final(self) == *old(self)
                    &&& e == (if !old(self)@.kitties.contains_key(kitty_id) {
                        Error::KittyNotExists
                    } else if old(self)@.kitty_owners[kitty_id] != sender {
                        Error::NotKittyOwner
                    } else {
                        Error::TransferToSelf
                    })
                    &&& {
                        ||| !old(self)@.kitties.contains_key(kitty_id)
                        ||| old(self)@.kitty_owners[kitty_id] != sender
                        ||| to == sender
                    }
                },
            }),
    {
        if !self.kitties.contains_key(&kitty_id) {
            return Err(Error::KittyNotExists);
        }
        proof {
            assert(self@.kitties.contains_key(kitty_id));
            assert(self@.kitty_owners.contains_key(kitty_id));
        }
        let owner = *self.kitty_owners.get(&kitty_id).unwrap();
        if owner != sender {
            return Err(Error::NotKittyOwner);
        }
        if to == sender {
            return Err(Error::TransferToSelf);
        }
        self.kitty_owners.remove(&kitty_id);
        self.kitty_owners.insert(kitty_id, to);
        self.events.push(Event::Transferred(sender, to, kitty_id));
        proof {
            assert(self@.kitty_owners =~= old(self)@.kitty_owners.insert(kitty_id, to));
            assert(self@.kitties =~= old(self)@.kitties);
            assert forall|id: u32| #[trigger]
                self@.kitty_owners.contains_key(id) implies self@.kitties.contains_key(id) by {
                if id != kitty_id {
                    assert(old(self)@.kitty_owners.contains_key(id));
                }
            }
        }
        Ok(())
    }

    /// The state change and result common to `do_breed` and `breed`: a
    /// child of the two parents is created under the selector, owned by
    /// `sender`, and the allocator advances. Both parents must exist and
    /// differ, and the allocator must have capacity; the id checks come
    /// first, so a missing parent is reported even when the allocator is
    /// exhausted.
    pub open spec fn breeds(
        pre: RegistryView,
        post: RegistryView,
        sender: u64,
        kitty_id_1: u32,
        kitty_id_2: u32,
        selector: Seq<u8>,
        r: Result<u32, Error>,
    ) -> bool {
        match r {
            Ok(new_id) => {
                &&& pre.kitties.contains_key(kitty_id_1)
                &&& pre.kitties.contains_key(kitty_id_2)
                &&& kitty_id_1 != kitty_id_2
                &&& pre.kitties_count < u32::MAX
                &&& new_id == pre.kitties_count
                &&& post.kitties == pre.kitties.insert(
                    new_id,
                    combined_code(pre.kitties[kitty_id_1], pre.kitties[kitty_id_2], selector),
                )
                &&& post.kitty_owners == pre.kitty_owners.insert(new_id, sender)
                &&& post.kitties_count == new_id + 1
            },
            Err(e) => {
                &&& e == (if !pre.kitties.contains_key(kitty_id_1)
                    || !pre.kitties.contains_key(kitty_id_2) {
                    Error::InvalidKittyId
                } else if kitty_id_1 == kitty_id_2 {
                    Error::RequiredDiffrentParent
                } else {
                    Error::KittiesCountOverflow
                })
                &&& {
                    ||| !pre.kitties.contains_key(kitty_id_1)
                    ||| !pre.kitties.contains_key(kitty_id_2)
                    ||| kitty_id_1 == kitty_id_2
                    ||| pre.kitties_count == u32::MAX
                }
            },
        }
    }

    /// Breed a child from the two parent assets under the given selector
    /// mask: each byte of the child's code takes, bit by bit, the
    /// corresponding parent byte that the selector picks. The child is
    /// owned by `sender`, who need not own either parent. No event is
    /// emitted here; `breed` is the operation that reports `Created`.
    #[verifier::loop_isolation(false)]
    pub fn do_breed(
        &mut self,
        sender: u64,
        kitty_id_1: u32,
        kitty_id_2: u32,
        selector: [u8; 16],
    ) -> (r: Result<u32, Error>)
        requires
            old(self)@.wf(),
        ensures
            final(self)@.wf(),
            Self::breeds(old(self)@, final(self)@, sender, kitty_id_1, kitty_id_2, selector@, r),
            (match r {
                Ok(new_id) => allocates(old(self)@, final(self)@, new_id),
                Err(_) => true,
            }),
            (r is Err ==> *final(self) == *old(self)),
            (r is Ok ==> final(self)@.events == old(self)@.events),
    {
        let kitty1 = match self.kitties.get(&kitty_id_1) {
            Some(k) => *k,
            None => {
                return Err(Error::InvalidKittyId);
            },
        };
        let kitty2 = match self.kitties.get(&kitty_id_2) {
            Some(k) => *k,
            None => {
                return Err(Error::InvalidKittyId);
            },
        };
        if kitty_id_1 == kitty_id_2 {
            return Err(Error::RequiredDiffrentParent);
        }
        let kitty_id = match self.next_kitty_id() {
            Ok(kitty_id) => kitty_id,
            Err(e) => {
                return Err(e);
            },
        };
        let kitty1_dna = kitty1.0;
        let kitty2_dna = kitty2.0;
        let mut new_dna = [0u8; 16];
        let mut i: usize = 0;
        while i < 16
            invariant
                i <= 16,
                forall|j: int|
                    0 <= j < i ==> new_dna@[j] == crate::dna::spec_combine_dna(
                        kitty1_dna@[j],
                        kitty2_dna@[j],
                        selector@[j],
                    ),
            decreases 16 - i,
        {
            let b = combine_dna(kitty1_dna[i], kitty2_dna[i], selector[i]);
            new_dna[i] = b;
            i = i + 1;
        }
        proof {
            assert(new_dna@ =~= combined_code(self@.kitties[kitty_id_1],
                self@.kitties[kitty_id_2], selector@));
        }
        self.insert_kitty(sender, kitty_id, Kitty(new_dna));
        Ok(kitty_id)
    }

    /// Breed a child from the two parents and emit `Created` for it. The
    /// preconditions, their order, and the state change are those of
    /// `do_breed`; the only addition is the event.
    pub fn breed(&mut self, sender: u64, kitty_id_1: u32, kitty_id_2: u32, selector: [u8; 16]) -> (r:
        Result<u32, Error>)
        requires
            old(self)@.wf(),
        ensures
            final(self)@.wf(),
            Self::breeds(old(self)@, final(self)@, sender, kitty_id_1, kitty_id_2, selector@, r),
            (match r {
                Ok(new_id) => allocates(old(self)@, final(self)@, new_id),
                Err(_) => true,
            }),
            (r is Err ==> *final(self) == *old(self)),
            (match r {
                Ok(new_id) => final(self)@.events == old(self)@.events.push(
                    Event::Created(sender, new_id),
                ),
                Err(_) => true,
            }),
    {
        let new_kitty_id = match self.do_breed(sender, kitty_id_1, kitty_id_2, selector) {
            Ok(new_kitty_id) => new_kitty_id,
            Err(e) => {
                return Err(e);
            },
        };
        self.events.push(Event::Created(sender, new_kitty_id));
        Ok(new_kitty_id)
    }

    /// The allocator counter: one past the highest id ever allocated.
    pub fn kitties_count(&self) -> (r: u32)
        ensures
            r == self@.kitties_count,
    {
        self.kitties_count
    }

    /// Look up the asset record stored under `kitty_id`.
    pub fn kitties(&self, kitty_id: u32) -> (r: Option<Kitty>)
        ensures
            (match r {
                Some(kitty) => self@.kitties.contains_key(kitty_id) && kitty@
                    == self@.kitties[kitty_id],
                None => !self@.kitties.contains_key(kitty_id),
            }),
    {
        match self.kitties.get(&kitty_id) {
            Some(kitty) => Some(*kitty),
            None => None,
        }
    }

    /// Look up the current owner of the asset `kitty_id`.
    pub fn kitty_owner(&self, kitty_id: u32) -> (r: Option<u64>)
        ensures
            (match r {
                Some(owner) => self@.kitty_owners.contains_key(kitty_id) && owner
                    == self@.kitty_owners[kitty_id],
                None => !self@.kitty_owners.contains_key(kitty_id),
            }),
    {
        match self.kitty_owners.get(&kitty_id) {
            Some(owner) => Some(*owner),
            None => None,
        }
    }

    /// The notifications emitted so far, oldest first.
    pub fn events(&self) -> (r: &Vec<Event>)
        ensures
            r@ == self@.events,
    {
        &self.events
    }
}

/// A successful allocation step: the id handed out is the allocator's
/// pre-call value and the counter advances by one, exactly what `create`
/// and `breed` ensure of every `Ok` result.
pub open spec fn allocates(pre: RegistryView, post: RegistryView, kitty_id: u32) -> bool {
    &&& kitty_id == pre.kitties_count
    &&& post.kitties_count == pre.kitties_count + 1
}

/// Ownership lock-step law: in every well-formed registry state — and
/// every operation here both requires and preserves well-formedness — an
/// id is in the asset store exactly when it is in the ownership index.
pub proof fn lemma_ownership_lockstep(s: RegistryView)
    requires
        s.wf(),
    ensures
        forall|kitty_id: u32| #[trigger]
            s.kitties.contains_key(kitty_id) <==> #[trigger] s.kitty_owners.contains_key(kitty_id),
{
}

/// Counters only grow along a chain of successful allocations: after
/// `j - i` further steps the counter is at least `j - i` higher.
proof fn lemma_count_grows(states: Seq<RegistryView>, ids: Seq<u32>, i: int, j: int)
    requires
        states.len() == ids.len() + 1,
        forall|k: int| 0 <= k < ids.len() ==> #[trigger] allocates(states[k], states[k + 1], ids[k]),
        0 <= i <= j <= ids.len(),
    ensures
        states[i].kitties_count + (j - i) <= states[j].kitties_count,
    decreases j - i,
{
    if i < j {
        assert(allocates(states[i], states[i + 1], ids[i]));
        lemma_count_grows(states, ids, i + 1, j);
    }
}

/// Id monotonicity law: along any sequence of successful create/breed
/// calls — `states` being the registry models before and after each call
/// and `ids` the returned ids — each id equals the allocator's pre-call
/// value, and the ids are strictly increasing.
pub proof fn lemma_ids_strictly_increasing(states: Seq<RegistryView>, ids: Seq<u32>)
    requires
        states.len() == ids.len() + 1,
        forall|k: int| 0 <= k < ids.len() ==> #[trigger] allocates(states[k], states[k + 1], ids[k]),
    ensures
        forall|k: int| 0 <= k < ids.len() ==> ids[k] == states[k].kitties_count,
        forall|i: int, j: int| 0 <= i < j < ids.len() ==> ids[i] < ids[j],
{
    assert forall|k: int| 0 <= k < ids.len() implies ids[k] == states[k].kitties_count by {
        assert(allocates(states[k], states[k + 1], ids[k]));
    }
    assert forall|i: int, j: int| 0 <= i < j < ids.len() implies ids[i] < ids[j] by {
        assert(allocates(states[i], states[i + 1], ids[i]));
        assert(allocates(states[j], states[j + 1], ids[j]));
        lemma_count_grows(states, ids, i + 1, j);
    }
}

} // verus!
