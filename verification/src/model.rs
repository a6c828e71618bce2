//! The registry as a mathematical value: the canvases stored so far, in the
//! order in which they were stored. Identifiers are not stored anywhere; the
//! canvas at position `i` of the sequence is the one with identifier `i + 1`.

use crate::address::zero_identity;
use vstd::prelude::*;

verus! {

/// One stored canvas.
pub struct CanvasRecord {
    /// The pixel payload, which the registry never interprets.
    pub payload: Seq<u8>,
    /// The text that came with the payload.
    pub metadata: Seq<char>,
    /// The twenty bytes of the identity that stored the canvas.
    pub creator: Seq<u8>,
    /// The time that the caller's clock showed when the canvas was stored.
    pub created_at: nat,
}

/// What a lookup gives for an identifier that names no canvas: no payload, no
/// metadata, the zero identity and the time zero.
pub open spec fn zero_record() -> CanvasRecord {
    CanvasRecord {
        payload: Seq::empty(),
        metadata: Seq::empty(),
        creator: zero_identity(),
        created_at: 0,
    }
}

/// The identifiers of the canvases in `canvases` that `creator` stored, oldest
/// first: those of the canvases before the last one, followed by the
/// identifier of the last one where `creator` stored it.
pub open spec fn ids_by_creator(canvases: Seq<CanvasRecord>, creator: Seq<u8>) -> Seq<nat>
    decreases canvases.len(),
{
    if canvases.len() == 0 {
        Seq::empty()
    } else {
        let earlier = ids_by_creator(canvases.drop_last(), creator);
        if canvases.last().creator == creator {
            earlier.push(canvases.len())
        } else {
            earlier
        }
    }
}

/// All that a registry holds.
pub struct RegistryState {
    pub canvases: Seq<CanvasRecord>,
}

impl RegistryState {
    /// The registry in which nothing has been stored.
    pub open spec fn empty() -> RegistryState {
        RegistryState { canvases: Seq::empty() }
    }

    /// How many canvases have been stored.
    pub open spec fn count(self) -> nat {
        self.canvases.len()
    }

    /// Whether `id` names a stored canvas. Identifiers start at one.
    pub open spec fn assigned(self, id: nat) -> bool {
        1 <= id <= self.count()
    }

    /// The identifier that the next canvas will get.
    pub open spec fn next_id(self) -> nat {
        self.count() + 1
    }

    /// The registry after `record` has been stored in it.
    pub open spec fn store(self, record: CanvasRecord) -> RegistryState {
        RegistryState { canvases: self.canvases.push(record) }
    }

    /// The canvas that `id` names, or the zero record where it names none.
    pub open spec fn canvas(self, id: nat) -> CanvasRecord {
        if self.assigned(id) {
            self.canvases[id - 1]
        } else {
            zero_record()
        }
    }

    /// The identifiers of the canvases that `creator` stored, oldest first.
    pub open spec fn canvases_by(self, creator: Seq<u8>) -> Seq<nat> {
        ids_by_creator(self.canvases, creator)
    }
}

/// The registry that results from storing the canvases of `stored`, one after
/// the other, in an empty registry.
pub open spec fn replay(stored: Seq<CanvasRecord>) -> RegistryState
    decreases stored.len(),
{
    if stored.len() == 0 {
        RegistryState::empty()
    } else {
        replay(stored.drop_last()).store(stored.last())
    }
}

/// Storing canvases one after the other leaves exactly those canvases in the
/// registry, in the order in which they were stored.
pub proof fn lemma_replay_holds_what_was_stored(stored: Seq<CanvasRecord>)
    ensures
        replay(stored).canvases == stored,
    decreases stored.len(),
{
    if stored.len() > 0 {
        lemma_replay_holds_what_was_stored(stored.drop_last());
        assert(stored.drop_last().push(stored.last()) =~= stored);
    }
}

/// Identifiers are handed out in sequence: of any run of stores into an empty
/// registry, the `k`-th gets the identifier `k`, and after it the registry
/// counts `k` canvases.
pub proof fn lemma_kth_store_gets_id_k(stored: Seq<CanvasRecord>, k: nat)
    requires
        1 <= k <= stored.len(),
    ensures
        replay(stored.take(k - 1)).next_id() == k,
        replay(stored.take(k - 1)).store(stored[k - 1]) == replay(stored.take(k as int)),
        replay(stored.take(k as int)).count() == k,
{
    lemma_replay_holds_what_was_stored(stored.take(k - 1));
    lemma_replay_holds_what_was_stored(stored.take(k as int));
    assert(stored.take(k - 1).push(stored[k - 1]) =~= stored.take(k as int));
}

/// A stored canvas never changes: the `k`-th canvas stored in an empty
/// registry is what the identifier `k` names right after that store and after
/// every later one.
pub proof fn lemma_stored_canvas_is_kept(stored: Seq<CanvasRecord>, k: nat, n: nat)
    requires
        1 <= k <= n <= stored.len(),
    ensures
        replay(stored.take(n as int)).canvas(k) == stored[k - 1],
{
    lemma_replay_holds_what_was_stored(stored.take(n as int));
}

/// Storing only adds: it raises the count by one, gives the new canvas the
/// next identifier and puts that identifier at the end of its creator's
/// list. What every other identifier names, and the list of every other
/// creator, stay as they were.
pub proof fn lemma_store_is_additive(state: RegistryState, record: CanvasRecord)
    ensures
        state.store(record).count() == state.count() + 1,
        state.store(record).canvas(state.next_id()) == record,
        forall|id: nat|
            id != state.next_id() ==> #[trigger] state.store(record).canvas(id) == state.canvas(id),
        state.store(record).canvases_by(record.creator) == state.canvases_by(record.creator).push(
            state.next_id(),
        ),
        forall|other: Seq<u8>|
            other != record.creator ==> #[trigger] state.store(record).canvases_by(other)
                == state.canvases_by(other),
{
    let after = state.store(record);
    assert(after.canvases.drop_last() =~= state.canvases);
}

/// A lookup outside the identifiers handed out so far gives the zero record.
pub proof fn lemma_unassigned_is_zero(state: RegistryState, id: nat)
    requires
        id == 0 || id > state.count(),
    ensures
        state.canvas(id) == zero_record(),
{
}

/// The list of a creator holds exactly the identifiers of the canvases that
/// the creator stored, in the order in which they were stored: every entry
/// names a canvas of that creator, the entries increase strictly (so none
/// occurs twice), and every identifier of a canvas of that creator occurs.
pub proof fn lemma_creator_list_is_exact(state: RegistryState, creator: Seq<u8>)
    ensures
        forall|j: int|
            0 <= j < state.canvases_by(creator).len() ==> {
                &&& state.assigned(#[trigger] state.canvases_by(creator)[j])
                &&& state.canvas(state.canvases_by(creator)[j]).creator == creator
            },
        forall|i: int, j: int|
            0 <= i < j < state.canvases_by(creator).len() ==> state.canvases_by(creator)[i]
                < state.canvases_by(creator)[j],
        forall|id: nat|
            state.assigned(id) && state.canvas(id).creator == creator
                ==> #[trigger] state.canvases_by(creator).contains(id),
    decreases state.canvases.len(),
{
    let ids = state.canvases_by(creator);
    if state.canvases.len() > 0 {
        let before = RegistryState { canvases: state.canvases.drop_last() };
        let earlier = before.canvases_by(creator);
        lemma_creator_list_is_exact(before, creator);
        let last_id = state.canvases.len();
        assert forall|j: int| 0 <= j < ids.len() implies {
            &&& state.assigned(#[trigger] ids[j])
            &&& state.canvas(ids[j]).creator == creator
        } by {
            if j < earlier.len() {
                assert(before.assigned(earlier[j]));
                assert(before.canvas(earlier[j]).creator == creator);
            }
        }
        assert forall|i: int, j: int| 0 <= i < j < ids.len() implies ids[i] < ids[j] by {
            assert(before.assigned(earlier[i]));
            if j < earlier.len() {
                assert(earlier[i] < earlier[j]);
            }
        }
        assert forall|id: nat|
            state.assigned(id) && state.canvas(id).creator == creator implies #[trigger] ids.contains(
            id,
        ) by {
            if id == last_id {
                assert(ids[ids.len() - 1] == id);
            } else {
                assert(before.assigned(id));
                assert(before.canvas(id).creator == creator);
                assert(earlier.contains(id));
                let w = choose|w: int| 0 <= w < earlier.len() && earlier[w] == id;
                assert(ids[w] == id);
            }
        }
    }
}

/// A creator who stored nothing has an empty list.
pub proof fn lemma_stranger_has_no_canvases(state: RegistryState, creator: Seq<u8>)
    requires
        forall|k: int| 0 <= k < state.canvases.len() ==> state.canvases[k].creator != creator,
    ensures
        state.canvases_by(creator) == Seq::<nat>::empty(),
    decreases state.canvases.len(),
{
    if state.canvases.len() > 0 {
        lemma_stranger_has_no_canvases(
            RegistryState { canvases: state.canvases.drop_last() },
            creator,
        );
    }
}

} // verus!
