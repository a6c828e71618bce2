//! The canvas registry: an append-only table of canvases under sequential
//! identifiers, with a list per creator of the canvases that the creator
//! stored.

use crate::address::Address;
use crate::model::{
    lemma_store_is_additive, lemma_stranger_has_no_canvases, zero_record, CanvasRecord,
    RegistryState,
};
use crate::uint256::{modulus, wrapping_sum, Uint256};
use vstd::arithmetic::div_mod::lemma_small_mod;
use vstd::prelude::*;

verus! {

/// One canvas as the registry keeps it.
struct Canvas {
    pixel_data: Vec<u8>,
    metadata: String,
    creator: Address,
    timestamp: Uint256,
}

impl Canvas {
    spec fn record(self) -> CanvasRecord {
        CanvasRecord {
            payload: self.pixel_data@,
            metadata: self.metadata@,
            creator: self.creator@,
            created_at: self.timestamp@,
        }
    }
}

/// The identifiers of the canvases that one creator stored, oldest first.
struct CreatorCanvases {
    creator: Address,
    ids: Vec<Uint256>,
}

/// The numbers that a list of identifiers denotes.
pub open spec fn id_values(ids: Seq<Uint256>) -> Seq<nat> {
    ids.map_values(|id: Uint256| id@)
}

/// Whether the four parts that a lookup returned are those of `record`.
pub open spec fn shows(canvas: (Vec<u8>, String, Address, Uint256), record: CanvasRecord) -> bool {
    &&& canvas.0@ == record.payload
    &&& canvas.1@ == record.metadata
    &&& canvas.2@ == record.creator
    &&& canvas.3@ == record.created_at
}

/// The registry. The canvas with identifier `i + 1` stands at position `i` of
/// the table, and every creator who stored a canvas has one list, which holds
/// the identifiers of that creator's canvases.
pub struct DataLoom {
    canvas_count: Uint256,
    canvases: Vec<Canvas>,
    creator_canvases: Vec<CreatorCanvases>,
}

impl View for DataLoom {
    type V = RegistryState;

    closed spec fn view(&self) -> RegistryState {
        RegistryState { canvases: self.canvases@.map_values(|canvas: Canvas| canvas.record()) }
    }
}

impl DataLoom {
    /// Whether the list at position `i` holds what its creator stored.
    spec fn list_is_exact(&self, i: int) -> bool {
        id_values(self.creator_canvases@[i].ids@) == self@.canvases_by(
            self.creator_canvases@[i].creator@,
        )
    }

    /// Whether `creator` has a list.
    spec fn is_listed(&self, creator: Seq<u8>) -> bool {
        exists|i: int|
            0 <= i < self.creator_canvases@.len() && (
            #[trigger] self.creator_canvases@[i]).creator@ == creator
    }

    /// The invariant of the registry: the counter equals the number of
    /// canvases in the table, no creator has two lists, every list holds
    /// exactly the identifiers of its creator's canvases in the order in
    /// which they were stored, and every creator of a canvas has a list.
    pub closed spec fn wf(&self) -> bool {
        &&& self.canvas_count@ == self.canvases@.len()
        &&& forall|i: int|
            0 <= i < self.creator_canvases@.len() ==> #[trigger] self.list_is_exact(i)
        &&& forall|i: int, j: int|
            0 <= i < j < self.creator_canvases@.len() ==> (
            #[trigger] self.creator_canvases@[i]).creator@ != (
            #[trigger] self.creator_canvases@[j]).creator@
        &&& forall|k: int|
            0 <= k < self.canvases@.len() ==> self.is_listed((#[trigger] self.canvases@[k]).creator@)
    }

    /// An empty registry.
    pub fn new() -> (registry: DataLoom)
        ensures
            registry.wf(),
            registry@ == RegistryState::empty(),
    {
        let registry = DataLoom {
            canvas_count: Uint256::zero(),
            canvases: Vec::new(),
            creator_canvases: Vec::new(),
        };
        assert(registry@.canvases =~= Seq::empty());
        registry
    }

    /// The position in the table of the canvas that `canvas_id` names, if it
    /// names one.
    fn position(&self, canvas_id: Uint256) -> (at: Option<usize>)
        requires
            self.wf(),
        ensures
            at is Some <==> self@.assigned(canvas_id@),
            at matches Some(i) ==> i == canvas_id@ - 1 && i < self.canvases@.len(),
    {
        assert(self@.count() == self.canvases@.len());
        match canvas_id.to_u64() {
            Some(n) => {
                if 1 <= n && n <= self.canvases.len() as u64 {
                    Some((n - 1) as usize)
                } else {
                    None
                }
            },
            None => {
                assert(self.canvases@.len() == self.canvases.len());
                None
            },
        }
    }

    /// The position of the list of `creator`, if `creator` has one.
    fn list_of(&self, creator: &Address) -> (at: Option<usize>)
        ensures
            at matches Some(i) ==> i < self.creator_canvases@.len()
                && self.creator_canvases@[i as int].creator@ == creator@,
            at is None ==> !self.is_listed(creator@),
    {
        let mut i: usize = 0;
        while i < self.creator_canvases.len()
            invariant
                i <= self.creator_canvases@.len(),
                forall|j: int| 0 <= j < i ==> (#[trigger] self.creator_canvases@[j]).creator@ != creator@,
            decreases self.creator_canvases@.len() - i,
        {
            if self.creator_canvases[i].creator == *creator {
                return Some(i);
            }
            i += 1;
        }
        None
    }

    /// Stores a canvas for `caller` at the time `timestamp`, both as the
    /// surrounding environment reports them, and returns its identifier: one
    /// more than the number of canvases stored before. Nothing that was
    /// stored before changes. Empty pixel data and empty metadata are
    /// accepted like any other.
    ///
    /// The identifier cannot overflow: the table holds fewer than 2^64
    /// canvases, and an identifier has 256 bits.
    pub fn store_pixels(
        &mut self,
        pixel_data: Vec<u8>,
        metadata: String,
        caller: Address,
        timestamp: u64,
    ) -> (canvas_id: Uint256)
        requires
            old(self).wf(),
        ensures
            final(self).wf(),
            final(self)@ == old(self)@.store(
                (CanvasRecord {
                    payload: pixel_data@,
                    metadata: metadata@,
                    creator: caller@,
                    created_at: timestamp as nat,
                }),
            ),
            canvas_id@ == old(self)@.next_id(),
            canvas_id@ == final(self)@.count(),
    {
        let ghost before = *self;
        let ghost record = CanvasRecord {
            payload: pixel_data@,
            metadata: metadata@,
            creator: caller@,
            created_at: timestamp as nat,
        };
        let canvas_id = wrapping_sum(self.canvas_count, Uint256::from_u64(1));
        self.canvas_count = canvas_id;
        self.canvases.push(
            Canvas { pixel_data, metadata, creator: caller, timestamp: Uint256::from_u64(timestamp) },
        );
        proof {
            assert(before.canvases@.len() == before.canvases.len());
            lemma_small_mod(before@.next_id(), modulus());
            assert(self@.canvases =~= before@.canvases.push(record));
            assert(self@ == before@.store(record));
            lemma_store_is_additive(before@, record);
        }
        match self.list_of(&caller) {
            Some(i) => {
                self.creator_canvases[i].ids.push(canvas_id);
                proof {
                    assert(id_values(self.creator_canvases@[i as int].ids@) =~= id_values(
                        before.creator_canvases@[i as int].ids@,
                    ).push(canvas_id@));
                    assert(before.list_is_exact(i as int));
                    assert forall|j: int|
                        0 <= j < self.creator_canvases@.len() implies #[trigger] self.list_is_exact(
                        j,
                    ) by {
                        assert(before.list_is_exact(j));
                        if j != i {
                            assert(self.creator_canvases@[j] == before.creator_canvases@[j]);
                            assert(before.creator_canvases@[j].creator@
                                != before.creator_canvases@[i as int].creator@);
                            assert(self@.canvases_by(before.creator_canvases@[j].creator@)
                                == before@.canvases_by(before.creator_canvases@[j].creator@));
                        }
                    }
                }
            },
            None => {
                let mut ids: Vec<Uint256> = Vec::new();
                ids.push(canvas_id);
                self.creator_canvases.push(CreatorCanvases { creator: caller, ids });
                proof {
                    assert forall|k: int| 0 <= k < before@.canvases.len() implies before@.canvases[k].creator
                        != caller@ by {
                        assert(before.is_listed(before.canvases@[k].creator@));
                    }
                    lemma_stranger_has_no_canvases(before@, caller@);
                    let last = self.creator_canvases@.len() - 1;
                    assert(id_values(self.creator_canvases@[last].ids@) =~= seq![canvas_id@]);
                    assert forall|j: int|
                        0 <= j < self.creator_canvases@.len() implies #[trigger] self.list_is_exact(
                        j,
                    ) by {
                        if j < last {
                            assert(before.list_is_exact(j));
                        }
                    }
                }
            },
        }
        proof {
            assert forall|k: int| 0 <= k < self.canvases@.len() implies self.is_listed(
                (#[trigger] self.canvases@[k]).creator@,
            ) by {
                if k < before.canvases@.len() {
                    assert(before.is_listed(before.canvases@[k].creator@));
                    let w = choose|w: int|
                        0 <= w < before.creator_canvases@.len() && (
                        #[trigger] before.creator_canvases@[w]).creator@
                            == before.canvases@[k].creator@;
                    assert(self.creator_canvases@[w].creator@ == self.canvases@[k].creator@);
                } else {
                    let w = choose|w: int|
                        0 <= w < self.creator_canvases@.len() && (
                        #[trigger] self.creator_canvases@[w]).creator@ == caller@;
                    assert(self.creator_canvases@[w].creator@ == self.canvases@[k].creator@);
                }
            }
        }
        canvas_id
    }

    /// The pixel data, metadata, creator and creation time of the canvas that
    /// `canvas_id` names. Every identifier is answered: one that names no
    /// canvas, zero among them, gives empty pixel data, empty metadata, the
    /// zero identity and the time zero.
    pub fn get_canvas(&self, canvas_id: Uint256) -> (canvas: (Vec<u8>, String, Address, Uint256))
        requires
            self.wf(),
        ensures
            shows(canvas, self@.canvas(canvas_id@)),
            !self@.assigned(canvas_id@) ==> shows(canvas, zero_record()),
    {
        match self.position(canvas_id) {
            Some(i) => {
                let stored = &self.canvases[i];
                (stored.pixel_data.clone(), stored.metadata.clone(), stored.creator, stored.timestamp)
            },
            None => (Vec::new(), String::new(), Address::zero(), Uint256::zero()),
        }
    }

    /// The creator of the canvas that `canvas_id` names, or the zero identity
    /// where it names none.
    pub fn get_creator(&self, canvas_id: Uint256) -> (creator: Address)
        requires
            self.wf(),
        ensures
            creator@ == self@.canvas(canvas_id@).creator,
    {
        match self.position(canvas_id) {
            Some(i) => self.canvases[i].creator,
            None => Address::zero(),
        }
    }

    /// How many canvases have been stored.
    pub fn get_canvas_count(&self) -> (count: Uint256)
        requires
            self.wf(),
        ensures
            count@ == self@.count(),
    {
        self.canvas_count
    }

    /// The identifiers of the canvases that `creator` stored, oldest first;
    /// none for a creator who stored nothing.
    pub fn get_canvases_by_creator(&self, creator: Address) -> (ids: Vec<Uint256>)
        requires
            self.wf(),
        ensures
            id_values(ids@) == self@.canvases_by(creator@),
    {
        let mut result: Vec<Uint256> = Vec::new();
        match self.list_of(&creator) {
            Some(at) => {
                let list = &self.creator_canvases[at].ids;
                let len = list.len();
                let mut i: usize = 0;
                while i < len
                    invariant
                        len == list@.len(),
                        i <= len,
                        result@ == list@.take(i as int),
                    decreases len - i,
                {
                    result.push(list[i]);
                    assert(result@ =~= list@.take(i + 1));
                    i += 1;
                }
                proof {
                    assert(result@ =~= list@);
                    assert(self.list_is_exact(at as int));
                }
            },
            None => {
                proof {
                    assert forall|k: int| 0 <= k < self@.canvases.len() implies self@.canvases[k].creator
                        != creator@ by {
                        assert(self.is_listed(self.canvases@[k].creator@));
                    }
                    lemma_stranger_has_no_canvases(self@, creator@);
                    assert(id_values(result@) =~= Seq::<nat>::empty());
                }
            },
        }
        result
    }
}

/// Reading is repeatable: two lookups of one identifier in one registry, with
/// no store between them, return the same pixel data, metadata, creator and
/// creation time.
pub proof fn lemma_reads_agree(
    registry: DataLoom,
    canvas_id: Uint256,
    first: (Vec<u8>, String, Address, Uint256),
    second: (Vec<u8>, String, Address, Uint256),
)
    requires
        registry.wf(),
        shows(first, registry@.canvas(canvas_id@)),
        shows(second, registry@.canvas(canvas_id@)),
    ensures
        first.0@ == second.0@,
        first.1@ == second.1@,
        first.2@ == second.2@,
        first.3@ == second.3@,
{
}

} // verus!
