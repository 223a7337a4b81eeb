use vstd::prelude::*;

use crate::shape::PatternShape;
use crate::set_id::{fresh_set_id, is_random_uuid_text};
use crate::validate::{MAX_DIM, MAX_PATTERNS, RetrieveError, retrieve_outcome, upload_outcome};

verus! {

/// One stored memory set: its identifier, the shape of its pattern matrix and the
/// payload that the engine keeps for it (patterns and per-pattern precisions).
struct StoredSet<T> {
    id: String,
    shape: PatternShape,
    payload: T,
}

/// What a listing reports of one stored set.
#[derive(Debug, PartialEq, Eq)]
pub struct SetSummary {
    pub id: String,
    pub shape: PatternShape,
}

/// The memory sets uploaded so far, each under a distinct identifier.
pub struct MemoryStore<T> {
    sets: Vec<StoredSet<T>>,
}

/// The map from identifier to (shape, payload) that a sequence of stored sets
/// denotes; a later entry under the same identifier wins.
spec fn sets_as_map<T>(sets: Seq<StoredSet<T>>) -> Map<Seq<char>, (PatternShape, T)>
    decreases sets.len(),
{
    if sets.len() == 0 {
        Map::empty()
    } else {
        let last = sets.last();
        sets_as_map(sets.drop_last()).insert(last.id@, (last.shape, last.payload))
    }
}

/// No identifier occurs twice.
spec fn ids_distinct<T>(sets: Seq<StoredSet<T>>) -> bool {
    forall|i: int, j: int|
        0 <= i < sets.len() && 0 <= j < sets.len() && i != j ==> sets[i].id@ != sets[j].id@
}

/// The answer of a lookup of `id` in `m`.
pub open spec fn lookup<T>(m: Map<Seq<char>, (PatternShape, T)>, id: Seq<char>) -> Option<
    (PatternShape, T),
> {
    if m.contains_key(id) {
        Some(m[id])
    } else {
        None
    }
}

proof fn lemma_entry_found<T>(sets: Seq<StoredSet<T>>, i: int)
    requires
        ids_distinct(sets),
        0 <= i < sets.len(),
    ensures
        sets_as_map(sets).contains_key(sets[i].id@),
        sets_as_map(sets)[sets[i].id@] == (sets[i].shape, sets[i].payload),
    decreases sets.len(),
{
    if i < sets.len() - 1 {
        let init = sets.drop_last();
        assert(ids_distinct(init));
        assert(init[i] == sets[i]);
        lemma_entry_found(init, i);
        assert(sets.last().id@ != sets[i].id@);
    }
}

proof fn lemma_entry_absent<T>(sets: Seq<StoredSet<T>>, id: Seq<char>)
    requires
        forall|i: int| 0 <= i < sets.len() ==> sets[i].id@ != id,
    ensures
        !sets_as_map(sets).contains_key(id),
    decreases sets.len(),
{
    if sets.len() > 0 {
        let init = sets.drop_last();
        assert forall|i: int| 0 <= i < init.len() implies init[i].id@ != id by {
            assert(init[i] == sets[i]);
        }
        lemma_entry_absent(init, id);
    }
}

proof fn lemma_map_keys<T>(sets: Seq<StoredSet<T>>, id: Seq<char>)
    requires
        sets_as_map(sets).contains_key(id),
    ensures
        exists|i: int| 0 <= i < sets.len() && sets[i].id@ == id,
{
    if forall|i: int| 0 <= i < sets.len() ==> sets[i].id@ != id {
        lemma_entry_absent(sets, id);
    }
}

proof fn lemma_replace<T>(sets: Seq<StoredSet<T>>, i: int, e: StoredSet<T>)
    requires
        ids_distinct(sets),
        0 <= i < sets.len(),
        e.id@ == sets[i].id@,
    ensures
        ids_distinct(sets.update(i, e)),
        sets_as_map(sets.update(i, e)) == sets_as_map(sets).insert(e.id@, (e.shape, e.payload)),
{
    let new_sets = sets.update(i, e);
    let lhs = sets_as_map(new_sets);
    let rhs = sets_as_map(sets).insert(e.id@, (e.shape, e.payload));
    assert(ids_distinct(new_sets));
    assert forall|k: Seq<char>| lhs.contains_key(k) <==> rhs.contains_key(k) by {
        if lhs.contains_key(k) {
            lemma_map_keys(new_sets, k);
            let j = choose|j: int| 0 <= j < new_sets.len() && new_sets[j].id@ == k;
            if j != i {
                lemma_entry_found(sets, j);
            }
        }
        if rhs.contains_key(k) && k != e.id@ {
            lemma_map_keys(sets, k);
            let j = choose|j: int| 0 <= j < sets.len() && sets[j].id@ == k;
            lemma_entry_found(new_sets, j);
        }
        if k == e.id@ {
            lemma_entry_found(new_sets, i);
        }
    }
    assert forall|k: Seq<char>| lhs.contains_key(k) implies lhs[k] == rhs[k] by {
        lemma_map_keys(new_sets, k);
        let j = choose|j: int| 0 <= j < new_sets.len() && new_sets[j].id@ == k;
        lemma_entry_found(new_sets, j);
        if j != i {
            lemma_entry_found(sets, j);
        }
    }
    assert(lhs =~= rhs);
}

proof fn lemma_push<T>(sets: Seq<StoredSet<T>>, e: StoredSet<T>)
    requires
        ids_distinct(sets),
        forall|i: int| 0 <= i < sets.len() ==> sets[i].id@ != e.id@,
    ensures
        ids_distinct(sets.push(e)),
        sets_as_map(sets.push(e)) == sets_as_map(sets).insert(e.id@, (e.shape, e.payload)),
{
    assert(sets.push(e).drop_last() =~= sets);
}

impl<T> View for MemoryStore<T> {
    type V = Map<Seq<char>, (PatternShape, T)>;

    closed spec fn view(&self) -> Map<Seq<char>, (PatternShape, T)> {
        sets_as_map(self.sets@)
    }
}

impl<T> MemoryStore<T> {
    #[verifier::type_invariant]
    spec fn identifiers_distinct(self) -> bool {
        ids_distinct(self.sets@)
    }

    /// An empty store.
    pub fn new() -> (s: Self)
        ensures
            s@ == Map::<Seq<char>, (PatternShape, T)>::empty(),
    {
        MemoryStore { sets: Vec::new() }
    }

    fn position(&self, id: &String) -> (r: Option<usize>)
        ensures
            match r {
                Some(i) => i < self.sets@.len() && self.sets@[i as int].id@ == id@,
                None => forall|i: int| 0 <= i < self.sets@.len() ==> self.sets@[i].id@ != id@,
            },
    {
        let mut i: usize = 0;
        while i < self.sets.len()
            invariant
                0 <= i <= self.sets@.len(),
                forall|j: int| 0 <= j < i ==> self.sets@[j].id@ != id@,
            decreases self.sets@.len() - i,
        {
            if self.sets[i].id == *id {
                return Some(i);
            }
            i = i + 1;
        }
        None
    }

    /// Stores `payload` of shape `shape` under `id`, replacing what was stored there.
    pub fn insert(&mut self, id: String, shape: PatternShape, payload: T)
        ensures
            final(self)@ == old(self)@.insert(id@, (shape, payload)),
    {
        proof {
            use_type_invariant(&*self);
        }
        let entry = StoredSet { id, shape, payload };
        let found = self.position(&entry.id);
        let mut sets: Vec<StoredSet<T>> = Vec::new();
        std::mem::swap(&mut sets, &mut self.sets);
        match found {
            Some(i) => {
                proof {
                    lemma_replace(sets@, i as int, entry);
                }
                sets.set(i, entry);
            },
            None => {
                proof {
                    lemma_push(sets@, entry);
                }
                sets.push(entry);
            },
        }
        self.sets = sets;
    }

    /// Stores `payload` of shape `shape` under a freshly drawn random identifier,
    /// which is returned; when the operating system's random source fails, nothing is
    /// stored and `None` is returned.
    pub fn register(&mut self, shape: PatternShape, payload: T) -> (r: Option<String>)
        ensures
            match r {
                Some(id) => is_random_uuid_text(id@) && final(self)@ == old(self)@.insert(
                    id@,
                    (shape, payload),
                ),
                None => final(self)@ == old(self)@,
            },
    {
        match fresh_set_id() {
            Some(id) => {
                self.insert(id.clone(), shape, payload);
                Some(id)
            },
            None => None,
        }
    }

    /// The shape and payload stored under `id`, if any.
    pub fn get(&self, id: &String) -> (r: Option<(PatternShape, &T)>)
        ensures
            match r {
                Some((shape, payload)) => lookup(self@, id@) == Some((shape, *payload)),
                None => lookup(self@, id@) is None,
            },
    {
        proof {
            use_type_invariant(self);
        }
        match self.position(id) {
            Some(i) => {
                proof {
                    lemma_entry_found(self.sets@, i as int);
                }
                let s = &self.sets[i];
                Some((s.shape, &s.payload))
            },
            None => {
                proof {
                    lemma_entry_absent(self.sets@, id@);
                }
                None
            },
        }
    }

    /// The identifier and shape of every stored set, each once.
    pub fn summaries(&self) -> (r: Vec<SetSummary>)
        ensures
            forall|i: int|
                0 <= i < r@.len() ==> #[trigger] self@.contains_key(r@[i].id@) && self@[r@[i].id@].0
                    == r@[i].shape,
            forall|k: Seq<char>|
                self@.contains_key(k) ==> exists|i: int| 0 <= i < r@.len() && #[trigger] r@[i].id@ == k,
            forall|i: int, j: int|
                0 <= i < r@.len() && 0 <= j < r@.len() && i != j ==> r@[i].id@ != r@[j].id@,
    {
        proof {
            use_type_invariant(self);
        }
        let mut r: Vec<SetSummary> = Vec::new();
        let mut i: usize = 0;
        while i < self.sets.len()
            invariant
                0 <= i <= self.sets@.len(),
                ids_distinct(self.sets@),
                r@.len() == i,
                forall|j: int|
                    0 <= j < i ==> #[trigger] r@[j].id@ == self.sets@[j].id@ && r@[j].shape
                        == self.sets@[j].shape,
            decreases self.sets@.len() - i,
        {
            let s = &self.sets[i];
            r.push(SetSummary { id: s.id.clone(), shape: s.shape });
            i = i + 1;
        }
        proof {
            assert forall|j: int|
                0 <= j < r@.len() implies #[trigger] self@.contains_key(r@[j].id@) && self@[r@[
                j
            ].id@].0 == r@[j].shape by {
                lemma_entry_found(self.sets@, j);
            }
            assert forall|k: Seq<char>| self@.contains_key(k) implies exists|j: int|
                0 <= j < r@.len() && #[trigger] r@[j].id@ == k by {
                lemma_map_keys(self.sets@, k);
                let j = choose|j: int| 0 <= j < self.sets@.len() && self.sets@[j].id@ == k;
                assert(r@[j].id@ == k);
            }
        }
        r
    }

    /// Checks a retrieval from this store and hands back the stored payload: the query
    /// has `query_len` values, `query_finite` says whether they are all finite and
    /// `temperature_negative` whether the requested temperature is below zero.
    pub fn prepare_retrieval(
        &self,
        set_id: &String,
        query_len: usize,
        query_finite: bool,
        temperature_negative: bool,
    ) -> (r: Result<&T, RetrieveError>)
        ensures
            match r {
                Ok(payload) => retrieve_outcome(
                    self@,
                    set_id@,
                    query_len,
                    query_finite,
                    temperature_negative,
                ) == Ok::<T, RetrieveError>(*payload),
                Err(e) => retrieve_outcome(
                    self@,
                    set_id@,
                    query_len,
                    query_finite,
                    temperature_negative,
                ) == Err::<T, RetrieveError>(e),
            },
            !query_finite ==> r == Err::<&T, RetrieveError>(RetrieveError::NonFiniteQuery),
            query_finite && temperature_negative ==> r == Err::<&T, RetrieveError>(
                RetrieveError::NegativeTemperature,
            ),
            query_finite && !temperature_negative && !self@.contains_key(set_id@) ==> r == Err::<
                &T,
                RetrieveError,
            >(RetrieveError::SetNotFound),
            query_finite && !temperature_negative && self@.contains_key(set_id@) && query_len
                != self@[set_id@].0.dimension ==> r == Err::<&T, RetrieveError>(
                RetrieveError::DimensionMismatch {
                    query_dim: query_len,
                    pattern_dim: self@[set_id@].0.dimension,
                },
            ),
            (r is Ok) <==> (query_finite && !temperature_negative && self@.contains_key(set_id@)
                && query_len == self@[set_id@].0.dimension),
            r matches Ok(payload) ==> *payload == self@[set_id@].1,
    {
        if !query_finite {
            return Err(RetrieveError::NonFiniteQuery);
        }
        if temperature_negative {
            return Err(RetrieveError::NegativeTemperature);
        }
        match self.get(set_id) {
            None => Err(RetrieveError::SetNotFound),
            Some((shape, payload)) => {
                if query_len != shape.dimension {
                    Err(
                        RetrieveError::DimensionMismatch {
                            query_dim: query_len,
                            pattern_dim: shape.dimension,
                        },
                    )
                } else {
                    Ok(payload)
                }
            },
        }
    }
}

/// What a lookup gives back of a write: after a set is stored under `id`, a lookup of
/// `id` finds exactly that shape and payload, and a lookup of any other identifier
/// gives what it gave before.
pub proof fn lookup_after_insert<T>(
    before: Map<Seq<char>, (PatternShape, T)>,
    id: Seq<char>,
    shape: PatternShape,
    payload: T,
    other: Seq<char>,
)
    ensures
        lookup(before.insert(id, (shape, payload)), id) == Some((shape, payload)),
        other != id ==> lookup(before.insert(id, (shape, payload)), other) == lookup(before, other),
{
}

/// A set just uploaded can be retrieved: after `payload` of shape `shape` is stored
/// under `id`, a retrieval of `id` with a finite query of the set's dimension and a
/// temperature that is not negative succeeds and hands back that payload; a retrieval
/// of an identifier that is stored nowhere is answered `SetNotFound`.
pub proof fn retrieval_after_upload<T>(
    before: Map<Seq<char>, (PatternShape, T)>,
    id: Seq<char>,
    shape: PatternShape,
    payload: T,
    missing: Seq<char>,
    query_len: usize,
)
    ensures
        retrieve_outcome(before.insert(id, (shape, payload)), id, shape.dimension, true, false)
            == Ok::<T, RetrieveError>(payload),
        !before.insert(id, (shape, payload)).contains_key(missing) ==> retrieve_outcome(
            before.insert(id, (shape, payload)),
            missing,
            query_len,
            true,
            false,
        ) == Err::<T, RetrieveError>(RetrieveError::SetNotFound),
{
}

/// Every set in `sets` has the shape of an upload accepted for a model of dimension
/// `model_dim`: between one and `MAX_PATTERNS` patterns of dimension `model_dim`,
/// which lies between one and `MAX_DIM`.
pub open spec fn shapes_within_limits<T>(
    sets: Map<Seq<char>, (PatternShape, T)>,
    model_dim: usize,
) -> bool {
    forall|k: Seq<char>|
        #[trigger] sets.contains_key(k) ==> {
            let s = sets[k].0;
            &&& 1 <= s.num_patterns <= MAX_PATTERNS
            &&& s.dimension == model_dim
            &&& 1 <= model_dim <= MAX_DIM
        }
}

/// Uploads keep every stored set within the upload limits: the empty store satisfies
/// them, and storing the shape of an accepted upload (as `register` does) keeps them.
pub proof fn upload_keeps_shapes_within_limits<T>(
    before: Map<Seq<char>, (PatternShape, T)>,
    model_dim: usize,
    lens: Seq<usize>,
    all_finite: bool,
    id: Seq<char>,
    payload: T,
)
    requires
        shapes_within_limits(before, model_dim),
        upload_outcome(lens, model_dim, all_finite) is Ok,
    ensures
        shapes_within_limits(Map::<Seq<char>, (PatternShape, T)>::empty(), model_dim),
        shapes_within_limits(
            before.insert(id, (upload_outcome(lens, model_dim, all_finite)->Ok_0, payload)),
            model_dim,
        ),
{
}

/// What a retrieval answers, for every store, identifier and query: a query with a
/// NaN or infinite value is refused as such; otherwise a negative temperature is
/// refused as such, whether or not the set exists; otherwise an unknown identifier is
/// answered `SetNotFound`, and a query whose length is not the set's dimension is
/// refused with both lengths; a retrieval succeeds exactly when none of these holds,
/// and then hands back the payload stored under the identifier.
pub proof fn retrieval_answers<T>(
    sets: Map<Seq<char>, (PatternShape, T)>,
    id: Seq<char>,
    query_len: usize,
    query_finite: bool,
    temperature_negative: bool,
)
    ensures
        !query_finite ==> retrieve_outcome(sets, id, query_len, query_finite, temperature_negative)
            == Err::<T, RetrieveError>(RetrieveError::NonFiniteQuery),
        query_finite && temperature_negative ==> retrieve_outcome(
            sets,
            id,
            query_len,
            query_finite,
            temperature_negative,
        ) == Err::<T, RetrieveError>(RetrieveError::NegativeTemperature),
        query_finite && !temperature_negative && !sets.contains_key(id) ==> retrieve_outcome(
            sets,
            id,
            query_len,
            query_finite,
            temperature_negative,
        ) == Err::<T, RetrieveError>(RetrieveError::SetNotFound),
        query_finite && !temperature_negative && sets.contains_key(id) && query_len
            != sets[id].0.dimension ==> retrieve_outcome(
            sets,
            id,
            query_len,
            query_finite,
            temperature_negative,
        ) == Err::<T, RetrieveError>(
            RetrieveError::DimensionMismatch { query_dim: query_len, pattern_dim: sets[id].0.dimension },
        ),
        query_finite && !temperature_negative && sets.contains_key(id) && query_len
            == sets[id].0.dimension ==> retrieve_outcome(
            sets,
            id,
            query_len,
            query_finite,
            temperature_negative,
        ) == Ok::<T, RetrieveError>(sets[id].1),
{
}

} // verus!
