//! The registry of pending completion callbacks.
//!
//! Every asynchronous native operation is issued under a fresh request id.
//! If the caller supplied a completion callback, the callback is parked here
//! under that id until the native engine reports the request as completed.
//! Resolution removes the entry, so a completion can fire at most once; a
//! late or duplicate completion event finds nothing and is dropped silently.
//!
//! Callbacks are opaque host values, so everything here is generic over the
//! callback handle type `T`.

use vstd::prelude::*;

use std::collections::HashMap;

verus! {

broadcast use vstd::std_specs::hash::group_hash_axioms;

/// A pending completion callback, tagged by the arity its invocation expects:
/// either `(value)` alone or `(value, error)`.
pub enum Completion<T> {
    Unary(T),
    Binary(T),
}

impl<T> Completion<T> {
    /// The callback value itself, shed of its arity tag.
    pub fn into_callback(self) -> (r: T)
        ensures
            r == self.spec_callback(),
    {
        match self {
            Completion::Unary(c) => c,
            Completion::Binary(c) => c,
        }
    }

    /// The callback value held by this completion.
    pub open spec fn spec_callback(self) -> T {
        match self {
            Completion::Unary(c) => c,
            Completion::Binary(c) => c,
        }
    }

    /// Whether the completion expects `(value, error)` rather than `(value)`.
    pub fn is_binary(&self) -> (r: bool)
        ensures
            r == (self is Binary),
    {
        match self {
            Completion::Unary(_) => false,
            Completion::Binary(_) => true,
        }
    }
}

/// Mapping from request id to the pending completion callback registered for
/// that request, with insert and remove-and-take operations.
pub struct CompletionRegistry<T> {
    entries: HashMap<u64, Completion<T>>,
}

impl<T> View for CompletionRegistry<T> {
    type V = Map<u64, Completion<T>>;

    closed spec fn view(&self) -> Map<u64, Completion<T>> {
        self.entries@
    }
}

impl<T> CompletionRegistry<T> {
    /// An empty registry.
    pub fn new() -> (r: Self)
        ensures
            r@ == Map::<u64, Completion<T>>::empty(),
    {
        CompletionRegistry { entries: HashMap::new() }
    }

    /// Parks a completion under a request id.  Ids come from the monotonic
    /// allocator and are never reused, so the id must be absent; overwriting
    /// a pending completion would lose a callback that was owed exactly one
    /// invocation.
    pub fn register(&mut self, id: u64, completion: Completion<T>)
        requires
            !old(self)@.contains_key(id),
        ensures
            final(self)@ == old(self)@.insert(id, completion),
    {
        self.entries.insert(id, completion);
    }

    /// Atomically removes and returns the completion parked under `id`.  An
    /// absent id is a normal case, not an error: the call had no completion
    /// requested, or a duplicate completion event arrived late.
    pub fn resolve(&mut self, id: u64) -> (r: Option<Completion<T>>)
        ensures
            match r {
                Some(c) => {
                    &&& old(self)@.contains_key(id)
                    &&& c == old(self)@[id]
                    &&& final(self)@ == old(self)@.remove(id)
                },
                None => {
                    &&& !old(self)@.contains_key(id)
                    &&& final(self)@ == old(self)@
                },
            },
    {
        let r = self.entries.remove(&id);
        proof {
            if !old(self)@.contains_key(id) {
                assert(old(self)@.remove(id) =~= old(self)@);
            }
        }
        r
    }

    /// Whether a completion is parked under `id`.
    pub fn contains(&self, id: u64) -> (r: bool)
        ensures
            r == self@.contains_key(id),
    {
        self.entries.contains_key(&id)
    }

    /// The number of pending completions.
    pub fn len(&self) -> (r: usize)
        ensures
            r == self@.len(),
    {
        self.entries.len()
    }
}

// ---------------------------------------------------------------------------
// The registry's laws, stated over its mathematical model.
// ---------------------------------------------------------------------------
/// One issued call: the fresh request id it was given, and the completion
/// registered for it, if the caller asked for one.
pub open spec fn register_step<T>(
    m: Map<u64, Completion<T>>,
    call: (u64, Option<Completion<T>>),
) -> Map<u64, Completion<T>> {
    match call.1 {
        Some(c) => m.insert(call.0, c),
        None => m,
    }
}

/// The registry contents after a sequence of issued calls.
pub open spec fn register_all<T>(
    m: Map<u64, Completion<T>>,
    calls: Seq<(u64, Option<Completion<T>>)>,
) -> Map<u64, Completion<T>>
    decreases calls.len(),
{
    if calls.len() == 0 {
        m
    } else {
        register_all(register_step(m, calls[0]), calls.skip(1))
    }
}

/// The request ids of a sequence of calls, in order.
pub open spec fn ids_of<T>(calls: Seq<(u64, Option<Completion<T>>)>) -> Seq<u64>
    decreases calls.len(),
{
    if calls.len() == 0 {
        Seq::empty()
    } else {
        seq![calls[0].0] + ids_of(calls.skip(1))
    }
}

/// The ids of the calls that registered a completion.
pub open spec fn registered_ids<T>(calls: Seq<(u64, Option<Completion<T>>)>) -> Set<u64>
    decreases calls.len(),
{
    if calls.len() == 0 {
        Set::empty()
    } else {
        let rest = registered_ids(calls.skip(1));
        match calls[0].1 {
            Some(_) => rest.insert(calls[0].0),
            None => rest,
        }
    }
}

/// How many of the calls registered a completion.
pub open spec fn count_with_completion<T>(calls: Seq<(u64, Option<Completion<T>>)>) -> nat
    decreases calls.len(),
{
    if calls.len() == 0 {
        0
    } else {
        (match calls[0].1 {
            Some(_) => 1 as nat,
            None => 0 as nat,
        }) + count_with_completion(calls.skip(1))
    }
}

/// How many completions fire when each id in `ids` is resolved once, in
/// order, against registry contents `m`.
pub open spec fn fired_count<T>(m: Map<u64, Completion<T>>, ids: Seq<u64>) -> nat
    decreases ids.len(),
{
    if ids.len() == 0 {
        0
    } else {
        (if m.contains_key(ids[0]) {
            1 as nat
        } else {
            0 as nat
        }) + fired_count(m.remove(ids[0]), ids.skip(1))
    }
}

/// The registered map holds exactly the base keys and the ids of the calls
/// that carried a completion.
proof fn lemma_register_all_dom<T>(m: Map<u64, Completion<T>>, calls: Seq<
    (u64, Option<Completion<T>>),
>)
    ensures
        register_all(m, calls).dom() =~= m.dom() + registered_ids(calls),
    decreases calls.len(),
{
    if calls.len() == 0 {
    } else {
        lemma_register_all_dom(register_step(m, calls[0]), calls.skip(1));
    }
}

/// Removing an id that none of the calls register commutes with registering
/// the calls.
proof fn lemma_register_all_remove<T>(
    m: Map<u64, Completion<T>>,
    calls: Seq<(u64, Option<Completion<T>>)>,
    id: u64,
)
    requires
        forall|i: int| 0 <= i < calls.len() ==> calls[i].0 != id,
    ensures
        register_all(m, calls).remove(id) =~= register_all(m.remove(id), calls),
    decreases calls.len(),
{
    if calls.len() == 0 {
    } else {
        assert(forall|i: int|
            0 <= i < calls.skip(1).len() ==> calls.skip(1)[i] == calls[i + 1]);
        lemma_register_all_remove(register_step(m, calls[0]), calls.skip(1), id);
        assert(register_step(m, calls[0]).remove(id) =~= register_step(m.remove(id), calls[0]));
    }
}

/// An id outside the calls' registered ids is in the final map exactly when
/// it was in the base map.
proof fn lemma_registered_ids_skip<T>(calls: Seq<(u64, Option<Completion<T>>)>, id: u64)
    requires
        forall|i: int| 0 <= i < calls.len() ==> calls[i].0 != id,
    ensures
        !registered_ids(calls).contains(id),
    decreases calls.len(),
{
    if calls.len() == 0 {
    } else {
        assert(forall|i: int|
            0 <= i < calls.skip(1).len() ==> calls.skip(1)[i] == calls[i + 1]);
        lemma_registered_ids_skip(calls.skip(1), id);
    }
}

/// Every completion fires exactly once.
///
/// For any sequence of issued calls with pairwise distinct request ids, each
/// starting from an empty registry, resolving every issued id exactly once
/// fires exactly as many completions as there were calls that registered
/// one; calls without a completion never cause an invocation.
pub proof fn lemma_completions_fire_exactly_once<T>(calls: Seq<(u64, Option<Completion<T>>)>)
    requires
        forall|i: int, j: int| 0 <= i < j < calls.len() ==> calls[i].0 != calls[j].0,
    ensures
        fired_count(register_all(Map::<u64, Completion<T>>::empty(), calls), ids_of(calls))
            == count_with_completion(calls),
{
    lemma_fire_general(Map::<u64, Completion<T>>::empty(), calls);
}

/// Generalisation of `lemma_completions_fire_exactly_once` over the base map,
/// for the induction to go through: resolving the calls' ids fires one
/// completion per registered call, plus one per base entry whose id the calls
/// reuse - which distinct fresh ids rule out.
proof fn lemma_fire_general<T>(m: Map<u64, Completion<T>>, calls: Seq<
    (u64, Option<Completion<T>>),
>)
    requires
        forall|i: int, j: int| 0 <= i < j < calls.len() ==> calls[i].0 != calls[j].0,
        forall|i: int| 0 <= i < calls.len() ==> !m.contains_key(calls[i].0),
    ensures
        fired_count(register_all(m, calls), ids_of(calls)) == count_with_completion(calls),
    decreases calls.len(),
{
    if calls.len() == 0 {
    } else {
        let c0 = calls[0];
        let rest = calls.skip(1);
        assert(forall|i: int| 0 <= i < rest.len() ==> rest[i] == calls[i + 1]);
        let m0 = register_step(m, c0);
        let full = register_all(m0, rest);
        // The head id was not registered by the rest of the calls, so whether
        // it is in the full map is decided by the head call alone.
        lemma_registered_ids_skip(rest, c0.0);
        lemma_register_all_dom(m0, rest);
        assert(full.contains_key(c0.0) == m0.contains_key(c0.0));
        assert(m0.contains_key(c0.0) == (c0.1 is Some));
        // Resolving the head id leaves exactly the registry the remaining
        // calls would have built without it.
        lemma_register_all_remove(m0, rest, c0.0);
        assert(m0.remove(c0.0) =~= m);
        lemma_fire_general(m, rest);
        assert(ids_of(calls) == seq![c0.0] + ids_of(rest));
        assert(ids_of(calls)[0] == c0.0);
        assert(ids_of(calls).skip(1) =~= ids_of(rest));
    }
}

/// Resolving an absent id is a no-op, and resolution is idempotent: after a
/// successful resolve the id is gone, so resolving it again finds nothing
/// and changes nothing.
pub proof fn lemma_resolve_idempotent<T>(m: Map<u64, Completion<T>>, id: u64)
    ensures
        !m.contains_key(id) ==> m.remove(id) =~= m,
        !m.remove(id).contains_key(id),
        m.remove(id).remove(id) =~= m.remove(id),
{
}

} // verus!
