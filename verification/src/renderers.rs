//! Per-stream renderer callbacks.
//!
//! A renderer registration parks a host callback under a stream renderer id.
//! Renderer ids are drawn from the same monotonic allocator as request ids,
//! so they are globally unique, and a registration is never overwritten.
//! Unlike completions, renderer callbacks stay registered: every decoded
//! frame tagged with the id invokes the same callback again.

use vstd::prelude::*;

use std::collections::HashMap;

verus! {

broadcast use vstd::std_specs::hash::group_hash_axioms;

/// Mapping from stream renderer id to the host callback that receives the
/// stream's decoded frames.
pub struct RendererMap<T> {
    entries: HashMap<u64, T>,
}

impl<T> View for RendererMap<T> {
    type V = Map<u64, T>;

    closed spec fn view(&self) -> Map<u64, T> {
        self.entries@
    }
}

impl<T> RendererMap<T> {
    /// An empty renderer map.
    pub fn new() -> (r: Self)
        ensures
            r@ == Map::<u64, T>::empty(),
    {
        RendererMap { entries: HashMap::new() }
    }

    /// Registers a renderer callback under a fresh stream id.  Ids come from
    /// the monotonic allocator, so the id must be absent.
    pub fn register(&mut self, id: u64, callback: T)
        requires
            !old(self)@.contains_key(id),
        ensures
            final(self)@ == old(self)@.insert(id, callback),
    {
        self.entries.insert(id, callback);
    }

    /// The callback registered for a stream id, if any.  A frame tagged with
    /// an id nobody registered is dropped by the caller.
    pub fn get(&self, id: u64) -> (r: Option<&T>)
        ensures
            match r {
                Some(c) => self@.contains_key(id) && *c == self@[id],
                None => !self@.contains_key(id),
            },
    {
        self.entries.get(&id)
    }

    /// Whether a renderer is registered for `id`.
    pub fn contains(&self, id: u64) -> (r: bool)
        ensures
            r == self@.contains_key(id),
    {
        self.entries.contains_key(&id)
    }

    /// The number of registered renderers.
    pub fn len(&self) -> (r: usize)
        ensures
            r == self@.len(),
    {
        self.entries.len()
    }
}

} // verus!
