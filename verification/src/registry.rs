use vstd::prelude::*;

use std::collections::HashMap;

use crate::queue::{QueueView, TracksQueue};

verus! {

broadcast use vstd::std_specs::hash::group_hash_axioms;

/// Maps each tenant id to that tenant's queue. A queue is created lazily on
/// first reference and never removed implicitly, so at most one queue ever
/// exists per tenant id.
pub struct Registry {
    queues: HashMap<u64, TracksQueue>,
}

impl View for Registry {
    type V = Map<u64, TracksQueue>;

    closed spec fn view(&self) -> Map<u64, TracksQueue> {
        self.queues@
    }
}

impl Registry {
    /// An empty registry: no tenant has a queue yet.
    pub fn new() -> (r: Registry)
        ensures
            r@ == Map::<u64, TracksQueue>::empty(),
    {
        Registry { queues: HashMap::new() }
    }

    /// Whether a queue is registered for `tenant`.
    pub fn has_queue(&self, tenant: u64) -> (r: bool)
        ensures
            r == self@.contains_key(tenant),
    {
        self.queues.contains_key(&tenant)
    }

    /// Lookup only, no side effect: the queue registered for `tenant`, if
    /// any.
    pub fn get_queue(&self, tenant: u64) -> (r: Option<&TracksQueue>)
        ensures
            match r {
                Some(q) => self@.contains_key(tenant) && *q == self@[tenant],
                None => !self@.contains_key(tenant),
            },
    {
        self.queues.get(&tenant)
    }

    /// Returns the queue registered for `tenant`, registering a freshly
    /// created empty queue first when none exists yet: a caller that comes
    /// second observes the queue the first caller got, never a second
    /// instance for the same tenant.
    pub fn get_or_create_queue(&mut self, tenant: u64) -> (q: &mut TracksQueue)
        ensures
            old(self)@.contains_key(tenant) ==> *q == old(self)@[tenant],
            !old(self)@.contains_key(tenant) ==> (*q)@ == QueueView::empty(),
            final(self)@ == old(self)@.insert(tenant, *final(q)),
    {
        self.queues.entry(tenant).or_insert(TracksQueue::new())
    }
}

/// The registry transition `get_or_create` induces on the mathematical
/// model: tenant views stay as they are, except that an unseen tenant gets
/// the empty queue view.
pub open spec fn spec_get_or_create(m: Map<u64, QueueView>, tenant: u64) -> Map<u64, QueueView> {
    if m.contains_key(tenant) {
        m
    } else {
        m.insert(tenant, QueueView::empty())
    }
}

/// Law: `get_or_create` registers at most one queue per tenant id. After one
/// call the tenant has a queue; a repeated call changes nothing and yields
/// the very queue the first call registered, so two callers for the same
/// unseen tenant end up with the same underlying queue.
pub proof fn lemma_get_or_create_single_instance(m: Map<u64, QueueView>, tenant: u64)
    ensures
        spec_get_or_create(m, tenant).contains_key(tenant),
        spec_get_or_create(spec_get_or_create(m, tenant), tenant) == spec_get_or_create(m, tenant),
        m.contains_key(tenant) ==> spec_get_or_create(m, tenant) == m,
        !m.contains_key(tenant) ==> spec_get_or_create(m, tenant)[tenant] == QueueView::empty(),
        forall|other: u64|
            other != tenant && m.contains_key(other) ==> spec_get_or_create(m, tenant)[other]
                == m[other],
{
}

} // verus!
