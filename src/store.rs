//! The store that holds the active policy set.
use crate::error::StoreError;
use crate::json::Policy;
use vstd::prelude::*;

verus! {

/// A holder of the active policy set whose replace is atomic: readers see the
/// whole old set or the whole new one.
pub trait PolicyStore {
    /// The policies that are active now, in order.
    spec fn active(&self) -> Seq<Policy>;

    /// Every replace asked of this store so far, in order: the records handed
    /// over and the store's reply.
    spec fn calls(&self) -> Seq<(Seq<Policy>, Result<usize, StoreError>)>;

    /// Whether this store accepts every replace.
    spec fn never_fails(&self) -> bool;

    /// Replaces the whole active set by `policies`. On success it answers with
    /// how many are now active; on failure the previous set stays active.
    /// Each call is recorded with its reply.
    fn update_policies(&mut self, policies: Vec<Policy>) -> (r: Result<usize, StoreError>)
        ensures
            final(self).calls() == old(self).calls().push((policies@, r)),
            final(self).never_fails() == old(self).never_fails(),
            old(self).never_fails() ==> r is Ok,
            r matches Ok(n) ==> n == policies@.len() && final(self).active() == policies@,
            r is Err ==> final(self).active() == old(self).active(),
    ;

    /// The active policies.
    fn read_policies(&self) -> (r: &Vec<Policy>)
        ensures
            r@ == self.active(),
    ;
}

/// A store that keeps the active set in memory. It accepts every replace.
pub struct MemoryPolicyStore {
    policies: Vec<Policy>,
    history: Ghost<Seq<(Seq<Policy>, Result<usize, StoreError>)>>,
}

impl MemoryPolicyStore {
    /// A store with no active policies.
    pub fn new() -> (r: MemoryPolicyStore)
        ensures
            r.active() == Seq::<Policy>::empty(),
            r.calls() == Seq::<(Seq<Policy>, Result<usize, StoreError>)>::empty(),
            r.never_fails(),
    {
        MemoryPolicyStore { policies: Vec::new(), history: Ghost(Seq::empty()) }
    }

    /// A store whose active set is `policies`.
    pub fn with_policies(policies: Vec<Policy>) -> (r: MemoryPolicyStore)
        ensures
            r.active() == policies@,
            r.calls() == Seq::<(Seq<Policy>, Result<usize, StoreError>)>::empty(),
            r.never_fails(),
    {
        MemoryPolicyStore { policies, history: Ghost(Seq::empty()) }
    }

    /// How many policies are active.
    pub fn len(&self) -> (r: usize)
        ensures
            r == self.active().len(),
    {
        self.policies.len()
    }
}

impl PolicyStore for MemoryPolicyStore {
    closed spec fn active(&self) -> Seq<Policy> {
        self.policies@
    }

    closed spec fn calls(&self) -> Seq<(Seq<Policy>, Result<usize, StoreError>)> {
        self.history@
    }

    open spec fn never_fails(&self) -> bool {
        true
    }

    fn update_policies(&mut self, policies: Vec<Policy>) -> (r: Result<usize, StoreError>) {
        let ghost handed = policies@;
        let n = policies.len();
        self.policies = policies;
        let r: Result<usize, StoreError> = Ok(n);
        proof {
            self.history = Ghost(self.history@.push((handed, r)));
        }
        r
    }

    fn read_policies(&self) -> (r: &Vec<Policy>) {
        &self.policies
    }
}

} // verus!
