use crate::error::{describe_service_id, spec_u64_decimal, Error};
use vstd::prelude::*;

verus! {

/// The immutable mapping from service identifier to handler: filled during
/// assembly, read-only once the console runs. Handlers are opaque to the
/// registry; it only routes by identifier.
#[derive(Debug)]
pub struct Registry<H> {
    pub entries: Vec<(u64, H)>,
}

impl<H> Registry<H> {
    pub open spec fn spec_len(self) -> nat {
        self.entries@.len()
    }

    pub open spec fn id_at(self, i: int) -> u64 {
        self.entries@[i].0
    }

    pub open spec fn handler_at(self, i: int) -> H {
        self.entries@[i].1
    }

    pub open spec fn contains_id(self, service_id: u64) -> bool {
        exists|i: int| 0 <= i < self.spec_len() && self.id_at(i) == service_id
    }

    /// The registry's invariant: no identifier is registered twice.
    pub open spec fn wf(self) -> bool {
        forall|i: int, j: int|
            0 <= i < j < self.spec_len() ==> self.id_at(i) != self.id_at(j)
    }

    pub fn new() -> (r: Self)
        ensures
            r.spec_len() == 0,
            r.wf(),
    {
        Registry { entries: Vec::new() }
    }

    pub fn len(&self) -> (r: usize)
        ensures
            r == self.spec_len(),
    {
        self.entries.len()
    }

    /// The index of the subscription registered under `service_id`, if any.
    pub fn find(&self, service_id: u64) -> (r: Option<usize>)
        ensures
            match r {
                Some(i) => i < self.spec_len() && self.id_at(i as int) == service_id,
                None => !self.contains_id(service_id),
            },
    {
        let n = self.entries.len();
        let mut i: usize = 0;
        while i < n
            invariant
                n == self.spec_len(),
                i <= n,
                forall|j: int| 0 <= j < i ==> self.id_at(j) != service_id,
            decreases n - i,
        {
            if self.entries[i].0 == service_id {
                return Some(i);
            }
            i = i + 1;
        }
        None
    }

    /// The handler stored at index `i`.
    pub fn handler(&self, i: usize) -> (r: &H)
        requires
            i < self.spec_len(),
        ensures
            *r == self.handler_at(i as int),
    {
        &self.entries[i].1
    }

    /// Registers `handler` under `service_id`. Fails, naming the identifier
    /// and leaving the registry unchanged, when the identifier is already in
    /// use; otherwise appends the new entry.
    pub fn register(&mut self, service_id: u64, handler: H) -> (r: Result<(), Error>)
        requires
            old(self).wf(),
        ensures
            final(self).wf(),
            old(self).contains_id(service_id) ==> {
                &&& r matches Err(e) && e matches Error::ServiceIdUsed(s) && s@
                    == spec_u64_decimal(service_id as nat)
                &&& *final(self) == *old(self)
            },
            !old(self).contains_id(service_id) ==> {
                &&& r matches Ok(u) && u == ()
                &&& final(self).entries@ == old(self).entries@.push((service_id, handler))
            },
    {
        match self.find(service_id) {
            Some(_) => Err(Error::ServiceIdUsed(describe_service_id(service_id))),
            None => {
                self.entries.push((service_id, handler));
                proof {
                    assert forall|i: int, j: int|
                        0 <= i < j < self.spec_len() implies self.id_at(i) != self.id_at(j) by {
                        if j < self.spec_len() - 1 {
                            assert(old(self).id_at(i) != old(self).id_at(j));
                        } else {
                            assert(!old(self).contains_id(service_id));
                            assert(old(self).id_at(i) != service_id);
                        }
                    }
                }
                Ok(())
            },
        }
    }
}

} // verus!
