//! The bounded FIFO queue of commitments waiting to be hashed into the
//! tree. The core only measures its length and enqueues; the hashing
//! collaborator dequeues.

use vstd::prelude::*;
use crate::U256;
use crate::error::ElusivError;

verus! {

/// The number of requests the queue can hold.
pub const COMMITMENT_QUEUE_CAPACITY: usize = 240;

/// One commitment waiting to be hashed into the tree.
#[derive(Clone, Copy)]
pub struct CommitmentHashRequest {
    /// The commitment, in canonical form.
    pub commitment: U256,
    pub fee_version: u32,
    pub min_batching_rate: u32,
}

/// The bounded FIFO queue of commitments waiting to be hashed.
pub struct CommitmentQueueAccount {
    requests: Vec<CommitmentHashRequest>,
}

impl CommitmentQueueAccount {
    /// The queued requests, oldest first.
    pub closed spec fn view(&self) -> Seq<CommitmentHashRequest> {
        self.requests@
    }

    pub open spec fn wf(&self) -> bool {
        self.view().len() <= COMMITMENT_QUEUE_CAPACITY
    }

    pub fn new() -> (r: Self)
        ensures
            r.wf(),
            r.view().len() == 0,
    {
        CommitmentQueueAccount { requests: Vec::new() }
    }

    /// The number of queued requests.
    pub fn len(&self) -> (r: u32)
        requires
            self.wf(),
        ensures
            r == self.view().len(),
    {
        self.requests.len() as u32
    }

    /// Appends a request; fails exactly when the queue is full.
    pub fn enqueue(&mut self, request: CommitmentHashRequest) -> (r: Result<(), ElusivError>)
        requires
            old(self).wf(),
        ensures
            final(self).wf(),
            match r {
                Ok(()) => {
                    &&& old(self).view().len() < COMMITMENT_QUEUE_CAPACITY
                    &&& final(self).view() == old(self).view().push(request)
                },
                Err(e) => {
                    &&& e == ElusivError::QueueIsFull
                    &&& old(self).view().len() >= COMMITMENT_QUEUE_CAPACITY
                    &&& final(self).view() == old(self).view()
                },
            },
    {
        if self.requests.len() >= COMMITMENT_QUEUE_CAPACITY {
            return Err(ElusivError::QueueIsFull);
        }
        self.requests.push(request);
        Ok(())
    }
}

} // verus!
