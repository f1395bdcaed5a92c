//! A typed handle for a long-running server-side operation.
//!
//! A "start work" RPC answers with an opaque descriptor rather than the work's
//! result. The handle wraps that descriptor, exactly as the service returned
//! it, together with the polling collaborator that can refresh it later. The
//! handle itself never polls: it only decides, from the descriptor alone,
//! whether a result is already embedded or the collaborator must be asked.

use vstd::prelude::*;

use crate::status::Status;

verus! {

/// What a "start operation" RPC returns, reduced to the values this layer
/// reads: the server-issued operation name, whether the operation has already
/// run to completion, and — if so and the server chose to embed it — the
/// operation's outcome. Operations that signal completion only (no payload)
/// use `T = ()`.
pub struct OperationDescriptor<T> {
    /// The server-assigned name under which the operation can be polled.
    pub name: String,
    /// Whether the server already marked the operation as finished.
    pub done: bool,
    /// The embedded outcome, present only on some finished operations.
    pub result: Option<Result<T, Status>>,
}

/// Where the next step of resolving an operation comes from.
pub enum ResolveStep<T, P> {
    /// The descriptor already carried the outcome: here it is, with no poll
    /// issued.
    Ready(Result<T, Status>),
    /// The outcome is not embedded; the handle is returned so its poller can
    /// be asked for a fresh descriptor.
    MustPoll(OperationHandle<T, P>),
}

/// An [`OperationDescriptor`] paired with the polling collaborator — a shared
/// handle capable of resolving the descriptor into a completion status — that
/// the surrounding client supplies.
pub struct OperationHandle<T, P> {
    descriptor: OperationDescriptor<T>,
    poller: P,
}

impl<T, P> OperationHandle<T, P> {
    /// The wrapped descriptor.
    pub closed spec fn descriptor(self) -> OperationDescriptor<T> {
        self.descriptor
    }

    /// The wrapped polling collaborator.
    pub closed spec fn poller(self) -> P {
        self.poller
    }

    /// Whether the descriptor already embeds the operation's outcome, so that
    /// resolving needs no poll.
    pub open spec fn has_embedded_result(self) -> bool {
        self.descriptor().done && self.descriptor().result is Some
    }

    /// Wraps the descriptor exactly as the service returned it.
    pub fn new(descriptor: OperationDescriptor<T>, poller: P) -> (r: OperationHandle<T, P>)
        ensures
            r.descriptor() == descriptor,
            r.poller() == poller,
    {
        OperationHandle { descriptor, poller }
    }

    /// The operation's server-assigned name.
    pub fn name(&self) -> (r: &String)
        ensures
            r == self.descriptor().name,
    {
        &self.descriptor.name
    }

    /// Whether the server already marked the operation as finished.
    pub fn done(&self) -> (r: bool)
        ensures
            r == self.descriptor().done,
    {
        self.descriptor.done
    }

    /// A borrow of the polling collaborator, for issuing the actual poll.
    pub fn poller_ref(&self) -> (r: &P)
        ensures
            r == self.poller(),
    {
        &self.poller
    }

    /// Decides how to resolve the operation: a descriptor already marked done
    /// with an embedded outcome yields that exact outcome and no poll;
    /// anything else hands the handle back so the collaborator can be polled.
    pub fn resolve_step(self) -> (r: ResolveStep<T, P>)
        ensures
            self.has_embedded_result() ==> r == ResolveStep::Ready::<T, P>(
                self.descriptor().result->0,
            ),
            !self.has_embedded_result() ==> r == ResolveStep::MustPoll(self),
    {
        if self.descriptor.done {
            let OperationHandle { descriptor, poller } = self;
            let OperationDescriptor { name, done, result } = descriptor;
            match result {
                Some(outcome) => ResolveStep::Ready(outcome),
                None => ResolveStep::MustPoll(
                    OperationHandle {
                        descriptor: OperationDescriptor { name, done, result: None },
                        poller,
                    },
                ),
            }
        } else {
            ResolveStep::MustPoll(self)
        }
    }

    /// Replaces the descriptor with the fresh one a poll returned; the poller
    /// is kept.
    pub fn on_poll(&mut self, descriptor: OperationDescriptor<T>)
        ensures
            final(self).descriptor() == descriptor,
            final(self).poller() == old(self).poller(),
    {
        self.descriptor = descriptor;
    }
}

} // verus!
