use vstd::prelude::*;

verus! {

/// The state of a promise, as the engine reports it.
#[derive(Debug, Clone, Copy, PartialEq, Eq, Structural)]
pub enum PromiseState {
    Pending,
    Fulfilled,
    Rejected,
}

/// Waits for a guest promise to settle.
pub struct PromiseFutureWrapper<P> {
    promise: P,
}

impl<P: Copy> PromiseFutureWrapper<P> {
    pub closed spec fn promise(&self) -> P {
        self.promise
    }

    pub fn new(promise: P) -> (r: Self)
        ensures
            r.promise() == promise,
    {
        Self { promise }
    }

    /// One poll, given the promise's state now: nothing while it is
    /// pending; then the promise, as `Ok` if it was fulfilled and as `Err`
    /// if it was rejected.
    pub fn poll(&self, state: PromiseState) -> (r: Option<Result<P, P>>)
        ensures
            state == PromiseState::Pending ==> r is None,
            state == PromiseState::Fulfilled ==> r == Some(Ok::<P, P>(self.promise())),
            state == PromiseState::Rejected ==> r == Some(Err::<P, P>(self.promise())),
    {
        let promise = self.promise;
        match state {
            PromiseState::Pending => None,
            PromiseState::Rejected => Some(Err(promise)),
            PromiseState::Fulfilled => Some(Ok(promise)),
        }
    }
}

} // verus!
