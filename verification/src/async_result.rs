//! The lifecycle of a remotely fetched value.

use vstd::prelude::*;

verus! {

/// Why a fetch of chain data failed.
#[derive(Clone, Copy, Debug, PartialEq, Eq)]
pub enum FetchError {
    /// The request did not reach the chain or no answer came back.
    Network,
    /// An answer came back but could not be decoded.
    Decode,
}

/// A remotely fetched value: not yet there, there, or failed.
///
/// A slot starts as `Loading` and is replaced wholesale when a fetch completes.
/// The type implies no fallback value: a consumer handles all three variants.
#[derive(Clone, Copy, Debug, PartialEq, Eq)]
pub enum AsyncResult<T> {
    Loading,
    Ready(T),
    Error(FetchError),
}

impl<T> AsyncResult<T> {
    /// The value held, if the last fetch succeeded.
    pub open spec fn value(self) -> Option<T> {
        match self {
            AsyncResult::Ready(v) => Some(v),
            _ => None,
        }
    }

    /// The slot that a completed fetch leaves behind.
    pub open spec fn of_fetch(result: Result<T, FetchError>) -> Self {
        match result {
            Ok(v) => AsyncResult::Ready(v),
            Err(e) => AsyncResult::Error(e),
        }
    }

    /// The slot before its first fetch has completed.
    pub fn loading() -> (slot: Self)
        ensures
            slot == AsyncResult::<T>::Loading,
    {
        AsyncResult::Loading
    }

    /// Replaces nothing: builds the slot for a fetch that has just completed.
    pub fn from_fetch(result: Result<T, FetchError>) -> (slot: Self)
        ensures
            slot == Self::of_fetch(result),
    {
        match result {
            Ok(v) => AsyncResult::Ready(v),
            Err(e) => AsyncResult::Error(e),
        }
    }

    pub fn is_loading(&self) -> (b: bool)
        ensures
            b == (*self is Loading),
    {
        match self {
            AsyncResult::Loading => true,
            _ => false,
        }
    }

    pub fn is_ready(&self) -> (b: bool)
        ensures
            b == (*self is Ready),
    {
        match self {
            AsyncResult::Ready(_) => true,
            _ => false,
        }
    }

    pub fn is_error(&self) -> (b: bool)
        ensures
            b == (*self is Error),
    {
        match self {
            AsyncResult::Error(_) => true,
            _ => false,
        }
    }

    /// The value held, by reference, if the last fetch succeeded.
    pub fn get(&self) -> (v: Option<&T>)
        ensures
            v == match *self {
                AsyncResult::Ready(t) => Some(&t),
                _ => None,
            },
    {
        match self {
            AsyncResult::Ready(t) => Some(t),
            _ => None,
        }
    }

    /// The cause of the failure, if the last fetch failed.
    pub fn error(&self) -> (e: Option<FetchError>)
        ensures
            e == match *self {
                AsyncResult::Error(cause) => Some(cause),
                _ => None,
            },
    {
        match self {
            AsyncResult::Error(cause) => Some(*cause),
            _ => None,
        }
    }
}

} // verus!
