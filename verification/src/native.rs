//! The vocabulary in which subscriptions speak to the host.
use vstd::prelude::*;

verus! {

/// One request to a native facility of the host.
///
/// A callback is named by an identity that the adapter chooses when it
/// creates the callback object, a timer by the id that the host issued for
/// it.
#[derive(Debug, PartialEq, Eq)]
pub enum Request {
    /// Install `callback` as a listener for the event `name` on the global
    /// event target.
    AddListener { name: String, callback: u64 },
    /// Remove the listener that was installed for `name` with `callback`.
    RemoveListener { name: String, callback: u64 },
    /// Start a recurring timer that invokes `callback` every `ms`
    /// milliseconds. The host answers with the timer's id.
    SetInterval { callback: u64, ms: i32 },
    /// Stop the timer with the id `timer`.
    ClearInterval { timer: i32 },
    /// Ask for one invocation of `callback` at the next frame.
    RequestFrame { callback: u64 },
    /// Let go of the callback object `callback`.
    Release { callback: u64 },
}

/// The mathematical value of a [`Request`].
pub enum RequestView {
    AddListener { name: Seq<char>, callback: u64 },
    RemoveListener { name: Seq<char>, callback: u64 },
    SetInterval { callback: u64, ms: i32 },
    ClearInterval { timer: i32 },
    RequestFrame { callback: u64 },
    Release { callback: u64 },
}

impl View for Request {
    type V = RequestView;

    open spec fn view(&self) -> RequestView {
        match *self {
            Request::AddListener { name, callback } => RequestView::AddListener {
                name: name@,
                callback,
            },
            Request::RemoveListener { name, callback } => RequestView::RemoveListener {
                name: name@,
                callback,
            },
            Request::SetInterval { callback, ms } => RequestView::SetInterval { callback, ms },
            Request::ClearInterval { timer } => RequestView::ClearInterval { timer },
            Request::RequestFrame { callback } => RequestView::RequestFrame { callback },
            Request::Release { callback } => RequestView::Release { callback },
        }
    }
}

} // verus!
