//! The subscription contract and its three variants.
use crate::handle::{owed_view, Cleanup, CleanupView, Unsubscribe};
use crate::native::{Request, RequestView};
use vstd::prelude::*;

verus! {

/// A subscription whose registration is under way: the request has been
/// handed out, and the host's answer is awaited.
///
/// It holds the subscription, which is thereby out of reach, and the
/// callback that the request names.
pub struct Pending<S> {
    subscription: S,
    callback: u64,
}

impl<S> View for Pending<S> {
    type V = (S, u64);

    /// The subscription and the callback for which it is being registered.
    closed spec fn view(&self) -> (S, u64) {
        (self.subscription, self.callback)
    }
}

impl<S> Pending<S> {
    /// Takes `subscription` out of reach while it is registered for
    /// `callback`.
    pub fn new(subscription: S, callback: u64) -> (pending: Self)
        ensures
            pending@ == (subscription, callback),
    {
        Pending { subscription, callback }
    }

    /// The subscription that is being registered.
    pub fn subscription(&self) -> (subscription: &S)
        ensures
            *subscription == self@.0,
    {
        &self.subscription
    }

    /// The callback that the request names.
    pub fn callback(&self) -> (callback: u64)
        ensures
            callback == self@.1,
    {
        self.callback
    }
}

/// A binding between an event source of the host and a callback that is not
/// active yet.
///
/// Activation takes two steps, with the host in between. [`subscribe`]
/// consumes the subscription and gives, once, the request to carry out on
/// the host; the value is gone after that, so it cannot be registered twice.
/// [`complete`] takes the host's answer and gives the handle of the now
/// active subscription.
///
/// [`subscribe`]: Subscription::subscribe
/// [`complete`]: Subscription::complete
pub trait Subscription: Sized {
    /// What the host answers when it has carried out the registration.
    type Receipt;

    /// The registration that activates the subscription for `callback`.
    spec fn registration(&self, callback: u64) -> RequestView;

    /// The cleanup that undoes that registration, once it was answered with
    /// `receipt`.
    spec fn cleanup(&self, callback: u64, receipt: Self::Receipt) -> CleanupView;

    /// Consumes the subscription and starts its activation for `callback`:
    /// gives the request to carry out on the host, and the subscription as
    /// it waits for the answer.
    fn subscribe(self, callback: u64) -> (started: (Request, Pending<Self>))
        ensures
            started.0@ == self.registration(callback),
            started.1@ == (self, callback),
    ;

    /// Ends the activation when the host has answered the request with
    /// `receipt`: gives the handle that owes the cleanup.
    fn complete(pending: Pending<Self>, receipt: Self::Receipt) -> (handle: Unsubscribe<Cleanup>)
        ensures
            owed_view(handle@) == Some(pending@.0.cleanup(pending@.1, receipt)),
    ;
}

/// A subscription to one named event on the global event target, such as
/// `"resize"` or `"keydown"`.
#[derive(Debug)]
pub struct OnWindow {
    name: String,
}

impl View for OnWindow {
    type V = Seq<char>;

    /// The name of the event.
    closed spec fn view(&self) -> Seq<char> {
        self.name@
    }
}

impl OnWindow {
    /// A subscription to the event `name`.
    pub fn new(name: &str) -> (subscription: Self)
        ensures
            subscription@ == name@,
    {
        OnWindow { name: name.to_owned() }
    }

    /// The name of the event.
    pub fn name(&self) -> (name: &str)
        ensures
            name@ == self@,
    {
        self.name.as_str()
    }
}

impl Subscription for OnWindow {
    type Receipt = ();

    open spec fn registration(&self, callback: u64) -> RequestView {
        RequestView::AddListener { name: self@, callback }
    }

    open spec fn cleanup(&self, callback: u64, receipt: ()) -> CleanupView {
        CleanupView::RemoveListener { name: self@, callback }
    }

    /// Asks for a listener under the event's name.
    fn subscribe(self, callback: u64) -> (started: (Request, Pending<Self>)) {
        let request = Request::AddListener { name: self.name.clone(), callback };
        (request, Pending::new(self, callback))
    }

    /// The handle removes the listener that was installed under this name
    /// with this very callback, and no other.
    fn complete(pending: Pending<Self>, receipt: ()) -> (handle: Unsubscribe<Cleanup>) {
        Unsubscribe::new(
            Cleanup::RemoveListener {
                name: pending.subscription.name,
                callback: pending.callback,
            },
        )
    }
}

/// A subscription to a recurring timer.
#[derive(Debug)]
pub struct Interval {
    ms: i32,
}

impl View for Interval {
    type V = i32;

    /// The period in milliseconds.
    closed spec fn view(&self) -> i32 {
        self.ms
    }
}

impl Interval {
    /// A subscription to a timer with a period of `ms` milliseconds. The
    /// period is taken as it is: zero and negative periods go to the host
    /// unchanged.
    pub fn new(ms: i32) -> (subscription: Self)
        ensures
            subscription@ == ms,
    {
        Interval { ms }
    }

    /// The period in milliseconds.
    pub fn ms(&self) -> (ms: i32)
        ensures
            ms == self@,
    {
        self.ms
    }
}

impl Subscription for Interval {
    /// The id that the host issued for the timer.
    type Receipt = i32;

    open spec fn registration(&self, callback: u64) -> RequestView {
        RequestView::SetInterval { callback, ms: self@ }
    }

    open spec fn cleanup(&self, callback: u64, receipt: i32) -> CleanupView {
        CleanupView::ClearInterval { timer: receipt, callback }
    }

    /// Asks for a timer with the period as it was given.
    fn subscribe(self, callback: u64) -> (started: (Request, Pending<Self>)) {
        let request = Request::SetInterval { callback, ms: self.ms };
        (request, Pending::new(self, callback))
    }

    /// The handle stops the timer by the id that the host issued, and keeps
    /// the callback object until then.
    fn complete(pending: Pending<Self>, receipt: i32) -> (handle: Unsubscribe<Cleanup>) {
        Unsubscribe::new(Cleanup::ClearInterval { timer: receipt, callback: pending.callback })
    }
}

/// A subscription to the per-frame render tick.
#[derive(Debug)]
pub struct AnimationFrame {}

impl AnimationFrame {
    /// A subscription to the render tick. There is nothing to configure.
    pub fn new() -> (subscription: Self) {
        AnimationFrame {  }
    }
}

impl Subscription for AnimationFrame {
    type Receipt = ();

    open spec fn registration(&self, callback: u64) -> RequestView {
        RequestView::RequestFrame { callback }
    }

    open spec fn cleanup(&self, callback: u64, receipt: ()) -> CleanupView {
        CleanupView::StopFrames { callback }
    }

    /// Asks for the first frame.
    fn subscribe(self, callback: u64) -> (started: (Request, Pending<Self>)) {
        (Request::RequestFrame { callback }, Pending::new(self, callback))
    }

    /// The handle raises the stop flag of the frame loop in the callback; it
    /// takes no pending frame request back.
    fn complete(pending: Pending<Self>, receipt: ()) -> (handle: Unsubscribe<Cleanup>) {
        Unsubscribe::new(Cleanup::StopFrames { callback: pending.callback })
    }
}

} // verus!
