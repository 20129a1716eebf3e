//! The cancellation handle of one active subscription.
use crate::native::{Request, RequestView};
use vstd::prelude::*;

verus! {

/// The deferred action of a handle: what has to happen to detach one
/// subscription from the host.
#[derive(Debug, PartialEq, Eq)]
pub enum Cleanup {
    /// Remove the listener installed for `name` with `callback`, then let
    /// the callback object go.
    RemoveListener { name: String, callback: u64 },
    /// Stop the timer `timer`, and only then let go of the callback object
    /// that it invokes.
    ClearInterval { timer: i32, callback: u64 },
    /// Raise the stop flag of the frame loop that runs in `callback`. The
    /// loop lets go of its callback object itself, when the frame that is
    /// pending has fired.
    StopFrames { callback: u64 },
}

/// The mathematical value of a [`Cleanup`].
pub enum CleanupView {
    RemoveListener { name: Seq<char>, callback: u64 },
    ClearInterval { timer: i32, callback: u64 },
    StopFrames { callback: u64 },
}

impl View for Cleanup {
    type V = CleanupView;

    open spec fn view(&self) -> CleanupView {
        match *self {
            Cleanup::RemoveListener { name, callback } => CleanupView::RemoveListener {
                name: name@,
                callback,
            },
            Cleanup::ClearInterval { timer, callback } => CleanupView::ClearInterval {
                timer,
                callback,
            },
            Cleanup::StopFrames { callback } => CleanupView::StopFrames { callback },
        }
    }
}

impl CleanupView {
    /// The requests that carry the cleanup out, in the order in which the
    /// host has to see them.
    pub open spec fn requests(self) -> Seq<RequestView> {
        match self {
            CleanupView::RemoveListener { name, callback } => seq![
                RequestView::RemoveListener { name, callback },
                RequestView::Release { callback },
            ],
            CleanupView::ClearInterval { timer, callback } => seq![
                RequestView::ClearInterval { timer },
                RequestView::Release { callback },
            ],
            CleanupView::StopFrames { callback } => Seq::empty(),
        }
    }

    /// The frame loop whose stop flag the cleanup raises, named by its
    /// callback, if the cleanup stops one.
    pub open spec fn stopped_loop(self) -> Option<u64> {
        match self {
            CleanupView::StopFrames { callback } => Some(callback),
            _ => None,
        }
    }

    /// Whether the cleanup raises the stop flag of the frame loop in
    /// `callback`.
    pub open spec fn stops(self, callback: u64) -> bool {
        self.stopped_loop() == Some(callback)
    }
}

impl Cleanup {
    /// The requests that carry the cleanup out, in order: the native
    /// registration is undone first, the callback object is let go last.
    /// Stopping a frame loop asks nothing of the host: the frame that is
    /// pending stays, and the loop lets go of its callback object after
    /// it.
    pub fn requests(&self) -> (out: Vec<Request>)
        ensures
            out@.len() == self@.requests().len(),
            forall|i: int| 0 <= i < out@.len() ==> (#[trigger] out@[i])@ == self@.requests()[i],
    {
        match self {
            Cleanup::RemoveListener { name, callback } => {
                let mut out: Vec<Request> = Vec::new();
                out.push(Request::RemoveListener { name: name.clone(), callback: *callback });
                out.push(Request::Release { callback: *callback });
                out
            },
            Cleanup::ClearInterval { timer, callback } => {
                let mut out: Vec<Request> = Vec::new();
                out.push(Request::ClearInterval { timer: *timer });
                out.push(Request::Release { callback: *callback });
                out
            },
            Cleanup::StopFrames { callback: _ } => Vec::new(),
        }
    }

    /// The frame loop whose stop flag the cleanup raises, if it is one that
    /// stops a frame loop.
    pub fn stopped_loop(&self) -> (out: Option<u64>)
        ensures
            out == self@.stopped_loop(),
    {
        match self {
            Cleanup::StopFrames { callback } => Some(*callback),
            _ => None,
        }
    }
}

/// What one cancellation makes of a handle that owes `handle`: what is left
/// in the handle, and what is handed out. The slot is cleared whatever it
/// held, and what it held is handed out.
pub open spec fn cancelled<A>(handle: Option<A>) -> (Option<A>, Option<A>) {
    (None, handle)
}

/// The actions that a handle owing `handle` hands out over `cancels`
/// cancellations, in order.
pub open spec fn handed_out<A>(handle: Option<A>, cancels: nat) -> Seq<A>
    decreases cancels,
{
    if cancels == 0 {
        Seq::empty()
    } else {
        let (left, owed) = cancelled(handle);
        let later = handed_out(left, (cancels - 1) as nat);
        match owed {
            Some(action) => seq![action] + later,
            None => later,
        }
    }
}

/// The mathematical value of the cleanup that a handle owes or hands out.
pub open spec fn owed_view(owed: Option<Cleanup>) -> Option<CleanupView> {
    match owed {
        Some(cleanup) => Some(cleanup@),
        None => None,
    }
}

/// A handle hands its action out once, at the first cancellation, and never
/// again.
///
/// Over any number of cancellations, a handle that owes an action hands out
/// exactly that action, once, if it is cancelled at all; a spent handle
/// hands out nothing. Cancelling more often than once therefore changes
/// nothing: what was handed out after one cancellation is all that is ever
/// handed out.
pub proof fn cancel_hands_out_once<A>(handle: Option<A>, cancels: nat)
    ensures
        handed_out(handle, cancels) == match handle {
            Some(action) if cancels > 0 => seq![action],
            _ => Seq::empty(),
        },
        cancels > 0 ==> handed_out(handle, cancels) == handed_out(handle, 1),
    decreases cancels,
{
    if cancels > 0 {
        cancel_hands_out_once::<A>(None, (cancels - 1) as nat);
        cancel_hands_out_once::<A>(None, 0);
        reveal_with_fuel(handed_out, 2);
        match handle {
            Some(action) => {
                assert(seq![action] + Seq::<A>::empty() =~= seq![action]);
            },
            None => {},
        }
    }
}

/// The handle of one active subscription.
///
/// It holds the deferred action of the subscription, whatever kind of value
/// that is, until the first call of [`Unsubscribe::cancel`], which hands the
/// action out and leaves the handle spent. A spent handle never hands out
/// anything again, so the action is carried out at most once however often
/// the handle is cancelled. The subscriptions of this crate owe a
/// [`Cleanup`].
#[derive(Debug)]
#[must_use]
pub struct Unsubscribe<A> {
    action: Option<A>,
}

impl<A> View for Unsubscribe<A> {
    type V = Option<A>;

    /// The action that is still owed, or `None` once the handle is spent.
    closed spec fn view(&self) -> Option<A> {
        self.action
    }
}

impl<A> Unsubscribe<A> {
    /// A handle that owes `action`.
    pub fn new(action: A) -> (handle: Self)
        ensures
            handle@ == Some(action),
    {
        Unsubscribe { action: Some(action) }
    }

    /// Whether the action has been handed out already.
    pub fn is_spent(&self) -> (spent: bool)
        ensures
            spent == self@.is_none(),
    {
        self.action.is_none()
    }

    /// Clears the slot and hands out what it held: the action on the first
    /// call, nothing on every later one.
    pub fn cancel(&mut self) -> (owed: Option<A>)
        ensures
            (final(self)@, owed) == cancelled(old(self)@),
    {
        self.action.take()
    }
}

} // verus!
