//! A model of the host: what its native facilities hold, and what each
//! request does to them.
//!
//! The model is the measure for the subscriptions: against it one can say
//! that a cleanup undoes its registration, that a stopped timer is silent,
//! and that no callback object is let go while the host can still invoke it.
use crate::handle::CleanupView;
use crate::native::RequestView;
use crate::subscription::{Interval, OnWindow, Subscription};
use vstd::multiset::Multiset;
use vstd::prelude::*;

verus! {

/// The state of the host's three facilities, and the callback objects that
/// were let go.
pub struct Host {
    /// The installed listeners, each an event name with a callback. The
    /// host keeps a pair once, however often it is added.
    pub listeners: Set<(Seq<char>, u64)>,
    /// The running timers: the id of each, with the callback it invokes.
    pub timers: Map<i32, u64>,
    /// The frame requests that are pending, one entry for each request.
    pub frames: Multiset<u64>,
    /// The callback objects that were let go.
    pub released: Set<u64>,
    /// The id that the host issues for the next timer that is started.
    pub issue: i32,
}

impl Host {
    /// The host after it has carried out `request`. A timer that the
    /// request starts runs under the id `issue`, and the host then issues
    /// some id under which no timer runs, if there is one.
    pub open spec fn perform(self, request: RequestView) -> Host {
        match request {
            RequestView::AddListener { name, callback } => Host {
                listeners: self.listeners.insert((name, callback)),
                ..self
            },
            RequestView::RemoveListener { name, callback } => Host {
                listeners: self.listeners.remove((name, callback)),
                ..self
            },
            RequestView::SetInterval { callback, ms } => {
                let timers = self.timers.insert(self.issue, callback);
                Host { timers, issue: choose|id: i32| !timers.contains_key(id), ..self }
            },
            RequestView::ClearInterval { timer } => Host {
                timers: self.timers.remove(timer),
                ..self
            },
            RequestView::RequestFrame { callback } => Host {
                frames: self.frames.insert(callback),
                ..self
            },
            RequestView::Release { callback } => Host {
                released: self.released.insert(callback),
                ..self
            },
        }
    }

    /// The host after it has carried out `requests` from the first to the
    /// last.
    pub open spec fn perform_all(self, requests: Seq<RequestView>) -> Host
        decreases requests.len(),
    {
        if requests.len() == 0 {
            self
        } else {
            self.perform(requests.first()).perform_all(requests.drop_first())
        }
    }

    /// The host after the next pending frame request for `callback` has
    /// come due: the request is used up. A host without such a request is
    /// left as it is.
    pub open spec fn frame_due(self, callback: u64) -> Host {
        Host { frames: self.frames.remove(callback), ..self }
    }

    /// Whether the host invokes `callback` when the event `name` fires.
    pub open spec fn listens(self, name: Seq<char>, callback: u64) -> bool {
        self.listeners.contains((name, callback))
    }

    /// The callback that the host invokes when the timer `timer` ticks, if
    /// that timer runs.
    pub open spec fn ticks(self, timer: i32) -> Option<u64> {
        if self.timers.contains_key(timer) {
            Some(self.timers[timer])
        } else {
            None
        }
    }

    /// Whether the host invokes `callback` at the next frame.
    pub open spec fn awaits_frame(self, callback: u64) -> bool {
        self.frames.count(callback) > 0
    }

    /// Whether some registration on the host still names `callback`.
    pub open spec fn refers_to(self, callback: u64) -> bool {
        ||| exists|name: Seq<char>| self.listeners.contains((name, callback))
        ||| exists|timer: i32| self.timers.contains_key(timer) && self.timers[timer] == callback
        ||| self.frames.count(callback) > 0
    }

    /// Whether every callback that the host can still invoke is alive.
    pub open spec fn sound(self) -> bool {
        forall|callback: u64| self.released.contains(callback) ==> !self.refers_to(callback)
    }

    /// Whether the host is sound before `requests`, and after each of them
    /// as they are carried out in order.
    pub open spec fn sound_along(self, requests: Seq<RequestView>) -> bool
        decreases requests.len(),
    {
        &&& self.sound()
        &&& requests.len() > 0 ==> self.perform(requests.first()).sound_along(
            requests.drop_first(),
        )
    }

    /// What `callback` is handed, in order, while the host sees `firings`:
    /// each firing is an event name with its payload, and the callback is
    /// invoked for those whose name it listens to.
    pub open spec fn delivered<E>(self, callback: u64, firings: Seq<(Seq<char>, E)>) -> Seq<E>
        decreases firings.len(),
    {
        if firings.len() == 0 {
            Seq::empty()
        } else {
            let earlier = self.delivered(callback, firings.drop_last());
            if self.listens(firings.last().0, callback) {
                earlier.push(firings.last().1)
            } else {
                earlier
            }
        }
    }

    /// How often `callback` is invoked while the timer `timer` comes due
    /// `ticks` times.
    pub open spec fn invoked_by_timer(self, callback: u64, timer: i32, ticks: nat) -> nat {
        if self.ticks(timer) == Some(callback) {
            ticks
        } else {
            0
        }
    }

    /// Whether `callback` is unknown to the host: no registration names it
    /// and it was not let go. This holds of a callback object that was just
    /// made.
    pub open spec fn fresh(self, callback: u64) -> bool {
        !self.refers_to(callback) && !self.released.contains(callback)
    }
}

/// Carrying out two requests in order is carrying out the first and then
/// the second.
proof fn perform_two(host: Host, first: RequestView, second: RequestView)
    ensures
        host.perform_all(seq![first, second]) == host.perform(first).perform(second),
        host.sound_along(seq![first, second]) <==> {
            &&& host.sound()
            &&& host.perform(first).sound()
            &&& host.perform(first).perform(second).sound()
        },
{
    let both = seq![first, second];
    let rest = both.drop_first();
    assert(rest =~= seq![second]);
    assert(rest.drop_first() =~= Seq::<RequestView>::empty());
    assert(both.first() == first);
    assert(rest.first() == second);
    reveal_with_fuel(Host::perform_all, 3);
    reveal_with_fuel(Host::sound_along, 3);
}

/// A listener's cleanup undoes its registration, and nothing else.
///
/// On a sound host that does not know `callback` yet, carrying out the
/// registration of a window subscription makes the host invoke the callback
/// for the event. Carrying out the cleanup's requests after it leaves the
/// listeners, the timers and the pending frames exactly as they were before
/// the registration: every registration is matched by one removal, and no
/// other listener is touched, whatever its name. The callback object is let
/// go last, when the host no longer names it, so the host stays sound at
/// every step.
pub proof fn listener_cleanup_undoes_registration(
    host: Host,
    subscription: OnWindow,
    callback: u64,
)
    requires
        host.sound(),
        host.fresh(callback),
    ensures
        ({
            let active = host.perform(subscription.registration(callback));
            let requests = subscription.cleanup(callback, ()).requests();
            let after = active.perform_all(requests);
            &&& active.listens(subscription@, callback)
            &&& forall|name: Seq<char>, other: u64|
                (name, other) != (subscription@, callback) ==> (active.listens(name, other)
                    <==> host.listens(name, other))
            &&& active.sound_along(requests)
            &&& after == Host { released: host.released.insert(callback), ..host }
            &&& !after.refers_to(callback)
        }),
{
    let name = subscription@;
    let remove = RequestView::RemoveListener { name, callback };
    let release = RequestView::Release { callback };
    let active = host.perform(subscription.registration(callback));
    let requests = subscription.cleanup(callback, ()).requests();
    assert(requests =~= seq![remove, release]);
    perform_two(active, remove, release);
    let detached = active.perform(remove);
    let after = detached.perform(release);
    assert(detached.listeners =~= host.listeners);
    assert(!host.listeners.contains((name, callback)));
    assert(detached == host);
    assert(active.sound()) by {
        assert forall|c: u64| active.released.contains(c) implies !active.refers_to(c) by {
            assert(!host.refers_to(c));
            assert(c != callback);
        }
    }
    assert(after.sound()) by {
        assert forall|c: u64| after.released.contains(c) implies !after.refers_to(c) by {
            assert(after.refers_to(c) == host.refers_to(c));
        }
    }
}

/// A timer ticks while its subscription is active and is silent once the
/// cleanup is done.
///
/// On a sound host that does not know `callback` yet and that issues an id
/// under which no timer runs, a timer subscription that is answered with
/// that id makes every tick of the timer invoke the callback. After the cleanup's requests no tick of that
/// timer invokes anything, however many come and whether or not the callback
/// object still exists: the timer is stopped by its id. The timers, the
/// listeners and the pending frames are then as they were before the
/// registration; of the host's state only the id that it issues next has
/// moved on. The timer is stopped first and the callback object let go
/// last, so no tick ever meets a callback that is gone.
pub proof fn interval_ticks_until_cleanup(
    host: Host,
    subscription: Interval,
    callback: u64,
    ticks: nat,
)
    requires
        host.sound(),
        host.fresh(callback),
        !host.timers.contains_key(host.issue),
    ensures
        ({
            let issued = host.issue;
            let active = host.perform(subscription.registration(callback));
            let requests = subscription.cleanup(callback, issued).requests();
            let after = active.perform_all(requests);
            &&& active.invoked_by_timer(callback, issued, ticks) == ticks
            &&& after.ticks(issued).is_none()
            &&& forall|any: u64| after.invoked_by_timer(any, issued, ticks) == 0
            &&& active.sound_along(requests)
            &&& after == Host {
                released: host.released.insert(callback),
                issue: active.issue,
                ..host
            }
            &&& !after.refers_to(callback)
        }),
{
    let issued = host.issue;
    let clear = RequestView::ClearInterval { timer: issued };
    let release = RequestView::Release { callback };
    let active = host.perform(subscription.registration(callback));
    let requests = subscription.cleanup(callback, issued).requests();
    assert(requests =~= seq![clear, release]);
    perform_two(active, clear, release);
    let detached = active.perform(clear);
    let after = detached.perform(release);
    assert(detached.timers =~= host.timers);
    assert(detached == Host { issue: active.issue, ..host });
    assert(detached.sound()) by {
        assert forall|c: u64| detached.released.contains(c) implies !detached.refers_to(c) by {
            assert(detached.refers_to(c) == host.refers_to(c));
        }
    }
    assert(active.sound()) by {
        assert forall|c: u64| active.released.contains(c) implies !active.refers_to(c) by {
            assert(!host.refers_to(c));
            assert(c != callback);
            assert forall|timer: i32|
                active.timers.contains_key(timer) implies active.timers[timer] != c by {
                if timer != issued {
                    assert(host.timers.contains_key(timer));
                }
            }
        }
    }
    assert(after.sound()) by {
        assert forall|c: u64| after.released.contains(c) implies !after.refers_to(c) by {
            assert(after.refers_to(c) == host.refers_to(c));
        }
    }
}

/// A listener is handed every firing of its event, once and in order, and
/// nothing after its cleanup.
///
/// While a window subscription is registered for a callback that the host
/// did not know before, the payloads that the callback is handed are
/// exactly the payloads of the firings of its event, in the order of the
/// firings: none is dropped, none comes twice, and firings of other events
/// add nothing. Where every firing is of its event, it is handed all of
/// them. Once the cleanup's requests are carried out it is handed nothing,
/// whatever fires.
pub proof fn listener_delivers_in_order<E>(
    host: Host,
    subscription: OnWindow,
    callback: u64,
    firings: Seq<(Seq<char>, E)>,
)
    requires
        host.fresh(callback),
    ensures
        ({
            let active = host.perform(subscription.registration(callback));
            let after = active.perform_all(subscription.cleanup(callback, ()).requests());
            let own = |firing: (Seq<char>, E)| firing.0 == subscription@;
            let payload = |firing: (Seq<char>, E)| firing.1;
            &&& active.delivered(callback, firings) == firings.filter(own).map_values(payload)
            &&& (forall|i: int| 0 <= i < firings.len() ==> (#[trigger] firings[i]).0
                == subscription@) ==> active.delivered(callback, firings) == firings.map_values(
                payload,
            )
            &&& after.delivered(callback, firings) == Seq::<E>::empty()
        }),
    decreases firings.len(),
{
    let name = subscription@;
    let active = host.perform(subscription.registration(callback));
    let remove = RequestView::RemoveListener { name, callback };
    let release = RequestView::Release { callback };
    assert(subscription.cleanup(callback, ()).requests() =~= seq![remove, release]);
    perform_two(active, remove, release);
    let after = active.perform(remove).perform(release);
    let own = |firing: (Seq<char>, E)| firing.0 == subscription@;
    let payload = |firing: (Seq<char>, E)| firing.1;
    if firings.len() == 0 {
        assert(firings.filter(own).map_values(payload) =~= Seq::<E>::empty());
        assert(firings.map_values(payload) =~= Seq::<E>::empty());
    } else {
        let earlier = firings.drop_last();
        let last = firings.last();
        listener_delivers_in_order(host, subscription, callback, earlier);
        reveal(Seq::filter);
        assert(active.listens(last.0, callback) <==> own(last)) by {
            if last.0 != name {
                assert(!host.listeners.contains((last.0, callback)));
            }
        }
        assert(!after.listens(last.0, callback)) by {
            assert(!host.listeners.contains((last.0, callback)));
        }
        let kept = earlier.filter(own);
        if own(last) {
            assert(firings.filter(own) == kept.push(last));
            assert(kept.push(last).map_values(payload) =~= kept.map_values(payload).push(
                last.1,
            ));
        } else {
            assert(firings.filter(own) == kept);
        }
        if forall|i: int| 0 <= i < firings.len() ==> (#[trigger] firings[i]).0 == name {
            assert forall|i: int| 0 <= i < earlier.len() implies (#[trigger] earlier[i]).0
                == name by {
                assert(earlier[i] == firings[i]);
            }
            assert(last == firings[firings.len() - 1]);
            assert(earlier.map_values(payload).push(last.1) =~= firings.map_values(payload));
        }
    }
}

} // verus!
