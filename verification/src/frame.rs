//! The frame loop: a callback that asks for the next frame after every
//! frame until it is told to stop, and that lets go of itself after the
//! last frame.
use crate::handle::{cancelled, Cleanup, CleanupView};
use crate::host::Host;
use crate::native::{Request, RequestView};
use crate::subscription::{AnimationFrame, Subscription};
use vstd::prelude::*;

verus! {

/// The two states of a frame loop.
#[derive(Debug, Clone, Copy, PartialEq, Eq, Structural)]
pub enum Phase {
    /// The loop asks for another frame after each frame.
    Armed,
    /// The stop flag is up: the loop asks for no further frame. There is no
    /// way back.
    Stopped,
}

/// The mathematical value of a [`FrameLoop`].
pub struct FrameState {
    /// The callback in which the loop runs.
    pub callback: u64,
    pub phase: Phase,
}

impl FrameState {
    /// The state of a loop that was just started for `callback`.
    pub open spec fn armed(callback: u64) -> FrameState {
        FrameState { callback, phase: Phase::Armed }
    }

    /// What the loop asks for when its callback has fired and the sink has
    /// returned: the next frame while it is armed, and once it is stopped
    /// the release of its callback object, which no frame will invoke
    /// again.
    pub open spec fn next_request(self) -> RequestView {
        match self.phase {
            Phase::Armed => RequestView::RequestFrame { callback: self.callback },
            Phase::Stopped => RequestView::Release { callback: self.callback },
        }
    }

    /// The state after `cleanup` was carried out: stopped if the cleanup
    /// stops this loop, unchanged if it is the cleanup of another
    /// subscription.
    pub open spec fn after(self, cleanup: CleanupView) -> FrameState {
        if cleanup.stops(self.callback) {
            FrameState { phase: Phase::Stopped, ..self }
        } else {
            self
        }
    }
}

/// The state that the callback of a frame subscription shares with the
/// subscription's handle: the stop flag.
///
/// The callback invokes the sink first and asks [`FrameLoop::on_frame`]
/// afterwards, so a stop that arrives while a frame is pending does not take
/// that frame back: its callback still fires and still invokes the sink, and
/// only then finds the flag up. It then asks for no further frame, and lets
/// go of itself and of the sink that it holds.
#[derive(Debug)]
pub struct FrameLoop {
    callback: u64,
    stopped: bool,
}

impl View for FrameLoop {
    type V = FrameState;

    closed spec fn view(&self) -> FrameState {
        FrameState {
            callback: self.callback,
            phase: if self.stopped {
                Phase::Stopped
            } else {
                Phase::Armed
            },
        }
    }
}

impl FrameLoop {
    /// An armed loop that runs in `callback`.
    pub fn new(callback: u64) -> (frames: Self)
        ensures
            frames@ == FrameState::armed(callback),
    {
        FrameLoop { callback, stopped: false }
    }

    /// The callback in which the loop runs.
    pub fn callback(&self) -> (callback: u64)
        ensures
            callback == self@.callback,
    {
        self.callback
    }

    /// The state of the loop.
    pub fn phase(&self) -> (phase: Phase)
        ensures
            phase == self@.phase,
    {
        if self.stopped {
            Phase::Stopped
        } else {
            Phase::Armed
        }
    }

    /// Raises the stop flag. On a stopped loop this changes nothing.
    pub fn stop(&mut self)
        ensures
            final(self)@ == (FrameState { phase: Phase::Stopped, ..old(self)@ }),
    {
        self.stopped = true;
    }

    /// Carries out `cleanup` as far as it concerns this loop: raises the
    /// stop flag if the cleanup stops the loop of this callback.
    pub fn cancel(&mut self, cleanup: &Cleanup)
        ensures
            final(self)@ == old(self)@.after(cleanup@),
    {
        match cleanup {
            Cleanup::StopFrames { callback } => {
                if *callback == self.callback {
                    self.stopped = true;
                }
            },
            _ => {},
        }
    }

    /// The decision that follows each frame, to be asked when the callback
    /// has fired and the sink has returned: the request for the next frame
    /// while the loop is armed, and once it is stopped the release of the
    /// callback object. A stopped loop has no frame pending after the one
    /// that brought this call, so the release is its last word.
    pub fn on_frame(&self) -> (next: Request)
        ensures
            next@ == self@.next_request(),
    {
        if self.stopped {
            Request::Release { callback: self.callback }
        } else {
            Request::RequestFrame { callback: self.callback }
        }
    }
}

/// What can happen to an active frame subscription.
pub enum FrameEvent {
    /// A frame comes due: if a frame request is pending for the callback,
    /// the host uses it up and invokes the callback.
    Due,
    /// The handle is cancelled or disposed of between two frames.
    Cancel,
    /// A frame comes due as in [`FrameEvent::Due`], and the handle is
    /// cancelled or disposed of while the sink runs, before the callback
    /// reads the stop flag.
    CancelInSink,
}

/// One frame subscription together with the host, from the registration
/// on.
pub struct FrameRun {
    pub host: Host,
    /// The state of the loop.
    pub frames: FrameState,
    /// What the handle owes.
    pub handle: Option<CleanupView>,
    /// How often the sink was invoked.
    pub delivered: nat,
    /// How many frames were asked for, the first one included.
    pub requested: nat,
}

/// `count` frames that come due one after the other.
pub open spec fn dues(count: nat) -> Seq<FrameEvent> {
    Seq::new(count, |i: int| FrameEvent::Due)
}

/// Whether a frame comes due among `events`.
pub open spec fn has_frame(events: Seq<FrameEvent>) -> bool {
    events.contains(FrameEvent::Due) || events.contains(FrameEvent::CancelInSink)
}

impl FrameRun {
    /// The run as `subscription` starts it on `host`: the first frame is
    /// asked for, the loop is armed, and the handle owes the cleanup.
    pub open spec fn start(host: Host, subscription: AnimationFrame, callback: u64) -> FrameRun {
        FrameRun {
            host: host.perform(subscription.registration(callback)),
            frames: FrameState::armed(callback),
            handle: Some(subscription.cleanup(callback, ())),
            delivered: 0,
            requested: 1,
        }
    }

    /// The first half of a frame: the host uses the pending request up and
    /// invokes the callback, which invokes the sink.
    pub open spec fn fire(self) -> FrameRun {
        FrameRun {
            host: self.host.frame_due(self.frames.callback),
            delivered: self.delivered + 1,
            ..self
        }
    }

    /// The second half of a frame: the sink has returned, the callback
    /// reads the stop flag, and what the loop then asks for is carried out.
    pub open spec fn settle(self) -> FrameRun {
        FrameRun {
            host: self.host.perform(self.frames.next_request()),
            requested: self.requested + if self.frames.phase == Phase::Armed {
                1nat
            } else {
                0nat
            },
            ..self
        }
    }

    /// A cancellation: the handle hands out what it owes, and that is
    /// carried out.
    pub open spec fn cancel(self) -> FrameRun {
        let (left, owed) = cancelled(self.handle);
        match owed {
            Some(cleanup) => FrameRun {
                host: self.host.perform_all(cleanup.requests()),
                frames: self.frames.after(cleanup),
                handle: left,
                ..self
            },
            None => FrameRun { handle: left, ..self },
        }
    }

    /// The run after `event`. A frame that comes due while no request is
    /// pending finds nothing to invoke, so nothing happens, and no sink
    /// runs in which the handle could be cancelled.
    pub open spec fn step(self, event: FrameEvent) -> FrameRun {
        match event {
            FrameEvent::Due => {
                if self.host.awaits_frame(self.frames.callback) {
                    self.fire().settle()
                } else {
                    self
                }
            },
            FrameEvent::Cancel => self.cancel(),
            FrameEvent::CancelInSink => {
                if self.host.awaits_frame(self.frames.callback) {
                    self.fire().cancel().settle()
                } else {
                    self
                }
            },
        }
    }

    /// The run after `events`, from the first to the last.
    pub open spec fn run(self, events: Seq<FrameEvent>) -> FrameRun
        decreases events.len(),
    {
        if events.len() == 0 {
            self
        } else {
            self.step(events.first()).run(events.drop_first())
        }
    }

    /// Whether the host is sound at the start and after each of `events`.
    pub open spec fn sound_along(self, events: Seq<FrameEvent>) -> bool
        decreases events.len(),
    {
        &&& self.host.sound()
        &&& events.len() > 0 ==> self.step(events.first()).sound_along(events.drop_first())
    }

    /// Whether the loop is armed with exactly one frame pending and the
    /// cleanup still owed.
    pub open spec fn armed(self) -> bool {
        &&& self.frames.phase == Phase::Armed
        &&& self.host.frames.count(self.frames.callback) == 1
        &&& self.handle == Some(CleanupView::StopFrames { callback: self.frames.callback })
    }

    /// Whether the loop is stopped and the handle spent.
    pub open spec fn stopped(self) -> bool {
        &&& self.frames.phase == Phase::Stopped
        &&& self.handle.is_none()
    }

    /// The host once the loop has let go of its callback object and no
    /// frame is pending for it.
    pub open spec fn ended_host(self) -> Host {
        self.host.frame_due(self.frames.callback).perform(
            RequestView::Release { callback: self.frames.callback },
        )
    }
}

/// Running through two stretches of events one after the other is running
/// through their concatenation.
pub proof fn run_in_stretches(run: FrameRun, first: Seq<FrameEvent>, second: Seq<FrameEvent>)
    ensures
        run.run(first + second) == run.run(first).run(second),
        run.sound_along(first + second) <==> run.sound_along(first) && run.run(first).sound_along(
            second,
        ),
    decreases first.len(),
{
    if first.len() == 0 {
        assert(first + second =~= second);
    } else {
        assert((first + second).first() == first.first());
        assert((first + second).drop_first() =~= first.drop_first() + second);
        run_in_stretches(run.step(first.first()), first.drop_first(), second);
    }
}

/// A run of one event is one step.
proof fn run_of_one(run: FrameRun, event: FrameEvent)
    ensures
        run.run(seq![event]) == run.step(event),
        run.sound_along(seq![event]) <==> run.host.sound() && run.step(event).host.sound(),
{
    let one = seq![event];
    assert(one.first() == event);
    assert(one.drop_first() =~= Seq::<FrameEvent>::empty());
    reveal_with_fuel(FrameRun::run, 2);
    reveal_with_fuel(FrameRun::sound_along, 2);
}

/// A frame comes due among `events` if the first of them is one, or if one
/// comes due among the rest.
proof fn has_frame_unfolds(events: Seq<FrameEvent>)
    requires
        events.len() > 0,
    ensures
        has_frame(events) <==> events.first() != FrameEvent::Cancel || has_frame(
            events.drop_first(),
        ),
{
    let later = events.drop_first();
    assert forall|event: FrameEvent|
        events.contains(event) <==> events.first() == event || later.contains(event) by {
        if later.contains(event) {
            let i = choose|i: int| 0 <= i < later.len() && later[i] == event;
            assert(events[i + 1] == event);
        }
        if events.first() == event {
            assert(events[0] == event);
        }
        if events.contains(event) {
            let i = choose|i: int| 0 <= i < events.len() && events[i] == event;
            if i > 0 {
                assert(later[i - 1] == event);
            }
        }
    }
}

/// While the loop is armed, every frame invokes the sink once and asks for
/// exactly one further frame, and leaves the host as it found it.
proof fn armed_frames(run: FrameRun, count: nat)
    requires
        run.armed(),
    ensures
        run.run(dues(count)) == (FrameRun {
            delivered: run.delivered + count,
            requested: run.requested + count,
            ..run
        }),
        run.host.sound() ==> run.sound_along(dues(count)),
    decreases count,
{
    if count > 0 {
        let next = run.step(FrameEvent::Due);
        assert(next.host.frames =~= run.host.frames);
        assert(next.host == run.host);
        assert(dues(count).first() == FrameEvent::Due);
        assert(dues(count).drop_first() =~= dues((count - 1) as nat));
        armed_frames(next, (count - 1) as nat);
    }
}

/// Once the loop is stopped, at most the one frame that was pending still
/// invokes the sink. It asks for no frame, and lets go of the callback
/// object.
proof fn stopped_frames(run: FrameRun, events: Seq<FrameEvent>)
    requires
        run.stopped(),
        run.host.frames.count(run.frames.callback) <= 1,
    ensures
        ({
            let end = run.run(events);
            let trailing = run.host.awaits_frame(run.frames.callback) && has_frame(events);
            &&& end.stopped()
            &&& end.frames == run.frames
            &&& end.requested == run.requested
            &&& end.delivered == run.delivered + if trailing { 1nat } else { 0nat }
            &&& end.host == if trailing { run.ended_host() } else { run.host }
            &&& run.host.sound() && run.ended_host().sound() ==> run.sound_along(events)
        }),
    decreases events.len(),
{
    if events.len() > 0 {
        let callback = run.frames.callback;
        let next = run.step(events.first());
        let later = events.drop_first();
        stopped_frames(next, later);
        has_frame_unfolds(events);
        assert(next.frames == run.frames);
        if events.first() != FrameEvent::Cancel && run.host.awaits_frame(callback) {
            assert(next.host == run.ended_host());
            assert(next.host.frames.count(callback) == 0);
            assert(next.ended_host() == next.host) by {
                assert(next.host.frames.remove(callback) =~= next.host.frames);
                assert(next.host.released.insert(callback) =~= next.host.released);
            }
        } else {
            assert(next.host == run.host);
        }
    }
}

/// The host of a frame subscription is sound while its frame is pending,
/// and sound again when the loop has ended and let go of its callback
/// object, if it was sound before and did not know the callback.
proof fn frame_hosts_are_sound(host: Host, subscription: AnimationFrame, callback: u64)
    requires
        host.sound(),
        host.fresh(callback),
    ensures
        host.perform(subscription.registration(callback)).sound(),
        (Host { released: host.released.insert(callback), ..host }).sound(),
{
    let active = host.perform(subscription.registration(callback));
    let ended = Host { released: host.released.insert(callback), ..host };
    assert forall|c: u64| active.released.contains(c) implies !active.refers_to(c) by {
        assert(!host.refers_to(c));
        assert(c != callback);
    }
    assert forall|c: u64| ended.released.contains(c) implies !ended.refers_to(c) by {
        assert(ended.refers_to(c) == host.refers_to(c));
    }
}

/// A frame subscription that is left alone invokes the sink once for every
/// frame, without end.
///
/// From the registration on, on a host that had no frame pending for
/// `callback`, `count` frames invoke the sink exactly `count` times, one
/// invocation for each frame. After every one of them the loop is armed
/// again with one frame pending, so the next frame finds its callback, and
/// the handle still owes the cleanup. The callback object is kept all the
/// while: a host that was sound and did not know the callback stays sound.
pub proof fn frames_keep_coming(
    host: Host,
    subscription: AnimationFrame,
    callback: u64,
    count: nat,
)
    requires
        !host.awaits_frame(callback),
    ensures
        ({
            let start = FrameRun::start(host, subscription, callback);
            let end = start.run(dues(count));
            &&& end.delivered == count
            &&& end.requested == count + 1
            &&& end.armed()
            &&& end.host == start.host
            &&& host.sound() && host.fresh(callback) ==> start.sound_along(dues(count))
        }),
{
    let start = FrameRun::start(host, subscription, callback);
    armed_frames(start, count);
    if host.sound() && host.fresh(callback) {
        frame_hosts_are_sound(host, subscription, callback);
    }
}

/// A cancellation between two frames lets the pending frame through and
/// ends the loop there.
///
/// Let the subscription run for `before` frames on a host that had no frame
/// pending for `callback`, and cancel it then, while the next frame is
/// asked for and has not come due. Whatever follows, the sink is invoked
/// once more if a frame still comes due, and never after that: the frame
/// that was pending fires, finds the flag up, asks for no further frame and
/// lets go of the callback object. So with a frame after the cancellation
/// there are `before + 1` invocations for `before + 1` requests, and the
/// host is left as it was before the registration, but for the callback
/// object that is now let go; further frames or cancellations change
/// nothing. No frame is asked for after the cancellation in any case. The
/// callback object is let go only when no frame is pending for it: a host
/// that was sound and did not know the callback is sound after every
/// event.
pub proof fn frames_end_after_cancel(
    host: Host,
    subscription: AnimationFrame,
    callback: u64,
    before: nat,
    rest: Seq<FrameEvent>,
)
    requires
        !host.awaits_frame(callback),
    ensures
        ({
            let start = FrameRun::start(host, subscription, callback);
            let events = dues(before) + seq![FrameEvent::Cancel] + rest;
            let end = start.run(events);
            let trailing = has_frame(rest);
            &&& end.stopped()
            &&& end.requested == before + 1
            &&& end.delivered == before + if trailing { 1nat } else { 0nat }
            &&& end.host.awaits_frame(callback) == !trailing
            &&& trailing ==> end.host == Host { released: host.released.insert(callback), ..host }
            &&& !trailing ==> end.host == start.host
            &&& host.sound() && host.fresh(callback) ==> start.sound_along(events)
        }),
{
    let start = FrameRun::start(host, subscription, callback);
    let cancel = seq![FrameEvent::Cancel];
    armed_frames(start, before);
    let running = start.run(dues(before));
    run_in_stretches(start, dues(before) + cancel, rest);
    run_in_stretches(start, dues(before), cancel);
    run_of_one(running, FrameEvent::Cancel);
    let halted = running.step(FrameEvent::Cancel);
    let cleanup = CleanupView::StopFrames { callback };
    assert(cleanup.requests() =~= Seq::<RequestView>::empty());
    assert(halted.host == start.host);
    stopped_frames(halted, rest);
    assert(host.frames.insert(callback).remove(callback) =~= host.frames);
    assert(halted.ended_host() == Host { released: host.released.insert(callback), ..host });
    if host.sound() && host.fresh(callback) {
        frame_hosts_are_sound(host, subscription, callback);
    }
}

/// A cancellation from inside the sink ends the loop with that very frame.
///
/// Let the subscription run for `before` frames on a host that had no frame
/// pending for `callback`, and let the sink of the next frame cancel the
/// handle while it runs. The callback reads the stop flag after the sink
/// has returned, so it finds the flag up at once: that frame asks for no
/// further frame and lets go of the callback object. There are
/// `before + 1` invocations for `before + 1` requests, no frame is pending
/// any more, and whatever follows changes nothing: the host is left as it
/// was before the registration, but for the callback object that is now let
/// go. A host that was sound and did not know the callback is sound after
/// every event.
pub proof fn frames_end_with_cancel_in_sink(
    host: Host,
    subscription: AnimationFrame,
    callback: u64,
    before: nat,
    rest: Seq<FrameEvent>,
)
    requires
        !host.awaits_frame(callback),
    ensures
        ({
            let start = FrameRun::start(host, subscription, callback);
            let events = dues(before) + seq![FrameEvent::CancelInSink] + rest;
            let end = start.run(events);
            &&& end.stopped()
            &&& end.requested == before + 1
            &&& end.delivered == before + 1
            &&& !end.host.awaits_frame(callback)
            &&& end.host == Host { released: host.released.insert(callback), ..host }
            &&& host.sound() && host.fresh(callback) ==> start.sound_along(events)
        }),
{
    let start = FrameRun::start(host, subscription, callback);
    let cancel = seq![FrameEvent::CancelInSink];
    armed_frames(start, before);
    let running = start.run(dues(before));
    run_in_stretches(start, dues(before) + cancel, rest);
    run_in_stretches(start, dues(before), cancel);
    run_of_one(running, FrameEvent::CancelInSink);
    let ended = running.step(FrameEvent::CancelInSink);
    let cleanup = CleanupView::StopFrames { callback };
    assert(cleanup.requests() =~= Seq::<RequestView>::empty());
    assert(host.frames.insert(callback).remove(callback) =~= host.frames);
    assert(ended.host == Host { released: host.released.insert(callback), ..host });
    stopped_frames(ended, rest);
    if host.sound() && host.fresh(callback) {
        frame_hosts_are_sound(host, subscription, callback);
        assert(ended.ended_host() == ended.host) by {
            assert(ended.host.frames.remove(callback) =~= ended.host.frames);
            assert(ended.host.released.insert(callback) =~= ended.host.released);
        }
    }
}

} // verus!
