use std::cell::RefCell;
use std::rc::Rc;
use subscription::{
    AnimationFrame, Cleanup, FrameLoop, Interval, OnWindow, Phase, Request, Subscription,
    Unsubscribe,
};

/// A stand-in for the host: it carries requests out on plain lists and
/// counts what was registered and what was taken back.
struct Double {
    listeners: Vec<(String, u64)>,
    timers: Vec<(i32, u64)>,
    frames: Vec<u64>,
    released: Vec<u64>,
    next_timer: i32,
    registered: usize,
    deregistered: usize,
    frame_requests: usize,
}

impl Double {
    fn new() -> Rc<RefCell<Double>> {
        Rc::new(RefCell::new(Double {
            listeners: Vec::new(),
            timers: Vec::new(),
            frames: Vec::new(),
            released: Vec::new(),
            next_timer: 1,
            registered: 0,
            deregistered: 0,
            frame_requests: 0,
        }))
    }

    fn refers_to(&self, callback: u64) -> bool {
        self.listeners.iter().any(|(_, c)| *c == callback)
            || self.timers.iter().any(|(_, c)| *c == callback)
            || self.frames.contains(&callback)
    }

    fn perform(&mut self, request: &Request) -> Option<i32> {
        match request {
            Request::AddListener { name, callback } => {
                let entry = (name.clone(), *callback);
                if !self.listeners.contains(&entry) {
                    self.listeners.push(entry);
                }
                self.registered += 1;
                None
            }
            Request::RemoveListener { name, callback } => {
                let before = self.listeners.len();
                self.listeners.retain(|(n, c)| !(n == name && c == callback));
                self.deregistered += before - self.listeners.len();
                None
            }
            Request::SetInterval { callback, ms: _ } => {
                let id = self.next_timer;
                self.next_timer += 1;
                self.timers.push((id, *callback));
                self.registered += 1;
                Some(id)
            }
            Request::ClearInterval { timer } => {
                let before = self.timers.len();
                self.timers.retain(|(id, _)| id != timer);
                self.deregistered += before - self.timers.len();
                None
            }
            Request::RequestFrame { callback } => {
                self.frames.push(*callback);
                self.frame_requests += 1;
                None
            }
            Request::Release { callback } => {
                assert!(!self.refers_to(*callback), "a callback was let go while the host names it");
                self.released.push(*callback);
                None
            }
        }
    }

    /// The callbacks that the host invokes when `name` fires.
    fn fire(&self, name: &str) -> Vec<u64> {
        let invoked: Vec<u64> =
            self.listeners.iter().filter(|(n, _)| n == name).map(|(_, c)| *c).collect();
        for callback in &invoked {
            assert!(!self.released.contains(callback));
        }
        invoked
    }

    /// The callback that the host invokes when `timer` ticks.
    fn tick(&self, timer: i32) -> Option<u64> {
        let invoked = self.timers.iter().find(|(id, _)| *id == timer).map(|(_, c)| *c);
        if let Some(callback) = invoked {
            assert!(!self.released.contains(&callback));
        }
        invoked
    }

    /// The callbacks that the host invokes at the next frame.
    fn frame(&mut self) -> Vec<u64> {
        std::mem::take(&mut self.frames)
    }
}

/// An active subscription on the double. Dropping it disposes of the
/// handle.
struct Active {
    handle: Unsubscribe<Cleanup>,
    host: Rc<RefCell<Double>>,
    frames: Option<Rc<RefCell<FrameLoop>>>,
}

impl Active {
    fn cancel(&mut self) {
        if let Some(cleanup) = self.handle.cancel() {
            if let Some(frames) = &self.frames {
                frames.borrow_mut().cancel(&cleanup);
            }
            for request in cleanup.requests() {
                self.host.borrow_mut().perform(&request);
            }
        }
    }
}

impl Drop for Active {
    fn drop(&mut self) {
        self.cancel();
    }
}

fn listen(host: &Rc<RefCell<Double>>, name: &str, callback: u64) -> Active {
    let (request, pending) = OnWindow::new(name).subscribe(callback);
    host.borrow_mut().perform(&request);
    Active { handle: OnWindow::complete(pending, ()), host: host.clone(), frames: None }
}

fn every(host: &Rc<RefCell<Double>>, ms: i32, callback: u64) -> (Active, i32) {
    let (request, pending) = Interval::new(ms).subscribe(callback);
    let timer = host.borrow_mut().perform(&request).unwrap();
    let active =
        Active { handle: Interval::complete(pending, timer), host: host.clone(), frames: None };
    (active, timer)
}

fn animate(host: &Rc<RefCell<Double>>, callback: u64) -> (Active, Rc<RefCell<FrameLoop>>) {
    let (request, pending) = AnimationFrame::new().subscribe(callback);
    let frames = Rc::new(RefCell::new(FrameLoop::new(callback)));
    host.borrow_mut().perform(&request);
    let active = Active {
        handle: AnimationFrame::complete(pending, ()),
        host: host.clone(),
        frames: Some(frames.clone()),
    };
    (active, frames)
}

/// One frame on the double: every pending callback fires, invokes the sink
/// and then asks the loop what to do next. Gives the number of sink
/// invocations.
fn frame(host: &Rc<RefCell<Double>>, frames: &Rc<RefCell<FrameLoop>>) -> usize {
    let due = host.borrow_mut().frame();
    let mut delivered = 0;
    for callback in due {
        assert_eq!(callback, frames.borrow().callback());
        delivered += 1;
        let next = frames.borrow().on_frame();
        host.borrow_mut().perform(&next);
    }
    delivered
}

#[test]
fn window_events_arrive_in_order() {
    let host = Double::new();
    let _active = listen(&host, "tick", 1);
    let mut sink: Vec<&str> = Vec::new();
    for payload in ["A", "B", "C"] {
        for callback in host.borrow().fire("tick") {
            assert_eq!(callback, 1);
            sink.push(payload);
        }
    }
    assert_eq!(sink, vec!["A", "B", "C"]);
}

#[test]
fn other_events_do_not_reach_the_listener() {
    let host = Double::new();
    let _active = listen(&host, "tick", 1);
    assert_eq!(host.borrow().fire("tock"), Vec::<u64>::new());
    assert_eq!(host.borrow().fire("tick"), vec![1]);
}

#[test]
fn cancelling_a_listener_detaches_it_at_once() {
    let host = Double::new();
    let mut active = listen(&host, "tick", 1);
    assert_eq!(host.borrow().fire("tick"), vec![1]);
    active.cancel();
    assert_eq!(host.borrow().fire("tick"), Vec::<u64>::new());
    assert_eq!(host.borrow().released, vec![1]);
}

#[test]
fn cancelling_a_listener_leaves_its_neighbours() {
    let host = Double::new();
    let _first = listen(&host, "tick", 1);
    let mut second = listen(&host, "tick", 2);
    let _third = listen(&host, "tock", 3);
    second.cancel();
    assert_eq!(host.borrow().fire("tick"), vec![1]);
    assert_eq!(
        host.borrow().listeners,
        vec![(String::from("tick"), 1), (String::from("tock"), 3)]
    );
}

#[test]
fn cancelling_again_changes_nothing() {
    let host = Double::new();
    let mut listener = listen(&host, "tick", 1);
    let (mut timer, _) = every(&host, 10, 2);
    let (mut animation, frames) = animate(&host, 3);
    for _ in 0..4 {
        listener.cancel();
        timer.cancel();
        animation.cancel();
    }
    assert_eq!(host.borrow().registered, 2);
    assert_eq!(host.borrow().deregistered, 2);
    assert_eq!(host.borrow().released, vec![1, 2]);
    assert_eq!(frames.borrow().phase(), Phase::Stopped);
    drop(listener);
    drop(timer);
    drop(animation);
    assert_eq!(host.borrow().deregistered, 2);
    assert_eq!(host.borrow().released, vec![1, 2]);
}

#[test]
fn dropping_a_listener_handle_detaches_it_once() {
    let host = Double::new();
    {
        let _active = listen(&host, "resize", 5);
        assert_eq!(host.borrow().registered, 1);
        assert_eq!(host.borrow().deregistered, 0);
    }
    assert_eq!(host.borrow().registered, 1);
    assert_eq!(host.borrow().deregistered, 1);
    assert!(host.borrow().listeners.is_empty());
}

#[test]
fn dropping_an_interval_handle_stops_the_timer_once() {
    let host = Double::new();
    {
        let (_active, timer) = every(&host, 100, 5);
        assert_eq!(host.borrow().tick(timer), Some(5));
    }
    assert_eq!(host.borrow().registered, 1);
    assert_eq!(host.borrow().deregistered, 1);
    assert!(host.borrow().timers.is_empty());
    assert_eq!(host.borrow().released, vec![5]);
}

#[test]
fn dropping_a_frame_handle_ends_the_loop() {
    let host = Double::new();
    let frames = {
        let (_active, frames) = animate(&host, 5);
        assert_eq!(frame(&host, &frames), 1);
        frames
    };
    assert_eq!(frames.borrow().phase(), Phase::Stopped);
    assert!(host.borrow().released.is_empty());
    assert_eq!(frame(&host, &frames), 1);
    assert!(host.borrow().frames.is_empty());
    assert_eq!(host.borrow().released, vec![5]);
    assert_eq!(frame(&host, &frames), 0);
    assert_eq!(host.borrow().frame_requests, 2);
    assert_eq!(host.borrow().released, vec![5]);
}

#[test]
fn replacing_a_subscription_every_round_leaks_nothing() {
    let host = Double::new();
    let mut current = listen(&host, "tick", 0);
    for round in 1..20 {
        current = listen(&host, "tick", round);
        assert_eq!(host.borrow().listeners.len(), 1);
    }
    drop(current);
    assert_eq!(host.borrow().registered, 20);
    assert_eq!(host.borrow().deregistered, 20);
}

#[test]
fn interval_ticks_until_it_is_cancelled() {
    let host = Double::new();
    let (mut active, timer) = every(&host, 40, 9);
    let mut sink = 0;
    for _ in 0..3 {
        if host.borrow().tick(timer) == Some(9) {
            sink += 1;
        }
    }
    assert_eq!(sink, 3);
    active.cancel();
    for _ in 0..10 {
        if host.borrow().tick(timer).is_some() {
            sink += 1;
        }
    }
    assert_eq!(sink, 3);
}

#[test]
fn interval_cleanup_stops_its_own_timer_only() {
    let host = Double::new();
    let (_first, first_timer) = every(&host, 40, 1);
    let (mut second, second_timer) = every(&host, 40, 2);
    assert_ne!(first_timer, second_timer);
    second.cancel();
    assert_eq!(host.borrow().tick(first_timer), Some(1));
    assert_eq!(host.borrow().tick(second_timer), None);
}

#[test]
fn frames_keep_coming_while_armed() {
    let host = Double::new();
    let (_active, frames) = animate(&host, 7);
    let mut sink = 0;
    for _ in 0..6 {
        assert_eq!(host.borrow().frames, vec![7]);
        sink += frame(&host, &frames);
    }
    assert_eq!(sink, 6);
    assert_eq!(host.borrow().frame_requests, 7);
    assert_eq!(frames.borrow().phase(), Phase::Armed);
    assert!(host.borrow().released.is_empty());
}

#[test]
fn cancelled_frames_end_with_the_pending_frame() {
    let host = Double::new();
    let (mut active, frames) = animate(&host, 7);
    let mut sink = 0;
    for _ in 0..3 {
        sink += frame(&host, &frames);
    }
    assert_eq!(sink, 3);
    active.cancel();
    assert_eq!(host.borrow().frames, vec![7]);
    sink += frame(&host, &frames);
    assert_eq!(sink, 4);
    assert!(host.borrow().frames.is_empty());
    assert_eq!(host.borrow().released, vec![7]);
    for _ in 0..5 {
        sink += frame(&host, &frames);
    }
    assert_eq!(sink, 4);
    assert_eq!(host.borrow().frame_requests, 4);
    assert_eq!(host.borrow().released, vec![7]);
}

#[test]
fn cancelling_inside_the_sink_ends_the_loop_with_that_frame() {
    let host = Double::new();
    let (mut active, frames) = animate(&host, 7);
    let mut sink = 0;
    for _ in 0..2 {
        sink += frame(&host, &frames);
    }
    // The third frame: the host invokes the callback, and the sink cancels
    // the handle before the callback asks the loop.
    let due = host.borrow_mut().frame();
    assert_eq!(due, vec![7]);
    sink += 1;
    active.cancel();
    let next = frames.borrow().on_frame();
    assert_eq!(next, Request::Release { callback: 7 });
    host.borrow_mut().perform(&next);
    assert!(host.borrow().frames.is_empty());
    for _ in 0..5 {
        sink += frame(&host, &frames);
    }
    assert_eq!(sink, 3);
    assert_eq!(host.borrow().frame_requests, 3);
    assert_eq!(host.borrow().released, vec![7]);
}

#[test]
fn a_stopped_frame_loop_lets_go_of_its_sink() {
    let host = Double::new();
    let sink: Rc<dyn Fn(())> = Rc::new(|_| {});
    let held_before = Rc::strong_count(&sink);
    // The callback object holds a clone of the sink and lives in a slot
    // that is emptied when the loop asks for its release.
    let slot: Rc<RefCell<Option<Box<dyn Fn()>>>> = Rc::new(RefCell::new(None));
    let send = sink.clone();
    *slot.borrow_mut() = Some(Box::new(move || send(())));
    assert_eq!(Rc::strong_count(&sink), held_before + 1);

    let (mut active, frames) = animate(&host, 7);
    let fire = |host: &Rc<RefCell<Double>>| {
        let due = host.borrow_mut().frame();
        for callback in due {
            assert_eq!(callback, 7);
            let object = slot.borrow_mut().take().unwrap();
            object();
            let next = frames.borrow().on_frame();
            host.borrow_mut().perform(&next);
            match next {
                Request::Release { .. } => drop(object),
                _ => *slot.borrow_mut() = Some(object),
            }
        }
    };
    fire(&host);
    fire(&host);
    assert_eq!(Rc::strong_count(&sink), held_before + 1);
    active.cancel();
    assert_eq!(Rc::strong_count(&sink), held_before + 1);
    fire(&host);
    assert!(slot.borrow().is_none());
    assert_eq!(Rc::strong_count(&sink), held_before);
    fire(&host);
    assert_eq!(Rc::strong_count(&sink), held_before);
}

#[test]
fn a_deferred_action_runs_once_when_its_handle_is_dropped() {
    struct Guard(Unsubscribe<Box<dyn FnMut()>>);
    impl Drop for Guard {
        fn drop(&mut self) {
            if let Some(mut action) = self.0.cancel() {
                action();
            }
        }
    }
    let runs = Rc::new(RefCell::new(0));
    let counted = runs.clone();
    let guard = Guard(Unsubscribe::new(Box::new(move || *counted.borrow_mut() += 1)));
    assert_eq!(*runs.borrow(), 0);
    drop(guard);
    assert_eq!(*runs.borrow(), 1);
}
