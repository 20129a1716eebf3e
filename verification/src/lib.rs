//! A host-independent core for browser-style subscriptions.
//!
//! A subscription binds a long-lived event source of the host (an event on
//! the window, a recurring timer, the per-frame render tick) to a callback,
//! and hands back a one-shot handle whose cleanup detaches the source again.
//! Nothing here talks to a host: every function takes plain values and
//! returns the requests that an adapter has to carry out.
//!
//! An adapter activates a subscription in three steps. It makes the callback
//! object that will invoke the sink and picks an identity for it; it carries
//! out the [`Request`] that [`Subscription::subscribe`] gives in exchange for
//! the subscription; and it hands the host's answer to
//! [`Subscription::complete`], which gives the [`Unsubscribe`] handle. When
//! the handle is cancelled or disposed of, the adapter calls
//! [`Unsubscribe::cancel`] and carries out the requests of the [`Cleanup`]
//! that it gets, in their order. The handle gives the cleanup once, so the
//! source is detached once.
//!
//! The callback of a frame subscription consults a [`FrameLoop`] after it
//! has invoked the sink, and carries out what the loop asks for: the next
//! frame, or once the loop is stopped the release of the callback object.
//!
//! The module [`host`] holds a model of the host, and with it the laws that
//! tie a registration to its cleanup; the laws of the frame loop are in
//! [`frame`], and that of the handle in [`handle`].
pub mod frame;
pub mod handle;
pub mod host;
pub mod native;
pub mod subscription;

pub use frame::{FrameLoop, Phase};
pub use handle::{Cleanup, Unsubscribe};
pub use native::Request;
pub use subscription::{AnimationFrame, Interval, OnWindow, Pending, Subscription};
