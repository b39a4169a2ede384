//! The change watcher: handlers registered before the watch, notified in
//! registration order whenever another participant takes the clipboard, and
//! a one-shot token that ends the watch.
//!
//! The watch loop itself runs on the caller's connection: each round it
//! waits up to one poll interval for the stop signal, polls for an event if
//! none came, and hands both to [`ClipboardWatcherContext::on_tick`].

use vstd::prelude::*;
use std::sync::mpsc::{Receiver, Sender};
use crate::common::ClipboardHandler;
use crate::error::ClipboardError;

verus! {

#[verifier::external_type_specification]
#[verifier::external_body]
#[verifier::reject_recursive_types(T)]
pub struct ExSender<T>(Sender<T>);

#[verifier::external_type_specification]
#[verifier::external_body]
#[verifier::reject_recursive_types(T)]
pub struct ExReceiver<T>(Receiver<T>);

/// How long one round of the watch loop waits for the stop signal.
pub const POLL_INTERVAL_MS: u64 = 500;

/// Relies on `std::sync::mpsc::channel`: a new channel's two ends.
#[verifier::external_body]
fn stop_channel() -> (r: (Sender<()>, Receiver<()>)) {
    std::sync::mpsc::channel()
}

/// Relies on `Clone` of `Sender`: another sender into the same channel.
#[verifier::external_body]
fn another_sender(sender: &Sender<()>) -> (r: Sender<()>) {
    sender.clone()
}

/// Relies on `Sender::send`, which reports a closed channel as an error
/// rather than panicking; a watch that has ended no longer listens, and then
/// the signal is dropped.
#[verifier::external_body]
fn send_signal(sender: &Sender<()>)
    opens_invariants none
    no_unwind
{
    let _ = sender.send(());
}

/// Relies on `Receiver::recv_timeout`: whether a signal arrived within
/// `timeout_ms` milliseconds.
#[verifier::external_body]
fn signal_within(receiver: &Receiver<()>, timeout_ms: u64) -> (r: bool) {
    receiver.recv_timeout(std::time::Duration::from_millis(timeout_ms)).is_ok()
}

/// A token that ends a watch; it is used up by stopping.
pub struct WatcherShutdown {
    sender: Sender<()>,
}

impl WatcherShutdown {
    /// Signals the watch to end; it returns within one poll interval.
    /// Dropping the token does the same.
    pub fn stop(self) {
    }
}

impl Drop for WatcherShutdown {
    fn drop(&mut self)
        opens_invariants none
        no_unwind
    {
        send_signal(&self.sender);
    }
}

/// What a watch round saw on the connection.
#[derive(Clone, Copy, Debug, PartialEq, Eq, Structural)]
pub enum WatchEvent {
    /// Nothing was pending.
    Nothing,
    /// The owner of the clipboard selection changed.
    OwnerChanged,
    /// Any other event.
    Other,
}

/// What the watch loop does after a round.
#[derive(Clone, Copy, Debug, PartialEq, Eq, Structural)]
pub enum WatchStep {
    Continue,
    Stop,
}

/// Watching clipboard changes.
pub trait ClipboardWatcher<T: ClipboardHandler>: Send {
    /// Registers a handler, notified after those registered before it.
    fn add_handler(&mut self, handler: T) -> &mut Self;

    /// A token that ends the watch.
    fn get_shutdown_channel(&self) -> WatcherShutdown;
}

/// The state of a watch: its handlers and its stop channel.
pub struct ClipboardWatcherContext<T: ClipboardHandler> {
    handlers: Vec<T>,
    stop_signal: Sender<()>,
    stop_receiver: Receiver<()>,
    notified: Ghost<Seq<nat>>,
}

impl<T: ClipboardHandler> ClipboardWatcherContext<T> {
    /// The number of handlers registered.
    pub closed spec fn handler_count(&self) -> nat {
        self.handlers@.len()
    }

    /// The handlers notified so far, each by its registration index, in the
    /// order of notification.
    pub closed spec fn notifications(&self) -> Seq<nat> {
        self.notified@
    }

    /// A watch with no handlers.
    pub fn new() -> (r: Result<Self, ClipboardError>)
        ensures
            r is Ok,
            r matches Ok(w) ==> w.handler_count() == 0 && w.notifications() == Seq::<nat>::empty(),
    {
        let (tx, rx) = stop_channel();
        Ok(
            ClipboardWatcherContext {
                handlers: Vec::new(),
                stop_signal: tx,
                stop_receiver: rx,
                notified: Ghost(Seq::empty()),
            },
        )
    }

    /// Waits up to one poll interval for the stop signal; whether it came.
    pub fn wait_for_stop(&self) -> (r: bool) {
        signal_within(&self.stop_receiver, POLL_INTERVAL_MS)
    }

    /// Decides one round of the watch loop: it ends when the stop signal
    /// came; otherwise, on an owner change, every handler is notified once,
    /// in registration order.
    pub fn on_tick(&mut self, stopped: bool, event: WatchEvent) -> (r: WatchStep)
        ensures
            r == (if stopped {
                WatchStep::Stop
            } else {
                WatchStep::Continue
            }),
            final(self).handler_count() == old(self).handler_count(),
            !stopped && event == WatchEvent::OwnerChanged ==> final(self).notifications() == old(
                self,
            ).notifications() + Seq::new(old(self).handler_count(), |i: int| i as nat),
            stopped || event != WatchEvent::OwnerChanged ==> final(self).notifications() == old(
                self,
            ).notifications(),
    {
        if stopped {
            return WatchStep::Stop;
        }
        if event == WatchEvent::OwnerChanged {
            let ghost start = self.notified@;
            let n = self.handlers.len();
            let mut i: usize = 0;
            while i < n
                invariant
                    n == self.handlers@.len(),
                    i <= n,
                    self.notified@ =~= start + Seq::new(i as nat, |k: int| k as nat),
                decreases n - i,
            {
                self.handlers[i].on_clipboard_change();
                self.notified = Ghost(self.notified@.push(i as nat));
                i = i + 1;
            }
        }
        WatchStep::Continue
    }
}

impl<T: ClipboardHandler + Send> ClipboardWatcher<T> for ClipboardWatcherContext<T> {
    fn add_handler(&mut self, handler: T) -> (r: &mut Self)
        ensures
            r.handler_count() == old(self).handler_count() + 1,
            r.notifications() == old(self).notifications(),
            *final(self) == *final(r),
    {
        self.handlers.push(handler);
        self
    }

    fn get_shutdown_channel(&self) -> WatcherShutdown {
        WatcherShutdown { sender: another_sender(&self.stop_signal) }
    }
}

} // verus!
