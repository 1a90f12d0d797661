//! The signal that tells a process to shut down.
//!
//! A process that runs as init in its container gets no default handler for
//! `SIGTERM`: unless it installs one, the request is ignored and the runtime
//! kills it after a timeout. The shutdown signal stands for the handlers of
//! the watched requests. It is listening until the first of them arrives, or
//! until listening itself fails, and resolved from then on.

use vstd::prelude::*;

verus! {

/// A request to end the process.
#[derive(Debug, Clone, Copy, PartialEq, Eq, Structural)]
pub enum Signal {
    /// `SIGTERM`
    Term,
    /// `SIGINT`
    Int,
    /// `SIGQUIT`
    Quit,
}

/// Why the shutdown began. Which of the two it was, and which request, is
/// kept for the log only: each begins the same shutdown.
#[derive(Debug, Clone, Copy, PartialEq, Eq, Structural)]
pub enum Trigger {
    /// One of the watched requests arrived.
    Received(Signal),
    /// Listening for requests failed. Shutting down is the safe answer to a
    /// listener that may never report anything again.
    DeliveryError,
}

/// The requests that are watched, in the order in which their handlers are
/// installed.
pub open spec fn watched_signals() -> Seq<Signal> {
    seq![Signal::Term, Signal::Int, Signal::Quit]
}

/// The trigger that a signal in `state` is resolved with once `delivered`
/// arrives: the one it had, if it had one, and else `delivered`.
pub open spec fn resolved(state: Option<Trigger>, delivered: Trigger) -> Trigger {
    match state {
        Some(first) => first,
        None => delivered,
    }
}

/// A single-shot notification that the process is to shut down.
#[derive(Debug)]
pub struct ShutdownSignal {
    trigger: Option<Trigger>,
}

impl View for ShutdownSignal {
    type V = Option<Trigger>;

    /// The trigger that resolved the signal, or nothing while it listens.
    closed spec fn view(&self) -> Option<Trigger> {
        self.trigger
    }
}

impl ShutdownSignal {
    /// The requests whose handlers have to be installed before the signal
    /// listens.
    pub fn watched() -> (signals: Vec<Signal>)
        ensures
            signals@ == watched_signals(),
    {
        let mut signals: Vec<Signal> = Vec::new();
        signals.push(Signal::Term);
        signals.push(Signal::Int);
        signals.push(Signal::Quit);
        signals
    }

    /// The signal as it is once the handlers are installed: listening.
    pub fn register() -> (signal: Self)
        ensures
            signal@ is None,
    {
        ShutdownSignal { trigger: None }
    }

    /// Whether the signal has resolved.
    pub fn is_resolved(&self) -> (yes: bool)
        ensures
            yes == self@.is_some(),
    {
        self.trigger.is_some()
    }

    /// The trigger, once the signal has resolved. Whoever finds one here has
    /// nothing to wait for.
    pub fn trigger(&self) -> (trigger: Option<Trigger>)
        ensures
            trigger == self@,
    {
        self.trigger
    }

    /// Ends a wait with what the listener `delivered`. The first delivery
    /// resolves the signal; a later one changes nothing. Returns the trigger
    /// the signal is resolved with.
    pub fn resolve(&mut self, delivered: Trigger) -> (trigger: Trigger)
        ensures
            trigger == resolved(old(self)@, delivered),
            final(self)@ == Some(trigger),
    {
        match self.trigger {
            Some(first) => first,
            None => {
                self.trigger = Some(delivered);
                delivered
            },
        }
    }
}

/// Single-shot resolution. The first delivery resolves a listening signal,
/// and no delivery after it changes what the signal is resolved with.
pub proof fn lemma_resolves_once(state: Option<Trigger>, first: Trigger, second: Trigger)
    ensures
        state is None ==> resolved(state, first) == first,
        resolved(Some(resolved(state, first)), second) == resolved(state, first),
{
}

} // verus!
