//! When the bridge's timers go off.
//!
//! The initial fetch comes once, its delay after the bridge was put to work,
//! unless it is disabled. The true-up comes one interval after that moment, and
//! again one interval after each time it came due.

use vstd::prelude::*;

use crate::config::YolinkConfig;
use crate::run::Event;

verus! {

/// One of the two timers.
#[derive(Clone, Copy, Debug, PartialEq, Eq, Structural)]
pub enum Timer {
    InitialFetch,
    TrueUp,
}

/// Which timers are armed, and for how long, in seconds.
#[derive(Clone, Copy, Debug, PartialEq, Eq, Structural)]
pub struct Armed {
    /// Counted from when the bridge was put to work; `None` if not armed.
    pub initial_fetch: Option<u64>,
    /// Counted from when the bridge was put to work, and then from when this
    /// timer last came due. It is always armed.
    pub true_up: u64,
}

impl Armed {
    /// What is armed when the bridge is put to work.
    pub open spec fn at_first(cfg: YolinkConfig) -> Armed {
        Armed {
            initial_fetch: if cfg.initial_fetch_delay_secs == 0 {
                None
            } else {
                Some(cfg.initial_fetch_delay_secs)
            },
            true_up: cfg.poll_interval_secs,
        }
    }

    /// Whether a timer is armed.
    pub open spec fn is_armed(self, timer: Timer) -> bool {
        match timer {
            Timer::InitialFetch => self.initial_fetch is Some,
            Timer::TrueUp => true,
        }
    }

    /// What is armed once a timer has gone off: the initial fetch is not armed
    /// again, the true-up is.
    pub open spec fn past(self, timer: Timer) -> Armed {
        match timer {
            Timer::InitialFetch => Armed { initial_fetch: None, ..self },
            Timer::TrueUp => self,
        }
    }
}

/// The event that a timer stands for.
pub open spec fn is_event_of(event: Event, timer: Timer) -> bool {
    match timer {
        Timer::InitialFetch => event is InitialFetchDue,
        Timer::TrueUp => event is PollDue,
    }
}

/// The timers of a bridge at work.
#[derive(Debug)]
pub struct Schedule {
    armed: Armed,
}

impl View for Schedule {
    type V = Armed;

    closed spec fn view(&self) -> Armed {
        self.armed
    }
}

impl Schedule {
    /// The timers at the moment at which the bridge is put to work.
    pub fn new(cfg: &YolinkConfig) -> (schedule: Self)
        ensures
            schedule@ == Armed::at_first(*cfg),
    {
        Schedule {
            armed: Armed {
                initial_fetch: cfg.initial_fetch_delay(),
                true_up: cfg.poll_interval_secs,
            },
        }
    }

    /// Which timers are armed.
    pub fn armed(&self) -> (armed: Armed)
        ensures
            armed == self@,
    {
        self.armed
    }

    /// Takes note that a timer has gone off. The event is what the bridge has to
    /// react to; there is none for a timer that is not armed.
    pub fn fire(&mut self, timer: Timer) -> (event: Option<Event>)
        ensures
            final(self)@ == old(self)@.past(timer),
            event is Some <==> old(self)@.is_armed(timer),
            event is Some ==> is_event_of(event->0, timer),
    {
        match timer {
            Timer::InitialFetch => {
                if self.armed.initial_fetch.is_none() {
                    return None;
                }
                self.armed.initial_fetch = None;
                Some(Event::InitialFetchDue)
            },
            Timer::TrueUp => Some(Event::PollDue),
        }
    }
}

} // verus!
