//! What the timers do over a whole run.

use vstd::prelude::*;

use crate::config::YolinkConfig;
use crate::run::Event;
use crate::schedule;
use crate::schedule::{Armed, Timer};

verus! {

/// What is armed after a number of timers have gone off.
pub open spec fn after(cfg: YolinkConfig, fired: Seq<Timer>) -> Armed
    decreases fired.len(),
{
    if fired.len() == 0 {
        Armed::at_first(cfg)
    } else {
        after(cfg, fired.drop_last()).past(fired.last())
    }
}

/// The initial fetch comes due at most once, and not at all where it is
/// disabled: it is armed, for the configured delay, exactly until it has come
/// due.
pub proof fn initial_fetches_come_once(cfg: YolinkConfig, fired: Seq<Timer>)
    ensures
        after(cfg, fired).initial_fetch == if cfg.initial_fetch_delay_secs == 0 || fired.contains(
            Timer::InitialFetch,
        ) {
            None
        } else {
            Some(cfg.initial_fetch_delay_secs)
        },
    decreases fired.len(),
{
    if fired.len() > 0 {
        let init = fired.drop_last();
        initial_fetches_come_once(cfg, init);
        if init.contains(Timer::InitialFetch) {
            let k = init.index_of(Timer::InitialFetch);
            assert(fired[k] == Timer::InitialFetch);
        }
        if fired.contains(Timer::InitialFetch) && fired.last() != Timer::InitialFetch {
            let k = fired.index_of(Timer::InitialFetch);
            assert(init[k] == Timer::InitialFetch);
        }
        if fired.last() == Timer::InitialFetch {
            assert(fired[fired.len() - 1] == Timer::InitialFetch);
        }
    }
}

/// The true-up is always armed for the configured interval, from the moment at
/// which the bridge is put to work.
pub proof fn true_ups_keep_their_interval(cfg: YolinkConfig, fired: Seq<Timer>)
    ensures
        after(cfg, fired).is_armed(Timer::TrueUp),
        after(cfg, fired).true_up == cfg.poll_interval_secs,
    decreases fired.len(),
{
    if fired.len() > 0 {
        true_ups_keep_their_interval(cfg, fired.drop_last());
    }
}

/// Each timer brings its own event, and only the initial fetch is disarmed by
/// going off.
pub proof fn timers_bring_their_event(armed: Armed, timer: Timer, event: Event)
    requires
        schedule::is_event_of(event, timer),
    ensures
        timer is InitialFetch ==> event is InitialFetchDue,
        timer is TrueUp ==> event is PollDue,
        armed.past(Timer::InitialFetch).initial_fetch is None,
        armed.past(Timer::InitialFetch).true_up == armed.true_up,
        armed.past(Timer::TrueUp) == armed,
        armed.is_armed(Timer::InitialFetch) <==> armed.initial_fetch is Some,
        armed.is_armed(Timer::TrueUp),
{
}

} // verus!
