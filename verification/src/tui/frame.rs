//! The decisions of one frame of the terminal loop: fold in the events the
//! agent sent, fold in the key read (if any), and settle which cancel handle
//! to keep.  Drawing, polling the terminal and starting turns happen at the
//! edge of the program, between these calls.

use vstd::prelude::*;
use crate::agent::event::AgentEvent;
use crate::agent::loop_state::AgentEventView;
use crate::bridge::cancel::Canceller;
use crate::tui::app::{AppEffect, AppState, AppView, Mode, agent_event_spec, key_fits, key_spec};
use crate::tui::key::{InputEvent, action_of, lift};

verus! {

/// The views of a sequence of agent events.
pub open spec fn agent_events_view(es: Seq<AgentEvent>) -> Seq<AgentEventView> {
    es.map_values(|e: AgentEvent| e@)
}

/// `t` is what `s` becomes once each of `es` is applied in turn.
pub open spec fn agent_events_spec(s: AppView, es: Seq<AgentEventView>, t: AppView) -> bool
    decreases es.len(),
{
    if es.len() == 0 {
        t == s
    } else {
        exists|m: AppView|
            agent_events_spec(s, es.drop_last(), m) && #[trigger] agent_event_spec(m, es.last(), t)
    }
}

proof fn lemma_events_step(s: AppView, es: Seq<AgentEventView>, m: AppView, e: AgentEventView, t: AppView)
    requires
        agent_events_spec(s, es, m),
        agent_event_spec(m, e, t),
    ensures
        agent_events_spec(s, es.push(e), t),
{
    assert(es.push(e).drop_last() =~= es);
    assert(es.push(e).last() == e);
}

/// Apply, oldest first, the events the agent sent since the last frame.
pub fn apply_agent_events(app: AppState, events: Vec<AgentEvent>) -> (r: AppState)
    ensures
        agent_events_spec(app@, agent_events_view(events@), r@),
{
    let ghost s0 = app@;
    let ghost all = agent_events_view(events@);
    let total: usize = events.len();
    let ghost n = total as nat;
    let mut events = events;
    let mut app = app;
    let mut i: usize = 0;
    proof {
        assert(all.subrange(0, 0) =~= Seq::<AgentEventView>::empty());
    }
    while events.len() > 0
        invariant
            n == all.len(),
            n <= usize::MAX,
            i + events@.len() == n,
            agent_events_view(events@) == all.subrange(i as int, n as int),
            agent_events_spec(s0, all.subrange(0, i as int), app@),
        decreases events@.len(),
    {
        let ghost before = app@;
        let ghost rest = events@;
        let e = events.remove(0);
        proof {
            assert(e@ == all[i as int]) by {
                assert(agent_events_view(rest)[0] == all.subrange(i as int, n as int)[0]);
            }
            assert(events@ =~= rest.subrange(1, rest.len() as int));
            assert forall|k: int| 0 <= k < events@.len() implies #[trigger] agent_events_view(events@)[k]
                == all.subrange(i + 1, n as int)[k] by {
                assert(agent_events_view(rest)[k + 1] == all.subrange(i as int, n as int)[k + 1]);
            }
            assert(agent_events_view(events@) =~= all.subrange(i + 1, n as int));
        }
        app = app.apply_agent_event(e);
        proof {
            let pre = all.subrange(0, i as int);
            let post = all.subrange(0, i + 1);
            assert(post.drop_last() =~= pre);
            assert(post.last() == all[i as int]);
            assert(post =~= pre.push(all[i as int]));
            lemma_events_step(s0, pre, before, all[i as int], app@);
        }
        i = i + 1;
    }
    proof {
        assert(all.subrange(0, n as int) =~= all);
    }
    app
}

/// Fold the input read this frame, if any, into the state.  Without input
/// the state is unchanged and nothing is to be done.
pub fn frame_key(app: AppState, input: Option<&InputEvent>) -> (r: (AppState, Option<AppEffect>))
    requires
        input matches Some(e) ==> key_fits(app@, action_of(*e)),
    ensures
        match input {
            Some(e) => (r.0@, r.1) == key_spec(app@, action_of(*e)),
            None => r.0@ == app@ && r.1 is None,
        },
{
    match input {
        Some(e) => app.apply_key(lift(e)),
        None => (app, None),
    }
}

/// The cancel handle to keep after a frame's effect, and whether the handle
/// in hand was signalled.  Cancelling (Esc, or quitting while a turn
/// streams) signals the handle in hand, so that the producer stops, and
/// keeps it; sending swaps in the handle of the turn just started;
/// otherwise the handle in hand is kept.  Whatever the effect, a handle is
/// kept only while the state is streaming, so that a dropped handle tells
/// the producer to stop.
pub fn settle_canceller(
    effect: Option<AppEffect>,
    current: Option<Canceller>,
    started: Option<Canceller>,
    mode: Mode,
) -> (r: (Option<Canceller>, bool))
    ensures
        r.1 == (effect == Some(AppEffect::SignalCancel) && current is Some),
        mode != Mode::Streaming ==> r.0 is None,
        mode == Mode::Streaming ==> r.0 == (match effect {
            Some(AppEffect::SendInput) => started,
            _ => current,
        }),
{
    let mut signalled = false;
    let kept = match effect {
        Some(AppEffect::SignalCancel) => {
            match &current {
                Some(c) => {
                    c.signal();
                    signalled = true;
                },
                None => {},
            }
            current
        },
        Some(AppEffect::SendInput) => started,
        None => current,
    };
    if mode == Mode::Streaming {
        (kept, signalled)
    } else {
        (None, signalled)
    }
}

} // verus!
