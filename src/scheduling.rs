//! What the scheduling rules of the chat box guarantee over any run of events.
use vstd::prelude::*;

use crate::chat_type::ComposeError;
use crate::models::NewMessageRequest;
use crate::sync::{event_of, next_fetch_state, no_schedule, step, Event, FetchState, Msg, Schedule, SyncFlags};

verus! {

/// The scheduling flags beside what is really outstanding in the world: the
/// fetches in flight and the refresh timers armed.
pub struct Outstanding {
    pub flags: SyncFlags,
    pub fetches: int,
    pub timers: int,
}

/// The world after event `e`: a completed fetch and a fired timer are used
/// up, and whatever `e` schedules is added.
pub open spec fn advance(o: Outstanding, e: Event) -> Outstanding {
    let (f, s) = step(o.flags, e);
    Outstanding {
        flags: f,
        fetches: o.fetches - (if e is FetchCompleted { 1int } else { 0 }) + (if s.fetch_now { 1int } else { 0 }),
        timers: o.timers - (if e is RefreshDue { 1int } else { 0 }) + (if s.arm_refresh { 1int } else { 0 }),
    }
}

/// Whether `e` can happen in `o`: a fetch completes only while one is in
/// flight, and a timer fires only while one is armed.
pub open spec fn can_happen(o: Outstanding, e: Event) -> bool {
    &&& e is FetchCompleted ==> o.fetches > 0
    &&& e is RefreshDue ==> o.timers > 0
}

/// The world after the events of `es`, one after the other.
pub open spec fn replay(o: Outstanding, es: Seq<Event>) -> Outstanding
    decreases es.len(),
{
    if es.len() == 0 {
        o
    } else {
        replay(advance(o, es[0]), es.drop_first())
    }
}

/// Whether each event of `es` can happen when its turn comes, and, where
/// `no_early_fetch` holds, no fetch is asked for while a refresh timer is armed.
pub open spec fn deliverable(o: Outstanding, es: Seq<Event>, no_early_fetch: bool) -> bool
    decreases es.len(),
{
    if es.len() == 0 {
        true
    } else {
        &&& can_happen(o, es[0])
        &&& no_early_fetch && es[0] is RequestFetch ==> o.timers == 0
        &&& deliverable(advance(o, es[0]), es.drop_first(), no_early_fetch)
    }
}

/// The fetch flag tells the truth: it is set exactly while the one fetch in
/// flight is, and there is never a second.
pub open spec fn fetch_flag_true(o: Outstanding) -> bool {
    &&& o.fetches == 0 || o.fetches == 1
    &&& o.flags.fetching <==> o.fetches == 1
}

/// The pending flag tells the truth: it is set exactly while the one armed
/// refresh timer is, and there is never a second.
pub open spec fn pending_flag_true(o: Outstanding) -> bool {
    &&& o.timers == 0 || o.timers == 1
    &&& o.flags.pending <==> o.timers == 1
}

/// At most one fetch is in flight: asking for a fetch while one is in flight
/// starts none, and over any run of events in which a fetch completes only
/// while one is in flight, the fetch flag keeps telling the truth.
pub proof fn lemma_one_fetch_in_flight(o: Outstanding, es: Seq<Event>)
    requires
        fetch_flag_true(o),
        deliverable(o, es, false),
    ensures
        o.flags.fetching ==> !step(o.flags, Event::RequestFetch).1.fetch_now,
        o.flags.fetching ==> !step(o.flags, Event::RefreshDue).1.fetch_now,
        fetch_flag_true(replay(o, es)),
    decreases es.len(),
{
    if es.len() > 0 {
        lemma_one_fetch_in_flight(advance(o, es[0]), es.drop_first());
    }
}

/// At most one refresh timer is armed: over any run of toggles, completed
/// fetches, timer firings and sends, in which no fetch is asked for while a
/// timer is armed, the pending flag is set exactly while one timer is armed;
/// and only a fired timer or an asked-for fetch clears it.
pub proof fn lemma_one_pending_timer(o: Outstanding, es: Seq<Event>)
    requires
        pending_flag_true(o),
        deliverable(o, es, true),
    ensures
        pending_flag_true(replay(o, es)),
        forall|e: Event|
            o.flags.pending && !(#[trigger] step(o.flags, e)).0.pending ==> e is RefreshDue
                || e is RequestFetch,
    decreases es.len(),
{
    if es.len() > 0 {
        lemma_one_pending_timer(advance(o, es[0]), es.drop_first());
    }
}

/// A send is followed by exactly one fetch, after the settle delay: a
/// submitted message starts no fetch and arms nothing, and its successful
/// send asks for one delayed fetch and nothing else, whatever the flags.
pub proof fn lemma_submit_then_refresh(f: SyncFlags, request: NewMessageRequest)
    ensures
        event_of(&Msg::SubmitMessage(Ok(request))) is Submit,
        event_of(&Msg::MessageSent(Ok(()))) is SendSucceeded,
        step(f, Event::Submit) == (f, no_schedule()),
        step(f, Event::SendSucceeded) == (f, Schedule { fetch_after_settle: true, ..no_schedule() }),
{
}

/// A compose form that could not be read leaves everything as it was: the
/// flags, what is scheduled, and the snapshot.
pub proof fn lemma_refused_form_changes_nothing(f: SyncFlags, s: FetchState, e: ComposeError)
    ensures
        event_of(&Msg::SubmitMessage(Err(e))) is Submit,
        step(f, Event::Submit) == (f, no_schedule()),
        next_fetch_state(s, Msg::SubmitMessage(Err(e))) == s,
{
}

} // verus!
