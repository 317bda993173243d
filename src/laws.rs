use vstd::prelude::*;
use crate::dispatch::{
    deregistration_step, is_fresh, is_job_created, is_job_responded, is_live, job_log_step,
    log_created, log_responded, reaches_quorum, registration_step, ChainLog, ListenerView, TaskView,
};
use crate::word::Word;

verus! {

/// A log as it reaches the listener, by the stream it came on.
pub enum ListenerEvent {
    Registration(ChainLog),
    Job(ChainLog),
    Deregistration(ChainLog),
}

pub open spec fn event_step(s: ListenerView, me: Seq<u8>, quorum: u8, e: ListenerEvent) -> ListenerView {
    match e {
        ListenerEvent::Registration(log) => registration_step(s, log),
        ListenerEvent::Job(log) => job_log_step(s, me, quorum, log).0,
        ListenerEvent::Deregistration(log) => deregistration_step(s, log),
    }
}

/// The state after a sequence of events, in order.
pub open spec fn run_events(s: ListenerView, me: Seq<u8>, quorum: u8, es: Seq<ListenerEvent>) -> ListenerView
    decreases es.len(),
{
    if es.len() == 0 {
        s
    } else {
        event_step(run_events(s, me, quorum, es.drop_last()), me, quorum, es.last())
    }
}

/// A retracted log (or one whose retraction flag is absent) changes no state
/// and hands out no task, on any of the three streams.
pub proof fn lemma_retracted_log_is_ignored(s: ListenerView, me: Seq<u8>, quorum: u8, log: ChainLog)
    requires
        !is_live(log),
    ensures
        job_log_step(s, me, quorum, log) == (s, Seq::<TaskView>::empty()),
        registration_step(s, log) == s,
        deregistration_step(s, log) == s,
{
}

/// A fresh job-created log that decodes hands out exactly one timeout watch,
/// and one execution exactly when the node is among the selected executors.
pub proof fn lemma_created_job_tasks(s: ListenerView, me: Seq<u8>, quorum: u8, log: ChainLog)
    requires
        is_fresh(s, log),
        is_job_created(log),
        log_created(log, me) is Some,
    ensures
        ({
            let c = log_created(log, me)->0;
            let ts = job_log_step(s, me, quorum, log).1;
            &&& ts.len() == (if c.selected { 2int } else { 1int })
            &&& ts[0] == (TaskView::Timeout { job_id: c.job_id, deadline: c.deadline })
            &&& c.selected ==> ts[1] is Execute && ts[1]->Execute_job_id == c.job_id
            &&& job_log_step(s, me, quorum, log).0.running.contains(c.job_id)
        }),
{
}

/// Replaying a job-created log whose block is not behind the cursor leaves the
/// state as the first delivery left it.
pub proof fn lemma_replayed_creation_is_idempotent(s: ListenerView, me: Seq<u8>, quorum: u8, log: ChainLog)
    requires
        is_fresh(s, log),
        is_job_created(log),
    ensures
        job_log_step(job_log_step(s, me, quorum, log).0, me, quorum, log).0 == job_log_step(s, me, quorum, log).0,
{
    let s1 = job_log_step(s, me, quorum, log).0;
    match log_created(log, me) {
        Some(c) => {
            assert(s1.running.insert(c.job_id) =~= s1.running);
        },
        None => {},
    }
}

/// The resume cursor never moves back, whatever sequence of events arrives.
pub proof fn lemma_cursor_monotonic(s: ListenerView, me: Seq<u8>, quorum: u8, es: Seq<ListenerEvent>)
    ensures
        run_events(s, me, quorum, es).cursor >= s.cursor,
    decreases es.len(),
{
    if es.len() > 0 {
        lemma_cursor_monotonic(s, me, quorum, es.drop_last());
    }
}

/// A tracked job leaves the running set on an event exactly when that event is
/// a fresh job-responded log for it whose output count reaches the quorum.
pub proof fn lemma_removed_iff_quorum(s: ListenerView, me: Seq<u8>, quorum: u8, e: ListenerEvent, id: Word)
    requires
        s.running.contains(id),
    ensures
        !event_step(s, me, quorum, e).running.contains(id) <==> (e is Job && {
            let log = e->Job_0;
            &&& is_fresh(s, log)
            &&& is_job_responded(log)
            &&& log_responded(log) is Some
            &&& log_responded(log)->0 matches (rid, count) && rid == id && reaches_quorum(count, quorum)
        }),
{
}

} // verus!
