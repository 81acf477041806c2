//! Index refreshes: at most one runs at a time, and a request that comes
//! while one runs is not lost but makes it run once more.
use vstd::prelude::*;

use crate::text::owned;

verus! {

/// The state of index refreshing, as reported to the launcher. `S` is the
/// summary a successful refresh produces.
#[derive(Clone, Debug)]
pub struct IndexStatus<S> {
    /// A refresh is running.
    pub running: bool,
    /// Another refresh was asked for while one was running.
    pub pending: bool,
    pub last_trigger: Option<String>,
    pub last_error: Option<String>,
    pub last_summary: Option<S>,
}

impl<S> Default for IndexStatus<S> {
    fn default() -> (r: Self)
        ensures
            !r.running,
            !r.pending,
            r.last_trigger is None,
            r.last_error is None,
            r.last_summary is None,
    {
        IndexStatus {
            running: false,
            pending: false,
            last_trigger: None,
            last_error: None,
            last_summary: None,
        }
    }
}

/// What asked for a refresh.
#[derive(Clone, Copy, Debug, PartialEq, Eq, Structural)]
pub enum IndexRefreshTrigger {
    Startup,
    Manual,
    AppWatcher,
}

pub open spec fn trigger_name(t: IndexRefreshTrigger) -> Seq<char> {
    match t {
        IndexRefreshTrigger::Startup => "startup"@,
        IndexRefreshTrigger::Manual => "manual"@,
        IndexRefreshTrigger::AppWatcher => "appWatcher"@,
    }
}

impl IndexRefreshTrigger {
    /// The trigger's name in the status.
    pub fn as_str(&self) -> (s: &'static str)
        ensures
            s@ == trigger_name(*self),
    {
        match self {
            IndexRefreshTrigger::Startup => "startup",
            IndexRefreshTrigger::Manual => "manual",
            IndexRefreshTrigger::AppWatcher => "appWatcher",
        }
    }

    /// How many seconds to wait before refreshing: changes seen by the
    /// application watcher come in bursts and wait a second; the others
    /// refresh at once.
    pub fn debounce_delay(&self) -> (d: Option<u64>)
        ensures
            *self == IndexRefreshTrigger::AppWatcher ==> d == Some(1u64),
            *self != IndexRefreshTrigger::AppWatcher ==> d is None,
    {
        match self {
            IndexRefreshTrigger::AppWatcher => Some(1),
            IndexRefreshTrigger::Startup | IndexRefreshTrigger::Manual => None,
        }
    }
}

/// The flags after a refresh is asked for: it starts when none runs, and is
/// queued otherwise.
pub open spec fn prepared(running: bool, pending: bool) -> (bool, bool) {
    if running {
        (true, true)
    } else {
        (true, false)
    }
}

/// The flags after a refresh ends: it runs again exactly when one was
/// queued.
pub open spec fn finished(running: bool, pending: bool) -> (bool, bool) {
    (pending, false)
}

impl<S> IndexStatus<S> {
    /// A refresh is asked for by `trigger`. Returns whether the caller is to
    /// start it; when one runs already it is queued instead.
    pub fn prepare_index_refresh(&mut self, trigger: &str) -> (start: bool)
        ensures
            start == !old(self).running,
            (final(self).running, final(self).pending) == prepared(
                old(self).running,
                old(self).pending,
            ),
            final(self).last_trigger is Some && final(self).last_trigger->0@ == trigger@,
            final(self).last_error is None,
            final(self).last_summary == old(self).last_summary,
    {
        self.last_trigger = Some(owned(trigger));
        self.last_error = None;
        if self.running {
            self.pending = true;
            return false;
        }
        self.running = true;
        self.pending = false;
        true
    }

    /// A refresh ended with `result`. Returns whether it is to run again,
    /// which it is when another was asked for meanwhile.
    pub fn finish_index_refresh(&mut self, result: Result<S, String>) -> (rerun: bool)
        ensures
            rerun == old(self).pending,
            (final(self).running, final(self).pending) == finished(
                old(self).running,
                old(self).pending,
            ),
            final(self).last_trigger == old(self).last_trigger,
            match result {
                Ok(summary) => final(self).last_error is None && final(self).last_summary == Some(
                    summary,
                ),
                Err(e) => final(self).last_error == Some(e) && final(self).last_summary == old(
                    self,
                ).last_summary,
            },
    {
        match result {
            Ok(summary) => {
                self.last_error = None;
                self.last_summary = Some(summary);
            },
            Err(error) => {
                self.last_error = Some(error);
            },
        }
        let rerun = self.pending;
        self.running = rerun;
        self.pending = false;
        rerun
    }
}

/// A refresh is queued only while one runs: asking for a refresh and ending
/// one both keep `pending ==> running`.
pub proof fn law_pending_only_while_running(running: bool, pending: bool)
    requires
        pending ==> running,
    ensures
        prepared(running, pending).1 ==> prepared(running, pending).0,
        finished(running, pending).1 ==> finished(running, pending).0,
{
}

/// No request is lost: however many refreshes are asked for while one runs,
/// it ends by running exactly once more, and then stops unless asked again.
pub proof fn law_requests_during_a_run_cause_one_rerun(pending: bool, n: nat)
    requires
        n >= 1,
    ensures
        ({
            let after = asked_repeatedly(true, pending, n);
            &&& after == (true, true)
            &&& finished(after.0, after.1) == (true, false)
            &&& finished(true, false) == (false, false)
        }),
    decreases n,
{
    reveal_with_fuel(asked_repeatedly, 2);
    if n > 1 {
        law_requests_during_a_run_cause_one_rerun(pending, (n - 1) as nat);
    }
}

/// The flags after `n` requests.
pub open spec fn asked_repeatedly(running: bool, pending: bool, n: nat) -> (bool, bool)
    decreases n,
{
    if n == 0 {
        (running, pending)
    } else {
        let (r, p) = asked_repeatedly(running, pending, (n - 1) as nat);
        prepared(r, p)
    }
}

/// A refresh asked for when none runs starts at once and is not queued.
pub proof fn law_idle_request_starts(pending: bool)
    ensures
        prepared(false, pending) == (true, false),
{
}

} // verus!
