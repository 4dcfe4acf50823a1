//! The decisions of the monitoring loop: for each event of the
//! process-creation subscription, whether to throttle, go on, or stop.
use vstd::prelude::*;

use crate::config::{views, Config};
use crate::error::Error;
use crate::matcher::{spec_matches, Matcher};

verus! {

/// A process as the creation notification announces it: its id and image
/// file name (no path).
#[derive(Clone, Debug, PartialEq, Eq)]
pub struct Process {
    pub process_id: u32,
    pub name: String,
}

/// One item of the process-creation subscription.
#[derive(Clone, Debug, PartialEq, Eq)]
pub enum ListenEvent {
    /// A process was created.
    Created(Process),
    /// One notification could not be decoded.
    DecodeFailed,
    /// The subscription's connection failed or dropped.
    ConnectionLost,
    /// The subscription ended.
    Closed,
}

/// What the loop does about one event.
#[derive(Clone, Copy, Debug, PartialEq, Eq)]
pub enum MonitorAction {
    /// Move the process with this id to the throttled state.
    Throttle(u32),
    /// Nothing to do; wait for the next event.
    Skip,
    /// Report the undecodable notification and go on.
    ReportDecodeError,
    /// End the loop with this result.
    Stop(Result<(), Error>),
}

/// The stopped flag and the action after `ev`, for a monitor whose denylist
/// is `exact` and `patterns`. A stopped monitor only skips.
pub open spec fn spec_step(
    stopped: bool,
    exact: Set<Seq<char>>,
    patterns: Seq<Seq<char>>,
    ev: ListenEvent,
) -> (bool, MonitorAction) {
    if stopped {
        (true, MonitorAction::Skip)
    } else {
        match ev {
            ListenEvent::Created(p) => (
                false,
                if spec_matches(exact, patterns, p.name@) {
                    MonitorAction::Throttle(p.process_id)
                } else {
                    MonitorAction::Skip
                },
            ),
            ListenEvent::DecodeFailed => (false, MonitorAction::ReportDecodeError),
            ListenEvent::ConnectionLost => (
                true,
                MonitorAction::Stop(Err(Error::ListenerConnection)),
            ),
            ListenEvent::Closed => (true, MonitorAction::Stop(Ok(()))),
        }
    }
}

/// The actions for a sequence of events, in order.
pub open spec fn spec_run(
    stopped: bool,
    exact: Set<Seq<char>>,
    patterns: Seq<Seq<char>>,
    evs: Seq<ListenEvent>,
) -> Seq<MonitorAction>
    decreases evs.len(),
{
    if evs.len() == 0 {
        Seq::empty()
    } else {
        let (s, a) = spec_step(stopped, exact, patterns, evs[0]);
        seq![a] + spec_run(s, exact, patterns, evs.drop_first())
    }
}

/// The monitoring loop's state: the denylist, and whether the loop ended.
pub struct Monitor {
    matcher: Matcher,
    stopped: bool,
}

impl Monitor {
    pub closed spec fn exact_names(&self) -> Set<Seq<char>> {
        self.matcher.exact_names()
    }

    pub closed spec fn pattern_list(&self) -> Seq<Seq<char>> {
        self.matcher.pattern_list()
    }

    pub closed spec fn stopped(&self) -> bool {
        self.stopped
    }

    /// A running monitor over a denylist that is ready.
    pub fn new(matcher: Matcher) -> (r: Monitor)
        ensures
            !r.stopped(),
            r.exact_names() == matcher.exact_names(),
            r.pattern_list() == matcher.pattern_list(),
    {
        Monitor { matcher, stopped: false }
    }

    /// A running monitor over the configured denylist; fails with
    /// `InvalidPattern` exactly when some pattern does not compile.
    pub fn from_config(config: Config) -> (r: Result<Monitor, Error>)
        ensures
            r is Ok <==> (config.blacklist_regex@.len() == 0 || crate::matcher::patterns_compile(
                views(config.blacklist_regex@),
            )),
            r is Err ==> r->Err_0 == Error::InvalidPattern,
            r is Ok ==> !r->Ok_0.stopped() && r->Ok_0.exact_names() == views(
                config.blacklist@,
            ).to_set() && r->Ok_0.pattern_list() == views(config.blacklist_regex@),
    {
        let Config { blacklist, blacklist_regex } = config;
        match Matcher::new(blacklist, &blacklist_regex) {
            Ok(matcher) => Ok(Monitor::new(matcher)),
            Err(e) => Err(e),
        }
    }

    pub fn is_stopped(&self) -> (r: bool)
        ensures
            r == self.stopped(),
    {
        self.stopped
    }

    /// Decides what to do about one event of the subscription.
    pub fn on_event(&mut self, ev: ListenEvent) -> (r: MonitorAction)
        ensures
            final(self).exact_names() == old(self).exact_names(),
            final(self).pattern_list() == old(self).pattern_list(),
            (final(self).stopped(), r) == spec_step(
                old(self).stopped(),
                old(self).exact_names(),
                old(self).pattern_list(),
                ev,
            ),
    {
        if self.stopped {
            return MonitorAction::Skip;
        }
        match ev {
            ListenEvent::Created(p) => {
                if self.matcher.matches(p.name.as_str()) {
                    MonitorAction::Throttle(p.process_id)
                } else {
                    MonitorAction::Skip
                }
            },
            ListenEvent::DecodeFailed => MonitorAction::ReportDecodeError,
            ListenEvent::ConnectionLost => {
                self.stopped = true;
                MonitorAction::Stop(Err(Error::ListenerConnection))
            },
            ListenEvent::Closed => {
                self.stopped = true;
                MonitorAction::Stop(Ok(()))
            },
        }
    }
}

/// A stopped monitor skips every event.
pub proof fn lemma_stopped_only_skips(
    exact: Set<Seq<char>>,
    patterns: Seq<Seq<char>>,
    evs: Seq<ListenEvent>,
)
    ensures
        spec_run(true, exact, patterns, evs) == Seq::new(evs.len(), |i: int| MonitorAction::Skip),
    decreases evs.len(),
{
    if evs.len() > 0 {
        lemma_stopped_only_skips(exact, patterns, evs.drop_first());
    }
    assert(spec_run(true, exact, patterns, evs) =~= Seq::new(
        evs.len(),
        |i: int| MonitorAction::Skip,
    ));
}

/// When the subscription's connection drops, the loop stops with
/// `ListenerConnection` and throttles nothing after that, whatever follows.
pub proof fn lemma_connection_loss_ends_run(
    exact: Set<Seq<char>>,
    patterns: Seq<Seq<char>>,
    before: Seq<ListenEvent>,
    after: Seq<ListenEvent>,
)
    requires
        forall|i: int|
            0 <= i < before.len() ==> !(before[i] is ConnectionLost) && !(before[i] is Closed),
    ensures
        ({
            let evs = before + seq![ListenEvent::ConnectionLost] + after;
            let acts = spec_run(false, exact, patterns, evs);
            &&& acts.len() == before.len() + 1 + after.len()
            &&& acts[before.len() as int] == MonitorAction::Stop(Err(Error::ListenerConnection))
            &&& forall|j: int| before.len() < j < acts.len() ==> acts[j] == MonitorAction::Skip
        }),
    decreases before.len(),
{
    let evs = before + seq![ListenEvent::ConnectionLost] + after;
    if before.len() == 0 {
        assert(evs.drop_first() =~= after);
        lemma_stopped_only_skips(exact, patterns, after);
    } else {
        let rest = before.drop_first();
        assert(evs.drop_first() =~= rest + seq![ListenEvent::ConnectionLost] + after);
        assert forall|i: int| 0 <= i < rest.len() implies !(rest[i] is ConnectionLost) && !(
        rest[i] is Closed) by {
            assert(rest[i] == before[i + 1]);
        }
        lemma_connection_loss_ends_run(exact, patterns, rest, after);
        assert(!(evs[0] is ConnectionLost) && !(evs[0] is Closed));
    }
}

} // verus!
