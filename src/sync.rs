use crate::reval::Service;
use crate::snapshot::swapped;
use crate::strava::event::{admitted, Event};
use crate::strava::token::TokenData;
use crate::time::Timestamp;
use vstd::prelude::*;

verus! {

/// The sources mirrored.
#[derive(Clone, Copy, Debug, PartialEq, Eq, Structural)]
pub enum Source {
    /// Push-driven: refreshed by webhook, behind an expiring credential.
    Strava,
    /// Poll-driven.
    Steam,
    /// Poll-driven.
    Github,
}

/// Which steps a source's runs take besides fetching.
#[derive(Clone, Copy, Debug, PartialEq, Eq, Structural)]
pub struct SourcePlan {
    /// A fresh credential is needed before fetching.
    pub needs_credential: bool,
    /// A change regenerates the derived route images in the object store.
    pub resyncs_assets: bool,
    /// A change is announced to this downstream cache.
    pub invalidates: Option<Service>,
}

pub open spec fn plan_of(source: Source) -> SourcePlan {
    match source {
        Source::Strava => SourcePlan {
            needs_credential: true,
            resyncs_assets: true,
            invalidates: Some(Service::Strava),
        },
        Source::Steam => SourcePlan {
            needs_credential: false,
            resyncs_assets: false,
            invalidates: Some(Service::Steam),
        },
        Source::Github => SourcePlan {
            needs_credential: false,
            resyncs_assets: false,
            invalidates: Some(Service::Github),
        },
    }
}

/// Seconds between two runs of a poll-driven source.
pub const POLL_INTERVAL_SECS: u64 = 300;

impl Source {
    pub fn plan(&self) -> (r: SourcePlan)
        ensures
            r == plan_of(*self),
    {
        match self {
            Source::Strava => SourcePlan {
                needs_credential: true,
                resyncs_assets: true,
                invalidates: Some(Service::Strava),
            },
            Source::Steam => SourcePlan {
                needs_credential: false,
                resyncs_assets: false,
                invalidates: Some(Service::Steam),
            },
            Source::Github => SourcePlan {
                needs_credential: false,
                resyncs_assets: false,
                invalidates: Some(Service::Github),
            },
        }
    }

    /// How long a timer driver sleeps between runs; none for the
    /// push-driven source, which runs on each admitted webhook event.
    pub fn poll_interval_secs(&self) -> (r: Option<u64>)
        ensures
            r == (match *self {
                Source::Strava => None,
                _ => Some(POLL_INTERVAL_SECS),
            }),
    {
        match self {
            Source::Strava => None,
            _ => Some(POLL_INTERVAL_SECS),
        }
    }
}

/// Where a run stands: which action's outcome it awaits.
#[derive(Clone, Copy, Debug, PartialEq, Eq, Structural)]
pub enum Phase {
    Refreshing,
    Fetching,
    Clearing,
    Storing { index: usize },
    Invalidating,
    Finished,
}

/// Why a run stopped before its swap.
#[derive(Clone, Copy, Debug, PartialEq, Eq, Structural)]
pub enum Abort {
    Credential,
    Fetch,
}

/// What the driver is to do next.
#[derive(Clone, Copy, Debug, PartialEq, Eq, Structural)]
pub enum Action {
    /// Exchange the refresh token for a fresh credential.
    Refresh,
    /// Fetch the collection and compare-and-swap it into the cell.
    Fetch,
    /// Delete every object under the asset prefix.
    ClearAssets,
    /// Render the route of the entity at `index` of the swapped collection
    /// and upload it under its key.
    StoreAsset { index: usize },
    /// Tell the downstream cache to revalidate `service`.
    Invalidate { service: Service },
    /// The run is over.
    Finish,
}

/// How the last action went, as the driver reports it.
#[derive(Clone, Copy, Debug, PartialEq, Eq, Structural)]
pub enum Outcome {
    Succeeded,
    Failed,
    /// The fetch succeeded and the swap reported `changed`; the swapped
    /// collection holds `count` entities.
    Fetched { changed: bool, count: usize },
}

/// One synchronisation run of one source.
#[derive(Clone, Copy, Debug, PartialEq, Eq, Structural)]
pub struct Run {
    pub plan: SourcePlan,
    pub phase: Phase,
    /// The swap replaced the data: the cascade is due.
    pub changed: bool,
    pub count: usize,
    pub aborted: Option<Abort>,
    /// The asset resync stopped on a failed step.
    pub assets_failed: bool,
    /// The revalidation call failed.
    pub invalidation_failed: bool,
}

/// The first action of a run: a refresh when the source needs a credential
/// and it has expired, else the fetch.
pub open spec fn start_run(plan: SourcePlan, credential_expired: bool) -> (Run, Action) {
    let run = Run {
        plan,
        phase: Phase::Fetching,
        changed: false,
        count: 0,
        aborted: None,
        assets_failed: false,
        invalidation_failed: false,
    };
    if plan.needs_credential && credential_expired {
        (Run { phase: Phase::Refreshing, ..run }, Action::Refresh)
    } else {
        (run, Action::Fetch)
    }
}

/// The cascade after the asset resync: the revalidation call, if any.
pub open spec fn after_assets(run: Run) -> (Run, Action) {
    match run.plan.invalidates {
        Some(service) => (Run { phase: Phase::Invalidating, ..run }, Action::Invalidate { service }),
        None => (Run { phase: Phase::Finished, ..run }, Action::Finish),
    }
}

/// The first cascade step of a run whose swap changed the data.
pub open spec fn cascade_start(run: Run) -> (Run, Action) {
    if run.plan.resyncs_assets {
        (Run { phase: Phase::Clearing, ..run }, Action::ClearAssets)
    } else {
        after_assets(run)
    }
}

/// The run's next state and action, given how its last action went.
///
/// A failed refresh or fetch ends the run before any swap. A swap that
/// changed nothing ends it without a cascade. In the cascade, a failure
/// stops the asset resync (nothing stale is left: the clear came first)
/// but not the revalidation call, and nothing undoes the swap.
pub open spec fn step(run: Run, outcome: Outcome) -> (Run, Action) {
    let failed = outcome is Failed;
    match run.phase {
        Phase::Refreshing => if failed {
            (Run { phase: Phase::Finished, aborted: Some(Abort::Credential), ..run }, Action::Finish)
        } else {
            (Run { phase: Phase::Fetching, ..run }, Action::Fetch)
        },
        Phase::Fetching => match outcome {
            Outcome::Fetched { changed, count } => {
                let fetched = Run { changed, count, ..run };
                if changed {
                    cascade_start(fetched)
                } else {
                    (Run { phase: Phase::Finished, ..fetched }, Action::Finish)
                }
            },
            _ => (Run { phase: Phase::Finished, aborted: Some(Abort::Fetch), ..run }, Action::Finish),
        },
        Phase::Clearing => if failed {
            after_assets(Run { assets_failed: true, ..run })
        } else if run.count > 0 {
            (Run { phase: Phase::Storing { index: 0 }, ..run }, Action::StoreAsset { index: 0 })
        } else {
            after_assets(run)
        },
        Phase::Storing { index } => if failed {
            after_assets(Run { assets_failed: true, ..run })
        } else if index + 1 < run.count {
            (
                Run { phase: Phase::Storing { index: (index + 1) as usize }, ..run },
                Action::StoreAsset { index: (index + 1) as usize },
            )
        } else {
            after_assets(run)
        },
        Phase::Invalidating => (
            Run { phase: Phase::Finished, invalidation_failed: failed, ..run },
            Action::Finish,
        ),
        Phase::Finished => (run, Action::Finish),
    }
}

impl Run {
    /// Begins a run of a source with the given plan.
    pub fn start(plan: SourcePlan, credential_expired: bool) -> (r: (Run, Action))
        ensures
            r == start_run(plan, credential_expired),
    {
        let run = Run {
            plan,
            phase: Phase::Fetching,
            changed: false,
            count: 0,
            aborted: None,
            assets_failed: false,
            invalidation_failed: false,
        };
        if plan.needs_credential && credential_expired {
            (Run { phase: Phase::Refreshing, ..run }, Action::Refresh)
        } else {
            (run, Action::Fetch)
        }
    }

    fn finish_assets(&mut self) -> (a: Action)
        ensures
            (*final(self), a) == after_assets(*old(self)),
    {
        match self.plan.invalidates {
            Some(service) => {
                self.phase = Phase::Invalidating;
                Action::Invalidate { service }
            },
            None => {
                self.phase = Phase::Finished;
                Action::Finish
            },
        }
    }

    /// Takes the outcome of the last action and returns the next one.
    pub fn advance(&mut self, outcome: Outcome) -> (a: Action)
        ensures
            (*final(self), a) == step(*old(self), outcome),
    {
        let failed = match outcome {
            Outcome::Failed => true,
            _ => false,
        };
        match self.phase {
            Phase::Refreshing => {
                if failed {
                    self.phase = Phase::Finished;
                    self.aborted = Some(Abort::Credential);
                    Action::Finish
                } else {
                    self.phase = Phase::Fetching;
                    Action::Fetch
                }
            },
            Phase::Fetching => match outcome {
                Outcome::Fetched { changed, count } => {
                    self.changed = changed;
                    self.count = count;
                    if !changed {
                        self.phase = Phase::Finished;
                        Action::Finish
                    } else if self.plan.resyncs_assets {
                        self.phase = Phase::Clearing;
                        Action::ClearAssets
                    } else {
                        self.finish_assets()
                    }
                },
                _ => {
                    self.phase = Phase::Finished;
                    self.aborted = Some(Abort::Fetch);
                    Action::Finish
                },
            },
            Phase::Clearing => {
                if failed {
                    self.assets_failed = true;
                    self.finish_assets()
                } else if self.count > 0 {
                    self.phase = Phase::Storing { index: 0 };
                    Action::StoreAsset { index: 0 }
                } else {
                    self.finish_assets()
                }
            },
            Phase::Storing { index } => {
                if failed {
                    self.assets_failed = true;
                    self.finish_assets()
                } else if self.count > 0 && index < self.count - 1 {
                    self.phase = Phase::Storing { index: index + 1 };
                    Action::StoreAsset { index: index + 1 }
                } else {
                    self.finish_assets()
                }
            },
            Phase::Invalidating => {
                self.phase = Phase::Finished;
                self.invalidation_failed = failed;
                Action::Finish
            },
            Phase::Finished => Action::Finish,
        }
    }

    /// Whether the run is over.
    pub fn is_finished(&self) -> (r: bool)
        ensures
            r == (self.phase == Phase::Finished),
    {
        self.phase == Phase::Finished
    }
}

/// What the webhook driver answers the caller.
#[derive(Clone, Copy, Debug, PartialEq, Eq, Structural)]
pub enum WebhookReply {
    /// The event is not for the configured subscription; nothing ran.
    Forbidden,
    /// The run finished; its cascade, if any, was attempted.
    Completed,
    /// The run stopped on a credential or fetch error, or is not over.
    Failed,
}

/// The run a webhook event starts: none when the event is not for the
/// configured subscription, else a run of the push-driven source.
pub open spec fn webhook_run(subscription_id: u64, expected: Seq<char>, credential_expired: bool) -> Option<(Run, Action)> {
    if admitted(subscription_id, expected) {
        Some(start_run(plan_of(Source::Strava), credential_expired))
    } else {
        None
    }
}

/// Checks an inbound event against the configured subscription and, when
/// it matches, begins a run of the push-driven source.
pub fn on_webhook(event: &Event, expected: &str, credential_expired: bool) -> (r: Option<(Run, Action)>)
    ensures
        r == webhook_run(event.subscription_id, expected@, credential_expired),
{
    if event.is_admitted(expected) {
        let plan = Source::Strava.plan();
        Some(Run::start(plan, credential_expired))
    } else {
        None
    }
}

/// Success only for a run that has finished without an abort; a run that
/// aborted, or has not yet finished, is a failure.
pub open spec fn reply_of(run: Option<Run>) -> WebhookReply {
    match run {
        None => WebhookReply::Forbidden,
        Some(r) => if r.phase == Phase::Finished && r.aborted is None {
            WebhookReply::Completed
        } else {
            WebhookReply::Failed
        },
    }
}

/// The answer to the webhook caller once its run, if any, is over.
pub fn webhook_reply(run: Option<&Run>) -> (r: WebhookReply)
    ensures
        r == reply_of(match run {
            Some(x) => Some(*x),
            None => None,
        }),
{
    match run {
        None => WebhookReply::Forbidden,
        Some(x) => if x.is_finished() && x.aborted.is_none() {
            WebhookReply::Completed
        } else {
            WebhookReply::Failed
        },
    }
}

/// Whether a change of the source's data sets off any cascade step.
pub open spec fn cascades(plan: SourcePlan) -> bool {
    plan.resyncs_assets || plan.invalidates is Some
}

/// Two runs in a row over an unchanged upstream. The first swap reports a
/// change exactly when the fetched collection differs from the one held, and
/// only then does the run go on into its cascade; the second swap meets the
/// collection the first one stored, reports no change, and its run ends
/// without any cascade step.
pub proof fn lemma_unchanged_upstream_cascades_once<V>(
    run: Run,
    held: Seq<V>,
    fetched: Seq<V>,
    count: usize,
)
    requires
        run.phase == Phase::Fetching,
    ensures
        ({
            let (after_first, first_changed) = swapped(held, fetched);
            let (_, second_changed) = swapped(after_first, fetched);
            &&& first_changed == (fetched != held)
            &&& (step(run, Outcome::Fetched { changed: first_changed, count }).1 != Action::Finish
                <==> first_changed && cascades(run.plan))
            &&& !second_changed
            &&& step(run, Outcome::Fetched { changed: second_changed, count }) == (
                Run { phase: Phase::Finished, changed: false, count, ..run },
                Action::Finish,
            )
        }),
{
}

/// A run asks for a credential refresh at its start exactly when its source
/// needs a credential and the current time is not before the expiry; once
/// the refresh succeeds the fetch follows, and no later step of any run ever
/// asks for a refresh again.
pub proof fn lemma_refresh_only_when_expired(
    plan: SourcePlan,
    token: TokenData,
    now: Timestamp,
    run: Run,
    outcome: Outcome,
)
    ensures
        (start_run(plan, token.spec_is_expired(now)).1 == Action::Refresh) <==> (
        plan.needs_credential && !now.spec_before(token.expires_at)),
        start_run(plan, token.spec_is_expired(now)).1 == Action::Refresh ==> step(
            start_run(plan, token.spec_is_expired(now)).0,
            Outcome::Succeeded,
        ).1 == Action::Fetch,
        step(run, outcome).1 != Action::Refresh,
{
}

/// A webhook event for another subscription starts no run, so neither the
/// fetch nor any cascade step is asked for, and the caller is told it is
/// forbidden.
pub proof fn lemma_mismatch_runs_nothing(subscription_id: u64, expected: Seq<char>, credential_expired: bool)
    requires
        !admitted(subscription_id, expected),
    ensures
        webhook_run(subscription_id, expected, credential_expired) is None,
        reply_of(None) == WebhookReply::Forbidden,
{
}

/// The actions that make up a cascade.
pub open spec fn is_cascade_step(a: Action) -> bool {
    a is ClearAssets || a is StoreAsset || a is Invalidate
}

/// What holds of every run that `start_run` and `step` can reach: a run
/// in its cascade has swapped changed data, takes only the steps its plan
/// has, and stores assets only at indices of the swapped collection.
pub open spec fn consistent(run: Run) -> bool {
    &&& run.phase is Refreshing ==> run.plan.needs_credential && !run.changed
    &&& (run.phase is Clearing || run.phase is Storing || run.phase is Invalidating) ==> run.changed
    &&& (run.phase is Clearing || run.phase is Storing) ==> run.plan.resyncs_assets
    &&& run.phase is Invalidating ==> run.plan.invalidates is Some
    &&& run.phase matches Phase::Storing { index } ==> index < run.count
}

/// A run starts consistent and every step keeps it so. No cascade step is
/// ever asked for unless the run's swap changed the data, and an asset is
/// only ever stored for an index of the swapped collection.
pub proof fn lemma_cascade_only_after_change(
    plan: SourcePlan,
    credential_expired: bool,
    run: Run,
    outcome: Outcome,
)
    requires
        consistent(run),
    ensures
        consistent(start_run(plan, credential_expired).0),
        !is_cascade_step(start_run(plan, credential_expired).1),
        consistent(step(run, outcome).0),
        is_cascade_step(step(run, outcome).1) ==> step(run, outcome).0.changed,
        step(run, outcome).1 matches Action::StoreAsset { index } ==> index < step(
            run,
            outcome,
        ).0.count,
{
}

} // verus!
