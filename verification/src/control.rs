//! Per-iteration decisions of the profiling control loop.
//!
//! The loop itself runs on the host side as a background task: it sleeps,
//! calls the remote session service, samples, and uploads.  Every decision it
//! takes — whether to idle, whether to wait out a retry delay, how to react
//! to a session response, and what to do after a stage fails or a whole cycle
//! succeeds — is made here, on plain values, so the policy is verified even
//! though the surrounding I/O cannot be.

use crate::backoff::Backoff;
use vstd::prelude::*;

verus! {

/// How long the loop sleeps between polls of the host's gate predicate while
/// profiling is disabled.  This polling wait is not subject to backoff.
pub const IDLE_SLEEP_MS: u64 = 60000;

/// Errors of the profiling cycle, one per stage that can fail.  Every one of
/// them is transient to the loop: it logs, backs off, and retries.
#[derive(Debug)]
pub enum GcpCloudProfilingError {
    FailedToGetAuthToken(String),
    FailedToCreateProfile(String),
    MalformedSessionResponse,
    FailedToProfileApplication(String),
    FailedToBuildReport(String),
    FailedToSerializeProfile(String),
    FailedToCompressProfile(String),
    MissingSessionIdentity,
    FailedToSendProfileToGCP(String),
}

/// What the remote service's session response contributes to the loop's
/// decisions: the required sampling duration and the identity under which the
/// captured artifact must be uploaded.  Either field may be missing from a
/// malformed response.
pub struct ProfileSession {
    pub duration_ms: Option<u64>,
    pub name: Option<String>,
}

/// Identity attached to every session-create call: project, service, version,
/// and the label map the remote service expects.
pub struct DeploymentInfo {
    pub project_id: String,
    pub target: String,
    pub labels: Vec<(String, String)>,
}

impl DeploymentInfo {
    /// Builds the deployment identity the way the agent reports itself: the
    /// service name becomes the target, and the labels carry the runtime
    /// language tag and the service version.
    pub fn new(project_id: String, service: String, version: String) -> (d: DeploymentInfo)
        ensures
            d.project_id@ == project_id@,
            d.target@ == service@,
            d.labels@.len() == 2,
            d.labels@[0].0@ == "language"@,
            d.labels@[0].1@ == "go"@,
            d.labels@[1].0@ == "version"@,
            d.labels@[1].1@ == version@,
    {
        let mut labels: Vec<(String, String)> = Vec::new();
        labels.push(("language".to_owned(), "go".to_owned()));
        labels.push(("version".to_owned(), version));
        DeploymentInfo { project_id, target: service, labels }
    }
}

/// What the loop does at the top of an iteration.
#[derive(Debug, Clone, Copy)]
pub enum GateAction {
    /// Profiling is disabled by the host: sleep this many milliseconds and
    /// poll once more, without touching the remote service.
    SleepIdle(u64),
    /// Run a cycle; if the previous iteration failed, first wait out the
    /// retry delay carried here.
    Run(Option<u64>),
}

/// What the loop does with a session response.
#[derive(Debug, Clone, Copy)]
pub enum SessionAction {
    /// Sample for this many milliseconds, then upload.
    Sample(u64),
    /// The response was malformed: wait this many milliseconds and restart
    /// the cycle.
    Retry(u64),
}

/// Mutable state the loop carries across iterations: the backoff generator,
/// its construction parameters (so a healthy iteration can reset it to the
/// floor), and the retry delay left over from a failed iteration.
pub struct ControlState {
    pub floor_ms: u64,
    pub ceiling_ms: u64,
    pub multiplier_num: u64,
    pub multiplier_den: u64,
    pub backoff: Backoff,
    pub pending_retry_ms: Option<u64>,
}

/// The loop never changes its configuration: floor, ceiling and growth factor
/// are fixed at construction.
pub open spec fn config_unchanged(pre: ControlState, post: ControlState) -> bool {
    &&& post.floor_ms == pre.floor_ms
    &&& post.ceiling_ms == pre.ceiling_ms
    &&& post.multiplier_num == pre.multiplier_num
    &&& post.multiplier_den == pre.multiplier_den
}

/// How the state changes when a stage of the cycle fails: a wait `w` is drawn
/// strictly below the envelope (zero if the envelope is zero), the wait is
/// recorded for the next iteration, and the envelope advances.
pub open spec fn failure_step(pre: ControlState, post: ControlState, w: u64) -> bool {
    &&& pre.backoff.current_envelope_ms == 0 ==> w == 0
    &&& pre.backoff.current_envelope_ms > 0 ==> w < pre.backoff.current_envelope_ms
    &&& post.pending_retry_ms == Some(w)
    &&& post.backoff == pre.backoff.spec_advanced()
    &&& config_unchanged(pre, post)
}

impl ControlState {
    /// The backoff generator matches the recorded configuration and its
    /// envelope stays between the floor and the ceiling.
    pub open spec fn wf(self) -> bool {
        &&& self.backoff.wf()
        &&& self.backoff.max_envelope_ms == self.ceiling_ms
        &&& self.backoff.multiplier_num == self.multiplier_num
        &&& self.backoff.multiplier_den == self.multiplier_den
        &&& self.floor_ms <= self.backoff.current_envelope_ms
        &&& self.floor_ms <= self.ceiling_ms
    }

    pub fn new(
        floor_ms: u64,
        ceiling_ms: u64,
        multiplier_num: u64,
        multiplier_den: u64,
    ) -> (s: ControlState)
        requires
            floor_ms <= ceiling_ms,
            multiplier_den >= 1,
            multiplier_num > multiplier_den,
        ensures
            s.wf(),
            s.floor_ms == floor_ms,
            s.ceiling_ms == ceiling_ms,
            s.multiplier_num == multiplier_num,
            s.multiplier_den == multiplier_den,
            s.backoff.current_envelope_ms == floor_ms,
            s.pending_retry_ms is None,
    {
        ControlState {
            floor_ms,
            ceiling_ms,
            multiplier_num,
            multiplier_den,
            backoff: Backoff::new(floor_ms, ceiling_ms, multiplier_num, multiplier_den),
            pending_retry_ms: None,
        }
    }

    /// Top-of-iteration decision.  An off gate idles without any remote work
    /// and without touching the state.  An on gate runs a cycle: after a
    /// failed iteration the recorded retry delay is waited out first, while
    /// after a healthy iteration the backoff generator is reset to its floor.
    pub fn on_gate(&mut self, gate: bool) -> (a: GateAction)
        requires
            old(self).wf(),
        ensures
            final(self).wf(),
            config_unchanged(*old(self), *final(self)),
            !gate ==> a == GateAction::SleepIdle(IDLE_SLEEP_MS) && *final(self) == *old(self),
            gate && old(self).pending_retry_ms is Some ==> a == GateAction::Run(
                old(self).pending_retry_ms,
            ) && *final(self) == *old(self),
            gate && old(self).pending_retry_ms is None ==> a == GateAction::Run(None)
                && final(self).backoff.current_envelope_ms == old(self).floor_ms
                && final(self).pending_retry_ms is None,
    {
        if !gate {
            GateAction::SleepIdle(IDLE_SLEEP_MS)
        } else {
            match self.pending_retry_ms {
                Some(d) => GateAction::Run(Some(d)),
                None => {
                    self.backoff = Backoff::new(
                        self.floor_ms,
                        self.ceiling_ms,
                        self.multiplier_num,
                        self.multiplier_den,
                    );
                    GateAction::Run(None)
                },
            }
        }
    }

    /// Reaction to a session response.  A present duration — zero included —
    /// moves the cycle on to sampling for exactly that long; a missing
    /// duration is a contract violation by the remote side and is handled
    /// like any stage failure.
    pub fn on_session_response(&mut self, session: &ProfileSession) -> (a: SessionAction)
        requires
            old(self).wf(),
        ensures
            final(self).wf(),
            session.duration_ms matches Some(d) ==> a == SessionAction::Sample(d)
                && *final(self) == *old(self),
            session.duration_ms is None ==> (a matches SessionAction::Retry(w)
                && failure_step(*old(self), *final(self), w)),
    {
        match session.duration_ms {
            Some(d) => SessionAction::Sample(d),
            None => SessionAction::Retry(self.on_stage_failure()),
        }
    }

    /// Reaction to a failed stage (session creation, sampling, or upload):
    /// draw the next backoff wait, record it for the next iteration, and
    /// report it so the host can log it.
    pub fn on_stage_failure(&mut self) -> (w: u64)
        requires
            old(self).wf(),
        ensures
            final(self).wf(),
            failure_step(*old(self), *final(self), w),
    {
        proof {
            self.backoff.lemma_next_envelope_bounds();
        }
        let w = self.backoff.next_backoff();
        self.pending_retry_ms = Some(w);
        w
    }

    /// Reaction to a fully successful cycle: the failure state is cleared, so
    /// the next iteration resets the backoff generator to its floor.
    pub fn on_cycle_success(&mut self)
        requires
            old(self).wf(),
        ensures
            final(self).wf(),
            config_unchanged(*old(self), *final(self)),
            final(self).pending_retry_ms is None,
            final(self).backoff == old(self).backoff,
    {
        self.pending_retry_ms = None;
    }
}

/// After `k` consecutive failure steps from a well-formed state, the state is
/// still well formed, its configuration is unchanged, and its backoff
/// generator is exactly the initial one advanced `k` times.
pub proof fn lemma_failure_run_state(states: Seq<ControlState>, waits: Seq<u64>, k: int)
    requires
        states.len() == waits.len() + 1,
        0 <= k < states.len(),
        states[0].wf(),
        forall|i: int| 0 <= i < waits.len() ==> failure_step(
            #[trigger] states[i],
            states[i + 1],
            waits[i],
        ),
    ensures
        states[k].wf(),
        config_unchanged(states[0], states[k]),
        states[k].backoff == states[0].backoff.iter_advanced(k as nat),
    decreases k,
{
    if k > 0 {
        lemma_failure_run_state(states, waits, k - 1);
        states[k - 1].backoff.lemma_next_envelope_bounds();
        assert(failure_step(states[k - 1], states[k], waits[k - 1]));
        assert(states[0].backoff.iter_advanced(k as nat) == states[0].backoff.iter_advanced(
            (k - 1) as nat,
        ).spec_advanced());
    }
}

/// Along any run of consecutive failed stages — the shape the loop takes when
/// a stage fails `N` times in a row — every drawn wait is strictly bounded by
/// the envelope at the time of its draw (zero when the envelope is zero),
/// those envelopes never decrease and never pass the ceiling, and after every
/// failure a retry is recorded, so the next iteration proceeds to another
/// attempt instead of idling.
pub proof fn lemma_failure_run_monotone(states: Seq<ControlState>, waits: Seq<u64>)
    requires
        states.len() == waits.len() + 1,
        states[0].wf(),
        forall|i: int| 0 <= i < waits.len() ==> failure_step(
            #[trigger] states[i],
            states[i + 1],
            waits[i],
        ),
    ensures
        forall|i: int| 0 <= i < states.len() ==> (#[trigger] states[i]).wf(),
        forall|i: int| 0 <= i < waits.len() ==> states[i + 1].pending_retry_ms == Some(
            #[trigger] waits[i],
        ),
        forall|i: int| 0 <= i < waits.len() ==> (states[i].backoff.current_envelope_ms > 0
            ==> #[trigger] waits[i] < states[i].backoff.current_envelope_ms),
        forall|i: int, j: int| 0 <= i <= j < states.len()
            ==> (#[trigger] states[i]).backoff.current_envelope_ms
            <= (#[trigger] states[j]).backoff.current_envelope_ms,
        forall|i: int| 0 <= i < states.len() ==> (#[trigger] states[i]).backoff.current_envelope_ms
            <= states[0].ceiling_ms,
{
    assert forall|i: int| 0 <= i < states.len() implies (#[trigger] states[i]).wf() by {
        lemma_failure_run_state(states, waits, i);
    }
    assert forall|i: int| 0 <= i < waits.len() implies states[i + 1].pending_retry_ms == Some(
        #[trigger] waits[i],
    ) by {
        assert(failure_step(states[i], states[i + 1], waits[i]));
    }
    assert forall|i: int| 0 <= i < waits.len() implies (states[i].backoff.current_envelope_ms > 0
        ==> #[trigger] waits[i] < states[i].backoff.current_envelope_ms) by {
        assert(failure_step(states[i], states[i + 1], waits[i]));
    }
    assert forall|i: int, j: int| 0 <= i <= j < states.len() implies (
    #[trigger] states[i]).backoff.current_envelope_ms
        <= (#[trigger] states[j]).backoff.current_envelope_ms by {
        lemma_failure_run_state(states, waits, i);
        lemma_failure_run_state(states, waits, j);
        states[0].backoff.lemma_envelope_monotone_range(i as nat, j as nat);
    }
    assert forall|i: int| 0 <= i < states.len() implies (
    #[trigger] states[i]).backoff.current_envelope_ms <= states[0].ceiling_ms by {
        lemma_failure_run_state(states, waits, i);
        states[0].backoff.lemma_envelope_monotone(i as nat);
    }
}

} // verus!

