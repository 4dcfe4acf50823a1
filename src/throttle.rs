//! The power-throttling state of a process or thread, and the protocols that
//! change or read it through an OS handle.
use vstd::prelude::*;

verus! {

/// The execution-speed bit of the power-throttling control and state masks.
pub const EXECUTION_SPEED: u32 = 1;

/// The power/priority state of a process or thread.
#[derive(Clone, Copy, Debug, PartialEq, Eq, Structural)]
pub enum ThrottleState {
    /// Execution-speed throttling on, priority lowered.
    Throttled,
    /// Throttling explicitly off, normal priority.
    Unthrottled,
    /// Throttling control cleared: the OS decides.
    SystemDefault,
}

/// Scheduling priority applied together with a power-throttling state.
#[derive(Clone, Copy, Debug, PartialEq, Eq, Structural)]
pub enum Priority {
    Idle,
    Normal,
}

/// The control and state masks of the power-throttling information.
#[derive(Clone, Copy, Debug, PartialEq, Eq, Structural)]
pub struct PowerMasks {
    pub control_mask: u32,
    pub state_mask: u32,
}

/// The masks that move a process or thread to `state`: execution-speed
/// control and state bits both set when throttled, control only when
/// unthrottled, neither when the OS decides.
pub open spec fn spec_masks_for(state: ThrottleState) -> PowerMasks {
    match state {
        ThrottleState::Throttled => PowerMasks {
            control_mask: EXECUTION_SPEED,
            state_mask: EXECUTION_SPEED,
        },
        ThrottleState::Unthrottled => PowerMasks { control_mask: EXECUTION_SPEED, state_mask: 0 },
        ThrottleState::SystemDefault => PowerMasks { control_mask: 0, state_mask: 0 },
    }
}

/// The priority that goes with `state`.
pub open spec fn spec_priority_for(state: ThrottleState) -> Priority {
    if state is Throttled {
        Priority::Idle
    } else {
        Priority::Normal
    }
}

/// Whether the execution-speed bit is set in `mask`.
pub open spec fn has_execution_speed(mask: u32) -> bool {
    mask & EXECUTION_SPEED == EXECUTION_SPEED
}

/// The state that a pair of masks read back from the OS stands for.
pub open spec fn spec_state_of(masks: PowerMasks) -> ThrottleState {
    if !has_execution_speed(masks.control_mask) {
        ThrottleState::SystemDefault
    } else if has_execution_speed(masks.state_mask) {
        ThrottleState::Throttled
    } else {
        ThrottleState::Unthrottled
    }
}

impl ThrottleState {
    /// The state that a throttling switch asks for: on, off, or left to the OS.
    pub fn from_enable(enable: Option<bool>) -> (r: ThrottleState)
        ensures
            r == match enable {
                Some(true) => ThrottleState::Throttled,
                Some(false) => ThrottleState::Unthrottled,
                None => ThrottleState::SystemDefault,
            },
    {
        match enable {
            Some(true) => ThrottleState::Throttled,
            Some(false) => ThrottleState::Unthrottled,
            None => ThrottleState::SystemDefault,
        }
    }
}

/// The masks written for `state`.
pub fn masks_for(state: ThrottleState) -> (r: PowerMasks)
    ensures
        r == spec_masks_for(state),
{
    match state {
        ThrottleState::Throttled => PowerMasks {
            control_mask: EXECUTION_SPEED,
            state_mask: EXECUTION_SPEED,
        },
        ThrottleState::Unthrottled => PowerMasks { control_mask: EXECUTION_SPEED, state_mask: 0 },
        ThrottleState::SystemDefault => PowerMasks { control_mask: 0, state_mask: 0 },
    }
}

/// The priority applied for `state`: idle when throttled, normal otherwise.
pub fn priority_for(state: ThrottleState) -> (r: Priority)
    ensures
        r == spec_priority_for(state),
{
    match state {
        ThrottleState::Throttled => Priority::Idle,
        _ => Priority::Normal,
    }
}

/// Whether EcoQoS is on according to a state mask read back from the OS.
pub fn ecoqos_enabled(state_mask: u32) -> (r: bool)
    ensures
        r == has_execution_speed(state_mask),
{
    state_mask & EXECUTION_SPEED == EXECUTION_SPEED
}

/// The state that the masks read back from the OS stand for.
pub fn state_of(masks: PowerMasks) -> (r: ThrottleState)
    ensures
        r == spec_state_of(masks),
{
    if !ecoqos_enabled(masks.control_mask) {
        ThrottleState::SystemDefault
    } else if ecoqos_enabled(masks.state_mask) {
        ThrottleState::Throttled
    } else {
        ThrottleState::Unthrottled
    }
}

/// Reading back the masks written for a state gives that state again.
pub proof fn lemma_state_of_masks_for(state: ThrottleState)
    ensures
        spec_state_of(spec_masks_for(state)) == state,
{
    assert(1u32 & 1u32 == 1u32) by (bit_vector);
    assert(0u32 & 1u32 == 0u32) by (bit_vector);
}

/// What kind of OS object a run acts on.
#[derive(Clone, Copy, Debug, PartialEq, Eq, Structural)]
pub enum Subject {
    Process,
    Thread,
}

/// The access right a handle is opened with.
#[derive(Clone, Copy, Debug, PartialEq, Eq, Structural)]
pub enum Access {
    /// Enough to change the power-throttling state and the priority.
    SetInformation,
    /// Enough to read the power-throttling state back.
    QueryLimitedInformation,
}

/// A failure of one attempt to change or read a state, with the OS error code.
#[derive(Clone, Copy, Debug, PartialEq, Eq, Structural)]
pub enum ThrottleError {
    /// The handle could not be opened (no such process or thread, access denied).
    OpenFailed(i32),
    /// Applying the power-throttling state or the priority failed.
    MutationFailed(i32),
    /// Reading the power-throttling state failed.
    QueryFailed(i32),
    /// The handle could not be released, and nothing failed before.
    CloseFailed(i32),
}

/// One OS call that the driver of a run makes next.
#[derive(Clone, Copy, Debug, PartialEq, Eq, Structural)]
pub enum Call {
    /// Open a handle to the subject with the given access right.
    Open(Subject, Access),
    /// Write the power-throttling masks through the handle.
    SetPower(PowerMasks),
    /// Set the scheduling priority through the handle.
    SetPriority(Priority),
    /// Read the power-throttling masks through the handle.
    QueryPower,
    /// Release the handle that the run opened.
    Close,
}

/// Where a run that changes the state stands.
#[derive(Clone, Copy, Debug, PartialEq, Eq, Structural)]
pub enum SetPhase {
    Opening,
    SettingPower,
    SettingPriority,
    Closing,
    Finished,
}

/// What the driver of a set-state run does next.
#[derive(Clone, Copy, Debug, PartialEq, Eq)]
pub enum SetStep {
    Call(Call),
    Finish(Result<(), ThrottleError>),
}

/// One attempt to move a process or thread to a target state: open a
/// handle (when given an id), write the masks, set the priority, and release
/// the handle on every path. The driver makes each call that `next_step`
/// names and hands the outcome to `record`.
#[derive(Clone, Copy, Debug)]
pub struct SetStateRun {
    pub subject: Subject,
    pub target: ThrottleState,
    /// The run opens, and so must close, its own handle.
    pub owns_handle: bool,
    pub phase: SetPhase,
    /// The error that the run reports, once one occurred.
    pub failure: Option<ThrottleError>,
}

impl SetStateRun {
    pub open spec fn wf(self) -> bool {
        &&& (self.phase is Opening ==> self.owns_handle)
        &&& (self.phase is Closing ==> self.owns_handle)
        &&& (self.phase is Opening || self.phase is SettingPower || self.phase is SettingPriority)
            ==> self.failure is None
    }

    pub open spec fn rank(self) -> nat {
        match self.phase {
            SetPhase::Opening => 4,
            SetPhase::SettingPower => 3,
            SetPhase::SettingPriority => 2,
            SetPhase::Closing => 1,
            SetPhase::Finished => 0,
        }
    }

    pub open spec fn spec_result(self) -> Result<(), ThrottleError> {
        match self.failure {
            Some(e) => Err(e),
            None => Ok(()),
        }
    }

    pub open spec fn spec_next(self) -> SetStep {
        match self.phase {
            SetPhase::Opening => SetStep::Call(Call::Open(self.subject, Access::SetInformation)),
            SetPhase::SettingPower => SetStep::Call(Call::SetPower(spec_masks_for(self.target))),
            SetPhase::SettingPriority => SetStep::Call(
                Call::SetPriority(spec_priority_for(self.target)),
            ),
            SetPhase::Closing => SetStep::Call(Call::Close),
            SetPhase::Finished => SetStep::Finish(self.spec_result()),
        }
    }

    /// The phase after the mutation steps: release the handle if the run
    /// opened it.
    pub open spec fn after_mutation(self) -> SetPhase {
        if self.owns_handle {
            SetPhase::Closing
        } else {
            SetPhase::Finished
        }
    }

    /// The run after the call it asked for came back with `outcome`. A
    /// failed open ends the run; a failed mutation skips to the release; a
    /// failed release is reported only when nothing failed before it.
    pub open spec fn spec_after(self, outcome: Result<(), i32>) -> SetStateRun {
        match self.phase {
            SetPhase::Opening => match outcome {
                Ok(_) => SetStateRun { phase: SetPhase::SettingPower, ..self },
                Err(e) => SetStateRun {
                    phase: SetPhase::Finished,
                    failure: Some(ThrottleError::OpenFailed(e)),
                    ..self
                },
            },
            SetPhase::SettingPower => match outcome {
                Ok(_) => SetStateRun { phase: SetPhase::SettingPriority, ..self },
                Err(e) => SetStateRun {
                    phase: self.after_mutation(),
                    failure: Some(ThrottleError::MutationFailed(e)),
                    ..self
                },
            },
            SetPhase::SettingPriority => match outcome {
                Ok(_) => SetStateRun { phase: self.after_mutation(), ..self },
                Err(e) => SetStateRun {
                    phase: self.after_mutation(),
                    failure: Some(ThrottleError::MutationFailed(e)),
                    ..self
                },
            },
            SetPhase::Closing => match outcome {
                Ok(_) => SetStateRun { phase: SetPhase::Finished, ..self },
                Err(e) => SetStateRun {
                    phase: SetPhase::Finished,
                    failure: if self.failure is None {
                        Some(ThrottleError::CloseFailed(e))
                    } else {
                        self.failure
                    },
                    ..self
                },
            },
            SetPhase::Finished => self,
        }
    }

    /// Every step of a run, the final `Finish` included, when the calls
    /// come back with `outs` in order.
    pub open spec fn trace(self, outs: Seq<Result<(), i32>>) -> Seq<SetStep>
        decreases self.rank(),
    {
        if self.phase is Finished {
            seq![self.spec_next()]
        } else {
            seq![self.spec_next()] + self.spec_after(outs[0]).trace(outs.drop_first())
        }
    }

    /// A run that opens its own handle to the subject with id-based access.
    pub fn by_id(subject: Subject, target: ThrottleState) -> (r: SetStateRun)
        ensures
            r == (SetStateRun {
                subject,
                target,
                owns_handle: true,
                phase: SetPhase::Opening,
                failure: None,
            }),
            r.wf(),
    {
        SetStateRun { subject, target, owns_handle: true, phase: SetPhase::Opening, failure: None }
    }

    /// A run on a handle that the caller holds: no open, no release.
    pub fn with_handle(subject: Subject, target: ThrottleState) -> (r: SetStateRun)
        ensures
            r == (SetStateRun {
                subject,
                target,
                owns_handle: false,
                phase: SetPhase::SettingPower,
                failure: None,
            }),
            r.wf(),
    {
        SetStateRun {
            subject,
            target,
            owns_handle: false,
            phase: SetPhase::SettingPower,
            failure: None,
        }
    }

    pub fn is_finished(&self) -> (r: bool)
        ensures
            r == self.phase is Finished,
    {
        matches!(self.phase, SetPhase::Finished)
    }

    /// The call to make next, or the result once the run is over.
    pub fn next_step(&self) -> (r: SetStep)
        ensures
            r == self.spec_next(),
    {
        match self.phase {
            SetPhase::Opening => SetStep::Call(Call::Open(self.subject, Access::SetInformation)),
            SetPhase::SettingPower => SetStep::Call(Call::SetPower(masks_for(self.target))),
            SetPhase::SettingPriority => SetStep::Call(
                Call::SetPriority(priority_for(self.target)),
            ),
            SetPhase::Closing => SetStep::Call(Call::Close),
            SetPhase::Finished => SetStep::Finish(
                match self.failure {
                    Some(e) => Err(e),
                    None => Ok(()),
                },
            ),
        }
    }

    /// Takes the outcome of the call that `next_step` named. A finished run
    /// stays as it is.
    pub fn record(&mut self, outcome: Result<(), i32>)
        ensures
            *final(self) == old(self).spec_after(outcome),
            old(self).wf() ==> final(self).wf(),
    {
        let after_mutation = if self.owns_handle {
            SetPhase::Closing
        } else {
            SetPhase::Finished
        };
        match self.phase {
            SetPhase::Opening => match outcome {
                Ok(_) => self.phase = SetPhase::SettingPower,
                Err(e) => {
                    self.phase = SetPhase::Finished;
                    self.failure = Some(ThrottleError::OpenFailed(e));
                },
            },
            SetPhase::SettingPower => match outcome {
                Ok(_) => self.phase = SetPhase::SettingPriority,
                Err(e) => {
                    self.phase = after_mutation;
                    self.failure = Some(ThrottleError::MutationFailed(e));
                },
            },
            SetPhase::SettingPriority => match outcome {
                Ok(_) => self.phase = after_mutation,
                Err(e) => {
                    self.phase = after_mutation;
                    self.failure = Some(ThrottleError::MutationFailed(e));
                },
            },
            SetPhase::Closing => {
                self.phase = SetPhase::Finished;
                if let Err(e) = outcome {
                    if self.failure.is_none() {
                        self.failure = Some(ThrottleError::CloseFailed(e));
                    }
                }
            },
            SetPhase::Finished => {},
        }
    }
}

/// Where a run that reads the state back stands. `Closing` and `Finished`
/// carry the result that the run will report.
#[derive(Clone, Copy, Debug, PartialEq, Eq)]
pub enum QueryPhase {
    Opening,
    Querying,
    Closing(Result<ThrottleState, ThrottleError>),
    Finished(Result<ThrottleState, ThrottleError>),
}

/// What the driver of a query run does next.
#[derive(Clone, Copy, Debug, PartialEq, Eq)]
pub enum QueryStep {
    Call(Call),
    Finish(Result<ThrottleState, ThrottleError>),
}

/// One attempt to read the state of a process or thread back: open a
/// handle with limited query access (when given an id), read the masks, and
/// release the handle on every path.
#[derive(Clone, Copy, Debug)]
pub struct QueryRun {
    pub subject: Subject,
    pub owns_handle: bool,
    pub phase: QueryPhase,
}

impl QueryRun {
    pub open spec fn wf(self) -> bool {
        &&& (self.phase is Opening ==> self.owns_handle)
        &&& (self.phase is Closing ==> self.owns_handle)
    }

    pub open spec fn rank(self) -> nat {
        match self.phase {
            QueryPhase::Opening => 3,
            QueryPhase::Querying => 2,
            QueryPhase::Closing(_) => 1,
            QueryPhase::Finished(_) => 0,
        }
    }

    pub open spec fn spec_next(self) -> QueryStep {
        match self.phase {
            QueryPhase::Opening => QueryStep::Call(
                Call::Open(self.subject, Access::QueryLimitedInformation),
            ),
            QueryPhase::Querying => QueryStep::Call(Call::QueryPower),
            QueryPhase::Closing(_) => QueryStep::Call(Call::Close),
            QueryPhase::Finished(r) => QueryStep::Finish(r),
        }
    }

    /// The phase that holds `r` once the masks were read or failed.
    pub open spec fn after_read(self, r: Result<ThrottleState, ThrottleError>) -> QueryPhase {
        if self.owns_handle {
            QueryPhase::Closing(r)
        } else {
            QueryPhase::Finished(r)
        }
    }

    /// The run after an open or a release came back with `outcome`. A run
    /// that is reading masks stays as it is: `record_read` takes that outcome.
    pub open spec fn spec_after(self, outcome: Result<(), i32>) -> QueryRun {
        match self.phase {
            QueryPhase::Opening => match outcome {
                Ok(_) => QueryRun { phase: QueryPhase::Querying, ..self },
                Err(e) => QueryRun {
                    phase: QueryPhase::Finished(Err(ThrottleError::OpenFailed(e))),
                    ..self
                },
            },
            QueryPhase::Closing(r) => match outcome {
                Ok(_) => QueryRun { phase: QueryPhase::Finished(r), ..self },
                Err(e) => QueryRun {
                    phase: QueryPhase::Finished(
                        if r is Ok {
                            Err(ThrottleError::CloseFailed(e))
                        } else {
                            r
                        },
                    ),
                    ..self
                },
            },
            _ => self,
        }
    }

    /// The run after the read of the masks came back with `outcome`. Any
    /// other run stays as it is.
    pub open spec fn spec_after_read(self, outcome: Result<PowerMasks, i32>) -> QueryRun {
        match self.phase {
            QueryPhase::Querying => match outcome {
                Ok(m) => QueryRun { phase: self.after_read(Ok(spec_state_of(m))), ..self },
                Err(e) => QueryRun {
                    phase: self.after_read(Err(ThrottleError::QueryFailed(e))),
                    ..self
                },
            },
            _ => self,
        }
    }

    /// The run after the call it asked for came back: the outcome of a read
    /// carries the masks, that of an open or a release only its success.
    pub open spec fn spec_step(self, outcome: Result<PowerMasks, i32>) -> QueryRun {
        if self.phase is Querying {
            self.spec_after_read(outcome)
        } else {
            self.spec_after(
                match outcome {
                    Ok(_) => Ok(()),
                    Err(e) => Err(e),
                },
            )
        }
    }

    /// Every step of a run, the final `Finish` included, when the calls
    /// come back with `outs` in order.
    pub open spec fn trace(self, outs: Seq<Result<PowerMasks, i32>>) -> Seq<QueryStep>
        decreases self.rank(),
    {
        if self.phase is Finished {
            seq![self.spec_next()]
        } else {
            seq![self.spec_next()] + self.spec_step(outs[0]).trace(outs.drop_first())
        }
    }

    /// A run that opens its own handle to the subject with id-based access.
    pub fn by_id(subject: Subject) -> (r: QueryRun)
        ensures
            r == (QueryRun { subject, owns_handle: true, phase: QueryPhase::Opening }),
            r.wf(),
    {
        QueryRun { subject, owns_handle: true, phase: QueryPhase::Opening }
    }

    /// A run on a handle that the caller holds: no open, no release.
    pub fn with_handle(subject: Subject) -> (r: QueryRun)
        ensures
            r == (QueryRun { subject, owns_handle: false, phase: QueryPhase::Querying }),
            r.wf(),
    {
        QueryRun { subject, owns_handle: false, phase: QueryPhase::Querying }
    }

    pub fn is_finished(&self) -> (r: bool)
        ensures
            r == self.phase is Finished,
    {
        matches!(self.phase, QueryPhase::Finished(_))
    }

    /// The call to make next, or the result once the run is over.
    pub fn next_step(&self) -> (r: QueryStep)
        ensures
            r == self.spec_next(),
    {
        match self.phase {
            QueryPhase::Opening => QueryStep::Call(
                Call::Open(self.subject, Access::QueryLimitedInformation),
            ),
            QueryPhase::Querying => QueryStep::Call(Call::QueryPower),
            QueryPhase::Closing(_) => QueryStep::Call(Call::Close),
            QueryPhase::Finished(r) => QueryStep::Finish(r),
        }
    }

    /// Takes the outcome of an open or a release that `next_step` named.
    pub fn record(&mut self, outcome: Result<(), i32>)
        ensures
            *final(self) == old(self).spec_after(outcome),
            old(self).wf() ==> final(self).wf(),
    {
        match self.phase {
            QueryPhase::Opening => match outcome {
                Ok(_) => self.phase = QueryPhase::Querying,
                Err(e) => self.phase = QueryPhase::Finished(Err(ThrottleError::OpenFailed(e))),
            },
            QueryPhase::Closing(r) => {
                let reported = match (r, outcome) {
                    (Ok(_), Err(e)) => Err(ThrottleError::CloseFailed(e)),
                    _ => r,
                };
                self.phase = QueryPhase::Finished(reported);
            },
            _ => {},
        }
    }

    /// Takes the outcome of the read of the masks.
    pub fn record_read(&mut self, outcome: Result<PowerMasks, i32>)
        ensures
            *final(self) == old(self).spec_after_read(outcome),
            old(self).wf() ==> final(self).wf(),
    {
        if let QueryPhase::Querying = self.phase {
            let r = match outcome {
                Ok(m) => Ok(state_of(m)),
                Err(e) => Err(ThrottleError::QueryFailed(e)),
            };
            self.phase = if self.owns_handle {
                QueryPhase::Closing(r)
            } else {
                QueryPhase::Finished(r)
            };
        }
    }
}

/// What the OS holds for a process or thread, as far as a run writes it.
#[derive(Clone, Copy, Debug, PartialEq, Eq, Structural)]
pub struct PowerRecord {
    pub masks: PowerMasks,
    pub priority: Priority,
}

/// The record after `step` was carried out with success.
pub open spec fn spec_apply(rec: PowerRecord, step: SetStep) -> PowerRecord {
    match step {
        SetStep::Call(Call::SetPower(m)) => PowerRecord { masks: m, ..rec },
        SetStep::Call(Call::SetPriority(p)) => PowerRecord { priority: p, ..rec },
        _ => rec,
    }
}

/// The record after every step of `steps` was carried out with success.
pub open spec fn spec_apply_all(rec: PowerRecord, steps: Seq<SetStep>) -> PowerRecord
    decreases steps.len(),
{
    if steps.len() == 0 {
        rec
    } else {
        spec_apply_all(spec_apply(rec, steps[0]), steps.drop_first())
    }
}

/// Outcomes of calls that all succeed.
pub open spec fn all_ok(n: nat) -> Seq<Result<(), i32>> {
    Seq::new(n, |i: int| Ok(()))
}

/// A fresh set-state run: by id when `owns_handle`, else on a held handle.
pub open spec fn fresh_set_run(
    subject: Subject,
    target: ThrottleState,
    owns_handle: bool,
) -> SetStateRun {
    SetStateRun {
        subject,
        target,
        owns_handle,
        phase: if owns_handle {
            SetPhase::Opening
        } else {
            SetPhase::SettingPower
        },
        failure: None,
    }
}

/// A fresh query run: by id when `owns_handle`, else on a held handle.
pub open spec fn fresh_query_run(subject: Subject, owns_handle: bool) -> QueryRun {
    QueryRun {
        subject,
        owns_handle,
        phase: if owns_handle {
            QueryPhase::Opening
        } else {
            QueryPhase::Querying
        },
    }
}

/// A set-state run that opens its own handle releases it exactly when the
/// open succeeded, as its last call, whatever the other calls returned; the
/// run always ends in `Finish`.
pub proof fn lemma_set_run_releases_handle(
    subject: Subject,
    target: ThrottleState,
    outs: Seq<Result<(), i32>>,
)
    ensures
        ({
            let t = fresh_set_run(subject, target, true).trace(outs);
            &&& t.len() >= 2
            &&& t.last() is Finish
            &&& forall|i: int| 0 <= i < t.len() - 1 ==> t[i] is Call
            &&& outs[0] is Ok ==> t[t.len() - 2] == SetStep::Call(Call::Close)
            &&& forall|i: int|
                0 <= i < t.len() && t[i] == SetStep::Call(Call::Close) ==> outs[0] is Ok && i
                    == t.len() - 2
        }),
{
    reveal_with_fuel(SetStateRun::trace, 6);
    let t = fresh_set_run(subject, target, true).trace(outs);
    if outs[0] is Ok {
        if outs.drop_first()[0] is Ok {
            assert(t.len() == 5);
        } else {
            assert(t.len() == 4);
        }
    } else {
        assert(t.len() == 2);
    }
}

/// A query run that opens its own handle releases it exactly when the open
/// succeeded, as its last call, whatever the read returned; a failed open
/// is reported as `OpenFailed` and no state is read.
pub proof fn lemma_query_run_releases_handle(subject: Subject, outs: Seq<Result<PowerMasks, i32>>)
    ensures
        ({
            let t = fresh_query_run(subject, true).trace(outs);
            &&& t.len() >= 2
            &&& t.last() is Finish
            &&& forall|i: int| 0 <= i < t.len() - 1 ==> t[i] is Call
            &&& outs[0] is Ok ==> t[t.len() - 2] == QueryStep::Call(Call::Close)
            &&& outs[0] is Err ==> t == seq![
                QueryStep::Call(Call::Open(subject, Access::QueryLimitedInformation)),
                QueryStep::Finish(Err(ThrottleError::OpenFailed(outs[0]->Err_0))),
            ]
            &&& forall|i: int|
                0 <= i < t.len() && t[i] == QueryStep::Call(Call::Close) ==> outs[0] is Ok && i
                    == t.len() - 2
        }),
{
    reveal_with_fuel(QueryRun::trace, 5);
    let t = fresh_query_run(subject, true).trace(outs);
    if outs[0] is Ok {
        assert(t.len() == 4);
    } else {
        assert(t.len() == 2);
    }
}

/// A set-state run on a held handle neither opens nor releases one.
pub proof fn lemma_set_run_on_held_handle(
    subject: Subject,
    target: ThrottleState,
    outs: Seq<Result<(), i32>>,
)
    ensures
        ({
            let t = fresh_set_run(subject, target, false).trace(outs);
            &&& t.last() is Finish
            &&& forall|i: int|
                0 <= i < t.len() ==> t[i] != SetStep::Call(Call::Close) && !(t[i] is Call
                    && t[i]->Call_0 is Open)
        }),
{
    reveal_with_fuel(SetStateRun::trace, 4);
    let t = fresh_set_run(subject, target, false).trace(outs);
    if outs[0] is Ok {
        assert(t.len() == 3);
    } else {
        assert(t.len() == 2);
    }
}

/// The result of a set-state run by id: the first failing call decides it.
/// A failed open gives `OpenFailed`; a failed mutation gives `MutationFailed`
/// even when the release fails after it; a failed release gives
/// `CloseFailed` only when both mutations succeeded.
pub proof fn lemma_set_run_result(
    subject: Subject,
    target: ThrottleState,
    outs: Seq<Result<(), i32>>,
)
    requires
        outs.len() >= 4,
    ensures
        fresh_set_run(subject, target, true).trace(outs).last() == SetStep::Finish(
            match (outs[0], outs[1], outs[2], outs[3]) {
                (Err(e), _, _, _) => Err(ThrottleError::OpenFailed(e)),
                (Ok(_), Err(e), _, _) => Err(ThrottleError::MutationFailed(e)),
                (Ok(_), Ok(_), Err(e), _) => Err(ThrottleError::MutationFailed(e)),
                (Ok(_), Ok(_), Ok(_), Err(e)) => Err(ThrottleError::CloseFailed(e)),
                _ => Ok(()),
            },
        ),
{
    reveal_with_fuel(SetStateRun::trace, 6);
    let o1 = outs.drop_first();
    let o2 = o1.drop_first();
    let o3 = o2.drop_first();
    assert(o1[0] == outs[1]);
    assert(o2[0] == outs[2]);
    assert(o3[0] == outs[3]);
}

/// After a set-state run whose calls all succeed, the OS record holds the
/// masks and priority of the target, and a query run whose calls succeed
/// reads the target back.
pub proof fn lemma_query_reads_set_state(
    rec: PowerRecord,
    subject: Subject,
    target: ThrottleState,
    set_owns_handle: bool,
    query_owns_handle: bool,
)
    ensures
        ({
            let after = spec_apply_all(
                rec,
                fresh_set_run(subject, target, set_owns_handle).trace(all_ok(4)),
            );
            &&& after.masks == spec_masks_for(target)
            &&& after.priority == spec_priority_for(target)
            &&& fresh_query_run(subject, query_owns_handle).trace(
                Seq::new(3, |i: int| Ok(after.masks)),
            ).last() == QueryStep::Finish(Ok(target))
        }),
{
    reveal_with_fuel(SetStateRun::trace, 6);
    reveal_with_fuel(QueryRun::trace, 5);
    reveal_with_fuel(spec_apply_all, 6);
    lemma_state_of_masks_for(target);
    let ok4 = all_ok(4);
    assert(ok4.drop_first() =~= all_ok(3));
    assert(all_ok(3).drop_first() =~= all_ok(2));
    assert(all_ok(2).drop_first() =~= all_ok(1));
    let t = fresh_set_run(subject, target, set_owns_handle).trace(ok4);
    let after = spec_apply_all(rec, t);
    let read = Ok::<PowerMasks, i32>(after.masks);
    let reads = Seq::new(3, |i: int| read);
    assert(reads.drop_first() =~= Seq::new(2, |i: int| read));
    assert(reads.drop_first().drop_first() =~= Seq::new(1, |i: int| read));
    if set_owns_handle {
        assert(t.drop_first().drop_first().drop_first().drop_first().drop_first().len() == 0);
    } else {
        assert(t.drop_first().drop_first().drop_first().len() == 0);
    }
}

/// Moving to a state twice leaves the OS record as moving to it once.
pub proof fn lemma_set_state_idempotent(
    rec: PowerRecord,
    subject: Subject,
    target: ThrottleState,
    owns_handle: bool,
)
    ensures
        ({
            let t = fresh_set_run(subject, target, owns_handle).trace(all_ok(4));
            spec_apply_all(spec_apply_all(rec, t), t) == spec_apply_all(rec, t)
        }),
{
    lemma_query_reads_set_state(rec, subject, target, owns_handle, true);
    let t = fresh_set_run(subject, target, owns_handle).trace(all_ok(4));
    lemma_query_reads_set_state(spec_apply_all(rec, t), subject, target, owns_handle, true);
}

/// How many of the first `n` steps of `t` release a handle.
pub open spec fn closes_before(t: Seq<SetStep>, n: nat) -> nat
    decreases n,
{
    if n == 0 {
        0
    } else {
        closes_before(t, (n - 1) as nat) + if t[n - 1] == SetStep::Call(Call::Close) {
            1nat
        } else {
            0nat
        }
    }
}

/// How many steps of `t` release a handle.
pub open spec fn closes_in(t: Seq<SetStep>) -> nat {
    closes_before(t, t.len())
}

proof fn lemma_closes_before_single(t: Seq<SetStep>, n: nat, k: int)
    requires
        n <= t.len(),
        forall|i: int| 0 <= i < n && t[i] == SetStep::Call(Call::Close) ==> i == k,
    ensures
        closes_before(t, n) == if 0 <= k < n && t[k] == SetStep::Call(Call::Close) {
            1nat
        } else {
            0nat
        },
    decreases n,
{
    if n > 0 {
        lemma_closes_before_single(t, (n - 1) as nat, k);
    }
}

/// Handles left open after by-id set-state runs on the subject, one for
/// each of `targets` in order, the `i`-th run's calls coming back with
/// `outs[i]`: one for each open that succeeded, less one for each release.
pub open spec fn handles_left_open(
    subject: Subject,
    targets: Seq<ThrottleState>,
    outs: Seq<Seq<Result<(), i32>>>,
) -> int
    decreases targets.len(),
{
    if targets.len() == 0 {
        0
    } else {
        let i = targets.len() - 1;
        let t = fresh_set_run(subject, targets[i], true).trace(outs[i]);
        handles_left_open(subject, targets.drop_last(), outs) + (if outs[i][0] is Ok {
            1int
        } else {
            0int
        }) - closes_in(t)
    }
}

/// Any number of set-state runs by id, throttling and unthrottling in any
/// order, with any mix of successes and failures, leave no handle open.
pub proof fn lemma_cycles_leave_no_handle_open(
    subject: Subject,
    targets: Seq<ThrottleState>,
    outs: Seq<Seq<Result<(), i32>>>,
)
    ensures
        handles_left_open(subject, targets, outs) == 0,
    decreases targets.len(),
{
    if targets.len() > 0 {
        let i = targets.len() - 1;
        let o = outs[i];
        let t = fresh_set_run(subject, targets[i], true).trace(o);
        lemma_set_run_releases_handle(subject, targets[i], o);
        let k = if o[0] is Ok {
            t.len() - 2
        } else {
            -1
        };
        lemma_closes_before_single(t, t.len(), k);
        lemma_cycles_leave_no_handle_open(subject, targets.drop_last(), outs);
    }
}

/// A query by id whose open fails, as on the id of a process that exited,
/// reports `OpenFailed` and reads no state, whatever was set before: a query
/// run starts from nothing but the subject and opens a fresh handle.
pub proof fn lemma_stale_id_query_fails_open(
    subject: Subject,
    e: i32,
    outs: Seq<Result<PowerMasks, i32>>,
)
    requires
        outs.len() > 0,
        outs[0] == Err::<PowerMasks, i32>(e),
    ensures
        fresh_query_run(subject, true).trace(outs) == seq![
            QueryStep::Call(Call::Open(subject, Access::QueryLimitedInformation)),
            QueryStep::Finish(Err(ThrottleError::OpenFailed(e))),
        ],
{
    lemma_query_run_releases_handle(subject, outs);
}

} // verus!
