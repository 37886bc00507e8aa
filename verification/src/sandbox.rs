//! The sandboxed-execution invoker, as a state machine. One invocation
//! walks a fixed pipeline — load the module, build the configuration,
//! instantiate the execution environment, initialize its I/O capability,
//! run the entry point, release the environment — where every outside step
//! is performed by a driver that reports each step's outcome back as an
//! event. The machine decides the next step; it guarantees that an
//! execution environment, once created, is released exactly once on every
//! exit path.

use vstd::prelude::*;

verus! {

/// A failure surfaced by the sandbox runtime, carried as a rendering of
/// its description.
pub struct SandboxError {
    pub description: String,
}

/// Mathematical view of a sandbox failure.
pub ghost struct SandboxErrorV {
    pub description: Seq<char>,
}

impl View for SandboxError {
    type V = SandboxErrorV;

    open spec fn view(&self) -> SandboxErrorV {
        SandboxErrorV { description: self.description@ }
    }
}

/// View of an optional sandbox failure.
pub open spec fn opt_error_view(o: Option<SandboxError>) -> Option<SandboxErrorV> {
    match o {
        Option::None => Option::None,
        Option::Some(e) => Option::Some(e@),
    }
}

/// The outcome of the outside step the driver just performed.
pub enum StepEvent {
    Succeeded,
    Failed { error: SandboxError },
}

/// Mathematical view of a step event.
pub ghost enum StepEventV {
    Succeeded,
    Failed { error: SandboxErrorV },
}

impl View for StepEvent {
    type V = StepEventV;

    open spec fn view(&self) -> StepEventV {
        match self {
            StepEvent::Succeeded => StepEventV::Succeeded,
            StepEvent::Failed { error } => StepEventV::Failed { error: error@ },
        }
    }
}

/// The next outside step the driver must perform.
#[derive(Clone, Copy, PartialEq, Eq, Debug, Structural)]
pub enum Action {
    /// Resolve the module reference and load its bytecode.
    LoadModule,
    /// Build the execution configuration with the I/O capability enabled.
    BuildConfig,
    /// Construct the execution environment bound to module and configuration.
    Instantiate,
    /// Initialize the environment's I/O capability context.
    InitializeIo,
    /// Invoke the named entry point and await its completion.
    RunEntry,
    /// Tear the execution environment down.
    Release,
    /// Nothing is left to do; the invocation's result is available.
    Finish,
}

/// State of one sandboxed invocation. `Releasing` and the two states
/// before it are the only states in which an execution environment is
/// alive; `Done` records the invocation's result.
pub enum InvokerState {
    LoadingModule,
    BuildingConfig,
    Instantiating,
    InitializingIo,
    Running,
    Releasing { failure: Option<SandboxError> },
    Done { failure: Option<SandboxError> },
}

/// Mathematical view of an invocation state.
pub ghost enum InvokerStateV {
    LoadingModule,
    BuildingConfig,
    Instantiating,
    InitializingIo,
    Running,
    Releasing { failure: Option<SandboxErrorV> },
    Done { failure: Option<SandboxErrorV> },
}

impl View for InvokerState {
    type V = InvokerStateV;

    open spec fn view(&self) -> InvokerStateV {
        match self {
            InvokerState::LoadingModule => InvokerStateV::LoadingModule,
            InvokerState::BuildingConfig => InvokerStateV::BuildingConfig,
            InvokerState::Instantiating => InvokerStateV::Instantiating,
            InvokerState::InitializingIo => InvokerStateV::InitializingIo,
            InvokerState::Running => InvokerStateV::Running,
            InvokerState::Releasing { failure } => InvokerStateV::Releasing {
                failure: opt_error_view(*failure),
            },
            InvokerState::Done { failure } => InvokerStateV::Done {
                failure: opt_error_view(*failure),
            },
        }
    }
}

/// Whether an execution environment is alive in this state. It comes into
/// being when instantiation succeeds and stays alive until released.
pub open spec fn env_alive(s: InvokerStateV) -> bool {
    match s {
        InvokerStateV::InitializingIo => true,
        InvokerStateV::Running => true,
        InvokerStateV::Releasing { .. } => true,
        _ => false,
    }
}

/// The next outside step for each state.
pub open spec fn action_spec(s: InvokerStateV) -> Action {
    match s {
        InvokerStateV::LoadingModule => Action::LoadModule,
        InvokerStateV::BuildingConfig => Action::BuildConfig,
        InvokerStateV::Instantiating => Action::Instantiate,
        InvokerStateV::InitializingIo => Action::InitializeIo,
        InvokerStateV::Running => Action::RunEntry,
        InvokerStateV::Releasing { .. } => Action::Release,
        InvokerStateV::Done { .. } => Action::Finish,
    }
}

/// The transition on a step's reported outcome. A failure before the
/// environment exists ends the invocation at once; a failure once it is
/// alive routes through `Releasing`, so that the environment is torn down
/// on that path too. Release itself is unconditional teardown, and `Done`
/// absorbs every further event.
pub open spec fn step_spec(s: InvokerStateV, e: StepEventV) -> InvokerStateV {
    match s {
        InvokerStateV::LoadingModule => match e {
            StepEventV::Succeeded => InvokerStateV::BuildingConfig,
            StepEventV::Failed { error } => InvokerStateV::Done {
                failure: Option::Some(error),
            },
        },
        InvokerStateV::BuildingConfig => match e {
            StepEventV::Succeeded => InvokerStateV::Instantiating,
            StepEventV::Failed { error } => InvokerStateV::Done {
                failure: Option::Some(error),
            },
        },
        InvokerStateV::Instantiating => match e {
            StepEventV::Succeeded => InvokerStateV::InitializingIo,
            StepEventV::Failed { error } => InvokerStateV::Done {
                failure: Option::Some(error),
            },
        },
        InvokerStateV::InitializingIo => match e {
            StepEventV::Succeeded => InvokerStateV::Running,
            StepEventV::Failed { error } => InvokerStateV::Releasing {
                failure: Option::Some(error),
            },
        },
        InvokerStateV::Running => match e {
            StepEventV::Succeeded => InvokerStateV::Releasing { failure: Option::None },
            StepEventV::Failed { error } => InvokerStateV::Releasing {
                failure: Option::Some(error),
            },
        },
        InvokerStateV::Releasing { failure } => InvokerStateV::Done { failure },
        InvokerStateV::Done { failure } => InvokerStateV::Done { failure },
    }
}

/// The state a fresh invocation starts in.
pub fn start_state() -> (s: InvokerState)
    ensures
        s@ == InvokerStateV::LoadingModule,
{
    InvokerState::LoadingModule
}

/// The next outside step the driver must perform from this state.
pub fn action_of(s: &InvokerState) -> (a: Action)
    ensures
        a == action_spec(s@),
{
    match s {
        InvokerState::LoadingModule => Action::LoadModule,
        InvokerState::BuildingConfig => Action::BuildConfig,
        InvokerState::Instantiating => Action::Instantiate,
        InvokerState::InitializingIo => Action::InitializeIo,
        InvokerState::Running => Action::RunEntry,
        InvokerState::Releasing { .. } => Action::Release,
        InvokerState::Done { .. } => Action::Finish,
    }
}

/// Advances the invocation on the outcome of the step just performed.
pub fn step(s: InvokerState, e: StepEvent) -> (next: InvokerState)
    ensures
        next@ == step_spec(s@, e@),
{
    match s {
        InvokerState::LoadingModule => match e {
            StepEvent::Succeeded => InvokerState::BuildingConfig,
            StepEvent::Failed { error } => InvokerState::Done { failure: Some(error) },
        },
        InvokerState::BuildingConfig => match e {
            StepEvent::Succeeded => InvokerState::Instantiating,
            StepEvent::Failed { error } => InvokerState::Done { failure: Some(error) },
        },
        InvokerState::Instantiating => match e {
            StepEvent::Succeeded => InvokerState::InitializingIo,
            StepEvent::Failed { error } => InvokerState::Done { failure: Some(error) },
        },
        InvokerState::InitializingIo => match e {
            StepEvent::Succeeded => InvokerState::Running,
            StepEvent::Failed { error } => InvokerState::Releasing { failure: Some(error) },
        },
        InvokerState::Running => match e {
            StepEvent::Succeeded => InvokerState::Releasing { failure: None },
            StepEvent::Failed { error } => InvokerState::Releasing { failure: Some(error) },
        },
        InvokerState::Releasing { failure } => InvokerState::Done { failure },
        InvokerState::Done { failure } => InvokerState::Done { failure },
    }
}

/// The state after a whole sequence of step outcomes.
pub open spec fn run_steps(s: InvokerStateV, events: Seq<StepEventV>) -> InvokerStateV
    decreases events.len(),
{
    if events.len() == 0 {
        s
    } else {
        run_steps(step_spec(s, events.first()), events.drop_first())
    }
}

/// How many of the steps in a run tear an environment down: those taken
/// from a `Releasing` state.
pub open spec fn release_count(s: InvokerStateV, events: Seq<StepEventV>) -> nat
    decreases events.len(),
{
    if events.len() == 0 {
        0
    } else {
        (if s is Releasing {
            1nat
        } else {
            0nat
        }) + release_count(step_spec(s, events.first()), events.drop_first())
    }
}

/// How many of the steps in a run bring an environment into being: the
/// successful instantiation steps.
pub open spec fn create_count(s: InvokerStateV, events: Seq<StepEventV>) -> nat
    decreases events.len(),
{
    if events.len() == 0 {
        0
    } else {
        (if s is Instantiating && events.first() is Succeeded {
            1nat
        } else {
            0nat
        }) + create_count(step_spec(s, events.first()), events.drop_first())
    }
}

/// One when an environment is alive in this state, zero otherwise.
pub open spec fn alive_count(s: InvokerStateV) -> nat {
    if env_alive(s) {
        1
    } else {
        0
    }
}

/// Environments are conserved: over any run, the environments created plus
/// those alive at the start equal the environments released plus those
/// alive at the end. No path creates an environment without accounting for
/// its release.
pub proof fn lemma_release_balance(s: InvokerStateV, events: Seq<StepEventV>)
    ensures
        release_count(s, events) + alive_count(run_steps(s, events)) == create_count(s, events)
            + alive_count(s),
    decreases events.len(),
{
    if events.len() > 0 {
        lemma_release_balance(step_spec(s, events.first()), events.drop_first());
    }
}

/// A finished invocation never leaves an environment alive, and it
/// released exactly as many environments as it created: teardown runs
/// exactly once whenever instantiation succeeded, and never otherwise.
pub proof fn lemma_no_leak(events: Seq<StepEventV>)
    requires
        run_steps(InvokerStateV::LoadingModule, events) is Done,
    ensures
        !env_alive(run_steps(InvokerStateV::LoadingModule, events)),
        release_count(InvokerStateV::LoadingModule, events) == create_count(
            InvokerStateV::LoadingModule,
            events,
        ),
{
    lemma_release_balance(InvokerStateV::LoadingModule, events);
}

/// Teardown never runs twice in one invocation, finished or not: from the
/// start state, at most one step of any run releases an environment.
pub proof fn lemma_release_at_most_once(events: Seq<StepEventV>)
    ensures
        release_count(InvokerStateV::LoadingModule, events) <= 1,
{
    lemma_create_at_most_once(InvokerStateV::LoadingModule, events);
    lemma_release_balance(InvokerStateV::LoadingModule, events);
}

/// From any state that has no live environment and is not yet past
/// instantiation more than once, an invocation instantiates at most one
/// environment; from a state with a live one, none.
proof fn lemma_create_at_most_once(s: InvokerStateV, events: Seq<StepEventV>)
    ensures
        create_count(s, events) + alive_count(s) <= 1 || s is Done,
        s is Done ==> create_count(s, events) == 0,
    decreases events.len(),
{
    if events.len() > 0 {
        lemma_create_at_most_once(step_spec(s, events.first()), events.drop_first());
    }
}

/// At most one execution environment ever comes into being in one
/// invocation: environments are neither shared nor reused, and none is
/// created after the first.
pub proof fn lemma_single_environment(events: Seq<StepEventV>)
    ensures
        create_count(InvokerStateV::LoadingModule, events) <= 1,
{
    lemma_create_at_most_once(InvokerStateV::LoadingModule, events);
}

/// The machine never invents a failure: an invocation that finishes
/// failed carries the very description some step reported.
pub proof fn lemma_failure_from_event(events: Seq<StepEventV>, e: SandboxErrorV)
    requires
        run_steps(InvokerStateV::LoadingModule, events) == (InvokerStateV::Done {
            failure: Option::Some(e),
        }),
    ensures
        exists|i: int|
            0 <= i < events.len() && events[i] == (StepEventV::Failed { error: e }),
{
    lemma_failure_carried(InvokerStateV::LoadingModule, events, e);
}

/// A failure in the finished state was either already carried by the
/// starting state or reported by one of the events.
proof fn lemma_failure_carried(s: InvokerStateV, events: Seq<StepEventV>, e: SandboxErrorV)
    requires
        run_steps(s, events) == (InvokerStateV::Done { failure: Option::Some(e) }),
    ensures
        s == (InvokerStateV::Releasing { failure: Option::Some(e) }) || s
            == (InvokerStateV::Done { failure: Option::Some(e) }) || exists|i: int|
            0 <= i < events.len() && events[i] == (StepEventV::Failed { error: e }),
    decreases events.len(),
{
    if events.len() > 0 {
        let next = step_spec(s, events.first());
        lemma_failure_carried(next, events.drop_first(), e);
        if next == (InvokerStateV::Releasing { failure: Option::Some(e) }) || next
            == (InvokerStateV::Done { failure: Option::Some(e) }) {
            if s != (InvokerStateV::Releasing { failure: Option::Some(e) }) && s
                != (InvokerStateV::Done { failure: Option::Some(e) }) {
                assert(events[0] == events.first());
                assert(events[0] == (StepEventV::Failed { error: e }));
            }
        } else {
            let j = choose|i: int|
                0 <= i < events.drop_first().len() && events.drop_first()[i] == (StepEventV::Failed {
                    error: e,
                });
            assert(events[j + 1] == events.drop_first()[j]);
        }
    }
}

} // verus!
