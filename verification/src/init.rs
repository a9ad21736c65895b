//! One-time initialisation of the native counter library.
//!
//! The native library keeps state for the whole process: it must be
//! initialised once, and the thread that uses it registered once. An
//! [`InitGuard`] is the process-wide record of that, and [`Papi::init`]
//! decides, call by call, what an attempt to initialise does next. The
//! caller that holds the guard under the process's lock makes the native
//! calls and reports what each returned.

use crate::config::{Config, Presets};
use crate::error::{ErrorKind, ErrorView, PAPI_OK};
use vstd::prelude::*;
use vstd::string::StringExecFns;

verus! {

/// Status with which the native library reports that it has been initialised.
pub const PAPI_LOW_LEVEL_INITED: i32 = 1;

/// A call into the native counter library.
#[derive(Debug, Clone, Copy, PartialEq, Eq)]
pub enum NativeCall {
    /// Ask whether the library has been initialised.
    IsInitialized,
    /// Initialise the library, requesting the given version.
    LibraryInit(i32),
    /// Register the calling thread with the library.
    ThreadInit,
}

/// What an attempt waits for.
#[derive(Debug, Clone, Copy, PartialEq, Eq)]
pub enum InitPhase {
    /// No attempt is under way.
    Idle,
    /// The answer to [`NativeCall::IsInitialized`].
    Querying,
    /// The answer to [`NativeCall::LibraryInit`].
    Initializing,
    /// The answer to [`NativeCall::ThreadInit`].
    Registering,
}

/// What happened since the last step.
#[derive(Debug, Clone, Copy, PartialEq, Eq)]
pub enum InitEvent {
    /// A caller asks for initialisation.
    Begin,
    /// The native call that the last step asked for returned this status.
    Returned(i32),
}

/// A handle to the initialised counter library, with the configuration that
/// it was given, if any.
#[derive(Debug)]
pub struct Papi {
    config: Option<Config>,
}

impl View for Papi {
    type V = Option<Option<Presets>>;

    closed spec fn view(&self) -> Option<Option<Presets>> {
        match self.config {
            Some(config) => Some(config@),
            None => None,
        }
    }
}

/// What to do next in an attempt to initialise.
#[derive(Debug)]
pub enum InitStep {
    /// Make this native call and report its status.
    Call(NativeCall),
    /// The attempt is over, with this result.
    Done(Result<Papi, ErrorKind>),
}

/// Mathematical model of an [`InitStep`].
pub enum InitStepView {
    Call(NativeCall),
    Done(Result<Option<Option<Presets>>, ErrorView>),
}

impl View for InitStep {
    type V = InitStepView;

    open spec fn view(&self) -> InitStepView {
        match self {
            InitStep::Call(call) => InitStepView::Call(*call),
            InitStep::Done(Ok(papi)) => InitStepView::Done(Ok(papi@)),
            InitStep::Done(Err(error)) => InitStepView::Done(Err(error@)),
        }
    }
}

/// Mathematical model of an [`InitGuard`].
pub struct InitState {
    /// Whether the native library has been initialised and the thread
    /// registered.
    pub initialized: bool,
    /// The version of the native library that is requested.
    pub version: i32,
    /// What the attempt under way waits for.
    pub phase: InitPhase,
}

/// The process-wide record of initialisation.
#[derive(Debug)]
pub struct InitGuard {
    initialized: bool,
    version: i32,
    phase: InitPhase,
}

impl View for InitGuard {
    type V = InitState;

    closed spec fn view(&self) -> InitState {
        InitState { initialized: self.initialized, version: self.version, phase: self.phase }
    }
}

impl InitState {
    /// The state in which the attempt waits for `phase`.
    pub open spec fn waiting(self, phase: InitPhase) -> InitState {
        InitState { phase, ..self }
    }

    /// The state in which no attempt is under way, with the record of
    /// initialisation as it is.
    pub open spec fn idle(self) -> InitState {
        InitState { phase: InitPhase::Idle, ..self }
    }

    /// An attempt ended with a handle that carries no configuration.
    pub open spec fn ready() -> InitStepView {
        InitStepView::Done(Ok(None))
    }

    /// An attempt ended because a native call returned `status`.
    pub open spec fn failed(status: i32) -> InitStepView {
        InitStepView::Done(Err(ErrorView::PapiError(status as int)))
    }

    /// A status was reported though no native call had been asked for.
    pub open spec fn unexpected() -> InitStepView {
        InitStepView::Done(Err(ErrorView::InvalidArgument("no native call is pending"@)))
    }

    /// The state after `event`, and what is to be done next.
    ///
    /// An attempt begins by asking the native library whether it has been
    /// initialised, unless this guard has recorded so already. If it has not
    /// been, the library is initialised, and must answer with the version
    /// requested. Then the thread is registered. Only when that has
    /// succeeded is initialisation recorded. A new beginning abandons an
    /// attempt under way. A status that is reported while no call is
    /// pending changes nothing and is refused as an invalid argument.
    pub open spec fn step(self, event: InitEvent) -> (InitState, InitStepView) {
        match event {
            InitEvent::Begin => if self.initialized {
                (self.idle(), Self::ready())
            } else {
                (self.waiting(InitPhase::Querying), InitStepView::Call(NativeCall::IsInitialized))
            },
            InitEvent::Returned(status) => match self.phase {
                InitPhase::Idle => (self, Self::unexpected()),
                InitPhase::Querying => if status != PAPI_LOW_LEVEL_INITED {
                    (
                        self.waiting(InitPhase::Initializing),
                        InitStepView::Call(NativeCall::LibraryInit(self.version)),
                    )
                } else {
                    (
                        self.waiting(InitPhase::Registering),
                        InitStepView::Call(NativeCall::ThreadInit),
                    )
                },
                InitPhase::Initializing => if status != self.version {
                    (self.idle(), Self::failed(status))
                } else {
                    (
                        self.waiting(InitPhase::Registering),
                        InitStepView::Call(NativeCall::ThreadInit),
                    )
                },
                InitPhase::Registering => if status != PAPI_OK {
                    (self.idle(), Self::failed(status))
                } else {
                    (InitState { initialized: true, ..self.idle() }, Self::ready())
                },
            },
        }
    }
}

impl InitGuard {
    /// The guard of a process in which nothing has been initialised yet.
    /// `version` is the version of the native library to request.
    pub fn new(version: i32) -> (guard: InitGuard)
        ensures
            guard@ == (InitState { initialized: false, version, phase: InitPhase::Idle }),
    {
        InitGuard { initialized: false, version, phase: InitPhase::Idle }
    }

    /// Whether initialisation has been recorded.
    pub fn is_initialized(&self) -> (initialized: bool)
        ensures
            initialized == self@.initialized,
    {
        self.initialized
    }

    /// The version of the native library that is requested.
    pub fn version(&self) -> (version: i32)
        ensures
            version == self@.version,
    {
        self.version
    }

    /// What the attempt under way waits for.
    pub fn phase(&self) -> (phase: InitPhase)
        ensures
            phase == self@.phase,
    {
        self.phase
    }
}

impl Papi {
    /// Takes one step of an attempt to initialise the native library.
    ///
    /// `guard` is the process-wide record, which the caller holds under the
    /// process's lock for the whole attempt. The first step of an attempt
    /// takes [`InitEvent::Begin`]; each later one takes the status that the
    /// native call returned which the step before asked for. The attempt is
    /// over when a step answers [`InitStep::Done`].
    pub fn init(guard: &mut InitGuard, event: InitEvent) -> (step: InitStep)
        ensures
            (final(guard)@, step@) == old(guard)@.step(event),
    {
        match event {
            InitEvent::Begin => {
                if guard.initialized {
                    guard.phase = InitPhase::Idle;
                    return InitStep::Done(Ok(Papi { config: None }));
                }
                guard.phase = InitPhase::Querying;
                InitStep::Call(NativeCall::IsInitialized)
            },
            InitEvent::Returned(status) => match guard.phase {
                InitPhase::Idle => InitStep::Done(
                    Err(ErrorKind::InvalidArgument(String::from_str("no native call is pending"))),
                ),
                InitPhase::Querying => {
                    if status != PAPI_LOW_LEVEL_INITED {
                        guard.phase = InitPhase::Initializing;
                        return InitStep::Call(NativeCall::LibraryInit(guard.version));
                    }
                    guard.phase = InitPhase::Registering;
                    InitStep::Call(NativeCall::ThreadInit)
                },
                InitPhase::Initializing => {
                    if status != guard.version {
                        guard.phase = InitPhase::Idle;
                        return InitStep::Done(Err(ErrorKind::PapiError(status)));
                    }
                    guard.phase = InitPhase::Registering;
                    InitStep::Call(NativeCall::ThreadInit)
                },
                InitPhase::Registering => {
                    guard.phase = InitPhase::Idle;
                    if status != PAPI_OK {
                        return InitStep::Done(Err(ErrorKind::PapiError(status)));
                    }
                    guard.initialized = true;
                    InitStep::Done(Ok(Papi { config: None }))
                },
            },
        }
    }

    /// Attaches `config` to the handle that initialisation gave; a failure
    /// of initialisation is passed on unchanged.
    pub fn init_with_config(init: Result<Papi, ErrorKind>, config: Config) -> (result: Result<
        Papi,
        ErrorKind,
    >)
        ensures
            match init {
                Ok(_) => result matches Ok(papi) && papi@ == Some(config@),
                Err(error) => result == Err::<Papi, ErrorKind>(error),
            },
    {
        let mut papi = match init {
            Ok(papi) => papi,
            Err(error) => {
                return Err(error);
            },
        };
        papi.config = Some(config);
        Ok(papi)
    }

    /// The configuration that the handle carries, if any.
    pub fn config(&self) -> (config: Option<&Config>)
        ensures
            match config {
                Some(config) => self@ == Some(config@),
                None => self@ is None,
            },
    {
        self.config.as_ref()
    }
}

} // verus!
