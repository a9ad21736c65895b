use papi::{
    Config, ErrorKind, InitEvent, InitGuard, InitPhase, InitStep, NativeCall, Papi,
    PAPI_LOW_LEVEL_INITED, PAPI_OK,
};

const VERSION: i32 = 0x0700_0000;

/// A native library that counts what it is asked.
struct Native {
    initialized: bool,
    library_init: i32,
    thread_init: i32,
    calls: Vec<NativeCall>,
}

impl Native {
    fn working() -> Native {
        Native { initialized: false, library_init: VERSION, thread_init: PAPI_OK, calls: Vec::new() }
    }

    fn perform(&mut self, call: NativeCall) -> i32 {
        self.calls.push(call);
        match call {
            NativeCall::IsInitialized => {
                if self.initialized {
                    PAPI_LOW_LEVEL_INITED
                } else {
                    0
                }
            }
            NativeCall::LibraryInit(version) => {
                if self.library_init == version {
                    self.initialized = true;
                }
                self.library_init
            }
            NativeCall::ThreadInit => self.thread_init,
        }
    }

    fn count(&self, call: NativeCall) -> usize {
        self.calls.iter().filter(|made| **made == call).count()
    }
}

fn attempt(guard: &mut InitGuard, native: &mut Native) -> Result<Papi, ErrorKind> {
    let mut step = Papi::init(guard, InitEvent::Begin);
    loop {
        match step {
            InitStep::Done(result) => return result,
            InitStep::Call(call) => {
                let status = native.perform(call);
                step = Papi::init(guard, InitEvent::Returned(status));
            }
        }
    }
}

#[test]
fn new_guard_has_nothing_on_record() {
    let guard = InitGuard::new(VERSION);
    assert!(!guard.is_initialized());
    assert_eq!(guard.version(), VERSION);
    assert_eq!(guard.phase(), InitPhase::Idle);
}

#[test]
fn first_attempt_queries_initialises_and_registers() {
    let mut guard = InitGuard::new(VERSION);
    let mut native = Native::working();
    let papi = attempt(&mut guard, &mut native).unwrap();
    assert!(papi.config().is_none());
    assert!(guard.is_initialized());
    assert_eq!(guard.phase(), InitPhase::Idle);
    assert_eq!(
        native.calls,
        vec![NativeCall::IsInitialized, NativeCall::LibraryInit(VERSION), NativeCall::ThreadInit]
    );
}

#[test]
fn steps_follow_the_protocol() {
    let mut guard = InitGuard::new(VERSION);
    assert!(matches!(
        Papi::init(&mut guard, InitEvent::Begin),
        InitStep::Call(NativeCall::IsInitialized)
    ));
    assert_eq!(guard.phase(), InitPhase::Querying);
    match Papi::init(&mut guard, InitEvent::Returned(0)) {
        InitStep::Call(call) => assert_eq!(call, NativeCall::LibraryInit(VERSION)),
        InitStep::Done(_) => panic!("the library is not initialised yet"),
    }
    assert_eq!(guard.phase(), InitPhase::Initializing);
    assert!(matches!(
        Papi::init(&mut guard, InitEvent::Returned(VERSION)),
        InitStep::Call(NativeCall::ThreadInit)
    ));
    assert_eq!(guard.phase(), InitPhase::Registering);
    assert!(!guard.is_initialized());
    assert!(matches!(
        Papi::init(&mut guard, InitEvent::Returned(PAPI_OK)),
        InitStep::Done(Ok(_))
    ));
    assert!(guard.is_initialized());
    assert_eq!(guard.phase(), InitPhase::Idle);
}

#[test]
fn initialization_is_idempotent() {
    let mut guard = InitGuard::new(VERSION);
    let mut native = Native::working();
    for _ in 0..5 {
        let papi = attempt(&mut guard, &mut native).unwrap();
        assert!(papi.config().is_none());
        assert!(guard.is_initialized());
    }
    assert_eq!(native.count(NativeCall::IsInitialized), 1);
    assert_eq!(native.count(NativeCall::LibraryInit(VERSION)), 1);
    assert_eq!(native.count(NativeCall::ThreadInit), 1);
    assert_eq!(native.calls.len(), 3);
}

#[test]
fn library_initialised_elsewhere_is_not_initialised_again() {
    let mut guard = InitGuard::new(VERSION);
    let mut native = Native::working();
    native.initialized = true;
    assert!(attempt(&mut guard, &mut native).is_ok());
    assert!(attempt(&mut guard, &mut native).is_ok());
    assert_eq!(native.calls, vec![NativeCall::IsInitialized, NativeCall::ThreadInit]);
}

#[test]
fn version_mismatch_is_passed_on() {
    let mut guard = InitGuard::new(VERSION);
    let mut native = Native::working();
    native.library_init = 0x0601_0000;
    let error = attempt(&mut guard, &mut native).unwrap_err();
    assert_eq!(error, ErrorKind::PapiError(0x0601_0000));
    assert!(!guard.is_initialized());
    assert_eq!(guard.phase(), InitPhase::Idle);
    assert_eq!(native.calls, vec![NativeCall::IsInitialized, NativeCall::LibraryInit(VERSION)]);

    let again = attempt(&mut guard, &mut native).unwrap_err();
    assert_eq!(again, ErrorKind::PapiError(0x0601_0000));
    assert_eq!(native.count(NativeCall::IsInitialized), 2);
    assert_eq!(native.count(NativeCall::LibraryInit(VERSION)), 2);
    assert_eq!(native.count(NativeCall::ThreadInit), 0);
}

#[test]
fn negative_status_of_library_init_is_passed_on() {
    let mut guard = InitGuard::new(VERSION);
    let mut native = Native::working();
    native.library_init = -1;
    assert_eq!(attempt(&mut guard, &mut native).unwrap_err(), ErrorKind::PapiError(-1));
    assert!(!guard.is_initialized());
}

#[test]
fn failed_registration_leaves_nothing_on_record() {
    let mut guard = InitGuard::new(VERSION);
    let mut native = Native::working();
    native.thread_init = -4;
    let error = attempt(&mut guard, &mut native).unwrap_err();
    assert_eq!(error, ErrorKind::PapiError(-4));
    assert!(!guard.is_initialized());
    assert_eq!(guard.phase(), InitPhase::Idle);
}

#[test]
fn attempt_after_a_failure_tries_again() {
    let mut guard = InitGuard::new(VERSION);
    let mut native = Native::working();
    native.thread_init = -4;
    assert!(attempt(&mut guard, &mut native).is_err());
    native.thread_init = PAPI_OK;
    assert!(attempt(&mut guard, &mut native).is_ok());
    assert!(guard.is_initialized());
    assert_eq!(
        native.calls,
        vec![
            NativeCall::IsInitialized,
            NativeCall::LibraryInit(VERSION),
            NativeCall::ThreadInit,
            NativeCall::IsInitialized,
            NativeCall::ThreadInit,
        ]
    );
}

#[test]
fn status_without_pending_call_is_refused() {
    let mut guard = InitGuard::new(VERSION);
    match Papi::init(&mut guard, InitEvent::Returned(PAPI_OK)) {
        InitStep::Done(Err(error)) => assert_eq!(
            error,
            ErrorKind::InvalidArgument(String::from("no native call is pending"))
        ),
        _ => panic!("a status was accepted though no call was pending"),
    }
    assert!(!guard.is_initialized());
    assert_eq!(guard.phase(), InitPhase::Idle);
}

#[test]
fn status_after_success_is_refused_and_changes_nothing() {
    let mut guard = InitGuard::new(VERSION);
    let mut native = Native::working();
    assert!(attempt(&mut guard, &mut native).is_ok());
    assert!(matches!(
        Papi::init(&mut guard, InitEvent::Returned(-1)),
        InitStep::Done(Err(ErrorKind::InvalidArgument(_)))
    ));
    assert!(guard.is_initialized());
}

#[test]
fn begin_abandons_an_attempt_under_way() {
    let mut guard = InitGuard::new(VERSION);
    assert!(matches!(Papi::init(&mut guard, InitEvent::Begin), InitStep::Call(_)));
    assert!(matches!(Papi::init(&mut guard, InitEvent::Returned(0)), InitStep::Call(_)));
    assert_eq!(guard.phase(), InitPhase::Initializing);
    assert!(matches!(
        Papi::init(&mut guard, InitEvent::Begin),
        InitStep::Call(NativeCall::IsInitialized)
    ));
    assert_eq!(guard.phase(), InitPhase::Querying);
}

#[test]
fn init_with_config_attaches_the_configuration() {
    let mut guard = InitGuard::new(VERSION);
    let mut native = Native::working();
    let config = Config::parse_str("[presets]\nTest1 = [\"UOPS_RETIRED:ALL\"]\n").unwrap();
    let papi = Papi::init_with_config(attempt(&mut guard, &mut native), config).unwrap();
    let attached = papi.config().expect("the configuration is attached");
    assert_eq!(attached.preset("Test1"), Some(&vec![String::from("UOPS_RETIRED:ALL")]));
}

#[test]
fn init_with_config_passes_a_failure_on() {
    let mut guard = InitGuard::new(VERSION);
    let mut native = Native::working();
    native.thread_init = -9;
    let config = Config::parse_str("").unwrap();
    let result = Papi::init_with_config(attempt(&mut guard, &mut native), config);
    assert_eq!(result.unwrap_err(), ErrorKind::PapiError(-9));
}
