//! Whole attempts to initialise, and what holds of them.
//!
//! [`Papi::init`](crate::init::Papi::init) takes one step at a time. Here an
//! attempt is described from its beginning to its end, for a native library
//! that answers in a given way, and so are several attempts in a row.

use crate::config::Presets;
use crate::error::{ErrorView, PAPI_OK};
use crate::init::{
    InitEvent, InitPhase, InitState, InitStepView, NativeCall, PAPI_LOW_LEVEL_INITED,
};
use vstd::prelude::*;

verus! {

/// The statuses with which the native library answers the calls of one
/// attempt.
pub struct NativeReplies {
    /// Its answer to [`NativeCall::IsInitialized`].
    pub is_initialized: i32,
    /// Its answer to [`NativeCall::LibraryInit`].
    pub library_init: i32,
    /// Its answer to [`NativeCall::ThreadInit`].
    pub thread_init: i32,
}

impl NativeReplies {
    /// The answer to `call`.
    pub open spec fn to(self, call: NativeCall) -> i32 {
        match call {
            NativeCall::IsInitialized => self.is_initialized,
            NativeCall::LibraryInit(_) => self.library_init,
            NativeCall::ThreadInit => self.thread_init,
        }
    }
}

/// An attempt from its beginning to its end.
pub struct Attempt {
    /// The state that it leaves.
    pub state: InitState,
    /// The native calls that it made, in order.
    pub calls: Seq<NativeCall>,
    /// Its result: a handle's view, or the error.
    pub result: Result<Option<Option<Presets>>, ErrorView>,
}

impl InitState {
    /// The native calls up to the registration of the thread: the query,
    /// and the initialisation of the library where the query asks for it.
    pub open spec fn preparation(self, replies: NativeReplies) -> Seq<NativeCall> {
        if replies.is_initialized != PAPI_LOW_LEVEL_INITED {
            seq![NativeCall::IsInitialized, NativeCall::LibraryInit(self.version)]
        } else {
            seq![NativeCall::IsInitialized]
        }
    }

    /// A whole attempt in a process whose native library answers with
    /// `replies`.
    ///
    /// Where initialisation is on record, the attempt succeeds without a
    /// native call. Otherwise it fails with the status of the library's
    /// initialisation, if that was needed and did not answer with the
    /// version requested; else with the status of the thread's
    /// registration, if that is not [`PAPI_OK`]; else it succeeds and puts
    /// initialisation on record. A failed attempt leaves the record as it
    /// was.
    pub open spec fn attempt(self, replies: NativeReplies) -> Attempt {
        if self.initialized {
            Attempt { state: self.idle(), calls: Seq::empty(), result: Ok(None) }
        } else if replies.is_initialized != PAPI_LOW_LEVEL_INITED && replies.library_init
            != self.version {
            Attempt {
                state: self.idle(),
                calls: self.preparation(replies),
                result: Err(ErrorView::PapiError(replies.library_init as int)),
            }
        } else if replies.thread_init != PAPI_OK {
            Attempt {
                state: self.idle(),
                calls: self.preparation(replies).push(NativeCall::ThreadInit),
                result: Err(ErrorView::PapiError(replies.thread_init as int)),
            }
        } else {
            Attempt {
                state: InitState { initialized: true, ..self.idle() },
                calls: self.preparation(replies).push(NativeCall::ThreadInit),
                result: Ok(None),
            }
        }
    }

    /// What a caller arrives at who, in this state, has been told `step`
    /// and goes on: it makes each call asked for, reports the reply, and
    /// stops when told that the attempt is over. `None` if that takes more
    /// than `limit` calls.
    pub open spec fn drive(self, step: InitStepView, replies: NativeReplies, limit: nat) -> Option<
        Attempt,
    >
        decreases limit,
    {
        match step {
            InitStepView::Done(result) => Some(
                Attempt { state: self, calls: Seq::empty(), result },
            ),
            InitStepView::Call(call) => if limit == 0 {
                None
            } else {
                let (state, next) = self.step(InitEvent::Returned(replies.to(call)));
                match state.drive(next, replies, (limit - 1) as nat) {
                    Some(rest) => Some(Attempt { calls: seq![call] + rest.calls, ..rest }),
                    None => None,
                }
            },
        }
    }

    /// Successive attempts, one for each entry of `replies`, each from the
    /// state that the one before left.
    pub open spec fn attempts(self, replies: Seq<NativeReplies>) -> Seq<Attempt>
        decreases replies.len(),
    {
        if replies.len() == 0 {
            Seq::empty()
        } else {
            let first = self.attempt(replies[0]);
            seq![first] + first.state.attempts(replies.drop_first())
        }
    }
}

/// An attempt takes at most three native calls, and stepping through it with
/// [`InitState::step`] gives what [`InitState::attempt`] describes.
pub proof fn lemma_steps_make_attempt(state: InitState, replies: NativeReplies)
    ensures
        ({
            let (begun, step) = state.step(InitEvent::Begin);
            begun.drive(step, replies, 3) == Some(state.attempt(replies))
        }),
{
    reveal_with_fuel(InitState::drive, 4);
    let (begun, step) = state.step(InitEvent::Begin);
    assert(begun.drive(step, replies, 3)->0.calls =~= state.attempt(replies).calls);
}

/// Initialisation is idempotent: once an attempt has succeeded, every later
/// attempt in the process succeeds too, with a handle that carries no
/// configuration, and makes no native call. So over all the attempts the
/// native library is queried, initialised and given the thread at most once
/// each.
pub proof fn lemma_init_is_idempotent(state: InitState, replies: Seq<NativeReplies>)
    requires
        replies.len() >= 1,
        state.attempt(replies[0]).result is Ok,
    ensures
        ({
            let attempts = state.attempts(replies);
            &&& attempts.len() == replies.len()
            &&& attempts[0] == state.attempt(replies[0])
            &&& attempts[0].calls.no_duplicates()
            &&& forall|i: int|
                0 <= i < attempts.len() ==> (#[trigger] attempts[i]).result == Ok::<
                    Option<Option<Presets>>,
                    ErrorView,
                >(None)
            &&& forall|i: int|
                1 <= i < attempts.len() ==> (#[trigger] attempts[i]).calls == Seq::<
                    NativeCall,
                >::empty()
            &&& forall|i: int|
                0 <= i < attempts.len() ==> (#[trigger] attempts[i]).state.initialized
        }),
    decreases replies.len(),
{
    let first = state.attempt(replies[0]);
    let later = replies.drop_first();
    if later.len() > 0 {
        lemma_init_is_idempotent(first.state, later);
    }
    let attempts = state.attempts(replies);
    let rest = first.state.attempts(later);
    assert(forall|i: int| 1 <= i < attempts.len() ==> #[trigger] attempts[i] == rest[i - 1]);
}

/// A mismatch of versions is passed on and leaves nothing on record: where
/// the native library has to be initialised and answers with another version
/// than the one requested, the attempt fails with that answer as the status
/// of an [`ErrorKind::PapiError`], without registering the thread, and the
/// next attempt starts by querying the library again.
pub proof fn lemma_version_mismatch_is_passed_on(state: InitState, replies: NativeReplies)
    requires
        !state.initialized,
        replies.is_initialized != PAPI_LOW_LEVEL_INITED,
        replies.library_init != state.version,
    ensures
        ({
            let attempt = state.attempt(replies);
            &&& attempt.result == Err::<Option<Option<Presets>>, ErrorView>(
                ErrorView::PapiError(replies.library_init as int),
            )
            &&& attempt.calls == seq![
                NativeCall::IsInitialized,
                NativeCall::LibraryInit(state.version),
            ]
            &&& !attempt.state.initialized
            &&& attempt.state.step(InitEvent::Begin).1 == InitStepView::Call(
                NativeCall::IsInitialized,
            )
        }),
{
}

/// Only success is put on record: an attempt that fails leaves the record
/// of initialisation as it found it, and one that succeeds leaves it set.
pub proof fn lemma_record_follows_result(state: InitState, replies: NativeReplies)
    ensures
        ({
            let attempt = state.attempt(replies);
            &&& attempt.result is Err ==> attempt.state.initialized == state.initialized
            &&& attempt.result is Ok ==> attempt.state.initialized
            &&& attempt.state.phase == InitPhase::Idle
            &&& attempt.state.version == state.version
        }),
{
}

} // verus!
