use vstd::prelude::*;
use vstd::string::StringSliceAdditionalSpecFns;
use crate::text::{
    c_string, decode_from_engine, encode_for_engine, engine_input, euc_kr_text_of, has_nul,
    EncodingError, MAX_TEXT_LEN,
};

verus! {

/// The status with which the engine's initializer reports success. This is a
/// convention of this engine, not of C functions in general.
pub const INIT_SUCCESS: i32 = 1;

/// The mode passed to the translate entry point unless the caller picks
/// another. The engine gives the mode no documented meaning; it is passed
/// through unchanged.
pub const DEFAULT_MODE: i32 = 0;

/// Where a session stands in the engine's lifecycle.
#[derive(Clone, Copy, Debug, PartialEq, Eq, Structural)]
pub enum Phase {
    /// Library mapped and entry points resolved; not yet initialized.
    Loaded,
    /// The initializer reported success; translations may be made.
    Initialized,
    /// The terminator has been called; no further foreign call is allowed.
    Terminated,
}

/// What happens to a session: an initializer call that returned `status`, a
/// translation (whatever its outcome), or teardown.
#[derive(Clone, Copy, Debug, PartialEq, Eq, Structural)]
pub enum Event {
    Initialize { status: i32 },
    Translate,
    Teardown,
}

/// The phase after an event.
pub open spec fn next_phase(p: Phase, e: Event) -> Phase {
    match e {
        Event::Initialize { status } => if p != Phase::Terminated && status == INIT_SUCCESS {
            Phase::Initialized
        } else {
            p
        },
        Event::Translate => p,
        Event::Teardown => Phase::Terminated,
    }
}

/// Whether the event makes the session call the engine's terminator.
pub open spec fn calls_terminate(p: Phase, e: Event) -> bool {
    e == Event::Teardown && p != Phase::Terminated
}

/// The phase after a run of events.
pub open spec fn run(p: Phase, es: Seq<Event>) -> Phase
    decreases es.len(),
{
    if es.len() == 0 {
        p
    } else {
        run(next_phase(p, es[0]), es.drop_first())
    }
}

/// How many times a run of events calls the engine's terminator.
pub open spec fn terminate_count(p: Phase, es: Seq<Event>) -> nat
    decreases es.len(),
{
    if es.len() == 0 {
        0
    } else {
        (if calls_terminate(p, es[0]) { 1nat } else { 0nat }) + terminate_count(
            next_phase(p, es[0]),
            es.drop_first(),
        )
    }
}

/// Over any run of events, the terminator is called once if the run moves
/// the session into `Terminated`, and never otherwise.
pub proof fn lemma_terminate_count(p: Phase, es: Seq<Event>)
    ensures
        terminate_count(p, es) == (if p != Phase::Terminated && run(p, es) == Phase::Terminated {
            1nat
        } else {
            0nat
        }),
    decreases es.len(),
{
    if es.len() > 0 {
        let q = next_phase(p, es[0]);
        lemma_terminate_count(q, es.drop_first());
        assert(run(p, es) == run(q, es.drop_first()));
        assert(terminate_count(p, es) == (if calls_terminate(p, es[0]) { 1nat } else { 0nat })
            + terminate_count(q, es.drop_first()));
        if q == Phase::Terminated {
            lemma_terminated_is_final(es.drop_first());
        }
    }
}

/// A run followed by one more event ends where that event leads from the
/// run's end.
pub proof fn lemma_run_push(p: Phase, es: Seq<Event>, e: Event)
    ensures
        run(p, es.push(e)) == next_phase(run(p, es), e),
    decreases es.len(),
{
    let s = es.push(e);
    assert(s[0] == (if es.len() == 0 { e } else { es[0] }));
    if es.len() == 0 {
        assert(s.drop_first() =~= Seq::<Event>::empty());
        assert(run(next_phase(p, e), Seq::<Event>::empty()) == next_phase(p, e));
    } else {
        assert(s.drop_first() =~= es.drop_first().push(e));
        lemma_run_push(next_phase(p, es[0]), es.drop_first(), e);
    }
}

/// Whatever initializations and translations a session goes through, and
/// whether they succeed or fail, ending it with teardown calls the engine's
/// terminator exactly once.
pub proof fn lemma_terminate_exactly_once(es: Seq<Event>)
    ensures
        terminate_count(Phase::Loaded, es.push(Event::Teardown)) == 1,
{
    lemma_run_push(Phase::Loaded, es, Event::Teardown);
    lemma_terminate_count(Phase::Loaded, es.push(Event::Teardown));
}

/// Once terminated, a session stays terminated and never calls the
/// terminator again, whatever happens to it.
pub proof fn lemma_terminated_is_final(es: Seq<Event>)
    ensures
        run(Phase::Terminated, es) == Phase::Terminated,
        terminate_count(Phase::Terminated, es) == 0,
    decreases es.len(),
{
    if es.len() > 0 {
        lemma_terminated_is_final(es.drop_first());
    }
}

/// Why a translation produced no text.
#[derive(Clone, Copy, Debug, PartialEq, Eq, Structural)]
pub enum TranslationError {
    /// The session has not been initialized successfully.
    NotInitialized,
    /// The session has been terminated.
    Terminated,
    /// The engine's translate entry point returned a null pointer.
    NullResult,
    /// The text could not be put into the engine's input encoding.
    Encoding(EncodingError),
}

/// Why the initializer could not be called.
#[derive(Clone, Copy, Debug, PartialEq, Eq, Structural)]
pub enum InitError {
    /// The session has been terminated.
    Terminated,
    /// An argument could not be passed as a null-terminated string.
    Encoding(EncodingError),
}

/// The arguments of one call to the engine's initializer, null terminated.
pub struct InitCall {
    pub init_str: Vec<u8>,
    pub home_dir: Vec<u8>,
}

/// The arguments of one call to the engine's translate entry point: the mode
/// and the null-terminated Shift_JIS text.
pub struct TranslateCall {
    pub mode: i32,
    pub input: Vec<u8>,
}

/// The decisions of one engine session. The caller makes each foreign call
/// that a method asks for and hands its outcome back.
pub struct Session {
    phase: Phase,
}

impl Session {
    pub closed spec fn view_phase(&self) -> Phase {
        self.phase
    }

    /// A session whose library is loaded and whose entry points are resolved.
    pub fn new() -> (r: Session)
        ensures
            r.view_phase() == Phase::Loaded,
    {
        Session { phase: Phase::Loaded }
    }

    pub fn phase(&self) -> (r: Phase)
        ensures
            r == self.view_phase(),
    {
        self.phase
    }

    /// The arguments for the engine's initializer, or why it must not be
    /// called. Initializing again while initialized is left to the engine.
    pub fn prepare_initialize(&self, init_str: &str, home_dir: &str) -> (r: Result<InitCall, InitError>)
        ensures
            self.view_phase() == Phase::Terminated ==> r == Err::<InitCall, InitError>(
                InitError::Terminated,
            ),
            self.view_phase() != Phase::Terminated && has_nul(init_str.spec_bytes()) ==> r
                == Err::<InitCall, InitError>(InitError::Encoding(EncodingError::EmbeddedNul)),
            self.view_phase() != Phase::Terminated && has_nul(home_dir.spec_bytes()) ==> r
                == Err::<InitCall, InitError>(InitError::Encoding(EncodingError::EmbeddedNul)),
            self.view_phase() != Phase::Terminated && !has_nul(init_str.spec_bytes()) && !has_nul(
                home_dir.spec_bytes(),
            ) ==> r is Ok,
            r matches Ok(c) ==> c.init_str@ == init_str.spec_bytes().push(0) && c.home_dir@
                == home_dir.spec_bytes().push(0),
    {
        if self.phase == Phase::Terminated {
            return Err(InitError::Terminated);
        }
        let init = match c_string(init_str) {
            Ok(v) => v,
            Err(e) => return Err(InitError::Encoding(e)),
        };
        let home = match c_string(home_dir) {
            Ok(v) => v,
            Err(e) => return Err(InitError::Encoding(e)),
        };
        Ok(InitCall { init_str: init, home_dir: home })
    }

    /// Records the status that the engine's initializer returned; tells
    /// whether it reported success.
    pub fn finish_initialize(&mut self, status: i32) -> (r: bool)
        ensures
            r == (status == INIT_SUCCESS),
            final(self).view_phase() == next_phase(
                old(self).view_phase(),
                Event::Initialize { status },
            ),
    {
        if status == INIT_SUCCESS && self.phase != Phase::Terminated {
            self.phase = Phase::Initialized;
        }
        status == INIT_SUCCESS
    }

    /// The arguments for the engine's translate entry point, or why it must
    /// not be called. Only an initialized session translates.
    pub fn prepare_translate(&self, text: &str, mode: i32) -> (r: Result<TranslateCall, TranslationError>)
        requires
            text.spec_bytes().len() <= MAX_TEXT_LEN,
        ensures
            self.view_phase() == Phase::Loaded ==> r == Err::<TranslateCall, TranslationError>(
                TranslationError::NotInitialized,
            ),
            self.view_phase() == Phase::Terminated ==> r == Err::<TranslateCall, TranslationError>(
                TranslationError::Terminated,
            ),
            self.view_phase() == Phase::Initialized ==> match engine_input(text) {
                Ok(b) => r matches Ok(c) && c.input@ == b && c.mode == mode,
                Err(e) => r == Err::<TranslateCall, TranslationError>(
                    TranslationError::Encoding(e),
                ),
            },
    {
        match self.phase {
            Phase::Loaded => Err(TranslationError::NotInitialized),
            Phase::Terminated => Err(TranslationError::Terminated),
            Phase::Initialized => match encode_for_engine(text) {
                Ok(input) => Ok(TranslateCall { mode, input }),
                Err(e) => Err(TranslationError::Encoding(e)),
            },
        }
    }

    /// Ends the session; tells whether the engine's terminator must be
    /// called now, which is so exactly when the session was not terminated
    /// yet.
    pub fn teardown(&mut self) -> (r: bool)
        ensures
            r == calls_terminate(old(self).view_phase(), Event::Teardown),
            final(self).view_phase() == next_phase(old(self).view_phase(), Event::Teardown),
    {
        let r = self.phase != Phase::Terminated;
        self.phase = Phase::Terminated;
        r
    }
}

/// The text of one translation, from what the engine's translate entry point
/// returned: `None` for a null pointer, else the bytes of the buffer before
/// its terminating null.
pub fn read_translation(output: Option<&[u8]>) -> (r: Result<String, TranslationError>)
    requires
        output matches Some(b) ==> b@.len() <= MAX_TEXT_LEN,
    ensures
        output is None ==> r == Err::<String, TranslationError>(TranslationError::NullResult),
        output matches Some(b) ==> r matches Ok(t) && t@ == euc_kr_text_of(b@),
{
    match output {
        None => Err(TranslationError::NullResult),
        Some(b) => Ok(decode_from_engine(b)),
    }
}

} // verus!
