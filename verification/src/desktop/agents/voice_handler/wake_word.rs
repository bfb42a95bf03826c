//! Wake word detection on transcribed speech.
use vstd::prelude::*;
use crate::desktop::agents::voice_handler::stt::SttFallback;
use crate::text::{contains, has_sub, lowercase_of, matches_at, to_lowercase};

verus! {

/// The phrases that wake the assistant.
pub open spec fn has_wake_word(lowered: Seq<char>) -> bool {
    has_sub(lowered, "adler"@) || has_sub(lowered, "hey adler"@) || has_sub(
        lowered,
        "adler asistan"@,
    ) || has_sub(lowered, "adler asistana"@)
}

/// The wake-word detector: the recogniser it listens with, and whether the
/// wake word was heard since last asked.
pub struct WakeWordState {
    triggered: bool,
    stt: Option<SttFallback>,
}

impl WakeWordState {
    pub closed spec fn triggered_view(&self) -> bool {
        self.triggered
    }

    pub closed spec fn initialised(&self) -> bool {
        self.stt is Some
    }

    /// A detector with no recogniser that has heard nothing.
    pub fn new() -> (r: Self)
        ensures
            !r.triggered_view(),
            !r.initialised(),
    {
        WakeWordState { triggered: false, stt: None }
    }
}

/// Installs the recogniser once; later calls leave the first one in place.
pub fn init_wake_word(state: &mut WakeWordState, stt: SttFallback) -> (r: Result<(), String>)
    ensures
        r is Ok,
        final(state).initialised(),
        old(state).initialised() ==> *final(state) == *old(state),
        final(state).triggered_view() == old(state).triggered_view(),
{
    if state.stt.is_some() {
        return Ok(());
    }
    state.stt = Some(stt);
    Ok(())
}

/// Whether already lower-cased text holds a wake phrase.
pub fn contains_wake_word(lowered: &str) -> (r: bool)
    ensures
        r == has_wake_word(lowered@),
{
    contains(lowered, "adler") || contains(lowered, "hey adler") || contains(
        lowered,
        "adler asistan",
    ) || contains(lowered, "adler asistana")
}

/// Whether `text` holds a wake phrase, ignoring case; a hit is remembered.
pub fn check_wake_word(state: &mut WakeWordState, text: &str) -> (r: bool)
    ensures
        r == has_wake_word(lowercase_of(text@)),
        final(state).triggered_view() == (old(state).triggered_view() || r),
        final(state).initialised() == old(state).initialised(),
{
    let lower = to_lowercase(text);
    if contains_wake_word(lower.as_str()) {
        state.triggered = true;
        true
    } else {
        false
    }
}

/// Checks what the recogniser heard, if anything, for a wake phrase.
pub fn on_transcript(state: &mut WakeWordState, heard: Option<String>)
    ensures
        final(state).triggered_view() == (old(state).triggered_view() || match heard {
            Some(t) => has_wake_word(lowercase_of(t@)),
            None => false,
        }),
        final(state).initialised() == old(state).initialised(),
{
    match heard {
        Some(text) => {
            check_wake_word(state, text.as_str());
        },
        None => {},
    }
}

/// Runs the recogniser on audio that was loud enough and checks the text.
pub fn check_audio(state: &mut WakeWordState, samples: &[i16])
    ensures
        old(state).triggered_view() ==> final(state).triggered_view(),
        !old(state).initialised() ==> *final(state) == *old(state),
        final(state).initialised() == old(state).initialised(),
{
    if state.stt.is_none() {
        return;
    }
    let heard = match &state.stt {
        Some(stt) => stt.transcribe(samples),
        None => None,
    };
    on_transcript(state, heard);
}

/// Whether the wake word was heard since the last call; clears the flag.
pub fn was_triggered(state: &mut WakeWordState) -> (r: bool)
    ensures
        r == old(state).triggered_view(),
        !final(state).triggered_view(),
        final(state).initialised() == old(state).initialised(),
{
    let r = state.triggered;
    state.triggered = false;
    r
}

/// Every wake phrase contains the word "adler", so a text wakes the assistant
/// exactly when its lower-cased form contains "adler" anywhere.
pub proof fn lemma_wake_word_is_adler(lowered: Seq<char>)
    ensures
        has_wake_word(lowered) == has_sub(lowered, "adler"@),
{
    reveal_strlit("adler");
    reveal_strlit("hey adler");
    reveal_strlit("adler asistan");
    reveal_strlit("adler asistana");
    if has_sub(lowered, "hey adler"@) {
        let i = choose|i: int| matches_at(lowered, "hey adler"@, i);
        assert forall|j: int| 0 <= j < "adler"@.len() implies lowered[i + 4 + j] == "adler"@[j] by {
            assert(lowered[i + (4 + j)] == "hey adler"@[4 + j]);
        }
        assert(matches_at(lowered, "adler"@, i + 4));
    }
    if has_sub(lowered, "adler asistan"@) {
        let i = choose|i: int| matches_at(lowered, "adler asistan"@, i);
        assert forall|j: int| 0 <= j < "adler"@.len() implies lowered[i + j] == "adler"@[j] by {
            assert(lowered[i + j] == "adler asistan"@[j]);
        }
        assert(matches_at(lowered, "adler"@, i));
    }
    if has_sub(lowered, "adler asistana"@) {
        let i = choose|i: int| matches_at(lowered, "adler asistana"@, i);
        assert forall|j: int| 0 <= j < "adler"@.len() implies lowered[i + j] == "adler"@[j] by {
            assert(lowered[i + j] == "adler asistana"@[j]);
        }
        assert(matches_at(lowered, "adler"@, i));
    }
}

} // verus!
