//! Voice pipeline: queue, dialog, wake word and speech recognition fallback,
//! and the voice agent that routes spoken-output tasks.
use vstd::prelude::*;
use crate::desktop::agents::Agent;
use crate::text::{contains, has_sub, trim, trim_of};

pub mod dialog;
pub mod queue;
pub mod stt;
pub mod wake_word;

verus! {

/// The voice agent; tracks whether the microphone listener runs.
pub struct VoiceHandler {
    active: bool,
}

/// What the voice agent does with a task.
#[derive(Debug)]
pub enum VoiceCommand {
    /// Start listening for the wake word.
    StartListening,
    /// Stop listening.
    StopListening,
    /// Turn this text into speech.
    Speak(String),
}

/// Tasks for the voice agent.
pub open spec fn voice_task(task: Seq<char>) -> bool {
    has_sub(task, "ses"@) || has_sub(task, "voice"@) || has_sub(task, "konus"@) || has_sub(
        task,
        "speak"@,
    ) || has_sub(task, "dinle"@)
}

impl VoiceHandler {
    pub closed spec fn is_active_view(&self) -> bool {
        self.active
    }

    /// A handler that is not listening.
    pub fn new() -> (r: Self)
        ensures
            !r.is_active_view(),
    {
        VoiceHandler { active: false }
    }

    pub fn is_active(&self) -> (r: bool)
        ensures
            r == self.is_active_view(),
    {
        self.active
    }

    /// Records that the listener was started.
    pub fn mark_listening(&mut self)
        ensures
            final(self).is_active_view(),
    {
        self.active = true;
    }

    /// Stops the listener.
    pub fn stop_listener(&mut self)
        ensures
            !final(self).is_active_view(),
    {
        self.active = false;
    }

    /// Routes a task: "dinle"/"baslat" start listening, "durdur"/"stop" stop
    /// it, anything else is spoken after trimming.
    pub fn route(&self, task: &str) -> (r: VoiceCommand)
        ensures
            (has_sub(task@, "dinle"@) || has_sub(task@, "baslat"@)) ==> r is StartListening,
            !(has_sub(task@, "dinle"@) || has_sub(task@, "baslat"@)) && (has_sub(
                task@,
                "durdur"@,
            ) || has_sub(task@, "stop"@)) ==> r is StopListening,
            !(has_sub(task@, "dinle"@) || has_sub(task@, "baslat"@)) && !(has_sub(
                task@,
                "durdur"@,
            ) || has_sub(task@, "stop"@)) ==> (r matches VoiceCommand::Speak(t) && t@ == trim_of(
                task@,
            )),
    {
        if contains(task, "dinle") || contains(task, "baslat") {
            VoiceCommand::StartListening
        } else if contains(task, "durdur") || contains(task, "stop") {
            VoiceCommand::StopListening
        } else {
            VoiceCommand::Speak(trim(task))
        }
    }
}

impl Agent for VoiceHandler {
    fn name(&self) -> (r: String)
        ensures
            r@ == "Voice Handler"@,
    {
        "Voice Handler".to_string()
    }

    fn description(&self) -> (r: String)
        ensures
            r@ == "Ses tanima, wake word, STT ve TTS"@,
    {
        "Ses tanima, wake word, STT ve TTS".to_string()
    }

    fn can_handle(&self, task: &str) -> (r: bool)
        ensures
            r == voice_task(task@),
    {
        contains(task, "ses") || contains(task, "voice") || contains(task, "konus") || contains(
            task,
            "speak",
        ) || contains(task, "dinle")
    }
}

} // verus!
