//! The conversation state machine: wake word, listening, thinking, speaking.
use vstd::prelude::*;
use crate::desktop::agents::voice_handler::queue::{
    detect_language, language_of_clean, profile_values, queue_after_insert, default_params_spec, AudioItem, AudioQueue,
    Priority, TtsParams, VoiceProfile,
};
use crate::text::lowercase_of;

verus! {

/// Where the conversation stands.
#[derive(Debug, Clone, Copy, PartialEq, Eq, Structural)]
pub enum DialogState {
    Idle,
    Listening,
    Processing,
    Speaking,
    Waiting,
}

/// The state after an answer finished playing: listen again with barge-in,
/// wait otherwise.
pub open spec fn after_response(barge_in: bool) -> DialogState {
    if barge_in {
        DialogState::Listening
    } else {
        DialogState::Waiting
    }
}

/// Drives a spoken conversation and owns the output queue.
pub struct DialogManager {
    state: DialogState,
    queue: AudioQueue,
    barge_in: bool,
    profile: VoiceProfile,
    auto_stop_ms: u64,
    idle_timeout_ms: u64,
}

impl DialogManager {
    pub closed spec fn state_view(&self) -> DialogState {
        self.state
    }

    pub closed spec fn queue_view(&self) -> AudioQueue {
        self.queue
    }

    pub closed spec fn barge_in_view(&self) -> bool {
        self.barge_in
    }

    pub closed spec fn profile_view(&self) -> VoiceProfile {
        self.profile
    }

    /// An idle conversation with barge-in on and the default voice.
    pub fn new(queue: AudioQueue) -> (r: Self)
        ensures
            r.state_view() == DialogState::Idle,
            r.queue_view() == queue,
            r.barge_in_view(),
            r.profile_view() == VoiceProfile::Varsayilan,
    {
        DialogManager {
            state: DialogState::Idle,
            queue,
            barge_in: true,
            profile: VoiceProfile::Varsayilan,
            auto_stop_ms: 2000,
            idle_timeout_ms: 30000,
        }
    }

    pub fn state(&self) -> (r: DialogState)
        ensures
            r == self.state_view(),
    {
        self.state
    }

    /// The output queue.
    pub fn queue(&self) -> (r: &AudioQueue)
        ensures
            *r == self.queue_view(),
    {
        &self.queue
    }

    pub fn is_barge_in(&self) -> (r: bool)
        ensures
            r == self.barge_in_view(),
    {
        self.barge_in
    }

    pub fn set_barge_in(&mut self, enabled: bool)
        ensures
            final(self).barge_in_view() == enabled,
            final(self).state_view() == old(self).state_view(),
            final(self).queue_view() == old(self).queue_view(),
            final(self).profile_view() == old(self).profile_view(),
    {
        self.barge_in = enabled;
    }

    pub fn profile(&self) -> (r: VoiceProfile)
        ensures
            r == self.profile_view(),
    {
        self.profile
    }

    pub fn set_profile(&mut self, profile: VoiceProfile)
        ensures
            final(self).profile_view() == profile,
            final(self).state_view() == old(self).state_view(),
            final(self).queue_view() == old(self).queue_view(),
            final(self).barge_in_view() == old(self).barge_in_view(),
    {
        self.profile = profile;
    }

    /// The wake word was heard: start listening.
    pub fn on_wake_word(&mut self)
        ensures
            final(self).state_view() == DialogState::Listening,
            final(self).queue_view() == old(self).queue_view(),
            final(self).barge_in_view() == old(self).barge_in_view(),
            final(self).profile_view() == old(self).profile_view(),
    {
        self.state = DialogState::Listening;
    }

    /// The user finished speaking: think about the answer.
    pub fn on_speech_received(&mut self)
        ensures
            final(self).state_view() == DialogState::Processing,
            final(self).queue_view() == old(self).queue_view(),
            final(self).barge_in_view() == old(self).barge_in_view(),
            final(self).profile_view() == old(self).profile_view(),
    {
        self.state = DialogState::Processing;
    }

    /// The answer is ready: interrupt the current speech when barge-in is on
    /// and something is being spoken, queue the answer in the profile's voice
    /// and the detected language, and speak.
    pub fn on_response_ready(&mut self, text: &str)
        ensures
            final(self).state_view() == DialogState::Speaking,
            final(self).barge_in_view() == old(self).barge_in_view(),
            final(self).profile_view() == old(self).profile_view(),
            final(self).queue_view().playing_view() == old(self).queue_view().playing_view(),
            final(self).queue_view().interrupt_view() == (old(self).queue_view().interrupt_view()
                || (old(self).barge_in_view() && old(self).state_view() == DialogState::Speaking)),
            exists|item: AudioItem|
                {
                    &&& item.text@ == text@
                    &&& item.priority == Priority::Normal
                    &&& (item.tts_params.speed_permille, item.tts_params.stability_permille,
                        item.tts_params.similarity_boost_permille) == profile_values(
                        old(self).profile_view(),
                    )
                    &&& item.tts_params.language@ == language_of_clean(lowercase_of(text@))
                    &&& final(self).queue_view().items_view() == queue_after_insert(
                        old(self).queue_view().items_view(),
                        item,
                        old(self).queue_view().playing_view(),
                    )
                },
    {
        let should_interrupt = self.barge_in && self.state == DialogState::Speaking;
        if should_interrupt {
            self.queue.request_interrupt();
        }
        let lang = detect_language(text);
        let mut params = self.profile.to_tts_params();
        params.language = lang;
        let ghost p = params;
        let owned = text.to_string();
        let ghost item = AudioItem { text: owned, priority: Priority::Normal, tts_params: p };
        self.queue.enqueue_with_params(owned, Priority::Normal, params);
        self.state = DialogState::Speaking;
        assert(item.text@ == text@);
        assert(self.queue_view().items_view() == queue_after_insert(
            old(self).queue_view().items_view(),
            item,
            old(self).queue_view().playing_view(),
        ));
    }

    /// The answer finished playing.
    pub fn on_response_complete(&mut self)
        ensures
            final(self).state_view() == after_response(old(self).barge_in_view()),
            final(self).queue_view() == old(self).queue_view(),
            final(self).barge_in_view() == old(self).barge_in_view(),
            final(self).profile_view() == old(self).profile_view(),
    {
        if self.barge_in {
            self.state = DialogState::Listening;
        } else {
            self.state = DialogState::Waiting;
        }
    }

    /// Nothing happened for too long: go idle and drop pending speech.
    pub fn on_idle_timeout(&mut self)
        ensures
            final(self).state_view() == DialogState::Idle,
            final(self).queue_view().items_view() == Seq::<AudioItem>::empty(),
            final(self).queue_view().playing_view() == old(self).queue_view().playing_view(),
            final(self).queue_view().interrupt_view() == old(self).queue_view().interrupt_view(),
            final(self).barge_in_view() == old(self).barge_in_view(),
            final(self).profile_view() == old(self).profile_view(),
    {
        self.state = DialogState::Idle;
        self.queue.clear();
    }

    /// Queues an urgent message; an idle conversation starts speaking.
    pub fn speak_high_priority(&mut self, text: &str)
        ensures
            final(self).state_view() == if old(self).state_view() == DialogState::Idle {
                DialogState::Speaking
            } else {
                old(self).state_view()
            },
            exists|item: AudioItem|
                {
                    &&& item.text@ == text@
                    &&& item.priority == Priority::High
                    &&& default_params_spec(item.tts_params)
                    &&& final(self).queue_view().items_view() == queue_after_insert(
                        old(self).queue_view().items_view(),
                        item,
                        old(self).queue_view().playing_view(),
                    )
                },
            final(self).queue_view().interrupt_view() == (old(self).queue_view().interrupt_view()
                || old(self).queue_view().playing_view()),
            final(self).queue_view().playing_view() == old(self).queue_view().playing_view(),
            final(self).barge_in_view() == old(self).barge_in_view(),
            final(self).profile_view() == old(self).profile_view(),
    {
        let owned = text.to_string();
        let ghost q0 = self.queue_view();
        self.queue.enqueue(owned, Priority::High);
        proof {
            let p = choose|p: TtsParams|
                default_params_spec(p) && self.queue.items_view() == queue_after_insert(
                    q0.items_view(),
                    AudioItem { text: owned, priority: Priority::High, tts_params: p },
                    q0.playing_view(),
                );
            let item = AudioItem { text: owned, priority: Priority::High, tts_params: p };
            assert(self.queue_view().items_view() == queue_after_insert(
                old(self).queue_view().items_view(),
                item,
                old(self).queue_view().playing_view(),
            ));
        }
        if self.state == DialogState::Idle {
            self.state = DialogState::Speaking;
        }
    }

    /// Queues `text` with explicit parameters at normal priority.
    pub fn speak_with_params(&mut self, text: &str, params: TtsParams)
        ensures
            exists|item: AudioItem|
                {
                    &&& item.text@ == text@
                    &&& item.priority == Priority::Normal
                    &&& item.tts_params == params
                    &&& final(self).queue_view().items_view() == queue_after_insert(
                        old(self).queue_view().items_view(),
                        item,
                        old(self).queue_view().playing_view(),
                    )
                },
            final(self).queue_view().interrupt_view() == old(self).queue_view().interrupt_view(),
            final(self).state_view() == old(self).state_view(),
            final(self).barge_in_view() == old(self).barge_in_view(),
            final(self).profile_view() == old(self).profile_view(),
    {
        let owned = text.to_string();
        let ghost item = AudioItem { text: owned, priority: Priority::Normal, tts_params: params };
        self.queue.enqueue_with_params(owned, Priority::Normal, params);
        assert(item.text@ == text@);
        assert(self.queue_view().items_view() == queue_after_insert(
            old(self).queue_view().items_view(),
            item,
            old(self).queue_view().playing_view(),
        ));
    }

    /// Back to idle with an empty queue.
    pub fn reset(&mut self)
        ensures
            final(self).state_view() == DialogState::Idle,
            final(self).queue_view().items_view() == Seq::<AudioItem>::empty(),
            final(self).barge_in_view() == old(self).barge_in_view(),
            final(self).profile_view() == old(self).profile_view(),
    {
        self.state = DialogState::Idle;
        self.queue.clear();
    }
}

impl Default for DialogManager {
    fn default() -> (r: Self)
        ensures
            r.state_view() == DialogState::Idle,
            r.queue_view().items_view() == Seq::<AudioItem>::empty(),
            r.barge_in_view(),
            r.profile_view() == VoiceProfile::Varsayilan,
    {
        DialogManager::new(AudioQueue::new())
    }
}

} // verus!
