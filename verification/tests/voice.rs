use adler::desktop::agents::voice_handler::dialog::{DialogManager, DialogState};
use adler::desktop::agents::voice_handler::queue::{
    detect_language, AudioQueue, Priority, TtsParams, VoiceProfile,
};
use adler::desktop::agents::voice_handler::stt::{first_heard, SttEngine, SttFallback};
use adler::desktop::agents::voice_handler::wake_word::{
    check_audio, check_wake_word, init_wake_word, on_transcript, was_triggered, WakeWordState,
};

struct Heard(Option<&'static str>);

impl SttEngine for Heard {
    fn transcribe(&self, _samples: &[i16]) -> Option<String> {
        self.0.map(|s| s.to_string())
    }
}

#[test]
fn new_queue_is_empty() {
    let q = AudioQueue::new();
    assert!(q.is_empty());
    assert_eq!(q.len(), 0);
}

#[test]
fn enqueue_dequeue_single() {
    let mut q = AudioQueue::new();
    q.enqueue("test".into(), Priority::Normal);
    assert_eq!(q.len(), 1);
    let item = q.dequeue().unwrap();
    assert_eq!(item.text, "test");
    assert_eq!(item.priority, Priority::Normal);
}

#[test]
fn priority_ordering() {
    let mut q = AudioQueue::new();
    q.enqueue("low".into(), Priority::Low);
    q.enqueue("high".into(), Priority::High);
    q.enqueue("normal".into(), Priority::Normal);

    assert_eq!(q.dequeue().unwrap().text, "high");
    assert_eq!(q.dequeue().unwrap().text, "normal");
    assert_eq!(q.dequeue().unwrap().text, "low");
}

#[test]
fn same_priority_is_first_in_first_out() {
    let mut q = AudioQueue::new();
    q.enqueue("n1".into(), Priority::Normal);
    q.enqueue("l1".into(), Priority::Low);
    q.enqueue("n2".into(), Priority::Normal);
    q.enqueue("h1".into(), Priority::High);
    q.enqueue("h2".into(), Priority::High);
    let order: Vec<String> = (0..5).map(|_| q.dequeue().unwrap().text).collect();
    assert_eq!(order, vec!["h1", "h2", "n1", "n2", "l1"]);
    assert!(q.dequeue().is_none());
}

#[test]
fn high_priority_while_playing_jumps_the_queue() {
    let mut q = AudioQueue::new();
    q.start_playing();
    q.enqueue("h1".into(), Priority::High);
    q.enqueue("h2".into(), Priority::High);
    assert_eq!(q.dequeue().unwrap().text, "h2");
    assert_eq!(q.dequeue().unwrap().text, "h1");
}

#[test]
fn high_priority_triggers_interrupt() {
    let mut q = AudioQueue::new();
    q.start_playing();
    q.enqueue("normal".into(), Priority::Normal);
    assert!(!q.check_interrupt());
    q.enqueue("high".into(), Priority::High);
    assert!(q.check_interrupt());
}

#[test]
fn high_priority_without_playback_does_not_interrupt() {
    let mut q = AudioQueue::new();
    q.enqueue("high".into(), Priority::High);
    assert!(!q.check_interrupt());
}

#[test]
fn interrupt_flag_consumed_on_check() {
    let mut q = AudioQueue::new();
    q.request_interrupt();
    assert!(q.check_interrupt());
    assert!(!q.check_interrupt());
}

#[test]
fn clear_empties_queue() {
    let mut q = AudioQueue::new();
    q.enqueue("a".into(), Priority::Normal);
    q.enqueue("b".into(), Priority::Normal);
    q.clear();
    assert!(q.is_empty());
}

#[test]
fn peek_does_not_remove() {
    let mut q = AudioQueue::new();
    q.enqueue("peek".into(), Priority::Normal);
    let item = q.peek().unwrap();
    assert_eq!(item.text, "peek");
    assert_eq!(q.len(), 1);
}

#[test]
fn playing_state() {
    let mut q = AudioQueue::new();
    assert!(!q.is_playing());
    q.start_playing();
    assert!(q.is_playing());
    q.stop_playing();
    assert!(!q.is_playing());
}

#[test]
fn enqueue_with_params() {
    let mut q = AudioQueue::new();
    let params = TtsParams {
        speed_permille: 1500,
        stability_permille: 500,
        similarity_boost_permille: 900,
        language: "en".into(),
    };
    q.enqueue_with_params("custom".into(), Priority::Low, params);
    let item = q.dequeue().unwrap();
    assert_eq!(item.tts_params.speed_permille, 1500);
    assert_eq!(item.tts_params.language, "en");
}

#[test]
fn enqueue_uses_default_params() {
    let mut q = AudioQueue::new();
    q.enqueue("x".into(), Priority::Normal);
    let p = q.dequeue().unwrap().tts_params;
    assert_eq!(p.speed_permille, 1000);
    assert_eq!(p.stability_permille, 300);
    assert_eq!(p.similarity_boost_permille, 700);
    assert_eq!(p.language, "tr");
}

#[test]
fn voice_profile_hizli_increases_speed() {
    let params = VoiceProfile::Hizli.to_tts_params();
    assert_eq!(params.speed_permille, 1500);
}

#[test]
fn voice_profile_sakin_decreases_speed() {
    let params = VoiceProfile::Sakin.to_tts_params();
    assert_eq!(params.speed_permille, 700);
}

#[test]
fn voice_profile_values() {
    let t = VoiceProfile::Teknik.to_tts_params();
    assert_eq!((t.speed_permille, t.stability_permille, t.similarity_boost_permille), (900, 500, 800));
    let d = VoiceProfile::Varsayilan.to_tts_params();
    assert_eq!((d.speed_permille, d.stability_permille, d.similarity_boost_permille), (1000, 300, 700));
    assert_eq!(d.language, "tr");
    let default = TtsParams::default();
    assert_eq!(default.speed_permille, d.speed_permille);
}

#[test]
fn detect_language_turkish() {
    let result = detect_language("Merhaba, bugün hava çok güzel");
    assert_eq!(result, "tr");
}

#[test]
fn detect_language_english() {
    let result = detect_language("Hello, the weather is very nice today");
    assert_eq!(result, "en");
}

#[test]
fn detect_language_short_text_defaults_to_tr() {
    let result = detect_language("xyz");
    assert_eq!(result, "tr");
}

#[test]
fn new_dialog_starts_idle() {
    let dm = DialogManager::default();
    assert_eq!(dm.state(), DialogState::Idle);
}

#[test]
fn wake_word_sets_listening() {
    let mut dm = DialogManager::default();
    dm.on_wake_word();
    assert_eq!(dm.state(), DialogState::Listening);
}

#[test]
fn speech_received_sets_processing() {
    let mut dm = DialogManager::default();
    dm.on_wake_word();
    dm.on_speech_received();
    assert_eq!(dm.state(), DialogState::Processing);
}

#[test]
fn response_ready_sets_speaking() {
    let mut dm = DialogManager::default();
    dm.on_wake_word();
    dm.on_speech_received();
    dm.on_response_ready("merhaba");
    assert_eq!(dm.state(), DialogState::Speaking);
}

#[test]
fn response_complete_with_barge_in() {
    let mut dm = DialogManager::default();
    dm.set_barge_in(true);
    dm.on_wake_word();
    dm.on_speech_received();
    dm.on_response_ready("test");
    dm.on_response_complete();
    assert_eq!(dm.state(), DialogState::Listening);
}

#[test]
fn response_complete_without_barge_in() {
    let mut dm = DialogManager::default();
    dm.set_barge_in(false);
    dm.on_wake_word();
    dm.on_speech_received();
    dm.on_response_ready("test");
    dm.on_response_complete();
    assert_eq!(dm.state(), DialogState::Waiting);
}

#[test]
fn idle_timeout_returns_to_idle() {
    let mut dm = DialogManager::default();
    dm.on_wake_word();
    dm.on_idle_timeout();
    assert_eq!(dm.state(), DialogState::Idle);
}

#[test]
fn high_priority_speech_works() {
    let mut dm = DialogManager::default();
    dm.speak_high_priority("uyari");
    assert!(!dm.queue().is_empty());
    assert_eq!(dm.state(), DialogState::Speaking);
}

#[test]
fn high_priority_speech_keeps_non_idle_state() {
    let mut dm = DialogManager::default();
    dm.on_wake_word();
    dm.speak_high_priority("uyari");
    assert_eq!(dm.state(), DialogState::Listening);
}

#[test]
fn reset_clears_state_and_queue() {
    let mut dm = DialogManager::default();
    dm.on_wake_word();
    dm.speak_high_priority("test");
    dm.reset();
    assert_eq!(dm.state(), DialogState::Idle);
    assert!(dm.queue().is_empty());
}

#[test]
fn barge_in_toggle() {
    let mut dm = DialogManager::default();
    assert!(dm.is_barge_in());
    dm.set_barge_in(false);
    assert!(!dm.is_barge_in());
}

#[test]
fn profile_defaults_to_varsayilan() {
    let dm = DialogManager::default();
    assert_eq!(dm.profile(), VoiceProfile::Varsayilan);
}

#[test]
fn set_profile_changes_profile() {
    let mut dm = DialogManager::default();
    dm.set_profile(VoiceProfile::Hizli);
    assert_eq!(dm.profile(), VoiceProfile::Hizli);
}

#[test]
fn response_ready_auto_detects_language() {
    let mut dm = DialogManager::default();
    dm.on_wake_word();
    dm.on_speech_received();
    dm.on_response_ready("Hello, how are you?");
    assert_eq!(dm.state(), DialogState::Speaking);
    let item = dm.queue().peek().unwrap();
    assert_eq!(item.tts_params.language, "en");
    assert_eq!(item.priority, Priority::Normal);
}

#[test]
fn response_ready_uses_profile_speed() {
    let mut dm = DialogManager::default();
    dm.set_profile(VoiceProfile::Sakin);
    dm.on_response_ready("merhaba dunya");
    let item = dm.queue().peek().unwrap();
    assert_eq!(item.tts_params.speed_permille, 700);
    assert_eq!(item.tts_params.language, "tr");
}

#[test]
fn two_responses_are_both_queued() {
    let mut dm = DialogManager::default();
    dm.on_response_ready("bir");
    dm.on_response_ready("iki");
    assert_eq!(dm.queue().len(), 2);
}

#[test]
fn fallback_with_no_engines_returns_none() {
    let fb = SttFallback::new(vec![]);
    assert!(fb.transcribe(&[0i16; 160]).is_none());
}

#[test]
fn fallback_returns_first_engine_that_hears() {
    let fb = SttFallback::new(vec![
        Box::new(Heard(None)),
        Box::new(Heard(Some("ikinci"))),
        Box::new(Heard(Some("ucuncu"))),
    ]);
    assert_eq!(fb.transcribe(&[1i16; 10]), Some("ikinci".to_string()));
}

#[test]
fn check_wake_word_detects_adler() {
    let mut state = WakeWordState::new();
    assert!(check_wake_word(&mut state, "Adler merhaba"));
}

#[test]
fn check_wake_word_detects_hey_adler() {
    let mut state = WakeWordState::new();
    assert!(check_wake_word(&mut state, "hey adler asistan"));
}

#[test]
fn check_wake_word_case_insensitive() {
    let mut state = WakeWordState::new();
    assert!(check_wake_word(&mut state, "ADLER ASISTANA"));
}

#[test]
fn check_wake_word_rejects_other_text() {
    let mut state = WakeWordState::new();
    assert!(!check_wake_word(&mut state, "merhaba dunya"));
}

#[test]
fn check_wake_word_sets_trigger_flag() {
    let mut state = WakeWordState::new();
    check_wake_word(&mut state, "adler");
    assert!(was_triggered(&mut state));
}

#[test]
fn was_triggered_consumes_flag() {
    let mut state = WakeWordState::new();
    check_wake_word(&mut state, "adler");
    assert!(was_triggered(&mut state));
    assert!(!was_triggered(&mut state));
}

#[test]
fn init_wake_word_succeeds() {
    let mut state = WakeWordState::new();
    let result = init_wake_word(&mut state, SttFallback::new(vec![]));
    assert!(result.is_ok());
    assert!(init_wake_word(&mut state, SttFallback::new(vec![])).is_ok());
}

#[test]
fn heard_audio_is_checked_for_the_wake_word() {
    let mut state = WakeWordState::new();
    check_audio(&mut state, &[100i16; 10]);
    assert!(!was_triggered(&mut state));
    init_wake_word(&mut state, SttFallback::new(vec![Box::new(Heard(Some("hey Adler")))])).unwrap();
    check_audio(&mut state, &[100i16; 10]);
    assert!(was_triggered(&mut state));
    let mut quiet = WakeWordState::new();
    init_wake_word(&mut quiet, SttFallback::new(vec![Box::new(Heard(Some("merhaba")))])).unwrap();
    check_audio(&mut quiet, &[100i16; 10]);
    assert!(!was_triggered(&mut quiet));
}

#[test]
fn transcript_with_wake_phrase_sets_flag() {
    let mut st = WakeWordState::new();
    on_transcript(&mut st, Some("Hey ADLER, saat kac?".to_string()));
    assert!(was_triggered(&mut st));
    on_transcript(&mut st, Some("merhaba".to_string()));
    assert!(!was_triggered(&mut st));
    on_transcript(&mut st, None);
    assert!(!was_triggered(&mut st));
}

#[test]
fn first_heard_takes_earliest_answer() {
    let answers = vec![None, Some("ikinci".to_string()), Some("ucuncu".to_string())];
    assert_eq!(first_heard(answers), Some("ikinci".to_string()));
    assert_eq!(first_heard(vec![None, None]), None);
    assert_eq!(first_heard(vec![]), None);
}

#[test]
fn fallback_skips_silent_engines_in_order() {
    let fb = SttFallback::new(vec![
        Box::new(Heard(None)),
        Box::new(Heard(Some("birinci"))),
        Box::new(Heard(Some("ikinci"))),
    ]);
    assert_eq!(fb.transcribe(&[0i16; 16]), Some("birinci".to_string()));
}
