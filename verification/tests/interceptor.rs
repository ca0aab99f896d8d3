use esponquen::interceptor::Capture;
use esponquen::{
    handle_keyboard_event, AppStatus, HookEvent, Key, Reaction, RecordingState, StatusChannel,
};

#[test]
fn other_keys_go_on_and_change_nothing() {
    let mut state: RecordingState<u8> = RecordingState::new();
    let idle = handle_keyboard_event(HookEvent::KeyPress(Key::KeyA), Key::F6, &mut state);
    assert_eq!(idle, Reaction::Forward);
    assert!(!idle.suppresses());
    assert!(idle.statuses().is_empty());
    assert!(!state.is_recording());

    state.begin();
    state.push(&[1, 2]);
    let armed = handle_keyboard_event(HookEvent::KeyPress(Key::F5), Key::F6, &mut state);
    assert_eq!(armed, Reaction::Forward);
    assert!(state.is_recording());
    let (samples, _) = state.end();
    assert_eq!(samples, vec![1, 2]);
}

#[test]
fn release_of_the_hotkey_goes_on() {
    let mut state: RecordingState<u8> = RecordingState::new();
    let reaction = handle_keyboard_event(HookEvent::KeyRelease(Key::F6), Key::F6, &mut state);
    assert_eq!(reaction, Reaction::Forward);
    assert!(!reaction.suppresses());
    assert!(!state.is_recording());
}

#[test]
fn events_that_are_no_key_go_on() {
    let mut state: RecordingState<u8> = RecordingState::new();
    state.begin();
    let reaction = handle_keyboard_event(HookEvent::Other, Key::F6, &mut state);
    assert_eq!(reaction, Reaction::Forward);
    assert!(state.is_recording());
}

#[test]
fn unknown_keys_match_by_their_code() {
    let mut state: RecordingState<u8> = RecordingState::new();
    let miss = handle_keyboard_event(
        HookEvent::KeyPress(Key::Unknown(7)),
        Key::Unknown(8),
        &mut state,
    );
    assert_eq!(miss, Reaction::Forward);
    let hit = handle_keyboard_event(
        HookEvent::KeyPress(Key::Unknown(8)),
        Key::Unknown(8),
        &mut state,
    );
    assert_eq!(hit, Reaction::Started);
}

#[test]
fn presses_of_the_hotkey_alternate() {
    let mut state: RecordingState<u8> = RecordingState::new();
    let mut expected = false;
    for round in 0..9 {
        assert_eq!(state.is_recording(), expected);
        if round % 3 == 0 {
            let other = handle_keyboard_event(HookEvent::KeyPress(Key::Space), Key::F6, &mut state);
            assert_eq!(other, Reaction::Forward);
            assert_eq!(state.is_recording(), expected);
        }
        let reaction = handle_keyboard_event(HookEvent::KeyPress(Key::F6), Key::F6, &mut state);
        assert!(reaction.suppresses());
        expected = !expected;
        assert_eq!(state.is_recording(), expected);
    }
}

#[test]
fn statuses_come_round_in_the_cycle() {
    let mut state: RecordingState<u8> = RecordingState::new();
    let mut seen = Vec::new();
    for session in 0..4u8 {
        let start = handle_keyboard_event(HookEvent::KeyPress(Key::F6), Key::F6, &mut state);
        seen.extend(start.statuses());
        if session % 2 == 0 {
            state.push(&[session]);
        }
        let stop = handle_keyboard_event(HookEvent::KeyPress(Key::F6), Key::F6, &mut state);
        seen.extend(stop.statuses());
        if let Reaction::Captured(capture) = stop {
            seen.push(capture.conclude("").status);
        }
    }
    let cycle = [AppStatus::Recording, AppStatus::Transcribing, AppStatus::WaitingForHotkey];
    assert_eq!(seen.len(), 12);
    for (i, status) in seen.iter().enumerate() {
        assert_eq!(*status, cycle[i % 3]);
    }
}

#[test]
fn statuses_of_each_reaction() {
    assert_eq!(Reaction::<u8>::Forward.statuses(), Vec::<AppStatus>::new());
    assert_eq!(Reaction::<u8>::Started.statuses(), vec![AppStatus::Recording]);
    assert_eq!(
        Reaction::<u8>::Discarded.statuses(),
        vec![AppStatus::Transcribing, AppStatus::WaitingForHotkey]
    );
    let captured = Reaction::Captured(Capture { sample_rate: 8000, samples: vec![1u8] });
    assert_eq!(captured.statuses(), vec![AppStatus::Transcribing]);
    assert!(captured.suppresses());
    assert!(Reaction::<u8>::Started.suppresses());
    assert!(Reaction::<u8>::Discarded.suppresses());
    assert!(!Reaction::<u8>::Forward.suppresses());
}

#[test]
fn blank_transcripts_are_not_typed() {
    let capture = Capture { sample_rate: 16000, samples: vec![0u8] };
    for text in ["", " ", "   ", "\n", "\t \r\n", "\u{3000}\u{a0}\u{2003}"] {
        let conclusion = capture.conclude(text);
        assert!(!conclusion.inject, "{:?}", text);
        assert_eq!(conclusion.status, AppStatus::WaitingForHotkey);
    }
}

#[test]
fn transcripts_with_content_are_typed() {
    let capture = Capture { sample_rate: 16000, samples: vec![0u8] };
    for text in ["hello world", " a ", "\n.\n", "\u{200b}", "0"] {
        let conclusion = capture.conclude(text);
        assert!(conclusion.inject, "{:?}", text);
        assert_eq!(conclusion.status, AppStatus::WaitingForHotkey);
    }
}

#[test]
fn announce_sends_the_statuses_in_order() {
    let mut channel = StatusChannel::new();
    channel.send(AppStatus::WaitingForHotkey);
    Reaction::<u8>::Forward.announce(&mut channel);
    Reaction::<u8>::Started.announce(&mut channel);
    Reaction::<u8>::Discarded.announce(&mut channel);
    Reaction::Captured(Capture { sample_rate: 1, samples: vec![5u8] }).announce(&mut channel);
    let mut seen = Vec::new();
    while let Some(status) = channel.try_recv() {
        seen.push(status);
    }
    assert_eq!(
        seen,
        vec![
            AppStatus::WaitingForHotkey,
            AppStatus::Recording,
            AppStatus::Transcribing,
            AppStatus::WaitingForHotkey,
            AppStatus::Transcribing
        ]
    );
}

#[test]
fn settle_pause_is_a_tenth_of_a_second() {
    assert_eq!(esponquen::interceptor::SETTLE_MILLIS, 100);
}
