use audio_visualizer::commands::{
    process_audio_command, AudioCommand, CommandQueue, DecodeOutcome, PlaybackState, SinkOp,
};

#[test]
fn empty_queue_polls_nothing() {
    let mut q = CommandQueue::new();
    assert!(q.is_empty());
    assert_eq!(q.len(), 0);
    assert!(q.try_recv().is_none());
    assert!(q.is_empty());
}

#[test]
fn commands_leave_in_fifo_order() {
    let mut q = CommandQueue::new();
    q.enqueue(AudioCommand::Play(String::from("a.mp3")));
    q.enqueue(AudioCommand::Stop);
    q.enqueue(AudioCommand::Play(String::from("b.mp3")));
    assert_eq!(q.len(), 3);
    assert_eq!(q.try_recv(), Some(AudioCommand::Play(String::from("a.mp3"))));
    assert_eq!(q.try_recv(), Some(AudioCommand::Stop));
    assert_eq!(q.try_recv(), Some(AudioCommand::Play(String::from("b.mp3"))));
    assert_eq!(q.try_recv(), None);
}

#[test]
fn one_command_per_poll() {
    let mut q = CommandQueue::new();
    q.enqueue(AudioCommand::Stop);
    q.enqueue(AudioCommand::Stop);
    let first = q.try_recv();
    assert!(first.is_some());
    assert_eq!(q.len(), 1);
}

#[test]
fn stop_after_play_halts_output() {
    let mut q = CommandQueue::new();
    q.enqueue(AudioCommand::Play(String::from("song.mp3")));
    q.enqueue(AudioCommand::Stop);

    let mut state = PlaybackState::new();
    while let Some(cmd) = q.try_recv() {
        process_audio_command(cmd, DecodeOutcome::Decoded, &mut state);
    }
    assert!(!state.is_playing());
    assert_eq!(state.playing, None);
}

#[test]
fn decoded_play_starts_the_stream() {
    let mut state = PlaybackState::new();
    let op = process_audio_command(
        AudioCommand::Play(String::from("song.mp3")),
        DecodeOutcome::Decoded,
        &mut state,
    );
    assert_eq!(op, SinkOp::Append);
    assert!(state.is_playing());
    assert_eq!(state.playing, Some(String::from("song.mp3")));
}

#[test]
fn unreadable_file_changes_nothing() {
    let mut state = PlaybackState::new();
    process_audio_command(
        AudioCommand::Play(String::from("song.mp3")),
        DecodeOutcome::Decoded,
        &mut state,
    );
    let before = state.clone();
    let op = process_audio_command(
        AudioCommand::Play(String::from("missing.mp3")),
        DecodeOutcome::OpenFailed,
        &mut state,
    );
    assert_eq!(op, SinkOp::Ignore);
    assert_eq!(state, before);
}

#[test]
fn non_audio_file_changes_nothing() {
    let mut state = PlaybackState::new();
    let op = process_audio_command(
        AudioCommand::Play(String::from("notes.txt")),
        DecodeOutcome::DecodeFailed,
        &mut state,
    );
    assert_eq!(op, SinkOp::Ignore);
    assert_eq!(state.playing, None);
}

#[test]
fn stop_while_idle_is_harmless() {
    let mut state = PlaybackState::new();
    let op = process_audio_command(AudioCommand::Stop, DecodeOutcome::Decoded, &mut state);
    assert_eq!(op, SinkOp::Halt);
    assert!(!state.is_playing());
}
