//! Command channel and playback-state transitions.
//!
//! The UI thread enqueues `Play(path)` or `Stop`; the audio thread
//! polls the queue, takes at most one command per poll, and applies
//! it to the output sink. `CommandQueue` is the FIFO queue between
//! the two threads, `PlaybackState` models what the sink is playing,
//! and `process_audio_command` decides, from a command and the
//! outcome of decoding the file, the new playback state and the
//! operation the audio thread must perform on the sink. A command
//! whose file cannot be opened or decoded is dropped silently.

use vstd::prelude::*;

verus! {

/// A request passed from the UI thread to the audio thread.
#[derive(Debug, Clone, PartialEq, Eq)]
pub enum AudioCommand {
    /// Start playing the file at this path.
    Play(String),
    /// Halt whatever is playing.
    Stop,
}

/// FIFO queue of pending audio commands: the model of the channel
/// between the UI thread and the audio thread. Commands leave in
/// the order they were enqueued.
pub struct CommandQueue {
    items: Vec<AudioCommand>,
}

impl View for CommandQueue {
    type V = Seq<AudioCommand>;

    closed spec fn view(&self) -> Seq<AudioCommand> {
        self.items@
    }
}

impl CommandQueue {
    /// An empty queue.
    pub fn new() -> (q: CommandQueue)
        ensures
            q@ == Seq::<AudioCommand>::empty(),
    {
        CommandQueue { items: Vec::new() }
    }

    /// Number of pending commands.
    pub fn len(&self) -> (n: usize)
        ensures
            n == self@.len(),
    {
        self.items.len()
    }

    /// Whether no command is pending.
    pub fn is_empty(&self) -> (b: bool)
        ensures
            b == (self@.len() == 0),
    {
        self.items.len() == 0
    }

    /// Enqueue a command at the back of the queue.
    pub fn enqueue(&mut self, cmd: AudioCommand)
        ensures
            final(self)@ == old(self)@.push(cmd),
    {
        self.items.push(cmd);
    }

    /// One non-blocking poll: takes the oldest pending command, or
    /// returns `None` and changes nothing when the queue is empty.
    /// At most one command leaves per poll.
    pub fn try_recv(&mut self) -> (r: Option<AudioCommand>)
        ensures
            old(self)@.len() == 0 ==> r is None && *final(self) == *old(self),
            old(self)@.len() > 0 ==> r == Some(old(self)@[0]) && final(self)@ == old(self)@.drop_first(),
    {
        if self.items.len() == 0 {
            None
        } else {
            let cmd = self.items.remove(0);
            proof {
                assert(self.items@ =~= old(self)@.drop_first());
            }
            Some(cmd)
        }
    }
}

/// Outcome of opening and decoding the selected file, as the audio
/// backend reports it to the audio thread.
#[derive(Debug, Clone, Copy, PartialEq, Eq, Structural)]
pub enum DecodeOutcome {
    /// The file was opened and decoded into a sample stream.
    Decoded,
    /// The file could not be opened.
    OpenFailed,
    /// The file was opened but is not decodable audio.
    DecodeFailed,
}

/// The operation the audio thread must perform on the output sink
/// after processing one command.
#[derive(Debug, Clone, Copy, PartialEq, Eq, Structural)]
pub enum SinkOp {
    /// Append the decoded stream to the sink.
    Append,
    /// Stop the sink, halting audio output.
    Halt,
    /// Touch the sink not at all.
    Ignore,
}

/// What the sink is playing: the path of the current stream, or
/// nothing.
#[derive(Debug, Clone, PartialEq, Eq)]
pub struct PlaybackState {
    /// Path of the stream the sink is playing, if any.
    pub playing: Option<String>,
}

impl PlaybackState {
    /// The idle state: nothing is playing.
    pub fn new() -> (st: PlaybackState)
        ensures
            st.playing is None,
    {
        PlaybackState { playing: None }
    }

    /// Whether the sink is playing anything.
    pub fn is_playing(&self) -> (b: bool)
        ensures
            b == (self.playing is Some),
    {
        match &self.playing {
            Option::Some(_) => true,
            Option::None => false,
        }
    }
}

/// Playback state after one command is processed: a `Play` whose file
/// decoded replaces the current stream, a `Play` whose file failed to
/// open or decode changes nothing, and `Stop` always halts.
pub open spec fn process_spec(
    st: PlaybackState,
    cmd: AudioCommand,
    decode: DecodeOutcome,
) -> PlaybackState {
    match cmd {
        AudioCommand::Play(p) => if decode == DecodeOutcome::Decoded {
            PlaybackState { playing: Some(p) }
        } else {
            st
        },
        AudioCommand::Stop => PlaybackState { playing: None },
    }
}

/// Sink operation for one command: append the stream when a `Play`
/// decoded, halt on `Stop`, and otherwise leave the sink alone.
pub open spec fn sink_op_spec(cmd: AudioCommand, decode: DecodeOutcome) -> SinkOp {
    match cmd {
        AudioCommand::Play(_) => if decode == DecodeOutcome::Decoded {
            SinkOp::Append
        } else {
            SinkOp::Ignore
        },
        AudioCommand::Stop => SinkOp::Halt,
    }
}

/// Process one command taken from the queue. `decode` is the outcome
/// of opening and decoding the command's file, reported by the audio
/// backend, and is consulted only for `Play`. Returns the operation
/// the audio thread must perform on the sink.
pub fn process_audio_command(
    cmd: AudioCommand,
    decode: DecodeOutcome,
    state: &mut PlaybackState,
) -> (op: SinkOp)
    ensures
        *final(state) == process_spec(*old(state), cmd, decode),
        op == sink_op_spec(cmd, decode),
{
    match cmd {
        AudioCommand::Play(p) => {
            if decode == DecodeOutcome::Decoded {
                state.playing = Some(p);
                SinkOp::Append
            } else {
                SinkOp::Ignore
            }
        },
        AudioCommand::Stop => {
            state.playing = None;
            SinkOp::Halt
        },
    }
}

/// Playback state after the audio thread has drained a whole sequence
/// of commands in FIFO order, the file of the `i`-th command decoding
/// as `decodes[i]` says.
pub open spec fn run_commands(
    st: PlaybackState,
    cmds: Seq<AudioCommand>,
    decodes: Seq<DecodeOutcome>,
) -> PlaybackState
    decreases cmds.len(),
{
    if cmds.len() == 0 {
        st
    } else {
        run_commands(process_spec(st, cmds[0], decodes[0]), cmds.drop_first(), decodes.drop_first())
    }
}

/// Law: enqueuing `Stop` after `Play(p)` halts playback. Whatever was
/// playing before and however the decode of `p` goes, once the two
/// commands are processed in FIFO order nothing is playing.
pub proof fn stop_after_play_halts(
    st: PlaybackState,
    p: String,
    d1: DecodeOutcome,
    d2: DecodeOutcome,
)
    ensures
        process_spec(process_spec(st, AudioCommand::Play(p), d1), AudioCommand::Stop, d2).playing
            is None,
{
}

/// Law: a queue whose last command is `Stop` leaves nothing playing
/// once the audio thread has drained it, whatever came before and
/// however each decode went.
pub proof fn stop_last_halts(st: PlaybackState, cmds: Seq<AudioCommand>, decodes: Seq<DecodeOutcome>)
    requires
        cmds.len() > 0,
        cmds.last() == AudioCommand::Stop,
    ensures
        run_commands(st, cmds, decodes).playing is None,
    decreases cmds.len(),
{
    if cmds.len() == 1 {
        assert(cmds[0] == AudioCommand::Stop);
    } else {
        assert(cmds.drop_first().last() == cmds.last());
        stop_last_halts(
            process_spec(st, cmds[0], decodes[0]),
            cmds.drop_first(),
            decodes.drop_first(),
        );
    }
}

/// Law: a `Play` command whose file cannot be opened or decoded
/// leaves the playback state exactly as it was, and the sink is not
/// touched.
pub proof fn failed_decode_changes_nothing(st: PlaybackState, p: String, d: DecodeOutcome)
    requires
        d != DecodeOutcome::Decoded,
    ensures
        process_spec(st, AudioCommand::Play(p), d) == st,
        sink_op_spec(AudioCommand::Play(p), d) == SinkOp::Ignore,
{
}

} // verus!
