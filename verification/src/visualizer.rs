//! UI state machine of the audio player.
//!
//! The window shows an Open button, the name of the selected file, a
//! Play button and a Stop button. `AudioVisualizer` keeps the selected
//! path; `update` reacts to one button press and decides which command,
//! if any, the UI thread must enqueue for the audio thread. Opening a
//! file goes through a native dialog; the shell around the library runs
//! the dialog and hands its outcome in as a plain value.

use crate::commands::AudioCommand;
use vstd::prelude::*;
use vstd::string::StrSliceExecFns;

verus! {

/// A button press in the window.
#[derive(Debug, Clone, Copy, PartialEq, Eq, Structural)]
pub enum UiMessage {
    /// The Open button: pick a file through the native dialog.
    OpenPressed,
    /// The Play button: play the selected file.
    PlayPressed,
    /// The Stop button: halt playback.
    StopPressed,
}

/// Outcome of the native file dialog.
#[derive(Debug, Clone, PartialEq, Eq)]
pub enum DialogOutcome {
    /// The user picked the file at this path.
    Selected(String),
    /// The user cancelled the dialog.
    Cancelled,
    /// The dialog itself failed.
    Failed,
}

/// The path a dialog outcome selects: the picked path, or nothing on
/// cancel and on failure.
pub open spec fn selected_path(d: DialogOutcome) -> Option<String> {
    match d {
        DialogOutcome::Selected(p) => Some(p),
        DialogOutcome::Cancelled => None,
        DialogOutcome::Failed => None,
    }
}

/// Index after the last `/` in `s`: where the displayed file name
/// starts.
pub open spec fn name_start(s: Seq<char>) -> int
    decreases s.len(),
{
    if s.len() == 0 {
        0
    } else if s.last() == '/' {
        s.len() as int
    } else {
        name_start(s.drop_last())
    }
}

/// The file name displayed for a path: everything after the last `/`,
/// or the whole path when it has none.
pub open spec fn display_of(s: Seq<char>) -> Seq<char> {
    s.subrange(name_start(s), s.len() as int)
}

/// UI-side state: the path of the selected audio file, if one is
/// selected.
#[derive(Debug, Clone, PartialEq, Eq)]
pub struct AudioVisualizer {
    /// Path picked through the file dialog, if any.
    pub file_path: Option<String>,
}

impl AudioVisualizer {
    /// Fresh UI state with no file selected.
    pub fn new() -> (v: AudioVisualizer)
        ensures
            v.file_path is None,
    {
        AudioVisualizer { file_path: None }
    }

    /// The window title.
    pub fn title(&self) -> (t: String)
        ensures
            t@ == "Audio Visualizer"@,
    {
        "Audio Visualizer".to_owned()
    }

    /// React to one button press. `dialog` is the outcome of the
    /// native file dialog, which the shell runs when the Open button
    /// is pressed; it is consulted for `OpenPressed` alone. Returns
    /// the command the UI thread must enqueue for the audio thread,
    /// if any: `Play` with the selected path, or `Stop`. Pressing
    /// Play with no file selected does nothing.
    pub fn update(&mut self, msg: UiMessage, dialog: DialogOutcome) -> (cmd: Option<AudioCommand>)
        ensures
            msg is OpenPressed ==> final(self).file_path == selected_path(dialog) && cmd is None,
            msg is PlayPressed ==> *final(self) == *old(self) && (match old(self).file_path {
                Some(p) => cmd matches Some(AudioCommand::Play(q)) && q@ == p@,
                None => cmd is None,
            }),
            msg is StopPressed ==> *final(self) == *old(self) && cmd == Some(AudioCommand::Stop),
    {
        match msg {
            UiMessage::OpenPressed => {
                match dialog {
                    DialogOutcome::Selected(p) => {
                        self.file_path = Some(p);
                    },
                    DialogOutcome::Cancelled => {
                        self.file_path = None;
                    },
                    DialogOutcome::Failed => {
                        self.file_path = None;
                    },
                }
                None
            },
            UiMessage::PlayPressed => {
                match &self.file_path {
                    Option::Some(p) => Some(AudioCommand::Play(p.clone())),
                    Option::None => None,
                }
            },
            UiMessage::StopPressed => Some(AudioCommand::Stop),
        }
    }

    /// The file name shown next to the buttons: everything after the
    /// last `/` of the selected path, or `-` when no file is
    /// selected.
    pub fn display_name(&self) -> (r: String)
        ensures
            match self.file_path {
                Some(p) => r@ == display_of(p@),
                None => r@ == "-"@,
            },
    {
        match &self.file_path {
            Option::None => "-".to_owned(),
            Option::Some(p) => {
                let s: &str = p.as_str();
                let n: usize = s.unicode_len();
                let mut start: usize = 0;
                let mut i: usize = 0;
                while i < n
                    invariant
                        i <= n,
                        start <= i,
                        n == s@.len(),
                        s@ == p@,
                        start == name_start(s@.subrange(0, i as int)),
                    decreases n - i,
                {
                    let c = s.get_char(i);
                    proof {
                        assert(s@.subrange(0, i + 1 as int).drop_last() =~= s@.subrange(
                            0,
                            i as int,
                        ));
                        assert(s@.subrange(0, i + 1 as int).last() == s@[i as int]);
                    }
                    if c == '/' {
                        start = i + 1;
                    }
                    i = i + 1;
                }
                proof {
                    assert(s@.subrange(0, n as int) =~= s@);
                }
                s.substring_char(start, n).to_owned()
            },
        }
    }
}

} // verus!
