use vstd::prelude::*;
use crate::channel::{CommandSender, command_channel, command_view, send_command};

verus! {

/// The first of the two sinks of the audio thread.
pub const SINK_1: i32 = 0;
/// The second of the two sinks of the audio thread.
pub const SINK_2: i32 = 1;

/// Start or resume playing.
pub const PLAY: i32 = 1;
/// Pause playing.
pub const PAUSE: i32 = 2;
/// Decode a file and queue it.
pub const LOAD: i32 = 0;

/// The empty name.
pub const NONE: &'static str = "";

/// `c` asks sink `sink` to do `stat` with the file or element `name`.
pub open spec fn command_is(c: (i32, String, i32), sink: i32, name: Seq<char>, stat: i32) -> bool {
    c.0 == sink && c.1@ == name && c.2 == stat
}

/// The control side of the audio thread: commands `(sink, name, stat)` go to
/// the thread that owns the two sinks.
pub struct Audio {
    control_channel: CommandSender,
}

impl Audio {
    /// The commands handed to the channel so far, oldest first.
    pub closed spec fn sent(&self) -> Seq<(i32, Seq<char>, i32)> {
        self.control_channel.sent()
    }

    /// A new control side, which has sent nothing yet, and the receiving end
    /// of its commands, which the audio thread reads and carries out as
    /// `dispatch` says. That the receiving end belongs to this control
    /// side's channel is not stated: it would take tracked data.
    pub fn new() -> (r: (Self, std::sync::mpsc::Receiver<(i32, String, i32)>))
        ensures
            r.0.sent() == Seq::<(i32, Seq<char>, i32)>::empty(),
    {
        let (tx, rx) = command_channel();
        (Audio { control_channel: tx }, rx)
    }

    /// Sends the command to the audio thread: the command is appended to the
    /// commands sent. Returns false where the thread is gone.
    pub fn play(&mut self, sinkid_name_stat: (i32, String, i32)) -> (ok: bool)
        ensures
            final(self).sent() == old(self).sent().push(command_view(sinkid_name_stat)),
    {
        send_command(&mut self.control_channel, sinkid_name_stat)
    }
}

/// What the audio thread does with one command.
pub enum SinkAction {
    /// Open and decode the file `path`, and queue it on sink `target`; where
    /// no sink is named the decoded file is dropped.
    Load { path: String, target: Option<usize> },
    /// Start or resume sink `sink`.
    Play { sink: usize },
    /// Pause sink `sink`.
    Pause { sink: usize },
    /// Nothing.
    Ignore,
}

/// The position of sink `id` among the two sinks, if it names one.
pub open spec fn sink_index(id: i32) -> Option<usize> {
    if id == SINK_1 {
        Some(0)
    } else if id == SINK_2 {
        Some(1)
    } else {
        None
    }
}

/// What the audio thread does with the command `(sinkid, name, stat)`: a
/// load decodes the file `name` and queues it on the named sink, a play or a
/// pause acts on the named sink, and anything else is ignored.
pub fn dispatch(sinkid_name_stat: (i32, String, i32)) -> (a: SinkAction)
    ensures
        sinkid_name_stat.2 == LOAD ==> (a matches SinkAction::Load { path, target } && path@
            == sinkid_name_stat.1@ && target == sink_index(sinkid_name_stat.0)),
        sinkid_name_stat.2 == PLAY && sink_index(sinkid_name_stat.0) is Some ==> (a matches SinkAction::Play { sink } && Some(sink) == sink_index(sinkid_name_stat.0)),
        sinkid_name_stat.2 == PAUSE && sink_index(sinkid_name_stat.0) is Some ==> (a matches SinkAction::Pause { sink } && Some(sink) == sink_index(sinkid_name_stat.0)),
        sinkid_name_stat.2 != LOAD && (sink_index(sinkid_name_stat.0) is None || (sinkid_name_stat.2 != PLAY && sinkid_name_stat.2 != PAUSE)) ==> a is Ignore,
{
    let (sinkid, name, stat) = sinkid_name_stat;
    let sink = if sinkid == SINK_1 {
        Some(0)
    } else if sinkid == SINK_2 {
        Some(1)
    } else {
        None
    };
    if stat == LOAD {
        SinkAction::Load { path: name, target: sink }
    } else if stat == PLAY {
        match sink {
            Some(s) => SinkAction::Play { sink: s },
            None => SinkAction::Ignore,
        }
    } else if stat == PAUSE {
        match sink {
            Some(s) => SinkAction::Pause { sink: s },
            None => SinkAction::Ignore,
        }
    } else {
        SinkAction::Ignore
    }
}

/// What the browser does with a command: play or pause the audio element of
/// that name. It has no sinks and no files to load.
pub enum WebAudioAction {
    Play(String),
    Pause(String),
    Ignore,
}

/// What the browser does with a command of stat `stat` for the element
/// `name`: play it (`true`) or pause it (`false`), or nothing. The sink is
/// not among the arguments: the browser ignores it.
pub open spec fn web_effect(stat: i32, name: Seq<char>) -> Option<(bool, Seq<char>)> {
    if stat == PLAY {
        Some((true, name))
    } else if stat == PAUSE {
        Some((false, name))
    } else {
        None
    }
}

/// A browser action as the contracts speak of it.
pub open spec fn web_action_view(a: WebAudioAction) -> Option<(bool, Seq<char>)> {
    match a {
        WebAudioAction::Play(n) => Some((true, n@)),
        WebAudioAction::Pause(n) => Some((false, n@)),
        WebAudioAction::Ignore => None,
    }
}

/// What the browser does with the command `(sinkid, name, stat)`: a play or
/// a pause acts on the element `name`, whatever the sink; anything else is
/// ignored.
pub fn web_action(sinkid_name_stat: (i32, String, i32)) -> (a: WebAudioAction)
    ensures
        web_action_view(a) == web_effect(sinkid_name_stat.2, sinkid_name_stat.1@),
{
    let (_sinkid, name, stat) = sinkid_name_stat;
    if stat == PLAY {
        WebAudioAction::Play(name)
    } else if stat == PAUSE {
        WebAudioAction::Pause(name)
    } else {
        WebAudioAction::Ignore
    }
}

} // verus!
