use vstd::prelude::*;

verus! {

/// The sending end of a channel.
#[verifier::external_type_specification]
#[verifier::external_body]
#[verifier::reject_recursive_types(T)]
pub struct ExSender<T>(std::sync::mpsc::Sender<T>);

/// The receiving end of a channel.
#[verifier::external_type_specification]
#[verifier::external_body]
#[verifier::reject_recursive_types(T)]
pub struct ExReceiver<T>(std::sync::mpsc::Receiver<T>);

/// A command as the contracts speak of it: its sink, its name as text, and
/// its stat.
pub open spec fn command_view(c: (i32, String, i32)) -> (i32, Seq<char>, i32) {
    (c.0, c.1@, c.2)
}

/// The sending end of the audio commands' channel, with the log of the
/// commands handed to it. The log is private to this module: only
/// `send_command`, which hands a command to the channel, extends it.
pub struct CommandSender {
    sender: std::sync::mpsc::Sender<(i32, String, i32)>,
    sent: Ghost<Seq<(i32, Seq<char>, i32)>>,
}

impl CommandSender {
    /// The commands handed to the channel so far, oldest first.
    pub closed spec fn sent(&self) -> Seq<(i32, Seq<char>, i32)> {
        self.sent@
    }
}

/// Calls `std::sync::mpsc::channel`: a new channel, as its two ends. Nothing
/// is stated of them.
#[verifier::external_body]
fn std_channel() -> (std::sync::mpsc::Sender<(i32, String, i32)>, std::sync::mpsc::Receiver<
    (i32, String, i32),
>) {
    std::sync::mpsc::channel()
}

/// A new channel for audio commands: its sending end, which has been handed
/// nothing yet, and its receiving end.
pub fn command_channel() -> (r: (CommandSender, std::sync::mpsc::Receiver<(i32, String, i32)>))
    ensures
        r.0.sent() == Seq::<(i32, Seq<char>, i32)>::empty(),
{
    let (tx, rx) = std_channel();
    (CommandSender { sender: tx, sent: Ghost(Seq::empty()) }, rx)
}

/// Calls `Sender::send` with `cmd`, and records `cmd` in the log of the
/// commands handed to the channel. Returns whether the channel took the
/// command (it does not where the receiving end is gone); nothing is stated
/// of that result, which depends on the thread that holds the receiving end.
#[verifier::external_body]
pub(crate) fn send_command(s: &mut CommandSender, cmd: (i32, String, i32)) -> (ok: bool)
    ensures
        final(s).sent() == old(s).sent().push(command_view(cmd)),
{
    match s.sender.send(cmd) {
        Ok(()) => true,
        Err(_) => false,
    }
}

} // verus!
