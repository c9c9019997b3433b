//! Remote command execution, limited to a list of harmless commands.

use vstd::prelude::*;
use vstd::string::StringExecFns;
use crate::device::DeviceId;
use crate::message::{Message, MessageView};
use crate::text::str_eq;

verus! {

/// A command to run, with its arguments.
#[derive(Debug, Clone, PartialEq)]
pub struct CommandRequest {
    /// The program.
    pub command: String,
    /// Its arguments.
    pub args: Vec<String>,
}

/// A command to run, as plain values.
pub struct CommandView {
    pub command: Seq<char>,
    pub args: Seq<Seq<char>>,
}

impl View for CommandRequest {
    type V = CommandView;

    open spec fn view(&self) -> CommandView {
        CommandView { command: self.command@, args: self.args.deep_view() }
    }
}

/// The commands that a peer may run.
pub open spec fn default_commands() -> Seq<Seq<char>> {
    seq!["echo"@, "date"@, "whoami"@, "pwd"@, "ls"@, "df"@, "uptime"@, "uname"@]
}

/// The command to run for a message: that of a remote command whose program
/// is on the list, with its arguments as they came; none for a program that
/// is not on the list, and none for other messages.
pub open spec fn command_for(allowed: Seq<Seq<char>>, message: MessageView) -> Option<CommandView> {
    match message {
        MessageView::RemoteCommand { command, args } => if allowed.contains(command) {
            Some(CommandView { command, args })
        } else {
            None
        },
        _ => None,
    }
}

/// The view of an optional command.
pub open spec fn to_run(request: Option<CommandRequest>) -> Option<CommandView> {
    match request {
        Some(command) => Some(command@),
        None => None,
    }
}

/// Runs the commands that peers ask for, if they are on its list.
pub struct RemoteCommandsPlugin {
    allowed_commands: Vec<String>,
}

impl RemoteCommandsPlugin {
    /// The commands that a peer may run.
    pub closed spec fn allowed(&self) -> Seq<Seq<char>> {
        self.allowed_commands.deep_view()
    }

    /// Creates the handler with its list of commands.
    pub fn new() -> (plugin: RemoteCommandsPlugin)
        ensures
            plugin.allowed() == default_commands(),
    {
        let mut allowed_commands: Vec<String> = Vec::new();
        allowed_commands.push(String::from_str("echo"));
        allowed_commands.push(String::from_str("date"));
        allowed_commands.push(String::from_str("whoami"));
        allowed_commands.push(String::from_str("pwd"));
        allowed_commands.push(String::from_str("ls"));
        allowed_commands.push(String::from_str("df"));
        allowed_commands.push(String::from_str("uptime"));
        allowed_commands.push(String::from_str("uname"));
        assert(allowed_commands.deep_view() =~= default_commands());
        RemoteCommandsPlugin { allowed_commands }
    }

    /// The handler's name.
    pub fn name(&self) -> (name: &'static str)
        ensures
            name@ == "remote-commands"@,
    {
        "remote-commands"
    }

    /// Whether a peer may run the program.
    pub fn is_allowed(&self, command: &str) -> (allowed: bool)
        ensures
            allowed == self.allowed().contains(command@),
    {
        let mut i: usize = 0;
        while i < self.allowed_commands.len()
            invariant
                i <= self.allowed_commands.len(),
                forall|j: int| 0 <= j < i ==> self.allowed_commands.deep_view()[j] != command@,
            decreases self.allowed_commands.len() - i,
        {
            if str_eq(self.allowed_commands[i].as_str(), command) {
                assert(self.allowed_commands.deep_view()[i as int] == command@);
                return true;
            }
            i = i + 1;
        }
        false
    }

    /// The command to run for a message, if any.
    pub fn handle_message(&self, message: &Message, sender_id: &DeviceId) -> (request: Option<
        CommandRequest,
    >)
        ensures
            to_run(request) == command_for(self.allowed(), message@),
    {
        match message {
            Message::RemoteCommand { command, args } => {
                if self.is_allowed(command.as_str()) {
                    let mut copied: Vec<String> = Vec::new();
                    let mut i: usize = 0;
                    while i < args.len()
                        invariant
                            i <= args.len(),
                            copied.deep_view() == args.deep_view().take(i as int),
                        decreases args.len() - i,
                    {
                        let ghost earlier = copied.deep_view();
                        copied.push(args[i].clone());
                        assert(copied.deep_view() =~= earlier.push(args@[i as int]@));
                        i = i + 1;
                        assert(copied.deep_view() =~= args.deep_view().take(i as int));
                    }
                    assert(args.deep_view().take(i as int) =~= args.deep_view());
                    Some(CommandRequest { command: command.clone(), args: copied })
                } else {
                    None
                }
            },
            _ => None,
        }
    }
}

impl Default for RemoteCommandsPlugin {
    fn default() -> (plugin: RemoteCommandsPlugin)
        ensures
            plugin.allowed() == default_commands(),
    {
        RemoteCommandsPlugin::new()
    }
}

} // verus!
