//! What the lines that a user types ask for, and what is answered.
use crate::ciphersuite::security_mode::{mode_name, SecurityMode};
use crate::cli::conversation::{
    case_and_margins_do_not_count, mode_asked, mode_meant, parsed_mode, with_text, CliSecurityMode, ConversationMessage,
};
use crate::cli::words::{
    after_prefix, find, first_from, lemma_trimmed_front, prefix_and_rest_make_the_text, same_text, single_words_are_whole, split_words, strip_prefix,
    texts, trim, trimmed, words,
};
use crate::credentials::device_capability::{DeviceCapability, DeviceCapabilityView};
use crate::text::{bool_text, decimal, push_bool, push_decimal};
use crate::types::{ciphersuite_name, Ciphersuite};
use vstd::prelude::*;
use vstd::string::*;

verus! {

/// The list of commands that `help` prints.
pub const HELP: &'static str = "
>>> Available commands:
>>>     - update                                update the client state
>>>     - reset                                 reset the server
>>>     - register {client name}                register a new client
>>>     - save {client name}                    serialize and save the client state
>>>     - load {client name}                    load and deserialize the client state as a new client
>>>     - autosave                              enable automatic save of the current client state upon each update
>>>     - create kp                             create a new key package
>>>     - create group {group name}             create a new group
>>>     - group {group name}                    group operations
>>>         - send {message}                    send message to group
>>>         - invite {client name}              invite a user to the group
>>>         - read                              read messages sent to the group (max 100)
>>>         - update                            update the client state

";

/// The name of a group and its mode, as a user asks for them behind `create group`:
/// a name alone, a name and the word for a mode, or a name and `--security-mode`. A
/// name of several words, none of them behind `--security-mode`, is taken as it stands,
/// unless it has two and the second stands for a mode.
pub open spec fn group_asked(rest: Seq<char>) -> (Seq<char>, Result<CliSecurityMode, Seq<char>>) {
    let t = trimmed(rest);
    match first_from(t, "--security-mode"@, 0) {
        Some(i) => (
            trimmed(t.take(i as int)),
            parsed_mode(trimmed(t.skip((i + "--security-mode"@.len()) as int))),
        ),
        None => {
            let parts = words(t);
            if parts.len() == 0 {
                (Seq::empty(), Ok(CliSecurityMode::Classical))
            } else if parts.len() == 1 {
                (parts[0], Ok(CliSecurityMode::Classical))
            } else if parts.len() == 2 {
                match mode_asked(parts[1]) {
                    Some(mode) => (parts[0], Ok(mode)),
                    None => (t, Ok(CliSecurityMode::Classical)),
                }
            } else {
                (t, Ok(CliSecurityMode::Classical))
            }
        },
    }
}

/// The name of a group and its mode, as a user asks for them behind `create group`.
pub fn parse_create_group_args(rest: &str) -> (r: (String, Result<CliSecurityMode, String>))
    ensures
        (r.0@, with_text(r.1)) == group_asked(rest@),
{
    let trimmed_rest: &str = trim(rest);
    let flag: &str = "--security-mode";
    if let Some(idx) = find(trimmed_rest, flag) {
        proof {
            lemma_found(trimmed_rest@, flag@, 0);
        }
        let end: usize = trimmed_rest.unicode_len();
        let name: &str = trimmed_rest.substring_char(0, idx);
        let mode: &str = trimmed_rest.substring_char(idx + flag.unicode_len(), end);
        assert(name@ =~= trimmed_rest@.take(idx as int));
        assert(mode@ =~= trimmed_rest@.skip(idx + flag@.len()));
        return (trim(name).to_owned(), CliSecurityMode::parse(trim(mode)));
    }
    let parts: Vec<String> = split_words(trimmed_rest);
    assert(parts@.len() == texts(parts@).len());
    assert(forall|i: int| 0 <= i < parts@.len() ==> texts(parts@)[i] == (#[trigger] parts@[i])@);
    if parts.len() == 0 {
        (String::new(), Ok(CliSecurityMode::Classical))
    } else if parts.len() == 1 {
        (parts[0].clone(), Ok(CliSecurityMode::Classical))
    } else if parts.len() == 2 {
        match CliSecurityMode::parse(parts[1].as_str()) {
            Ok(mode) => (parts[0].clone(), Ok(mode)),
            Err(_) => (trimmed_rest.to_owned(), Ok(CliSecurityMode::Classical)),
        }
    } else {
        (trimmed_rest.to_owned(), Ok(CliSecurityMode::Classical))
    }
}

/// A pattern that is found fits behind where it was found.
proof fn lemma_found(s: Seq<char>, pattern: Seq<char>, from: nat)
    ensures
        first_from(s, pattern, from) matches Some(i) ==> i + pattern.len() <= s.len(),
    decreases s.len() + 1 - from,
{
    if from + pattern.len() <= s.len() && s.subrange(from as int, (from + pattern.len()) as int)
        != pattern {
        lemma_found(s, pattern, from + 1);
    }
}

/// A name without `--security-mode`, whose second word, if it has exactly two, stands
/// for no mode, is the name of a classical group as it stands.
pub proof fn plain_names_are_kept(rest: Seq<char>)
    requires
        first_from(trimmed(rest), "--security-mode"@, 0) is None,
        words(trimmed(rest)).len() == 2 ==> mode_asked(words(trimmed(rest))[1]) is None,
    ensures
        group_asked(rest) == (
            trimmed(rest),
            Ok::<CliSecurityMode, Seq<char>>(CliSecurityMode::Classical),
        ),
{
    single_words_are_whole(rest);
}

/// Only `--security-mode` can be refused.
pub proof fn only_the_long_form_is_refused(rest: Seq<char>)
    ensures
        group_asked(rest).1 is Err ==> first_from(trimmed(rest), "--security-mode"@, 0) is Some,
{
}

/// What a line asks for.
#[derive(Debug, PartialEq, Eq)]
pub enum Command {
    /// To register a client under a name.
    Register(String),
    /// To load a client.
    Load(String),
    /// To make a key package.
    CreateKeyPackage,
    /// To save the client.
    Save,
    /// To save the client after each change.
    Autosave,
    /// To create a group, with the text behind `create group`.
    CreateGroup(String),
    /// To show what the client can do.
    ShowCapability,
    /// To show which mode the client would get alone.
    SelectMode,
    /// To enter a group.
    Group(String),
    /// To fetch what is new.
    Update,
    /// To reset the server.
    Reset,
    /// To list the commands.
    Help,
    /// Nothing that is known.
    Unknown,
}

/// A `Command` over the characters of its texts.
pub enum CommandView {
    /// See `Command::Register`.
    Register(Seq<char>),
    /// See `Command::Load`.
    Load(Seq<char>),
    /// See `Command::CreateKeyPackage`.
    CreateKeyPackage,
    /// See `Command::Save`.
    Save,
    /// See `Command::Autosave`.
    Autosave,
    /// See `Command::CreateGroup`.
    CreateGroup(Seq<char>),
    /// See `Command::ShowCapability`.
    ShowCapability,
    /// See `Command::SelectMode`.
    SelectMode,
    /// See `Command::Group`.
    Group(Seq<char>),
    /// See `Command::Update`.
    Update,
    /// See `Command::Reset`.
    Reset,
    /// See `Command::Help`.
    Help,
    /// See `Command::Unknown`.
    Unknown,
}

impl View for Command {
    type V = CommandView;

    open spec fn view(&self) -> CommandView {
        match self {
            Command::Register(name) => CommandView::Register(name@),
            Command::Load(name) => CommandView::Load(name@),
            Command::CreateKeyPackage => CommandView::CreateKeyPackage,
            Command::Save => CommandView::Save,
            Command::Autosave => CommandView::Autosave,
            Command::CreateGroup(rest) => CommandView::CreateGroup(rest@),
            Command::ShowCapability => CommandView::ShowCapability,
            Command::SelectMode => CommandView::SelectMode,
            Command::Group(name) => CommandView::Group(name@),
            Command::Update => CommandView::Update,
            Command::Reset => CommandView::Reset,
            Command::Help => CommandView::Help,
            Command::Unknown => CommandView::Unknown,
        }
    }
}

/// What a line asks for. White space around a line counts, except around the lines
/// that ask for the capability and for the mode.
pub open spec fn command_asked(op: Seq<char>) -> CommandView {
    if after_prefix(op, "register "@) is Some {
        CommandView::Register(after_prefix(op, "register "@)->0)
    } else if after_prefix(op, "load "@) is Some {
        CommandView::Load(after_prefix(op, "load "@)->0)
    } else if op == "create kp"@ {
        CommandView::CreateKeyPackage
    } else if op == "save"@ {
        CommandView::Save
    } else if op == "autosave"@ {
        CommandView::Autosave
    } else if after_prefix(op, "create group "@) is Some {
        CommandView::CreateGroup(after_prefix(op, "create group "@)->0)
    } else if trimmed(op) == "capability"@ || trimmed(op) == "show capability"@ {
        CommandView::ShowCapability
    } else if trimmed(op) == "select-mode"@ {
        CommandView::SelectMode
    } else if after_prefix(op, "group "@) is Some {
        CommandView::Group(after_prefix(op, "group "@)->0)
    } else if op == "update"@ {
        CommandView::Update
    } else if op == "reset"@ {
        CommandView::Reset
    } else if op == "help"@ {
        CommandView::Help
    } else {
        CommandView::Unknown
    }
}

/// What a line asks for.
pub fn parse_command(op: &str) -> (r: Command)
    ensures
        r@ == command_asked(op@),
{
    if let Some(name) = strip_prefix(op, "register ") {
        return Command::Register(name.to_owned());
    }
    if let Some(name) = strip_prefix(op, "load ") {
        return Command::Load(name.to_owned());
    }
    if same_text(op, "create kp") {
        return Command::CreateKeyPackage;
    }
    if same_text(op, "save") {
        return Command::Save;
    }
    if same_text(op, "autosave") {
        return Command::Autosave;
    }
    if let Some(rest) = strip_prefix(op, "create group ") {
        return Command::CreateGroup(rest.to_owned());
    }
    let bare: &str = trim(op);
    if same_text(bare, "capability") || same_text(bare, "show capability") {
        return Command::ShowCapability;
    }
    if same_text(bare, "select-mode") {
        return Command::SelectMode;
    }
    if let Some(name) = strip_prefix(op, "group ") {
        return Command::Group(name.to_owned());
    }
    if same_text(op, "update") {
        return Command::Update;
    }
    if same_text(op, "reset") {
        return Command::Reset;
    }
    if same_text(op, "help") {
        return Command::Help;
    }
    Command::Unknown
}

/// What a line inside a group asks for.
#[derive(Debug, PartialEq, Eq)]
pub enum GroupCommand {
    /// To send a message.
    Send(String),
    /// To add a client.
    Invite(String),
    /// To remove a client.
    Remove(String),
    /// To read the messages.
    Read,
    /// To fetch what is new.
    Update,
    /// To leave the prompt of the group.
    Exit,
    /// Nothing that is known.
    Unknown,
}

/// A `GroupCommand` over the characters of its texts.
pub enum GroupCommandView {
    /// See `GroupCommand::Send`.
    Send(Seq<char>),
    /// See `GroupCommand::Invite`.
    Invite(Seq<char>),
    /// See `GroupCommand::Remove`.
    Remove(Seq<char>),
    /// See `GroupCommand::Read`.
    Read,
    /// See `GroupCommand::Update`.
    Update,
    /// See `GroupCommand::Exit`.
    Exit,
    /// See `GroupCommand::Unknown`.
    Unknown,
}

impl View for GroupCommand {
    type V = GroupCommandView;

    open spec fn view(&self) -> GroupCommandView {
        match self {
            GroupCommand::Send(message) => GroupCommandView::Send(message@),
            GroupCommand::Invite(name) => GroupCommandView::Invite(name@),
            GroupCommand::Remove(name) => GroupCommandView::Remove(name@),
            GroupCommand::Read => GroupCommandView::Read,
            GroupCommand::Update => GroupCommandView::Update,
            GroupCommand::Exit => GroupCommandView::Exit,
            GroupCommand::Unknown => GroupCommandView::Unknown,
        }
    }
}

/// What a line inside a group asks for.
pub open spec fn group_command_asked(op: Seq<char>) -> GroupCommandView {
    if after_prefix(op, "send "@) is Some {
        GroupCommandView::Send(after_prefix(op, "send "@)->0)
    } else if after_prefix(op, "invite "@) is Some {
        GroupCommandView::Invite(after_prefix(op, "invite "@)->0)
    } else if after_prefix(op, "remove "@) is Some {
        GroupCommandView::Remove(after_prefix(op, "remove "@)->0)
    } else if op == "read"@ {
        GroupCommandView::Read
    } else if op == "update"@ {
        GroupCommandView::Update
    } else if op == "exit"@ {
        GroupCommandView::Exit
    } else {
        GroupCommandView::Unknown
    }
}

/// What a line inside a group asks for.
pub fn parse_group_command(op: &str) -> (r: GroupCommand)
    ensures
        r@ == group_command_asked(op@),
{
    if let Some(message) = strip_prefix(op, "send ") {
        return GroupCommand::Send(message.to_owned());
    }
    if let Some(name) = strip_prefix(op, "invite ") {
        return GroupCommand::Invite(name.to_owned());
    }
    if let Some(name) = strip_prefix(op, "remove ") {
        return GroupCommand::Remove(name.to_owned());
    }
    if same_text(op, "read") {
        return GroupCommand::Read;
    }
    if same_text(op, "update") {
        return GroupCommand::Update;
    }
    if same_text(op, "exit") {
        return GroupCommand::Exit;
    }
    GroupCommand::Unknown
}

/// What is answered to a command that needs a client while there is none. `None` for
/// the commands that need none.
pub open spec fn missing_client_text(command: CommandView) -> Option<Seq<char>> {
    match command {
        CommandView::CreateKeyPackage | CommandView::Save | CommandView::Autosave
        | CommandView::Update => Some(" >>> No client to update :(\n\n"@),
        CommandView::CreateGroup(_) => Some(" >>> No client to create a group :(\n\n"@),
        CommandView::ShowCapability => Some(" >>> No client to show capability for :(\n\n"@),
        CommandView::SelectMode => Some(" >>> No client to select mode for :(\n\n"@),
        CommandView::Group(_) => Some(" >>> No client :(\n\n"@),
        _ => None,
    }
}

impl Command {
    /// What is answered where the command needs a client and there is none.
    pub fn missing_client_reply(&self) -> (r: Option<&'static str>)
        ensures
            match (r, missing_client_text(self@)) {
                (Some(text), Some(expected)) => text@ == expected,
                (None, None) => true,
                _ => false,
            },
    {
        match self {
            Command::CreateKeyPackage | Command::Save | Command::Autosave | Command::Update => Some(
                " >>> No client to update :(\n\n",
            ),
            Command::CreateGroup(_) => Some(" >>> No client to create a group :(\n\n"),
            Command::ShowCapability => Some(" >>> No client to show capability for :(\n\n"),
            Command::SelectMode => Some(" >>> No client to select mode for :(\n\n"),
            Command::Group(_) => Some(" >>> No client :(\n\n"),
            _ => None,
        }
    }
}

/// The names of suites, as a list in square brackets holds them.
pub open spec fn suite_names(suites: Seq<Ciphersuite>) -> Seq<char>
    decreases suites.len(),
{
    if suites.len() == 0 {
        Seq::empty()
    } else if suites.len() == 1 {
        ciphersuite_name(suites[0])
    } else {
        suite_names(suites.drop_last()) + ", "@ + ciphersuite_name(suites.last())
    }
}

/// Appends the names of suites.
fn push_suite_names(out: &mut String, suites: &[Ciphersuite])
    ensures
        final(out)@ == old(out)@ + suite_names(suites@),
{
    let ghost start = out@;
    let mut i: usize = 0;
    assert(start + Seq::<char>::empty() =~= start);
    while i < suites.len()
        invariant
            i <= suites@.len(),
            out@ == start + suite_names(suites@.take(i as int)),
        decreases suites@.len() - i,
    {
        let ghost before = out@;
        if i > 0 {
            out.append(", ");
        }
        out.append(suites[i].name());
        proof {
            let longer = suites@.take(i + 1);
            assert(longer.drop_last() =~= suites@.take(i as int));
            assert(longer.last() == suites@[i as int]);
            assert(out@ =~= start + suite_names(longer));
        }
        i += 1;
    }
    assert(suites@.take(i as int) =~= suites@);
}

/// A capability as the command `capability` prints it.
pub open spec fn capability_text(cap: DeviceCapabilityView) -> Seq<char> {
    " >>> DeviceCapability\n       mls_version: "@ + decimal(cap.mls_version as nat)
        + "\n       classical_ciphersuites: ["@ + suite_names(cap.classical_ciphersuites)
        + "]\n       pq_ciphersuites: ["@ + suite_names(cap.pq_ciphersuites)
        + "]\n       apq_supported: "@ + bool_text(cap.apq_supported)
        + "\n       pq_auth_supported: "@ + bool_text(cap.pq_auth_supported)
        + "\n       provider_id: "@ + cap.provider_id + "\n       capability_signature: "@
        + decimal(cap.capability_signature.len()) + " bytes\n\n"@
}

/// A capability as the command `capability` prints it.
pub fn format_capability(cap: &DeviceCapability) -> (r: String)
    ensures
        r@ == capability_text(cap@),
{
    let mut out: String = " >>> DeviceCapability\n       mls_version: ".to_owned();
    push_decimal(&mut out, cap.mls_version as u64);
    out.append("\n       classical_ciphersuites: [");
    push_suite_names(&mut out, cap.classical_ciphersuites.as_slice());
    out.append("]\n       pq_ciphersuites: [");
    push_suite_names(&mut out, cap.pq_ciphersuites.as_slice());
    out.append("]\n       apq_supported: ");
    push_bool(&mut out, cap.apq_supported);
    out.append("\n       pq_auth_supported: ");
    push_bool(&mut out, cap.pq_auth_supported);
    out.append("\n       provider_id: ");
    out.append(cap.provider_id.as_str());
    out.append("\n       capability_signature: ");
    push_decimal(&mut out, cap.capability_signature.as_slice().len() as u64);
    out.append(" bytes\n\n");
    out
}

/// One line for each message.
pub open spec fn message_lines(messages: Seq<ConversationMessage>) -> Seq<char>
    decreases messages.len(),
{
    if messages.len() == 0 {
        Seq::empty()
    } else {
        message_lines(messages.drop_last()) + "         "@ + messages.last()@.message + " from "@
            + messages.last()@.author + "\n"@
    }
}

/// What is answered to `update`.
pub open spec fn update_text(messages: Seq<ConversationMessage>) -> Seq<char> {
    " >>> Updated client :)\n"@ + (if messages.len() > 0 {
        "     New messages:\n\n"@
    } else {
        Seq::empty()
    }) + message_lines(messages) + "\n"@
}

/// What is answered to `update`, given the messages that are new.
pub fn update(messages: &[ConversationMessage]) -> (r: String)
    ensures
        r@ == update_text(messages@),
{
    let mut out: String = " >>> Updated client :)\n".to_owned();
    if messages.len() > 0 {
        out.append("     New messages:\n\n");
    }
    assert(out@ =~= " >>> Updated client :)\n"@ + (if messages@.len() > 0 {
        "     New messages:\n\n"@
    } else {
        Seq::empty()
    }));
    let ghost start = out@;
    let mut i: usize = 0;
    assert(start + Seq::<char>::empty() =~= start);
    while i < messages.len()
        invariant
            i <= messages@.len(),
            out@ == start + message_lines(messages@.take(i as int)),
        decreases messages@.len() - i,
    {
        let ghost before = out@;
        out.append("         ");
        out.append(messages[i].message.as_str());
        out.append(" from ");
        out.append(messages[i].author.as_str());
        out.append("\n");
        proof {
            let longer = messages@.take(i + 1);
            assert(longer.drop_last() =~= messages@.take(i as int));
            assert(longer.last() == messages@[i as int]);
            assert(out@ =~= start + message_lines(longer));
        }
        i += 1;
    }
    assert(messages@.take(i as int) =~= messages@);
    out.append("\n");
    out
}

/// What is answered to a command.
#[derive(Debug, PartialEq, Eq)]
pub enum Reply {
    /// The greeting.
    Greeting,
    /// A client is registered.
    Registered {
        /// The client.
        client: String,
    },
    /// A client is loaded.
    Recovered {
        /// The client.
        client: String,
    },
    /// A client could not be loaded.
    RecoveryFailed {
        /// The client.
        client: String,
        /// The reason.
        error: String,
    },
    /// A key package is made.
    KeyPackageCreated,
    /// The client is saved.
    Saved {
        /// The client.
        client: String,
    },
    /// The client is saved after each change from now on.
    AutosaveEnabled {
        /// The client.
        client: String,
    },
    /// A group is created.
    GroupCreated {
        /// Its mode.
        asked: CliSecurityMode,
        /// Its name.
        group: String,
    },
    /// A group could not be created.
    CreateFailed {
        /// The reason.
        error: String,
    },
    /// The mode of a group is not known.
    InvalidMode {
        /// The reason.
        error: String,
    },
    /// There is no capability to show.
    CapabilityError {
        /// The reason.
        error: String,
    },
    /// Which mode the client would get alone.
    SelectedMode {
        /// The mode.
        mode: SecurityMode,
        /// The suite.
        suite: Ciphersuite,
    },
    /// There is no mode to show.
    SelectModeError {
        /// The reason.
        error: String,
    },
    /// A message is sent.
    Sent {
        /// The group.
        group: String,
    },
    /// A client is added to a group.
    Added {
        /// The client.
        client: String,
        /// The group.
        group: String,
    },
    /// A client is removed from a group.
    Removed {
        /// The client.
        client: String,
        /// The group.
        group: String,
    },
    /// How many messages a group has received.
    Received {
        /// The group.
        group: String,
        /// How many.
        count: u64,
    },
    /// A group has no messages.
    NoMessages {
        /// The group.
        group: String,
    },
    /// The prompt of the group ends.
    LeavingGroup,
    /// A line inside a group asks for nothing that is known.
    UnknownGroupCommand,
    /// The server is reset.
    ServerReset,
    /// A line asks for nothing that is known.
    UnknownCommand,
}

/// The text of a reply.
pub open spec fn reply_text(reply: &Reply) -> Seq<char> {
    match reply {
        Reply::Greeting => " >>> Welcome to the OpenMLS CLI :)\nType help to get a list of commands\n\n"@,
        Reply::Registered { client } => "registered new client "@ + client@ + "\n\n"@,
        Reply::Recovered { client } => "recovered client "@ + client@ + "\n\n"@,
        Reply::RecoveryFailed { client, error } => "Error recovering client "@ + client@ + " : "@ + error@ + "\n\n"@,
        Reply::KeyPackageCreated => " >>> New key package created\n\n"@,
        Reply::Saved { client } => " >>> client "@ + client@ + " state saved\n\n"@,
        Reply::AutosaveEnabled { client } => " >>> autosave enabled for client "@ + client@ + " \n\n"@,
        Reply::GroupCreated { asked, group } => " >>> Created "@ + mode_name(mode_meant(*asked)) + " group "@ + group@ + " :)\n\n"@,
        Reply::CreateFailed { error } => " >>> create group failed: "@ + error@ + "\n\n"@,
        Reply::InvalidMode { error } => " >>> create group: invalid security mode: "@ + error@ + "\n\n"@,
        Reply::CapabilityError { error } => " >>> capability error: "@ + error@ + "\n\n"@,
        Reply::SelectedMode { mode, suite } => " >>> select_conversation_mode (self only): mode="@ + mode_name(*mode) + ", ciphersuite="@ + ciphersuite_name(*suite) + "\n\n"@,
        Reply::SelectModeError { error } => " >>> select-mode error: "@ + error@ + "\n\n"@,
        Reply::Sent { group } => "sent message to "@ + group@ + "\n\n"@,
        Reply::Added { client, group } => "added "@ + client@ + " to group "@ + group@ + "\n\n"@,
        Reply::Removed { client, group } => "Removed "@ + client@ + " from group "@ + group@ + "\n\n"@,
        Reply::Received { group, count } => group@ + " has received "@ + decimal(*count as nat) + " messages\n\n"@,
        Reply::NoMessages { group } => group@ + " has no messages\n\n"@,
        Reply::LeavingGroup => " >>> Leaving group \n\n"@,
        Reply::UnknownGroupCommand => " >>> Unknown group command :(\n\n"@,
        Reply::ServerReset => " >>> Reset server :)\n\n"@,
        Reply::UnknownCommand => " >>> unknown command :(\n >>> try help\n\n"@,
    }
}

impl Reply {
    /// The text of the reply.
    pub fn text(&self) -> (r: String)
        ensures
            r@ == reply_text(self),
    {
        match self {
            Reply::Greeting => " >>> Welcome to the OpenMLS CLI :)\nType help to get a list of commands\n\n".to_owned(),
            Reply::Registered { client } => {
                let mut text: String = "registered new client ".to_owned();
                text.append(client.as_str());
                text.append("\n\n");
                text
            },
            Reply::Recovered { client } => {
                let mut text: String = "recovered client ".to_owned();
                text.append(client.as_str());
                text.append("\n\n");
                text
            },
            Reply::RecoveryFailed { client, error } => {
                let mut text: String = "Error recovering client ".to_owned();
                text.append(client.as_str());
                text.append(" : ");
                text.append(error.as_str());
                text.append("\n\n");
                text
            },
            Reply::KeyPackageCreated => " >>> New key package created\n\n".to_owned(),
            Reply::Saved { client } => {
                let mut text: String = " >>> client ".to_owned();
                text.append(client.as_str());
                text.append(" state saved\n\n");
                text
            },
            Reply::AutosaveEnabled { client } => {
                let mut text: String = " >>> autosave enabled for client ".to_owned();
                text.append(client.as_str());
                text.append(" \n\n");
                text
            },
            Reply::GroupCreated { asked, group } => {
                let mut text: String = " >>> Created ".to_owned();
                text.append(asked.to_security_mode().name());
                text.append(" group ");
                text.append(group.as_str());
                text.append(" :)\n\n");
                text
            },
            Reply::CreateFailed { error } => {
                let mut text: String = " >>> create group failed: ".to_owned();
                text.append(error.as_str());
                text.append("\n\n");
                text
            },
            Reply::InvalidMode { error } => {
                let mut text: String = " >>> create group: invalid security mode: ".to_owned();
                text.append(error.as_str());
                text.append("\n\n");
                text
            },
            Reply::CapabilityError { error } => {
                let mut text: String = " >>> capability error: ".to_owned();
                text.append(error.as_str());
                text.append("\n\n");
                text
            },
            Reply::SelectedMode { mode, suite } => {
                let mut text: String = " >>> select_conversation_mode (self only): mode=".to_owned();
                text.append(mode.name());
                text.append(", ciphersuite=");
                text.append(suite.name());
                text.append("\n\n");
                text
            },
            Reply::SelectModeError { error } => {
                let mut text: String = " >>> select-mode error: ".to_owned();
                text.append(error.as_str());
                text.append("\n\n");
                text
            },
            Reply::Sent { group } => {
                let mut text: String = "sent message to ".to_owned();
                text.append(group.as_str());
                text.append("\n\n");
                text
            },
            Reply::Added { client, group } => {
                let mut text: String = "added ".to_owned();
                text.append(client.as_str());
                text.append(" to group ");
                text.append(group.as_str());
                text.append("\n\n");
                text
            },
            Reply::Removed { client, group } => {
                let mut text: String = "Removed ".to_owned();
                text.append(client.as_str());
                text.append(" from group ");
                text.append(group.as_str());
                text.append("\n\n");
                text
            },
            Reply::Received { group, count } => {
                let mut text: String = group.clone();
                text.append(" has received ");
                push_decimal(&mut text, *count);
                text.append(" messages\n\n");
                text
            },
            Reply::NoMessages { group } => {
                let mut text: String = group.clone();
                text.append(" has no messages\n\n");
                text
            },
            Reply::LeavingGroup => " >>> Leaving group \n\n".to_owned(),
            Reply::UnknownGroupCommand => " >>> Unknown group command :(\n\n".to_owned(),
            Reply::ServerReset => " >>> Reset server :)\n\n".to_owned(),
            Reply::UnknownCommand => " >>> unknown command :(\n >>> try help\n\n".to_owned(),
        }
    }
}

/// What stands behind `register `, `load `, `create group ` and `group ` is taken as it
/// is, whatever it is.
pub proof fn arguments_are_taken_as_they_are(rest: Seq<char>)
    ensures
        command_asked("register "@ + rest) == CommandView::Register(rest),
        command_asked("load "@ + rest) == CommandView::Load(rest),
        command_asked("create group "@ + rest) == CommandView::CreateGroup(rest),
        command_asked("group "@ + rest) == CommandView::Group(rest),
{
    reveal_strlit("register ");
    reveal_strlit("load ");
    reveal_strlit("create group ");
    reveal_strlit("group ");
    reveal_strlit("create kp");
    reveal_strlit("save");
    reveal_strlit("autosave");
    reveal_strlit("capability");
    reveal_strlit("show capability");
    reveal_strlit("select-mode");
    let a = "register "@;
    let b = "load "@;
    let c = "create group "@;
    let d = "group "@;
    prefix_and_rest_make_the_text(a + rest, a, rest);
    prefix_and_rest_make_the_text(b + rest, b, rest);
    prefix_and_rest_make_the_text(c + rest, c, rest);
    prefix_and_rest_make_the_text(d + rest, d, rest);
    lemma_other_start(b + rest, a);
    lemma_other_start(c + rest, a);
    lemma_other_start(c + rest, b);
    lemma_other_start(d + rest, a);
    lemma_other_start(d + rest, b);
    lemma_other_start(d + rest, c);
    assert((c + rest)[0] == 'c' && (c + rest)[7] == 'g');
    assert("create kp"@[7] == 'k');
    assert((d + rest)[0] == 'g');
    lemma_trimmed_front(d + rest);
    assert(trimmed(d + rest)[0] == 'g');
}

proof fn lemma_other_start(s: Seq<char>, prefix: Seq<char>)
    requires
        s.len() > 0,
        prefix.len() > 0,
        s[0] != prefix[0],
    ensures
        after_prefix(s, prefix) is None,
{
    if after_prefix(s, prefix) is Some {
        assert(s.take(prefix.len() as int)[0] == s[0]);
    }
}

/// A command without an argument is asked for by its word alone, and by nothing else.
pub proof fn words_ask_for_their_commands(op: Seq<char>)
    ensures
        command_asked(op) is CreateKeyPackage <==> op == "create kp"@,
        command_asked(op) is Save <==> op == "save"@,
        command_asked(op) is Autosave <==> op == "autosave"@,
        command_asked(op) is Update <==> op == "update"@,
        command_asked(op) is Reset <==> op == "reset"@,
        command_asked(op) is Help <==> op == "help"@,
{
    reveal_strlit("register ");
    reveal_strlit("load ");
    reveal_strlit("create group ");
    reveal_strlit("group ");
    reveal_strlit("create kp");
    reveal_strlit("save");
    reveal_strlit("autosave");
    reveal_strlit("capability");
    reveal_strlit("show capability");
    reveal_strlit("select-mode");
    reveal_strlit("update");
    reveal_strlit("reset");
    reveal_strlit("help");
    if op == "create kp"@ || op == "save"@ || op == "autosave"@ || op == "update"@ || op
        == "reset"@ || op == "help"@ {
        lemma_trimmed_front(op);
        let n = trimmed(op).len() as int;
        assert(trimmed(op)[0] == op[0]);
        if op == "create kp"@ || op == "save"@ || op == "autosave"@ || op == "update"@ || op
            == "help"@ {
            lemma_other_start(op, "register "@);
            lemma_other_start(op, "load "@);
        } else {
            assert("register "@.len() > op.len());
            lemma_other_start(op, "load "@);
        }
        assert("create group "@.len() > op.len());
        lemma_other_start(op, "group "@);
        if op[0] == 's' {
            assert(n <= 4);
        }
        if op[0] == 'a' {
            assert(op == "autosave"@ || n <= 4);
        }
    }
}

/// White space around a line does not count where it asks for the capability or for the
/// mode.
pub proof fn margins_do_not_count_for_capability_and_mode(op: Seq<char>)
    ensures
        command_asked(op) is ShowCapability <==> trimmed(op) == "capability"@ || trimmed(op)
            == "show capability"@,
        command_asked(op) is SelectMode <==> trimmed(op) == "select-mode"@,
{
    reveal_strlit("register ");
    reveal_strlit("load ");
    reveal_strlit("create group ");
    reveal_strlit("create kp");
    reveal_strlit("save");
    reveal_strlit("autosave");
    reveal_strlit("capability");
    reveal_strlit("show capability");
    reveal_strlit("select-mode");
    let t = trimmed(op);
    if t == "capability"@ || t == "show capability"@ || t == "select-mode"@ {
        if after_prefix(op, "register "@) is Some {
            assert(op.take("register "@.len() as int)[0] == op[0]);
            lemma_trimmed_front(op);
            assert(t[0] == op[0]);
        }
        if after_prefix(op, "load "@) is Some {
            assert(op.take("load "@.len() as int)[0] == op[0]);
            lemma_trimmed_front(op);
            assert(t[0] == op[0]);
        }
        if after_prefix(op, "create group "@) is Some {
            assert(op.take("create group "@.len() as int)[0] == op[0]);
            assert(op.take("create group "@.len() as int)[1] == op[1]);
            lemma_trimmed_front(op);
            assert(t[0] == op[0]);
            assert(t[1] == op[1]);
        }
        if op == "create kp"@ || op == "save"@ || op == "autosave"@ {
            lemma_trimmed_front(op);
            assert(t.len() <= op.len());
            assert(t[0] == op[0]);
        }
    }
}

/// Inside a group what stands behind `send `, `invite ` and `remove ` is taken as it is,
/// and the other commands are asked for by their word alone.
pub proof fn group_lines_ask_for_their_commands(op: Seq<char>, rest: Seq<char>)
    ensures
        group_command_asked("send "@ + rest) == GroupCommandView::Send(rest),
        group_command_asked("invite "@ + rest) == GroupCommandView::Invite(rest),
        group_command_asked("remove "@ + rest) == GroupCommandView::Remove(rest),
        group_command_asked(op) is Read <==> op == "read"@,
        group_command_asked(op) is Update <==> op == "update"@,
        group_command_asked(op) is Exit <==> op == "exit"@,
{
    reveal_strlit("send ");
    reveal_strlit("invite ");
    reveal_strlit("remove ");
    reveal_strlit("read");
    reveal_strlit("update");
    reveal_strlit("exit");
    let a = "send "@;
    let b = "invite "@;
    let c = "remove "@;
    prefix_and_rest_make_the_text(a + rest, a, rest);
    prefix_and_rest_make_the_text(b + rest, b, rest);
    prefix_and_rest_make_the_text(c + rest, c, rest);
    lemma_other_start(b + rest, a);
    lemma_other_start(c + rest, a);
    lemma_other_start(c + rest, b);
    if op == "read"@ || op == "update"@ || op == "exit"@ {
        lemma_other_start(op, a);
        lemma_other_start(op, b);
        assert("read"@.len() == 4 && "update"@.len() == 6 && "exit"@.len() == 4 && c.len() == 7);
        assert("read"@[0] == 'r' && "exit"@[0] == 'e');
        assert(after_prefix(op, c) is None);
    }
}

/// A client is needed by every known command but those that make one or speak to the
/// server or the user alone.
pub proof fn commands_that_need_a_client(command: CommandView)
    ensures
        missing_client_text(command) is None <==> command is Register || command is Load
            || command is Reset || command is Help || command is Unknown,
{
}

/// Behind a name `--security-mode` stands before the word for the mode: if it does not
/// occur earlier, the group has that name, and the mode is what the word asks for.
pub proof fn long_form_names_the_mode(rest: Seq<char>, name: Seq<char>, word: Seq<char>)
    requires
        trimmed(rest) == name + "--security-mode"@ + word,
        first_from(trimmed(rest), "--security-mode"@, 0) == Some(name.len()),
    ensures
        group_asked(rest) == (trimmed(name), parsed_mode(word)),
{
    let t = trimmed(rest);
    let n = name.len() as int;
    assert(t.take(n) =~= name);
    assert(t.skip(n + "--security-mode"@.len()) =~= word);
    case_and_margins_do_not_count(word);
}

/// Of two words the second is the mode if it stands for one.
pub proof fn short_form_names_the_mode(rest: Seq<char>, mode: CliSecurityMode)
    requires
        first_from(trimmed(rest), "--security-mode"@, 0) is None,
        words(trimmed(rest)).len() == 2,
        mode_asked(words(trimmed(rest))[1]) == Some(mode),
    ensures
        group_asked(rest) == (
            words(trimmed(rest))[0],
            Ok::<CliSecurityMode, Seq<char>>(mode),
        ),
{
}

/// Every message has its line, in the order of the messages.
pub proof fn messages_have_their_lines(a: Seq<ConversationMessage>, m: ConversationMessage)
    ensures
        message_lines(a.push(m)) == message_lines(a) + "         "@ + m@.message + " from "@
            + m@.author + "\n"@,
        update_text(a) == " >>> Updated client :)\n"@ + (if a.len() > 0 {
            "     New messages:\n\n"@
        } else {
            Seq::empty()
        }) + message_lines(a) + "\n"@,
{
    assert(a.push(m).drop_last() =~= a);
}

/// Suites are listed by name, in their order, with a comma between two.
pub proof fn suites_are_listed_in_order(suites: Seq<Ciphersuite>, cs: Ciphersuite)
    ensures
        suite_names(seq![cs]) == ciphersuite_name(cs),
        suites.len() > 0 ==> suite_names(suites.push(cs)) == suite_names(suites) + ", "@
            + ciphersuite_name(cs),
{
    assert(suites.push(cs).drop_last() =~= suites);
}

} // verus!
