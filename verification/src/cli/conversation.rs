//! The conversations of the command line client, and the mode that a user asks for.
use crate::ciphersuite::security_mode::{mode_name, SecurityMode};
use crate::cli::words::{
    lower, lowering_keeps_margins, same_text, trim, trimmed, trimming_is_idempotent,
};
use crate::text::{quote, quoted};
use crate::types::Ciphersuite;
use vstd::prelude::*;
use vstd::slice::slice_subrange;
use vstd::string::*;

verus! {

/// The mode that a user asks for.
#[derive(Copy, Clone, Debug, PartialEq, Eq, Structural)]
pub enum CliSecurityMode {
    /// Classical suites only. The default.
    Classical,
    /// A hybrid KEM and classical signatures.
    PqConfidentiality,
    /// A post-quantum KEM and post-quantum signatures.
    PqAuthenticity,
}

/// The mode that a user means by it.
pub open spec fn mode_meant(mode: CliSecurityMode) -> SecurityMode {
    match mode {
        CliSecurityMode::Classical => SecurityMode::Classical,
        CliSecurityMode::PqConfidentiality => SecurityMode::PqConfidentiality,
        CliSecurityMode::PqAuthenticity => SecurityMode::PqAuthenticity,
    }
}

/// The mode that a word stands for.
pub open spec fn mode_of_word(word: Seq<char>) -> Option<CliSecurityMode> {
    if word == "classical"@ || word == "default"@ || word == ""@ {
        Some(CliSecurityMode::Classical)
    } else if word == "pq-confidentiality"@ || word == "pq_confidentiality"@ || word == "pq-conf"@
        || word == "confidentiality"@ {
        Some(CliSecurityMode::PqConfidentiality)
    } else if word == "pq-authenticity"@ || word == "pq_authenticity"@ || word == "pq-auth"@ || word
        == "authenticity"@ {
        Some(CliSecurityMode::PqAuthenticity)
    } else {
        None
    }
}

/// The error for a word that stands for no mode, given the word in quotes.
pub open spec fn unknown_mode_text(quoted_word: Seq<char>) -> Seq<char> {
    "unknown security mode "@ + quoted_word
        + " (expected one of classical, pq-confidentiality, pq-authenticity)"@
}

/// The error for a word that stands for no mode, given the word in quotes.
pub fn unknown_mode_message(quoted_word: &str) -> (r: String)
    ensures
        r@ == unknown_mode_text(quoted_word@),
{
    let mut text: String = "unknown security mode ".to_owned();
    text.append(quoted_word);
    text.append(" (expected one of classical, pq-confidentiality, pq-authenticity)");
    text
}

/// The mode that a text asks for. Case and white space around the word do not count.
pub open spec fn mode_asked(s: Seq<char>) -> Option<CliSecurityMode> {
    mode_of_word(lower(trimmed(s)))
}

/// The mode that a text asks for, or the error.
pub open spec fn parsed_mode(s: Seq<char>) -> Result<CliSecurityMode, Seq<char>> {
    match mode_asked(s) {
        Some(mode) => Ok(mode),
        None => Err(unknown_mode_text(quoted(lower(trimmed(s))))),
    }
}

/// The error of a result, as its characters.
pub open spec fn with_text(r: Result<CliSecurityMode, String>) -> Result<
    CliSecurityMode,
    Seq<char>,
> {
    match r {
        Ok(mode) => Ok(mode),
        Err(text) => Err(text@),
    }
}

impl CliSecurityMode {
    /// The mode that a text asks for, or an error that names the text.
    pub fn parse(s: &str) -> (r: Result<Self, String>)
        ensures
            with_text(r) == parsed_mode(s@),
    {
        let word: String = trim(s).to_ascii_lowercase();
        match Self::of_word(word.as_str()) {
            Some(mode) => Ok(mode),
            None => Err(unknown_mode_message(quote(word.as_str()).as_str())),
        }
    }

    /// The mode that a word stands for.
    fn of_word(word: &str) -> (r: Option<Self>)
        ensures
            r == mode_of_word(word@),
    {
        if same_text(word, "classical") || same_text(word, "default") || same_text(word, "") {
            Some(CliSecurityMode::Classical)
        } else if same_text(word, "pq-confidentiality") || same_text(word, "pq_confidentiality")
            || same_text(word, "pq-conf") || same_text(word, "confidentiality") {
            Some(CliSecurityMode::PqConfidentiality)
        } else if same_text(word, "pq-authenticity") || same_text(word, "pq_authenticity")
            || same_text(word, "pq-auth") || same_text(word, "authenticity") {
            Some(CliSecurityMode::PqAuthenticity)
        } else {
            None
        }
    }

    /// The mode that the user means.
    pub fn to_security_mode(self) -> (r: SecurityMode)
        ensures
            r == mode_meant(self),
    {
        match self {
            CliSecurityMode::Classical => SecurityMode::Classical,
            CliSecurityMode::PqConfidentiality => SecurityMode::PqConfidentiality,
            CliSecurityMode::PqAuthenticity => SecurityMode::PqAuthenticity,
        }
    }

    /// The suite that the client uses for a mode. This client is built without X-Wing,
    /// so there is none for the post-quantum modes.
    pub fn default_ciphersuite(self) -> (r: Result<Ciphersuite, String>)
        ensures
            match r {
                Ok(cs) => self == CliSecurityMode::Classical && cs
                    == Ciphersuite::MLS_128_DHKEMX25519_AES128GCM_SHA256_Ed25519,
                Err(text) => self != CliSecurityMode::Classical && text@ == mode_name(
                    mode_meant(self),
                )
                    + " mode requires the `xwing` feature on `cli` (rebuild with `cargo run -p cli --features xwing`)"@,
            },
    {
        match self {
            CliSecurityMode::Classical => Ok(
                Ciphersuite::MLS_128_DHKEMX25519_AES128GCM_SHA256_Ed25519,
            ),
            CliSecurityMode::PqConfidentiality | CliSecurityMode::PqAuthenticity => {
                let mut text: String = self.to_security_mode().name().to_owned();
                text.append(
                    " mode requires the `xwing` feature on `cli` (rebuild with `cargo run -p cli --features xwing`)",
                );
                Err(text)
            },
        }
    }
}

/// Neither the case of its letters nor white space around it changes what a text asks
/// for.
pub proof fn case_and_margins_do_not_count(s: Seq<char>)
    ensures
        parsed_mode(lower(s)) == parsed_mode(s),
        parsed_mode(trimmed(s)) == parsed_mode(s),
{
    lowering_keeps_margins(s);
    lowering_keeps_margins(trimmed(s));
    trimming_is_idempotent(s);
}

/// A message of a conversation.
#[derive(Debug, PartialEq)]
pub struct ConversationMessage {
    /// Who wrote it.
    pub author: String,
    /// What it says.
    pub message: String,
}

/// A `ConversationMessage` over the characters of its texts.
#[verifier::ext_equal]
pub struct MessageView {
    /// See `ConversationMessage::author`.
    pub author: Seq<char>,
    /// See `ConversationMessage::message`.
    pub message: Seq<char>,
}

impl View for ConversationMessage {
    type V = MessageView;

    open spec fn view(&self) -> MessageView {
        MessageView { author: self.author@, message: self.message@ }
    }
}

impl ConversationMessage {
    /// A message of an author.
    pub fn new(message: String, author: String) -> (r: Self)
        ensures
            r@ == (MessageView { author: author@, message: message@ }),
    {
        ConversationMessage { author, message }
    }
}

impl Clone for ConversationMessage {
    fn clone(&self) -> (r: Self)
        ensures
            r@ == self@,
    {
        ConversationMessage { author: self.author.clone(), message: self.message.clone() }
    }
}

/// The messages of a conversation, the oldest first.
#[derive(Debug)]
pub struct Conversation {
    messages: Vec<ConversationMessage>,
}

impl View for Conversation {
    type V = Seq<ConversationMessage>;

    closed spec fn view(&self) -> Seq<ConversationMessage> {
        self.messages@
    }
}

impl Default for Conversation {
    fn default() -> (r: Self)
        ensures
            r@ == Seq::<ConversationMessage>::empty(),
    {
        Conversation { messages: Vec::new() }
    }
}

/// The last `n` of a list, or all of it where it has no more than `n`.
pub open spec fn last_of<T>(list: Seq<T>, n: nat) -> Seq<T> {
    if n >= list.len() {
        list
    } else {
        list.skip(list.len() - n)
    }
}

impl Conversation {
    /// Adds a message at the end.
    pub fn add(&mut self, conversation_message: ConversationMessage)
        ensures
            final(self)@ == old(self)@.push(conversation_message),
    {
        self.messages.push(conversation_message);
    }

    /// The last `last_n` messages, or all of them where there are no more.
    pub fn get(&self, last_n: usize) -> (r: Option<&[ConversationMessage]>)
        ensures
            r matches Some(list) && list@ == last_of(self@, last_n as nat),
    {
        let num_messages: usize = self.messages.len();
        let start: usize = num_messages.saturating_sub(last_n);
        let list: &[ConversationMessage] = slice_subrange(
            self.messages.as_slice(),
            start,
            num_messages,
        );
        assert(list@ =~= last_of(self@, last_n as nat));
        Some(list)
    }
}

/// What was added last is what a conversation shows last.
pub proof fn added_messages_are_shown_last(
    list: Seq<ConversationMessage>,
    message: ConversationMessage,
    n: nat,
)
    requires
        n > 0,
    ensures
        last_of(list.push(message), n).last() == message,
        last_of(list.push(message), n).drop_last() == last_of(list, (n - 1) as nat),
{
    assert(last_of(list.push(message), n).drop_last() =~= last_of(list, (n - 1) as nat));
}

/// A user means the mode of the same name.
pub proof fn users_mean_what_they_ask_for(mode: CliSecurityMode)
    ensures
        mode_meant(mode) == SecurityMode::Classical <==> mode == CliSecurityMode::Classical,
        mode_meant(mode) == SecurityMode::PqConfidentiality <==> mode
            == CliSecurityMode::PqConfidentiality,
        mode_meant(mode) == SecurityMode::PqAuthenticity <==> mode
            == CliSecurityMode::PqAuthenticity,
{
}

/// Which words stand for which mode. No other word stands for one, and a text that stands
/// for none is an error that names it.
pub proof fn words_stand_for_modes(word: Seq<char>, s: Seq<char>)
    ensures
        mode_of_word(word) == Some(CliSecurityMode::Classical) <==> word == "classical"@ || word
            == "default"@ || word == ""@,
        mode_of_word(word) == Some(CliSecurityMode::PqConfidentiality) <==> word
            == "pq-confidentiality"@ || word == "pq_confidentiality"@ || word == "pq-conf"@ || word
            == "confidentiality"@,
        mode_of_word(word) == Some(CliSecurityMode::PqAuthenticity) <==> word
            == "pq-authenticity"@ || word == "pq_authenticity"@ || word == "pq-auth"@ || word
            == "authenticity"@,
        parsed_mode(s) is Ok <==> mode_of_word(lower(trimmed(s))) is Some,
        parsed_mode(s) matches Ok(mode) ==> mode_of_word(lower(trimmed(s))) == Some(mode),
        parsed_mode(s) matches Err(text) ==> text == "unknown security mode "@ + quoted(
            lower(trimmed(s)),
        ) + " (expected one of classical, pq-confidentiality, pq-authenticity)"@,
{
    reveal_strlit("classical");
    reveal_strlit("default");
    reveal_strlit("");
    reveal_strlit("pq-confidentiality");
    reveal_strlit("pq_confidentiality");
    reveal_strlit("pq-conf");
    reveal_strlit("confidentiality");
    reveal_strlit("pq-authenticity");
    reveal_strlit("pq_authenticity");
    reveal_strlit("pq-auth");
    reveal_strlit("authenticity");
    assert("classical"@.len() == 9 && "default"@.len() == 7 && ""@.len() == 0);
    assert("pq-confidentiality"@.len() == 18 && "pq_confidentiality"@.len() == 18);
    assert("pq-conf"@.len() == 7 && "confidentiality"@.len() == 15);
    assert("pq-authenticity"@.len() == 15 && "pq_authenticity"@.len() == 15);
    assert("pq-auth"@.len() == 7 && "authenticity"@.len() == 12);
    assert("pq-conf"@[3] == 'c' && "pq-auth"@[3] == 'a');
    assert("default"@[0] == 'd' && "pq-conf"@[0] == 'p' && "pq-auth"@[0] == 'p');
    assert("confidentiality"@[0] == 'c' && "pq-authenticity"@[0] == 'p' && "pq_authenticity"@[0]
        == 'p');
}

/// What is shown is the end of the conversation: as many messages as were asked for, or
/// all of them if there are no more.
pub proof fn the_end_of_a_conversation_is_shown<T>(list: Seq<T>, n: nat, i: int)
    ensures
        last_of(list, n).len() == if n < list.len() {
            n
        } else {
            list.len()
        },
        0 <= i < last_of(list, n).len() ==> last_of(list, n)[i] == list[list.len() - last_of(
            list,
            n,
        ).len() + i],
{
}

} // verus!
