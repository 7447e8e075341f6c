//! Loading the bot's configuration: the table of command replies and the
//! gateway token, read from two named secrets at start-up.

use vstd::prelude::*;
use crate::document::{
    entry, parse_document, parsed_document, string_value, table_entries, table_get, table_value,
    value_as_str, value_as_table,
};

verus! {

/// The reply text configured for each command.
pub struct CommandResponses {
    pub gay: String,
    pub about: String,
}

/// The parsed reply table: `{ commands: { gay, about } }`.
pub struct Messages {
    pub commands: CommandResponses,
}

/// The two secrets that the bot needs at start-up.
#[derive(Clone, Copy, Debug, PartialEq, Eq, Structural)]
pub enum Secret {
    /// The TOML document holding the reply table.
    MessagesToml,
    /// The gateway authentication token.
    DiscordToken,
}

/// Why loading the configuration failed. Both are fatal at start-up.
#[derive(Clone, Copy, Debug, PartialEq, Eq, Structural)]
pub enum ConfigError {
    /// The named secret is absent from the secret store.
    MissingSecret(Secret),
    /// The reply table is not a TOML document with a `commands` table that
    /// holds a string under `about` and under `gay`.
    MalformedConfiguration,
}

impl Secret {
    /// The key under which the secret store holds this secret.
    pub fn key(&self) -> (r: &'static str)
        ensures
            *self == Secret::MessagesToml ==> r@ == "MESSAGES_TOML"@,
            *self == Secret::DiscordToken ==> r@ == "DISCORD_TOKEN"@,
    {
        match self {
            Secret::MessagesToml => "MESSAGES_TOML",
            Secret::DiscordToken => "DISCORD_TOKEN",
        }
    }
}

/// Everything the bot reads at start-up.
pub struct Config {
    pub messages: Messages,
    pub token: String,
}

/// The string stored under `key` in table `t`, if there is one.
pub open spec fn string_entry(t: Map<Seq<char>, toml::Value>, key: Seq<char>) -> Option<Seq<char>> {
    match entry(t, key) {
        Some(v) => string_value(v),
        None => None,
    }
}

/// The `commands` table of a document, if it has one.
pub open spec fn commands_table(doc: Map<Seq<char>, toml::Value>) -> Option<Map<Seq<char>, toml::Value>> {
    match entry(doc, "commands"@) {
        Some(v) => table_value(v),
        None => None,
    }
}

/// The `(about, gay)` reply texts that a parsed document configures, or
/// `None` when it lacks one of them.
pub open spec fn responses_of(doc: Map<Seq<char>, toml::Value>) -> Option<(Seq<char>, Seq<char>)> {
    match commands_table(doc) {
        Some(cmds) => match (string_entry(cmds, "about"@), string_entry(cmds, "gay"@)) {
            (Some(about), Some(gay)) => Some((about, gay)),
            _ => None,
        },
        None => None,
    }
}

/// The `(about, gay)` reply texts configured by the TOML text `s`, or `None`
/// when `s` is malformed.
pub open spec fn configured_responses(s: Seq<char>) -> Option<(Seq<char>, Seq<char>)> {
    match parsed_document(s) {
        Some(doc) => responses_of(doc),
        None => None,
    }
}

impl Messages {
    /// Whether these messages hold exactly the reply texts `r` (`(about, gay)`).
    pub open spec fn holds(&self, r: (Seq<char>, Seq<char>)) -> bool {
        self.commands.about@ == r.0 && self.commands.gay@ == r.1
    }

    /// Reads the reply table out of a parsed TOML document.
    pub fn from_table(doc: &toml::Table) -> (r: Result<Messages, ConfigError>)
        ensures
            match responses_of(table_entries(*doc)) {
                Some(texts) => r is Ok && r->Ok_0.holds(texts),
                None => r == Err::<Messages, ConfigError>(ConfigError::MalformedConfiguration),
            },
    {
        let malformed = Err(ConfigError::MalformedConfiguration);
        let commands = match table_get(doc, "commands") {
            Some(v) => v,
            None => return malformed,
        };
        let commands = match value_as_table(commands) {
            Some(t) => t,
            None => return malformed,
        };
        let about = match table_get(commands, "about") {
            Some(v) => v,
            None => return malformed,
        };
        let about = match value_as_str(about) {
            Some(s) => s,
            None => return malformed,
        };
        let gay = match table_get(commands, "gay") {
            Some(v) => v,
            None => return malformed,
        };
        let gay = match value_as_str(gay) {
            Some(s) => s,
            None => return malformed,
        };
        Ok(Messages { commands: CommandResponses { gay: gay.to_owned(), about: about.to_owned() } })
    }

    /// Parses the reply table from its TOML text.
    pub fn parse(text: &str) -> (r: Result<Messages, ConfigError>)
        ensures
            match configured_responses(text@) {
                Some(texts) => r is Ok && r->Ok_0.holds(texts),
                None => r == Err::<Messages, ConfigError>(ConfigError::MalformedConfiguration),
            },
    {
        match parse_document(text) {
            Ok(doc) => Messages::from_table(&doc),
            Err(_) => Err(ConfigError::MalformedConfiguration),
        }
    }
}

/// Loads the configuration from the two secrets, `None` standing for an
/// absent secret. The reply table is checked before the token is looked at.
pub fn load_config(messages_toml: Option<String>, token: Option<String>) -> (r: Result<Config, ConfigError>)
    ensures
        messages_toml is None ==> r == Err::<Config, ConfigError>(
            ConfigError::MissingSecret(Secret::MessagesToml),
        ),
        messages_toml is Some && configured_responses(messages_toml->0@) is None ==> r == Err::<
            Config,
            ConfigError,
        >(ConfigError::MalformedConfiguration),
        messages_toml is Some && configured_responses(messages_toml->0@) is Some && token is None
            ==> r == Err::<Config, ConfigError>(ConfigError::MissingSecret(Secret::DiscordToken)),
        messages_toml is Some && configured_responses(messages_toml->0@) is Some && token is Some
            ==> r is Ok && r->Ok_0.messages.holds(configured_responses(messages_toml->0@)->0)
            && r->Ok_0.token@ == token->0@,
{
    let text = match messages_toml {
        Some(t) => t,
        None => return Err(ConfigError::MissingSecret(Secret::MessagesToml)),
    };
    let messages = match Messages::parse(text.as_str()) {
        Ok(m) => m,
        Err(e) => return Err(e),
    };
    match token {
        Some(token) => Ok(Config { messages, token }),
        None => Err(ConfigError::MissingSecret(Secret::DiscordToken)),
    }
}

/// A document without a `commands` table holding a string under both
/// `about` and `gay` is refused as malformed, wherever the secret came from
/// and whatever the token is.
pub proof fn lemma_missing_reply_is_malformed(text: Seq<char>)
    requires
        match parsed_document(text) {
            Some(doc) => match commands_table(doc) {
                Some(cmds) => string_entry(cmds, "about"@) is None || string_entry(cmds, "gay"@) is None,
                None => true,
            },
            None => true,
        },
    ensures
        configured_responses(text) is None,
{
}

} // verus!
