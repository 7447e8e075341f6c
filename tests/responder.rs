use about_bot::config::{load_config, ConfigError, Messages, Secret};
use about_bot::responder::{Action, Bot, Event, Reply};

const RAINBOW: &str = "\u{1f3f3}\u{fe0f}\u{200d}\u{1f308}";

fn sample_toml() -> String {
    format!("[commands]\nabout = \"I am a bot.\"\ngay = \"{}\"\n", RAINBOW)
}

fn sample_bot() -> Bot {
    match Messages::parse(&sample_toml()) {
        Ok(messages) => Bot::new(messages),
        Err(e) => panic!("sample configuration refused: {:?}", e),
    }
}

fn on_message(bot: &Bot, channel_id: u64, content: &str) -> Action {
    bot.handle(&Event::Message { channel_id, content: content.to_string() })
}

#[test]
fn parse_reads_both_replies() {
    let messages = Messages::parse(&sample_toml()).ok().unwrap();
    assert_eq!(messages.commands.about, "I am a bot.");
    assert_eq!(messages.commands.gay, RAINBOW);
}

#[test]
fn about_sends_configured_text_once() {
    let bot = sample_bot();
    match on_message(&bot, 42, "!about") {
        Action::Send(Reply { channel_id, text }) => {
            assert_eq!(channel_id, 42);
            assert_eq!(text, "I am a bot.");
        }
        _ => panic!("expected one send"),
    }
}

#[test]
fn reply_goes_to_originating_channel() {
    let bot = sample_bot();
    let reply = bot.message(9001, &"!about".to_string()).unwrap();
    assert_eq!(reply.channel_id, 9001);
    assert_eq!(reply.text, "I am a bot.");
}

#[test]
fn hello_sends_nothing() {
    let bot = sample_bot();
    assert!(matches!(on_message(&bot, 1, "hello"), Action::Ignore));
    assert!(bot.message(1, &"hello".to_string()).is_none());
}

#[test]
fn matching_is_exact_and_case_sensitive() {
    let bot = sample_bot();
    for text in ["!About", "!about ", " !about", "!ABOUT", "!abou", "", "!gay", "about"] {
        assert!(matches!(on_message(&bot, 3, text), Action::Ignore), "{:?} answered", text);
    }
}

#[test]
fn ready_announces_user_name() {
    let bot = sample_bot();
    match bot.handle(&Event::Ready { user_name: "AboutBot".to_string() }) {
        Action::AnnounceReady { user_name } => assert_eq!(user_name, "AboutBot"),
        _ => panic!("expected an announcement"),
    }
}

#[test]
fn failed_send_is_reported_and_next_event_handled() {
    let bot = sample_bot();
    let reply = bot.message(5, &"!about".to_string()).unwrap();
    let failure = bot.sent(&reply, Err("Missing Permissions".to_string())).unwrap();
    assert_eq!(failure.channel_id, 5);
    assert_eq!(failure.cause, "Missing Permissions");
    match on_message(&bot, 6, "!about") {
        Action::Send(next) => {
            assert_eq!(next.channel_id, 6);
            assert_eq!(next.text, "I am a bot.");
        }
        _ => panic!("handler stopped answering after a failed send"),
    }
}

#[test]
fn successful_send_reports_nothing() {
    let bot = sample_bot();
    let reply = bot.message(5, &"!about".to_string()).unwrap();
    assert!(bot.sent(&reply, Ok(())).is_none());
}

fn malformed(text: &str) -> bool {
    matches!(Messages::parse(text), Err(ConfigError::MalformedConfiguration))
}

#[test]
fn missing_about_is_malformed() {
    assert!(malformed("[commands]\ngay = \"g\"\n"));
}

#[test]
fn missing_gay_is_malformed() {
    assert!(malformed("[commands]\nabout = \"a\"\n"));
}

#[test]
fn missing_commands_table_is_malformed() {
    assert!(malformed("about = \"a\"\ngay = \"g\"\n"));
    assert!(malformed(""));
    assert!(malformed("commands = \"a\"\n"));
}

#[test]
fn non_string_reply_is_malformed() {
    assert!(malformed("[commands]\nabout = 1\ngay = \"g\"\n"));
    assert!(malformed("[commands]\nabout = \"a\"\ngay = [\"g\"]\n"));
}

#[test]
fn invalid_toml_is_malformed() {
    assert!(malformed("[commands\nabout = \"a\""));
    assert!(malformed("commands = {about = \"a\", gay = "));
}

#[test]
fn extra_keys_are_ignored() {
    let text = "title = \"x\"\n[commands]\nabout = \"a\"\ngay = \"g\"\nhelp = \"h\"\n";
    let messages = Messages::parse(text).ok().unwrap();
    assert_eq!(messages.commands.about, "a");
    assert_eq!(messages.commands.gay, "g");
}

#[test]
fn inline_table_is_accepted() {
    let messages = Messages::parse("commands = { about = \"hi\", gay = \"yes\" }").ok().unwrap();
    assert_eq!(messages.commands.about, "hi");
    assert_eq!(messages.commands.gay, "yes");
}

#[test]
fn load_config_missing_messages_secret() {
    let r = load_config(None, Some("token".to_string()));
    assert!(matches!(r, Err(ConfigError::MissingSecret(Secret::MessagesToml))));
}

#[test]
fn load_config_malformed_before_token() {
    let r = load_config(Some("[commands]\nabout = \"a\"\n".to_string()), None);
    assert!(matches!(r, Err(ConfigError::MalformedConfiguration)));
}

#[test]
fn load_config_missing_token() {
    let r = load_config(Some(sample_toml()), None);
    assert!(matches!(r, Err(ConfigError::MissingSecret(Secret::DiscordToken))));
}

#[test]
fn load_config_reads_both_secrets() {
    let config = load_config(Some(sample_toml()), Some("bot-token".to_string())).ok().unwrap();
    assert_eq!(config.token, "bot-token");
    assert_eq!(config.messages.commands.about, "I am a bot.");
    assert_eq!(config.messages.commands.gay, RAINBOW);
}

#[test]
fn secret_keys() {
    assert_eq!(Secret::MessagesToml.key(), "MESSAGES_TOML");
    assert_eq!(Secret::DiscordToken.key(), "DISCORD_TOKEN");
}
