use apex_stats::config::{Config, ConfigError};
use apex_stats::handler::{message, Action};
use apex_stats::message::{Colour, OutboundMessage};
use apex_stats::platform::PlatformCode;

#[test]
fn ping_is_answered_with_pong() {
    match message("!ping", "alice") {
        Action::Send(OutboundMessage::Plain(text)) => assert_eq!(text, "pong"),
        other => panic!("{:?}", other),
    }
}

#[test]
fn chatter_calls_for_nothing() {
    assert!(matches!(message("good morning", "alice"), Action::Nothing));
    assert!(matches!(message("", "alice"), Action::Nothing));
    assert!(matches!(message("!PING", "alice"), Action::Nothing));
    assert!(matches!(message("!Statsapex Foo pc", "alice"), Action::Nothing));
}

#[test]
fn query_calls_for_a_lookup() {
    match message("!statsapex Foo PlayStation", "alice") {
        Action::Lookup { player, platform } => {
            assert_eq!(player, "Foo");
            assert_eq!(platform, PlatformCode::PlayStation);
            assert_eq!(platform.api_code(), "PS4");
        }
        other => panic!("{:?}", other),
    }
}

#[test]
fn missing_arguments_are_reported_to_the_requester() {
    match message("!statsapex Foo", "alice") {
        Action::Send(OutboundMessage::Rich(m)) => {
            assert_eq!(m.title, "Error getting Apex Legends Statistics");
            assert_eq!(
                m.description.as_deref(),
                Some("Missing command arguments, usage: !statsapex <player> <platform>")
            );
            assert_eq!(m.footer, "Apex legends statistics requested by alice.");
            assert_eq!(m.colour, Colour::Red);
        }
        other => panic!("{:?}", other),
    }
}

#[test]
fn unknown_platform_is_reported_to_the_requester() {
    match message("!statsapex Foo switch", "bob") {
        Action::Send(OutboundMessage::Rich(m)) => {
            assert_eq!(
                m.description.as_deref(),
                Some(
                    "Incorrect platform specified, available platforms are `pc`, `xbox` or `playstation`"
                )
            );
            assert_eq!(m.footer, "Apex legends statistics requested by bob.");
            assert_eq!(m.colour, Colour::Red);
        }
        other => panic!("{:?}", other),
    }
}

#[test]
fn config_needs_both_secrets() {
    let config = match Config::new(Some("token".to_string()), Some("key".to_string())) {
        Ok(c) => c,
        Err(e) => panic!("{:?}", e),
    };
    assert_eq!(config.chat_token, "token");
    assert_eq!(config.api_key, "key");
    assert_eq!(Config::new(None, Some("key".to_string())).err(), Some(ConfigError::MissingChatToken));
    assert_eq!(Config::new(Some("token".to_string()), None).err(), Some(ConfigError::MissingApiKey));
    assert_eq!(Config::new(None, None).err(), Some(ConfigError::MissingChatToken));
}
