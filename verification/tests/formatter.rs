use apex_stats::command::ValidationError;
use apex_stats::message::{
    format_result, get_apex_stats, paginate, ping, Colour, LookupResult, OutboundMessage,
    RichMessage, TransportError,
};
use apex_stats::stats::{parse_json, ParseError, PlayerStats};

fn rich(message: OutboundMessage) -> RichMessage {
    match message {
        OutboundMessage::Rich(r) => r,
        OutboundMessage::Plain(t) => panic!("plain message: {}", t),
    }
}

fn plain(message: &OutboundMessage) -> String {
    match message {
        OutboundMessage::Plain(t) => t.clone(),
        OutboundMessage::Rich(r) => panic!("rich message: {}", r.title),
    }
}

fn sample() -> PlayerStats {
    PlayerStats {
        name: "[BAR]Foo".to_string(),
        level: 321,
        rank: "Diamond 2, 9876 RP".to_string(),
        rank_image: "https://example.org/diamond2.png".to_string(),
        global_ladder_position: "12345 (top 3.21%)".to_string(),
        platform: "PC".to_string(),
        platform_ladder_position: "678 (bottom 50%)".to_string(),
        career_kills: 4242,
        career_wins: 77,
        career_revives: 135,
    }
}

fn entries(message: &RichMessage) -> Vec<(String, String, bool)> {
    message.fields.iter().map(|f| (f.name.clone(), f.value.clone(), f.inline)).collect()
}

#[test]
fn found_player_is_rendered_in_full() {
    let m = rich(sample().as_message("alice"));
    assert_eq!(m.title, "[BAR]Foo");
    assert_eq!(m.description, None);
    assert_eq!(
        entries(&m),
        vec![
            ("Level".to_string(), "321".to_string(), false),
            ("Rank".to_string(), "Diamond 2, 9876 RP".to_string(), false),
            ("Global Ladder Position".to_string(), "12345 (top 3.21%)".to_string(), false),
            ("PC ladder position".to_string(), "678 (bottom 50%)".to_string(), false),
            ("Career Kills".to_string(), "4242".to_string(), false),
            ("Career Wins".to_string(), "77".to_string(), false),
            ("Career Revives".to_string(), "135".to_string(), false),
        ]
    );
    assert_eq!(m.author, Some("@alice".to_string()));
    assert_eq!(
        m.footer,
        "Apex legends statistics for player \"[BAR]Foo\", requested by alice."
    );
    assert_eq!(m.thumbnail, Some("https://example.org/diamond2.png".to_string()));
    assert_eq!(m.colour, Colour::Teal);
}

#[test]
fn level_zero_is_rendered_as_not_found() {
    let mut stats = sample();
    stats.level = 0;
    let m = rich(stats.as_message("alice"));
    assert_eq!(m.title, "Error getting Apex Legends Statistics");
    assert_eq!(m.description, Some("Player was not found".to_string()));
    assert!(m.fields.is_empty());
    assert_eq!(m.author, None);
    assert_eq!(m.footer, "Apex legends statistics requested by alice.");
    assert_eq!(m.thumbnail, None);
    assert_eq!(m.colour, Colour::Red);
}

#[test]
fn level_zero_from_a_parse_is_not_an_error_rendering() {
    let body = r#"{"global":{"name":"Ghost","level":0}}"#;
    let out = get_apex_stats(&Ok(body.to_string()), "bob");
    assert_eq!(out.len(), 1);
    let m = rich(out[0].clone());
    assert_eq!(m.description, Some("Player was not found".to_string()));
    assert_eq!(m.footer, "Apex legends statistics requested by bob.");
}

#[test]
fn round_trip_keeps_every_field() {
    let body = r#"{"global":{"name":"Foo","tag":"BAR","level":321,"platform":"PS4",
        "rank":{"rankName":"Diamond","rankDiv":2,"rankScore":9876,"rankImg":"img.png",
        "ALStopIntGlobal":12345,"ALStopPercentGlobal":3.21,"ALStopInt":678,"ALStopPercent":61.5}},
        "total":{"career_kills":{"value":4242},"career_wins":{"value":77},
        "career_revives":{"value":135}}}"#;
    let stats = match parse_json(body) {
        Ok(s) => s,
        Err(e) => panic!("{}", e.detail),
    };
    let m = rich(stats.as_message("carol"));
    assert_eq!(m.title, "[BAR]Foo");
    assert_eq!(m.thumbnail, Some("img.png".to_string()));
    let fields = entries(&m);
    assert_eq!(fields.len(), 7);
    assert_eq!(fields[0].1, "321");
    assert_eq!(fields[1].1, "Diamond 2, 9876 RP");
    assert_eq!(fields[2].1, "12345 (top 3.21%)");
    assert_eq!(fields[3].0, "PS4 ladder position");
    assert_eq!(fields[3].1, "678 (bottom 61.5%)");
    assert_eq!(fields[4].1, "4242");
    assert_eq!(fields[5].1, "77");
    assert_eq!(fields[6].1, "135");
    let out = get_apex_stats(&Ok(body.to_string()), "carol");
    assert_eq!(out.len(), 1);
    assert_eq!(entries(&rich(out[0].clone())), fields);
}

#[test]
fn validation_errors_are_reported() {
    let m = rich(ValidationError::WrongArgumentCount.as_message("dave"));
    assert_eq!(m.title, "Error getting Apex Legends Statistics");
    assert_eq!(
        m.description,
        Some("Missing command arguments, usage: !statsapex <player> <platform>".to_string())
    );
    assert_eq!(m.footer, "Apex legends statistics requested by dave.");
    assert_eq!(m.colour, Colour::Red);
    let m = rich(ValidationError::UnknownPlatform.as_message("dave"));
    assert_eq!(
        m.description,
        Some(
            "Incorrect platform specified, available platforms are `pc`, `xbox` or `playstation`"
                .to_string()
        )
    );
    assert_eq!(m.colour, Colour::Red);
    assert!(m.fields.is_empty());
}

#[test]
fn ping_replies_pong() {
    assert_eq!(plain(&ping()), "pong");
}

#[test]
fn parse_failure_is_reported_in_plain_text() {
    let out = get_apex_stats(&Ok("{".to_string()), "erin");
    assert_eq!(out.len(), 1);
    let direct = serde_json::from_str::<serde_json::Value>("{").unwrap_err();
    assert_eq!(plain(&out[0]), format!("Could not process stats: {:?}", direct));
    let result = LookupResult::ParseFailure(ParseError { detail: "bad".to_string() });
    let out = format_result(&result, "erin");
    assert_eq!(out.len(), 1);
    assert_eq!(plain(&out[0]), "Could not process stats: bad");
}

#[test]
fn long_parse_failure_is_paginated() {
    let detail = "x".repeat(2000 - "Could not process stats: ".len());
    let out = format_result(&LookupResult::ParseFailure(ParseError { detail }), "erin");
    assert_eq!(out.len(), 5);
    assert_eq!(plain(&out[0]), format!("Could not process stats: {}", "x".repeat(375)));
    for m in &out[1..] {
        assert_eq!(plain(m), "x".repeat(400));
    }
}

#[test]
fn transport_failure_is_silent() {
    let failed = Err(TransportError { detail: "connection refused".to_string() });
    assert!(get_apex_stats(&failed, "frank").is_empty());
    assert!(format_result(&LookupResult::TransportFailure, "frank").is_empty());
}

#[test]
fn stats_result_is_one_rich_message() {
    let out = format_result(&LookupResult::Stats(sample()), "gina");
    assert_eq!(out.len(), 1);
    assert_eq!(rich(out[0].clone()).title, "[BAR]Foo");
}

#[test]
fn pagination_of_two_thousand_characters() {
    let payload: String = (0..2000u32).map(|i| char::from(b'a' + (i % 26) as u8)).collect();
    let pages = paginate(&payload);
    assert_eq!(pages.len(), 5);
    for (i, page) in pages.iter().enumerate() {
        assert_eq!(page.chars().count(), 400);
        assert_eq!(page.as_str(), &payload[i * 400..(i + 1) * 400]);
    }
    assert_eq!(pages.concat(), payload);
}

#[test]
fn pagination_of_one_thousand_characters() {
    let payload = "y".repeat(1000);
    assert_eq!(paginate(&payload), vec![payload.clone()]);
}

#[test]
fn pagination_threshold() {
    assert_eq!(paginate(""), vec![String::new()]);
    let at = "z".repeat(1500);
    assert_eq!(paginate(&at), vec![at.clone()]);
    let over = "z".repeat(1501);
    let pages = paginate(&over);
    assert_eq!(pages.len(), 5);
    for page in &pages {
        assert_eq!(page.as_str(), "z".repeat(300));
    }
}

#[test]
fn pagination_cuts_between_characters() {
    let payload = "é".repeat(1600);
    assert_eq!(payload.len(), 3200);
    let pages = paginate(&payload);
    assert_eq!(pages.len(), 5);
    for page in &pages {
        assert_eq!(page.as_str(), "é".repeat(320));
    }
    let short = "é".repeat(1500);
    assert_eq!(paginate(&short), vec![short.clone()]);
}

#[test]
fn pagination_keeps_the_order() {
    let payload: String = (0..1503u32).map(|i| char::from(b'0' + (i / 300) as u8)).collect();
    let pages = paginate(&payload);
    assert_eq!(
        pages,
        vec!["0".repeat(300), "1".repeat(300), "2".repeat(300), "3".repeat(300), "4".repeat(300)]
    );
}
