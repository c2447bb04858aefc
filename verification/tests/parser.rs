use apex_stats::stats::{
    compose_name, is_below_fifty, parse_json, render_bucket, render_ladder, render_rank, ApiFields,
    PlayerStats,
};

const SAMPLE: &str = r#"{
  "global": {
    "name": "Foo",
    "tag": "BAR",
    "level": 321,
    "platform": "PC",
    "rank": {
      "rankName": "Diamond",
      "rankDiv": 2,
      "rankScore": 9876,
      "rankImg": "https://example.org/diamond2.png",
      "ALStopIntGlobal": 12345,
      "ALStopPercentGlobal": 3.21,
      "ALStopInt": 678,
      "ALStopPercent": 50.0
    }
  },
  "total": {
    "career_kills": { "name": "Kills", "value": 4242 },
    "career_wins": { "name": "Wins", "value": 77 },
    "career_revives": { "name": "Revives", "value": 135 }
  }
}"#;

fn parsed(body: &str) -> PlayerStats {
    match parse_json(body) {
        Ok(stats) => stats,
        Err(e) => panic!("did not parse: {}", e.detail),
    }
}

#[test]
fn sample_payload_is_normalised() {
    let s = parsed(SAMPLE);
    assert_eq!(s.name, "[BAR]Foo");
    assert_eq!(s.level, 321);
    assert_eq!(s.rank, "Diamond 2, 9876 RP");
    assert_eq!(s.rank_image, "https://example.org/diamond2.png");
    assert_eq!(s.global_ladder_position, "12345 (top 3.21%)");
    assert_eq!(s.platform, "PC");
    assert_eq!(s.platform_ladder_position, "678 (bottom 50%)");
    assert_eq!(s.career_kills, 4242);
    assert_eq!(s.career_wins, 77);
    assert_eq!(s.career_revives, 135);
}

#[test]
fn missing_career_kills_is_zero() {
    let body = r#"{"global":{"name":"Foo","level":5},"total":{"career_wins":{"value":3}}}"#;
    let s = parsed(body);
    assert_eq!(s.career_kills, 0);
    assert_eq!(s.career_wins, 3);
    assert_eq!(s.level, 5);
    let no_value = r#"{"total":{"career_kills":{"name":"Kills"}}}"#;
    assert_eq!(parsed(no_value).career_kills, 0);
    let no_total = r#"{"global":{"level":9}}"#;
    assert_eq!(parsed(no_total).career_kills, 0);
}

#[test]
fn empty_object_takes_every_default() {
    let s = parsed("{}");
    assert_eq!(s.name, "");
    assert_eq!(s.level, 0);
    assert_eq!(s.rank, " 0, 0 RP");
    assert_eq!(s.rank_image, "");
    assert_eq!(s.global_ladder_position, "0 (top 0%)");
    assert_eq!(s.platform, "");
    assert_eq!(s.platform_ladder_position, "0 (top 0%)");
    assert_eq!(s.career_kills, 0);
    assert_eq!(s.career_wins, 0);
    assert_eq!(s.career_revives, 0);
}

#[test]
fn json_that_is_no_object_takes_every_default() {
    assert_eq!(parsed("[1, 2]").level, 0);
    assert_eq!(parsed("null").name, "");
    assert_eq!(parsed("\"text\"").career_wins, 0);
}

#[test]
fn fields_of_another_kind_take_their_default() {
    let body = r#"{"global":{"name":17,"tag":null,"level":"12","platform":true,
        "rank":{"rankName":[],"rankDiv":"x","rankScore":1.5,"ALStopPercent":"60"}},
        "total":{"career_kills":{"value":"9"}}}"#;
    let s = parsed(body);
    assert_eq!(s.name, "");
    assert_eq!(s.level, 0);
    assert_eq!(s.platform, "");
    assert_eq!(s.rank, " 0, 0 RP");
    assert_eq!(s.platform_ladder_position, "0 (top 0%)");
    assert_eq!(s.career_kills, 0);
}

#[test]
fn malformed_json_is_an_error() {
    for body in ["", "{", "{\"global\": }", "not json", "{} trailing"] {
        match parse_json(body) {
            Ok(_) => panic!("parsed {:?}", body),
            Err(e) => assert!(e.detail.contains("line") && e.detail.contains("column")),
        }
    }
    match parse_json("{") {
        Err(e) => {
            let direct = serde_json::from_str::<serde_json::Value>("{").unwrap_err();
            assert_eq!(e.detail, format!("{:?}", direct));
            assert_ne!(e.detail, "{");
        }
        Ok(_) => panic!("parsed"),
    }
}

#[test]
fn level_zero_parses() {
    let s = parsed(r#"{"global":{"name":"Ghost","level":0}}"#);
    assert_eq!(s.level, 0);
    assert_eq!(s.name, "Ghost");
}

#[test]
fn percentile_buckets() {
    assert_eq!(render_bucket(&49.9f64.to_string()), "top 49.9%");
    assert_eq!(render_bucket(&50.0f64.to_string()), "bottom 50%");
    assert_eq!(render_bucket(&75.0f64.to_string()), "bottom 75%");
    assert_eq!(render_bucket(&0.0f64.to_string()), "top 0%");
    assert_eq!(render_bucket(&49.999999f64.to_string()), "top 49.999999%");
    assert_eq!(render_bucket(&50.000001f64.to_string()), "bottom 50.000001%");
    assert_eq!(render_bucket(&100.0f64.to_string()), "bottom 100%");
    assert_eq!(render_bucket(&(-3.5f64).to_string()), "top -3.5%");
    assert_eq!(render_bucket(&1e21f64.to_string()), "bottom 1000000000000000000000%");
}

#[test]
fn percentile_buckets_from_json() {
    let body = |p: &str| {
        format!(r#"{{"global":{{"rank":{{"ALStopIntGlobal":7,"ALStopPercentGlobal":{}}}}}}}"#, p)
    };
    assert_eq!(parsed(&body("49.9")).global_ladder_position, "7 (top 49.9%)");
    assert_eq!(parsed(&body("50.0")).global_ladder_position, "7 (bottom 50%)");
    assert_eq!(parsed(&body("75.0")).global_ladder_position, "7 (bottom 75%)");
    assert_eq!(parsed(&body("50")).global_ladder_position, "7 (bottom 50%)");
    assert_eq!(parsed(&body("4.99e1")).global_ladder_position, "7 (top 49.9%)");
    assert_eq!(parsed(&body("5e1")).global_ladder_position, "7 (bottom 50%)");
    assert_eq!(parsed(&body("12")).global_ladder_position, "7 (top 12%)");
}

#[test]
fn below_fifty_agrees_with_the_numbers() {
    let samples = [
        0.0f64, 0.5, 1.0, 9.99, 10.0, 49.0, 49.9, 49.99999999999999, 50.0, 50.00000000000001,
        51.0, 99.9, 100.0, 499.0, 5000.0, 1e-7, 1e300, -0.0, -1.0, -50.0, -1e300,
        f64::INFINITY, f64::NEG_INFINITY, f64::NAN,
    ];
    for p in samples {
        assert_eq!(is_below_fifty(&p.to_string()), p < 50.0, "{}", p);
    }
}

#[test]
fn below_fifty_on_other_texts() {
    assert!(!is_below_fifty(""));
    assert!(!is_below_fifty("abc"));
    assert!(!is_below_fifty(".5"));
    assert!(is_below_fifty("007"));
    assert!(!is_below_fifty("0050"));
    assert!(is_below_fifty("49x"));
    assert!(!is_below_fifty("99999999999999999999999999999999999999"));
    assert!(is_below_fifty("-"));
}

#[test]
fn name_composition() {
    assert_eq!(compose_name("", "Foo"), "Foo");
    assert_eq!(compose_name("BAR", "Foo"), "[BAR]Foo");
    assert_eq!(compose_name("", ""), "");
    assert_eq!(compose_name("T", ""), "[T]");
}

#[test]
fn name_composition_from_json() {
    assert_eq!(parsed(r#"{"global":{"name":"Foo","tag":""}}"#).name, "Foo");
    assert_eq!(parsed(r#"{"global":{"name":"Foo"}}"#).name, "Foo");
    assert_eq!(parsed(r#"{"global":{"name":"Foo","tag":"BAR"}}"#).name, "[BAR]Foo");
}

#[test]
fn rank_and_ladder_labels() {
    assert_eq!(render_rank("Gold", 4, 5500), "Gold 4, 5500 RP");
    assert_eq!(render_rank("Unranked", 0, -1), "Unranked 0, -1 RP");
    assert_eq!(render_ladder(1, "0.01"), "1 (top 0.01%)");
    assert_eq!(render_ladder(-1, "88.2"), "-1 (bottom 88.2%)");
}

#[test]
fn from_fields_normalises() {
    let fields = ApiFields {
        name: "Foo".to_string(),
        tag: "BAR".to_string(),
        level: 12,
        platform: "X1".to_string(),
        rank_name: "Silver".to_string(),
        rank_div: 3,
        rank_score: 2100,
        rank_image: "img".to_string(),
        global_position: 10,
        global_percentile: "49.9".to_string(),
        platform_position: 20,
        platform_percentile: "75".to_string(),
        career_kills: 1,
        career_wins: 2,
        career_revives: 3,
    };
    let s = PlayerStats::from_fields(&fields);
    assert_eq!(s.name, "[BAR]Foo");
    assert_eq!(s.level, 12);
    assert_eq!(s.rank, "Silver 3, 2100 RP");
    assert_eq!(s.rank_image, "img");
    assert_eq!(s.global_ladder_position, "10 (top 49.9%)");
    assert_eq!(s.platform, "X1");
    assert_eq!(s.platform_ladder_position, "20 (bottom 75%)");
    assert_eq!((s.career_kills, s.career_wins, s.career_revives), (1, 2, 3));
}

#[test]
fn integers_at_the_edge_of_the_range() {
    let body = r#"{"global":{"level":9223372036854775807},
        "total":{"career_kills":{"value":-9223372036854775808},
                 "career_wins":{"value":9223372036854775808}}}"#;
    let s = parsed(body);
    assert_eq!(s.level, i64::MAX);
    assert_eq!(s.career_kills, i64::MIN);
    assert_eq!(s.career_wins, 0);
}
