use lg_hue_sync::video_info::detect_source_fps;
use lg_hue_sync::video_info::parse_frame_rate;
use lg_hue_sync::video_info::parse_video_info;
use lg_hue_sync::video_info::source_fps_from_video_info;
use lg_hue_sync::video_info::FrameRate;
use lg_hue_sync::video_info::VideoInfo;

fn rate(written: &FrameRate) -> Option<f64> {
    match written {
        FrameRate::Number(numeral) | FrameRate::Numeral(numeral) => {
            numeral.parse::<f64>().ok().filter(|value| value.is_finite())
        }
        FrameRate::Fraction(numerator, denominator) => {
            let numerator = numerator.parse::<f64>().ok()?;
            let denominator = denominator.parse::<f64>().ok()?;
            (denominator != 0.0).then_some(numerator / denominator)
        }
    }
}

fn first_rate(written: &[FrameRate]) -> Option<f64> {
    written.iter().find_map(rate)
}

#[test]
fn reads_nested_fractional_video_frame_rate() {
    let video_info = VideoInfo::Object(vec![(
        "payload".to_string(),
        VideoInfo::Object(vec![(
            "frameRate".to_string(),
            VideoInfo::Text("24000/1001".to_string()),
        )]),
    )]);
    let fps = first_rate(&source_fps_from_video_info(&video_info)).unwrap();
    assert!((fps - 23.976).abs() < 0.001);
}

#[test]
fn reads_the_rate_out_of_an_answer() {
    let answer = br#"{"payload": {"frameRate": "24000/1001"}}"#;
    let fps = first_rate(&detect_source_fps(answer)).unwrap();
    assert!((fps - 23.976).abs() < 0.001);
}

#[test]
fn numbers_keep_their_value() {
    for (text, expected) in [
        (r#"{"frameRate": 50}"#, 50.0),
        (r#"{"frameRate": 59.94}"#, 59.94),
        (r#"{"frameRate": 0.1e2}"#, 10.0),
        (r#"{"frameRate": " 25 "}"#, 25.0),
        (r#"{"frameRate": " 30000 / 1001 "}"#, 30000.0 / 1001.0),
        (r#"[1, {"a": [{"frameRate": 48}]}]"#, 48.0),
    ] {
        assert_eq!(first_rate(&detect_source_fps(text.as_bytes())), Some(expected), "{}", text);
    }
}

#[test]
fn an_answer_without_a_rate_has_none() {
    for text in [
        "",
        "not json",
        "{}",
        "null",
        "[true, false]",
        r#"{"frameRate": null}"#,
        r#"{"frameRate": "fast"}"#,
        r#"{"frameRate": "1/0"}"#,
        r#"{"rate": 60}"#,
        r#"{"frameRate": 60"#,
    ] {
        assert_eq!(first_rate(&detect_source_fps(text.as_bytes())), None, "{}", text);
    }
}

#[test]
fn an_own_rate_comes_before_a_nested_one() {
    let answer = br#"{"a": {"frameRate": 24}, "frameRate": 60}"#;
    assert_eq!(first_rate(&detect_source_fps(answer)), Some(60.0));
    let answer = br#"{"b": {"frameRate": 24}, "a": {"frameRate": 25}}"#;
    assert_eq!(first_rate(&detect_source_fps(answer)), Some(25.0));
    let answer = br#"{"frameRate": "unknown", "z": {"frameRate": 30}}"#;
    assert_eq!(first_rate(&detect_source_fps(answer)), Some(30.0));
    let answer = br#"{"frameRate": {"frameRate": 42}}"#;
    assert_eq!(first_rate(&detect_source_fps(answer)), Some(42.0));
}

#[test]
fn documents_are_taken_apart_to_the_bottom() {
    let info = parse_video_info(br#"{"b": [null, true, "x", 1.5], "a": {}}"#).unwrap();
    let VideoInfo::Object(members) = info else {
        panic!("no object");
    };
    assert_eq!(members[0].0, "a");
    assert!(matches!(&members[0].1, VideoInfo::Object(inner) if inner.is_empty()));
    assert_eq!(members[1].0, "b");
    let VideoInfo::Array(elements) = &members[1].1 else {
        panic!("no array");
    };
    assert!(matches!(&elements[0], VideoInfo::Null));
    assert!(matches!(&elements[1], VideoInfo::Bool(true)));
    assert!(matches!(&elements[2], VideoInfo::Text(text) if text == "x"));
    assert!(matches!(&elements[3], VideoInfo::Number(numeral) if numeral == "1.5"));
    assert!(parse_video_info(b"{").is_none());
}

#[test]
fn rates_are_numbers_numerals_or_fractions() {
    assert!(matches!(
        parse_frame_rate(&VideoInfo::Text(" 24000 / 1001 / 2".to_string())),
        Some(FrameRate::Fraction(n, d)) if n == "24000" && d == "1001 / 2"
    ));
    assert!(matches!(
        parse_frame_rate(&VideoInfo::Text("\t60\n".to_string())),
        Some(FrameRate::Numeral(n)) if n == "60"
    ));
    assert!(matches!(
        parse_frame_rate(&VideoInfo::Number("60".to_string())),
        Some(FrameRate::Number(n)) if n == "60"
    ));
    assert!(parse_frame_rate(&VideoInfo::Bool(true)).is_none());
    assert!(parse_frame_rate(&VideoInfo::Null).is_none());
    assert!(parse_frame_rate(&VideoInfo::Array(vec![])).is_none());
}
