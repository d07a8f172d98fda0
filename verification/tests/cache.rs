use i2a_rs::config::Config;
use i2a_rs::error::RenderError;
use i2a_rs::util::cache::{get_cache_dirname, sha256_digest};
use i2a_rs::util::gif::{frame_filename, Gif, Lookup};
use i2a_rs::util::imgparse::img_to_ascii_color;
use i2a_rs::util::raster::SourceImage;
use i2a_rs::util::record::{
    check_record, digit_runs_fit, RecordFields, DIGIT_RUN_LIMIT, FRAMES_KEY, INTERVAL_KEY,
    RECORD_FILE,
};

const CONFIG: Config = Config { padding: true, dup: true, grayscale: false, once: false };

fn gif() -> Gif {
    Gif::new("clip.gif", b"abc", 80, 24, &CONFIG).unwrap()
}

fn frames(texts: &[&str]) -> Vec<String> {
    texts.iter().map(|t| t.to_string()).collect()
}

#[test]
fn hash_is_the_sha256_digest_in_upper_case_hex() {
    assert_eq!(
        sha256_digest(b"abc").unwrap(),
        "BA7816BF8F01CFEA414140DE5DAE2223B00361A396177A9CB410FF61F20015AD"
    );
    assert_eq!(
        sha256_digest(b"").unwrap(),
        "E3B0C44298FC1C149AFBF4C8996FB92427AE41E4649B934CA495991B7852B855"
    );
}

#[test]
fn hash_of_long_content() {
    let content = vec![b'a'; 1_000_000];
    assert_eq!(
        sha256_digest(&content).unwrap(),
        "CDC76E5C9914FB9281A1C7E284D73E67F1809A48A497200E046D39CCC7112CD0"
    );
}

#[test]
fn cache_directory_names() {
    let dir = get_cache_dirname("ABC123", 80, 24, &CONFIG);
    assert_eq!(dir.source, "i2a-rs_ABC123");
    assert_eq!(dir.variant, "80x24xfalsextrue");
    let gray = Config { padding: false, dup: false, grayscale: true, once: true };
    let dir = get_cache_dirname("", 0, 12345, &gray);
    assert_eq!(dir.source, "i2a-rs_");
    assert_eq!(dir.variant, "0x12345xtruexfalse");
}

#[test]
fn cache_directory_ignores_padding_and_once() {
    let a = Config { padding: true, dup: true, grayscale: false, once: true };
    let b = Config { padding: false, dup: true, grayscale: false, once: false };
    assert_eq!(get_cache_dirname("0F", 3, 4, &a).variant, get_cache_dirname("0F", 3, 4, &b).variant);
}

#[test]
fn every_grid_and_mode_has_its_own_directory() {
    let mut seen = std::collections::HashSet::new();
    for w in [0usize, 1, 2, 10, 11, 100, 101] {
        for h in [0usize, 1, 2, 10, 11, 100, 101] {
            for grayscale in [false, true] {
                for dup in [false, true] {
                    let config = Config { padding: true, dup, grayscale, once: false };
                    assert!(seen.insert(get_cache_dirname("AA", w, h, &config).variant));
                }
            }
        }
    }
}

#[test]
fn gif_knows_its_source_and_grid() {
    let made = gif();
    assert_eq!(made.filename, "clip.gif");
    assert_eq!(
        made.dirname.source,
        "i2a-rs_BA7816BF8F01CFEA414140DE5DAE2223B00361A396177A9CB410FF61F20015AD"
    );
    assert_eq!(made.dirname.variant, "80x24xfalsextrue");
    assert_eq!((made.width, made.height), (80, 24));
    assert_eq!(made.config, CONFIG);
}

#[test]
fn gif_refuses_a_grid_that_cannot_be_rendered() {
    assert_eq!(
        Gif::new("clip.gif", b"abc", usize::MAX, 24, &CONFIG).unwrap_err(),
        RenderError::Geometry
    );
    assert_eq!(
        Gif::new("clip.gif", b"abc", 80, usize::MAX, &CONFIG).unwrap_err(),
        RenderError::Geometry
    );
}

#[test]
fn record_names() {
    assert_eq!(RECORD_FILE, "content.json");
    assert_eq!(INTERVAL_KEY, "duration");
    assert_eq!(FRAMES_KEY, "frames");
}

#[test]
fn valid_record_is_read() {
    let read = gif().from_json(r#"{"duration": 40, "frames": ["a", "b"]}"#).unwrap();
    assert_eq!(read, (frames(&["a", "b"]), 40));
    let read = gif().from_json(r#"{"frames":["only"],"duration":0,"more":null}"#).unwrap();
    assert_eq!(read, (frames(&["only"]), 0));
    let read = gif().from_json(r#"{"duration": 18446744073709551615, "frames": [""]}"#).unwrap();
    assert_eq!(read, (frames(&[""]), u64::MAX));
}

#[test]
fn record_without_interval_is_refused() {
    assert_eq!(gif().from_json(r#"{"frames": ["a"]}"#).unwrap_err(), RenderError::CacheRead);
}

#[test]
fn record_with_an_interval_that_is_no_count_is_refused() {
    for text in [
        r#"{"duration": "40", "frames": ["a"]}"#,
        r#"{"duration": -1, "frames": ["a"]}"#,
        r#"{"duration": 1.5, "frames": ["a"]}"#,
        r#"{"duration": null, "frames": ["a"]}"#,
        r#"{"duration": [40], "frames": ["a"]}"#,
        r#"{"duration": 18446744073709551616, "frames": ["a"]}"#,
    ] {
        assert_eq!(gif().from_json(text).unwrap_err(), RenderError::CacheRead);
    }
}

#[test]
fn record_without_a_list_of_frames_is_refused() {
    for text in [
        r#"{"duration": 40}"#,
        r#"{"duration": 40, "frames": "a"}"#,
        r#"{"duration": 40, "frames": {"0": "a"}}"#,
        r#"{"duration": 40, "frames": null}"#,
    ] {
        assert_eq!(gif().from_json(text).unwrap_err(), RenderError::CacheRead);
    }
}

#[test]
fn record_with_an_empty_list_of_frames_is_refused() {
    assert_eq!(
        gif().from_json(r#"{"duration": 40, "frames": []}"#).unwrap_err(),
        RenderError::CacheRead
    );
}

#[test]
fn record_with_a_frame_that_is_no_string_is_refused() {
    for text in [
        r#"{"duration": 40, "frames": ["a", 1]}"#,
        r#"{"duration": 40, "frames": [null]}"#,
        r#"{"duration": 40, "frames": ["a", ["b"], "c"]}"#,
    ] {
        assert_eq!(gif().from_json(text).unwrap_err(), RenderError::CacheRead);
    }
}

#[test]
fn text_that_is_no_record_is_refused() {
    for text in ["", "not json", "[40, [\"a\"]]", "40", r#"{"duration": 40, "frames": ["a"]"#] {
        assert_eq!(gif().from_json(text).unwrap_err(), RenderError::CacheRead);
    }
}

#[test]
fn runs_of_digits_are_measured() {
    assert_eq!(DIGIT_RUN_LIMIT, 32_767);
    assert!(digit_runs_fit(""));
    assert!(digit_runs_fit("no digits"));
    assert!(digit_runs_fit(r#"{"duration": 40, "frames": ["a"]}"#));
    let most = "7".repeat(32_767);
    assert!(digit_runs_fit(&most));
    assert!(digit_runs_fit(&format!("{}x{}", most, most)));
    assert!(digit_runs_fit(&format!("é{}.{}■", most, most)));
    let more = "7".repeat(32_768);
    assert!(!digit_runs_fit(&more));
    assert!(!digit_runs_fit(&format!("ab{}", more)));
    assert!(!digit_runs_fit(&format!("{}.{}", most, more)));
    assert!(!digit_runs_fit(&format!("12x{}y34", more)));
}

#[test]
fn record_with_too_long_a_run_of_digits_is_refused() {
    let fraction = format!(r#"{{"duration":0.{},"frames":["a"]}}"#, "0".repeat(32_769));
    assert_eq!(gif().from_json(&fraction).unwrap_err(), RenderError::CacheRead);
    assert!(matches!(gif().into_parse(Some(&fraction)), Lookup::Miss(_)));
    let fraction = format!(r#"{{"duration":0.{},"frames":["a"]}}"#, "0".repeat(40_000));
    assert_eq!(gif().from_json(&fraction).unwrap_err(), RenderError::CacheRead);
    let whole = format!(r#"{{"duration":{},"frames":["a"]}}"#, "1".repeat(32_768));
    assert_eq!(gif().from_json(&whole).unwrap_err(), RenderError::CacheRead);
    let frame = format!(r#"{{"duration":1,"frames":["{}"]}}"#, "1".repeat(32_768));
    assert_eq!(gif().from_json(&frame).unwrap_err(), RenderError::CacheRead);
}

#[test]
fn record_with_the_longest_run_of_digits_is_read() {
    let digits = "1".repeat(32_767);
    let frame = format!(r#"{{"duration":1,"frames":["{}"]}}"#, digits);
    assert_eq!(gif().from_json(&frame).unwrap(), (vec![digits.clone()], 1));
    let fraction = format!(r#"{{"duration":0.{},"frames":["a"]}}"#, "0".repeat(32_767));
    assert_eq!(gif().from_json(&fraction).unwrap_err(), RenderError::CacheRead);
    assert_eq!(gif().checked_record(&vec![digits.clone()], 3), Some(gif().save_cache(&vec![digits], 3)));
    assert_eq!(gif().checked_record(&vec!["1".repeat(32_768)], 3), None);
}

#[test]
fn fields_are_judged_as_they_were_read() {
    let ok = RecordFields { interval: Some(7), frames: vec![Some("x".to_string())] };
    assert_eq!(check_record(Some(ok)).unwrap(), (frames(&["x"]), 7));
    assert_eq!(check_record(None).unwrap_err(), RenderError::CacheRead);
    let no_interval = RecordFields { interval: None, frames: vec![Some("x".to_string())] };
    assert_eq!(check_record(Some(no_interval)).unwrap_err(), RenderError::CacheRead);
    let no_frames = RecordFields { interval: Some(7), frames: vec![] };
    assert_eq!(check_record(Some(no_frames)).unwrap_err(), RenderError::CacheRead);
    let hole = RecordFields { interval: Some(7), frames: vec![Some("x".to_string()), None] };
    assert_eq!(check_record(Some(hole)).unwrap_err(), RenderError::CacheRead);
}

#[test]
fn record_is_written_as_json() {
    assert_eq!(
        gif().save_cache(&frames(&["a", "b"]), 40),
        r#"{"duration":40,"frames":["a","b"]}"#
    );
    assert_eq!(gif().save_cache(&frames(&[]), 0), r#"{"duration":0,"frames":[]}"#);
}

#[test]
fn written_record_is_read_back_unchanged() {
    let sets: Vec<(Vec<String>, u64)> = vec![
        (frames(&["a"]), 0),
        (frames(&["one", "two", "three"]), 100),
        (
            frames(&[
                "\x1b[38;2;1;2;3m■\x1b[0m\n",
                "\"quoted\" \\ / \t \r\n",
                "",
                "é ■ \u{1F600}",
            ]),
            33,
        ),
        (frames(&["x"]), u64::MAX),
    ];
    for (set, interval) in sets {
        let text = gif().save_cache(&set, interval);
        let fresh = Gif::new("clip.gif", b"abc", 80, 24, &CONFIG).unwrap();
        assert_eq!(fresh.from_json(&text).unwrap(), (set.clone(), interval));
        match fresh.into_parse(Some(&text)) {
            Lookup::Hit(read, ms) => {
                assert_eq!(read, set);
                assert_eq!(ms, interval);
            }
            Lookup::Miss(_) => panic!("the record that was written is a hit"),
        }
    }
}

#[test]
fn record_is_handed_out_only_if_it_reads_back() {
    let set = frames(&["one", "two\n", "\x1b[0m"]);
    let text = gif().checked_record(&set, 25).unwrap();
    assert_eq!(text, gif().save_cache(&set, 25));
    assert_eq!(gif().from_json(&text).unwrap(), (set, 25));
    assert_eq!(gif().checked_record(&frames(&[]), 25), None);
}

#[test]
fn rendered_frames_are_read_back_unchanged() {
    let img = SourceImage::new(2, 1, vec![255, 0, 0, 255, 0, 0, 255, 255]).unwrap();
    let rendered = vec![
        img_to_ascii_color(&img, 24, 80, &CONFIG),
        img_to_ascii_color(&img, 3, 5, &CONFIG),
    ];
    let text = gif().save_cache(&rendered, 70);
    assert_eq!(gif().from_json(&text).unwrap(), (rendered, 70));
}

#[test]
fn valid_record_is_a_hit() {
    match gif().into_parse(Some(r#"{"duration": 40, "frames": ["a", "b"]}"#)) {
        Lookup::Hit(read, ms) => {
            assert_eq!(read, frames(&["a", "b"]));
            assert_eq!(ms, 40);
        }
        Lookup::Miss(_) => panic!("a valid record is a hit"),
    }
}

#[test]
fn record_without_interval_leads_to_extraction() {
    match gif().into_parse(Some(r#"{"frames": ["a", "b"]}"#)) {
        Lookup::Miss(back) => {
            assert_eq!(back.filename, "clip.gif");
            assert_eq!(back.dirname.variant, "80x24xfalsextrue");
            assert_eq!((back.width, back.height), (80, 24));
        }
        Lookup::Hit(..) => panic!("a record without interval is a miss"),
    }
}

#[test]
fn missing_or_broken_record_leads_to_extraction() {
    assert!(matches!(gif().into_parse(None), Lookup::Miss(_)));
    assert!(matches!(gif().into_parse(Some("")), Lookup::Miss(_)));
    assert!(matches!(gif().into_parse(Some(r#"{"duration": 4, "fra"#)), Lookup::Miss(_)));
    assert!(matches!(gif().into_parse(Some(r#"{"duration": 4, "frames": []}"#)), Lookup::Miss(_)));
}

#[test]
fn frame_files_are_numbered_with_five_digits() {
    assert_eq!(frame_filename(1), "00001.jpg");
    assert_eq!(frame_filename(0), "00000.jpg");
    assert_eq!(frame_filename(42), "00042.jpg");
    assert_eq!(frame_filename(99999), "99999.jpg");
    assert_eq!(frame_filename(100000), "100000.jpg");
    assert_eq!(frame_filename(1234567), "1234567.jpg");
}
