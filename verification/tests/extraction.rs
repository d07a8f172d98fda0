use i2a_rs::config::Config;
use i2a_rs::error::RenderError;
use i2a_rs::util::diagnostics::{interval_from_captures, FRAME_PATTERN, TIME_PATTERN};
use i2a_rs::util::gif::Gif;
use i2a_rs::util::imgparse::img_to_ascii_color;
use i2a_rs::util::raster::SourceImage;

const CONFIG: Config = Config { padding: true, dup: true, grayscale: false, once: false };

const DIAGNOSTICS: &str = "Input #0, gif, from 'clip.gif':\n  \
    Duration: 00:00:01.00, start: 0.000000, bitrate: 120 kb/s\n  \
    Stream #0:0: Video: gif, bgra, 320x240, 10 fps, 10 tbr, 100 tbn\n\
    Output #0, image2, to '/tmp/x/%05d.jpg':\n\
    frame=   10 fps=0.0 q=2.0 Lsize=N/A time=00:00:01.00 bitrate=N/A speed=12.3x\n";

fn gif() -> Gif {
    Gif::new("clip.gif", b"abc", 8, 4, &CONFIG).unwrap()
}

fn groups(texts: &[Option<&str>]) -> Option<Vec<Option<String>>> {
    Some(texts.iter().map(|t| t.map(|t| t.to_string())).collect())
}

#[test]
fn patterns() {
    assert_eq!(FRAME_PATTERN, r"frame=?\s*(\d+)");
    assert_eq!(TIME_PATTERN, r"time=(\d{2}):(\d{2}):(\d{2}.\d{2})");
}

#[test]
fn interval_is_elapsed_time_by_frames() {
    assert_eq!(gif().parse_ffmpeg_output(DIAGNOSTICS).unwrap(), 100);
    assert_eq!(gif().parse_ffmpeg_output("frame=25 time=00:00:02.00").unwrap(), 80);
    assert_eq!(gif().parse_ffmpeg_output("frame 4 time=00:00:02.00").unwrap(), 500);
}

#[test]
fn interval_counts_hours_minutes_and_hundredths() {
    // 1 h 2 min 3.45 s = 3 723 450 ms
    assert_eq!(gif().parse_ffmpeg_output("frame=1 time=01:02:03.45").unwrap(), 3_723_450);
    assert_eq!(gif().parse_ffmpeg_output("frame=1 time=99:99:99.99").unwrap(), 362_439_990);
    assert_eq!(gif().parse_ffmpeg_output("frame=1 time=00:00:00.07").unwrap(), 70);
}

#[test]
fn interval_is_rounded_to_the_nearest_millisecond() {
    // 1000 / 3 = 333.3
    assert_eq!(gif().parse_ffmpeg_output("frame=3 time=00:00:01.00").unwrap(), 333);
    // 1000 / 7 = 142.9
    assert_eq!(gif().parse_ffmpeg_output("frame=7 time=00:00:01.00").unwrap(), 143);
    // 1000 / 16 = 62.5
    assert_eq!(gif().parse_ffmpeg_output("frame=16 time=00:00:01.00").unwrap(), 63);
    // 10 / 3000 = 0.003
    assert_eq!(gif().parse_ffmpeg_output("frame=3000 time=00:00:00.01").unwrap(), 0);
    // 10 / 20 = 0.5
    assert_eq!(gif().parse_ffmpeg_output("frame=20 time=00:00:00.01").unwrap(), 1);
}

#[test]
fn interval_of_no_time_is_zero() {
    assert_eq!(gif().parse_ffmpeg_output("frame=12 time=00:00:00.00").unwrap(), 0);
}

#[test]
fn interval_with_more_frames_than_a_machine_word_counts() {
    let text = "frame=99999999999999999999999999 time=00:00:01.00";
    assert_eq!(gif().parse_ffmpeg_output(text).unwrap(), 0);
    let text = "frame=18446744073709551615 time=99:99:99.99";
    assert_eq!(gif().parse_ffmpeg_output(text).unwrap(), 0);
}

#[test]
fn first_match_counts() {
    let text = "frame=2 time=00:00:01.00\nframe=10 time=00:00:09.00\n";
    assert_eq!(gif().parse_ffmpeg_output(text).unwrap(), 500);
}

#[test]
fn diagnostics_without_frame_count_fail() {
    for text in ["", "time=00:00:01.00", "frames: ten time=00:00:01.00", "frame= time=00:00:01.00"] {
        assert_eq!(gif().parse_ffmpeg_output(text).unwrap_err(), RenderError::ExternalTool);
    }
}

#[test]
fn diagnostics_without_elapsed_time_fail() {
    for text in
        ["frame=10", "frame=10 time=0:00:01.00", "frame=10 time=00:00:01", "frame=10 time=N/A"]
    {
        assert_eq!(gif().parse_ffmpeg_output(text).unwrap_err(), RenderError::ExternalTool);
    }
}

#[test]
fn diagnostics_with_no_frames_fail() {
    assert_eq!(
        gif().parse_ffmpeg_output("frame=0 time=00:00:01.00").unwrap_err(),
        RenderError::ExternalTool
    );
    assert_eq!(
        gif().parse_ffmpeg_output("frame=000 time=00:00:01.00").unwrap_err(),
        RenderError::ExternalTool
    );
}

#[test]
fn seconds_need_a_decimal_point() {
    assert_eq!(
        gif().parse_ffmpeg_output("frame=5 time=00:00:01x00").unwrap_err(),
        RenderError::ExternalTool
    );
    assert_eq!(
        gif().parse_ffmpeg_output("frame=5 time=00:00:01e00").unwrap_err(),
        RenderError::ExternalTool
    );
}

#[test]
fn digits_of_other_scripts_do_not_count() {
    assert_eq!(
        gif().parse_ffmpeg_output("frame=\u{ff15} time=00:00:01.00").unwrap_err(),
        RenderError::ExternalTool
    );
    assert_eq!(
        gif().parse_ffmpeg_output("frame=5 time=00:00:0\u{0661}.00").unwrap_err(),
        RenderError::ExternalTool
    );
}

#[test]
fn interval_from_what_the_patterns_found() {
    let frame = groups(&[Some("frame=10"), Some("10")]);
    let time = groups(&[Some("time=00:00:01.00"), Some("00"), Some("00"), Some("01.00")]);
    assert_eq!(interval_from_captures(&frame, &time).unwrap(), 100);
    let none: Option<Vec<Option<String>>> = None;
    assert_eq!(interval_from_captures(&none, &time).unwrap_err(), RenderError::ExternalTool);
    assert_eq!(interval_from_captures(&frame, &none).unwrap_err(), RenderError::ExternalTool);
}

#[test]
fn groups_that_took_no_part_or_are_missing_fail() {
    let frame = groups(&[Some("frame=10"), Some("10")]);
    let time = groups(&[Some("time=00:00:01.00"), Some("00"), Some("00"), Some("01.00")]);
    let holes = [
        groups(&[]),
        groups(&[Some("frame=10")]),
        groups(&[Some("frame=10"), None]),
        groups(&[Some("10"), Some("")]),
        groups(&[Some("10"), Some("1 0")]),
    ];
    for hole in holes {
        assert_eq!(interval_from_captures(&hole, &time).unwrap_err(), RenderError::ExternalTool);
    }
    let holes = [
        groups(&[Some("t"), Some("00"), Some("00")]),
        groups(&[Some("t"), None, Some("00"), Some("01.00")]),
        groups(&[Some("t"), Some("0"), Some("00"), Some("01.00")]),
        groups(&[Some("t"), Some("000"), Some("00"), Some("01.00")]),
        groups(&[Some("t"), Some("00"), Some("0a"), Some("01.00")]),
        groups(&[Some("t"), Some("00"), Some("00"), Some("01.0")]),
        groups(&[Some("t"), Some("00"), Some("00"), Some("01.000")]),
        groups(&[Some("t"), Some("00"), Some("00"), Some("01:00")]),
        groups(&[Some("t"), Some("00"), Some("00"), Some("+1.00")]),
    ];
    for hole in holes {
        assert_eq!(interval_from_captures(&frame, &hole).unwrap_err(), RenderError::ExternalTool);
    }
}

#[test]
fn failed_run_has_no_interval() {
    assert_eq!(gif().run_ffmpeg(false, DIAGNOSTICS).unwrap_err(), RenderError::ExternalTool);
    assert_eq!(gif().run_ffmpeg(false, "").unwrap_err(), RenderError::ExternalTool);
}

#[test]
fn successful_run_has_the_interval_of_its_diagnostics() {
    assert_eq!(gif().run_ffmpeg(true, DIAGNOSTICS).unwrap(), 100);
    assert_eq!(gif().run_ffmpeg(true, "no numbers").unwrap_err(), RenderError::ExternalTool);
}

#[test]
fn decoder_arguments() {
    let made = Gif::new("dir/clip.gif", b"abc", 80, 24, &CONFIG).unwrap();
    assert_eq!(
        made.ffmpeg_args("/tmp/cache/80x24"),
        vec![
            "-i",
            "dir/clip.gif",
            "-vf",
            "scale=w=80:h=24:force_original_aspect_ratio=decrease",
            "/tmp/cache/80x24/%05d.jpg",
        ]
    );
}

#[test]
fn extracted_frames_are_rendered_in_order() {
    let first = SourceImage::new(1, 1, vec![255, 0, 0, 255]).unwrap();
    let second = SourceImage::new(2, 1, vec![0, 255, 0, 255, 0, 0, 255, 255]).unwrap();
    let rendered = gif().get_frames_from_file(&vec![first.clone(), second.clone()]).unwrap();
    assert_eq!(
        rendered,
        vec![img_to_ascii_color(&first, 4, 8, &CONFIG), img_to_ascii_color(&second, 4, 8, &CONFIG)]
    );
    assert_ne!(rendered[0], rendered[1]);
    assert_eq!(gif().get_frames_from_file(&vec![]).unwrap(), Vec::<String>::new());
}

#[test]
fn malformed_frame_fails_the_extraction() {
    let good = SourceImage::new(1, 1, vec![255, 0, 0, 255]).unwrap();
    let bad = SourceImage { width: 2, height: 2, rgba: vec![0; 15] };
    assert_eq!(
        gif().get_frames_from_file(&vec![good.clone(), bad.clone()]).unwrap_err(),
        RenderError::Decode
    );
    assert_eq!(
        gif().use_ffmpeg(true, DIAGNOSTICS, &vec![bad, good]).unwrap_err(),
        RenderError::Decode
    );
}

#[test]
fn extraction_yields_frames_interval_and_record() {
    let first = SourceImage::new(1, 1, vec![255, 0, 0, 255]).unwrap();
    let second = SourceImage::new(1, 1, vec![0, 0, 255, 255]).unwrap();
    let made = gif().use_ffmpeg(true, DIAGNOSTICS, &vec![first.clone(), second.clone()]).unwrap();
    assert_eq!(
        made.frames,
        vec![img_to_ascii_color(&first, 4, 8, &CONFIG), img_to_ascii_color(&second, 4, 8, &CONFIG)]
    );
    assert_eq!(made.interval, 100);
    assert_eq!(made.record, Some(gif().save_cache(&made.frames, 100)));
    assert_eq!(gif().from_json(&made.record.unwrap()).unwrap(), (made.frames, 100));
}

#[test]
fn extraction_without_frames_has_no_record() {
    let made = gif().use_ffmpeg(true, DIAGNOSTICS, &vec![]).unwrap();
    assert!(made.frames.is_empty());
    assert_eq!(made.interval, 100);
    assert_eq!(made.record, None);
}

#[test]
fn failed_run_fails_the_extraction() {
    let frame = SourceImage::new(1, 1, vec![255, 0, 0, 255]).unwrap();
    assert_eq!(
        gif().use_ffmpeg(false, DIAGNOSTICS, &vec![frame.clone()]).unwrap_err(),
        RenderError::ExternalTool
    );
    assert_eq!(
        gif().use_ffmpeg(true, "frame=1", &vec![frame]).unwrap_err(),
        RenderError::ExternalTool
    );
    let bad = SourceImage { width: 1, height: 1, rgba: vec![] };
    assert_eq!(
        gif().use_ffmpeg(false, DIAGNOSTICS, &vec![bad]).unwrap_err(),
        RenderError::ExternalTool
    );
}
