use media_report::filter::should_inspect;
use media_report::mime::has_av_mime;
use media_report::report::{
    assemble_report, collect_successes, micros_to_span, summary_block, ProbeData,
};

#[test]
fn filter_excludes_directories_and_nfo_files() {
    assert!(!should_inspect(true, "season1"));
    assert!(!should_inspect(true, "notes.nfo"));
    assert!(!should_inspect(false, "readme.nfo"));
    assert!(!should_inspect(false, ".nfo"));
    assert!(should_inspect(false, "movie.mkv"));
    assert!(should_inspect(false, "track.mp3"));
    assert!(should_inspect(false, "nfo"));
    assert!(should_inspect(false, ""));
    assert!(should_inspect(false, "info"));
}

#[test]
fn filter_is_idempotent() {
    let entries = [
        (false, "movie.mkv"),
        (false, "readme.nfo"),
        (true, "season1"),
        (false, ""),
    ];
    for (is_dir, name) in entries {
        let first = should_inspect(is_dir, name);
        let second = should_inspect(is_dir, name);
        assert_eq!(first, second);
    }
}

#[test]
fn mime_check_recognizes_audio_and_video() {
    assert!(has_av_mime(&vec![String::from("audio/mpeg")]));
    assert!(has_av_mime(&vec![
        String::from("text/plain"),
        String::from("video/mp4")
    ]));
    assert!(!has_av_mime(&vec![String::from("text/plain")]));
    assert!(!has_av_mime(&vec![String::from("application/audio")]));
    assert!(!has_av_mime(&Vec::new()));
}

#[test]
fn micros_conversion_matches_duration_semantics() {
    assert_eq!(micros_to_span(91_000_000), (91, 0));
    assert_eq!(micros_to_span(1_500_000), (1, 500_000_000));
    // An unknown (negative) duration degrades to the zero span.
    assert_eq!(micros_to_span(-1), (0, 0));
    assert_eq!(micros_to_span(0), (0, 0));
}

#[test]
fn summary_block_layout() {
    let data = ProbeData {
        file_name: String::from("clips/movie.mkv"),
        duration_micros: 3_600_000_000,
        bit_rate: 2_500_000,
        video_rate: Some(String::from("25")),
        audio_rate: Some(String::from("44100")),
    };
    let block = summary_block(&data);
    assert_eq!(
        block,
        "clips/movie.mkv\n\tDuration: 01:00:00\n\tBit rate: 2.50 MB/s\n\tVideo: 25 kb/s\n\tAudio: 44100 kb/s"
    );
}

#[test]
fn summary_block_without_streams_keeps_trailing_indent() {
    let data = ProbeData {
        file_name: String::from("odd.bin"),
        duration_micros: 0,
        bit_rate: 0,
        video_rate: None,
        audio_rate: None,
    };
    assert_eq!(summary_block(&data), "odd.bin\n\tDuration: 00:00\n\tBit rate: 0 B/s\n\t");
}

#[test]
fn probe_failure_is_isolated() {
    // One unparsable file among three valid ones: the report holds exactly
    // three blocks and the failure aborts nothing.
    let outcomes = vec![
        Some(String::from("a\n\tDuration: 00:01\n\tBit rate: 10 B/s\n\t")),
        None,
        Some(String::from("b\n\tDuration: 00:02\n\tBit rate: 20 B/s\n\t")),
        Some(String::from("c\n\tDuration: 00:03\n\tBit rate: 30 B/s\n\t")),
    ];
    let blocks = collect_successes(&outcomes);
    assert_eq!(blocks.len(), 3);
    let report = assemble_report(&outcomes);
    assert_eq!(report.matches("Duration:").count(), 3);
    assert!(!report.contains("00:00"));
}

#[test]
fn aggregation_keeps_every_success_in_order() {
    let outcomes = vec![
        None,
        Some(String::from("first")),
        Some(String::from("second")),
        None,
        Some(String::from("third")),
    ];
    let blocks = collect_successes(&outcomes);
    assert_eq!(blocks, vec!["first", "second", "third"]);
    assert_eq!(assemble_report(&outcomes), "first\nsecond\nthird");
}

#[test]
fn empty_candidate_set_yields_empty_report() {
    let outcomes: Vec<Option<String>> = Vec::new();
    assert_eq!(assemble_report(&outcomes), "");
}

#[test]
fn end_to_end_scenario() {
    // A directory holding one valid mp3-like container (91 s, 12,000 bits/s)
    // and one sidecar file: only the container is probed, and its block
    // carries the expected duration and bit-rate lines.
    let entries = [(false, "song.mp3"), (false, "readme.nfo")];
    let mut outcomes: Vec<Option<String>> = Vec::new();
    for (is_dir, name) in entries {
        if should_inspect(is_dir, name) {
            let data = ProbeData {
                file_name: String::from(name),
                duration_micros: 91_000_000,
                bit_rate: 12_000,
                video_rate: None,
                audio_rate: Some(String::from("44100")),
            };
            outcomes.push(Some(summary_block(&data)));
        }
    }
    let blocks = collect_successes(&outcomes);
    assert_eq!(blocks.len(), 1);
    let report = assemble_report(&outcomes);
    assert!(report.contains("song.mp3"));
    assert!(report.contains("Duration: 01:31"));
    assert!(report.contains("Bit rate: 12.00 KB/s"));
    assert!(!report.contains("readme.nfo"));
}
