use whisper_backend::filter::filter_stdout;
use whisper_backend::filter::line_is_dropped;
use whisper_backend::text::trim_str;

#[test]
fn trim_removes_surrounding_whitespace() {
    assert_eq!(trim_str("  hello \t\r\n"), "hello");
    assert_eq!(trim_str("hello"), "hello");
    assert_eq!(trim_str(""), "");
    assert_eq!(trim_str(" \t "), "");
    assert_eq!(trim_str("a b"), "a b");
}

#[test]
fn banner_and_placeholder_lines_are_dropped() {
    assert!(line_is_dropped(""));
    assert!(line_is_dropped("[BLANK_AUDIO]"));
    assert!(line_is_dropped("whisper_init_from_file: loading model"));
    assert!(line_is_dropped("system_info: n_threads = 4"));
    assert!(line_is_dropped("main: processing audio"));
    assert!(line_is_dropped("total time = 1000 ms"));
    assert!(line_is_dropped("whisper_print_timings: load time = 12 ms"));
    assert!(line_is_dropped("fallbacks = 0 p / 0 h"));
}

#[test]
fn speech_lines_are_kept() {
    assert!(!line_is_dropped("Hello world"));
    assert!(!line_is_dropped("Привет, мир"));
    assert!(!line_is_dropped("[00:00:00.000 --> 00:00:02.000] hi"));
}

#[test]
fn filter_keeps_only_the_speech_line() {
    let captured = "whisper_init: loading\nHello world\n[BLANK_AUDIO]\nmain: processing done\n";
    assert_eq!(filter_stdout(captured), "Hello world");
}

#[test]
fn filter_joins_surviving_lines_with_newlines() {
    let captured = "whisper_model_load: ok\n  first line  \n\nsecond line\nsample time = 3 ms\n";
    assert_eq!(filter_stdout(captured), "first line\nsecond line");
}

#[test]
fn filter_of_pure_chatter_is_empty() {
    let captured = "whisper_init: a\nsystem_info: b\n[BLANK_AUDIO]\n   \n";
    assert_eq!(filter_stdout(captured), "");
    assert_eq!(filter_stdout(""), "");
}
