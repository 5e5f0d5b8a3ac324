use whisper_backend::locate::cli_binary_name;
use whisper_backend::locate::locate_whisper_cli;
use whisper_backend::numbers::u64_to_decimal;
use whisper_backend::transcribe::build_whisper_args;
use whisper_backend::transcribe::output_base_path;
use whisper_backend::transcribe::recover_transcription;
use whisper_backend::transcribe::sidecar_text_path;
use whisper_backend::transcribe::spawn_failure_result;
use whisper_backend::transcribe::transcribe_preflight;

#[test]
fn decimal_rendering_is_exact() {
    assert_eq!(u64_to_decimal(0), "0");
    assert_eq!(u64_to_decimal(7), "7");
    assert_eq!(u64_to_decimal(42), "42");
    assert_eq!(u64_to_decimal(1700000000), "1700000000");
    assert_eq!(u64_to_decimal(u64::MAX), "18446744073709551615");
}

#[test]
fn output_base_carries_the_timestamp() {
    assert_eq!(output_base_path("/tmp", 1700000001), "/tmp/whisper_output_1700000001");
    assert_eq!(sidecar_text_path("/tmp/whisper_output_1700000001"), "/tmp/whisper_output_1700000001.txt");
}

#[test]
fn distinct_timestamps_give_distinct_output_bases() {
    let a = output_base_path("/tmp", 1700000001);
    let b = output_base_path("/tmp", 1700000002);
    assert_ne!(a, b);
}

#[test]
fn binary_name_follows_the_platform() {
    assert_eq!(cli_binary_name(true), "whisper-cli.exe");
    assert_eq!(cli_binary_name(false), "whisper-cli");
}

#[test]
fn locator_prefers_the_development_directory() {
    let p = locate_whisper_cli(true, false, "/proj", "/res", true, None, None);
    assert_eq!(p, "/proj/whisher/whisper-cli");
    let p = locate_whisper_cli(true, true, "/proj", "/res", false, None, None);
    assert_eq!(p, "/proj/whisher/whisper-cli.exe");
}

#[test]
fn locator_uses_resources_when_packaged() {
    let p = locate_whisper_cli(false, true, "/proj", "/res", false, None, None);
    assert_eq!(p, "/res/whisher/whisper-cli.exe");
    let p = locate_whisper_cli(false, false, "/proj", "/res", true, None, None);
    assert_eq!(p, "/res/whisher/whisper-cli");
}

#[test]
fn locator_falls_back_to_path_search_then_bare_name() {
    let p = locate_whisper_cli(
        false,
        false,
        "/proj",
        "/res",
        false,
        Some(String::from("/usr/bin/main")),
        Some(String::from("/usr/bin/whisper-cli")),
    );
    assert_eq!(p, "/usr/bin/main");
    let p = locate_whisper_cli(
        false,
        false,
        "/proj",
        "/res",
        false,
        None,
        Some(String::from("/usr/bin/whisper-cli")),
    );
    assert_eq!(p, "/usr/bin/whisper-cli");
    let p = locate_whisper_cli(false, false, "/proj", "/res", false, None, None);
    assert_eq!(p, "main");
}

#[test]
fn argument_template_is_fixed() {
    let args = build_whisper_args("/a.wav", "/m.bin", "/tmp/whisper_output_5");
    let want = vec![
        "-f", "/a.wav", "-m", "/m.bin", "-l", "ru", "-t", "4", "-otxt", "-of",
        "/tmp/whisper_output_5", "-pp",
    ];
    assert_eq!(args, want);
}

#[test]
fn missing_audio_fails_before_anything_runs() {
    let r = transcribe_preflight(false, true, true, "/cli").unwrap();
    assert!(!r.success);
    assert_eq!(r.text, "");
    assert_eq!(r.error.as_deref(), Some("Файл не найден"));
}

#[test]
fn missing_model_fails_before_anything_runs() {
    let r = transcribe_preflight(true, false, true, "/cli").unwrap();
    assert!(!r.success);
    assert_eq!(
        r.error.as_deref(),
        Some("Модель не установлена. Пожалуйста, установите модель.")
    );
}

#[test]
fn missing_binary_names_the_path() {
    let r = transcribe_preflight(true, true, false, "/opt/whisper-cli").unwrap();
    assert!(!r.success);
    assert_eq!(
        r.error.as_deref(),
        Some("Whisper CLI не найден по пути: \"/opt/whisper-cli\"")
    );
}

#[test]
fn preflight_passes_when_everything_is_present() {
    assert!(transcribe_preflight(true, true, true, "/cli").is_none());
}

#[test]
fn spawn_failure_embeds_the_os_error() {
    let r = spawn_failure_result("permission denied");
    assert!(!r.success);
    assert_eq!(r.text, "");
    assert_eq!(
        r.error.as_deref(),
        Some("Не удалось запустить Whisper CLI: permission denied")
    );
}

#[test]
fn sidecar_text_wins_even_after_a_bad_exit() {
    let r = recover_transcription(Some("  Привет из файла  \n"), "", "junk", "boom", false);
    assert!(r.success);
    assert_eq!(r.text, "Привет из файла");
    assert_eq!(r.error, None);
}

#[test]
fn clean_exit_with_empty_sidecar_succeeds_with_empty_text() {
    let r = recover_transcription(Some("   "), "", "", "", true);
    assert!(r.success);
    assert_eq!(r.text, "");
}

#[test]
fn bad_exit_with_empty_sidecar_reports_stderr() {
    let r = recover_transcription(Some(""), "", "", "model load failed", false);
    assert!(!r.success);
    assert_eq!(r.text, "");
    assert_eq!(
        r.error.as_deref(),
        Some("Whisper завершился с ошибкой. STDERR: model load failed")
    );
}

#[test]
fn filtered_output_is_the_fallback() {
    let stdout = "whisper_init: x\nHello world\n";
    let r = recover_transcription(None, "no such file", stdout, "", false);
    assert!(r.success);
    assert_eq!(r.text, "Hello world");
}

#[test]
fn unreadable_sidecar_and_empty_filter_embed_the_read_error() {
    let stdout = "whisper_init: x\n[BLANK_AUDIO]\n";
    let r = recover_transcription(None, "no such file", stdout, "warn", true);
    assert!(!r.success);
    assert_eq!(r.text, "");
    assert_eq!(
        r.error.as_deref(),
        Some(
            "Не удалось прочитать результат из файла: no such file. \
             STDERR: warn. STDOUT: whisper_init: x\n[BLANK_AUDIO]\n"
        )
    );
}
