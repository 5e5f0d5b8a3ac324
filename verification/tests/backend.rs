use whisper_backend::greet;
use whisper_backend::locate::tool_path;
use whisper_backend::model::body_error;
use whisper_backend::model::check_model_installed;
use whisper_backend::model::create_dir_error;
use whisper_backend::model::download_status_check;
use whisper_backend::model::model_url;
use whisper_backend::model::models_dir_path;
use whisper_backend::model::network_error;
use whisper_backend::model::resolve_model_path;
use whisper_backend::model::write_error;
use whisper_backend::report::TranscriptionResult;

#[test]
fn greet_formats_the_name() {
    assert_eq!(greet("Anna"), "Hello, Anna! You've been greeted from Rust!");
}

#[test]
fn greet_with_empty_name() {
    assert_eq!(greet(""), "Hello, ! You've been greeted from Rust!");
}

#[test]
fn model_url_is_fixed() {
    assert_eq!(
        model_url(),
        "https://huggingface.co/ggerganov/whisper.cpp/resolve/main/ggml-tiny.bin"
    );
}

#[test]
fn model_path_is_resolved_below_app_data() {
    assert_eq!(
        resolve_model_path("/home/user/.local/share/app"),
        "/home/user/.local/share/app/models/ggml-tiny.bin"
    );
}

#[test]
fn model_status_when_absent() {
    let status = check_model_installed("/data", false);
    assert!(!status.installed);
    assert_eq!(status.path, None);
}

#[test]
fn model_status_when_present() {
    let status = check_model_installed("/data", true);
    assert!(status.installed);
    assert_eq!(status.path.as_deref(), Some("/data/models/ggml-tiny.bin"));
}

#[test]
fn download_accepts_success_statuses() {
    assert!(download_status_check(200).is_ok());
    assert!(download_status_check(204).is_ok());
    assert!(download_status_check(299).is_ok());
}

#[test]
fn download_rejects_not_found() {
    let err = download_status_check(404).unwrap_err();
    assert_eq!(err, "Ошибка при скачивании модели: HTTP 404");
}

#[test]
fn download_rejects_other_failures() {
    assert!(download_status_check(199).is_err());
    assert!(download_status_check(300).is_err());
    assert!(download_status_check(500).is_err());
}

#[test]
fn models_dir_is_below_app_data() {
    assert_eq!(models_dir_path("/data"), "/data/models");
}

#[test]
fn tool_path_names_the_bundled_directory() {
    assert_eq!(tool_path("/res", false), "/res/whisher/whisper-cli");
    assert_eq!(tool_path("/res", true), "/res/whisher/whisper-cli.exe");
}

#[test]
fn download_failure_reports_embed_the_cause() {
    assert_eq!(
        create_dir_error("denied"),
        "Не удалось создать директорию для моделей: denied"
    );
    assert_eq!(network_error("timeout"), "Не удалось скачать модель: timeout");
    assert_eq!(body_error("reset"), "Не удалось прочитать данные: reset");
    assert_eq!(write_error("disk full"), "Не удалось сохранить модель: disk full");
}

#[test]
fn result_constructors_keep_the_invariant() {
    let ok = TranscriptionResult::ok(String::from("hello"));
    assert!(ok.success);
    assert_eq!(ok.text, "hello");
    assert_eq!(ok.error, None);

    let bad = TranscriptionResult::failure(String::from("boom"));
    assert!(!bad.success);
    assert_eq!(bad.text, "");
    assert_eq!(bad.error.as_deref(), Some("boom"));
}
