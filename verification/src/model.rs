//! Model provisioning decisions: where the recognition model lives, whether
//! it is installed, and whether a download attempt succeeded.
//!
//! The filesystem and the network stay outside the library. Callers hand in
//! the application-data directory and plain observations (does the file
//! exist, which HTTP status came back); the library returns the decisions.

use vstd::prelude::*;

use crate::numbers::decimal_of;
use crate::numbers::u64_to_decimal;
use crate::report::ModelStatus;

verus! {

/// The path of the model file below the application-data directory.
pub open spec fn model_subpath() -> Seq<char> {
    "/models/ggml-tiny.bin"@
}

/// The model file's full path for a given application-data directory.
pub open spec fn model_path_of(app_data_dir: Seq<char>) -> Seq<char> {
    app_data_dir + model_subpath()
}

/// An HTTP status in the success class.
pub open spec fn http_success(status: u16) -> bool {
    200 <= status < 300
}

/// The fixed location the model blob is fetched from.
pub fn model_url() -> (r: String)
    ensures
        r@ == "https://huggingface.co/ggerganov/whisper.cpp/resolve/main/ggml-tiny.bin"@,
{
    String::from_str("https://huggingface.co/ggerganov/whisper.cpp/resolve/main/ggml-tiny.bin")
}

/// Resolves the model file's path below the application-data directory.
/// A pure function of its argument; the filesystem is not touched.
pub fn resolve_model_path(app_data_dir: &str) -> (r: String)
    ensures
        r@ == model_path_of(app_data_dir@),
{
    let mut s = String::from_str(app_data_dir);
    s.append("/models/ggml-tiny.bin");
    s
}

/// The directory the model file is downloaded into; created (idempotently)
/// before a download.
pub fn models_dir_path(app_data_dir: &str) -> (r: String)
    ensures
        r@ == app_data_dir@ + "/models"@,
{
    let mut s = String::from_str(app_data_dir);
    s.append("/models");
    s
}

/// The error text when the models directory could not be created.
pub open spec fn create_dir_error_message(os_error: Seq<char>) -> Seq<char> {
    "Не удалось создать директорию для моделей: "@ + os_error
}

/// The error text when the download request itself failed.
pub open spec fn network_error_message(os_error: Seq<char>) -> Seq<char> {
    "Не удалось скачать модель: "@ + os_error
}

/// The error text when the response body could not be read.
pub open spec fn body_error_message(os_error: Seq<char>) -> Seq<char> {
    "Не удалось прочитать данные: "@ + os_error
}

/// The error text when the downloaded bytes could not be written.
pub open spec fn write_error_message(os_error: Seq<char>) -> Seq<char> {
    "Не удалось сохранить модель: "@ + os_error
}

/// The download-failure report for a directory that could not be created.
pub fn create_dir_error(os_error: &str) -> (r: String)
    ensures
        r@ == create_dir_error_message(os_error@),
{
    let mut m = String::from_str("Не удалось создать директорию для моделей: ");
    m.append(os_error);
    m
}

/// The download-failure report for a request that never got an answer.
pub fn network_error(os_error: &str) -> (r: String)
    ensures
        r@ == network_error_message(os_error@),
{
    let mut m = String::from_str("Не удалось скачать модель: ");
    m.append(os_error);
    m
}

/// The download-failure report for a body that could not be read.
pub fn body_error(os_error: &str) -> (r: String)
    ensures
        r@ == body_error_message(os_error@),
{
    let mut m = String::from_str("Не удалось прочитать данные: ");
    m.append(os_error);
    m
}

/// The download-failure report for bytes that could not be written.
pub fn write_error(os_error: &str) -> (r: String)
    ensures
        r@ == write_error_message(os_error@),
{
    let mut m = String::from_str("Не удалось сохранить модель: ");
    m.append(os_error);
    m
}

/// Builds the install-status record from the resolved path and the observed
/// presence of the model file. The path is reported exactly when the file
/// is present, and is then the resolved model path, never empty.
pub fn check_model_installed(app_data_dir: &str, model_file_exists: bool) -> (r: ModelStatus)
    ensures
        r.wf(),
        r.installed == model_file_exists,
        model_file_exists ==> (r.path matches Some(p) && p@ == model_path_of(app_data_dir@)
            && p@.len() > 0),
        !model_file_exists ==> r.path is None,
{
    proof {
        reveal_strlit("/models/ggml-tiny.bin");
    }
    if model_file_exists {
        ModelStatus { installed: true, path: Some(resolve_model_path(app_data_dir)) }
    } else {
        ModelStatus { installed: false, path: None }
    }
}

/// The error text reported for a download answered with a non-success
/// HTTP status.
pub open spec fn download_status_error(status: u16) -> Seq<char> {
    "Ошибка при скачивании модели: HTTP "@ + decimal_of(status as nat)
}

/// Judges the HTTP status of a model download. The model file may be
/// written only on an `Ok` answer, so a non-success status never creates
/// or overwrites the model file.
pub fn download_status_check(status: u16) -> (r: Result<(), String>)
    ensures
        r is Ok <==> http_success(status),
        r matches Err(m) ==> m@ == download_status_error(status),
{
    if 200 <= status && status < 300 {
        Ok(())
    } else {
        let mut m = String::from_str("Ошибка при скачивании модели: HTTP ");
        let d = u64_to_decimal(status as u64);
        m.append(d.as_str());
        Err(m)
    }
}

} // verus!
