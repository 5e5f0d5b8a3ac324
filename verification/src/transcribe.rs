//! The transcription invocation: precondition checks, the child process's
//! argument list, the temporary output naming, and the recovery of the
//! recognized text from the process's artifacts.
//!
//! Spawning, waiting and file reading happen outside the library; every
//! decision around them stands here with an exact contract. Expected
//! failures (missing audio, missing model, missing binary, failed spawn,
//! unusable output) are reported as unsuccessful result records, never as
//! panics.

use vstd::prelude::*;

use crate::filter::filter_stdout;
use crate::filter::filtered_stdout;
use crate::numbers::decimal_of;
use crate::numbers::lemma_decimal_injective;
use crate::numbers::u64_to_decimal;
use crate::report::TranscriptionResult;
use crate::text::trim_of;
use crate::text::trim_str;

verus! {

/// The error text for a transcription request whose audio file is absent.
pub open spec fn audio_missing_message() -> Seq<char> {
    "Файл не найден"@
}

/// The error text for a transcription request made before the model was
/// installed.
pub open spec fn model_missing_message() -> Seq<char> {
    "Модель не установлена. Пожалуйста, установите модель."@
}

/// The error text when the transcription binary is absent from the chosen
/// path; the path is shown in quotes.
pub open spec fn cli_missing_message(cli_path: Seq<char>) -> Seq<char> {
    "Whisper CLI не найден по пути: \""@ + cli_path + "\""@
}

/// The error text when the child process could not be spawned at all.
pub open spec fn spawn_failure_message(os_error: Seq<char>) -> Seq<char> {
    "Не удалось запустить Whisper CLI: "@ + os_error
}

/// The error text when neither the sidecar file nor the filtered output
/// yielded text; it embeds the read error and the captured streams.
pub open spec fn read_failure_message(
    read_error: Seq<char>,
    stderr: Seq<char>,
    stdout: Seq<char>,
) -> Seq<char> {
    "Не удалось прочитать результат из файла: "@ + read_error + ". STDERR: "@ + stderr
        + ". STDOUT: "@ + stdout
}

/// The error text when the process failed and no usable text was produced.
pub open spec fn exit_failure_message(stderr: Seq<char>) -> Seq<char> {
    "Whisper завершился с ошибкой. STDERR: "@ + stderr
}

/// The temporary output base for a call stamped with `secs`:
/// `<temp_dir>/whisper_output_<secs>`.
pub open spec fn output_base_of(temp_dir: Seq<char>, secs: nat) -> Seq<char> {
    temp_dir + "/whisper_output_"@ + decimal_of(secs)
}

/// Builds the temporary output base path for a call stamped with
/// `unix_seconds`.
pub fn output_base_path(temp_dir: &str, unix_seconds: u64) -> (r: String)
    ensures
        r@ == output_base_of(temp_dir@, unix_seconds as nat),
{
    let mut s = String::from_str(temp_dir);
    s.append("/whisper_output_");
    let d = u64_to_decimal(unix_seconds);
    s.append(d.as_str());
    s
}

/// The sidecar text file the external binary writes beside its run:
/// the output base plus a fixed extension.
pub fn sidecar_text_path(output_base: &str) -> (r: String)
    ensures
        r@ == output_base@ + ".txt"@,
{
    let mut s = String::from_str(output_base);
    s.append(".txt");
    s
}

/// Calls stamped with distinct timestamps use distinct output bases, so
/// their temporary files cannot collide. The stamp has one-second
/// resolution, so two calls within the same second are not told apart;
/// such a pair is outside this statement.
pub proof fn lemma_output_base_distinct(temp_dir: Seq<char>, s1: nat, s2: nat)
    requires
        s1 != s2,
    ensures
        output_base_of(temp_dir, s1) != output_base_of(temp_dir, s2),
{
    let p = temp_dir + "/whisper_output_"@;
    let d1 = decimal_of(s1);
    let d2 = decimal_of(s2);
    if output_base_of(temp_dir, s1) == output_base_of(temp_dir, s2) {
        assert((p + d1).len() == (p + d2).len());
        assert(d1.len() == d2.len());
        assert((p + d1).subrange(p.len() as int, (p + d1).len() as int) =~= d1);
        assert((p + d2).subrange(p.len() as int, (p + d2).len() as int) =~= d2);
        assert(d1 == d2);
        lemma_decimal_injective(s1, s2);
        assert(false);
    }
}

/// The fixed argument template handed to the transcription binary:
/// input file, model file, language, thread count, plain-text output,
/// output base, and the post-processing switch.
pub fn build_whisper_args(audio_path: &str, model_path: &str, output_base: &str) -> (args: Vec<
    String,
>)
    ensures
        args@.len() == 12,
        args@[0]@ == "-f"@,
        args@[1]@ == audio_path@,
        args@[2]@ == "-m"@,
        args@[3]@ == model_path@,
        args@[4]@ == "-l"@,
        args@[5]@ == "ru"@,
        args@[6]@ == "-t"@,
        args@[7]@ == "4"@,
        args@[8]@ == "-otxt"@,
        args@[9]@ == "-of"@,
        args@[10]@ == output_base@,
        args@[11]@ == "-pp"@,
{
    let mut args: Vec<String> = Vec::new();
    args.push(String::from_str("-f"));
    args.push(String::from_str(audio_path));
    args.push(String::from_str("-m"));
    args.push(String::from_str(model_path));
    args.push(String::from_str("-l"));
    args.push(String::from_str("ru"));
    args.push(String::from_str("-t"));
    args.push(String::from_str("4"));
    args.push(String::from_str("-otxt"));
    args.push(String::from_str("-of"));
    args.push(String::from_str(output_base));
    args.push(String::from_str("-pp"));
    args
}

/// Checks the three preconditions of a transcription request, in order:
/// the audio file, the model file, and the binary must be present. The
/// first absence short-circuits into a structured failure; when all three
/// hold, there is nothing to report and the invocation may proceed.
pub fn transcribe_preflight(
    audio_exists: bool,
    model_exists: bool,
    cli_exists: bool,
    cli_path: &str,
) -> (r: Option<TranscriptionResult>)
    ensures
        !audio_exists ==> (r matches Some(t) && t.error matches Some(m) && m@
            == audio_missing_message()),
        audio_exists && !model_exists ==> (r matches Some(t) && t.error matches Some(m) && m@
            == model_missing_message()),
        audio_exists && model_exists && !cli_exists ==> (r matches Some(t) && t.error matches Some(
            m,
        ) && m@ == cli_missing_message(cli_path@)),
        audio_exists && model_exists && cli_exists <==> r is None,
        r matches Some(t) ==> t.wf() && !t.success && t.text@.len() == 0,
{
    if !audio_exists {
        Some(TranscriptionResult::failure(String::from_str("Файл не найден")))
    } else if !model_exists {
        Some(
            TranscriptionResult::failure(
                String::from_str("Модель не установлена. Пожалуйста, установите модель."),
            ),
        )
    } else if !cli_exists {
        let mut m = String::from_str("Whisper CLI не найден по пути: \"");
        m.append(cli_path);
        m.append("\"");
        Some(TranscriptionResult::failure(m))
    } else {
        None
    }
}

/// The structured failure for a process that could not be spawned.
pub fn spawn_failure_result(os_error: &str) -> (r: TranscriptionResult)
    ensures
        r.wf(),
        !r.success,
        r.text@.len() == 0,
        r.error matches Some(m) && m@ == spawn_failure_message(os_error@),
{
    let mut m = String::from_str("Не удалось запустить Whisper CLI: ");
    m.append(os_error);
    TranscriptionResult::failure(m)
}

/// Recovers the transcription outcome from what the child process left
/// behind: the sidecar file's content when it could be read (trimmed), the
/// filtered captured output otherwise. The call counts as successful when
/// the process exited cleanly or usable text was recovered all the same;
/// with neither, the failure embeds the captured streams.
pub fn recover_transcription(
    sidecar: Option<&str>,
    read_error: &str,
    stdout: &str,
    stderr: &str,
    exit_success: bool,
) -> (r: TranscriptionResult)
    ensures
        r.wf(),
        (sidecar matches Some(content) ==> {
            let t = trim_of(content@);
            &&& (exit_success || t.len() > 0) ==> (r.success && r.text@ == t)
            &&& (!exit_success && t.len() == 0) ==> (r.error matches Some(m) && !r.success && m@
                == exit_failure_message(stderr@))
        }),
        (sidecar is None ==> {
            let f = filtered_stdout(stdout@);
            &&& f.len() > 0 ==> (r.success && r.text@ == f)
            &&& f.len() == 0 ==> (r.error matches Some(m) && !r.success && m@
                == read_failure_message(read_error@, stderr@, stdout@))
        }),
{
    match sidecar {
        Some(content) => {
            let text = trim_str(content);
            if exit_success || text.as_str().unicode_len() > 0 {
                TranscriptionResult::ok(text)
            } else {
                let mut m = String::from_str("Whisper завершился с ошибкой. STDERR: ");
                m.append(stderr);
                TranscriptionResult::failure(m)
            }
        },
        None => {
            let text = filter_stdout(stdout);
            if text.as_str().unicode_len() > 0 {
                TranscriptionResult::ok(text)
            } else {
                let mut m = String::from_str("Не удалось прочитать результат из файла: ");
                m.append(read_error);
                m.append(". STDERR: ");
                m.append(stderr);
                m.append(". STDOUT: ");
                m.append(stdout);
                TranscriptionResult::failure(m)
            }
        },
    }
}

} // verus!
