//! Interpretation of runs of the external transcoder.
//!
//! The conversion feature shells out to an external tool.  This module owns
//! everything about that invocation except the spawning itself: the name of
//! the tool, the fixed argument lists, and the mapping from what happened to
//! the spawned process to the result handed back to the caller.  The caller
//! runs the process and reports what happened as a [`ToolOutcome`].

use vstd::prelude::*;

use crate::paths::derive_output_path;
use crate::paths::derived_output_path;

verus! {

/// What became of one attempt to run the external tool: either the process
/// ran to completion, with its exit status and captured error stream, or it
/// could not be launched at all, with a description of the launch error.
#[derive(Debug)]
pub enum ToolOutcome {
    /// The process was launched and waited for.
    Completed {
        /// Whether the process exited reporting success.
        exit_success: bool,
        /// The text the process wrote to its error stream, decoded lossily.
        stderr: String,
    },
    /// The process could not be launched at all.
    LaunchFailed {
        /// A description of the launch error.
        detail: String,
    },
}

/// The name under which the external tool is looked up.
pub open spec fn tool_text() -> Seq<char> {
    "ffmpeg"@
}

/// The fixed diagnostic returned when the tool cannot be launched at all.
pub open spec fn not_installed_text() -> Seq<char> {
    "FFmpeg is not installed. Please install FFmpeg first."@
}

/// The prefix of the diagnostic for a run that completed but failed.
pub open spec fn run_failure_prefix() -> Seq<char> {
    "FFmpeg conversion failed: "@
}

/// The prefix of the diagnostic for a conversion run that could not launch.
pub open spec fn launch_failure_prefix() -> Seq<char> {
    "Failed to execute FFmpeg: "@
}

/// What the availability probe reports of an outcome: available exactly when
/// the process both launched and exited reporting success.
pub open spec fn probe_reports_available(o: ToolOutcome) -> bool {
    match o {
        ToolOutcome::Completed { exit_success, stderr } => exit_success,
        ToolOutcome::LaunchFailed { detail } => false,
    }
}

/// What the pre-check before a conversion decides from the outcome of the
/// version query: refused with the fixed diagnostic when the tool could not
/// be launched, passed otherwise (even when the query exited with failure).
pub open spec fn precheck_text(o: ToolOutcome) -> Result<(), Seq<char>> {
    match o {
        ToolOutcome::Completed { exit_success, stderr } => Ok(()),
        ToolOutcome::LaunchFailed { detail } => Err(not_installed_text()),
    }
}

/// What a conversion returns once the tool was run: the destination path on
/// a successful exit, and otherwise a diagnostic built from the error stream
/// or from the launch error.
pub open spec fn conversion_outcome_text(out_path: Seq<char>, o: ToolOutcome) -> Result<
    Seq<char>,
    Seq<char>,
> {
    match o {
        ToolOutcome::Completed { exit_success, stderr } => if exit_success {
            Ok(out_path)
        } else {
            Err(run_failure_prefix() + stderr@)
        },
        ToolOutcome::LaunchFailed { detail } => Err(launch_failure_prefix() + detail@),
    }
}

/// The texts of a `Result` of strings.
pub open spec fn message_result_view(r: Result<String, String>) -> Result<Seq<char>, Seq<char>> {
    match r {
        Ok(s) => Ok(s@),
        Err(e) => Err(e@),
    }
}

/// The text of the error, if any, of a `Result` with no payload on success.
pub open spec fn unit_result_view(r: Result<(), String>) -> Result<(), Seq<char>> {
    match r {
        Ok(u) => Ok(u),
        Err(e) => Err(e@),
    }
}

/// Whether the outcome of the version query shows the tool available.
pub fn probe_available(outcome: &ToolOutcome) -> (r: bool)
    ensures
        r == probe_reports_available(*outcome),
{
    match outcome {
        ToolOutcome::Completed { exit_success, stderr: _ } => *exit_success,
        ToolOutcome::LaunchFailed { detail: _ } => false,
    }
}

/// The fixed diagnostic for an absent tool.
pub fn not_installed_message() -> (r: String)
    ensures
        r@ == not_installed_text(),
{
    String::from_str("FFmpeg is not installed. Please install FFmpeg first.")
}

/// Decides, from the outcome of the version query, whether a conversion may
/// go ahead: an unlaunchable tool is refused with the fixed diagnostic.
pub fn conversion_precheck(outcome: &ToolOutcome) -> (r: Result<(), String>)
    ensures
        unit_result_view(r) == precheck_text(*outcome),
{
    match outcome {
        ToolOutcome::Completed { exit_success: _, stderr: _ } => Ok(()),
        ToolOutcome::LaunchFailed { detail: _ } => Err(not_installed_message()),
    }
}

/// Maps the outcome of the conversion run to the caller's result: the
/// destination path on success, a prefixed diagnostic on either failure.
pub fn interpret_conversion(output_path: String, outcome: &ToolOutcome) -> (r: Result<
    String,
    String,
>)
    ensures
        message_result_view(r) == conversion_outcome_text(output_path@, *outcome),
{
    match outcome {
        ToolOutcome::Completed { exit_success, stderr } => {
            if *exit_success {
                Ok(output_path)
            } else {
                let mut msg = String::from_str("FFmpeg conversion failed: ");
                msg.append(stderr.as_str());
                Err(msg)
            }
        },
        ToolOutcome::LaunchFailed { detail } => {
            let mut msg = String::from_str("Failed to execute FFmpeg: ");
            msg.append(detail.as_str());
            Err(msg)
        },
    }
}

/// The single argument of the availability probe: a version query.
pub open spec fn probe_argument_text() -> Seq<char> {
    "-version"@
}

/// The fixed argument list of a conversion run: the input file, the fixed
/// video codec, preset, quality factor, audio codec and audio bitrate, the
/// overwrite flag, and the destination path last.
pub open spec fn conversion_argument_texts(input: Seq<char>, output: Seq<char>) -> Seq<Seq<char>> {
    seq![
        "-i"@,
        input,
        "-c:v"@,
        "libx264"@,
        "-preset"@,
        "medium"@,
        "-crf"@,
        "23"@,
        "-c:a"@,
        "aac"@,
        "-b:a"@,
        "192k"@,
        "-y"@,
        output,
    ]
}

/// The name under which the external tool is looked up on the search path.
pub fn tool_name() -> (r: String)
    ensures
        r@ == tool_text(),
{
    String::from_str("ffmpeg")
}

/// The argument handed to the tool to probe its availability.
pub fn probe_argument() -> (r: String)
    ensures
        r@ == probe_argument_text(),
{
    String::from_str("-version")
}

/// The arguments of a conversion run of the tool, in order.
pub fn conversion_arguments(input_path: &str, output_path: &str) -> (r: Vec<String>)
    ensures
        r@.map_values(|a: String| a@) == conversion_argument_texts(input_path@, output_path@),
{
    let mut args: Vec<String> = Vec::new();
    args.push(String::from_str("-i"));
    args.push(String::from_str(input_path));
    args.push(String::from_str("-c:v"));
    args.push(String::from_str("libx264"));
    args.push(String::from_str("-preset"));
    args.push(String::from_str("medium"));
    args.push(String::from_str("-crf"));
    args.push(String::from_str("23"));
    args.push(String::from_str("-c:a"));
    args.push(String::from_str("aac"));
    args.push(String::from_str("-b:a"));
    args.push(String::from_str("192k"));
    args.push(String::from_str("-y"));
    args.push(String::from_str(output_path));
    proof {
        assert(args@.map_values(|a: String| a@) =~~= conversion_argument_texts(
            input_path@,
            output_path@,
        ));
    }
    args
}

/// What the first half of a conversion decides, before the tool is run for
/// real: the destination path to convert to, or the fixed diagnostic when
/// the version query could not launch.
pub open spec fn plan_text(input: Seq<char>, format: Seq<char>, probe: ToolOutcome) -> Result<
    Seq<char>,
    Seq<char>,
> {
    match precheck_text(probe) {
        Ok(u) => Ok(derived_output_path(input, format)),
        Err(e) => Err(e),
    }
}

/// Decides how a conversion of `input_path` to `output_format` goes on after
/// the version query: hands back the derived destination path for the tool
/// to write to, or refuses with the fixed diagnostic when the query could
/// not launch.
pub fn plan_conversion(input_path: &str, output_format: &str, probe_outcome: &ToolOutcome) -> (r:
    Result<String, String>)
    ensures
        message_result_view(r) == plan_text(input_path@, output_format@, *probe_outcome),
{
    match conversion_precheck(probe_outcome) {
        Ok(u) => Ok(derive_output_path(input_path, output_format)),
        Err(e) => Err(e),
    }
}

/// With the tool absent - its process cannot be launched - the probe reports
/// unavailable and the pre-check refuses with the fixed diagnostic, whatever
/// the request was.
pub proof fn lemma_tool_absent(input: Seq<char>, format: Seq<char>, detail: String)
    ensures
        !probe_reports_available(ToolOutcome::LaunchFailed { detail }),
        precheck_text(ToolOutcome::LaunchFailed { detail }) == Err::<(), Seq<char>>(
            not_installed_text(),
        ),
        plan_text(input, format, ToolOutcome::LaunchFailed { detail }) == Err::<
            Seq<char>,
            Seq<char>,
        >(not_installed_text()),
{
}

/// The probe reports the tool available exactly when its process launched
/// and exited reporting success; any other combination reads unavailable.
pub proof fn lemma_probe_exact(o: ToolOutcome)
    ensures
        probe_reports_available(o) <==> o == (ToolOutcome::Completed {
            exit_success: true,
            stderr: o->Completed_stderr,
        }),
{
}

/// A conversion run that completed without success is reported as a failure
/// whose diagnostic carries the tool's own error text after the fixed
/// prefix, and is never empty - never a silent success.
pub proof fn lemma_run_failure_reported(out_path: Seq<char>, stderr: String)
    ensures
        ({
            let r = conversion_outcome_text(
                out_path,
                ToolOutcome::Completed { exit_success: false, stderr },
            );
            &&& r is Err
            &&& r->Err_0 == run_failure_prefix() + stderr@
            &&& r->Err_0.len() > 0
        }),
{
    reveal_strlit("FFmpeg conversion failed: ");
}

} // verus!
