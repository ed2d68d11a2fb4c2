use video_convert::invoker::ToolOutcome;
use video_convert::invoker::conversion_arguments;
use video_convert::invoker::conversion_precheck;
use video_convert::invoker::interpret_conversion;
use video_convert::invoker::not_installed_message;
use video_convert::invoker::plan_conversion;
use video_convert::invoker::probe_argument;
use video_convert::invoker::probe_available;
use video_convert::invoker::tool_name;
use video_convert::paths::derive_output_path;
use video_convert::paths::replace_all_str;

const NOT_INSTALLED: &str = "FFmpeg is not installed. Please install FFmpeg first.";

fn completed(exit_success: bool, stderr: &str) -> ToolOutcome {
    ToolOutcome::Completed { exit_success, stderr: stderr.to_string() }
}

fn launch_failed(detail: &str) -> ToolOutcome {
    ToolOutcome::LaunchFailed { detail: detail.to_string() }
}

#[test]
fn derives_destination_for_webm_input() {
    assert_eq!(derive_output_path("clip.webm", "mp4"), "clip.mp4");
}

#[test]
fn derives_destination_in_a_directory() {
    assert_eq!(derive_output_path("/videos/take one.webm", "mkv"), "/videos/take one.mkv");
}

#[test]
fn leaves_path_without_token_unchanged() {
    // The destination then aliases the source path: the recorded hazard.
    assert_eq!(derive_output_path("clip.mov", "mp4"), "clip.mov");
}

#[test]
fn leaves_empty_path_unchanged() {
    assert_eq!(derive_output_path("", "mp4"), "");
}

#[test]
fn rewrites_bare_token() {
    assert_eq!(derive_output_path(".webm", "mp4"), ".mp4");
}

#[test]
fn rewrites_every_occurrence_of_the_token() {
    assert_eq!(derive_output_path("a.webm/b.webm", "mp4"), "a.mp4/b.mp4");
}

#[test]
fn derivation_agrees_with_std_replace() {
    let cases = ["clip.webm", "clip.mov", "", ".webm.webm", "x.webmy", "nested/.webm/clip.webm"];
    for input in cases {
        for format in ["mp4", "webm", ""] {
            let expected = input.replace(".webm", &format!(".{}", format));
            assert_eq!(derive_output_path(input, format), expected);
        }
    }
}

#[test]
fn replace_handles_adjacent_matches_like_std() {
    let cases = [("aaa", "aa", "b"), ("abcabc", "abc", ""), ("waaw", "aa", "aaaa"), ("ab", "abc", "x")];
    for (s, pat, to) in cases {
        assert_eq!(replace_all_str(s, pat, to), s.replace(pat, to));
    }
}

#[test]
fn probe_reports_available_only_on_successful_exit() {
    assert!(probe_available(&completed(true, "")));
    assert!(!probe_available(&completed(false, "")));
    assert!(!probe_available(&launch_failed("No such file or directory")));
}

#[test]
fn precheck_refuses_unlaunchable_tool_with_fixed_message() {
    let r = conversion_precheck(&launch_failed("No such file or directory"));
    assert_eq!(r, Err(NOT_INSTALLED.to_string()));
    assert_eq!(not_installed_message(), NOT_INSTALLED);
}

#[test]
fn precheck_passes_any_completed_version_query() {
    assert_eq!(conversion_precheck(&completed(true, "")), Ok(()));
    // Only launchability is checked: a failing version query still passes.
    assert_eq!(conversion_precheck(&completed(false, "odd")), Ok(()));
}

#[test]
fn plan_refuses_when_tool_is_absent_whatever_the_request() {
    for (input, format) in [("clip.webm", "mp4"), ("other.mov", "avi"), ("", "")] {
        let r = plan_conversion(input, format, &launch_failed("permission denied"));
        assert_eq!(r, Err(NOT_INSTALLED.to_string()));
    }
}

#[test]
fn plan_hands_back_derived_destination_when_tool_answers() {
    let r = plan_conversion("clip.webm", "mp4", &completed(true, ""));
    assert_eq!(r, Ok("clip.mp4".to_string()));
}

#[test]
fn successful_run_yields_destination_path() {
    let r = interpret_conversion("clip.mp4".to_string(), &completed(true, ""));
    assert_eq!(r, Ok("clip.mp4".to_string()));
}

#[test]
fn failed_run_yields_tool_diagnostic() {
    let stderr = "clip.webm: No such file or directory";
    let r = interpret_conversion("clip.mp4".to_string(), &completed(false, stderr));
    let message = r.unwrap_err();
    assert_eq!(message, format!("FFmpeg conversion failed: {}", stderr));
    assert!(!message.is_empty());
}

#[test]
fn unlaunchable_run_yields_launch_diagnostic() {
    let r = interpret_conversion("clip.mp4".to_string(), &launch_failed("permission denied"));
    assert_eq!(r, Err("Failed to execute FFmpeg: permission denied".to_string()));
}

#[test]
fn tool_is_invoked_by_name_with_version_probe() {
    assert_eq!(tool_name(), "ffmpeg");
    assert_eq!(probe_argument(), "-version");
}

#[test]
fn conversion_arguments_are_the_fixed_list() {
    let args = conversion_arguments("clip.webm", "clip.mp4");
    let expected = [
        "-i", "clip.webm", "-c:v", "libx264", "-preset", "medium", "-crf", "23", "-c:a", "aac",
        "-b:a", "192k", "-y", "clip.mp4",
    ];
    assert_eq!(args.len(), expected.len());
    for (got, want) in args.iter().zip(expected.iter()) {
        assert_eq!(got, want);
    }
}
