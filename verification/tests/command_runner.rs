use ffmpeg_cli::command::command_runner::{
    execution_result, get_supported_formats, get_system_specific_program_and_arg, ProcessOutcome,
    LIST_FORMATS_COMMAND,
};
use ffmpeg_cli::error::ProcessFailure;
use ffmpeg_cli::media::video_check::{has_valid_extension, SupportedFormatSet};

fn owned(lines: &[&str]) -> Vec<String> {
    lines.iter().map(|l| (*l).to_owned()).collect()
}

#[test]
fn formats_are_read_from_lines_with_a_capability_flag() {
    let formats = get_supported_formats(&owned(&[
        "DE  mp4  MP4 (MPEG-4 Part 14)",
        " D   foo short",
        "X   bar no-flag-match",
    ]));
    assert!(formats.contains("mp4"));
    assert!(formats.contains("foo"));
    assert!(!formats.contains("bar"));
    assert_eq!(2, formats.len());
}

#[test]
fn only_the_four_flags_count() {
    let formats = get_supported_formats(&owned(&[
        "D one",
        "E two",
        "DE three",
        "ED four",
        "d five",
        "DED six",
        "D. seven",
        ".E eight",
        "DEd nine",
        "-- ten",
        "x D eleven",
        "mp4 D twelve",
    ]));
    assert_eq!(4, formats.len());
    for token in ["one", "two", "three", "four"] {
        assert!(formats.contains(token), "{}", token);
    }
    for token in [
        "five", "six", "seven", "eight", "nine", "ten", "eleven", "twelve", "D", "E",
    ] {
        assert!(!formats.contains(token), "{}", token);
    }
}

#[test]
fn short_lines_are_skipped() {
    let formats = get_supported_formats(&owned(&["", "   ", "D", " DE ", "E\t", "File formats:"]));
    assert_eq!(0, formats.len());
    assert!(!formats.contains(""));
    assert!(!formats.contains("D"));
}

#[test]
fn a_format_named_twice_counts_once() {
    let formats = get_supported_formats(&owned(&[
        " D  avi             AVI (Audio Video Interleaved)",
        " E  avi             AVI (Audio Video Interleaved)",
        " DE avi",
        " D  mov,mp4,m4a,3gp,3g2,mj2 QuickTime / MOV",
    ]));
    assert_eq!(2, formats.len());
    assert!(formats.contains("avi"));
    assert!(formats.contains("mov,mp4,m4a,3gp,3g2,mj2"));
    assert!(!formats.contains("mov"));
}

#[test]
fn a_report_of_the_tool_is_read() {
    let formats = get_supported_formats(&owned(&[
        "File formats:",
        " D. = Demuxing supported",
        " .E = Muxing supported",
        " --",
        " D  3dostr          3DO STR",
        "  E 3g2             3GP2 (3GPP2 file format)",
        " DE ac3             raw AC-3",
        " D  matroska,webm   Matroska / WebM",
        "  E matroska        Matroska",
    ]));
    assert_eq!(5, formats.len());
    for token in ["3dostr", "3g2", "ac3", "matroska,webm", "matroska"] {
        assert!(has_valid_extension(token, &formats), "{}", token);
    }
    assert!(!has_valid_extension("=", &formats));
    assert!(!has_valid_extension("webm", &formats));
}

#[test]
fn a_set_is_made_of_distinct_names() {
    let set = SupportedFormatSet::from_tokens(&owned(&["mp4", "avi", "mp4", "", "avi", "MP4"]));
    assert_eq!(4, set.len());
    assert!(set.contains("mp4"));
    assert!(set.contains("avi"));
    assert!(set.contains(""));
    assert!(set.contains("MP4"));
    assert!(!set.contains("mp"));
    assert!(!set.contains("mkv"));
    let empty = SupportedFormatSet::from_tokens(&Vec::new());
    assert_eq!(0, empty.len());
    assert!(!empty.contains(""));
}

#[test]
fn the_shell_depends_on_the_system() {
    assert_eq!(("sh", "-c"), get_system_specific_program_and_arg(false));
    assert_eq!(("cmd", "/C"), get_system_specific_program_and_arg(true));
    assert_eq!("ffmpeg -formats", LIST_FORMATS_COMMAND);
}

#[test]
fn only_status_zero_is_success() {
    assert_eq!(Ok(()), execution_result(ProcessOutcome::Exited(0)));
    assert_eq!(
        Err(ProcessFailure::CommandExecution(1)),
        execution_result(ProcessOutcome::Exited(1))
    );
    assert_eq!(
        Err(ProcessFailure::CommandExecution(-9)),
        execution_result(ProcessOutcome::Exited(-9))
    );
    assert_eq!(
        Err(ProcessFailure::Spawn),
        execution_result(ProcessOutcome::NotStarted)
    );
    assert_eq!(
        Err(ProcessFailure::Await),
        execution_result(ProcessOutcome::NotAwaited)
    );
}
