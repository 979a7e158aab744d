//! What is handed to the shell and what is read from the tool's answers. The
//! processes themselves are started elsewhere; here are the command to ask
//! with, the reading of the report, and the judgement of how a run ended.

use crate::error::ProcessFailure;
use crate::media::video_check::SupportedFormatSet;
use crate::text::{fields, same_text, split_whitespace};
use vstd::prelude::*;

verus! {

/// The command that makes the tool list the container formats it knows.
pub const LIST_FORMATS_COMMAND: &'static str = "ffmpeg -formats";

/// How an attempt to run a command ended.
#[derive(Debug, Clone, Copy, PartialEq, Eq, Structural)]
pub enum ProcessOutcome {
    /// The process could not be started.
    NotStarted,
    /// The process was started and could not be waited for.
    NotAwaited,
    /// The process ended with this status.
    Exited(i32),
}

/// Whether a first field marks a format that the tool can read, write or both.
pub open spec fn is_capability_flag(field: Seq<char>) -> bool {
    field == "D"@ || field == "E"@ || field == "DE"@ || field == "ED"@
}

/// The format that a line of the report names: its second field, where it has
/// two fields and the first is a capability flag.
pub open spec fn format_token(line: Seq<char>) -> Option<Seq<char>> {
    let columns = fields(line);
    if columns.len() >= 2 && is_capability_flag(columns[0]) {
        Some(columns[1])
    } else {
        None
    }
}

/// The formats that the lines of a report name.
pub open spec fn supported_formats(report: Seq<Seq<char>>) -> Set<Seq<char>> {
    Set::new(
        |token: Seq<char>|
            exists|i: int| 0 <= i < report.len() && #[trigger] format_token(report[i]) == Some(token),
    )
}

/// One more line adds the format it names, if it names one.
pub proof fn lemma_supported_formats_push(report: Seq<Seq<char>>, line: Seq<char>)
    ensures
        supported_formats(report.push(line)) == match format_token(line) {
            Some(token) => supported_formats(report).insert(token),
            None => supported_formats(report),
        },
{
    let longer = report.push(line);
    let expected = match format_token(line) {
        Some(token) => supported_formats(report).insert(token),
        None => supported_formats(report),
    };
    assert forall|t: Seq<char>| supported_formats(longer).contains(t) implies expected.contains(
        t,
    ) by {
        let i = choose|i: int|
            0 <= i < longer.len() && #[trigger] format_token(longer[i]) == Some(t);
        if i < report.len() {
            assert(format_token(report[i]) == Some(t));
        }
    }
    assert forall|t: Seq<char>| expected.contains(t) implies supported_formats(longer).contains(
        t,
    ) by {
        if format_token(line) == Some(t) {
            assert(format_token(longer[report.len() as int]) == Some(t));
        } else {
            let i = choose|i: int|
                0 <= i < report.len() && #[trigger] format_token(report[i]) == Some(t);
            assert(format_token(longer[i]) == Some(t));
        }
    }
    assert(supported_formats(longer) =~= expected);
}

/// The shell and the flag that makes it run one command line.
pub fn get_system_specific_program_and_arg(windows: bool) -> (r: (&'static str, &'static str))
    ensures
        windows ==> r.0@ == "cmd"@ && r.1@ == "/C"@,
        !windows ==> r.0@ == "sh"@ && r.1@ == "-c"@,
{
    if windows {
        ("cmd", "/C")
    } else {
        ("sh", "-c")
    }
}

/// Whether a run did its work: it did if the process ended with status zero.
pub fn execution_result(outcome: ProcessOutcome) -> (r: Result<(), ProcessFailure>)
    ensures
        r == match outcome {
            ProcessOutcome::NotStarted => Err::<(), ProcessFailure>(ProcessFailure::Spawn),
            ProcessOutcome::NotAwaited => Err(ProcessFailure::Await),
            ProcessOutcome::Exited(status) => if status == 0 {
                Ok(())
            } else {
                Err(ProcessFailure::CommandExecution(status))
            },
        },
{
    match outcome {
        ProcessOutcome::NotStarted => Err(ProcessFailure::Spawn),
        ProcessOutcome::NotAwaited => Err(ProcessFailure::Await),
        ProcessOutcome::Exited(status_code) => {
            if status_code != 0 {
                return Err(ProcessFailure::CommandExecution(status_code));
            }
            Ok(())
        },
    }
}

fn is_capability_flag_text(field: &str) -> (r: bool)
    ensures
        r == is_capability_flag(field@),
{
    same_text(field, "D") || same_text(field, "E") || same_text(field, "DE") || same_text(
        field,
        "ED",
    )
}

/// The formats that the tool supports, read from the lines of its report on
/// formats.
pub fn get_supported_formats(lines: &Vec<String>) -> (r: SupportedFormatSet)
    ensures
        r@ == supported_formats(lines.deep_view()),
{
    let mut formats: Vec<String> = Vec::new();
    let mut i: usize = 0;
    proof {
        assert(formats.deep_view().to_set() =~= supported_formats(lines.deep_view().take(0)));
    }
    while i < lines.len()
        invariant
            i <= lines.len(),
            formats.deep_view().to_set() == supported_formats(lines.deep_view().take(i as int)),
        decreases lines.len() - i,
    {
        let ghost seen = formats.deep_view();
        proof {
            let line = lines.deep_view()[i as int];
            assert(lines.deep_view().take(i + 1) =~= lines.deep_view().take(i as int).push(line));
            lemma_supported_formats_push(lines.deep_view().take(i as int), line);
        }
        let line = split_whitespace(lines[i].as_str());
        i += 1;
        if line.len() < 2 {
            continue ;
        }
        assert(line.deep_view()[0] == line[0]@);
        assert(line.deep_view()[1] == line[1]@);
        if !is_capability_flag_text(line[0].as_str()) {
            continue ;
        }
        formats.push(line[1].clone());
        proof {
            assert(formats.deep_view() =~= seen.push(line[1]@));
            seen.lemma_push_to_set_commute(line[1]@);
        }
    }
    proof {
        assert(lines.deep_view().take(lines.len() as int) =~= lines.deep_view());
    }
    SupportedFormatSet::from_tokens(&formats)
}

} // verus!
