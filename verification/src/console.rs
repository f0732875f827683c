//! What the commands share: the banner, questions to the user, and the number of jobs.

use crate::log::lowercase;
use crate::log::LogLine;
use crate::page::plain;
use crate::page::styled;
use crate::page::Page;
use crate::page::PieceView;
use crate::page::Tone;
use crate::text::same;
use crate::text::trim;
use crate::text::trimmed;
use vstd::prelude::*;

verus! {

/// The frame above the banner.
pub const BANNER_TOP: &'static str = "╔══════════════════════════════════════╗";

/// The name and the version in the banner.
pub const BANNER_NAME: &'static str = "║          Forge2K  v1.0.0            ║";

/// What the program is, in the banner.
pub const BANNER_ABOUT: &'static str = "║   CP2K Docker Image Builder         ║";

/// The frame below the banner.
pub const BANNER_BOTTOM: &'static str = "╚══════════════════════════════════════╝";

/// The banner.
pub open spec fn banner_view() -> Seq<PieceView> {
    seq![
        plain("\n"@),
        styled(Tone::Yellow, BANNER_TOP@),
        plain("\n"@),
        styled(Tone::YellowBold, BANNER_NAME@),
        plain("\n"@),
        styled(Tone::Yellow, BANNER_ABOUT@),
        plain("\n"@),
        styled(Tone::Yellow, BANNER_BOTTOM@),
        plain("\n\n"@),
    ]
}

/// The banner.
pub fn print_banner() -> (r: Page)
    ensures
        r@ == banner_view(),
{
    let mut page = Page::new();
    page.write("\n");
    page.put(Tone::Yellow, BANNER_TOP);
    page.write("\n");
    page.put(Tone::YellowBold, BANNER_NAME);
    page.write("\n");
    page.put(Tone::Yellow, BANNER_ABOUT);
    page.write("\n");
    page.put(Tone::Yellow, BANNER_BOTTOM);
    page.write("\n\n");
    page
}

/// A question to the user, with consent as the default.
pub open spec fn question_view(prompt: Seq<char>) -> Seq<PieceView> {
    seq![styled(Tone::Yellow, "?"@), plain(" "@ + prompt + " [Y/n] \n"@)]
}

/// Adds a question to the user.
pub fn ask(page: &mut Page, prompt: &str)
    ensures
        final(page)@ == old(page)@ + question_view(prompt@),
{
    page.put(Tone::Yellow, "?");
    page.write(" ".to_owned().concat(prompt).concat(" [Y/n] \n").as_str());
    assert(page@ =~= old(page)@ + question_view(prompt@));
}

/// A lowercase answer without white space around it means yes: silence does too.
pub open spec fn means_yes(answer: Seq<char>) -> bool {
    answer.len() == 0 || answer == "y"@ || answer == "yes"@
}

/// The line that the user typed means yes.
pub open spec fn consents(line: Seq<char>) -> bool {
    means_yes(lowercase(trimmed(line)))
}

/// Whether a lowercase answer without white space around it means yes.
pub fn is_yes(answer: &str) -> (r: bool)
    ensures
        r == means_yes(answer@),
{
    answer.is_empty() || same(answer, "y") || same(answer, "yes")
}

/// Whether the line that the user typed means yes.
pub fn ask_continue(line: &str) -> (r: bool)
    ensures
        r == consents(line@),
{
    is_yes(trim(line).as_str().to_lowercase().as_str())
}

/// How many processors to count on where the system does not tell.
pub const DEFAULT_PROCESSORS: usize = 4;

/// How many processors there are, from what the system tells.
pub fn num_cpus(parallelism: Option<usize>) -> (r: usize)
    ensures
        r == match parallelism {
            Some(n) => n,
            None => DEFAULT_PROCESSORS,
        },
{
    match parallelism {
        Some(n) => n,
        None => DEFAULT_PROCESSORS,
    }
}

/// The number of jobs: zero asks for one per processor.
pub open spec fn jobs_for(jobs: u32, parallelism: Option<usize>) -> u32 {
    if jobs == 0 {
        match parallelism {
            Some(n) => n as u32,
            None => 4,
        }
    } else {
        jobs
    }
}

/// The number of jobs: zero asks for one per processor.
pub fn effective_jobs(jobs: u32, parallelism: Option<usize>) -> (r: u32)
    ensures
        r == jobs_for(jobs, parallelism),
{
    if jobs == 0 {
        #[verifier::truncate]
        (num_cpus(parallelism) as u32)
    } else {
        jobs
    }
}

/// How a line of a build log is printed.
pub open spec fn log_line_view(line: LogLine) -> Seq<PieceView> {
    if line.is_error {
        seq![
            styled(Tone::Red, "["@ + line.timestamp@ + "]"@),
            plain(" "@),
            styled(Tone::Red, line.text@),
            plain("\n"@),
        ]
    } else {
        seq![
            styled(Tone::Dimmed, "["@ + line.timestamp@ + "]"@),
            plain(" "@),
            plain(line.text@),
            plain("\n"@),
        ]
    }
}

/// How a line of a build log is printed.
pub fn log_line_page(line: &LogLine) -> (r: Page)
    ensures
        r@ == log_line_view(*line),
{
    let stamp = "[".to_owned().concat(line.timestamp.as_str()).concat("]");
    let mut page = Page::new();
    if line.is_error {
        page.put(Tone::Red, stamp.as_str());
        page.write(" ");
        page.put(Tone::Red, line.text.as_str());
    } else {
        page.put(Tone::Dimmed, stamp.as_str());
        page.write(" ");
        page.write(line.text.as_str());
    }
    page.write("\n");
    page
}

/// A number of jobs that is asked for is kept; zero asks for one per processor,
/// and for four where the system does not tell how many there are.
pub proof fn jobs_are_as_asked(jobs: u32, parallelism: Option<usize>)
    ensures
        jobs > 0 ==> jobs_for(jobs, parallelism) == jobs,
        jobs == 0 ==> (parallelism matches Some(n) ==> (n <= u32::MAX ==> jobs_for(
            jobs,
            parallelism,
        ) == n)),
        jobs == 0 && parallelism is None ==> jobs_for(jobs, parallelism) == 4,
        DEFAULT_PROCESSORS == 4,
{
}

/// Silence, `y` and `yes` are consent, and nothing else is.
pub proof fn consent_is_silence_or_yes(answer: Seq<char>)
    ensures
        means_yes(Seq::empty()),
        means_yes("y"@),
        means_yes("yes"@),
        answer.len() > 0 && answer != "y"@ && answer != "yes"@ ==> !means_yes(answer),
{
}

/// White space around an answer, and the case of its letters, change nothing.
pub proof fn consent_is_by_the_bare_answer(line: Seq<char>, other: Seq<char>)
    requires
        lowercase(trimmed(line)) == lowercase(trimmed(other)),
    ensures
        consents(line) == consents(other),
        consents(line) <==> lowercase(trimmed(line)).len() == 0 || lowercase(trimmed(line)) == "y"@
            || lowercase(trimmed(line)) == "yes"@,
{
}

/// A question shows its own words, and that consent is the default.
pub proof fn questions_show_their_words(prompt: Seq<char>)
    ensures
        question_view(prompt).len() == 2,
        question_view(prompt)[0] == styled(Tone::Yellow, "?"@),
        question_view(prompt)[1] == plain(" "@ + prompt + " [Y/n] \n"@),
{
}

/// A line of a log is printed with its time and its text as they are, and in red
/// exactly where it is an error.
pub proof fn log_lines_are_printed_as_they_are(line: LogLine)
    ensures
        log_line_view(line).len() == 4,
        log_line_view(line)[0].text == "["@ + line.timestamp@ + "]"@,
        log_line_view(line)[1] == plain(" "@),
        log_line_view(line)[2].text == line.text@,
        log_line_view(line)[3] == plain("\n"@),
        log_line_view(line)[0].tone == Tone::Red <==> line.is_error,
        log_line_view(line)[2].tone == Tone::Red <==> line.is_error,
        !line.is_error ==> log_line_view(line)[0].tone == Tone::Dimmed
            && log_line_view(line)[2].tone == Tone::Plain,
{
}

} // verus!
