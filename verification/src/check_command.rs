//! The `check` command: a look at Docker, its builder, the registry and the disk.

use crate::docker::docker_install_guide;
use crate::docker::guide_steps;
use crate::docker::guide_title;
use crate::docker::DockerStatus;
use crate::docker::Platform;
use crate::page::plain;
use crate::page::styled;
use crate::page::Page;
use crate::page::PieceView;
use crate::page::Tone;
use crate::registry::NetworkStatus;
use crate::text::lines;
use crate::text::lines_of;
use crate::text::no_texts;
use crate::text::push_copy;
use crate::text::split_whitespace;
use crate::text::texts;
use crate::text::trim;
use crate::text::trimmed;
use crate::text::words_of;
use vstd::prelude::*;

verus! {

/// What the `check` command looks at next.
#[derive(Clone, Debug)]
pub enum CheckProbe {
    /// The state of Docker.
    Docker,
    /// What `docker buildx version` prints.
    Builder,
    /// How well the registry can be reached.
    Registry,
    /// The mirror that Docker is configured with.
    Mirror,
    /// What `docker info` prints as the directory of Docker's data.
    Storage,
    /// The free space on the disk that holds this directory.
    Disk(String),
    /// The state of Docker once more.
    Summary,
    /// Nothing: the command is over.
    Nothing,
}

/// What a look brought to light.
#[derive(Clone, Debug)]
pub enum CheckReply {
    Docker(DockerStatus),
    /// What a command printed, where that counts.
    Output(Option<String>),
    Registry(NetworkStatus),
    Mirror(Option<String>),
}

/// A command: its program and its arguments.
pub open spec fn command_of(command: Option<(String, Vec<String>)>) -> Option<
    (Seq<char>, Seq<Seq<char>>),
> {
    match command {
        Some((program, args)) => Some((program@, texts(args@))),
        None => None,
    }
}

/// The command whose output answers a look, where one does. The free space is
/// asked of `df`, and on Windows of `wmic`.
pub open spec fn probe_command_view(probe: CheckProbe, platform: Platform) -> Option<
    (Seq<char>, Seq<Seq<char>>),
> {
    match probe {
        CheckProbe::Builder => Some(("docker"@, seq!["buildx"@, "version"@])),
        CheckProbe::Storage => Some(
            ("docker"@, seq!["info"@, "--format"@, "{{.DockerRootDir}}"@]),
        ),
        CheckProbe::Disk(root) => if platform is Windows {
            Some(
                (
                    "wmic"@,
                    seq![
                        "logicaldisk"@,
                        "where"@,
                        "drivetype=3"@,
                        "get"@,
                        "deviceid,freespace"@,
                    ],
                ),
            )
        } else {
            Some(("df"@, seq!["-h"@, root@]))
        },
        _ => None,
    }
}

/// The command whose output answers a look, where one does.
pub fn probe_command(probe: &CheckProbe, platform: Platform) -> (r: Option<(String, Vec<String>)>)
    ensures
        command_of(r) == probe_command_view(*probe, platform),
{
    let mut args = no_texts();
    match probe {
        CheckProbe::Builder => {
            push_copy(&mut args, "buildx");
            push_copy(&mut args, "version");
            assert(texts(args@) =~= seq!["buildx"@, "version"@]);
            Some(("docker".to_owned(), args))
        },
        CheckProbe::Storage => {
            push_copy(&mut args, "info");
            push_copy(&mut args, "--format");
            push_copy(&mut args, "{{.DockerRootDir}}");
            assert(texts(args@) =~= seq!["info"@, "--format"@, "{{.DockerRootDir}}"@]);
            Some(("docker".to_owned(), args))
        },
        CheckProbe::Disk(root) => {
            let windows = match platform {
                Platform::Windows => true,
                _ => false,
            };
            if windows {
                push_copy(&mut args, "logicaldisk");
                push_copy(&mut args, "where");
                push_copy(&mut args, "drivetype=3");
                push_copy(&mut args, "get");
                push_copy(&mut args, "deviceid,freespace");
                assert(texts(args@) =~= seq![
                    "logicaldisk"@,
                    "where"@,
                    "drivetype=3"@,
                    "get"@,
                    "deviceid,freespace"@,
                ]);
                Some(("wmic".to_owned(), args))
            } else {
                push_copy(&mut args, "-h");
                push_copy(&mut args, root.as_str());
                assert(texts(args@) =~= seq!["-h"@, root@]);
                Some(("df".to_owned(), args))
            }
        },
        _ => None,
    }
}

/// What a command printed counts: without success only for the free space.
pub open spec fn output_counts(probe: CheckProbe, success: bool) -> bool {
    success || probe is Disk
}

/// The reply to a look whose command ended with the given output. What a command
/// without success printed counts only for the free space.
pub fn command_reply(probe: &CheckProbe, success: bool, output: String) -> (r: CheckReply)
    ensures
        r == CheckReply::Output(
            if output_counts(*probe, success) {
                Some(output)
            } else {
                None
            },
        ),
{
    let disk = match probe {
        CheckProbe::Disk(_) => true,
        _ => false,
    };
    if success || disk {
        CheckReply::Output(Some(output))
    } else {
        CheckReply::Output(None)
    }
}

/// The frame above the title of the report.
pub const CHECK_TOP: &'static str = "╔══════════════════════════════════════════════════════════╗";

/// The title of the report.
pub const CHECK_TITLE: &'static str = "║              Forge2K System Diagnostics                  ║";

/// The frame below the title of the report.
pub const CHECK_BOTTOM: &'static str = "╚══════════════════════════════════════════════════════════╝";

/// The title of the report, and that of its first section.
pub open spec fn check_title_view() -> Seq<PieceView> {
    seq![
        plain("\n"@),
        styled(Tone::BrightBlack, CHECK_TOP@),
        plain("\n"@),
        styled(Tone::YellowBold, CHECK_TITLE@),
        plain("\n"@),
        styled(Tone::BrightBlack, CHECK_BOTTOM@),
        plain("\n\n"@),
        styled(Tone::CyanBold, "── Docker Engine ──"@),
        plain("\n"@),
    ]
}

/// The section on Docker, and the title of the next one.
pub open spec fn docker_section_view(status: DockerStatus, platform: Platform) -> Seq<PieceView> {
    (match status {
        DockerStatus::Installed { version, running: true } => seq![
            plain("  "@),
            styled(Tone::Green, "✓"@),
            plain(" Docker is installed and running\n    Version: "@),
            styled(Tone::Cyan, version@),
            plain("\n"@),
        ],
        DockerStatus::Installed { running: false, .. } => seq![
            plain("  "@),
            styled(Tone::Red, "✗"@),
            plain(
                " Docker is installed but NOT running\n    Start Docker Desktop or: sudo systemctl start docker\n"@,
            ),
        ],
        DockerStatus::NotInstalled => seq![
            plain("  "@),
            styled(Tone::Red, "✗"@),
            plain(" Docker is NOT installed\n"@),
        ] + (guide_title() + guide_steps(platform)),
        DockerStatus::NotRunning => seq![
            plain("  "@),
            styled(Tone::Red, "✗"@),
            plain(
                " Docker daemon is not reachable\n    Check if Docker Desktop is started or the daemon is running\n"@,
            ),
        ],
    }) + seq![plain("\n"@), styled(Tone::CyanBold, "── Docker BuildKit ──"@), plain("\n"@)]
}

/// The section on Docker's builder, and the title of the next one.
pub open spec fn builder_section_view(output: Option<Seq<char>>) -> Seq<PieceView> {
    (match output {
        Some(text) => seq![
            plain("  "@),
            styled(Tone::Green, "✓"@),
            plain(" BuildKit available: "@),
            styled(Tone::Cyan, trimmed(text)),
            plain("\n"@),
        ],
        None => seq![
            plain("  "@),
            styled(Tone::Yellow, "ℹ"@),
            plain(" BuildKit not detected (using legacy builder)\n"@),
        ],
    }) + seq![plain("\n"@), styled(Tone::CyanBold, "── Docker Registry ──"@), plain("\n"@)]
}

/// The section on the registry.
pub open spec fn registry_section_view(status: NetworkStatus) -> Seq<PieceView> {
    match status {
        NetworkStatus::Good => seq![
            plain("  "@),
            styled(Tone::Green, "✓"@),
            plain(" Registry access is good (fast)\n"@),
        ],
        NetworkStatus::Slow(time) => seq![
            plain("  "@),
            styled(Tone::Yellow, "⚠"@),
            plain(" Registry access is slow ("@),
            styled(Tone::Yellow, time@),
            plain(")\n"@),
        ],
        NetworkStatus::Blocked(reason) => seq![
            plain("  "@),
            styled(Tone::Red, "✗"@),
            plain(" Registry access appears blocked\n    Reason: "@),
            styled(Tone::Dimmed, reason@),
            plain("\n    Suggested action: forge2k mirror\n"@),
        ],
        NetworkStatus::Unknown(reason) => seq![
            plain("  "@),
            styled(Tone::Yellow, "?"@),
            plain(" Registry status unknown: "@),
            styled(Tone::Dimmed, reason@),
            plain("\n"@),
        ],
    }
}

/// The lines on the mirror.
pub open spec fn mirror_section_view(mirror: Option<Seq<char>>) -> Seq<PieceView> {
    match mirror {
        Some(url) => seq![
            plain("  Current mirror: "@),
            styled(Tone::Cyan, url),
            plain("\n"@),
            plain("\n"@),
        ],
        None => seq![plain("\n"@)],
    }
}

/// The title of the last section.
pub open spec fn summary_title_view() -> Seq<PieceView> {
    seq![styled(Tone::CyanBold, "── Summary ──"@), plain("\n"@)]
}

/// The section on Docker's data.
pub open spec fn storage_section_view(root: Seq<char>) -> Seq<PieceView> {
    seq![
        styled(Tone::CyanBold, "── Docker Storage ──"@),
        plain("\n  Root directory: "@),
        styled(Tone::Cyan, root),
        plain("\n"@),
    ]
}

/// What a line of `df` says of the free space. A line of fewer than four words
/// says nothing.
pub open spec fn disk_line_view(line: Seq<char>) -> Seq<PieceView> {
    let words = words_of(line);
    if words.len() >= 4 {
        seq![
            plain("  Available: "@),
            styled(Tone::Cyan, words[3]),
            plain(" (used: "@ + words[2] + " of "@ + words[1] + ")\n"@),
        ]
    } else {
        seq![]
    }
}

/// What some lines of `df` say of the free space.
pub open spec fn disk_lines_view(table: Seq<Seq<char>>) -> Seq<PieceView>
    decreases table.len(),
{
    if table.len() == 0 {
        seq![]
    } else {
        disk_lines_view(table.drop_last()) + disk_line_view(table.last())
    }
}

/// What the report shows of the free space. On Windows it is what the system
/// prints; elsewhere it is read from the lines of `df` behind the first.
pub open spec fn disk_section_view(output: Option<Seq<char>>, platform: Platform) -> Seq<PieceView> {
    (match output {
        Some(text) => if platform is Windows {
            seq![plain("  "@ + trimmed(text) + "\n"@)]
        } else if lines_of(text).len() > 0 {
            disk_lines_view(lines_of(text).drop_first())
        } else {
            seq![]
        },
        None => seq![],
    }) + (seq![plain("\n"@)] + summary_title_view())
}

/// The last section.
pub open spec fn summary_view(status: DockerStatus) -> Seq<PieceView> {
    match status {
        DockerStatus::Installed { running: true, .. } => seq![
            plain("  "@),
            styled(Tone::Green, "✓"@),
            plain(
                " System is ready for CP2K builds!\n  Run 'forge2k build' or 'forge2k gui' to get started.\n\n"@,
            ),
        ],
        _ => seq![
            plain("  "@),
            styled(Tone::Yellow, "ℹ"@),
            plain(" Please resolve the issues above before building.\n\n"@),
        ],
    }
}

/// The text of an optional string.
pub open spec fn optional_text(text: Option<String>) -> Option<Seq<char>> {
    match text {
        Some(t) => Some(t@),
        None => None,
    }
}

/// What the report shows when a look is answered. An answer to another
/// question shows nothing.
pub open spec fn check_view(probe: CheckProbe, reply: CheckReply, platform: Platform) -> Seq<
    PieceView,
> {
    match (probe, reply) {
        (CheckProbe::Docker, CheckReply::Docker(status)) => docker_section_view(status, platform),
        (CheckProbe::Builder, CheckReply::Output(output)) => builder_section_view(
            optional_text(output),
        ),
        (CheckProbe::Registry, CheckReply::Registry(status)) => registry_section_view(status),
        (CheckProbe::Mirror, CheckReply::Mirror(url)) => mirror_section_view(optional_text(url)),
        (CheckProbe::Storage, CheckReply::Output(output)) => match output {
            Some(text) => storage_section_view(trimmed(text@)),
            None => summary_title_view(),
        },
        (CheckProbe::Disk(_), CheckReply::Output(output)) => disk_section_view(
            optional_text(output),
            platform,
        ),
        (CheckProbe::Summary, CheckReply::Docker(status)) => summary_view(status),
        _ => seq![],
    }
}

/// What the command looks at after an answer: one thing after the other, and
/// at the disk only where Docker tells where its data is. An answer to another
/// question leaves the question open.
pub open spec fn check_goes_on(probe: CheckProbe, reply: CheckReply, next: CheckProbe) -> bool {
    match (probe, reply) {
        (CheckProbe::Docker, CheckReply::Docker(_)) => next is Builder,
        (CheckProbe::Builder, CheckReply::Output(_)) => next is Registry,
        (CheckProbe::Registry, CheckReply::Registry(_)) => next is Mirror,
        (CheckProbe::Mirror, CheckReply::Mirror(_)) => next is Storage,
        (CheckProbe::Storage, CheckReply::Output(output)) => match output {
            Some(text) => next matches CheckProbe::Disk(root) && root@ == trimmed(text@),
            None => next is Summary,
        },
        (CheckProbe::Disk(_), CheckReply::Output(_)) => next is Summary,
        (CheckProbe::Summary, CheckReply::Docker(_)) => next is Nothing,
        _ => next == probe,
    }
}

/// The title of the report, and the first thing to look at.
pub fn start_check() -> (r: (Page, CheckProbe))
    ensures
        r.0@ == check_title_view(),
        r.1 is Docker,
{
    let mut page = Page::new();
    page.write("\n");
    page.put(Tone::BrightBlack, CHECK_TOP);
    page.write("\n");
    page.put(Tone::YellowBold, CHECK_TITLE);
    page.write("\n");
    page.put(Tone::BrightBlack, CHECK_BOTTOM);
    page.write("\n\n");
    page.put(Tone::CyanBold, "── Docker Engine ──");
    page.write("\n");
    (page, CheckProbe::Docker)
}

/// The section on Docker.
fn docker_section(status: &DockerStatus, platform: Platform) -> (r: Page)
    ensures
        r@ == docker_section_view(*status, platform),
{
    let mut page = Page::new();
    page.write("  ");
    match status {
        DockerStatus::Installed { version, running } => {
            if *running {
                page.put(Tone::Green, "✓");
                page.write(" Docker is installed and running\n    Version: ");
                page.put(Tone::Cyan, version.as_str());
                page.write("\n");
            } else {
                page.put(Tone::Red, "✗");
                page.write(
                    " Docker is installed but NOT running\n    Start Docker Desktop or: sudo systemctl start docker\n",
                );
            }
        },
        DockerStatus::NotInstalled => {
            page.put(Tone::Red, "✗");
            page.write(" Docker is NOT installed\n");
            page.append(docker_install_guide(platform));
        },
        DockerStatus::NotRunning => {
            page.put(Tone::Red, "✗");
            page.write(
                " Docker daemon is not reachable\n    Check if Docker Desktop is started or the daemon is running\n",
            );
        },
    }
    page.write("\n");
    page.put(Tone::CyanBold, "── Docker BuildKit ──");
    page.write("\n");
    assert(page@ =~= docker_section_view(*status, platform));
    page
}

/// The section on Docker's builder.
fn builder_section(output: &Option<String>) -> (r: Page)
    ensures
        r@ == builder_section_view(optional_text(*output)),
{
    let mut page = Page::new();
    page.write("  ");
    match output {
        Some(text) => {
            page.put(Tone::Green, "✓");
            page.write(" BuildKit available: ");
            page.put(Tone::Cyan, trim(text.as_str()).as_str());
            page.write("\n");
        },
        None => {
            page.put(Tone::Yellow, "ℹ");
            page.write(" BuildKit not detected (using legacy builder)\n");
        },
    }
    page.write("\n");
    page.put(Tone::CyanBold, "── Docker Registry ──");
    page.write("\n");
    assert(page@ =~= builder_section_view(optional_text(*output)));
    page
}

/// The section on the registry.
fn registry_section(status: &NetworkStatus) -> (r: Page)
    ensures
        r@ == registry_section_view(*status),
{
    let mut page = Page::new();
    page.write("  ");
    match status {
        NetworkStatus::Good => {
            page.put(Tone::Green, "✓");
            page.write(" Registry access is good (fast)\n");
        },
        NetworkStatus::Slow(time) => {
            page.put(Tone::Yellow, "⚠");
            page.write(" Registry access is slow (");
            page.put(Tone::Yellow, time.as_str());
            page.write(")\n");
        },
        NetworkStatus::Blocked(reason) => {
            page.put(Tone::Red, "✗");
            page.write(" Registry access appears blocked\n    Reason: ");
            page.put(Tone::Dimmed, reason.as_str());
            page.write("\n    Suggested action: forge2k mirror\n");
        },
        NetworkStatus::Unknown(reason) => {
            page.put(Tone::Yellow, "?");
            page.write(" Registry status unknown: ");
            page.put(Tone::Dimmed, reason.as_str());
            page.write("\n");
        },
    }
    page
}

/// The lines on the mirror.
fn mirror_section(mirror: &Option<String>) -> (r: Page)
    ensures
        r@ == mirror_section_view(optional_text(*mirror)),
{
    let mut page = Page::new();
    match mirror {
        Some(url) => {
            page.write("  Current mirror: ");
            page.put(Tone::Cyan, url.as_str());
            page.write("\n");
        },
        None => {},
    }
    page.write("\n");
    page
}

/// Adds the title of the last section.
fn summary_title(page: &mut Page)
    ensures
        final(page)@ == old(page)@ + summary_title_view(),
{
    page.put(Tone::CyanBold, "── Summary ──");
    page.write("\n");
    assert(page@ =~= old(page)@ + summary_title_view());
}

/// Adds what a line of `df` says of the free space.
fn show_disk_line(page: &mut Page, line: &str)
    ensures
        final(page)@ == old(page)@ + disk_line_view(line@),
{
    let ghost before = page@;
    let words = split_whitespace(line);
    let ghost found = texts(words@);
    if words.len() >= 4 {
        assert(found[1] == words@[1]@ && found[2] == words@[2]@ && found[3] == words@[3]@);
        page.write("  Available: ");
        page.put(Tone::Cyan, words[3].as_str());
        page.write(
            " (used: ".to_owned().concat(words[2].as_str()).concat(" of ").concat(
                words[1].as_str(),
            ).concat(")\n").as_str(),
        );
    }
    assert(page@ =~= before + disk_line_view(line@));
}

/// The section on the free space.
fn disk_section(output: &Option<String>, platform: Platform) -> (r: Page)
    ensures
        r@ == disk_section_view(optional_text(*output), platform),
{
    let mut page = Page::new();
    let ghost mut shown: Seq<PieceView> = seq![];
    match output {
        Some(text) => {
            let windows = match platform {
                Platform::Windows => true,
                _ => false,
            };
            if windows {
                page.write("  ".to_owned().concat(trim(text.as_str()).as_str()).concat("\n").as_str());
                proof {
                    shown = page@;
                }
            } else {
                let table = lines(text.as_str());
                let ghost all = texts(table@);
                if table.len() > 0 {
                    let ghost rest = all.drop_first();
                    let mut i: usize = 1;
                    assert(rest.take(0) =~= seq![]);
                    while i < table.len()
                        invariant
                            1 <= i <= table@.len(),
                            all == texts(table@),
                            rest == all.drop_first(),
                            page@ == disk_lines_view(rest.take(i - 1)),
                        decreases table@.len() - i,
                    {
                        show_disk_line(&mut page, table[i].as_str());
                        proof {
                            let next = rest.take(i as int);
                            assert(next.drop_last() =~= rest.take(i - 1));
                            assert(next.last() == table@[i as int]@);
                        }
                        i += 1;
                    }
                    assert(rest.take(i - 1) =~= rest);
                    proof {
                        shown = page@;
                    }
                }
            }
        },
        None => {},
    }
    assert(page@ =~= shown);
    page.write("\n");
    summary_title(&mut page);
    assert(page@ =~= shown + (seq![plain("\n"@)] + summary_title_view()));
    page
}

/// The last section.
fn summary_section(status: &DockerStatus) -> (r: Page)
    ensures
        r@ == summary_view(*status),
{
    let ready = match status {
        DockerStatus::Installed { running, .. } => *running,
        _ => false,
    };
    let mut page = Page::new();
    page.write("  ");
    if ready {
        page.put(Tone::Green, "✓");
        page.write(
            " System is ready for CP2K builds!\n  Run 'forge2k build' or 'forge2k gui' to get started.\n\n",
        );
    } else {
        page.put(Tone::Yellow, "ℹ");
        page.write(" Please resolve the issues above before building.\n\n");
    }
    page
}

/// What the command shows when a look is answered, and what it looks at next.
pub fn cmd_check(probe: CheckProbe, reply: CheckReply, platform: Platform) -> (r: (
    Page,
    CheckProbe,
))
    ensures
        r.0@ == check_view(probe, reply, platform),
        check_goes_on(probe, reply, r.1),
{
    match (probe, reply) {
        (CheckProbe::Docker, CheckReply::Docker(status)) => (
            docker_section(&status, platform),
            CheckProbe::Builder,
        ),
        (CheckProbe::Builder, CheckReply::Output(output)) => (
            builder_section(&output),
            CheckProbe::Registry,
        ),
        (CheckProbe::Registry, CheckReply::Registry(status)) => (
            registry_section(&status),
            CheckProbe::Mirror,
        ),
        (CheckProbe::Mirror, CheckReply::Mirror(url)) => (mirror_section(&url), CheckProbe::Storage),
        (CheckProbe::Storage, CheckReply::Output(output)) => {
            let mut page = Page::new();
            match output {
                Some(text) => {
                    let root = trim(text.as_str());
                    page.put(Tone::CyanBold, "── Docker Storage ──");
                    page.write("\n  Root directory: ");
                    page.put(Tone::Cyan, root.as_str());
                    page.write("\n");
                    (page, CheckProbe::Disk(root))
                },
                None => {
                    summary_title(&mut page);
                    assert(page@ =~= summary_title_view());
                    (page, CheckProbe::Summary)
                },
            }
        },
        (CheckProbe::Disk(_), CheckReply::Output(output)) => (
            disk_section(&output, platform),
            CheckProbe::Summary,
        ),
        (CheckProbe::Summary, CheckReply::Docker(status)) => (
            summary_section(&status),
            CheckProbe::Nothing,
        ),
        (probe, _) => (Page::new(), probe),
    }
}

/// How many answers the command still waits for at most.
pub open spec fn looks_ahead(probe: CheckProbe) -> nat {
    match probe {
        CheckProbe::Docker => 7,
        CheckProbe::Builder => 6,
        CheckProbe::Registry => 5,
        CheckProbe::Mirror => 4,
        CheckProbe::Storage => 3,
        CheckProbe::Disk(_) => 2,
        CheckProbe::Summary => 1,
        CheckProbe::Nothing => 0,
    }
}

/// The reply answers the question.
pub open spec fn answers(probe: CheckProbe, reply: CheckReply) -> bool {
    match probe {
        CheckProbe::Docker | CheckProbe::Summary => reply is Docker,
        CheckProbe::Builder | CheckProbe::Storage | CheckProbe::Disk(_) => reply is Output,
        CheckProbe::Registry => reply is Registry,
        CheckProbe::Mirror => reply is Mirror,
        CheckProbe::Nothing => false,
    }
}

/// The report ends: every answer brings it closer to its end, and it ends with
/// its summary.
pub proof fn check_ends(probe: CheckProbe, reply: CheckReply, next: CheckProbe)
    requires
        answers(probe, reply),
        check_goes_on(probe, reply, next),
    ensures
        looks_ahead(next) < looks_ahead(probe),
        next is Nothing ==> probe is Summary,
{
}

/// The command looks at Docker, its builder, the registry, the mirror, the storage
/// and the disk, in this order, and sums up. The disk is looked at exactly where
/// Docker tells where its data is, and there it is that directory. An answer to
/// another question leaves the question open.
pub proof fn looks_come_in_order(probe: CheckProbe, reply: CheckReply, next: CheckProbe)
    requires
        check_goes_on(probe, reply, next),
    ensures
        probe is Docker && reply is Docker ==> next is Builder,
        probe is Builder && reply is Output ==> next is Registry,
        probe is Registry && reply is Registry ==> next is Mirror,
        probe is Mirror && reply is Mirror ==> next is Storage,
        probe is Storage ==> (reply matches CheckReply::Output(output) ==> (next is Disk <==> output
            is Some) && (next is Summary <==> output is None)),
        probe is Storage ==> (reply matches CheckReply::Output(output) ==> (output matches Some(text)
            ==> next->Disk_0@ == trimmed(text@))),
        probe is Disk && reply is Output ==> next is Summary,
        probe is Summary && reply is Docker ==> next is Nothing,
        !answers(probe, reply) ==> next == probe,
{
}

/// Each look is answered by its own command: the builder, the storage and the disk
/// have one, the disk that of the platform, with the directory that is asked about.
pub proof fn looks_have_their_commands(probe: CheckProbe, platform: Platform)
    ensures
        probe_command_view(probe, platform) is Some <==> probe is Builder || probe is Storage
            || probe is Disk,
        probe is Builder ==> probe_command_view(probe, platform)->0 == ("docker"@, seq![
            "buildx"@,
            "version"@,
        ]),
        probe is Storage ==> probe_command_view(probe, platform)->0 == ("docker"@, seq![
            "info"@,
            "--format"@,
            "{{.DockerRootDir}}"@,
        ]),
        probe matches CheckProbe::Disk(root) ==> (!(platform is Windows) ==> probe_command_view(
            probe,
            platform,
        )->0 == ("df"@, seq!["-h"@, root@])),
        probe is Disk && platform is Windows ==> (probe_command_view(probe, platform)->0).0
            == "wmic"@,
        !(probe is Disk) ==> probe_command_view(probe, platform) == probe_command_view(
            probe,
            Platform::Other,
        ),
{
}

/// A command is its program and its arguments.
pub proof fn commands_are_what_they_hold(command: Option<(String, Vec<String>)>)
    ensures
        command_of(command) is Some <==> command is Some,
        command matches Some(c) ==> command_of(command) == Some((c.0@, texts(c.1@))),
{
}

/// A page ends with the title of a section.
pub open spec fn ends_with_title(page: Seq<PieceView>, title: Seq<char>) -> bool {
    page.len() >= 2 && page[page.len() - 2] == styled(Tone::CyanBold, title) && page.last() == plain(
        "\n"@,
    )
}

/// Every section is announced right before it: the title page announces that on
/// Docker, and each section the next one.
pub proof fn sections_are_announced(
    status: DockerStatus,
    platform: Platform,
    output: Option<Seq<char>>,
)
    ensures
        ends_with_title(check_title_view(), "── Docker Engine ──"@),
        ends_with_title(docker_section_view(status, platform), "── Docker BuildKit ──"@),
        ends_with_title(builder_section_view(output), "── Docker Registry ──"@),
        ends_with_title(disk_section_view(output, platform), "── Summary ──"@),
        ends_with_title(summary_title_view(), "── Summary ──"@),
        check_title_view()[3] == styled(Tone::YellowBold, CHECK_TITLE@),
{
}

/// The section on Docker shows whether it runs: its version where it does, the
/// guide for the platform where it is not installed.
pub proof fn docker_section_shows_the_engine(status: DockerStatus, platform: Platform)
    ensures
        ({
            let shown = docker_section_view(status, platform);
            let runs = status matches DockerStatus::Installed { running, .. } && running;
            &&& runs <==> shown[1] == styled(Tone::Green, "✓"@)
            &&& !runs <==> shown[1] == styled(Tone::Red, "✗"@)
            &&& status matches DockerStatus::Installed { version, running } ==> (running
                ==> shown.len() == 8 && shown[3] == styled(Tone::Cyan, version@))
            &&& status is NotInstalled ==> shown.subrange(3, shown.len() - 3) == guide_title()
                + guide_steps(platform)
            &&& !runs && !(status is NotInstalled) ==> shown.len() == 6
        }),
{
    let shown = docker_section_view(status, platform);
    if status is NotInstalled {
        assert(shown.subrange(3, shown.len() - 3) =~= guide_title() + guide_steps(platform));
    }
}

/// The builder is shown with what it says of itself, without white space around
/// it, and is missing where it said nothing.
pub proof fn builder_section_shows_the_builder(output: Option<Seq<char>>)
    ensures
        output matches Some(text) ==> builder_section_view(output).len() == 8
            && builder_section_view(output)[1] == styled(Tone::Green, "✓"@)
            && builder_section_view(output)[3] == styled(Tone::Cyan, trimmed(text)),
        output is None ==> builder_section_view(output).len() == 6 && builder_section_view(
            output,
        )[1] == styled(Tone::Yellow, "ℹ"@),
{
}

/// The section on the registry shows how well it can be reached, with the time or
/// the reason as it is; a blocked registry comes with advice.
pub proof fn registry_section_shows_the_network(status: NetworkStatus)
    ensures
        ({
            let shown = registry_section_view(status);
            &&& status is Good <==> shown[1] == styled(Tone::Green, "✓"@)
            &&& status is Slow <==> shown[1] == styled(Tone::Yellow, "⚠"@)
            &&& status is Blocked <==> shown[1] == styled(Tone::Red, "✗"@)
            &&& status is Unknown <==> shown[1] == styled(Tone::Yellow, "?"@)
            &&& status matches NetworkStatus::Slow(time) ==> shown[3] == styled(
                Tone::Yellow,
                time@,
            )
            &&& status matches NetworkStatus::Blocked(reason) ==> shown[3] == styled(
                Tone::Dimmed,
                reason@,
            ) && shown[4] == plain("\n    Suggested action: forge2k mirror\n"@)
            &&& status matches NetworkStatus::Unknown(reason) ==> shown[3] == styled(
                Tone::Dimmed,
                reason@,
            )
        }),
{
    reveal_strlit("⚠");
    reveal_strlit("?");
    assert("⚠"@[0] != "?"@[0]);
}

/// The configured mirror is shown as it is, and a missing one not at all.
pub proof fn mirror_section_shows_the_mirror(mirror: Option<Seq<char>>)
    ensures
        mirror matches Some(url) ==> mirror_section_view(mirror).len() == 4 && mirror_section_view(
            mirror,
        )[0] == plain("  Current mirror: "@) && mirror_section_view(mirror)[1] == styled(
            Tone::Cyan,
            url,
        ),
        mirror is None ==> mirror_section_view(mirror) == seq![plain("\n"@)],
{
}

/// A line of `df` with at least four words shows the fourth as what is free, and
/// the third and the second as what is used of what there is; a shorter line shows
/// nothing.
pub proof fn disk_lines_are_read_by_words(line: Seq<char>)
    ensures
        words_of(line).len() < 4 ==> disk_line_view(line).len() == 0,
        words_of(line).len() >= 4 ==> disk_line_view(line).len() == 3 && disk_line_view(line)[1]
            == styled(Tone::Cyan, words_of(line)[3]) && disk_line_view(line)[2] == plain(
            " (used: "@ + words_of(line)[2] + " of "@ + words_of(line)[1] + ")\n"@,
        ) && disk_line_view(line)[0] == plain("  Available: "@),
{
}

/// The lines of a table are read one behind the other.
pub proof fn disk_tables_are_read_line_by_line(table: Seq<Seq<char>>, line: Seq<char>)
    ensures
        disk_lines_view(Seq::empty()).len() == 0,
        disk_lines_view(table.push(line)) == disk_lines_view(table) + disk_line_view(line),
{
    assert(table.push(line).drop_last() =~= table);
}

/// The first line of `df` is its heading, which shows nothing; on Windows the
/// output is shown as it is, without white space around it; no output shows
/// nothing.
pub proof fn disk_headings_are_skipped(text: Seq<char>, platform: Platform)
    ensures
        ({
            let shown = disk_section_view(Some(text), platform);
            &&& platform is Windows ==> shown.len() == 4 && shown[0] == plain(
                "  "@ + trimmed(text) + "\n"@,
            )
            &&& !(platform is Windows) && lines_of(text).len() > 0 ==> shown.take(shown.len() - 3)
                == disk_lines_view(lines_of(text).skip(1))
            &&& !(platform is Windows) && lines_of(text).len() == 0 ==> shown.len() == 3
            &&& disk_section_view(None, platform).len() == 3
        }),
{
    let shown = disk_section_view(Some(text), platform);
    if !(platform is Windows) && lines_of(text).len() > 0 {
        assert(lines_of(text).skip(1) =~= lines_of(text).drop_first());
        assert(shown.take(shown.len() - 3) =~= disk_lines_view(lines_of(text).drop_first()));
    }
}

/// The system is ready exactly where Docker runs.
pub proof fn summary_tells_whether_docker_runs(status: DockerStatus)
    ensures
        summary_view(status).len() == 3,
        summary_view(status)[1] == styled(Tone::Green, "✓"@) <==> (
        status matches DockerStatus::Installed { running, .. } && running),
        summary_view(status)[1] == styled(Tone::Yellow, "ℹ"@) <==> !(
        status matches DockerStatus::Installed { running, .. } && running),
{
}

/// An answer is shown in the section of its question, and an answer to another
/// question is not shown.
pub proof fn answers_are_shown_in_their_section(
    probe: CheckProbe,
    reply: CheckReply,
    platform: Platform,
)
    ensures
        !answers(probe, reply) ==> check_view(probe, reply, platform).len() == 0,
        probe is Docker ==> (reply matches CheckReply::Docker(status) ==> check_view(
            probe,
            reply,
            platform,
        ) == docker_section_view(status, platform)),
        probe is Summary ==> (reply matches CheckReply::Docker(status) ==> check_view(
            probe,
            reply,
            platform,
        ) == summary_view(status)),
        probe is Registry ==> (reply matches CheckReply::Registry(status) ==> check_view(
            probe,
            reply,
            platform,
        ) == registry_section_view(status)),
        probe is Mirror ==> (reply matches CheckReply::Mirror(url) ==> check_view(
            probe,
            reply,
            platform,
        ) == mirror_section_view(optional_text(url))),
        probe is Builder ==> (reply matches CheckReply::Output(output) ==> check_view(
            probe,
            reply,
            platform,
        ) == builder_section_view(optional_text(output))),
        probe is Disk ==> (reply matches CheckReply::Output(output) ==> check_view(
            probe,
            reply,
            platform,
        ) == disk_section_view(optional_text(output), platform)),
        probe is Storage && reply == CheckReply::Output(None) ==> check_view(probe, reply, platform)
            == summary_title_view(),
        probe is Storage ==> (reply matches CheckReply::Output(output) ==> (output matches Some(text)
            ==> check_view(probe, reply, platform)[2] == styled(Tone::Cyan, trimmed(text@)))),
{
}

/// An optional text is that of its string.
pub proof fn optional_texts_are_their_strings(text: Option<String>)
    ensures
        optional_text(text) is Some <==> text is Some,
        text matches Some(t) ==> optional_text(text) == Some(t@),
{
}

/// The directory of Docker's data is shown as it is, under its title.
pub proof fn storage_section_shows_the_root(root: Seq<char>)
    ensures
        storage_section_view(root).len() == 4,
        storage_section_view(root)[0] == styled(Tone::CyanBold, "── Docker Storage ──"@),
        storage_section_view(root)[1] == plain("\n  Root directory: "@),
        storage_section_view(root)[2] == styled(Tone::Cyan, root),
        storage_section_view(root)[3] == plain("\n"@),
{
}

/// What a command printed counts wherever it succeeded; what one without success
/// printed counts for the free space and for nothing else.
pub proof fn outputs_count_on_success(probe: CheckProbe)
    ensures
        output_counts(probe, true),
        output_counts(probe, false) <==> probe is Disk,
{
}

} // verus!
