//! The `mirror` command: it configures a registry mirror, or removes it.

use crate::docker::Platform;
use crate::page::plain;
use crate::page::styled;
use crate::page::Page;
use crate::page::PieceView;
use crate::page::Tone;
use crate::registry::is_mirror_url;
use crate::registry::is_web_address;
use crate::text::no_texts;
use crate::text::push_copy;
use crate::text::texts;
use vstd::prelude::*;

verus! {

/// What the `mirror` command does next.
#[derive(Clone, Debug)]
pub enum MirrorAction {
    /// Take the mirrors out of Docker's configuration.
    Remove,
    /// Search for a mirror that works.
    Detect,
    /// Write this mirror into Docker's configuration.
    Configure(String),
    /// Restart Docker.
    Restart,
    /// The command is over.
    Finish,
    /// The command is over, and the error says why.
    Fail(String),
}

/// What came of the last action.
#[derive(Debug)]
pub enum MirrorEvent {
    Removed(Result<(), String>),
    Detected(Option<String>),
    /// The path of the configuration that was written, or why it was not.
    Configured(Result<String, String>),
    Restarted(Result<(), String>),
}

/// What an action of the `mirror` command says.
#[verifier::ext_equal]
pub enum MirrorActionView {
    Remove,
    Detect,
    Configure(Seq<char>),
    Restart,
    Finish,
    Fail(Seq<char>),
}

impl View for MirrorAction {
    type V = MirrorActionView;

    open spec fn view(&self) -> MirrorActionView {
        match *self {
            MirrorAction::Remove => MirrorActionView::Remove,
            MirrorAction::Detect => MirrorActionView::Detect,
            MirrorAction::Configure(url) => MirrorActionView::Configure(url@),
            MirrorAction::Restart => MirrorActionView::Restart,
            MirrorAction::Finish => MirrorActionView::Finish,
            MirrorAction::Fail(reason) => MirrorActionView::Fail(reason@),
        }
    }
}

/// What the command says where no mirror works.
pub const NO_MIRROR: &'static str = r#" no working mirror found.
  Please provide a mirror URL manually.
  Example: forge2k mirror https://docker.mirrors.ustc.edu.cn

"#;

/// The mirrors that the command names where none of them works.
pub const NAMED_MIRRORS: &'static str = r#" Known mirrors:
  • https://docker.mirrors.ustc.edu.cn
  • https://mirror.ccs.tencentyun.com
  • https://2a59f68c.m.daocloud.io
  • https://registry.docker-cn.com
"#;

/// What the command shows and does about a chosen mirror: it configures what
/// begins like a web address and refuses everything else.
pub open spec fn choice_view(url: Seq<char>) -> (Seq<PieceView>, MirrorActionView) {
    if is_web_address(url) {
        (
            seq![
                styled(Tone::Bold, "📝"@),
                plain(" Configuring registry mirror: "@),
                styled(Tone::Cyan, url),
                plain("\n"@),
            ],
            MirrorActionView::Configure(url),
        )
    } else {
        (
            seq![
                styled(Tone::Red, "✗"@),
                plain(" Invalid mirror URL. Must start with http:// or https://\n"@),
            ],
            MirrorActionView::Finish,
        )
    }
}

/// What the command shows and does first.
pub open spec fn mirror_start_view(url: Option<Seq<char>>, remove: bool) -> (
    Seq<PieceView>,
    MirrorActionView,
) {
    if remove {
        (
            seq![
                plain("\n"@),
                styled(Tone::Yellow, "🗑"@),
                plain(" Removing registry mirror configuration...\n"@),
            ],
            MirrorActionView::Remove,
        )
    } else {
        match url {
            Some(u) => (seq![plain("\n"@)] + choice_view(u).0, choice_view(u).1),
            None => (
                seq![
                    plain("\n"@),
                    styled(Tone::Bold, "🔍"@),
                    plain(" Detecting best registry mirror... "@),
                ],
                MirrorActionView::Detect,
            ),
        }
    }
}

/// How to restart Docker by hand on the given kind of system.
pub open spec fn restart_hint(platform: Platform) -> Seq<PieceView> {
    match platform {
        Platform::Windows => seq![plain("  Restart Docker Desktop from the system tray\n"@)],
        Platform::Linux | Platform::Wsl => seq![plain("  sudo systemctl restart docker\n"@)],
        _ => seq![],
    }
}

/// What the command shows and does after an action.
pub open spec fn mirror_next_view(event: MirrorEvent, restart: bool, platform: Platform) -> (
    Seq<PieceView>,
    MirrorActionView,
) {
    match event {
        MirrorEvent::Removed(Ok(())) => (
            seq![
                styled(Tone::Green, "✓"@),
                plain(" Mirror configuration removed.\n  Restart Docker to apply changes.\n\n"@),
            ],
            MirrorActionView::Finish,
        ),
        MirrorEvent::Removed(Err(reason)) => (seq![], MirrorActionView::Fail(reason@)),
        MirrorEvent::Detected(Some(url)) => (
            seq![plain("found: "@), styled(Tone::Cyan, url@), plain("\n"@)] + choice_view(url@).0,
            choice_view(url@).1,
        ),
        MirrorEvent::Detected(None) => (
            seq![
                styled(Tone::Red, "✗"@),
                plain(NO_MIRROR@),
                styled(Tone::Yellow, "ℹ"@),
                plain(NAMED_MIRRORS@),
            ],
            MirrorActionView::Finish,
        ),
        MirrorEvent::Configured(Ok(path)) => if restart {
            (
                seq![
                    styled(Tone::Green, "✓"@),
                    plain(" Configuration saved to: "@),
                    styled(Tone::Cyan, path@),
                    plain("\n"@),
                    styled(Tone::Bold, "🔄"@),
                    plain(" Restarting Docker...\n"@),
                ],
                MirrorActionView::Restart,
            )
        } else {
            (
                seq![
                    styled(Tone::Green, "✓"@),
                    plain(" Configuration saved to: "@),
                    styled(Tone::Cyan, path@),
                    plain("\n"@),
                    plain("\n"@),
                    styled(Tone::Yellow, "💡"@),
                    plain(" Restart Docker to apply changes:\n"@),
                ] + restart_hint(platform) + seq![plain("\n"@)],
                MirrorActionView::Finish,
            )
        },
        MirrorEvent::Configured(Err(reason)) => (seq![], MirrorActionView::Fail(reason@)),
        MirrorEvent::Restarted(Ok(())) => (
            seq![styled(Tone::Green, "✓"@), plain(" Docker restarted successfully.\n"@)],
            MirrorActionView::Finish,
        ),
        MirrorEvent::Restarted(Err(reason)) => (seq![], MirrorActionView::Fail(reason@)),
    }
}

/// Adds what the command shows about a chosen mirror, and gives what it does.
fn choose_mirror(page: &mut Page, url: String) -> (r: MirrorAction)
    ensures
        final(page)@ == old(page)@ + choice_view(url@).0,
        r@ == choice_view(url@).1,
{
    let ghost before = page@;
    if is_mirror_url(url.as_str()) {
        page.put(Tone::Bold, "📝");
        page.write(" Configuring registry mirror: ");
        page.put(Tone::Cyan, url.as_str());
        page.write("\n");
        assert(page@ =~= before + choice_view(url@).0);
        MirrorAction::Configure(url)
    } else {
        page.put(Tone::Red, "✗");
        page.write(" Invalid mirror URL. Must start with http:// or https://\n");
        assert(page@ =~= before + choice_view(url@).0);
        MirrorAction::Finish
    }
}

/// What the command shows and does first.
pub fn start_mirror(url: Option<String>, remove: bool) -> (r: (Page, MirrorAction))
    ensures
        (r.0@, r.1@) == mirror_start_view(
            match url {
                Some(u) => Some(u@),
                None => None,
            },
            remove,
        ),
{
    let mut page = Page::new();
    page.write("\n");
    if remove {
        page.put(Tone::Yellow, "🗑");
        page.write(" Removing registry mirror configuration...\n");
        return (page, MirrorAction::Remove);
    }
    match url {
        Some(u) => {
            let action = choose_mirror(&mut page, u);
            (page, action)
        },
        None => {
            page.put(Tone::Bold, "🔍");
            page.write(" Detecting best registry mirror... ");
            (page, MirrorAction::Detect)
        },
    }
}

/// What the command shows and does after an action.
pub fn cmd_mirror(event: MirrorEvent, restart: bool, platform: Platform) -> (r: (
    Page,
    MirrorAction,
))
    ensures
        (r.0@, r.1@) == mirror_next_view(event, restart, platform),
{
    let mut page = Page::new();
    let action = match event {
        MirrorEvent::Removed(Ok(())) => {
            page.put(Tone::Green, "✓");
            page.write(" Mirror configuration removed.\n  Restart Docker to apply changes.\n\n");
            MirrorAction::Finish
        },
        MirrorEvent::Removed(Err(reason)) => MirrorAction::Fail(reason),
        MirrorEvent::Detected(Some(url)) => {
            page.write("found: ");
            page.put(Tone::Cyan, url.as_str());
            page.write("\n");
            choose_mirror(&mut page, url)
        },
        MirrorEvent::Detected(None) => {
            page.put(Tone::Red, "✗");
            page.write(NO_MIRROR);
            page.put(Tone::Yellow, "ℹ");
            page.write(NAMED_MIRRORS);
            MirrorAction::Finish
        },
        MirrorEvent::Configured(Ok(path)) => {
            page.put(Tone::Green, "✓");
            page.write(" Configuration saved to: ");
            page.put(Tone::Cyan, path.as_str());
            page.write("\n");
            if restart {
                page.put(Tone::Bold, "🔄");
                page.write(" Restarting Docker...\n");
                MirrorAction::Restart
            } else {
                page.write("\n");
                page.put(Tone::Yellow, "💡");
                page.write(" Restart Docker to apply changes:\n");
                let ghost before = page@;
                match platform {
                    Platform::Windows => {
                        page.write("  Restart Docker Desktop from the system tray\n");
                    },
                    Platform::Linux | Platform::Wsl => {
                        page.write("  sudo systemctl restart docker\n");
                    },
                    _ => {},
                }
                assert(page@ =~= before + restart_hint(platform));
                page.write("\n");
                assert(page@ =~= before + restart_hint(platform) + seq![plain("\n"@)]);
                MirrorAction::Finish
            }
        },
        MirrorEvent::Configured(Err(reason)) => MirrorAction::Fail(reason),
        MirrorEvent::Restarted(Ok(())) => {
            page.put(Tone::Green, "✓");
            page.write(" Docker restarted successfully.\n");
            MirrorAction::Finish
        },
        MirrorEvent::Restarted(Err(reason)) => MirrorAction::Fail(reason),
    };
    (page, action)
}

/// A mirror is configured only where it begins like a web address, whether the
/// user named it or the search found it.
pub proof fn only_web_addresses_are_configured(
    request: Option<Seq<char>>,
    remove: bool,
    event: MirrorEvent,
    restart: bool,
    platform: Platform,
)
    ensures
        mirror_start_view(request, remove).1 matches MirrorActionView::Configure(url)
            ==> is_web_address(url),
        mirror_next_view(event, restart, platform).1 matches MirrorActionView::Configure(url)
            ==> is_web_address(url),
{
}

/// What restarting Docker does next.
#[derive(Clone, Debug)]
pub enum RestartAction {
    /// Print a line.
    Say(String),
    /// Run a command; `launch` tells not to wait for its end.
    Run { program: String, args: Vec<String>, launch: bool },
    /// Pause for so many seconds.
    Rest(u64),
    /// Docker was restarted.
    Done,
    /// Docker was not restarted, and why.
    Fail(String),
}

/// What a step of restarting Docker says.
#[verifier::ext_equal]
pub enum RestartActionView {
    Say(Seq<char>),
    Run { program: Seq<char>, args: Seq<Seq<char>>, launch: bool },
    Rest(u64),
    Done,
    Fail(Seq<char>),
}

impl View for RestartAction {
    type V = RestartActionView;

    open spec fn view(&self) -> RestartActionView {
        match *self {
            RestartAction::Say(text) => RestartActionView::Say(text@),
            RestartAction::Run { program, args, launch } => RestartActionView::Run {
                program: program@,
                args: texts(args@),
                launch,
            },
            RestartAction::Rest(seconds) => RestartActionView::Rest(seconds),
            RestartAction::Done => RestartActionView::Done,
            RestartAction::Fail(reason) => RestartActionView::Fail(reason@),
        }
    }
}

/// What came of a command that restarts Docker.
#[derive(Clone, Debug)]
pub enum RestartOutcome {
    /// It could not be launched, and why.
    NotLaunched(String),
    Succeeded,
    /// It ended without success; what it printed on its error stream.
    Failed(String),
}

/// The commands that restart Docker: that of the system comes first, that of
/// a user's own Docker second.
pub open spec fn restart_command(own: bool) -> RestartActionView {
    if own {
        RestartActionView::Run {
            program: "systemctl"@,
            args: seq!["--user"@, "restart"@, "docker"@],
            launch: false,
        }
    } else {
        RestartActionView::Run {
            program: "sudo"@,
            args: seq!["systemctl"@, "restart"@, "docker"@],
            launch: false,
        }
    }
}

/// What follows a command that restarts Docker. Where that of the system ends
/// without success, that of a user's own Docker is tried.
pub open spec fn restart_next(own: bool, outcome: RestartOutcome) -> RestartActionView {
    match outcome {
        RestartOutcome::NotLaunched(reason) => if own {
            RestartActionView::Fail(reason@)
        } else {
            RestartActionView::Fail("Failed to restart Docker: "@ + reason@)
        },
        RestartOutcome::Succeeded => RestartActionView::Done,
        RestartOutcome::Failed(complaint) => if own {
            RestartActionView::Fail(
                "Could not restart Docker. Please restart manually.\n  stderr: "@ + complaint@,
            )
        } else {
            restart_command(true)
        },
    }
}

/// The command that restarts Docker; `own` asks for a user's own Docker.
fn restart_with(own: bool) -> (r: RestartAction)
    ensures
        r@ == restart_command(own),
{
    let mut args = no_texts();
    if own {
        push_copy(&mut args, "--user");
    } else {
        push_copy(&mut args, "systemctl");
    }
    push_copy(&mut args, "restart");
    push_copy(&mut args, "docker");
    let program = if own {
        "systemctl"
    } else {
        "sudo"
    };
    RestartAction::Run { program: program.to_owned(), args, launch: false }
}

/// How Docker is restarted, but on Windows: its first command.
pub fn restart_docker() -> (r: RestartAction)
    ensures
        r@ == restart_command(false),
{
    restart_with(false)
}

/// What follows a command that restarts Docker; `own` tells that it was that of
/// a user's own Docker.
pub fn after_restart(own: bool, outcome: RestartOutcome) -> (r: RestartAction)
    ensures
        r@ == restart_next(own, outcome),
{
    match outcome {
        RestartOutcome::NotLaunched(reason) => {
            if own {
                RestartAction::Fail(reason)
            } else {
                RestartAction::Fail("Failed to restart Docker: ".to_owned().concat(reason.as_str()))
            }
        },
        RestartOutcome::Succeeded => RestartAction::Done,
        RestartOutcome::Failed(complaint) => {
            if own {
                RestartAction::Fail(
                    "Could not restart Docker. Please restart manually.\n  stderr: ".to_owned()
                        .concat(complaint.as_str()),
                )
            } else {
                restart_with(true)
            }
        },
    }
}

/// What the steps of a plan say.
pub open spec fn plan_view(plan: Seq<RestartAction>) -> Seq<RestartActionView> {
    plan.map_values(|step: RestartAction| step@)
}

/// How Docker Desktop is restarted on Windows, step by step. Whether a command
/// did its work does not matter.
pub open spec fn windows_restart_view() -> Seq<RestartActionView> {
    seq![
        RestartActionView::Say("  Stopping Docker Desktop..."@),
        RestartActionView::Run {
            program: "taskkill"@,
            args: seq!["/F"@, "/IM"@, "Docker Desktop.exe"@],
            launch: false,
        },
        RestartActionView::Rest(3),
        RestartActionView::Say("  Starting Docker Desktop..."@),
        RestartActionView::Run { program: "start"@, args: seq!["Docker Desktop"@], launch: true },
        RestartActionView::Say("  Waiting for Docker to start..."@),
        RestartActionView::Rest(10),
    ]
}

/// Adds a step to a plan.
fn push_step(plan: &mut Vec<RestartAction>, step: RestartAction)
    ensures
        plan_view(final(plan)@) == plan_view(old(plan)@).push(step@),
{
    plan.push(step);
    assert(plan_view(plan@) =~= plan_view(old(plan)@).push(step@));
}

/// How Docker Desktop is restarted on Windows, step by step.
pub fn windows_restart_plan() -> (r: Vec<RestartAction>)
    ensures
        plan_view(r@) == windows_restart_view(),
{
    let mut kill = no_texts();
    push_copy(&mut kill, "/F");
    push_copy(&mut kill, "/IM");
    push_copy(&mut kill, "Docker Desktop.exe");
    let mut start = no_texts();
    push_copy(&mut start, "Docker Desktop");
    assert(texts(kill@) =~= seq!["/F"@, "/IM"@, "Docker Desktop.exe"@]);
    assert(texts(start@) =~= seq!["Docker Desktop"@]);
    let mut plan: Vec<RestartAction> = Vec::new();
    assert(plan_view(plan@) =~= seq![]);
    push_step(&mut plan, RestartAction::Say("  Stopping Docker Desktop...".to_owned()));
    push_step(&mut plan, RestartAction::Run { program: "taskkill".to_owned(), args: kill, launch: false });
    push_step(&mut plan, RestartAction::Rest(3));
    push_step(&mut plan, RestartAction::Say("  Starting Docker Desktop...".to_owned()));
    push_step(&mut plan, RestartAction::Run { program: "start".to_owned(), args: start, launch: true });
    push_step(&mut plan, RestartAction::Say("  Waiting for Docker to start...".to_owned()));
    push_step(&mut plan, RestartAction::Rest(10));
    plan
}

/// A mirror that the user names is configured as it is where it is a web address,
/// and refused otherwise; without one the search begins; and to remove the mirror
/// comes before both.
pub proof fn mirror_command_begins_as_asked(url: Option<Seq<char>>, remove: bool)
    ensures
        mirror_start_view(url, remove).1 is Remove <==> remove,
        mirror_start_view(url, remove).1 is Detect <==> !remove && url is None,
        mirror_start_view(url, remove).1 is Configure <==> !remove && (url matches Some(u)
            && is_web_address(u)),
        mirror_start_view(url, remove).1 is Finish <==> !remove && (url matches Some(u)
            && !is_web_address(u)),
        mirror_start_view(url, remove).1 matches MirrorActionView::Configure(u) ==> url == Some(u),
        !(mirror_start_view(url, remove).1 is Fail) && !(mirror_start_view(url, remove).1 is Restart),
        mirror_start_view(url, remove).0[0] == plain("\n"@),
        !remove ==> (url matches Some(u) ==> mirror_start_view(url, remove).0.skip(1)
            == choice_view(u).0),
        remove || url is None ==> mirror_start_view(url, remove).0.len() == 3,
{
    if !remove && url is Some {
        assert(mirror_start_view(url, remove).0.skip(1) =~= choice_view(url->0).0);
    }
}

/// A mirror that is chosen is shown as it is where it is configured; where it is
/// refused the command says what a mirror begins with.
pub proof fn chosen_mirrors_are_shown(url: Seq<char>)
    ensures
        is_web_address(url) ==> choice_view(url).1 == MirrorActionView::Configure(url)
            && choice_view(url).0.len() == 4 && choice_view(url).0[2] == styled(Tone::Cyan, url),
        !is_web_address(url) ==> choice_view(url).1 is Finish && choice_view(url).0.len() == 2
            && choice_view(url).0[0] == styled(Tone::Red, "✗"@) && choice_view(url).0[1] == plain(
            " Invalid mirror URL. Must start with http:// or https://\n"@,
        ),
{
}

/// The mirror that the search found is treated like one that the user named; where
/// it found none the command ends with advice.
pub proof fn found_mirrors_are_configured(url: String, restart: bool, platform: Platform)
    ensures
        ({
            let next = mirror_next_view(MirrorEvent::Detected(Some(url)), restart, platform);
            &&& next.1 == choice_view(url@).1
            &&& next.0.len() == 3 + choice_view(url@).0.len()
            &&& next.0[1] == styled(Tone::Cyan, url@)
            &&& next.0.skip(3) == choice_view(url@).0
        }),
        ({
            let none = mirror_next_view(MirrorEvent::Detected(None), restart, platform);
            &&& none.1 is Finish
            &&& none.0 == seq![
                styled(Tone::Red, "✗"@),
                plain(NO_MIRROR@),
                styled(Tone::Yellow, "ℹ"@),
                plain(NAMED_MIRRORS@),
            ]
        }),
{
    let next = mirror_next_view(MirrorEvent::Detected(Some(url)), restart, platform);
    assert(next.0.skip(3) =~= choice_view(url@).0);
}

/// Docker is restarted exactly where a mirror was configured and a restart is
/// asked for; without one the command says how to restart Docker on this platform.
pub proof fn docker_is_restarted_as_asked(path: String, restart: bool, platform: Platform)
    ensures
        ({
            let next = mirror_next_view(MirrorEvent::Configured(Ok(path)), restart, platform);
            &&& next.1 is Restart <==> restart
            &&& next.1 is Finish <==> !restart
            &&& next.0[0] == styled(Tone::Green, "✓"@)
            &&& next.0[2] == styled(Tone::Cyan, path@)
            &&& !restart ==> next.0.subrange(7, next.0.len() - 1) == restart_hint(platform)
            &&& restart ==> next.0.len() == 6
        }),
        platform is Windows ==> restart_hint(platform) == seq![
            plain("  Restart Docker Desktop from the system tray\n"@),
        ],
        platform is Linux || platform is Wsl ==> restart_hint(platform) == seq![
            plain("  sudo systemctl restart docker\n"@),
        ],
        platform is MacOs || platform is Other ==> restart_hint(platform).len() == 0,
{
    let next = mirror_next_view(MirrorEvent::Configured(Ok(path)), restart, platform);
    if !restart {
        assert(next.0.subrange(7, next.0.len() - 1) =~= restart_hint(platform));
    }
}

/// The command fails exactly where an action failed, with the reason as it is, and
/// shows nothing there.
pub proof fn mirror_command_fails_with_its_reason(
    event: MirrorEvent,
    restart: bool,
    platform: Platform,
)
    ensures
        mirror_next_view(event, restart, platform).1 is Fail <==> (
        event matches MirrorEvent::Removed(r) && r is Err) || (
        event matches MirrorEvent::Configured(r) && r is Err) || (
        event matches MirrorEvent::Restarted(r) && r is Err),
        event matches MirrorEvent::Removed(Err(reason)) ==> mirror_next_view(
            event,
            restart,
            platform,
        ).1 == MirrorActionView::Fail(reason@),
        event matches MirrorEvent::Configured(Err(reason)) ==> mirror_next_view(
            event,
            restart,
            platform,
        ).1 == MirrorActionView::Fail(reason@),
        event matches MirrorEvent::Restarted(Err(reason)) ==> mirror_next_view(
            event,
            restart,
            platform,
        ).1 == MirrorActionView::Fail(reason@),
        mirror_next_view(event, restart, platform).1 is Fail ==> mirror_next_view(
            event,
            restart,
            platform,
        ).0.len() == 0,
        event == MirrorEvent::Removed(Ok(())) || event == MirrorEvent::Restarted(Ok(()))
            ==> mirror_next_view(event, restart, platform).1 is Finish && mirror_next_view(
            event,
            restart,
            platform,
        ).0[0] == styled(Tone::Green, "✓"@),
        mirror_next_view(event, restart, platform).1 is Restart ==> event is Configured,
        !(mirror_next_view(event, restart, platform).1 is Remove) && !(mirror_next_view(
            event,
            restart,
            platform,
        ).1 is Detect),
{
}

/// Docker counts as restarted exactly where a command succeeded. The command of the
/// system comes first; that of a user's own Docker is tried only where the first
/// one ended without success, and nothing is tried behind it.
pub proof fn restarts_are_tried_in_order(own: bool, outcome: RestartOutcome)
    ensures
        restart_next(own, outcome) is Done <==> outcome is Succeeded,
        restart_next(own, outcome) is Run <==> outcome is Failed && !own,
        restart_next(own, outcome) is Run ==> restart_next(own, outcome) == restart_command(true),
        outcome matches RestartOutcome::Failed(complaint) ==> (own ==> restart_next(own, outcome)
            == RestartActionView::Fail(
            "Could not restart Docker. Please restart manually.\n  stderr: "@ + complaint@,
        )),
        outcome matches RestartOutcome::NotLaunched(reason) ==> (own ==> restart_next(own, outcome)
            == RestartActionView::Fail(reason@)),
        outcome matches RestartOutcome::NotLaunched(reason) ==> (!own ==> restart_next(own, outcome)
            == RestartActionView::Fail("Failed to restart Docker: "@ + reason@)),
        restart_command(false) == (RestartActionView::Run {
            program: "sudo"@,
            args: seq!["systemctl"@, "restart"@, "docker"@],
            launch: false,
        }),
        restart_command(true) == (RestartActionView::Run {
            program: "systemctl"@,
            args: seq!["--user"@, "restart"@, "docker"@],
            launch: false,
        }),
{
}

/// On Windows Docker Desktop is stopped before it is started, with a pause behind
/// each; only the start is not waited for.
pub proof fn windows_restart_stops_and_starts()
    ensures
        ({
            let plan = windows_restart_view();
            &&& plan.len() == 7
            &&& plan[1] == (RestartActionView::Run {
                program: "taskkill"@,
                args: seq!["/F"@, "/IM"@, "Docker Desktop.exe"@],
                launch: false,
            })
            &&& plan[2] == RestartActionView::Rest(3)
            &&& plan[4] == (RestartActionView::Run {
                program: "start"@,
                args: seq!["Docker Desktop"@],
                launch: true,
            })
            &&& plan[6] == RestartActionView::Rest(10)
            &&& plan[0] is Say && plan[3] is Say && plan[5] is Say
        }),
{
}

/// An action says what it holds.
pub proof fn mirror_actions_say_what_they_hold(action: MirrorAction)
    ensures
        action is Remove <==> action@ is Remove,
        action is Detect <==> action@ is Detect,
        action is Restart <==> action@ is Restart,
        action is Finish <==> action@ is Finish,
        action is Configure <==> action@ is Configure,
        action is Fail <==> action@ is Fail,
        action matches MirrorAction::Configure(url) ==> action@ == MirrorActionView::Configure(url@),
        action matches MirrorAction::Fail(reason) ==> action@ == MirrorActionView::Fail(reason@),
{
}

/// A step of restarting Docker says what it holds, in a plan as by itself.
pub proof fn restart_actions_say_what_they_hold(plan: Seq<RestartAction>, i: int)
    requires
        0 <= i < plan.len(),
    ensures
        plan_view(plan).len() == plan.len(),
        plan_view(plan)[i] == plan[i]@,
        plan[i] matches RestartAction::Say(text) ==> plan[i]@ == RestartActionView::Say(text@),
        plan[i] matches RestartAction::Run { program, args, launch } ==> plan[i]@ == (
        RestartActionView::Run { program: program@, args: texts(args@), launch }),
        plan[i] matches RestartAction::Rest(seconds) ==> plan[i]@ == RestartActionView::Rest(
            seconds,
        ),
        plan[i] is Done ==> plan[i]@ is Done,
        plan[i] matches RestartAction::Fail(reason) ==> plan[i]@ == RestartActionView::Fail(
            reason@,
        ),
{
}

} // verus!
