//! The `build` command: what it shows, asks and does.

use crate::clock::date_text;
use crate::config::configured_tag_wins;
use crate::config::docker_args_give_their_options;
use crate::config::gives;
use crate::config::BuildConfig;
use crate::console::ask;
use crate::console::ask_continue;
use crate::console::banner_view;
use crate::console::consents;
use crate::console::effective_jobs;
use crate::console::jobs_are_as_asked;
use crate::console::jobs_for;
use crate::console::print_banner;
use crate::console::question_view;
use crate::docker::docker_install_guide;
use crate::docker::guide_steps;
use crate::docker::guide_title;
use crate::docker::DockerStatus;
use crate::docker::Platform;
use crate::page::plain;
use crate::page::styled;
use crate::page::Page;
use crate::page::PieceView;
use crate::page::Tone;
use crate::text::decimal;
use crate::text::decimal_text;
use crate::text::parsed_u32;
use vstd::prelude::*;

verus! {

/// What the user asks to be built.
#[derive(Debug)]
pub struct BuildRequest {
    pub method: String,
    pub version: String,
    pub mpi: String,
    pub cpu: String,
    pub cuda: String,
    pub variant: String,
    /// The number of jobs; zero asks for one per processor.
    pub jobs: u32,
    pub tag: Option<String>,
    pub no_cache: bool,
    pub dockerfile: Option<String>,
    pub shm_size: String,
    pub output: String,
    /// Do not ask whether Docker is there.
    pub force: bool,
}

/// Where the `build` command stands.
#[derive(Clone, Copy, Debug, PartialEq, Eq, Structural)]
pub enum BuildCommandStage {
    Ready,
    DockerAsked,
    OverrideAsked,
    StartAsked,
    Building,
    Over,
}

/// How a build ended.
#[derive(Clone, Debug)]
pub enum BuildEnd {
    Succeeded,
    Failed(String),
    /// The build broke off, and what it left to say.
    Panicked(String),
}

/// What the `build` command waits for.
#[derive(Clone, Debug)]
pub enum BuildCommandEvent {
    Begin,
    Docker(DockerStatus),
    /// The line that the user typed.
    Answer(String),
    Ended(BuildEnd),
}

/// What the `build` command does next.
#[derive(Clone, Copy, Debug, PartialEq, Eq, Structural)]
pub enum BuildCommandAction {
    /// Find out whether Docker is there.
    CheckDocker,
    /// Read a line from the user.
    ReadAnswer,
    /// Build on this machine.
    BuildNative,
    /// Build an image.
    BuildImage,
    /// End the program with this code.
    Exit(i32),
    /// Wait for what the stage is about.
    Wait,
}

/// The `build` command under way.
#[derive(Debug)]
pub struct BuildCommand {
    pub config: BuildConfig,
    pub force: bool,
    pub platform: Platform,
    pub stage: BuildCommandStage,
}

/// The configuration is what the request asks for, on a machine with the given
/// parallelism.
pub open spec fn configures(
    request: BuildRequest,
    parallelism: Option<usize>,
    config: BuildConfig,
) -> bool {
    &&& config.method == request.method
    &&& config.version == request.version
    &&& config.mpi == request.mpi
    &&& config.cpu == request.cpu
    &&& config.cuda == request.cuda
    &&& config.variant == request.variant
    &&& config.jobs == jobs_for(request.jobs, parallelism)
    &&& config.tag@ == match request.tag {
        Some(tag) => tag@,
        None => Seq::empty(),
    }
    &&& config.no_cache == request.no_cache
    &&& config.dockerfile == request.dockerfile
    &&& config.shm_size == request.shm_size
    &&& config._output == request.output
}

/// The configuration as the command shows it, with the question whether to
/// start.
pub open spec fn configuration_view(config: BuildConfig, tag: Seq<char>) -> Seq<PieceView> {
    seq![
        plain("\n"@),
        styled(Tone::YellowBold, "Build Configuration:"@),
        plain("\n  Method:     "@),
        styled(Tone::Cyan, config.method@),
        plain("\n  Version:    "@),
        styled(Tone::Cyan, config.version@),
        plain("\n  MPI:        "@),
        styled(Tone::Cyan, config.mpi@),
        plain("\n  CPU Target: "@),
        styled(Tone::Cyan, config.cpu@),
        plain("\n  CUDA:       "@),
        styled(Tone::Cyan, config.cuda@),
        plain("\n  Variant:    "@),
        styled(Tone::Cyan, config.variant@),
        plain("\n  Jobs:       "@),
        styled(Tone::Cyan, decimal(config.jobs as nat)),
        plain("\n  Image Tag:  "@),
        styled(Tone::Cyan, tag),
        plain("\n\n"@),
    ] + question_view("Start build?"@)
}

/// What the command shows about the state of Docker.
pub open spec fn docker_view(
    status: DockerStatus,
    platform: Platform,
    config: BuildConfig,
    tag: Seq<char>,
) -> Seq<PieceView> {
    match status {
        DockerStatus::Installed { version, running: true } => seq![
            styled(Tone::Green, "✓"@),
            plain(" Docker Engine: "@),
            styled(Tone::Cyan, version@),
            plain(" (running)\n"@),
        ] + configuration_view(config, tag),
        DockerStatus::Installed { running: false, .. } => seq![
            styled(Tone::Red, "✗"@),
            plain(
                " Docker Engine is installed but not running!\n  Please start Docker Desktop or the Docker daemon.\n  Run 'forge2k check' for more details.\n\n"@,
            ),
        ] + question_view("Continue anyway?"@),
        DockerStatus::NotInstalled => seq![
            styled(Tone::Red, "✗"@),
            plain(" Docker Engine is not installed!\n"@),
        ] + (guide_title() + guide_steps(platform)),
        DockerStatus::NotRunning => seq![
            styled(Tone::Red, "✗"@),
            plain(
                " Docker daemon is not running!\n  Please start Docker Desktop or restart the Docker daemon.\n\n"@,
            ),
        ] + question_view("Continue anyway?"@),
    }
}

/// What the command shows at the end of a build.
pub open spec fn end_view(end: BuildEnd) -> Seq<PieceView> {
    match end {
        BuildEnd::Succeeded => seq![
            plain("\n"@),
            styled(Tone::Bold, "✅"@),
            plain(" Build process finished.\n"@),
        ],
        BuildEnd::Failed(reason) => seq![
            plain("\n"@),
            styled(Tone::RedBold, "❌"@),
            plain(" Build failed: "@),
            styled(Tone::Red, reason@),
            plain("\n"@),
        ],
        BuildEnd::Panicked(payload) => seq![
            plain("\n"@),
            styled(Tone::RedBold, "💥"@),
            plain(" Build thread panicked: "@ + payload@ + "\n"@),
        ],
    }
}

/// What the command shows when an event comes at a stage.
pub open spec fn build_view(
    stage: BuildCommandStage,
    event: BuildCommandEvent,
    force: bool,
    platform: Platform,
    config: BuildConfig,
    tag: Seq<char>,
) -> Seq<PieceView> {
    match (stage, event) {
        (BuildCommandStage::Ready, BuildCommandEvent::Begin) => if force {
            banner_view() + configuration_view(config, tag)
        } else {
            banner_view()
        },
        (BuildCommandStage::DockerAsked, BuildCommandEvent::Docker(status)) => docker_view(
            status,
            platform,
            config,
            tag,
        ),
        (BuildCommandStage::OverrideAsked, BuildCommandEvent::Answer(line)) => if consents(line@) {
            configuration_view(config, tag)
        } else {
            seq![]
        },
        (BuildCommandStage::StartAsked, BuildCommandEvent::Answer(line)) => if consents(line@) {
            seq![plain("\n"@), styled(Tone::Bold, "🚀"@), plain(" Starting build...\n\n"@)]
        } else {
            seq![styled(Tone::Yellow, "⏹"@), plain(" Build cancelled.\n"@)]
        },
        (BuildCommandStage::Building, BuildCommandEvent::Ended(end)) => end_view(end),
        _ => seq![],
    }
}

/// Where the command goes, and what it does, when an event comes at a stage.
pub open spec fn build_next(
    stage: BuildCommandStage,
    event: BuildCommandEvent,
    force: bool,
    native: bool,
) -> (BuildCommandStage, BuildCommandAction) {
    match (stage, event) {
        (BuildCommandStage::Ready, BuildCommandEvent::Begin) => if force {
            (BuildCommandStage::StartAsked, BuildCommandAction::ReadAnswer)
        } else {
            (BuildCommandStage::DockerAsked, BuildCommandAction::CheckDocker)
        },
        (BuildCommandStage::DockerAsked, BuildCommandEvent::Docker(status)) => match status {
            DockerStatus::Installed { running: true, .. } => (
                BuildCommandStage::StartAsked,
                BuildCommandAction::ReadAnswer,
            ),
            DockerStatus::NotInstalled => (BuildCommandStage::Over, BuildCommandAction::Exit(0)),
            _ => (BuildCommandStage::OverrideAsked, BuildCommandAction::ReadAnswer),
        },
        (BuildCommandStage::OverrideAsked, BuildCommandEvent::Answer(line)) => if consents(line@) {
            (BuildCommandStage::StartAsked, BuildCommandAction::ReadAnswer)
        } else {
            (BuildCommandStage::Over, BuildCommandAction::Exit(0))
        },
        (BuildCommandStage::StartAsked, BuildCommandEvent::Answer(line)) => if consents(line@) {
            (
                BuildCommandStage::Building,
                if native {
                    BuildCommandAction::BuildNative
                } else {
                    BuildCommandAction::BuildImage
                },
            )
        } else {
            (BuildCommandStage::Over, BuildCommandAction::Exit(0))
        },
        (BuildCommandStage::Building, BuildCommandEvent::Ended(end)) => (
            BuildCommandStage::Over,
            if end is Succeeded {
                BuildCommandAction::Exit(0)
            } else {
                BuildCommandAction::Exit(1)
            },
        ),
        _ => (stage, BuildCommandAction::Wait),
    }
}

/// Adds the configuration, with the question whether to start.
fn show_configuration(page: &mut Page, config: &BuildConfig, tag: &str)
    ensures
        final(page)@ == old(page)@ + configuration_view(*config, tag@),
{
    let ghost before = page@;
    page.write("\n");
    page.put(Tone::YellowBold, "Build Configuration:");
    page.write("\n  Method:     ");
    page.put(Tone::Cyan, config.method.as_str());
    page.write("\n  Version:    ");
    page.put(Tone::Cyan, config.version.as_str());
    page.write("\n  MPI:        ");
    page.put(Tone::Cyan, config.mpi.as_str());
    page.write("\n  CPU Target: ");
    page.put(Tone::Cyan, config.cpu.as_str());
    page.write("\n  CUDA:       ");
    page.put(Tone::Cyan, config.cuda.as_str());
    page.write("\n  Variant:    ");
    page.put(Tone::Cyan, config.variant.as_str());
    page.write("\n  Jobs:       ");
    page.put(Tone::Cyan, decimal_text(config.jobs as u64).as_str());
    page.write("\n  Image Tag:  ");
    page.put(Tone::Cyan, tag);
    page.write("\n\n");
    ask(page, "Start build?");
    assert(page@ =~= before + configuration_view(*config, tag@));
}

/// Adds what the command shows about the state of Docker.
fn show_docker(
    page: &mut Page,
    status: &DockerStatus,
    platform: Platform,
    config: &BuildConfig,
    tag: &str,
)
    ensures
        final(page)@ == old(page)@ + docker_view(*status, platform, *config, tag@),
{
    let ghost before = page@;
    match status {
        DockerStatus::Installed { version, running } => {
            if *running {
                page.put(Tone::Green, "✓");
                page.write(" Docker Engine: ");
                page.put(Tone::Cyan, version.as_str());
                page.write(" (running)\n");
                show_configuration(page, config, tag);
            } else {
                page.put(Tone::Red, "✗");
                page.write(
                    " Docker Engine is installed but not running!\n  Please start Docker Desktop or the Docker daemon.\n  Run 'forge2k check' for more details.\n\n",
                );
                ask(page, "Continue anyway?");
            }
        },
        DockerStatus::NotInstalled => {
            page.put(Tone::Red, "✗");
            page.write(" Docker Engine is not installed!\n");
            page.append(docker_install_guide(platform));
        },
        DockerStatus::NotRunning => {
            page.put(Tone::Red, "✗");
            page.write(
                " Docker daemon is not running!\n  Please start Docker Desktop or restart the Docker daemon.\n\n",
            );
            ask(page, "Continue anyway?");
        },
    }
    assert(page@ =~= before + docker_view(*status, platform, *config, tag@));
}

/// What the command shows at the end of a build.
pub fn end_page(end: &BuildEnd) -> (r: Page)
    ensures
        r@ == end_view(*end),
{
    let mut page = Page::new();
    page.write("\n");
    match end {
        BuildEnd::Succeeded => {
            page.put(Tone::Bold, "✅");
            page.write(" Build process finished.\n");
        },
        BuildEnd::Failed(reason) => {
            page.put(Tone::RedBold, "❌");
            page.write(" Build failed: ");
            page.put(Tone::Red, reason.as_str());
            page.write("\n");
        },
        BuildEnd::Panicked(payload) => {
            page.put(Tone::RedBold, "💥");
            page.write(
                " Build thread panicked: ".to_owned().concat(payload.as_str()).concat("\n").as_str(),
            );
        },
    }
    page
}

impl BuildCommand {
    /// The command for a request, on a machine with the given parallelism.
    pub fn new(request: BuildRequest, parallelism: Option<usize>, platform: Platform) -> (r:
        BuildCommand)
        ensures
            configures(request, parallelism, r.config),
            r.force == request.force,
            r.platform == platform,
            r.stage == BuildCommandStage::Ready,
    {
        let config = BuildConfig {
            method: request.method,
            version: request.version,
            mpi: request.mpi,
            cpu: request.cpu,
            cuda: request.cuda,
            variant: request.variant,
            jobs: effective_jobs(request.jobs, parallelism),
            tag: match request.tag {
                Some(tag) => tag,
                None => String::new(),
            },
            no_cache: request.no_cache,
            shm_size: request.shm_size,
            dockerfile: request.dockerfile,
            _output: request.output,
        };
        BuildCommand {
            config,
            force: request.force,
            platform,
            stage: BuildCommandStage::Ready,
        }
    }

    /// What the command shows when an event comes, where the image has the given tag.
    pub fn page_for(&self, event: &BuildCommandEvent, tag: &str) -> (r: Page)
        ensures
            r@ == build_view(
                self.stage,
                *event,
                self.force,
                self.platform,
                self.config,
                tag@,
            ),
    {
        let mut page = Page::new();
        match (self.stage, event) {
            (BuildCommandStage::Ready, BuildCommandEvent::Begin) => {
                page = print_banner();
                if self.force {
                    show_configuration(&mut page, &self.config, tag);
                }
            },
            (BuildCommandStage::DockerAsked, BuildCommandEvent::Docker(status)) => {
                show_docker(&mut page, status, self.platform, &self.config, tag);
            },
            (BuildCommandStage::OverrideAsked, BuildCommandEvent::Answer(line)) => {
                if ask_continue(line.as_str()) {
                    show_configuration(&mut page, &self.config, tag);
                }
            },
            (BuildCommandStage::StartAsked, BuildCommandEvent::Answer(line)) => {
                if ask_continue(line.as_str()) {
                    page.write("\n");
                    page.put(Tone::Bold, "🚀");
                    page.write(" Starting build...\n\n");
                } else {
                    page.put(Tone::Yellow, "⏹");
                    page.write(" Build cancelled.\n");
                }
            },
            (BuildCommandStage::Building, BuildCommandEvent::Ended(end)) => {
                page = end_page(end);
            },
            _ => {},
        }
        assert(page@ =~= build_view(
            self.stage,
            *event,
            self.force,
            self.platform,
            self.config,
            tag@,
        ));
        page
    }

    /// Whether the command shows the tag of the image when an event comes.
    fn names_tag(&self, event: &BuildCommandEvent) -> (r: bool)
        ensures
            !r ==> forall|a: Seq<char>, b: Seq<char>| #[trigger]
                build_view(self.stage, *event, self.force, self.platform, self.config, a)
                    == #[trigger] build_view(
                    self.stage,
                    *event,
                    self.force,
                    self.platform,
                    self.config,
                    b,
                ),
    {
        match (self.stage, event) {
            (BuildCommandStage::Ready, BuildCommandEvent::Begin) => self.force,
            (BuildCommandStage::DockerAsked, BuildCommandEvent::Docker(status)) => match status {
                DockerStatus::Installed { running, .. } => *running,
                _ => false,
            },
            (BuildCommandStage::OverrideAsked, BuildCommandEvent::Answer(line)) => ask_continue(
                line.as_str(),
            ),
            _ => false,
        }
    }

    /// Takes an event, goes on to the next stage, and gives what to show and
    /// what to do.
    pub fn cmd_build(&mut self, event: BuildCommandEvent) -> (r: (Page, BuildCommandAction))
        ensures
            *final(self) == (BuildCommand { stage: final(self).stage, ..*old(self) }),
            (final(self).stage, r.1) == build_next(
                old(self).stage,
                event,
                old(self).force,
                old(self).config.is_native(),
            ),
            exists|tag: Seq<char>|
                old(self).config.is_tag(tag) && r.0@ == #[trigger] build_view(
                    old(self).stage,
                    event,
                    old(self).force,
                    old(self).platform,
                    old(self).config,
                    tag,
                ),
            !old(self).config.is_dated() ==> r.0@ == build_view(
                old(self).stage,
                event,
                old(self).force,
                old(self).platform,
                old(self).config,
                old(self).config.tag_on(Seq::empty()),
            ),
    {
        let names_tag = self.names_tag(&event);
        let tag = if names_tag {
            self.config.default_tag()
        } else {
            String::new()
        };
        let page = self.page_for(&event, tag.as_str());
        proof {
            self.config.some_tag();
            let named = if names_tag {
                tag@
            } else {
                self.config.tag_on(date_text(1970, 1, 1))
            };
            assert(self.config.is_tag(named) && page@ == build_view(
                self.stage,
                event,
                self.force,
                self.platform,
                self.config,
                named,
            ));
        }
        let (stage, action) = match (self.stage, &event) {
            (BuildCommandStage::Ready, BuildCommandEvent::Begin) => {
                if self.force {
                    (BuildCommandStage::StartAsked, BuildCommandAction::ReadAnswer)
                } else {
                    (BuildCommandStage::DockerAsked, BuildCommandAction::CheckDocker)
                }
            },
            (BuildCommandStage::DockerAsked, BuildCommandEvent::Docker(status)) => match status {
                DockerStatus::Installed { running, .. } => {
                    if *running {
                        (BuildCommandStage::StartAsked, BuildCommandAction::ReadAnswer)
                    } else {
                        (BuildCommandStage::OverrideAsked, BuildCommandAction::ReadAnswer)
                    }
                },
                DockerStatus::NotInstalled => (
                    BuildCommandStage::Over,
                    BuildCommandAction::Exit(0),
                ),
                DockerStatus::NotRunning => (
                    BuildCommandStage::OverrideAsked,
                    BuildCommandAction::ReadAnswer,
                ),
            },
            (BuildCommandStage::OverrideAsked, BuildCommandEvent::Answer(line)) => {
                if ask_continue(line.as_str()) {
                    (BuildCommandStage::StartAsked, BuildCommandAction::ReadAnswer)
                } else {
                    (BuildCommandStage::Over, BuildCommandAction::Exit(0))
                }
            },
            (BuildCommandStage::StartAsked, BuildCommandEvent::Answer(line)) => {
                if !ask_continue(line.as_str()) {
                    (BuildCommandStage::Over, BuildCommandAction::Exit(0))
                } else if self.config.builds_natively() {
                    (BuildCommandStage::Building, BuildCommandAction::BuildNative)
                } else {
                    (BuildCommandStage::Building, BuildCommandAction::BuildImage)
                }
            },
            (BuildCommandStage::Building, BuildCommandEvent::Ended(end)) => match end {
                BuildEnd::Succeeded => (BuildCommandStage::Over, BuildCommandAction::Exit(0)),
                _ => (BuildCommandStage::Over, BuildCommandAction::Exit(1)),
            },
            (stage, _) => (stage, BuildCommandAction::Wait),
        };
        self.stage = stage;
        (page, action)
    }
}

/// Where the command stands after some events.
pub open spec fn stage_after(events: Seq<BuildCommandEvent>, force: bool, native: bool) ->
    BuildCommandStage
    decreases events.len(),
{
    if events.len() == 0 {
        BuildCommandStage::Ready
    } else {
        build_next(
            stage_after(events.drop_last(), force, native),
            events.last(),
            force,
            native,
        ).0
    }
}

/// The user consents.
pub open spec fn is_consent(event: BuildCommandEvent) -> bool {
    event matches BuildCommandEvent::Answer(line) && consents(line@)
}

/// Docker is there, at work or not.
pub open spec fn finds_docker(event: BuildCommandEvent) -> bool {
    event matches BuildCommandEvent::Docker(status) && !(status is NotInstalled)
}

/// Docker is at work.
pub open spec fn finds_docker_at_work(event: BuildCommandEvent) -> bool {
    event matches BuildCommandEvent::Docker(status)
        && status matches DockerStatus::Installed { running, .. } && running
}

/// The command is at a stage that comes after the state of Docker was told.
pub open spec fn past_docker(stage: BuildCommandStage) -> bool {
    stage is OverrideAsked || stage is StartAsked || stage is Building
}

/// No build starts without the consent of the user. Without force it starts
/// only where Docker was found; where Docker was not found at work, the user
/// consents a second time.
pub proof fn builds_need_consent(events: Seq<BuildCommandEvent>, force: bool, native: bool)
    requires
        stage_after(events, force, native) is Building,
    ensures
        exists|i: int| 0 <= i < events.len() && is_consent(#[trigger] events[i]),
        force || exists|i: int| 0 <= i < events.len() && finds_docker(#[trigger] events[i]),
        force || (exists|i: int|
            0 <= i < events.len() && finds_docker_at_work(#[trigger] events[i])) || (exists|
            i: int,
            j: int,
        |
            0 <= i < j < events.len() && is_consent(#[trigger] events[i]) && is_consent(
                #[trigger] events[j],
            )),
{
    consent_comes_first(events, force, native);
}

proof fn consent_comes_first(events: Seq<BuildCommandEvent>, force: bool, native: bool)
    ensures
        ({
            let stage = stage_after(events, force, native);
            let found = exists|i: int|
                0 <= i < events.len() && finds_docker(#[trigger] events[i]);
            let at_work = exists|i: int|
                0 <= i < events.len() && finds_docker_at_work(#[trigger] events[i]);
            let once = exists|i: int| 0 <= i < events.len() && is_consent(#[trigger] events[i]);
            let twice = exists|i: int, j: int|
                0 <= i < j < events.len() && is_consent(#[trigger] events[i]) && is_consent(
                    #[trigger] events[j],
                );
            &&& past_docker(stage) ==> force || found
            &&& stage is StartAsked ==> force || at_work || once
            &&& stage is Building ==> once && (force || at_work || twice)
        }),
    decreases events.len(),
{
    if events.len() > 0 {
        let before = events.drop_last();
        let n = before.len() as int;
        consent_comes_first(before, force, native);
        assert(events[n] == events.last());
        assert forall|i: int| 0 <= i < n implies #[trigger] events[i] == before[i] by {}
        if exists|i: int| 0 <= i < before.len() && finds_docker(#[trigger] before[i]) {
            let i = choose|i: int| 0 <= i < before.len() && finds_docker(#[trigger] before[i]);
            assert(finds_docker(events[i]));
        }
        if exists|i: int| 0 <= i < before.len() && finds_docker_at_work(#[trigger] before[i]) {
            let i = choose|i: int|
                0 <= i < before.len() && finds_docker_at_work(#[trigger] before[i]);
            assert(finds_docker_at_work(events[i]));
        }
        if exists|i: int| 0 <= i < before.len() && is_consent(#[trigger] before[i]) {
            let i = choose|i: int| 0 <= i < before.len() && is_consent(#[trigger] before[i]);
            assert(is_consent(events[i]));
        }
        if exists|i: int, j: int|
            0 <= i < j < before.len() && is_consent(#[trigger] before[i]) && is_consent(
                #[trigger] before[j],
            ) {
            let (i, j) = choose|i: int, j: int|
                0 <= i < j < before.len() && is_consent(#[trigger] before[i]) && is_consent(
                    #[trigger] before[j],
                );
            assert(is_consent(events[i]) && is_consent(events[j]));
        }
    }
}

/// Every option of a request reaches the configuration as it is, whatever the
/// others are; a tag that is not given is empty.
pub proof fn requests_reach_the_configuration(
    request: BuildRequest,
    parallelism: Option<usize>,
    config: BuildConfig,
)
    requires
        configures(request, parallelism, config),
    ensures
        config.method@ == request.method@,
        config.version@ == request.version@,
        config.mpi@ == request.mpi@,
        config.cpu@ == request.cpu@,
        config.cuda@ == request.cuda@,
        config.variant@ == request.variant@,
        request.jobs > 0 ==> config.jobs == request.jobs,
        request.tag matches Some(tag) ==> config.tag@ == tag@,
        request.tag is None ==> config.tag@.len() == 0,
        config.no_cache <==> request.no_cache,
        config.dockerfile is Some <==> request.dockerfile is Some,
        request.dockerfile matches Some(path) ==> config.dockerfile->0@ == path@,
        config.shm_size@ == request.shm_size@,
        config._output@ == request.output@,
{
    jobs_are_as_asked(request.jobs, parallelism);
}

/// What the user asks for reaches Docker: the shared memory size, the tag, the
/// number of jobs, and whether the cache is used.
pub proof fn requests_reach_docker(
    request: BuildRequest,
    parallelism: Option<usize>,
    config: BuildConfig,
    tag: Seq<char>,
    path: Seq<char>,
    context: Seq<char>,
)
    requires
        configures(request, parallelism, config),
    ensures
        ({
            let args = config.docker_args_view(tag, path, context);
            &&& gives(args, "--shm-size"@, request.shm_size@)
            &&& gives(args, "-t"@, tag)
            &&& gives(args, "-f"@, path)
            &&& request.jobs > 0 ==> exists|jobs: Seq<char>|
                parsed_u32(jobs) == Some(request.jobs) && gives(
                    args,
                    "--build-arg"@,
                    "NUM_PROCS="@ + jobs,
                )
            &&& args.len() == 11 <==> request.no_cache
            &&& request.no_cache ==> args[3] == "--no-cache"@
        }),
        request.tag matches Some(named) ==> (named@.len() > 0 ==> config.tag_on(path) == named@),
{
    docker_args_give_their_options(config, tag, path, context);
    jobs_are_as_asked(request.jobs, parallelism);
    if request.tag is Some && request.tag->0@.len() > 0 {
        configured_tag_wins(config, path);
    }
}

/// The command shows the configuration, each value as it is, and asks whether to
/// start.
pub proof fn configuration_is_shown(config: BuildConfig, tag: Seq<char>)
    ensures
        ({
            let shown = configuration_view(config, tag);
            &&& shown.len() == 21
            &&& shown[2] == plain("\n  Method:     "@)
            &&& shown[3] == styled(Tone::Cyan, config.method@)
            &&& shown[4] == plain("\n  Version:    "@)
            &&& shown[5] == styled(Tone::Cyan, config.version@)
            &&& shown[6] == plain("\n  MPI:        "@)
            &&& shown[7] == styled(Tone::Cyan, config.mpi@)
            &&& shown[8] == plain("\n  CPU Target: "@)
            &&& shown[9] == styled(Tone::Cyan, config.cpu@)
            &&& shown[10] == plain("\n  CUDA:       "@)
            &&& shown[11] == styled(Tone::Cyan, config.cuda@)
            &&& shown[12] == plain("\n  Variant:    "@)
            &&& shown[13] == styled(Tone::Cyan, config.variant@)
            &&& shown[14] == plain("\n  Jobs:       "@)
            &&& shown[15] == styled(Tone::Cyan, decimal(config.jobs as nat))
            &&& shown[16] == plain("\n  Image Tag:  "@)
            &&& shown[17] == styled(Tone::Cyan, tag)
            &&& shown.skip(19) == question_view("Start build?"@)
        }),
{
    assert(configuration_view(config, tag).skip(19) =~= question_view("Start build?"@));
}

/// A page ends with another.
pub open spec fn ends_with(page: Seq<PieceView>, end: Seq<PieceView>) -> bool {
    exists|front: Seq<PieceView>| page == #[trigger] (front + end)
}

/// Whenever the command comes to ask whether to start, it has just shown the
/// configuration; whenever it asks whether to go on without Docker, it has just
/// asked so.
pub proof fn questions_are_asked_before_answers_are_read(
    stage: BuildCommandStage,
    event: BuildCommandEvent,
    force: bool,
    native: bool,
    platform: Platform,
    config: BuildConfig,
    tag: Seq<char>,
)
    ensures
        ({
            let next = build_next(stage, event, force, native);
            let shown = build_view(stage, event, force, platform, config, tag);
            &&& next.0 is StartAsked && next.1 is ReadAnswer ==> ends_with(
                shown,
                configuration_view(config, tag),
            )
            &&& next.0 is OverrideAsked && next.1 is ReadAnswer ==> ends_with(
                shown,
                question_view("Continue anyway?"@),
            )
            &&& next.1 is ReadAnswer ==> next.0 is StartAsked || next.0 is OverrideAsked
            &&& next.1 is Wait ==> shown.len() == 0 && next.0 == stage
        }),
{
    let next = build_next(stage, event, force, native);
    let shown = build_view(stage, event, force, platform, config, tag);
    if next.0 is StartAsked && next.1 is ReadAnswer {
        let end = configuration_view(config, tag);
        match stage {
            BuildCommandStage::Ready => {
                assert(shown == banner_view() + end);
            },
            BuildCommandStage::OverrideAsked => {
                assert(shown =~= Seq::<PieceView>::empty() + end);
            },
            _ => {
                let front = shown.take(4);
                assert(shown =~= front + end);
            },
        }
    }
    if next.0 is OverrideAsked && next.1 is ReadAnswer {
        let front = shown.take(2);
        assert(shown =~= front + question_view("Continue anyway?"@));
    }
}

/// The command ends with the code 1 exactly where the build ended without success;
/// it ends with 0 where it succeeded, where the user declined, and where Docker is
/// not installed.
pub proof fn exit_codes_tell_the_end(
    stage: BuildCommandStage,
    event: BuildCommandEvent,
    force: bool,
    native: bool,
)
    ensures
        ({
            let next = build_next(stage, event, force, native);
            let ended = stage is Building && event is Ended;
            let declined = (stage is OverrideAsked || stage is StartAsked) && (
            event matches BuildCommandEvent::Answer(line) && !consents(line@));
            let no_docker = stage is DockerAsked && event == BuildCommandEvent::Docker(
                DockerStatus::NotInstalled,
            );
            &&& next.1 == BuildCommandAction::Exit(1) <==> ended && !(event->Ended_0 is Succeeded)
            &&& next.1 == BuildCommandAction::Exit(0) <==> (ended && event->Ended_0 is Succeeded)
                || declined || no_docker
            &&& next.1 is Exit ==> next.0 is Over && (next.1 == BuildCommandAction::Exit(0)
                || next.1 == BuildCommandAction::Exit(1))
        }),
{
}

/// A build starts exactly where the user consents to the start; it runs on this
/// machine where the method says so, and with Docker otherwise.
pub proof fn builds_start_on_consent(
    stage: BuildCommandStage,
    event: BuildCommandEvent,
    force: bool,
    native: bool,
)
    ensures
        ({
            let next = build_next(stage, event, force, native);
            let consent = stage is StartAsked && is_consent(event);
            &&& next.1 is BuildNative <==> consent && native
            &&& next.1 is BuildImage <==> consent && !native
            &&& consent ==> next.0 is Building
            &&& next.1 is CheckDocker <==> stage is Ready && event is Begin && !force
            &&& stage is Ready && event is Begin && force ==> next == (
                BuildCommandStage::StartAsked,
                BuildCommandAction::ReadAnswer,
            )
            &&& stage is DockerAsked && finds_docker_at_work(event) ==> next == (
                BuildCommandStage::StartAsked,
                BuildCommandAction::ReadAnswer,
            )
            &&& stage is DockerAsked && finds_docker(event) && !finds_docker_at_work(event)
                ==> next == (BuildCommandStage::OverrideAsked, BuildCommandAction::ReadAnswer)
            &&& stage is OverrideAsked && is_consent(event) ==> next == (
                BuildCommandStage::StartAsked,
                BuildCommandAction::ReadAnswer,
            )
        }),
{
}

/// What the command does depends on force only at its beginning, and on the method
/// only where a build starts; a command that is over stays so.
pub proof fn command_depends_on_few_things(
    stage: BuildCommandStage,
    event: BuildCommandEvent,
    force: bool,
    native: bool,
)
    ensures
        !(stage is Ready) ==> build_next(stage, event, force, native) == build_next(
            stage,
            event,
            !force,
            native,
        ),
        !(stage is StartAsked) ==> build_next(stage, event, force, native) == build_next(
            stage,
            event,
            force,
            !native,
        ),
        stage is Over ==> build_next(stage, event, force, native) == (
            BuildCommandStage::Over,
            BuildCommandAction::Wait,
        ),
{
}

/// The state of Docker is shown: its version where it runs, the guide for the
/// platform where it is not installed.
pub proof fn docker_is_shown(
    status: DockerStatus,
    platform: Platform,
    config: BuildConfig,
    tag: Seq<char>,
)
    ensures
        ({
            let shown = docker_view(status, platform, config, tag);
            &&& status matches DockerStatus::Installed { version, running } ==> (running
                ==> shown.len() == 25 && shown[0] == styled(Tone::Green, "✓"@) && shown[2]
                == styled(Tone::Cyan, version@))
            &&& status matches DockerStatus::Installed { version, running } ==> (!running
                ==> shown.len() == 4 && shown[0] == styled(Tone::Red, "✗"@))
            &&& status is NotInstalled ==> shown[0] == styled(Tone::Red, "✗"@) && shown.skip(2)
                == guide_title() + guide_steps(platform)
            &&& status is NotRunning ==> shown.len() == 4 && shown[0] == styled(Tone::Red, "✗"@)
        }),
{
    if status is NotInstalled {
        assert(docker_view(status, platform, config, tag).skip(2) =~= guide_title() + guide_steps(
            platform,
        ));
    }
}

/// The end of a build is shown as what it is: a failure with its reason, a build
/// that broke off with what it left to say.
pub proof fn end_is_shown(end: BuildEnd)
    ensures
        end is Succeeded ==> end_view(end).len() == 3 && end_view(end)[2] == plain(
            " Build process finished.\n"@,
        ),
        end matches BuildEnd::Failed(reason) ==> end_view(end).len() == 5 && end_view(end)[2]
            == plain(" Build failed: "@) && end_view(end)[3] == styled(Tone::Red, reason@),
        end matches BuildEnd::Panicked(payload) ==> end_view(end).len() == 3 && end_view(end)[2]
            == plain(" Build thread panicked: "@ + payload@ + "\n"@),
{
}

/// An answer is met with what it means: a start is announced, and so is that
/// nothing is built; the end of a build is shown at its end.
pub proof fn answers_are_met(
    event: BuildCommandEvent,
    force: bool,
    platform: Platform,
    config: BuildConfig,
    tag: Seq<char>,
)
    ensures
        is_consent(event) ==> build_view(
            BuildCommandStage::StartAsked,
            event,
            force,
            platform,
            config,
            tag,
        ).last() == plain(" Starting build...\n\n"@),
        event is Answer && !is_consent(event) ==> build_view(
            BuildCommandStage::StartAsked,
            event,
            force,
            platform,
            config,
            tag,
        ).last() == plain(" Build cancelled.\n"@) && build_view(
            BuildCommandStage::OverrideAsked,
            event,
            force,
            platform,
            config,
            tag,
        ).len() == 0,
        event matches BuildCommandEvent::Ended(end) ==> build_view(
            BuildCommandStage::Building,
            event,
            force,
            platform,
            config,
            tag,
        ) == end_view(end),
        event matches BuildCommandEvent::Docker(status) ==> build_view(
            BuildCommandStage::DockerAsked,
            event,
            force,
            platform,
            config,
            tag,
        ) == docker_view(status, platform, config, tag),
        event is Begin && !force ==> build_view(
            BuildCommandStage::Ready,
            event,
            force,
            platform,
            config,
            tag,
        ) == banner_view(),
{
}

/// Docker is there unless it is not installed, and at work where it says so.
pub proof fn docker_is_found_as_it_is(status: DockerStatus)
    ensures
        finds_docker(BuildCommandEvent::Docker(status)) <==> !(status is NotInstalled),
        finds_docker_at_work(BuildCommandEvent::Docker(status)) <==> (
        status matches DockerStatus::Installed { running, .. } && running),
{
}

} // verus!
