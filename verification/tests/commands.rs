//! The commands: what they print, ask and do.

use forge2k::build_command::end_page;
use forge2k::build_command::BuildCommand;
use forge2k::build_command::BuildCommandAction;
use forge2k::build_command::BuildCommandEvent;
use forge2k::build_command::BuildEnd;
use forge2k::build_command::BuildRequest;
use forge2k::catalogue::cmd_list;
use forge2k::catalogue::list_available_configs;
use forge2k::catalogue::select_configs;
use forge2k::check_command::cmd_check;
use forge2k::check_command::command_reply;
use forge2k::check_command::probe_command;
use forge2k::check_command::start_check;
use forge2k::check_command::CheckProbe;
use forge2k::check_command::CheckReply;
use forge2k::config::BuildConfig;
use forge2k::console::ask_continue;
use forge2k::console::effective_jobs;
use forge2k::console::is_yes;
use forge2k::console::log_line_page;
use forge2k::console::num_cpus;
use forge2k::console::print_banner;
use forge2k::docker::DockerStatus;
use forge2k::docker::Platform;
use forge2k::log::LogLine;
use forge2k::mirror_command::after_restart;
use forge2k::mirror_command::cmd_mirror;
use forge2k::mirror_command::restart_docker;
use forge2k::mirror_command::start_mirror;
use forge2k::mirror_command::windows_restart_plan;
use forge2k::mirror_command::MirrorAction;
use forge2k::mirror_command::MirrorEvent;
use forge2k::mirror_command::RestartAction;
use forge2k::mirror_command::RestartOutcome;
use forge2k::page::Page;
use forge2k::page::Tone;
use forge2k::registry::NetworkStatus;

fn text(page: &Page) -> String {
    page.pieces.iter().map(|p| p.text.as_str()).collect()
}

fn toned(page: &Page, tone: Tone) -> Vec<&str> {
    page.pieces.iter().filter(|p| p.tone == tone).map(|p| p.text.as_str()).collect()
}

fn request() -> BuildRequest {
    BuildRequest {
        method: "spack".to_string(),
        version: "2026.1".to_string(),
        mpi: "mpich".to_string(),
        cpu: "x86_64".to_string(),
        cuda: "none".to_string(),
        variant: "psmp".to_string(),
        jobs: 0,
        tag: None,
        no_cache: false,
        dockerfile: None,
        shm_size: "1g".to_string(),
        output: "docker".to_string(),
        force: false,
    }
}

const BANNER: &str = "\n╔══════════════════════════════════════╗\n║          Forge2K  v1.0.0            ║\n║   CP2K Docker Image Builder         ║\n╚══════════════════════════════════════╝\n\n";

const CONFIGURATION: &str = "\nBuild Configuration:\n  Method:     spack\n  Version:    2026.1\n  MPI:        mpich\n  CPU Target: x86_64\n  CUDA:       none\n  Variant:    psmp\n  Jobs:       6\n  Image Tag:  cp2k/cp2k:2026.1_mpich_x86_64_psmp\n\n? Start build? [Y/n] \n";

fn running() -> BuildCommandEvent {
    BuildCommandEvent::Docker(DockerStatus::Installed {
        version: "Version: 27".to_string(),
        running: true,
    })
}

fn answer(line: &str) -> BuildCommandEvent {
    BuildCommandEvent::Answer(line.to_string())
}

#[test]
fn banner() {
    let page = print_banner();
    assert_eq!(text(&page), BANNER);
    assert_eq!(toned(&page, Tone::YellowBold), ["║          Forge2K  v1.0.0            ║"]);
    assert_eq!(toned(&page, Tone::Yellow).len(), 3);
}

#[test]
fn build_from_the_question_to_the_end() {
    let mut command = BuildCommand::new(request(), Some(6), Platform::Linux);
    assert_eq!(command.config.jobs, 6);
    let (page, action) = command.cmd_build(BuildCommandEvent::Begin);
    assert_eq!(text(&page), BANNER);
    assert_eq!(action, BuildCommandAction::CheckDocker);
    let (page, action) = command.cmd_build(running());
    assert_eq!(
        text(&page),
        format!("✓ Docker Engine: Version: 27 (running)\n{}", CONFIGURATION)
    );
    assert_eq!(toned(&page, Tone::Green), ["✓"]);
    assert_eq!(toned(&page, Tone::YellowBold), ["Build Configuration:"]);
    assert_eq!(action, BuildCommandAction::ReadAnswer);
    let (page, action) = command.cmd_build(answer(" YES \n"));
    assert_eq!(text(&page), "\n🚀 Starting build...\n\n");
    assert_eq!(action, BuildCommandAction::BuildImage);
    let (page, action) = command.cmd_build(BuildCommandEvent::Ended(BuildEnd::Succeeded));
    assert_eq!(text(&page), "\n✅ Build process finished.\n");
    assert_eq!(action, BuildCommandAction::Exit(0));
    let (page, action) = command.cmd_build(BuildCommandEvent::Begin);
    assert_eq!(text(&page), "");
    assert_eq!(action, BuildCommandAction::Wait);
}

#[test]
fn forced_native_build() {
    let mut asked = request();
    asked.method = "native".to_string();
    asked.force = true;
    asked.jobs = 3;
    asked.tag = Some("t:1".to_string());
    let mut command = BuildCommand::new(asked, None, Platform::Linux);
    assert_eq!(command.config.jobs, 3);
    assert_eq!(command.config.tag, "t:1");
    let (page, action) = command.cmd_build(BuildCommandEvent::Begin);
    assert!(text(&page).starts_with(BANNER));
    assert!(text(&page).ends_with("  Image Tag:  t:1\n\n? Start build? [Y/n] \n"));
    assert_eq!(action, BuildCommandAction::ReadAnswer);
    let (_, action) = command.cmd_build(answer(""));
    assert_eq!(action, BuildCommandAction::BuildNative);
    let failure = BuildEnd::Failed("no gcc".to_string());
    let (page, action) = command.cmd_build(BuildCommandEvent::Ended(failure));
    assert_eq!(text(&page), "\n❌ Build failed: no gcc\n");
    assert_eq!(toned(&page, Tone::RedBold), ["❌"]);
    assert_eq!(action, BuildCommandAction::Exit(1));
}

#[test]
fn declined_build() {
    let mut command = BuildCommand::new(request(), Some(6), Platform::Linux);
    command.cmd_build(BuildCommandEvent::Begin);
    command.cmd_build(running());
    let (page, action) = command.cmd_build(answer("n\n"));
    assert_eq!(text(&page), "⏹ Build cancelled.\n");
    assert_eq!(action, BuildCommandAction::Exit(0));
}

#[test]
fn build_without_a_running_docker() {
    let mut command = BuildCommand::new(request(), Some(6), Platform::Linux);
    command.cmd_build(BuildCommandEvent::Begin);
    let (page, action) = command.cmd_build(BuildCommandEvent::Docker(DockerStatus::NotRunning));
    assert_eq!(
        text(&page),
        "✗ Docker daemon is not running!\n  Please start Docker Desktop or restart the Docker daemon.\n\n? Continue anyway? [Y/n] \n"
    );
    assert_eq!(action, BuildCommandAction::ReadAnswer);
    let (page, action) = command.cmd_build(answer("y"));
    assert_eq!(text(&page), CONFIGURATION);
    assert_eq!(action, BuildCommandAction::ReadAnswer);

    let mut command = BuildCommand::new(request(), Some(6), Platform::Linux);
    command.cmd_build(BuildCommandEvent::Begin);
    let idle = DockerStatus::Installed { version: "x".to_string(), running: false };
    let (page, _) = command.cmd_build(BuildCommandEvent::Docker(idle));
    assert_eq!(
        text(&page),
        "✗ Docker Engine is installed but not running!\n  Please start Docker Desktop or the Docker daemon.\n  Run 'forge2k check' for more details.\n\n? Continue anyway? [Y/n] \n"
    );
    let (page, action) = command.cmd_build(answer("nope"));
    assert_eq!(text(&page), "");
    assert_eq!(action, BuildCommandAction::Exit(0));
}

#[test]
fn build_without_docker() {
    let mut command = BuildCommand::new(request(), Some(6), Platform::Other);
    command.cmd_build(BuildCommandEvent::Begin);
    let (page, action) = command.cmd_build(BuildCommandEvent::Docker(DockerStatus::NotInstalled));
    assert!(text(&page).starts_with("✗ Docker Engine is not installed!\n╔"));
    assert_eq!(action, BuildCommandAction::Exit(0));
}

#[test]
fn build_pages_take_the_tag() {
    let mut asked = request();
    asked.version = "master".to_string();
    asked.force = true;
    let command = BuildCommand::new(asked, Some(6), Platform::Linux);
    let page = command.page_for(&BuildCommandEvent::Begin, "day:1");
    assert!(text(&page).contains("  Image Tag:  day:1\n"));
}

#[test]
fn build_that_broke_off() {
    let page = end_page(&BuildEnd::Panicked("Any { .. }".to_string()));
    assert_eq!(text(&page), "\n💥 Build thread panicked: Any { .. }\n");
}

#[test]
fn answers_that_mean_yes() {
    for line in ["", "\n", "y\n", "Y", " yes ", "YeS\r\n"] {
        assert!(ask_continue(line), "{:?}", line);
    }
    for line in ["n", "no", "ye", "yess", "j", "y e s"] {
        assert!(!ask_continue(line), "{:?}", line);
    }
    assert!(is_yes("y") && is_yes("yes") && is_yes(""));
    assert!(!is_yes("Y"));
}

#[test]
fn jobs_from_processors() {
    assert_eq!(num_cpus(None), 4);
    assert_eq!(num_cpus(Some(32)), 32);
    assert_eq!(effective_jobs(0, None), 4);
    assert_eq!(effective_jobs(0, Some(32)), 32);
    assert_eq!(effective_jobs(5, Some(32)), 5);
}

#[test]
fn log_lines_on_the_console() {
    let line = |is_error: bool| LogLine {
        timestamp: "12:34:56".to_string(),
        text: "hello".to_string(),
        is_error,
    };
    let page = log_line_page(&line(false));
    assert_eq!(text(&page), "[12:34:56] hello\n");
    assert_eq!(toned(&page, Tone::Dimmed), ["[12:34:56]"]);
    let page = log_line_page(&line(true));
    assert_eq!(text(&page), "[12:34:56] hello\n");
    assert_eq!(toned(&page, Tone::Red), ["[12:34:56]", "hello"]);
}

#[test]
fn catalogue_has_its_entries() {
    let configs = list_available_configs();
    assert_eq!(configs.len(), 10);
    assert_eq!(configs[0].version, "2026.1");
    assert_eq!(
        configs[0].description,
        "CP2K v2026.1 with Spack + MPICH, x86_64 (recommended)"
    );
    assert_eq!(configs[9].cuda, "P100");
    assert_eq!(configs[9].base_image, "nvidia/cuda:12.2.0-devel-ubuntu22.04");
}

#[test]
fn catalogue_names_bundled_dockerfiles() {
    for info in list_available_configs() {
        let config = BuildConfig {
            method: info.method.clone(),
            version: info.version.clone(),
            mpi: info.mpi.clone(),
            cpu: info.cpu.clone(),
            cuda: info.cuda.clone(),
            variant: info.variant.clone(),
            jobs: 1,
            tag: String::new(),
            no_cache: false,
            shm_size: "1g".to_string(),
            dockerfile: None,
            _output: "docker".to_string(),
        };
        assert_eq!(config.dockerfile_name(), format!("{}/{}", info.method, info._dockerfile));
        let content = config.generate_dockerfile().content;
        assert!(content.contains(&format!("FROM {} AS", info.base_image)));
    }
}

#[test]
fn list_with_both_filters() {
    let page = cmd_list(Some("toolchain".to_string()), Some("master".to_string()));
    assert_eq!(
        text(&page),
        "\n╔══════════════════════════════════════════════════════════════════════════════════╗\n║                           Available Build Configurations                        ║\n╚══════════════════════════════════════════════════════════════════════════════════╝\n\n  #1  CP2K latest master branch (bleeding edge)\n      Method: toolchain/master (ubuntu:22.04)\n      Specs: MPI=mpich / CPU=generic / CUDA=none / Variant=psmp\n      Build: forge2k build -m toolchain -v master --mpi mpich --cpu generic --cuda none --variant psmp\n\n  💡 Run 'forge2k gui' for the interactive builder!\n\n"
    );
    assert_eq!(
        toned(&page, Tone::BrightBlue),
        ["MPI=mpich", "CPU=generic", "CUDA=none", "Variant=psmp"]
    );
    assert_eq!(toned(&page, Tone::Dimmed), ["Method:", "Specs:", "Build:"]);
}

#[test]
fn printed_commands_ask_for_their_entries() {
    let all = text(&cmd_list(None, None));
    let commands: Vec<Vec<&str>> = all
        .lines()
        .filter_map(|l| l.strip_prefix("      Build: "))
        .map(|l| l.split_whitespace().collect())
        .collect();
    let configs = list_available_configs();
    assert_eq!(commands.len(), configs.len());
    for (words, config) in commands.iter().zip(&configs) {
        let value = |option: &str| {
            let at: Vec<usize> = (0..words.len()).filter(|i| words[*i] == option).collect();
            assert_eq!(at.len(), 1);
            words[at[0] + 1]
        };
        assert_eq!(words[..2], ["forge2k", "build"]);
        assert_eq!(words.len(), 14);
        assert_eq!(value("-m"), config.method);
        assert_eq!(value("-v"), config.version);
        assert_eq!(value("--mpi"), config.mpi);
        assert_eq!(value("--cpu"), config.cpu);
        assert_eq!(value("--cuda"), config.cuda);
        assert_eq!(value("--variant"), config.variant);
    }
}

#[test]
fn list_keeps_the_order_and_counts() {
    let page = cmd_list(Some("spack".to_string()), None);
    let numbers: Vec<&str> =
        toned(&page, Tone::YellowBold).into_iter().filter(|t| t.starts_with('#')).collect();
    assert_eq!(numbers, ["#1", "#2", "#3", "#4", "#5", "#6"]);
    let page = cmd_list(None, None);
    assert!(text(&page).contains("  #10  CP2K 2023.2 with CUDA P100 GPU acceleration\n"));
    let method = Some("toolchain".to_string());
    let version = Some("2023.2".to_string());
    let chosen = select_configs(&list_available_configs(), &method, &version);
    let cudas: Vec<&str> = chosen.iter().map(|c| c.cuda.as_str()).collect();
    assert_eq!(cudas, ["none", "V100", "P100"]);
}

#[test]
fn list_without_a_match() {
    let page = cmd_list(Some("spack".to_string()), Some("2023.2".to_string()));
    assert_eq!(text(&page), "ℹ No configurations match the given filters.\n");
    assert_eq!(toned(&page, Tone::Yellow), ["ℹ"]);
}

fn docker_up() -> CheckReply {
    CheckReply::Docker(DockerStatus::Installed { version: "Version: 27".to_string(), running: true })
}

#[test]
fn check_of_a_good_system() {
    let (page, mut probe) = start_check();
    let mut all = text(&page);
    let replies = vec![
        docker_up(),
        CheckReply::Output(Some(" github.com/docker/buildx v0.17\n".to_string())),
        CheckReply::Registry(NetworkStatus::Good),
        CheckReply::Mirror(Some("https://m.example".to_string())),
        CheckReply::Output(Some("/var/lib/docker\n".to_string())),
        CheckReply::Output(Some(
            "Filesystem Size Used Avail Use% Mounted on\n/dev/sda1 100G 40G 60G 40% /\nshort line\n"
                .to_string(),
        )),
        docker_up(),
    ];
    for reply in replies {
        if let CheckProbe::Disk(root) = &probe {
            assert_eq!(root, "/var/lib/docker");
        }
        let (page, next) = cmd_check(probe, reply, Platform::Linux);
        all.push_str(&text(&page));
        probe = next;
    }
    assert!(matches!(probe, CheckProbe::Nothing));
    assert_eq!(
        all,
        "\n╔══════════════════════════════════════════════════════════╗\n║              Forge2K System Diagnostics                  ║\n╚══════════════════════════════════════════════════════════╝\n\n── Docker Engine ──\n  ✓ Docker is installed and running\n    Version: Version: 27\n\n── Docker BuildKit ──\n  ✓ BuildKit available: github.com/docker/buildx v0.17\n\n── Docker Registry ──\n  ✓ Registry access is good (fast)\n  Current mirror: https://m.example\n\n── Docker Storage ──\n  Root directory: /var/lib/docker\n  Available: 60G (used: 40G of 100G)\n\n── Summary ──\n  ✓ System is ready for CP2K builds!\n  Run 'forge2k build' or 'forge2k gui' to get started.\n\n"
    );
}

#[test]
fn check_of_a_bad_system() {
    let (page, mut probe) = start_check();
    let mut all = text(&page);
    let replies = vec![
        CheckReply::Docker(DockerStatus::NotInstalled),
        CheckReply::Output(None),
        CheckReply::Registry(NetworkStatus::Blocked("timeout".to_string())),
        CheckReply::Mirror(None),
        CheckReply::Output(None),
        CheckReply::Docker(DockerStatus::NotRunning),
    ];
    for reply in replies {
        let (page, next) = cmd_check(probe, reply, Platform::Other);
        all.push_str(&text(&page));
        probe = next;
    }
    assert!(matches!(probe, CheckProbe::Nothing));
    assert!(all.contains("  ✗ Docker is NOT installed\n╔"));
    assert!(all.contains("  ℹ BuildKit not detected (using legacy builder)\n\n── Docker Registry ──\n  ✗ Registry access appears blocked\n    Reason: timeout\n    Suggested action: forge2k mirror\n\n── Summary ──\n  ℹ Please resolve the issues above before building.\n\n"));
}

#[test]
fn check_of_other_states() {
    let docker = |status: DockerStatus| {
        text(&cmd_check(CheckProbe::Docker, CheckReply::Docker(status), Platform::Linux).0)
    };
    let idle = DockerStatus::Installed { version: "x".to_string(), running: false };
    assert!(docker(idle).starts_with("  ✗ Docker is installed but NOT running\n    Start Docker Desktop or: sudo systemctl start docker\n\n"));
    assert!(docker(DockerStatus::NotRunning).starts_with("  ✗ Docker daemon is not reachable\n    Check if Docker Desktop is started or the daemon is running\n\n"));
    let registry = |status: NetworkStatus| {
        text(&cmd_check(CheckProbe::Registry, CheckReply::Registry(status), Platform::Linux).0)
    };
    assert_eq!(
        registry(NetworkStatus::Slow("12.3s".to_string())),
        "  ⚠ Registry access is slow (12.3s)\n"
    );
    assert_eq!(
        registry(NetworkStatus::Unknown("huh".to_string())),
        "  ? Registry status unknown: huh\n"
    );
}

#[test]
fn commands_of_the_check() {
    let command = |probe: CheckProbe, platform: Platform| {
        probe_command(&probe, platform).map(|(program, args)| format!("{} {}", program, args.join(" ")))
    };
    assert_eq!(
        command(CheckProbe::Builder, Platform::Linux).as_deref(),
        Some("docker buildx version")
    );
    assert_eq!(
        command(CheckProbe::Storage, Platform::Windows).as_deref(),
        Some("docker info --format {{.DockerRootDir}}")
    );
    let disk = || CheckProbe::Disk("/var/lib/docker".to_string());
    assert_eq!(command(disk(), Platform::MacOs).as_deref(), Some("df -h /var/lib/docker"));
    assert_eq!(
        command(disk(), Platform::Windows).as_deref(),
        Some("wmic logicaldisk where drivetype=3 get deviceid,freespace")
    );
    for probe in [
        CheckProbe::Docker,
        CheckProbe::Registry,
        CheckProbe::Mirror,
        CheckProbe::Summary,
        CheckProbe::Nothing,
    ] {
        assert_eq!(command(probe, Platform::Linux), None);
    }
}

#[test]
fn output_that_counts() {
    let counts = |probe: CheckProbe, success: bool| {
        matches!(
            command_reply(&probe, success, "text".to_string()),
            CheckReply::Output(Some(output)) if output == "text"
        )
    };
    assert!(counts(CheckProbe::Builder, true));
    assert!(!counts(CheckProbe::Builder, false));
    assert!(!counts(CheckProbe::Storage, false));
    assert!(counts(CheckProbe::Disk("/".to_string()), false));
}

#[test]
fn check_of_the_disk() {
    let disk = |output: Option<&str>, platform: Platform| {
        let reply = CheckReply::Output(output.map(|t| t.to_string()));
        text(&cmd_check(CheckProbe::Disk("/".to_string()), reply, platform).0)
    };
    assert_eq!(
        disk(Some("  DeviceID  FreeSpace\r\nC:  5\r\n\r\n"), Platform::Windows),
        "  DeviceID  FreeSpace\r\nC:  5\n\n── Summary ──\n"
    );
    assert_eq!(disk(None, Platform::Linux), "\n── Summary ──\n");
    assert_eq!(disk(Some(""), Platform::Linux), "\n── Summary ──\n");
    assert_eq!(
        disk(Some("head\na 1 2 3\nb 4 5 6 7\n"), Platform::MacOs),
        "  Available: 3 (used: 2 of 1)\n  Available: 6 (used: 5 of 4)\n\n── Summary ──\n"
    );
}

#[test]
fn check_waits_for_the_right_answer() {
    let (page, next) = cmd_check(CheckProbe::Docker, CheckReply::Mirror(None), Platform::Linux);
    assert_eq!(text(&page), "");
    assert!(matches!(next, CheckProbe::Docker));
}

#[test]
fn mirror_of_the_user() {
    let (page, action) = start_mirror(Some("https://m.example".to_string()), false);
    assert_eq!(text(&page), "\n📝 Configuring registry mirror: https://m.example\n");
    match action {
        MirrorAction::Configure(url) => assert_eq!(url, "https://m.example"),
        other => panic!("{:?}", other),
    }
    let saved = || MirrorEvent::Configured(Ok("/etc/docker/daemon.json".to_string()));
    let (page, action) = cmd_mirror(saved(), false, Platform::Linux);
    assert_eq!(
        text(&page),
        "✓ Configuration saved to: /etc/docker/daemon.json\n\n💡 Restart Docker to apply changes:\n  sudo systemctl restart docker\n\n"
    );
    assert!(matches!(action, MirrorAction::Finish));
    let (page, _) = cmd_mirror(saved(), false, Platform::Windows);
    assert!(text(&page).ends_with("  Restart Docker Desktop from the system tray\n\n"));
    let (page, _) = cmd_mirror(saved(), false, Platform::MacOs);
    assert!(text(&page).ends_with("💡 Restart Docker to apply changes:\n\n"));
    let (page, action) = cmd_mirror(saved(), true, Platform::Linux);
    assert_eq!(
        text(&page),
        "✓ Configuration saved to: /etc/docker/daemon.json\n🔄 Restarting Docker...\n"
    );
    assert!(matches!(action, MirrorAction::Restart));
    let (page, action) = cmd_mirror(MirrorEvent::Restarted(Ok(())), true, Platform::Linux);
    assert_eq!(text(&page), "✓ Docker restarted successfully.\n");
    assert!(matches!(action, MirrorAction::Finish));
}

#[test]
fn mirror_that_is_no_address() {
    let (page, action) = start_mirror(Some("m.example".to_string()), false);
    assert_eq!(
        text(&page),
        "\n✗ Invalid mirror URL. Must start with http:// or https://\n"
    );
    assert!(matches!(action, MirrorAction::Finish));
}

#[test]
fn mirror_that_is_searched() {
    let (page, action) = start_mirror(None, false);
    assert_eq!(text(&page), "\n🔍 Detecting best registry mirror... ");
    assert!(matches!(action, MirrorAction::Detect));
    let found = MirrorEvent::Detected(Some("https://m.example".to_string()));
    let (page, action) = cmd_mirror(found, false, Platform::Linux);
    assert_eq!(
        text(&page),
        "found: https://m.example\n📝 Configuring registry mirror: https://m.example\n"
    );
    assert!(matches!(action, MirrorAction::Configure(_)));
    let (page, action) = cmd_mirror(MirrorEvent::Detected(None), false, Platform::Linux);
    assert_eq!(
        text(&page),
        "✗ no working mirror found.\n  Please provide a mirror URL manually.\n  Example: forge2k mirror https://docker.mirrors.ustc.edu.cn\n\nℹ Known mirrors:\n  • https://docker.mirrors.ustc.edu.cn\n  • https://mirror.ccs.tencentyun.com\n  • https://2a59f68c.m.daocloud.io\n  • https://registry.docker-cn.com\n"
    );
    assert!(matches!(action, MirrorAction::Finish));
}

#[test]
fn mirror_that_is_removed() {
    let (page, action) = start_mirror(Some("ignored".to_string()), true);
    assert_eq!(text(&page), "\n🗑 Removing registry mirror configuration...\n");
    assert!(matches!(action, MirrorAction::Remove));
    let (page, action) = cmd_mirror(MirrorEvent::Removed(Ok(())), true, Platform::Linux);
    assert_eq!(
        text(&page),
        "✓ Mirror configuration removed.\n  Restart Docker to apply changes.\n\n"
    );
    assert!(matches!(action, MirrorAction::Finish));
}

#[test]
fn mirror_command_passes_errors_on() {
    let events = vec![
        MirrorEvent::Removed(Err("why".to_string())),
        MirrorEvent::Configured(Err("why".to_string())),
        MirrorEvent::Restarted(Err("why".to_string())),
    ];
    for event in events {
        let (page, action) = cmd_mirror(event, true, Platform::Linux);
        assert_eq!(text(&page), "");
        match action {
            MirrorAction::Fail(reason) => assert_eq!(reason, "why"),
            other => panic!("{:?}", other),
        }
    }
}

#[test]
fn restart_tries_the_system_first() {
    match restart_docker() {
        RestartAction::Run { program, args, launch } => {
            assert_eq!(program, "sudo");
            assert_eq!(args, ["systemctl", "restart", "docker"]);
            assert!(!launch);
        }
        other => panic!("{:?}", other),
    }
    assert!(matches!(after_restart(false, RestartOutcome::Succeeded), RestartAction::Done));
    match after_restart(false, RestartOutcome::Failed("x".to_string())) {
        RestartAction::Run { program, args, .. } => {
            assert_eq!(program, "systemctl");
            assert_eq!(args, ["--user", "restart", "docker"]);
        }
        other => panic!("{:?}", other),
    }
    assert!(matches!(after_restart(true, RestartOutcome::Succeeded), RestartAction::Done));
}

#[test]
fn restart_tells_why_it_failed() {
    let reason = |own: bool, outcome: RestartOutcome| match after_restart(own, outcome) {
        RestartAction::Fail(reason) => reason,
        other => panic!("{:?}", other),
    };
    assert_eq!(
        reason(false, RestartOutcome::NotLaunched("no sudo".to_string())),
        "Failed to restart Docker: no sudo"
    );
    assert_eq!(
        reason(true, RestartOutcome::NotLaunched("no systemctl".to_string())),
        "no systemctl"
    );
    assert_eq!(
        reason(true, RestartOutcome::Failed("unit missing".to_string())),
        "Could not restart Docker. Please restart manually.\n  stderr: unit missing"
    );
}

#[test]
fn restart_on_windows_step_by_step() {
    let steps: Vec<String> = windows_restart_plan()
        .into_iter()
        .map(|step| match step {
            RestartAction::Say(text) => text,
            RestartAction::Run { program, args, launch } => {
                format!("{} {} {}", program, args.join(" "), launch)
            }
            RestartAction::Rest(seconds) => format!("rest {}", seconds),
            other => panic!("{:?}", other),
        })
        .collect();
    assert_eq!(
        steps,
        [
            "  Stopping Docker Desktop...",
            "taskkill /F /IM Docker Desktop.exe false",
            "rest 3",
            "  Starting Docker Desktop...",
            "start Docker Desktop true",
            "  Waiting for Docker to start...",
            "rest 10",
        ]
    );
}
