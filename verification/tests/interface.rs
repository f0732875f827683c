//! The graphical interface: its state, and what its window shows.

use forge2k::catalogue::list_available_configs;
use forge2k::config::BuildConfig;
use forge2k::docker::DockerStatus;
use forge2k::gui::cmd_gui;
use forge2k::gui::cpu_choices;
use forge2k::gui::cuda_choices;
use forge2k::gui::method_choices;
use forge2k::gui::mpi_choices;
use forge2k::gui::run_gui;
use forge2k::gui::variant_choices;
use forge2k::gui::version_choices;
use forge2k::gui::BuildJob;
use forge2k::gui::Forge2kApp;
use forge2k::gui::Setting;
use forge2k::gui::Tab;
use forge2k::log::LogLine;
use forge2k::registry::is_mirror_url;
use forge2k::registry::registry_mirrors;
use forge2k::registry::NetworkStatus;
use forge2k::window::build_button;
use forge2k::window::log_color;
use forge2k::window::mirror_cards;
use forge2k::window::tab_button;
use forge2k::window::Content;
use forge2k::window::Face;
use forge2k::window::Label;
use forge2k::window::Rgb;

fn app() -> Forge2kApp {
    Forge2kApp::new(None)
}

fn image(job: Option<BuildJob>) -> BuildConfig {
    match job {
        Some(BuildJob::Image(config)) => config,
        other => panic!("{:?}", other),
    }
}

fn docker_up() -> DockerStatus {
    DockerStatus::Installed { version: "Version: 27".to_string(), running: true }
}

fn line(text: &str, is_error: bool) -> LogLine {
    LogLine { timestamp: "00:00:00".to_string(), text: text.to_string(), is_error }
}

fn rgb(red: u8, green: u8, blue: u8) -> Rgb {
    Rgb { red, green, blue }
}

fn face(size: Option<u8>, color: Option<Rgb>) -> Face {
    Face { size, color, strong: false, monospace: false }
}

fn texts(labels: &[Label]) -> Vec<&str> {
    labels.iter().map(|l| l.text.as_str()).collect()
}

#[test]
fn state_at_the_start() {
    let app = Forge2kApp::new(Some("https://m.example".to_string()));
    assert_eq!(app.method, "spack");
    assert_eq!(app.version, "2025.2");
    assert_eq!(app.mpi, "mpich");
    assert_eq!(app.cpu, "x86_64");
    assert_eq!(app.cuda, "none");
    assert_eq!(app.variant, "psmp");
    assert_eq!(app.jobs, "0");
    assert_eq!(app.tag, "");
    assert_eq!(app.shm_size, "1g");
    assert!(app.build_logs.is_empty());
    assert!(!app.is_building && !app.cancel_flag && app.build_error.is_none());
    assert_eq!(app.docker_status, "Not checked");
    assert!(!app.docker_running && !app.docker_checked);
    assert_eq!(app.registry_status, "Not checked");
    assert_eq!(app.current_mirror, "https://m.example");
    assert_eq!(app.mirror_input, "");
    assert_eq!(app.settings_message, "");
    assert_eq!(app.active_tab, Tab::Build);
    assert!(app.log_auto_scroll);
    assert_eq!(Forge2kApp::new(None).current_mirror, "");
}

#[test]
fn starting_a_build() {
    let mut app = app();
    app.log_received(line("old", false));
    app.build_error = Some("old".to_string());
    app.cancel_flag = true;
    app.set(Setting::Tag, "t:1".to_string());
    app.set(Setting::Jobs, "12".to_string());
    let config = image(app.start_build(Some(6)));
    assert_eq!(config.method, "spack");
    assert_eq!(config.version, "2025.2");
    assert_eq!(config.jobs, 12);
    assert_eq!(config.tag, "t:1");
    assert!(!config.no_cache);
    assert_eq!(config.dockerfile, None);
    assert_eq!(config.shm_size, "1g");
    assert_eq!(config._output, "docker");
    assert!(app.is_building && !app.cancel_flag);
    assert!(app.build_logs.is_empty());
    assert_eq!(app.build_error, None);
}

#[test]
fn a_second_build_is_not_started() {
    let mut app = app();
    app.start_build(Some(6)).unwrap();
    app.log_received(line("at work", false));
    app.cancel_build();
    assert!(app.start_build(Some(6)).is_none());
    assert_eq!(app.build_logs.len(), 1);
    assert!(app.cancel_flag && app.is_building);
}

#[test]
fn jobs_as_typed() {
    for (typed, jobs) in [("0", 6), ("", 6), ("many", 6), ("-3", 6), ("+3", 3), ("007", 7)] {
        let mut app = app();
        app.set(Setting::Jobs, typed.to_string());
        assert_eq!(image(app.start_build(Some(6))).jobs, jobs, "{:?}", typed);
    }
    assert_eq!(image(app().start_build(None)).jobs, 4);
}

#[test]
fn native_builds_run_on_the_host() {
    let mut app = app();
    app.set(Setting::Method, "native".to_string());
    match app.start_build(Some(6)) {
        Some(BuildJob::Native(config)) => {
            assert_eq!(config.method, "native");
            assert_eq!(config.jobs, 6);
        }
        other => panic!("{:?}", other),
    }
    app.build_ended(Ok(()));
    app.set(Setting::Method, "toolchain".to_string());
    assert_eq!(image(app.press_start(docker_up(), None)).method, "toolchain");
}

#[test]
fn a_frame_draws_the_tab_that_was_clicked() {
    let mut app = app();
    let frame = app.update(None);
    assert!(matches!(frame.content, Content::Build(_)));
    let frame = app.update(Some(Tab::System));
    assert_eq!(app.active_tab, Tab::System);
    assert!(frame.header.tabs[0].ground.is_some());
    match frame.content {
        Content::System(tab) => assert_eq!(texts(&tab.registry), ["Status: Not checked"]),
        other => panic!("{:?}", other),
    }
    let frame = app.update(None);
    assert!(frame.header.tabs[1].ground.is_some());
    assert!(matches!(frame.content, Content::System(_)));
    assert!(matches!(app.update(Some(Tab::Settings)).content, Content::Settings(_)));
    match app.update(Some(Tab::About)).content {
        Content::About(features) => assert_eq!(features.len(), 9),
        other => panic!("{:?}", other),
    }
    assert_eq!(app.active_tab, Tab::About);
}

#[test]
fn buttons_behind_the_clicked_one_are_drawn_by_it() {
    let grounds = |active: Tab, clicked: Option<Tab>| -> Vec<bool> {
        let mut app = app();
        app.select_tab(active);
        app.update(clicked).header.tabs.iter().map(|t| t.ground.is_some()).collect()
    };
    assert_eq!(grounds(Tab::Settings, None), [false, false, true, false]);
    assert_eq!(grounds(Tab::Settings, Some(Tab::System)), [false, false, false, false]);
    assert_eq!(grounds(Tab::Build, Some(Tab::About)), [true, false, false, false]);
    assert_eq!(grounds(Tab::About, Some(Tab::Build)), [false, false, false, false]);
    assert_eq!(grounds(Tab::System, Some(Tab::System)), [false, true, false, false]);
}

#[test]
fn ending_a_build() {
    let mut app = app();
    app.start_build(None);
    app.build_ended(Err("broke".to_string()));
    assert!(!app.is_building);
    assert_eq!(app.build_error.as_deref(), Some("broke"));
    app.start_build(None);
    app.build_ended(Ok(()));
    assert!(!app.is_building);
    assert_eq!(app.build_error, None);
}

#[test]
fn pressing_start() {
    let mut app = app();
    assert!(app.press_start(DockerStatus::NotRunning, Some(2)).is_none());
    assert!(app.docker_checked && !app.docker_running && !app.is_building);
    assert_eq!(app.docker_status, "Installed (not running)");
    let complaint = &app.build_logs[0];
    assert_eq!(complaint.timestamp, "ERROR");
    assert_eq!(complaint.text, "Docker is not running. Please start Docker first.");
    assert!(complaint.is_error);
    assert_eq!(image(app.press_start(docker_up(), Some(2))).jobs, 2);
    assert!(app.docker_running && app.is_building);
    assert!(app.build_logs.is_empty());
    assert!(app.press_start(docker_up(), Some(2)).is_none());
    assert!(app.build_logs.is_empty());
}

#[test]
fn state_of_docker_in_words() {
    let mut app = app();
    app.check_docker(docker_up());
    assert_eq!(app.docker_status, "Version: 27");
    assert!(app.docker_running && app.docker_checked);
    app.check_docker(DockerStatus::NotInstalled);
    assert_eq!(app.docker_status, "Not installed");
    assert!(!app.docker_running && app.docker_checked);
    app.check_docker(DockerStatus::Installed { version: "v".to_string(), running: false });
    assert_eq!(app.docker_status, "v");
    assert!(!app.docker_running);
}

#[test]
fn state_of_the_registry_in_words() {
    let mut app = app();
    app.check_registry(NetworkStatus::Good);
    assert_eq!(app.registry_status, "✅ Fast");
    app.check_registry(NetworkStatus::Slow("12.3s".to_string()));
    assert_eq!(app.registry_status, "⚠️ Slow (12.3s)");
    app.check_registry(NetworkStatus::Unknown("huh".to_string()));
    assert_eq!(app.registry_status, "❓ huh");
    app.check_registry(NetworkStatus::Blocked("timeout".to_string()));
    assert_eq!(
        app.registry_status,
        "❌ Blocked - timeout\n   Try: Settings → Auto-detect Mirror"
    );
    app.current_mirror = "https://m.example".to_string();
    app.check_registry(NetworkStatus::Blocked("timeout".to_string()));
    assert_eq!(app.registry_status, "❌ Blocked - timeout");
}

#[test]
fn summary_of_the_configuration() {
    let mut app = app();
    let pair = |a: &str, b: &str| (a.to_string(), b.to_string());
    assert_eq!(
        app.config_summary(),
        [
            pair("Method", "spack / CP2K 2025.2"),
            pair("MPI", "mpich"),
            pair("CPU Target", "x86_64"),
            pair("CUDA", "none"),
            pair("Variant", "psmp"),
            pair("Jobs", "Auto"),
            pair("SHM Size", "1g"),
        ]
    );
    app.set(Setting::Jobs, "00".to_string());
    assert_eq!(app.config_summary()[5], pair("Jobs", "00"));
}

#[test]
fn settings_are_set_one_by_one() {
    let mut app = app();
    let all = [
        Setting::Method,
        Setting::Version,
        Setting::Mpi,
        Setting::Cpu,
        Setting::Cuda,
        Setting::Variant,
        Setting::Jobs,
        Setting::ShmSize,
        Setting::Tag,
    ];
    for (i, setting) in all.iter().enumerate() {
        app.set(*setting, i.to_string());
    }
    let values = [
        &app.method,
        &app.version,
        &app.mpi,
        &app.cpu,
        &app.cuda,
        &app.variant,
        &app.jobs,
        &app.shm_size,
        &app.tag,
    ];
    for (i, value) in values.iter().enumerate() {
        assert_eq!(**value, i.to_string());
    }
}

#[test]
fn applying_a_mirror() {
    let mut app = app();
    app.use_mirror("m.example");
    assert_eq!(app.apply_mirror(), None);
    assert_eq!(app.settings_message, "❌ Invalid URL. Must start with http:// or https://");
    app.use_mirror("https://m.example");
    assert_eq!(app.apply_mirror().as_deref(), Some("https://m.example"));
    assert_eq!(app.current_mirror, "");
    app.mirror_applied(Err("denied".to_string()));
    assert_eq!(app.settings_message, "❌ Failed: denied");
    assert_eq!(app.current_mirror, "");
    app.mirror_applied(Ok(()));
    assert_eq!(app.settings_message, "✅ Mirror configured! Restart Docker to apply.");
    assert_eq!(app.current_mirror, "https://m.example");
}

#[test]
fn detecting_and_removing_a_mirror() {
    let mut app = Forge2kApp::new(Some("https://old".to_string()));
    app.mirror_detected(None);
    assert_eq!(app.settings_message, "❌ No working mirror found. Try a manual URL.");
    assert_eq!(app.mirror_input, "");
    app.mirror_detected(Some("https://m.example".to_string()));
    assert_eq!(app.settings_message, "✅ Found working mirror: https://m.example");
    assert_eq!(app.mirror_input, "https://m.example");
    assert_eq!(app.current_mirror, "https://old");
    app.mirror_removed(Err("denied".to_string()));
    assert_eq!(app.settings_message, "❌ Failed: denied");
    assert_eq!(app.current_mirror, "https://old");
    app.mirror_removed(Ok(()));
    assert_eq!(app.settings_message, "✅ Mirror removed. Restart Docker to apply.");
    assert_eq!(app.current_mirror, "");
}

#[test]
fn choices_depend_on_the_method() {
    assert_eq!(version_choices("spack"), ["2026.1", "2025.2", "2024.3", "2024.2"]);
    assert_eq!(version_choices("native"), ["master", "2026.1", "2025.2", "2024.3"]);
    assert_eq!(
        version_choices("toolchain"),
        ["master", "2026.1", "2025.2", "2024.3", "2024.2", "2024.1", "2023.2"]
    );
    assert_eq!(mpi_choices("toolchain"), ["mpich"]);
    assert_eq!(mpi_choices("spack"), ["mpich", "openmpi"]);
    assert_eq!(cpu_choices("toolchain"), ["generic"]);
    assert_eq!(
        cpu_choices("native"),
        ["x86_64", "cascadelake", "haswell", "skylake-avx512", "generic"]
    );
    assert_eq!(cuda_choices("spack"), ["none"]);
    assert_eq!(cuda_choices("toolchain"), ["none", "P100", "V100"]);
    assert_eq!(cuda_choices("native"), ["none", "P100", "V100"]);
    let labels: Vec<String> = method_choices().into_iter().map(|c| c.1).collect();
    assert_eq!(
        labels,
        [
            "Spack (Docker, Ubuntu 24.04)",
            "Toolchain (Docker, Ubuntu 22.04)",
            "Native (direct on host)",
        ]
    );
    let labels: Vec<String> = variant_choices().into_iter().map(|c| c.1).collect();
    assert_eq!(
        labels,
        ["psmp (MPI+OpenMP)", "ssmp (OpenMP only)", "pdbg (MPI+OpenMP debug)", "sdbg (OpenMP debug)"]
    );
}

#[test]
fn catalogue_can_be_chosen() {
    for info in list_available_configs() {
        assert!(method_choices().iter().any(|c| c.0 == info.method));
        assert!(version_choices(&info.method).contains(&info.version));
        assert!(mpi_choices(&info.method).contains(&info.mpi));
        assert!(cpu_choices(&info.method).contains(&info.cpu));
        assert!(cuda_choices(&info.method).contains(&info.cuda));
        assert!(variant_choices().iter().any(|c| c.0 == info.variant));
    }
}

#[test]
fn window_that_cannot_be_shown() {
    assert_eq!(run_gui(Ok(())), Ok(()));
    assert_eq!(cmd_gui(Ok(())), Ok(()));
    assert_eq!(run_gui(Err("no display".to_string())), Err("GUI error: no display".to_string()));
    assert_eq!(cmd_gui(Err("no display".to_string())), Err("GUI error: no display".to_string()));
}

#[test]
fn frame_around_the_tabs() {
    let mut app = app();
    let frame = app.header(None);
    assert!(!frame.repaint);
    assert_eq!(texts(&frame.badges), ["○ Docker"]);
    assert_eq!(frame.badges[0].face, face(Some(11), Some(rgb(200, 80, 80))));
    app.check_docker(docker_up());
    app.start_build(None);
    app.select_tab(Tab::Settings);
    let frame = app.header(None);
    assert!(frame.repaint);
    assert_eq!(texts(&frame.badges), ["● BUILDING", "● Docker OK"]);
    assert_eq!(frame.badges[0].face, face(Some(11), Some(rgb(255, 180, 50))));
    assert_eq!(frame.badges[1].face, face(Some(11), Some(rgb(80, 220, 100))));
    let labels: Vec<&str> = frame.tabs.iter().map(|t| t.label).collect();
    assert_eq!(labels, ["🛠 Build", "📊 System", "⚙ Settings", "ℹ About"]);
    let grounds: Vec<bool> = frame.tabs.iter().map(|t| t.ground.is_some()).collect();
    assert_eq!(grounds, [false, false, true, false]);
    assert_eq!(frame.tabs[2].tab, Tab::Settings);
    assert_eq!(tab_button(Tab::About, Tab::About).color, rgb(255, 200, 50));
    assert_eq!(tab_button(Tab::About, Tab::About).ground, Some(rgb(40, 40, 55)));
    assert_eq!(tab_button(Tab::About, Tab::Build).color, rgb(160, 160, 180));
}

#[test]
fn form_of_the_build_tab() {
    let mut app = app();
    app.set(Setting::Method, "toolchain".to_string());
    let tab = app.render_build_tab();
    let captions: Vec<&str> = tab.fields.iter().map(|f| f.caption).collect();
    assert_eq!(
        captions,
        [
            "Build Method",
            "CP2K Version",
            "MPI Implementation",
            "CPU Target",
            "CUDA Support",
            "Binary Variant",
            "Parallel Jobs (0 = auto)",
            "Shared Memory Size",
            "Custom Image Tag (optional)",
        ]
    );
    assert_eq!(tab.fields[0].value, "toolchain");
    assert_eq!(tab.fields[2].choices, [("mpich".to_string(), "mpich".to_string())]);
    assert_eq!(tab.fields[4].choices.len(), 3);
    assert_eq!(tab.fields[5].choices[1].1, "ssmp (OpenMP only)");
    assert!(tab.fields[6].choices.is_empty());
    assert_eq!(tab.fields[6].width, 80);
    assert_eq!(tab.fields[8].width, 200);
    assert_eq!(tab.fields[8].hint, "auto-generate");
    assert!(tab.error.is_empty());
}

#[test]
fn button_of_the_build_tab() {
    let mut app = app();
    let button = app.render_build_tab().button;
    assert_eq!(button.label, "🔥 START BUILD");
    assert!(!button.cancels);
    app.start_build(None);
    let button = app.render_build_tab().button;
    assert_eq!(button.label, "⛔ CANCEL BUILD");
    assert!(button.cancels);
    assert_eq!(build_button(true).color, rgb(255, 100, 100));
    assert_eq!(build_button(true).ground, rgb(60, 20, 20));
    assert_eq!(build_button(false).color, rgb(20, 20, 30));
    assert_eq!(build_button(false).ground, rgb(255, 200, 50));
}

#[test]
fn log_of_the_build_tab() {
    let mut app = app();
    let tab = app.render_build_tab();
    assert_eq!(
        texts(&tab.log),
        [
            "  ⚡ Configure your build and click START BUILD",
            "  Build logs will appear here in real-time.",
        ]
    );
    assert_eq!(tab.log[0].face, face(Some(13), Some(rgb(80, 80, 100))));
    assert!(!tab.follows);
    app.start_build(None);
    app.log_received(line("✅ done", false));
    app.log_received(line("✅ not done", true));
    app.build_error = Some("broke".to_string());
    let tab = app.render_build_tab();
    assert!(tab.follows);
    assert_eq!(texts(&tab.log), ["  ✅ done", "  ✅ not done"]);
    assert!(tab.log[0].face.monospace);
    assert_eq!(tab.log[0].face.color, Some(rgb(100, 220, 130)));
    assert_eq!(tab.log[1].face.color, Some(rgb(255, 100, 100)));
    assert_eq!(texts(&tab.error), ["❌ broke"]);
    app.set_auto_scroll(false);
    assert!(!app.render_build_tab().follows);
    app.clear_logs();
    assert!(app.build_logs.is_empty());
}

#[test]
fn colors_of_log_lines() {
    for good in ["✅ a", "🚀 a", "📋 a"] {
        assert_eq!(log_color(&line(good, false)), rgb(100, 220, 130));
    }
    for warning in ["⚠️ a", "⚠", "⏹ a"] {
        assert_eq!(log_color(&line(warning, false)), rgb(255, 200, 80));
    }
    for other in ["", "a ✅", "   ✅ a", "❌"] {
        assert_eq!(log_color(&line(other, false)), rgb(180, 185, 195));
    }
    assert_eq!(log_color(&line("🚀", true)), rgb(255, 100, 100));
}

#[test]
fn system_tab() {
    let mut app = app();
    let tab = app.render_system_tab();
    assert_eq!(texts(&tab.docker), ["○", "Not checked"]);
    assert_eq!(tab.docker[1].face, face(None, None));
    assert!(tab.version.is_empty());
    assert_eq!(texts(&tab.registry), ["Status: Not checked"]);
    assert!(tab.mirror.is_empty());
    assert_eq!(tab.tips.len(), 5);
    assert_eq!(tab.tips[4].text, "• Minimum 50GB free disk space recommended for builds");
    app.check_docker(docker_up());
    app.current_mirror = "https://m.example".to_string();
    let tab = app.render_system_tab();
    assert_eq!(texts(&tab.docker), ["●", "Running"]);
    assert_eq!(tab.docker[0].face, face(Some(20), Some(rgb(80, 220, 100))));
    assert!(tab.docker[1].face.strong);
    assert_eq!(texts(&tab.version), ["Version: Version: 27"]);
    assert_eq!(texts(&tab.mirror), ["Mirror: https://m.example"]);
    app.check_docker(DockerStatus::NotInstalled);
    let tab = app.render_system_tab();
    assert_eq!(texts(&tab.docker), ["●", "Not Running"]);
    assert_eq!(tab.docker[1].face.color, Some(rgb(220, 80, 80)));
    assert_eq!(texts(&tab.version), ["Version: Not installed"]);
}

#[test]
fn settings_tab() {
    let mut app = app();
    let tab = app.render_settings_tab();
    assert!(tab.message.is_empty() && tab.current.is_empty());
    app.mirror_detected(None);
    app.current_mirror = "https://m.example".to_string();
    let tab = app.render_settings_tab();
    assert_eq!(texts(&tab.message), ["❌ No working mirror found. Try a manual URL."]);
    assert_eq!(tab.message[0].face, face(Some(12), None));
    assert_eq!(texts(&tab.current), ["Current mirror: https://m.example"]);
    assert_eq!(tab.current[0].face, face(None, Some(rgb(100, 180, 255))));
    assert_eq!(tab.mirrors[4].name, "DockerHub Proxy");
    assert_eq!(tab.mirrors[4].about, "Russia - Timeweb Cloud");
}

#[test]
fn shown_mirrors_are_those_of_the_search() {
    let urls: Vec<&str> = mirror_cards().iter().map(|c| c.url).collect();
    assert_eq!(urls, registry_mirrors());
    for url in urls {
        assert!(is_mirror_url(url));
        let mut app = app();
        app.use_mirror(url);
        assert_eq!(app.apply_mirror().as_deref(), Some(url));
    }
}

#[test]
fn about_tab() {
    let features = app().render_about_tab();
    assert_eq!(features.len(), 9);
    assert_eq!(features[0].text, "🔥 One-click build with full configuration options");
    assert_eq!(features[8].text, "🪟 Cross-platform: Windows, Linux, WSL2");
    assert_eq!(features[0].face, face(Some(13), None));
}

#[test]
fn header_and_system_tab_agree_on_docker() {
    let mut app = app();
    let states = vec![docker_up(), DockerStatus::NotRunning, DockerStatus::NotInstalled];
    for status in states {
        app.check_docker(status);
        let badge = app.header(None).badges.pop().unwrap();
        let mark = &app.render_system_tab().docker[1];
        assert_eq!(badge.text == "● Docker OK", mark.text == "Running");
    }
}
