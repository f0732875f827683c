//! The course of image builds and of native builds.

use forge2k::config::BuildConfig;
use forge2k::config::DockerfilePath;
use forge2k::image_build::after_build_event;
use forge2k::image_build::execute_build;
use forge2k::image_build::image_build_for;
use forge2k::image_build::notes_of_event;
use forge2k::image_build::BuildEvent;
use forge2k::image_build::BuildStep;
use forge2k::image_build::ImageBuild;
use forge2k::log::Notes;
use forge2k::native_build::stage_after;
use forge2k::native_build::NativeAction;
use forge2k::native_build::NativeBuild;
use forge2k::native_build::NativeReply;
use forge2k::native_build::NativeStage;
use forge2k::process::command_result;
use forge2k::process::command_text;
use forge2k::process::exit_code_text;
use forge2k::process::CommandOutcome;

fn config(version: &str) -> BuildConfig {
    BuildConfig {
        method: "native".to_string(),
        version: version.to_string(),
        mpi: "mpich".to_string(),
        cpu: "x86_64".to_string(),
        cuda: "none".to_string(),
        variant: "psmp".to_string(),
        jobs: 8,
        tag: String::new(),
        no_cache: false,
        shm_size: "1g".to_string(),
        dockerfile: None,
        _output: "docker".to_string(),
    }
}

fn said(notes: &Notes) -> Vec<&str> {
    notes.entries.iter().map(|n| n.text.as_str()).collect()
}

fn errors(notes: &Notes) -> Vec<&str> {
    notes.entries.iter().filter(|n| n.is_error).map(|n| n.text.as_str()).collect()
}

fn dockerfile() -> DockerfilePath {
    DockerfilePath { path: "d/f".to_string(), parent: Some("d".to_string()) }
}

#[test]
fn image_build_announces_itself() {
    let build = execute_build(&config("2025.2"), &dockerfile());
    assert_eq!(
        said(&build.notes),
        [
            "🔨 Forge2K Build Engine v1.0.0",
            "   Method:    native",
            "   Version:   2025.2",
            "   MPI:       mpich",
            "   CPU:       x86_64",
            "   CUDA:      none",
            "   Variant:   psmp",
            "   Jobs:      8",
            "   Tag:       cp2k/cp2k:2025.2_mpich_x86_64_psmp",
            "   Dockerfile: d/f",
            "",
            "🚀 Starting build (this may take 1-3 hours)...",
            "",
            "$ docker build --shm-size 1g -f d/f -t cp2k/cp2k:2025.2_mpich_x86_64_psmp --build-arg NUM_PROCS=8 d",
            "",
        ]
    );
    assert!(errors(&build.notes).is_empty());
    assert_eq!(build.args[0], "build");
    assert_eq!(build.args, image_build_for(&config("2025.2"), "cp2k/cp2k:2025.2_mpich_x86_64_psmp", &dockerfile()).args);
}

fn build() -> ImageBuild {
    execute_build(&config("2025.2"), &dockerfile())
}

fn step(event: BuildEvent) -> BuildStep {
    after_build_event(&build(), event).1
}

#[test]
fn image_build_goes_round() {
    assert!(matches!(step(BuildEvent::Launched), BuildStep::CheckCancel));
    assert!(matches!(step(BuildEvent::CancelChecked(false)), BuildStep::Poll));
    assert!(matches!(step(BuildEvent::Running), BuildStep::Rest));
    assert!(matches!(step(BuildEvent::Rested), BuildStep::CheckCancel));
    let (notes, _) = after_build_event(&build(), BuildEvent::Running);
    assert!(notes.entries.is_empty());
}

#[test]
fn cancelled_image_build_is_stopped() {
    let (notes, step) = after_build_event(&build(), BuildEvent::CancelChecked(true));
    assert!(matches!(step, BuildStep::Kill));
    assert_eq!(said(&notes), ["⛔ Build cancelled by user."]);
    assert_eq!(errors(&notes).len(), 1);
}

#[test]
fn finished_image_build_tells_how_to_run() {
    let (notes, step) =
        after_build_event(&build(), BuildEvent::Exited { success: true, code: Some(0) });
    assert!(matches!(step, BuildStep::Finish));
    assert_eq!(
        said(&notes),
        [
            "",
            "✅ Build completed successfully!",
            "   Image: cp2k/cp2k:2025.2_mpich_x86_64_psmp",
            "",
            "💡 Run with:",
            "   docker run --rm -v $(pwd):/work cp2k/cp2k:2025.2_mpich_x86_64_psmp cp2k --help",
        ]
    );
    assert!(errors(&notes).is_empty());
}

#[test]
fn failed_image_build_ends_without_an_error() {
    let (notes, step) =
        after_build_event(&build(), BuildEvent::Exited { success: false, code: Some(1) });
    assert!(matches!(step, BuildStep::Finish));
    assert_eq!(said(&notes), ["", "❌ Build failed with exit code: Some(1)"]);
    assert_eq!(errors(&notes), ["❌ Build failed with exit code: Some(1)"]);
    let killed = BuildEvent::Exited { success: false, code: None };
    assert_eq!(said(&notes_of_event(&build(), &killed))[1], "❌ Build failed with exit code: None");
}

#[test]
fn image_build_that_cannot_be_launched_or_watched() {
    match step(BuildEvent::NotLaunched("no such file".to_string())) {
        BuildStep::Fail(reason) => assert_eq!(reason, "Failed to launch docker build: no such file"),
        other => panic!("{:?}", other),
    }
    let (notes, step) = after_build_event(&build(), BuildEvent::Lost("gone".to_string()));
    match step {
        BuildStep::Fail(reason) => assert_eq!(reason, "Build process error: gone"),
        other => panic!("{:?}", other),
    }
    assert_eq!(errors(&notes), ["⚠️ Error waiting for build: gone"]);
}

fn archived() -> ImageBuild {
    let mut config = config("2025.2");
    config._output = "image".to_string();
    execute_build(&config, &dockerfile())
}

#[test]
fn image_is_saved_where_an_archive_is_asked_for() {
    let build = archived();
    assert_eq!(build.archive.as_deref(), Some("cp2k_cp2k_2025.2_mpich_x86_64_psmp.tar"));
    let (notes, step) =
        after_build_event(&build, BuildEvent::Exited { success: true, code: Some(0) });
    let file = "cp2k_cp2k_2025.2_mpich_x86_64_psmp.tar";
    let tag = "cp2k/cp2k:2025.2_mpich_x86_64_psmp";
    match step {
        BuildStep::Save(args) => assert_eq!(args, ["save", "-o", file, tag]),
        other => panic!("{:?}", other),
    }
    assert_eq!(said(&notes).len(), 8);
    assert_eq!(said(&notes)[1], "✅ Build completed successfully!");
    assert_eq!(said(&notes)[7], format!("$ docker save -o {} {}", file, tag));
    let (notes, step) = after_build_event(&build, BuildEvent::Saved(CommandOutcome::Succeeded));
    assert!(matches!(step, BuildStep::Finish));
    assert_eq!(said(&notes), [format!("   Archive: {}", file)]);
}

#[test]
fn image_that_cannot_be_saved_fails() {
    let lost = BuildEvent::Saved(CommandOutcome::Failed(Some(1)));
    let (notes, step) = after_build_event(&archived(), lost);
    match step {
        BuildStep::Fail(reason) => assert_eq!(
            reason,
            "Failed to save image: Command 'docker' failed with exit code Some(1)"
        ),
        other => panic!("{:?}", other),
    }
    assert_eq!(
        errors(&notes),
        ["❌ Saving the image failed: Command 'docker' failed with exit code Some(1)"]
    );
}

#[test]
fn image_is_not_saved_otherwise() {
    assert_eq!(build().archive, None);
    let failure = BuildEvent::Exited { success: false, code: Some(1) };
    assert!(matches!(after_build_event(&archived(), failure).1, BuildStep::Finish));
}

#[test]
fn commands_in_words() {
    let args: Vec<String> = vec!["update".to_string(), "-qq".to_string()];
    assert_eq!(command_text("apt-get", &args), "$ apt-get update -qq");
    assert_eq!(command_text("ls", &Vec::new()), "$ ls ");
    assert_eq!(exit_code_text(Some(-9)), "Some(-9)");
    assert_eq!(exit_code_text(None), "None");
}

#[test]
fn commands_that_fail() {
    assert_eq!(command_result("git", &CommandOutcome::Succeeded), Ok(()));
    assert_eq!(
        command_result("git", &CommandOutcome::NotLaunched("denied".to_string())),
        Err("Failed to run 'git': denied".to_string())
    );
    assert_eq!(
        command_result("git", &CommandOutcome::NotAwaited("lost".to_string())),
        Err("Command 'git' wait error: lost".to_string())
    );
    assert_eq!(
        command_result("git", &CommandOutcome::Failed(Some(128))),
        Err("Command 'git' failed with exit code Some(128)".to_string())
    );
    assert_eq!(
        command_result("git", &CommandOutcome::Failed(None)),
        Err("Command 'git' failed with exit code None".to_string())
    );
}

/// Runs a native build in which `reply` answers every action, and gives the
/// actions in words, the log, and the error where the build fails.
fn run(
    version: &str,
    reply: &dyn Fn(&NativeAction) -> NativeReply,
) -> (Vec<String>, Vec<String>, Option<String>) {
    run_with(config(version), reply)
}

/// Runs a native build of a configuration in the same way.
fn run_with(
    config: BuildConfig,
    reply: &dyn Fn(&NativeAction) -> NativeReply,
) -> (Vec<String>, Vec<String>, Option<String>) {
    let (mut build, notes) = NativeBuild::start(config, "/");
    let mut log: Vec<String> = said(&notes).iter().map(|t| t.to_string()).collect();
    let mut actions = Vec::new();
    loop {
        let action = build.action();
        match &action {
            NativeAction::Finish => return (actions, log, None),
            NativeAction::Fail(reason) => return (actions, log, Some(reason.clone())),
            NativeAction::Probe(tool) => actions.push(format!("probe {}", tool)),
            NativeAction::Run { program, args, workdir } => actions.push(format!(
                "run {} {} in {}",
                program,
                args.join(" "),
                workdir.as_deref().unwrap_or("-")
            )),
            NativeAction::MakeDir(path) => actions.push(format!("mkdir {}", path)),
            NativeAction::Exists(path) => actions.push(format!("exists {}", path)),
            NativeAction::Copy { from, to } => actions.push(format!("copy {} {}", from, to)),
            NativeAction::Write { path, content } => {
                actions.push(format!("write {} {}", path, content))
            }
            NativeAction::AllowExecution(path) => actions.push(format!("allow {}", path)),
            NativeAction::Measure(path) => actions.push(format!("measure {}", path)),
        }
        let notes = build.advance(reply(&action));
        log.extend(said(&notes).iter().map(|t| t.to_string()));
    }
}

fn all_good(action: &NativeAction) -> NativeReply {
    match action {
        NativeAction::Measure(_) => NativeReply::Size(3 * 1_048_576 + 5),
        _ => NativeReply::Good,
    }
}

#[test]
fn native_build_of_a_release() {
    let (actions, log, error) = run("2025.2", &all_good);
    let script = r##"#!/bin/bash
set -e
source /opt/cp2k_build/cp2k/tools/toolchain/install/setup
make -j 8 ARCH=local VERSION=psmp
echo "BUILD_COMPLETE"
"##;
    assert_eq!(error, None);
    assert_eq!(
        actions,
        [
            "probe gcc".to_string(),
            "probe g++".to_string(),
            "probe gfortran".to_string(),
            "probe git".to_string(),
            "probe make".to_string(),
            "probe cmake".to_string(),
            "probe wget".to_string(),
            "probe bunzip2".to_string(),
            "mkdir /opt/cp2k_build".to_string(),
            "exists /opt/cp2k_build/cp2k".to_string(),
            "run git -C /opt/cp2k_build/cp2k pull in -".to_string(),
            "exists /opt/cp2k_build/cp2k/tools/toolchain/install_cp2k_toolchain.sh".to_string(),
            "run bash /opt/cp2k_build/cp2k/tools/toolchain/install_cp2k_toolchain.sh -j 8 --install-all --enable-cuda=no --with-deepmd=no --target-cpu=x86_64 --with-cusolvermp=no --with-gcc=system --with-mpich=system in /opt/cp2k_build/cp2k/tools/toolchain".to_string(),
            "exists /opt/cp2k_build/cp2k/tools/toolchain/install/arch/local.psmp".to_string(),
            "copy /opt/cp2k_build/cp2k/tools/toolchain/install/arch/local.psmp /opt/cp2k_build/cp2k/arch/local.psmp".to_string(),
            format!("write /opt/cp2k_build/cp2k/build_native.sh {}", script),
            "allow /opt/cp2k_build/cp2k/build_native.sh".to_string(),
            "run bash /opt/cp2k_build/cp2k/build_native.sh in /opt/cp2k_build/cp2k".to_string(),
            "exists /opt/cp2k_build/cp2k/exe/local/cp2k.psmp".to_string(),
            "measure /opt/cp2k_build/cp2k/exe/local/cp2k.psmp".to_string(),
        ]
    );
    assert_eq!(
        log,
        [
            "🔨 Forge2K Native Build v1.0.0",
            "   Method:    native",
            "   Version:   2025.2",
            "   MPI:       mpich",
            "   CPU:       x86_64",
            "   CUDA:      none",
            "   Variant:   psmp",
            "   Jobs:      8",
            "",
            "📋 Step 1/6: Checking system prerequisites...",
            "   ✅ All required tools found",
            "",
            "📋 Step 2/6: Setting up working directory...",
            "   Work dir: /opt/cp2k_build",
            "",
            "📋 Step 3/6: Cloning CP2K source...",
            "   CP2K directory already exists, pulling latest...",
            "",
            "📋 Step 4/6: Installing CP2K toolchain dependencies...",
            "   This will download and compile many libraries (30-60 min)...",
            "",
            "",
            "📋 Step 5/6: Building CP2K...",
            "",
            "",
            "📋 Step 6/6: Verifying installation...",
            "   ✅ CP2K built successfully: /opt/cp2k_build/cp2k/exe/local/cp2k.psmp",
            "   Binary size: 3 MB",
            "",
            "   🎉 To use CP2K, add to your PATH:",
            "      export PATH=/opt/cp2k_build/cp2k/exe/local:$PATH",
            "",
            "✅ Native build completed!",
        ]
    );
}

#[test]
fn native_build_of_the_development_branch() {
    let (actions, log, error) = run("master", &|action| match action {
        NativeAction::Exists(path) if path == "/opt/cp2k_build/cp2k" => {
            NativeReply::Bad(String::new())
        }
        other => all_good(other),
    });
    let script = r##"#!/bin/bash
set -e
source /opt/cp2k_build/cp2k/tools/toolchain/install/setup
cmake -GNinja \
    -DCMAKE_INSTALL_PREFIX=/opt/cp2k/install \
    -DCP2K_USE_EVERYTHING=ON \
    -DCP2K_USE_DLAF=OFF \
    -DCP2K_USE_PEXSI=OFF \
    -DCP2K_USE_DEEPMD=OFF \
    -DCMAKE_INTERPROCEDURAL_OPTIMIZATION=OFF \
    -DCMAKE_C_FLAGS="-fno-lto" \
    -DCMAKE_CXX_FLAGS="-fno-lto" \
    -DCMAKE_Fortran_FLAGS="-fno-lto" \
    -DCMAKE_EXE_LINKER_FLAGS="-fno-lto" \
    -Werror=dev \
    -B build -S .
ninja -C build -j 8
cmake --install build --prefix /opt/cp2k/install
echo "BUILD_COMPLETE"
"##;
    assert_eq!(error, None);
    assert_eq!(
        actions[10],
        "run git clone --recursive https://github.com/cp2k/cp2k.git /opt/cp2k_build/cp2k in -"
    );
    assert_eq!(actions[13], format!("write /opt/cp2k_build/cp2k/build_native.sh {}", script));
    assert!(!actions.iter().any(|a| a.contains("local.psmp")));
    assert!(actions.contains(&"measure /opt/cp2k/install/bin/cp2k.psmp".to_string()));
    assert!(log.contains(&"      export PATH=/opt/cp2k/install/bin:$PATH".to_string()));
}

#[test]
fn native_build_clones_the_branch_of_a_release() {
    let (actions, _, _) = run("2024.3", &|action| match action {
        NativeAction::Exists(path) if path == "/opt/cp2k_build/cp2k" => {
            NativeReply::Bad(String::new())
        }
        other => all_good(other),
    });
    assert_eq!(
        actions[10],
        "run git clone --recursive -b support/v2024.3 https://github.com/cp2k/cp2k.git /opt/cp2k_build/cp2k in -"
    );
}

#[test]
fn native_build_installs_missing_tools() {
    let (actions, log, error) = run("2025.2", &|action| match action {
        NativeAction::Probe(tool) if tool == "gfortran" || tool == "wget" => {
            NativeReply::Bad(String::new())
        }
        NativeAction::Run { args, .. } if args[0] == "install" || args[0] == "apt-get" => {
            NativeReply::Bad("not allowed".to_string())
        }
        other => all_good(other),
    });
    assert_eq!(error, None);
    assert_eq!(actions[8], "run apt-get update -qq in -");
    assert_eq!(
        actions[9],
        "run apt-get install -qq --no-install-recommends -y gfortran wget autoconf autogen automake libtool libtool-bin ninja-build pkg-config python3-dev python3-pip xxd xz-utils zlib1g-dev in -"
    );
    assert_eq!(actions[10], "run sudo apt-get install -qq -y gfortran wget in -");
    assert_eq!(actions[11], "mkdir /opt/cp2k_build");
    assert_eq!(
        &log[10..15],
        [
            "   Missing: gfortran, wget",
            "   Attempting to install missing packages...",
            "   ⚠️  Some packages failed to install. Trying with sudo...",
            "",
            "📋 Step 2/6: Setting up working directory...",
        ]
    );
}

#[test]
fn native_build_passes_missing_tools_as_one_word_to_sudo() {
    let (mut build, _) = NativeBuild::start(config("2025.2"), "/");
    for _ in 0..8 {
        build.advance(NativeReply::Bad(String::new()));
    }
    build.advance(NativeReply::Good);
    build.advance(NativeReply::Bad(String::new()));
    match build.action() {
        NativeAction::Run { program, args, .. } => {
            assert_eq!(program, "sudo");
            assert_eq!(args.len(), 5);
            assert_eq!(args[4], "gcc g++ gfortran git make cmake wget bunzip2");
        }
        other => panic!("{:?}", other),
    }
}

fn failing_at(version: &str, wanted: &str) -> Option<String> {
    run(version, &|action| {
        let hit = match action {
            NativeAction::Run { program, args, .. } => format!("{} {}", program, args.join(" ")),
            NativeAction::MakeDir(path) => format!("mkdir {}", path),
            NativeAction::Exists(path) => format!("exists {}", path),
            NativeAction::Copy { .. } => "copy".to_string(),
            NativeAction::Write { .. } => "write".to_string(),
            NativeAction::AllowExecution(_) => "allow".to_string(),
            _ => String::new(),
        };
        if hit.starts_with(wanted) {
            NativeReply::Bad("the reason".to_string())
        } else {
            all_good(action)
        }
    })
    .2
}

#[test]
fn native_build_tells_why_it_failed() {
    assert_eq!(
        failing_at("2025.2", "mkdir").as_deref(),
        Some("Failed to create /opt/cp2k_build")
    );
    assert_eq!(failing_at("2025.2", "git").as_deref(), Some("the reason"));
    assert_eq!(
        failing_at("2025.2", "exists /opt/cp2k_build/cp2k/tools/toolchain/install_cp2k").as_deref(),
        Some("Toolchain script not found at /opt/cp2k_build/cp2k/tools/toolchain/install_cp2k_toolchain.sh")
    );
    assert_eq!(
        failing_at("2025.2", "bash /opt/cp2k_build/cp2k/tools").as_deref(),
        Some("Toolchain installation failed: the reason")
    );
    assert_eq!(failing_at("2025.2", "copy").as_deref(), Some("the reason"));
    assert_eq!(failing_at("master", "write").as_deref(), Some("the reason"));
    assert_eq!(
        failing_at("master", "allow").as_deref(),
        Some("Cannot chmod +x /opt/cp2k_build/cp2k/build_native.sh: the reason")
    );
    assert_eq!(
        failing_at("master", "bash /opt/cp2k_build/cp2k/build_native.sh").as_deref(),
        Some("the reason")
    );
}

#[test]
fn native_build_goes_on_without_arch_file_and_binary() {
    assert_eq!(failing_at("2025.2", "exists /opt/cp2k_build/cp2k/tools/toolchain/install/"), None);
    let (_, log, error) = run("2025.2", &|action| match action {
        NativeAction::Exists(path) if path.ends_with("cp2k.psmp") => {
            NativeReply::Bad(String::new())
        }
        other => all_good(other),
    });
    assert_eq!(error, None);
    assert_eq!(
        &log[log.len() - 3..],
        [
            "   ⚠️  CP2K binary not found at expected location. Check build output above.",
            "",
            "✅ Native build completed!",
        ]
    );
}

#[test]
fn native_stages_stay_at_their_end() {
    assert_eq!(stage_after(NativeStage::Done, true, false, false), NativeStage::Done);
    assert_eq!(stage_after(NativeStage::Failed, false, true, true), NativeStage::Failed);
    assert_eq!(stage_after(NativeStage::Probe(0), true, false, false), NativeStage::Probe(1));
    assert_eq!(stage_after(NativeStage::Probe(7), false, true, false), NativeStage::MakeWorkDir);
    assert_eq!(stage_after(NativeStage::Probe(7), true, false, false), NativeStage::UpdateIndex);
}

#[test]
fn native_paths_use_the_separator_of_the_system() {
    let (mut build, _) = NativeBuild::start(config("2025.2"), "\\");
    for _ in 0..9 {
        build.advance(NativeReply::Good);
    }
    match build.action() {
        NativeAction::Exists(path) => assert_eq!(path, "/opt/cp2k_build\\cp2k"),
        other => panic!("{:?}", other),
    }
}

#[test]
fn longest_native_build() {
    let (actions, _, error) = run("2025.2", &|action| match action {
        NativeAction::Probe(_) => NativeReply::Bad(String::new()),
        NativeAction::Run { args, .. } if args[0] == "install" => NativeReply::Bad(String::new()),
        other => all_good(other),
    });
    assert_eq!(error, None);
    assert_eq!(actions.len(), 23);
}

#[test]
fn native_build_follows_its_configuration() {
    let mut config = config("2025.2");
    config.mpi = "openmpi".to_string();
    config.cpu = "haswell".to_string();
    config.cuda = "V100".to_string();
    config.variant = "ssmp".to_string();
    let (actions, log, error) = run_with(config, &all_good);
    assert_eq!(error, None);
    assert_eq!(
        actions[12],
        "run bash /opt/cp2k_build/cp2k/tools/toolchain/install_cp2k_toolchain.sh -j 8 --install-all --enable-cuda=yes --gpu-ver=V100 --with-libtorch=no --with-deepmd=no --target-cpu=haswell --with-cusolvermp=no --with-gcc=system --with-openmpi=system in /opt/cp2k_build/cp2k/tools/toolchain"
    );
    assert_eq!(
        actions[14],
        "copy /opt/cp2k_build/cp2k/tools/toolchain/install/arch/local_cuda.ssmp /opt/cp2k_build/cp2k/arch/local_cuda.ssmp"
    );
    assert!(actions[15].ends_with("\nmake -j 8 ARCH=local_cuda VERSION=ssmp\necho \"BUILD_COMPLETE\"\n"));
    assert_eq!(actions[19], "measure /opt/cp2k_build/cp2k/exe/local_cuda/cp2k.ssmp");
    assert!(log.contains(&"      export PATH=/opt/cp2k_build/cp2k/exe/local_cuda:$PATH".to_string()));
}

#[test]
fn native_build_of_a_variant_of_the_development_branch() {
    let mut config = config("master");
    config.variant = "sdbg".to_string();
    let (actions, _, _) = run_with(config, &all_good);
    assert!(actions[13].contains(
        "\"-fno-lto\" \\\n    -DCP2K_USE_MPI=OFF \\\n    -DCMAKE_BUILD_TYPE=Debug \\\n    -Werror=dev \\\n"
    ));
    assert_eq!(actions[17], "measure /opt/cp2k/install/bin/cp2k.sdbg");
}
