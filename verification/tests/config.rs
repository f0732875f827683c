//! Image tags, Dockerfile names, `docker build` arguments, and the choice of
//! the Dockerfile.

use forge2k::config::archive_file_name;
use forge2k::config::dockerfile_file_name;
use forge2k::config::BuildConfig;
use forge2k::config::DockerfilePath;
use forge2k::resolve::after_look;
use forge2k::resolve::custom_missing_text;
use forge2k::resolve::Candidate;
use forge2k::resolve::Resolution;
use forge2k::resolve::SearchBase;

fn config() -> BuildConfig {
    BuildConfig {
        method: "spack".to_string(),
        version: "2025.2".to_string(),
        mpi: "mpich".to_string(),
        cpu: "x86_64".to_string(),
        cuda: "none".to_string(),
        variant: "psmp".to_string(),
        jobs: 12,
        tag: String::new(),
        no_cache: false,
        shm_size: "1g".to_string(),
        dockerfile: None,
        _output: "docker".to_string(),
    }
}

#[test]
fn automatic_tag_of_a_release() {
    assert_eq!(config().default_tag(), "cp2k/cp2k:2025.2_mpich_x86_64_psmp");
}

#[test]
fn automatic_tag_names_the_gpu() {
    let mut config = config();
    config.cuda = "V100".to_string();
    assert_eq!(config.default_tag(), "cp2k/cp2k:2025.2_mpich_x86_64_cuda_V100_psmp");
}

#[test]
fn configured_tag_wins() {
    let mut config = config();
    config.version = "master".to_string();
    config.tag = "mine:1".to_string();
    assert_eq!(config.default_tag(), "mine:1");
    assert_eq!(config.tag_for("20250102"), "mine:1");
}

#[test]
fn tag_of_the_development_branch_names_the_day() {
    let mut config = config();
    config.version = "master".to_string();
    assert_eq!(config.tag_for("20250102"), "cp2k/cp2k:master_20250102_mpich_x86_64_psmp");
    let tag = config.default_tag();
    assert!(tag.starts_with("cp2k/cp2k:master_"));
    assert!(tag.ends_with("_mpich_x86_64_psmp"));
    let date = &tag["cp2k/cp2k:master_".len()..tag.len() - "_mpich_x86_64_psmp".len()];
    assert_eq!(date.len(), 8);
    assert!(date.chars().all(|c| c.is_ascii_digit()));
    let month: u32 = date[4..6].parse().unwrap();
    let day: u32 = date[6..8].parse().unwrap();
    assert!((1..=12).contains(&month));
    assert!((1..=31).contains(&day));
}

#[test]
fn bundled_names_depend_on_the_method() {
    let mut config = config();
    config.cuda = "P100".to_string();
    assert_eq!(config.dockerfile_name(), "spack/2025.2_mpich_x86_64_psmp.Dockerfile");
    config.method = "native".to_string();
    assert_eq!(config.dockerfile_name(), "spack/2025.2_mpich_x86_64_psmp.Dockerfile");
    config.method = "toolchain".to_string();
    assert_eq!(config.dockerfile_name(), "toolchain/2025.2_mpich_x86_64_cuda_P100_psmp.Dockerfile");
    config.cuda = "none".to_string();
    assert_eq!(config.dockerfile_name(), "toolchain/2025.2_mpich_x86_64_psmp.Dockerfile");
}

#[test]
fn docker_arguments_in_order() {
    let dockerfile = DockerfilePath {
        path: "/tmp/forge2k/x.Dockerfile".to_string(),
        parent: Some("/tmp/forge2k".to_string()),
    };
    assert_eq!(
        config().build_docker_args(&dockerfile),
        [
            "build",
            "--shm-size",
            "1g",
            "-f",
            "/tmp/forge2k/x.Dockerfile",
            "-t",
            "cp2k/cp2k:2025.2_mpich_x86_64_psmp",
            "--build-arg",
            "NUM_PROCS=12",
            "/tmp/forge2k",
        ]
    );
}

#[test]
fn docker_arguments_without_cache_and_directory() {
    let mut config = config();
    config.no_cache = true;
    config.jobs = 4294967295;
    let dockerfile = DockerfilePath { path: "/".to_string(), parent: None };
    assert_eq!(
        config.docker_args("t:1", &dockerfile),
        [
            "build",
            "--shm-size",
            "1g",
            "--no-cache",
            "-f",
            "/",
            "-t",
            "t:1",
            "--build-arg",
            "NUM_PROCS=4294967295",
            ".",
        ]
    );
}

#[test]
fn the_parent_is_the_context_as_it_is() {
    let bare = DockerfilePath { path: "my.Dockerfile".to_string(), parent: Some(String::new()) };
    assert_eq!(config().docker_args("t:1", &bare).last().unwrap(), "");
}

#[test]
fn native_builds_are_told_apart() {
    let mut config = config();
    assert!(!config.builds_natively());
    config.method = "native".to_string();
    assert!(config.builds_natively());
}

#[test]
fn file_names_hold_no_slash_and_no_colon() {
    assert_eq!(archive_file_name("cp2k/cp2k:1"), "cp2k_cp2k_1.tar");
    assert_eq!(
        dockerfile_file_name("cp2k/cp2k:2025.2_mpich_x86_64_psmp"),
        "cp2k_cp2k_2025.2_mpich_x86_64_psmp.Dockerfile"
    );
    assert_eq!(dockerfile_file_name(""), ".Dockerfile");
    assert_eq!(dockerfile_file_name("//::é"), "____é.Dockerfile");
}

fn pick(config: &BuildConfig, on_disk: &[Candidate]) -> Resolution {
    let mut step = config.resolve_dockerfile();
    while let Resolution::Look(candidate) = step {
        step = after_look(candidate, on_disk.contains(&candidate));
    }
    step
}

#[test]
fn custom_dockerfile_is_taken_or_missed() {
    let mut config = config();
    config.dockerfile = Some("my.Dockerfile".to_string());
    let bundled = Candidate::Bundled(SearchBase::Current);
    assert_eq!(
        pick(&config, &[Candidate::Custom, bundled]),
        Resolution::Take(Candidate::Custom)
    );
    assert_eq!(pick(&config, &[bundled]), Resolution::CustomMissing);
    assert_eq!(
        custom_missing_text("my.Dockerfile"),
        "Custom Dockerfile not found: my.Dockerfile"
    );
}

#[test]
fn first_bundled_dockerfile_wins() {
    let beside = Candidate::Bundled(SearchBase::BesideExecutable);
    let below = Candidate::Bundled(SearchBase::Dockerfiles);
    let here = Candidate::Bundled(SearchBase::Current);
    assert_eq!(pick(&config(), &[here, below, beside]), Resolution::Take(beside));
    assert_eq!(pick(&config(), &[here, below]), Resolution::Take(below));
    assert_eq!(pick(&config(), &[here]), Resolution::Take(here));
    assert_eq!(pick(&config(), &[Candidate::Custom]), Resolution::Generate);
}
