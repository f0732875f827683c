//! Docker, its registry, and the mirrors in its configuration.

use forge2k::docker::check_docker;
use forge2k::docker::docker_install_guide;
use forge2k::docker::version_args;
use forge2k::docker::DockerStatus;
use forge2k::docker::Platform;
use forge2k::page::Tone;
use forge2k::registry::after_mirror_test;
use forge2k::registry::catalog_url;
use forge2k::registry::check_registry;
use forge2k::registry::curl_found_registry;
use forge2k::registry::curl_probe;
use forge2k::registry::detect_best_mirror;
use forge2k::registry::discard_args;
use forge2k::registry::first_mirror;
use forge2k::registry::get_registry_mirror;
use forge2k::registry::is_mirror_url;
use forge2k::registry::powershell_found_registry;
use forge2k::registry::powershell_probe;
use forge2k::registry::pull_args;
use forge2k::registry::put_mirror;
use forge2k::registry::registry_mirrors;
use forge2k::registry::remove_registry_mirror;
use forge2k::registry::set_registry_mirror;
use forge2k::registry::MirrorSearch;
use forge2k::registry::NetworkStatus;
use forge2k::registry::PullOutcome;

const RUNNING: &str = "Client: Docker Engine - Community\n Version:           27.3.1\n\nServer: Docker Engine - Community\n Engine:\n  Version:          27.3.0\n";

#[test]
fn running_docker_tells_its_version() {
    match check_docker(Some(RUNNING)) {
        DockerStatus::Installed { version, running } => {
            assert_eq!(version, " Version:           27.3.1");
            assert!(running);
        }
        other => panic!("{:?}", other),
    }
}

#[test]
fn docker_without_a_version_line() {
    match check_docker(Some("Server:")) {
        DockerStatus::Installed { version, running } => {
            assert_eq!(version, "unknown");
            assert!(running);
        }
        other => panic!("{:?}", other),
    }
}

#[test]
fn docker_that_does_not_run_or_is_not_there() {
    assert!(matches!(
        check_docker(Some("Client:\n Version: 27.3.1\n")),
        DockerStatus::NotRunning
    ));
    assert!(matches!(check_docker(Some("")), DockerStatus::NotRunning));
    assert!(matches!(check_docker(None), DockerStatus::NotInstalled));
}

fn guide(platform: Platform) -> String {
    docker_install_guide(platform).pieces.iter().map(|p| p.text.as_str()).collect()
}

#[test]
fn guides_differ_by_system() {
    let title = "╔══════════════════════════════════════════════════════════╗\n║       Docker Engine Not Found - Installation Guide      ║\n╚══════════════════════════════════════════════════════════╝\n\n";
    assert_eq!(guide(Platform::Other), title);
    assert_eq!(
        guide(Platform::MacOs),
        format!("{}macOS Installation:\n  1. Download Docker Desktop from: https://docs.docker.com/desktop/setup/install/mac-install/\n  2. Drag Docker.app to Applications folder\n  3. Launch Docker Desktop from Applications\n", title)
    );
    assert_eq!(
        guide(Platform::Wsl),
        format!("{}WSL Ubuntu/Debian Installation:\n  curl -fsSL https://get.docker.com -o get-docker.sh\n  sudo sh get-docker.sh\n  sudo usermod -aG docker $USER\n  newgrp docker\n\nOr with Docker Desktop for Windows (WSL 2 backend):\n  Install Docker Desktop on Windows, then enable WSL 2 integration\n  Settings → Resources → WSL Integration → Enable your distro\n", title)
    );
    assert_eq!(
        guide(Platform::Windows),
        format!("{}Windows Installation:\n  1. Download Docker Desktop from: https://docs.docker.com/desktop/setup/install/windows-install/\n  2. Run the installer (Docker Desktop Installer.exe)\n  3. Make sure 'Use WSL 2 instead of Hyper-V' is selected\n  4. Restart your computer after installation\n  5. Launch Docker Desktop from Start Menu\n\nWSL 2 Ubuntu Installation (alternative):\n  curl -fsSL https://get.docker.com -o get-docker.sh\n  sudo sh get-docker.sh\n  sudo usermod -aG docker $USER\n  newgrp docker\n", title)
    );
    assert_eq!(
        guide(Platform::Linux),
        format!("{}Linux Installation (Ubuntu/Debian):\n  # Add Docker's official GPG key:\n  sudo apt-get update\n  sudo apt-get install ca-certificates curl\n  sudo install -m 0755 -d /etc/apt/keyrings\n  curl -fsSL https://download.docker.com/linux/ubuntu/gpg | sudo tee /etc/apt/keyrings/docker.asc\n\n  # Add the repository:\n  echo \"deb [arch=$(dpkg --print-architecture) signed-by=/etc/apt/keyrings/docker.asc] https://download.docker.com/linux/ubuntu $(. /etc/os-release && echo \"$VERSION_CODENAME\") stable\" | sudo tee /etc/apt/sources.list.d/docker.list > /dev/null\n\n  # Install Docker:\n  sudo apt-get update\n  sudo apt-get install docker-ce docker-ce-cli containerd.io\n  sudo usermod -aG docker $USER\n  newgrp docker\n", title)
    );
    let pieces = docker_install_guide(Platform::Linux).pieces;
    assert!(pieces
        .iter()
        .any(|p| p.tone == Tone::CyanBold && p.text == "Linux Installation (Ubuntu/Debian):"));
    assert_eq!(pieces.iter().filter(|p| p.tone == Tone::Yellow).count(), 3);
}

#[test]
fn pulls_tell_of_the_network() {
    let pulled = |seconds: u64| PullOutcome::Pulled { seconds, elapsed: "12.3s".to_string() };
    assert!(matches!(check_registry(pulled(0)), NetworkStatus::Good));
    assert!(matches!(check_registry(pulled(9)), NetworkStatus::Good));
    match check_registry(pulled(10)) {
        NetworkStatus::Slow(time) => assert_eq!(time, "12.3s"),
        other => panic!("{:?}", other),
    }
    for complaint in ["i/o timeout", "connection refused", "no route to host"] {
        match check_registry(PullOutcome::Refused(complaint.to_string())) {
            NetworkStatus::Blocked(reason) => assert_eq!(reason, complaint),
            other => panic!("{:?}", other),
        }
    }
    match check_registry(PullOutcome::Refused("unauthorized".to_string())) {
        NetworkStatus::Unknown(reason) => assert_eq!(reason, "unauthorized"),
        other => panic!("{:?}", other),
    }
    match check_registry(PullOutcome::NotLaunched("no timeout here".to_string())) {
        NetworkStatus::Unknown(reason) => assert_eq!(reason, "no timeout here"),
        other => panic!("{:?}", other),
    }
}

fn search(works: &dyn Fn(&str) -> bool) -> (Option<String>, Vec<String>) {
    let mut tried = Vec::new();
    let mut step = detect_best_mirror();
    loop {
        let url = match &step {
            MirrorSearch::Test { url, .. } => url.clone(),
            MirrorSearch::Found(url) => return (Some(url.clone()), tried),
            MirrorSearch::Exhausted => return (None, tried),
        };
        let answer = works(&url);
        tried.push(url);
        step = after_mirror_test(step, answer);
    }
}

#[test]
fn search_stops_at_the_first_mirror_that_works() {
    let all = registry_mirrors();
    assert_eq!(
        all,
        [
            "https://docker.mirrors.ustc.edu.cn",
            "https://mirror.ccs.tencentyun.com",
            "https://2a59f68c.m.daocloud.io",
            "https://registry.docker-cn.com",
            "https://dockerhub.timeweb.cloud",
        ]
    );
    let (found, tried) = search(&|_| true);
    assert_eq!(found.as_deref(), Some(all[0].as_str()));
    assert_eq!(tried, all[..1]);
    let (found, tried) = search(&|url| url.contains("docker-cn") || url.contains("timeweb"));
    assert_eq!(found.as_deref(), Some("https://registry.docker-cn.com"));
    assert_eq!(tried, all[..4]);
    let (found, tried) = search(&|_| false);
    assert_eq!(found, None);
    assert_eq!(tried, all);
}

#[test]
fn probes_ask_for_the_catalog() {
    assert_eq!(catalog_url("https://m.example//"), "https://m.example/v2/_catalog");
    assert_eq!(
        curl_probe("https://m.example/"),
        [
            "-s",
            "-o",
            "/dev/null",
            "-w",
            "%{http_code}",
            "--connect-timeout",
            "5",
            "https://m.example/v2/_catalog",
        ]
    );
    assert_eq!(
        powershell_probe("https://m.example"),
        [
            "-NoProfile",
            "-Command",
            "try { (Invoke-WebRequest -Uri 'https://m.example/v2/_catalog' -TimeoutSec 5 -UseBasicParsing).StatusCode -eq 200 } catch { $false }",
        ]
    );
}

#[test]
fn probe_answers() {
    assert!(curl_found_registry("200"));
    assert!(curl_found_registry(" 401\n"));
    assert!(!curl_found_registry("000"));
    assert!(!curl_found_registry("2000"));
    assert!(!curl_found_registry(""));
    assert!(powershell_found_registry("True\r\n"));
    assert!(!powershell_found_registry("False"));
    assert!(!powershell_found_registry("true"));
}

#[test]
fn mirrors_are_web_addresses() {
    assert!(is_mirror_url("http://"));
    assert!(is_mirror_url("https://m.example"));
    assert!(!is_mirror_url("HTTPS://m.example"));
    assert!(!is_mirror_url(" https://m.example"));
    assert!(!is_mirror_url("ftp://m.example"));
    assert!(!is_mirror_url(""));
}

#[test]
fn mirror_in_a_new_configuration() {
    let text = set_registry_mirror(None, "https://m.example").unwrap();
    assert_eq!(text, "{\n  \"registry-mirrors\": [\n    \"https://m.example\"\n  ]\n}");
    assert_eq!(get_registry_mirror(Some(&text)).as_deref(), Some("https://m.example"));
}

#[test]
fn mirror_beside_other_settings() {
    let before = "{\"debug\": true, \"registry-mirrors\": [\"https://a\", \"https://b\"], \"log\": {\"n\": 3}}";
    assert_eq!(get_registry_mirror(Some(before)).as_deref(), Some("https://a"));
    let text = set_registry_mirror(Some(before), "https://c").unwrap();
    let doc: serde_json::Value = serde_json::from_str(&text).unwrap();
    assert_eq!(doc["debug"], serde_json::Value::Bool(true));
    assert_eq!(doc["log"]["n"], serde_json::Value::from(3));
    assert_eq!(doc["registry-mirrors"], serde_json::Value::from(vec!["https://c".to_string()]));
    assert_eq!(get_registry_mirror(Some(&text)).as_deref(), Some("https://c"));
}

#[test]
fn a_broken_configuration_is_started_anew() {
    let text = set_registry_mirror(Some("{ no json"), "https://m.example").unwrap();
    assert_eq!(text, "{\n  \"registry-mirrors\": [\n    \"https://m.example\"\n  ]\n}");
    let text = set_registry_mirror(Some("null"), "https://m.example").unwrap();
    assert_eq!(get_registry_mirror(Some(&text)).as_deref(), Some("https://m.example"));
}

#[test]
fn a_configuration_without_members_takes_no_mirror() {
    assert_eq!(set_registry_mirror(Some("[]"), "https://m.example"), None);
    assert_eq!(set_registry_mirror(Some("3"), "https://m.example"), None);
    assert_eq!(set_registry_mirror(Some("\"x\""), "https://m.example"), None);
}

#[test]
fn mirrors_are_put_into_documents() {
    let mut doc: serde_json::Value = serde_json::from_str("{\"a\": 1}").unwrap();
    put_mirror(&mut doc, "https://m.example");
    assert_eq!(doc["a"], serde_json::Value::from(1));
    assert_eq!(doc["registry-mirrors"][0], serde_json::Value::from("https://m.example"));
}

#[test]
fn mirrors_are_removed() {
    let before = "{\"debug\": true, \"registry-mirrors\": [\"https://a\"]}";
    let text = remove_registry_mirror(before).unwrap();
    assert_eq!(text, "{\n  \"debug\": true\n}");
    assert_eq!(get_registry_mirror(Some(&text)), None);
    assert_eq!(remove_registry_mirror("{}").unwrap(), "{}");
    assert_eq!(remove_registry_mirror("[1]").unwrap(), "[\n  1\n]");
    assert_eq!(
        remove_registry_mirror("").unwrap_err(),
        "EOF while parsing a value at line 1 column 0"
    );
}

#[test]
fn first_mirror_of_a_document() {
    let first = |text: &str| first_mirror(&serde_json::from_str(text).unwrap());
    assert_eq!(
        first("{\"registry-mirrors\": [\"https://a\", \"https://b\"]}").as_deref(),
        Some("https://a")
    );
    assert_eq!(first("{\"registry-mirrors\": [null]}"), None);
    assert_eq!(first("{\"mirrors\": [\"https://a\"]}"), None);
    assert_eq!(first("null"), None);
}

#[test]
fn arguments_that_ask_docker() {
    assert_eq!(version_args(), ["version"]);
    assert_eq!(pull_args(), ["pull", "alpine:latest", "--quiet"]);
    assert_eq!(discard_args(), ["rmi", "alpine:latest"]);
}

#[test]
fn mirrors_are_read_only_where_they_are_listed() {
    assert_eq!(get_registry_mirror(None), None);
    assert_eq!(get_registry_mirror(Some("")), None);
    assert_eq!(get_registry_mirror(Some("{}")), None);
    assert_eq!(get_registry_mirror(Some("[\"registry-mirrors\"]")), None);
    assert_eq!(get_registry_mirror(Some("{\"registry-mirrors\": \"https://a\"}")), None);
    assert_eq!(get_registry_mirror(Some("{\"registry-mirrors\": []}")), None);
    assert_eq!(get_registry_mirror(Some("{\"registry-mirrors\": [1, \"https://a\"]}")), None);
}
