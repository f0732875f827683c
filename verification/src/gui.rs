//! The state of the graphical interface, and what it shows.

use crate::catalogue::catalogue;
use crate::config::configured_tag_wins;
use crate::config::docker_args_give_their_options;
use crate::config::gives;
use crate::config::BuildConfig;
use crate::console::effective_jobs;
use crate::console::jobs_are_as_asked;
use crate::console::jobs_for;
use crate::docker::DockerStatus;
use crate::log::LogLine;
use crate::registry::is_mirror_url;
use crate::registry::is_web_address;
use crate::registry::NetworkStatus;
use crate::text::decimal;
use crate::text::decimal_reads_back;
use crate::text::no_texts;
use crate::text::parse_u32;
use crate::text::parsed_u32;
use crate::text::push_copy;
use crate::text::same;
use crate::text::texts;
use vstd::prelude::*;

verus! {

/// The tabs of the window.
#[derive(Clone, Copy, Debug, PartialEq, Eq, Structural)]
pub enum Tab {
    Build,
    System,
    Settings,
    About,
}

/// The parts of a build that the user chooses or types.
#[derive(Clone, Copy, Debug, PartialEq, Eq, Structural)]
pub enum Setting {
    Method,
    Version,
    Mpi,
    Cpu,
    Cuda,
    Variant,
    Jobs,
    ShmSize,
    Tag,
}

/// A build that the interface starts: where it runs, and what is built.
#[derive(Debug)]
pub enum BuildJob {
    /// A build on this machine, without Docker.
    Native(BuildConfig),
    /// A build of an image with Docker.
    Image(BuildConfig),
}

/// The state of the graphical interface.
#[derive(Debug)]
pub struct Forge2kApp {
    // What to build.
    pub method: String,
    pub version: String,
    pub mpi: String,
    pub cpu: String,
    pub cuda: String,
    pub variant: String,
    /// The number of jobs as the user typed it.
    pub jobs: String,
    pub tag: String,
    pub shm_size: String,
    // The build under way.
    pub build_logs: Vec<LogLine>,
    pub is_building: bool,
    pub cancel_flag: bool,
    pub build_error: Option<String>,
    // What is known of the system.
    pub docker_status: String,
    pub docker_running: bool,
    pub docker_checked: bool,
    pub registry_status: String,
    pub current_mirror: String,
    // The settings.
    pub mirror_input: String,
    pub settings_message: String,
    // The window.
    pub active_tab: Tab,
    pub log_auto_scroll: bool,
}

/// The text of an optional string; none is empty.
pub open spec fn text_or_empty(text: Option<String>) -> Seq<char> {
    match text {
        Some(t) => t@,
        None => Seq::empty(),
    }
}

/// The number of jobs that the user typed; what is no number asks for one per
/// processor.
pub open spec fn typed_jobs(text: Seq<char>) -> u32 {
    match parsed_u32(text) {
        Some(n) => n,
        None => 0,
    }
}

/// The tab `Settings` can help where the registry is blocked and no mirror is
/// configured.
pub const MIRROR_HINT: &'static str = "\n   Try: Settings → Auto-detect Mirror";

/// How the interface words the state of the registry.
pub open spec fn registry_words(status: NetworkStatus, mirror: Seq<char>) -> Seq<char> {
    match status {
        NetworkStatus::Good => "✅ Fast"@,
        NetworkStatus::Slow(time) => "⚠️ Slow ("@ + time@ + ")"@,
        NetworkStatus::Blocked(reason) => if mirror.len() == 0 {
            "❌ Blocked - "@ + reason@ + MIRROR_HINT@
        } else {
            "❌ Blocked - "@ + reason@
        },
        NetworkStatus::Unknown(reason) => "❓ "@ + reason@,
    }
}

/// How the interface words the state of Docker.
pub open spec fn docker_words(status: DockerStatus) -> Seq<char> {
    match status {
        DockerStatus::Installed { version, .. } => version@,
        DockerStatus::NotInstalled => "Not installed"@,
        DockerStatus::NotRunning => "Installed (not running)"@,
    }
}

/// Docker is at work.
pub open spec fn docker_runs(status: DockerStatus) -> bool {
    status matches DockerStatus::Installed { running, .. } && running
}

/// What pairs of strings say.
pub open spec fn pairs(list: Seq<(String, String)>) -> Seq<(Seq<char>, Seq<char>)> {
    list.map_values(|p: (String, String)| (p.0@, p.1@))
}

/// A list without pairs.
pub fn no_pairs() -> (r: Vec<(String, String)>)
    ensures
        pairs(r@) == Seq::<(Seq<char>, Seq<char>)>::empty(),
{
    let r: Vec<(String, String)> = Vec::new();
    assert(pairs(r@) =~= Seq::<(Seq<char>, Seq<char>)>::empty());
    r
}

/// Adds a pair to a list.
pub fn push_pair(list: &mut Vec<(String, String)>, left: &str, right: &str)
    ensures
        pairs(final(list)@) == pairs(old(list)@).push((left@, right@)),
{
    list.push((left.to_owned(), right.to_owned()));
    assert(pairs(list@) =~= pairs(old(list)@).push((left@, right@)));
}

impl Forge2kApp {
    /// Docker counts as running only once it was looked for.
    pub open spec fn docker_known(&self) -> bool {
        self.docker_running ==> self.docker_checked
    }

    /// What the interface starts, on a machine with the given parallelism: the
    /// method `native` is built on this machine, every other one with Docker.
    pub open spec fn asks_for(&self, parallelism: Option<usize>, job: BuildJob) -> bool {
        match job {
            BuildJob::Native(config) => self.method@ == "native"@ && self.configures(
                parallelism,
                config,
            ),
            BuildJob::Image(config) => self.method@ != "native"@ && self.configures(
                parallelism,
                config,
            ),
        }
    }

    /// What the interface builds, on a machine with the given parallelism.
    pub open spec fn configures(&self, parallelism: Option<usize>, config: BuildConfig) -> bool {
        &&& config.method == self.method
        &&& config.version == self.version
        &&& config.mpi == self.mpi
        &&& config.cpu == self.cpu
        &&& config.cuda == self.cuda
        &&& config.variant == self.variant
        &&& config.jobs == jobs_for(typed_jobs(self.jobs@), parallelism)
        &&& config.tag == self.tag
        &&& !config.no_cache
        &&& config.dockerfile is None
        &&& config.shm_size == self.shm_size
        &&& config._output@ == "docker"@
    }

    /// The state at the start of the program, where Docker is configured with
    /// the given mirror. What is chosen at the start is among the choices.
    pub fn new(current_mirror: Option<String>) -> (r: Forge2kApp)
        ensures
            r.method@ == "spack"@,
            r.version@ == "2025.2"@,
            r.mpi@ == "mpich"@,
            r.cpu@ == "x86_64"@,
            r.cuda@ == "none"@,
            r.variant@ == "psmp"@,
            r.jobs@ == "0"@,
            r.tag@ == Seq::<char>::empty(),
            r.shm_size@ == "1g"@,
            r.build_logs@.len() == 0,
            !r.is_building,
            !r.cancel_flag,
            r.build_error is None,
            r.docker_status@ == "Not checked"@,
            !r.docker_running,
            !r.docker_checked,
            r.registry_status@ == "Not checked"@,
            r.current_mirror@ == text_or_empty(current_mirror),
            r.mirror_input@ == Seq::<char>::empty(),
            r.settings_message@ == Seq::<char>::empty(),
            r.active_tab == Tab::Build,
            r.log_auto_scroll,
            offers(r.method@, r.version@, r.mpi@, r.cpu@, r.cuda@, r.variant@),
            r.docker_known(),
    {
        proof {
            methods_differ();
            offers_at("spack"@, 0, 1, 0, 0, 0, 0);
        }
        Forge2kApp {
            method: "spack".to_owned(),
            version: "2025.2".to_owned(),
            mpi: "mpich".to_owned(),
            cpu: "x86_64".to_owned(),
            cuda: "none".to_owned(),
            variant: "psmp".to_owned(),
            jobs: "0".to_owned(),
            tag: String::new(),
            shm_size: "1g".to_owned(),
            build_logs: Vec::new(),
            is_building: false,
            cancel_flag: false,
            build_error: None,
            docker_status: "Not checked".to_owned(),
            docker_running: false,
            docker_checked: false,
            registry_status: "Not checked".to_owned(),
            current_mirror: match current_mirror {
                Some(url) => url,
                None => String::new(),
            },
            mirror_input: String::new(),
            settings_message: String::new(),
            active_tab: Tab::Build,
            log_auto_scroll: true,
        }
    }

    /// The value of a setting.
    pub open spec fn setting(&self, setting: Setting) -> Seq<char> {
        match setting {
            Setting::Method => self.method@,
            Setting::Version => self.version@,
            Setting::Mpi => self.mpi@,
            Setting::Cpu => self.cpu@,
            Setting::Cuda => self.cuda@,
            Setting::Variant => self.variant@,
            Setting::Jobs => self.jobs@,
            Setting::ShmSize => self.shm_size@,
            Setting::Tag => self.tag@,
        }
    }

    /// Gives a setting another value. The other settings stay as they are, also
    /// where the new method does not offer them.
    pub fn set(&mut self, setting: Setting, value: String)
        ensures
            *final(self) == match setting {
                Setting::Method => (Forge2kApp { method: value, ..*old(self) }),
                Setting::Version => (Forge2kApp { version: value, ..*old(self) }),
                Setting::Mpi => (Forge2kApp { mpi: value, ..*old(self) }),
                Setting::Cpu => (Forge2kApp { cpu: value, ..*old(self) }),
                Setting::Cuda => (Forge2kApp { cuda: value, ..*old(self) }),
                Setting::Variant => (Forge2kApp { variant: value, ..*old(self) }),
                Setting::Jobs => (Forge2kApp { jobs: value, ..*old(self) }),
                Setting::ShmSize => (Forge2kApp { shm_size: value, ..*old(self) }),
                Setting::Tag => (Forge2kApp { tag: value, ..*old(self) }),
            },
            final(self).setting(setting) == value@,
    {
        match setting {
            Setting::Method => {
                self.method = value;
            },
            Setting::Version => {
                self.version = value;
            },
            Setting::Mpi => {
                self.mpi = value;
            },
            Setting::Cpu => {
                self.cpu = value;
            },
            Setting::Cuda => {
                self.cuda = value;
            },
            Setting::Variant => {
                self.variant = value;
            },
            Setting::Jobs => {
                self.jobs = value;
            },
            Setting::ShmSize => {
                self.shm_size = value;
            },
            Setting::Tag => {
                self.tag = value;
            },
        }
    }

    /// Starts a build, on a machine with the given parallelism, and gives what
    /// is to be built and where. A build under way is left alone. A new one starts with
    /// an empty log, without an error, and not cancelled.
    pub fn start_build(&mut self, parallelism: Option<usize>) -> (r: Option<BuildJob>)
        ensures
            match r {
                Some(job) => {
                    &&& !old(self).is_building
                    &&& old(self).asks_for(parallelism, job)
                    &&& final(self).build_logs@.len() == 0
                    &&& *final(self) == (Forge2kApp {
                        build_logs: final(self).build_logs,
                        build_error: None,
                        cancel_flag: false,
                        is_building: true,
                        ..*old(self)
                    })
                },
                None => old(self).is_building && *final(self) == *old(self),
            },
    {
        if self.is_building {
            return None;
        }
        self.build_logs = Vec::new();
        self.build_error = None;
        self.cancel_flag = false;
        let typed: u32 = match parse_u32(self.jobs.as_str()) {
            Some(n) => n,
            None => 0,
        };
        let config = BuildConfig {
            method: self.method.clone(),
            version: self.version.clone(),
            mpi: self.mpi.clone(),
            cpu: self.cpu.clone(),
            cuda: self.cuda.clone(),
            variant: self.variant.clone(),
            jobs: effective_jobs(typed, parallelism),
            tag: self.tag.clone(),
            no_cache: false,
            shm_size: self.shm_size.clone(),
            dockerfile: None,
            _output: "docker".to_owned(),
        };
        self.is_building = true;
        if config.builds_natively() {
            Some(BuildJob::Native(config))
        } else {
            Some(BuildJob::Image(config))
        }
    }

    /// Asks the build under way to stop.
    pub fn cancel_build(&mut self)
        ensures
            *final(self) == (Forge2kApp { cancel_flag: true, ..*old(self) }),
    {
        self.cancel_flag = true;
    }

    /// Adds a line to the log.
    pub fn log_received(&mut self, line: LogLine)
        ensures
            *final(self) == (Forge2kApp { build_logs: final(self).build_logs, ..*old(self) }),
            final(self).build_logs@ == old(self).build_logs@.push(line),
    {
        self.build_logs.push(line);
    }

    /// Empties the log.
    pub fn clear_logs(&mut self)
        ensures
            *final(self) == (Forge2kApp { build_logs: final(self).build_logs, ..*old(self) }),
            final(self).build_logs@.len() == 0,
    {
        self.build_logs = Vec::new();
    }

    /// Takes note that the build under way has ended. An error is kept for the
    /// user to see.
    pub fn build_ended(&mut self, result: Result<(), String>)
        ensures
            *final(self) == (Forge2kApp {
                is_building: false,
                build_error: match result {
                    Ok(()) => old(self).build_error,
                    Err(reason) => Some(reason),
                },
                ..*old(self)
            }),
    {
        match result {
            Ok(()) => {},
            Err(reason) => {
                self.build_error = Some(reason);
            },
        }
        self.is_building = false;
    }

    /// Takes note of the state of Docker.
    pub fn check_docker(&mut self, status: DockerStatus)
        ensures
            *final(self) == (Forge2kApp {
                docker_status: final(self).docker_status,
                docker_running: docker_runs(status),
                docker_checked: true,
                ..*old(self)
            }),
            final(self).docker_status@ == docker_words(status),
            final(self).docker_known(),
    {
        match status {
            DockerStatus::Installed { version, running } => {
                self.docker_status = version;
                self.docker_running = running;
            },
            DockerStatus::NotInstalled => {
                self.docker_status = "Not installed".to_owned();
                self.docker_running = false;
            },
            DockerStatus::NotRunning => {
                self.docker_status = "Installed (not running)".to_owned();
                self.docker_running = false;
            },
        }
        self.docker_checked = true;
    }

    /// Takes note of how well the registry can be reached.
    pub fn check_registry(&mut self, status: NetworkStatus)
        ensures
            *final(self) == (Forge2kApp {
                registry_status: final(self).registry_status,
                ..*old(self)
            }),
            final(self).registry_status@ == registry_words(status, old(self).current_mirror@),
    {
        match status {
            NetworkStatus::Good => {
                self.registry_status = "✅ Fast".to_owned();
            },
            NetworkStatus::Slow(time) => {
                self.registry_status = "⚠️ Slow (".to_owned().concat(time.as_str()).concat(")");
            },
            NetworkStatus::Blocked(reason) => {
                let blocked = "❌ Blocked - ".to_owned().concat(reason.as_str());
                if self.current_mirror.as_str().is_empty() {
                    self.registry_status = blocked.concat(MIRROR_HINT);
                } else {
                    self.registry_status = blocked;
                }
            },
            NetworkStatus::Unknown(reason) => {
                self.registry_status = "❓ ".to_owned().concat(reason.as_str());
            },
        }
    }

    /// The chosen configuration, line by line.
    pub open spec fn summary(&self) -> Seq<(Seq<char>, Seq<char>)> {
        seq![
            ("Method"@, self.method@ + " / CP2K "@ + self.version@),
            ("MPI"@, self.mpi@),
            ("CPU Target"@, self.cpu@),
            ("CUDA"@, self.cuda@),
            ("Variant"@, self.variant@),
            (
                "Jobs"@,
                if self.jobs@ == "0"@ {
                    "Auto"@
                } else {
                    self.jobs@
                },
            ),
            ("SHM Size"@, self.shm_size@),
        ]
    }

    /// The chosen configuration, line by line.
    pub fn config_summary(&self) -> (r: Vec<(String, String)>)
        ensures
            pairs(r@) == self.summary(),
    {
        let mut list = no_pairs();
        let method = self.method.clone().concat(" / CP2K ").concat(self.version.as_str());
        push_pair(&mut list, "Method", method.as_str());
        push_pair(&mut list, "MPI", self.mpi.as_str());
        push_pair(&mut list, "CPU Target", self.cpu.as_str());
        push_pair(&mut list, "CUDA", self.cuda.as_str());
        push_pair(&mut list, "Variant", self.variant.as_str());
        let jobs = if same(self.jobs.as_str(), "0") {
            "Auto"
        } else {
            self.jobs.as_str()
        };
        push_pair(&mut list, "Jobs", jobs);
        push_pair(&mut list, "SHM Size", self.shm_size.as_str());
        list
    }

    /// The line that the log shows where a build cannot start.
    pub open spec fn is_docker_warning(line: LogLine) -> bool {
        &&& line.timestamp@ == "ERROR"@
        &&& line.text@ == "Docker is not running. Please start Docker first."@
        &&& line.is_error
    }

    /// Takes the button that starts a build, once the state of Docker is known.
    /// Where Docker is at work the build starts; otherwise the log says what is
    /// wrong.
    pub fn press_start(&mut self, status: DockerStatus, parallelism: Option<usize>) -> (r: Option<
        BuildJob,
    >)
        ensures
            final(self).docker_status@ == docker_words(status),
            final(self).docker_known(),
            match r {
                Some(job) => {
                    &&& docker_runs(status)
                    &&& !old(self).is_building
                    &&& old(self).asks_for(parallelism, job)
                    &&& final(self).build_logs@.len() == 0
                    &&& *final(self) == (Forge2kApp {
                        docker_status: final(self).docker_status,
                        docker_running: true,
                        docker_checked: true,
                        build_logs: final(self).build_logs,
                        build_error: None,
                        cancel_flag: false,
                        is_building: true,
                        ..*old(self)
                    })
                },
                None => {
                    &&& *final(self) == (Forge2kApp {
                        docker_status: final(self).docker_status,
                        docker_running: docker_runs(status),
                        docker_checked: true,
                        build_logs: final(self).build_logs,
                        ..*old(self)
                    })
                    &&& if docker_runs(status) {
                        old(self).is_building && final(self).build_logs == old(self).build_logs
                    } else {
                        exists|line: LogLine| #[trigger]
                            Self::is_docker_warning(line) && final(self).build_logs@ == old(
                                self,
                            ).build_logs@.push(line)
                    }
                },
            },
    {
        self.check_docker(status);
        if self.docker_running {
            self.start_build(parallelism)
        } else {
            let line = LogLine {
                timestamp: "ERROR".to_owned(),
                text: "Docker is not running. Please start Docker first.".to_owned(),
                is_error: true,
            };
            assert(Self::is_docker_warning(line));
            self.log_received(line);
            None
        }
    }

    /// Takes the button that configures the typed mirror. What begins like a
    /// web address is given to be configured; otherwise the message says what
    /// is wrong.
    pub fn apply_mirror(&mut self) -> (r: Option<String>)
        ensures
            match r {
                Some(url) => is_web_address(old(self).mirror_input@) && url == old(
                    self,
                ).mirror_input && *final(self) == *old(self),
                None => {
                    &&& !is_web_address(old(self).mirror_input@)
                    &&& *final(self) == (Forge2kApp {
                        settings_message: final(self).settings_message,
                        ..*old(self)
                    })
                    &&& final(self).settings_message@
                        == "❌ Invalid URL. Must start with http:// or https://"@
                },
            },
    {
        if is_mirror_url(self.mirror_input.as_str()) {
            Some(self.mirror_input.clone())
        } else {
            self.settings_message = "❌ Invalid URL. Must start with http:// or https://".to_owned();
            None
        }
    }

    /// Takes note of whether the typed mirror was configured.
    pub fn mirror_applied(&mut self, result: Result<(), String>)
        ensures
            *final(self) == (Forge2kApp {
                settings_message: final(self).settings_message,
                current_mirror: if result is Ok {
                    old(self).mirror_input
                } else {
                    old(self).current_mirror
                },
                ..*old(self)
            }),
            final(self).settings_message@ == match result {
                Ok(()) => "✅ Mirror configured! Restart Docker to apply."@,
                Err(reason) => "❌ Failed: "@ + reason@,
            },
    {
        match result {
            Ok(()) => {
                self.current_mirror = self.mirror_input.clone();
                self.settings_message = "✅ Mirror configured! Restart Docker to apply.".to_owned();
            },
            Err(reason) => {
                self.settings_message = "❌ Failed: ".to_owned().concat(reason.as_str());
            },
        }
    }

    /// Takes note of the mirror that the search found. It is typed for the user,
    /// not configured.
    pub fn mirror_detected(&mut self, found: Option<String>)
        ensures
            *final(self) == (Forge2kApp {
                settings_message: final(self).settings_message,
                mirror_input: match found {
                    Some(url) => url,
                    None => old(self).mirror_input,
                },
                ..*old(self)
            }),
            final(self).settings_message@ == match found {
                Some(url) => "✅ Found working mirror: "@ + url@,
                None => "❌ No working mirror found. Try a manual URL."@,
            },
    {
        match found {
            Some(url) => {
                self.settings_message = "✅ Found working mirror: ".to_owned().concat(url.as_str());
                self.mirror_input = url;
            },
            None => {
                self.settings_message = "❌ No working mirror found. Try a manual URL.".to_owned();
            },
        }
    }

    /// Takes note of whether the mirror was removed.
    pub fn mirror_removed(&mut self, result: Result<(), String>)
        ensures
            *final(self) == (Forge2kApp {
                settings_message: final(self).settings_message,
                current_mirror: final(self).current_mirror,
                ..*old(self)
            }),
            match result {
                Ok(()) => final(self).current_mirror@ == Seq::<char>::empty()
                    && final(self).settings_message@
                    == "✅ Mirror removed. Restart Docker to apply."@,
                Err(reason) => final(self).current_mirror == old(self).current_mirror
                    && final(self).settings_message@ == "❌ Failed: "@ + reason@,
            },
    {
        match result {
            Ok(()) => {
                self.current_mirror = String::new();
                self.settings_message = "✅ Mirror removed. Restart Docker to apply.".to_owned();
            },
            Err(reason) => {
                self.settings_message = "❌ Failed: ".to_owned().concat(reason.as_str());
            },
        }
    }

    /// Types a mirror for the user.
    pub fn use_mirror(&mut self, url: &str)
        ensures
            *final(self) == (Forge2kApp { mirror_input: final(self).mirror_input, ..*old(self) }),
            final(self).mirror_input@ == url@,
    {
        self.mirror_input = url.to_owned();
    }

    /// Goes to another tab.
    pub fn select_tab(&mut self, tab: Tab)
        ensures
            *final(self) == (Forge2kApp { active_tab: tab, ..*old(self) }),
    {
        self.active_tab = tab;
    }

    /// Takes the choice whether the log follows its last line.
    pub fn set_auto_scroll(&mut self, wanted: bool)
        ensures
            *final(self) == (Forge2kApp { log_auto_scroll: wanted, ..*old(self) }),
    {
        self.log_auto_scroll = wanted;
    }
}

/// The build methods, each with its label.
pub open spec fn method_choices_view() -> Seq<(Seq<char>, Seq<char>)> {
    seq![
        ("spack"@, "Spack (Docker, Ubuntu 24.04)"@),
        ("toolchain"@, "Toolchain (Docker, Ubuntu 22.04)"@),
        ("native"@, "Native (direct on host)"@),
    ]
}

/// The build methods, each with its label.
pub fn method_choices() -> (r: Vec<(String, String)>)
    ensures
        pairs(r@) == method_choices_view(),
{
    let mut list = no_pairs();
    push_pair(&mut list, "spack", "Spack (Docker, Ubuntu 24.04)");
    push_pair(&mut list, "toolchain", "Toolchain (Docker, Ubuntu 22.04)");
    push_pair(&mut list, "native", "Native (direct on host)");
    list
}

/// The variants of the binary, each with its label.
pub open spec fn variant_choices_view() -> Seq<(Seq<char>, Seq<char>)> {
    seq![
        ("psmp"@, "psmp (MPI+OpenMP)"@),
        ("ssmp"@, "ssmp (OpenMP only)"@),
        ("pdbg"@, "pdbg (MPI+OpenMP debug)"@),
        ("sdbg"@, "sdbg (OpenMP debug)"@),
    ]
}

/// The variants of the binary, each with its label.
pub fn variant_choices() -> (r: Vec<(String, String)>)
    ensures
        pairs(r@) == variant_choices_view(),
{
    let mut list = no_pairs();
    push_pair(&mut list, "psmp", "psmp (MPI+OpenMP)");
    push_pair(&mut list, "ssmp", "ssmp (OpenMP only)");
    push_pair(&mut list, "pdbg", "pdbg (MPI+OpenMP debug)");
    push_pair(&mut list, "sdbg", "sdbg (OpenMP debug)");
    list
}

/// The versions that a method can build.
pub open spec fn version_choices_view(method: Seq<char>) -> Seq<Seq<char>> {
    if method == "toolchain"@ {
        seq!["master"@, "2026.1"@, "2025.2"@, "2024.3"@, "2024.2"@, "2024.1"@, "2023.2"@]
    } else if method == "native"@ {
        seq!["master"@, "2026.1"@, "2025.2"@, "2024.3"@]
    } else {
        seq!["2026.1"@, "2025.2"@, "2024.3"@, "2024.2"@]
    }
}

/// The versions that a method can build.
pub fn version_choices(method: &str) -> (r: Vec<String>)
    ensures
        texts(r@) == version_choices_view(method@),
{
    let mut list = no_texts();
    let toolchain = same(method, "toolchain");
    if toolchain || same(method, "native") {
        push_copy(&mut list, "master");
    }
    push_copy(&mut list, "2026.1");
    push_copy(&mut list, "2025.2");
    push_copy(&mut list, "2024.3");
    if toolchain {
        push_copy(&mut list, "2024.2");
        push_copy(&mut list, "2024.1");
        push_copy(&mut list, "2023.2");
    } else if !same(method, "native") {
        push_copy(&mut list, "2024.2");
    }
    list
}

/// The MPI implementations that a method can build with.
pub open spec fn mpi_choices_view(method: Seq<char>) -> Seq<Seq<char>> {
    if method == "toolchain"@ {
        seq!["mpich"@]
    } else {
        seq!["mpich"@, "openmpi"@]
    }
}

/// The MPI implementations that a method can build with.
pub fn mpi_choices(method: &str) -> (r: Vec<String>)
    ensures
        texts(r@) == mpi_choices_view(method@),
{
    let mut list = no_texts();
    push_copy(&mut list, "mpich");
    if !same(method, "toolchain") {
        push_copy(&mut list, "openmpi");
    }
    list
}

/// The CPU targets that a method can build for.
pub open spec fn cpu_choices_view(method: Seq<char>) -> Seq<Seq<char>> {
    if method == "toolchain"@ {
        seq!["generic"@]
    } else {
        seq!["x86_64"@, "cascadelake"@, "haswell"@, "skylake-avx512"@, "generic"@]
    }
}

/// The CPU targets that a method can build for.
pub fn cpu_choices(method: &str) -> (r: Vec<String>)
    ensures
        texts(r@) == cpu_choices_view(method@),
{
    let mut list = no_texts();
    if !same(method, "toolchain") {
        push_copy(&mut list, "x86_64");
        push_copy(&mut list, "cascadelake");
        push_copy(&mut list, "haswell");
        push_copy(&mut list, "skylake-avx512");
    }
    push_copy(&mut list, "generic");
    list
}

/// The GPUs that a method can build for.
pub open spec fn cuda_choices_view(method: Seq<char>) -> Seq<Seq<char>> {
    if method == "spack"@ {
        seq!["none"@]
    } else {
        seq!["none"@, "P100"@, "V100"@]
    }
}

/// The GPUs that a method can build for.
pub fn cuda_choices(method: &str) -> (r: Vec<String>)
    ensures
        texts(r@) == cuda_choices_view(method@),
{
    let mut list = no_texts();
    push_copy(&mut list, "none");
    if !same(method, "spack") {
        push_copy(&mut list, "P100");
        push_copy(&mut list, "V100");
    }
    list
}

/// What becomes of the window, from what became of showing it: an error says
/// that it is about the interface.
pub fn run_gui(shown: Result<(), String>) -> (r: Result<(), String>)
    ensures
        match (r, shown) {
            (Ok(()), Ok(())) => true,
            (Err(complaint), Err(reason)) => complaint@ == "GUI error: "@ + reason@,
            _ => false,
        },
{
    match shown {
        Ok(()) => Ok(()),
        Err(reason) => Err("GUI error: ".to_owned().concat(reason.as_str())),
    }
}

/// The `gui` command: what becomes of it is what becomes of the window.
pub fn cmd_gui(shown: Result<(), String>) -> (r: Result<(), String>)
    ensures
        match (r, shown) {
            (Ok(()), Ok(())) => true,
            (Err(complaint), Err(reason)) => complaint@ == "GUI error: "@ + reason@,
            _ => false,
        },
{
    run_gui(shown)
}

/// A value is among some labelled choices.
pub open spec fn offered_in(choices: Seq<(Seq<char>, Seq<char>)>, value: Seq<char>) -> bool {
    exists|i: int| 0 <= i < choices.len() && (#[trigger] choices[i]).0 == value
}

/// The interface offers the method, and every other part of a build for it.
pub open spec fn offers(
    method: Seq<char>,
    version: Seq<char>,
    mpi: Seq<char>,
    cpu: Seq<char>,
    cuda: Seq<char>,
    variant: Seq<char>,
) -> bool {
    &&& offered_in(method_choices_view(), method)
    &&& version_choices_view(method).contains(version)
    &&& mpi_choices_view(method).contains(mpi)
    &&& cpu_choices_view(method).contains(cpu)
    &&& cuda_choices_view(method).contains(cuda)
    &&& offered_in(variant_choices_view(), variant)
}

/// The methods are told apart.
proof fn methods_differ()
    ensures
        "spack"@ != "toolchain"@,
        "spack"@ != "native"@,
        "toolchain"@ != "native"@,
{
    reveal_strlit("spack");
    reveal_strlit("toolchain");
    reveal_strlit("native");
    assert("spack"@.len() == 5);
    assert("toolchain"@.len() == 9);
    assert("native"@.len() == 6);
}

/// The interface offers what stands at the given places of its lists.
proof fn offers_at(
    method: Seq<char>,
    m: int,
    version: int,
    mpi: int,
    cpu: int,
    cuda: int,
    variant: int,
)
    requires
        0 <= m < method_choices_view().len(),
        method == method_choices_view()[m].0,
        0 <= version < version_choices_view(method).len(),
        0 <= mpi < mpi_choices_view(method).len(),
        0 <= cpu < cpu_choices_view(method).len(),
        0 <= cuda < cuda_choices_view(method).len(),
        0 <= variant < variant_choices_view().len(),
    ensures
        offers(
            method,
            version_choices_view(method)[version],
            mpi_choices_view(method)[mpi],
            cpu_choices_view(method)[cpu],
            cuda_choices_view(method)[cuda],
            variant_choices_view()[variant].0,
        ),
{
}

/// Every configuration of the catalogue can be chosen in the interface: each of
/// its parts is offered for its method.
pub proof fn catalogue_is_offered(i: int)
    requires
        0 <= i < catalogue().len(),
    ensures
        ({
            let entry = catalogue()[i];
            offers(entry.method, entry.version, entry.mpi, entry.cpu, entry.cuda, entry.variant)
        }),
{
    methods_differ();
    if i == 0 {
        offers_at("spack"@, 0, 0, 0, 0, 0, 0);
    } else if i == 1 {
        offers_at("spack"@, 0, 0, 0, 1, 0, 0);
    } else if i == 2 {
        offers_at("spack"@, 0, 0, 1, 1, 0, 0);
    } else if i == 3 {
        offers_at("toolchain"@, 1, 0, 0, 0, 0, 0);
    } else if i == 4 {
        offers_at("spack"@, 0, 1, 0, 0, 0, 0);
    } else if i == 5 {
        offers_at("spack"@, 0, 1, 0, 1, 0, 0);
    } else if i == 6 {
        offers_at("spack"@, 0, 1, 1, 1, 0, 0);
    } else if i == 7 {
        offers_at("toolchain"@, 1, 6, 0, 0, 0, 0);
    } else if i == 8 {
        offers_at("toolchain"@, 1, 6, 0, 0, 2, 0);
    } else {
        offers_at("toolchain"@, 1, 6, 0, 0, 1, 0);
    }
}

/// Every setting of the interface reaches the configuration as it is; the image
/// goes to Docker, from its cache, with no Dockerfile of the user's own.
pub proof fn settings_reach_the_configuration(
    app: Forge2kApp,
    parallelism: Option<usize>,
    config: BuildConfig,
)
    requires
        app.configures(parallelism, config),
    ensures
        config.method@ == app.setting(Setting::Method),
        config.version@ == app.setting(Setting::Version),
        config.mpi@ == app.setting(Setting::Mpi),
        config.cpu@ == app.setting(Setting::Cpu),
        config.cuda@ == app.setting(Setting::Cuda),
        config.variant@ == app.setting(Setting::Variant),
        config.shm_size@ == app.setting(Setting::ShmSize),
        config.tag@ == app.setting(Setting::Tag),
        parsed_u32(app.setting(Setting::Jobs)) matches Some(n) ==> (n > 0 ==> config.jobs == n),
        !config.no_cache,
        config.dockerfile is None,
        !config.wants_archive(),
{
    jobs_are_as_asked(typed_jobs(app.jobs@), parallelism);
    reveal_strlit("docker");
    reveal_strlit("image");
    assert("docker"@[0] != "image"@[0]);
}

/// The settings are the fields of the interface.
pub proof fn settings_are_the_fields(app: Forge2kApp)
    ensures
        app.setting(Setting::Method) == app.method@,
        app.setting(Setting::Version) == app.version@,
        app.setting(Setting::Mpi) == app.mpi@,
        app.setting(Setting::Cpu) == app.cpu@,
        app.setting(Setting::Cuda) == app.cuda@,
        app.setting(Setting::Variant) == app.variant@,
        app.setting(Setting::Jobs) == app.jobs@,
        app.setting(Setting::ShmSize) == app.shm_size@,
        app.setting(Setting::Tag) == app.tag@,
{
}

/// The shared memory size, the tag and the number of jobs that the user typed reach
/// Docker, and the cache is used.
pub proof fn settings_reach_docker(
    app: Forge2kApp,
    parallelism: Option<usize>,
    config: BuildConfig,
    tag: Seq<char>,
    path: Seq<char>,
    context: Seq<char>,
)
    requires
        app.configures(parallelism, config),
    ensures
        ({
            let args = config.docker_args_view(tag, path, context);
            &&& gives(args, "--shm-size"@, app.shm_size@)
            &&& gives(args, "-t"@, tag)
            &&& gives(args, "-f"@, path)
            &&& args.len() == 10
        }),
        app.tag@.len() > 0 ==> config.tag_on(path) == app.tag@,
{
    docker_args_give_their_options(config, tag, path, context);
    if app.tag@.len() > 0 {
        configured_tag_wins(config, path);
    }
}

/// What the interface starts runs on this machine exactly where the method is
/// `native`.
pub proof fn native_builds_run_here(app: Forge2kApp, parallelism: Option<usize>, job: BuildJob)
    requires
        app.asks_for(parallelism, job),
    ensures
        job is Native <==> app.method@ == "native"@,
        job matches BuildJob::Native(config) ==> app.configures(parallelism, config),
        job matches BuildJob::Image(config) ==> app.configures(parallelism, config),
{
}

/// A number that the user typed is the number of jobs; everything else asks for one
/// per processor, as zero does.
pub proof fn typed_numbers_are_jobs(n: u32, text: Seq<char>)
    ensures
        typed_jobs(decimal(n as nat)) == n,
        parsed_u32(text) is None ==> typed_jobs(text) == 0,
        parsed_u32(text) matches Some(m) ==> typed_jobs(text) == m,
{
    decimal_reads_back(n);
}

/// The state of the registry is worded by its kind, with the time or the reason as
/// it is; where it is blocked and no mirror is configured the interface says where
/// to look for one.
pub proof fn registry_is_worded(status: NetworkStatus, mirror: Seq<char>, other: Seq<char>)
    ensures
        status is Good ==> registry_words(status, mirror) == "✅ Fast"@,
        status matches NetworkStatus::Slow(time) ==> registry_words(status, mirror) == "⚠️ Slow ("@
            + time@ + ")"@,
        status matches NetworkStatus::Unknown(reason) ==> registry_words(status, mirror) == "❓ "@
            + reason@,
        status matches NetworkStatus::Blocked(reason) ==> (mirror.len() > 0 ==> registry_words(
            status,
            mirror,
        ) == "❌ Blocked - "@ + reason@),
        status is Blocked && mirror.len() == 0 && other.len() > 0 ==> registry_words(status, mirror)
            == registry_words(status, other) + MIRROR_HINT@,
        !(status is Blocked) ==> registry_words(status, mirror) == registry_words(status, other),
{
}

/// The state of Docker is worded by its version where it is installed, and by what
/// is wrong where it is not; it is at work only where it says so.
pub proof fn docker_is_worded(status: DockerStatus)
    ensures
        status matches DockerStatus::Installed { version, .. } ==> docker_words(status) == version@,
        status is NotInstalled ==> docker_words(status) == "Not installed"@,
        status is NotRunning ==> docker_words(status) == "Installed (not running)"@,
        docker_runs(status) <==> (status matches DockerStatus::Installed { running, .. } && running),
{
}

/// The summary shows every setting as it is; zero jobs are shown as automatic, and
/// every other number as it was typed.
pub proof fn summary_shows_the_settings(app: Forge2kApp)
    ensures
        app.summary().len() == 7,
        app.summary()[0] == ("Method"@, app.method@ + " / CP2K "@ + app.version@),
        app.summary()[1] == ("MPI"@, app.mpi@),
        app.summary()[2] == ("CPU Target"@, app.cpu@),
        app.summary()[3] == ("CUDA"@, app.cuda@),
        app.summary()[4] == ("Variant"@, app.variant@),
        app.summary()[5].0 == "Jobs"@,
        app.jobs@ == "0"@ ==> app.summary()[5].1 == "Auto"@,
        app.jobs@ != "0"@ ==> app.summary()[5].1 == app.jobs@,
        app.summary()[6] == ("SHM Size"@, app.shm_size@),
{
}

/// What the interface offers follows from the method: every method offers the
/// latest releases; the development branch comes with the toolchain and with native
/// builds alone; Open MPI and the CPU targets come with every method but the
/// toolchain; GPUs come with every method but Spack.
pub proof fn choices_follow_the_method(method: Seq<char>)
    ensures
        version_choices_view(method).contains("2026.1"@),
        version_choices_view(method).contains("2025.2"@),
        version_choices_view(method).contains("2024.3"@),
        version_choices_view(method).contains("master"@) <==> method == "toolchain"@ || method
            == "native"@,
        version_choices_view(method).contains("2023.2"@) <==> method == "toolchain"@,
        version_choices_view(method).contains("2024.1"@) <==> method == "toolchain"@,
        version_choices_view(method).contains("2024.2"@) <==> method != "native"@,
        mpi_choices_view(method)[0] == "mpich"@,
        mpi_choices_view(method).contains("openmpi"@) <==> method != "toolchain"@,
        cpu_choices_view(method).last() == "generic"@,
        cpu_choices_view(method).contains("x86_64"@) <==> method != "toolchain"@,
        cpu_choices_view(method).contains("cascadelake"@) <==> method != "toolchain"@,
        cpu_choices_view(method).contains("haswell"@) <==> method != "toolchain"@,
        cpu_choices_view(method).contains("skylake-avx512"@) <==> method != "toolchain"@,
        cuda_choices_view(method)[0] == "none"@,
        cuda_choices_view(method).contains("P100"@) <==> method != "spack"@,
        cuda_choices_view(method).contains("V100"@) <==> method != "spack"@,
        method == "toolchain"@ ==> version_choices_view(method).len() == 7 && mpi_choices_view(
            method,
        ).len() == 1 && cpu_choices_view(method).len() == 1,
        method != "toolchain"@ ==> version_choices_view(method).len() == 4 && mpi_choices_view(
            method,
        ).len() == 2 && cpu_choices_view(method).len() == 5,
        cuda_choices_view(method).len() == if method == "spack"@ {
            1
        } else {
            3int
        },
{
    methods_differ();
    reveal_strlit("master");
    reveal_strlit("2026.1");
    reveal_strlit("2025.2");
    reveal_strlit("2024.3");
    reveal_strlit("2024.2");
    reveal_strlit("2024.1");
    reveal_strlit("2023.2");
    reveal_strlit("mpich");
    reveal_strlit("openmpi");
    reveal_strlit("generic");
    reveal_strlit("x86_64");
    reveal_strlit("cascadelake");
    reveal_strlit("haswell");
    reveal_strlit("skylake-avx512");
    reveal_strlit("none");
    reveal_strlit("P100");
    reveal_strlit("V100");
    assert("master"@[0] == 'm');
    assert("2026.1"@[3] == '6' && "2026.1"@[5] == '1' && "2026.1"@[0] == '2');
    assert("2025.2"@[3] == '5' && "2025.2"@[5] == '2' && "2025.2"@[0] == '2');
    assert("2024.3"@[3] == '4' && "2024.3"@[5] == '3' && "2024.3"@[0] == '2');
    assert("2024.2"@[3] == '4' && "2024.2"@[5] == '2' && "2024.2"@[0] == '2');
    assert("2024.1"@[3] == '4' && "2024.1"@[5] == '1' && "2024.1"@[0] == '2');
    assert("2023.2"@[3] == '3' && "2023.2"@[5] == '2' && "2023.2"@[0] == '2');
    assert("mpich"@[0] == 'm' && "openmpi"@[0] == 'o');
    assert("generic"@[0] == 'g' && "x86_64"@[0] == 'x' && "cascadelake"@[0] == 'c' && "haswell"@[0]
        == 'h' && "skylake-avx512"@[0] == 's');
    assert("none"@[0] == 'n' && "P100"@[0] == 'P' && "V100"@[0] == 'V');
    let versions = version_choices_view(method);
    let first: int = if method == "toolchain"@ || method == "native"@ {
        1
    } else {
        0
    };
    assert(versions[first] == "2026.1"@ && versions[first + 1] == "2025.2"@ && versions[first + 2]
        == "2024.3"@);
    if first == 1 {
        assert(versions[0] == "master"@);
    }
    if method == "toolchain"@ {
        assert(versions[4] == "2024.2"@ && versions[5] == "2024.1"@ && versions[6] == "2023.2"@);
    } else if method != "native"@ {
        assert(versions[3] == "2024.2"@);
    }
    if method != "toolchain"@ {
        let targets = cpu_choices_view(method);
        assert(targets[0] == "x86_64"@ && targets[1] == "cascadelake"@ && targets[2] == "haswell"@
            && targets[3] == "skylake-avx512"@ && targets[4] == "generic"@);
        assert(mpi_choices_view(method)[1] == "openmpi"@);
    }
    if method != "spack"@ {
        assert(cuda_choices_view(method)[1] == "P100"@ && cuda_choices_view(method)[2] == "V100"@);
    }
}

/// The methods and the variants that are offered, each with a label that begins
/// with what it stands for.
pub proof fn methods_and_variants_are_offered()
    ensures
        method_choices_view().len() == 3,
        offered_in(method_choices_view(), "spack"@),
        offered_in(method_choices_view(), "toolchain"@),
        offered_in(method_choices_view(), "native"@),
        variant_choices_view().len() == 4,
        offered_in(variant_choices_view(), "psmp"@),
        offered_in(variant_choices_view(), "ssmp"@),
        offered_in(variant_choices_view(), "pdbg"@),
        offered_in(variant_choices_view(), "sdbg"@),
{
    assert(method_choices_view()[0].0 == "spack"@);
    assert(method_choices_view()[1].0 == "toolchain"@);
    assert(method_choices_view()[2].0 == "native"@);
    assert(variant_choices_view()[0].0 == "psmp"@);
    assert(variant_choices_view()[1].0 == "ssmp"@);
    assert(variant_choices_view()[2].0 == "pdbg"@);
    assert(variant_choices_view()[3].0 == "sdbg"@);
}

/// The warning of a build that cannot start is an error and says that Docker is
/// not running.
pub proof fn docker_warnings_are_errors(line: LogLine)
    requires
        Forge2kApp::is_docker_warning(line),
    ensures
        line.is_error,
        line.timestamp@ == "ERROR"@,
        line.text@ == "Docker is not running. Please start Docker first."@,
{
}

/// A text that is not there is empty.
pub proof fn missing_texts_are_empty(text: Option<String>)
    ensures
        text matches Some(t) ==> text_or_empty(text) == t@,
        text is None ==> text_or_empty(text).len() == 0,
{
}

/// Pairs say what their strings say, in their order.
pub proof fn pairs_say_what_they_hold(list: Seq<(String, String)>, i: int)
    ensures
        pairs(list).len() == list.len(),
        0 <= i < list.len() ==> pairs(list)[i] == (list[i].0@, list[i].1@),
{
}

} // verus!
