//! The Docker engine: whether it is there, and how to install it.

use crate::page::plain;
use crate::page::styled;
use crate::page::Page;
use crate::page::PieceView;
use crate::page::Tone;
use crate::text::contains;
use crate::text::lines;
use crate::text::lines_of;
use crate::text::no_texts;
use crate::text::occurs;
use crate::text::push_copy;
use crate::text::texts;
use vstd::prelude::*;

verus! {

/// The state of the Docker engine.
#[derive(Clone, Debug)]
pub enum DockerStatus {
    Installed { version: String, running: bool },
    NotInstalled,
    NotRunning,
}

/// The kinds of system that need different advice.
#[derive(Clone, Copy, Debug, PartialEq, Eq, Structural)]
pub enum Platform {
    Windows,
    Wsl,
    Linux,
    MacOs,
    Other,
}

/// The first of the lines that holds `part`.
pub open spec fn first_with(candidates: Seq<Seq<char>>, part: Seq<char>) -> Option<Seq<char>>
    decreases candidates.len(),
{
    if candidates.len() == 0 {
        None
    } else if occurs(candidates.first(), part) {
        Some(candidates.first())
    } else {
        first_with(candidates.drop_first(), part)
    }
}

/// What `docker version` says of the engine's version: its first line that
/// speaks of one.
pub open spec fn version_line(output: Seq<char>) -> Seq<char> {
    match first_with(lines_of(output), "Version"@) {
        Some(line) => line,
        None => "unknown"@,
    }
}

/// The state that the output of `docker version` shows, where the command
/// could be launched: the engine runs where the output has a server section.
pub open spec fn shows_status(output: Option<Seq<char>>, status: DockerStatus) -> bool {
    match output {
        None => status is NotInstalled,
        Some(text) => if occurs(text, "Server:"@) {
            status matches DockerStatus::Installed { version, running } && running && version@
                == version_line(text)
        } else {
            status is NotRunning
        },
    }
}

/// The arguments of the `docker` command that tells of the engine.
pub fn version_args() -> (r: Vec<String>)
    ensures
        texts(r@) == seq!["version"@],
{
    let mut args = no_texts();
    push_copy(&mut args, "version");
    args
}

/// The state of the Docker engine, from what `docker version` printed, or from
/// `None` where the command could not be launched.
pub fn check_docker(output: Option<&str>) -> (r: DockerStatus)
    ensures
        shows_status(
            match output {
                Some(text) => Some(text@),
                None => None,
            },
            r,
        ),
{
    match output {
        None => DockerStatus::NotInstalled,
        Some(text) => {
            if !contains(text, "Server:") {
                return DockerStatus::NotRunning;
            }
            let candidates = lines(text);
            let mut i: usize = 0;
            let ghost all = texts(candidates@);
            assert(all.skip(0) =~= all);
            while i < candidates.len()
                invariant
                    i <= candidates@.len(),
                    all == texts(candidates@),
                    all == lines_of(text@),
                    occurs(text@, "Server:"@),
                    first_with(all.skip(i as int), "Version"@) == first_with(all, "Version"@),
                    output == Some(text),
                decreases candidates@.len() - i,
            {
                assert(all.skip(i as int).first() == candidates@[i as int]@);
                if contains(candidates[i].as_str(), "Version") {
                    return DockerStatus::Installed { version: candidates[i].clone(), running: true };
                }
                assert(all.skip(i as int).drop_first() =~= all.skip(i + 1));
                i += 1;
            }
            DockerStatus::Installed { version: "unknown".to_owned(), running: true }
        },
    }
}

/// The frame around the title of the installation guide.
pub const GUIDE_TOP: &'static str = "╔══════════════════════════════════════════════════════════╗";

/// The title of the installation guide.
pub const GUIDE_TITLE: &'static str = "║       Docker Engine Not Found - Installation Guide      ║";

/// The frame below the title of the installation guide.
pub const GUIDE_BOTTOM: &'static str = "╚══════════════════════════════════════════════════════════╝";

/// How to install Docker Desktop on Windows.
pub const GUIDE_WINDOWS: &'static str = r#"
  1. Download Docker Desktop from: https://docs.docker.com/desktop/setup/install/windows-install/
  2. Run the installer (Docker Desktop Installer.exe)
  3. Make sure 'Use WSL 2 instead of Hyper-V' is selected
  4. Restart your computer after installation
  5. Launch Docker Desktop from Start Menu

"#;

/// How to install Docker with its convenience script.
pub const GUIDE_SCRIPT: &'static str = r#"
  curl -fsSL https://get.docker.com -o get-docker.sh
  sudo sh get-docker.sh
  sudo usermod -aG docker $USER
  newgrp docker
"#;

/// How to use Docker Desktop from a WSL distribution.
pub const GUIDE_WSL_DESKTOP: &'static str = r#"
  Install Docker Desktop on Windows, then enable WSL 2 integration
  Settings → Resources → WSL Integration → Enable your distro
"#;

/// How to install Docker from its package repository.
pub const GUIDE_LINUX: &'static str = r#"
  # Add Docker's official GPG key:
  sudo apt-get update
  sudo apt-get install ca-certificates curl
  sudo install -m 0755 -d /etc/apt/keyrings
  curl -fsSL https://download.docker.com/linux/ubuntu/gpg | sudo tee /etc/apt/keyrings/docker.asc

  # Add the repository:
  echo "deb [arch=$(dpkg --print-architecture) signed-by=/etc/apt/keyrings/docker.asc] https://download.docker.com/linux/ubuntu $(. /etc/os-release && echo "$VERSION_CODENAME") stable" | sudo tee /etc/apt/sources.list.d/docker.list > /dev/null

  # Install Docker:
  sudo apt-get update
  sudo apt-get install docker-ce docker-ce-cli containerd.io
  sudo usermod -aG docker $USER
  newgrp docker
"#;

/// How to install Docker Desktop on macOS.
pub const GUIDE_MACOS: &'static str = r#"
  1. Download Docker Desktop from: https://docs.docker.com/desktop/setup/install/mac-install/
  2. Drag Docker.app to Applications folder
  3. Launch Docker Desktop from Applications
"#;

/// The title of the installation guide.
pub open spec fn guide_title() -> Seq<PieceView> {
    seq![
        styled(Tone::Yellow, GUIDE_TOP@),
        plain("\n"@),
        styled(Tone::Yellow, GUIDE_TITLE@),
        plain("\n"@),
        styled(Tone::Yellow, GUIDE_BOTTOM@),
        plain("\n\n"@),
    ]
}

/// The part of the installation guide that is about one kind of system.
pub open spec fn guide_steps(platform: Platform) -> Seq<PieceView> {
    match platform {
        Platform::Windows => seq![
            styled(Tone::CyanBold, "Windows Installation:"@),
            plain(GUIDE_WINDOWS@),
            styled(Tone::CyanBold, "WSL 2 Ubuntu Installation (alternative):"@),
            plain(GUIDE_SCRIPT@),
        ],
        Platform::Wsl => seq![
            styled(Tone::CyanBold, "WSL Ubuntu/Debian Installation:"@),
            plain(GUIDE_SCRIPT@),
            plain("\n"@),
            styled(Tone::CyanBold, "Or with Docker Desktop for Windows (WSL 2 backend):"@),
            plain(GUIDE_WSL_DESKTOP@),
        ],
        Platform::Linux => seq![
            styled(Tone::CyanBold, "Linux Installation (Ubuntu/Debian):"@),
            plain(GUIDE_LINUX@),
        ],
        Platform::MacOs => seq![
            styled(Tone::CyanBold, "macOS Installation:"@),
            plain(GUIDE_MACOS@),
        ],
        Platform::Other => seq![],
    }
}

/// How to install Docker on the given kind of system.
pub fn docker_install_guide(platform: Platform) -> (r: Page)
    ensures
        r@ == guide_title() + guide_steps(platform),
{
    let mut page = Page::new();
    page.put(Tone::Yellow, GUIDE_TOP);
    page.write("\n");
    page.put(Tone::Yellow, GUIDE_TITLE);
    page.write("\n");
    page.put(Tone::Yellow, GUIDE_BOTTOM);
    page.write("\n\n");
    match platform {
        Platform::Windows => {
            page.put(Tone::CyanBold, "Windows Installation:");
            page.write(GUIDE_WINDOWS);
            page.put(Tone::CyanBold, "WSL 2 Ubuntu Installation (alternative):");
            page.write(GUIDE_SCRIPT);
        },
        Platform::Wsl => {
            page.put(Tone::CyanBold, "WSL Ubuntu/Debian Installation:");
            page.write(GUIDE_SCRIPT);
            page.write("\n");
            page.put(Tone::CyanBold, "Or with Docker Desktop for Windows (WSL 2 backend):");
            page.write(GUIDE_WSL_DESKTOP);
        },
        Platform::Linux => {
            page.put(Tone::CyanBold, "Linux Installation (Ubuntu/Debian):");
            page.write(GUIDE_LINUX);
        },
        Platform::MacOs => {
            page.put(Tone::CyanBold, "macOS Installation:");
            page.write(GUIDE_MACOS);
        },
        Platform::Other => {},
    }
    assert(page@ =~= guide_title() + guide_steps(platform));
    page
}

/// The line that is found is one of the lines and holds the part, and no line
/// before it does; none is found only where no line holds it.
pub proof fn first_with_is_first(candidates: Seq<Seq<char>>, part: Seq<char>)
    ensures
        match first_with(candidates, part) {
            Some(line) => exists|i: int|
                0 <= i < candidates.len() && line == #[trigger] candidates[i] && occurs(line, part)
                    && forall|j: int| 0 <= j < i ==> !occurs(#[trigger] candidates[j], part),
            None => forall|j: int|
                0 <= j < candidates.len() ==> !occurs(#[trigger] candidates[j], part),
        },
    decreases candidates.len(),
{
    if candidates.len() > 0 {
        let rest = candidates.drop_first();
        if occurs(candidates.first(), part) {
            assert(candidates[0] == candidates.first());
        } else {
            first_with_is_first(rest, part);
            match first_with(rest, part) {
                Some(line) => {
                    let i = choose|i: int|
                        0 <= i < rest.len() && line == #[trigger] rest[i] && occurs(line, part)
                            && forall|j: int| 0 <= j < i ==> !occurs(#[trigger] rest[j], part);
                    assert(candidates[i + 1] == rest[i]);
                    assert forall|k: int| 0 <= k < i + 1 implies !occurs(
                        #[trigger] candidates[k],
                        part,
                    ) by {
                        if k > 0 {
                            assert(rest[k - 1] == candidates[k]);
                        }
                    }
                },
                None => {
                    assert forall|j: int| 0 <= j < candidates.len() implies !occurs(
                        #[trigger] candidates[j],
                        part,
                    ) by {
                        if j > 0 {
                            assert(rest[j - 1] == candidates[j]);
                        }
                    }
                },
            }
        }
    }
}

/// The version of the engine is the first line of the output that speaks of a
/// version, as it is; it is unknown exactly where no line does, unless a line says
/// so itself.
pub proof fn version_is_the_first_that_is_told(output: Seq<char>)
    ensures
        ({
            let told = lines_of(output);
            &&& forall|i: int|
                0 <= i < told.len() && occurs(#[trigger] told[i], "Version"@) && (forall|j: int|
                    0 <= j < i ==> !occurs(#[trigger] told[j], "Version"@)) ==> version_line(output)
                    == told[i]
            &&& (forall|j: int|
                0 <= j < told.len() ==> !occurs(#[trigger] told[j], "Version"@)) ==> version_line(
                output,
            ) == "unknown"@
        }),
{
    let told = lines_of(output);
    first_with_is_first(told, "Version"@);
    assert forall|i: int|
        0 <= i < told.len() && occurs(#[trigger] told[i], "Version"@) && (forall|j: int|
            0 <= j < i ==> !occurs(#[trigger] told[j], "Version"@)) implies version_line(output)
        == told[i] by {
        let line = first_with(told, "Version"@)->0;
        let k = choose|k: int|
            0 <= k < told.len() && line == #[trigger] told[k] && occurs(line, "Version"@)
                && forall|j: int| 0 <= j < k ==> !occurs(#[trigger] told[j], "Version"@);
        assert(occurs(told[k], "Version"@));
        assert(occurs(told[i], "Version"@));
        if k < i {
            assert(!occurs(told[k], "Version"@));
        } else if i < k {
            assert(!occurs(told[i], "Version"@));
        }
    }
}

/// The engine is there and runs exactly where `docker version` was launched and
/// its output has a server section; it does not run where the section is missing;
/// it is not installed where the command could not be launched.
pub proof fn status_is_read_from_the_output(output: Option<Seq<char>>, status: DockerStatus)
    requires
        shows_status(output, status),
    ensures
        status is NotInstalled <==> output is None,
        status is Installed <==> (output matches Some(text) && occurs(text, "Server:"@)),
        status is NotRunning <==> (output matches Some(text) && !occurs(text, "Server:"@)),
        status matches DockerStatus::Installed { version, running } ==> running && version@
            == version_line(output->0),
{
}

/// A status fits every output: there is one that the output shows.
pub proof fn every_output_shows_a_status(text: Seq<char>, version: String)
    requires
        version@ == version_line(text),
    ensures
        shows_status(None, DockerStatus::NotInstalled),
        !occurs(text, "Server:"@) ==> shows_status(Some(text), DockerStatus::NotRunning),
        occurs(text, "Server:"@) ==> shows_status(
            Some(text),
            DockerStatus::Installed { version, running: true },
        ),
{
}

/// Every kind of system has its own steps behind the one title: Docker Desktop on
/// Windows and macOS, the packages on Linux, and the script on WSL and as the
/// alternative on Windows. Other systems have the title alone.
pub proof fn guides_are_for_their_platform(platform: Platform)
    ensures
        guide_title().len() == 6,
        guide_title()[2].text == GUIDE_TITLE@,
        platform is Windows ==> guide_steps(platform).len() == 4 && guide_steps(platform)[0].text
            == "Windows Installation:"@ && guide_steps(platform)[1].text == GUIDE_WINDOWS@
            && guide_steps(platform)[3].text == GUIDE_SCRIPT@,
        platform is Wsl ==> guide_steps(platform).len() == 5 && guide_steps(platform)[0].text
            == "WSL Ubuntu/Debian Installation:"@ && guide_steps(platform)[1].text == GUIDE_SCRIPT@
            && guide_steps(platform)[4].text == GUIDE_WSL_DESKTOP@,
        platform is Linux ==> guide_steps(platform).len() == 2 && guide_steps(platform)[0].text
            == "Linux Installation (Ubuntu/Debian):"@ && guide_steps(platform)[1].text
            == GUIDE_LINUX@,
        platform is MacOs ==> guide_steps(platform).len() == 2 && guide_steps(platform)[0].text
            == "macOS Installation:"@ && guide_steps(platform)[1].text == GUIDE_MACOS@,
        platform is Other <==> guide_steps(platform).len() == 0,
        !(platform is Other) ==> guide_steps(platform)[0].tone == Tone::CyanBold,
{
}

} // verus!
