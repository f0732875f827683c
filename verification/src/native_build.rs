//! The build of CP2K on this machine, without Docker: what is logged, and what
//! is done next.

use crate::config::gives;
use crate::config::BuildConfig;
use crate::dockerfile::arch_name;
use crate::dockerfile::arch_of;
use crate::dockerfile::cmake_options;
use crate::dockerfile::cmake_options_text;
use crate::dockerfile::mpi_option;
use crate::dockerfile::mpi_option_text;
use crate::image_build::VERSION;
use crate::log::failed;
use crate::log::said;
use crate::log::NoteView;
use crate::log::Notes;
use crate::text::decimal;
use crate::text::decimal_text;
use crate::text::join;
use crate::text::joined;
use crate::text::no_texts;
use crate::text::occurs;
use crate::text::occurs_behind;
use crate::text::occurs_in_longer;
use crate::text::pair_occurs;
use crate::text::push_all;
use crate::text::push_copy;
use crate::text::push_text;
use crate::text::same;
use crate::text::same_form;
use crate::text::same_form_joins;
use crate::text::same_form_of_itself;
use crate::text::same_form_of_values;
use crate::text::texts;
use crate::text::triple_occurs;
use vstd::prelude::*;

verus! {

/// The directory in which everything is built.
pub const WORK_DIR: &'static str = "/opt/cp2k_build";

/// Where the sources come from.
pub const CLONE_URL: &'static str = "https://github.com/cp2k/cp2k.git";

/// The start of a build script, up to the environment of the toolchain.
pub const SCRIPT_OPEN: &'static str = "#!/bin/bash\nset -e\nsource ";

/// The build of the development branch in a script, up to the options of the
/// variant.
pub const SCRIPT_CMAKE: &'static str = r#"
cmake -GNinja \
    -DCMAKE_INSTALL_PREFIX=/opt/cp2k/install \
    -DCP2K_USE_EVERYTHING=ON \
    -DCP2K_USE_DLAF=OFF \
    -DCP2K_USE_PEXSI=OFF \
    -DCP2K_USE_DEEPMD=OFF \
    -DCMAKE_INTERPROCEDURAL_OPTIMIZATION=OFF \
    -DCMAKE_C_FLAGS="-fno-lto" \
    -DCMAKE_CXX_FLAGS="-fno-lto" \
    -DCMAKE_Fortran_FLAGS="-fno-lto" \
    -DCMAKE_EXE_LINKER_FLAGS="-fno-lto" \
"#;

/// The build of the development branch in a script, up to the number of jobs.
pub const SCRIPT_NINJA: &'static str = r#"    -Werror=dev \
    -B build -S .
ninja -C build -j "#;

/// The installation of the development branch, which ends its script.
pub const SCRIPT_CMAKE_END: &'static str = r#"
cmake --install build --prefix /opt/cp2k/install
echo "BUILD_COMPLETE"
"#;

/// The end of the build script of a release.
pub const SCRIPT_MAKE_END: &'static str = r#"
echo "BUILD_COMPLETE"
"#;

/// The tools that a native build needs.
pub open spec fn required_tools() -> Seq<Seq<char>> {
    seq!["gcc"@, "g++"@, "gfortran"@, "git"@, "make"@, "cmake"@, "wget"@, "bunzip2"@]
}

/// The packages that are installed together with missing tools.
pub open spec fn extra_packages() -> Seq<Seq<char>> {
    seq![
        "autoconf"@,
        "autogen"@,
        "automake"@,
        "libtool"@,
        "libtool-bin"@,
        "ninja-build"@,
        "pkg-config"@,
        "python3-dev"@,
        "python3-pip"@,
        "xxd"@,
        "xz-utils"@,
        "zlib1g-dev"@,
    ]
}

/// The tools that a native build needs.
fn tools() -> (r: Vec<String>)
    ensures
        texts(r@) == required_tools(),
{
    let mut tools = no_texts();
    push_copy(&mut tools, "gcc");
    push_copy(&mut tools, "g++");
    push_copy(&mut tools, "gfortran");
    push_copy(&mut tools, "git");
    push_copy(&mut tools, "make");
    push_copy(&mut tools, "cmake");
    push_copy(&mut tools, "wget");
    push_copy(&mut tools, "bunzip2");
    tools
}

/// Adds the packages that are installed together with missing tools.
fn push_extras(packages: &mut Vec<String>)
    ensures
        texts(final(packages)@) == texts(old(packages)@) + extra_packages(),
{
    let ghost before = texts(packages@);
    push_copy(packages, "autoconf");
    push_copy(packages, "autogen");
    push_copy(packages, "automake");
    push_copy(packages, "libtool");
    push_copy(packages, "libtool-bin");
    push_copy(packages, "ninja-build");
    push_copy(packages, "pkg-config");
    push_copy(packages, "python3-dev");
    push_copy(packages, "python3-pip");
    push_copy(packages, "xxd");
    push_copy(packages, "xz-utils");
    push_copy(packages, "zlib1g-dev");
    assert(texts(packages@) =~= before + extra_packages());
}

/// Where a native build stands: what it is waiting for.
#[derive(Clone, Copy, Debug, PartialEq, Eq, Structural)]
pub enum NativeStage {
    /// Whether the tool at this place of the list is there.
    Probe(usize),
    UpdateIndex,
    InstallPackages,
    InstallWithSudo,
    MakeWorkDir,
    FindSources,
    Pull,
    Clone,
    FindScript,
    InstallToolchain,
    FindArch,
    CopyArch,
    WriteScript,
    AllowScript,
    RunScript,
    FindBinary,
    MeasureBinary,
    Done,
    Failed,
}

/// What came of the last action of a native build.
#[derive(Clone, Debug)]
pub enum NativeReply {
    /// It was done, or what was looked for is there.
    Good,
    /// It was not done, or what was looked for is not there; and why.
    Bad(String),
    /// The size of a file in bytes.
    Size(u64),
}

/// What a native build does next.
#[derive(Clone, Debug)]
pub enum NativeAction {
    /// Find out whether a tool is there.
    Probe(String),
    /// Run a command, in a directory of its own where one is given.
    Run { program: String, args: Vec<String>, workdir: Option<String> },
    /// Create a directory with its parents.
    MakeDir(String),
    /// Find out whether a file is there.
    Exists(String),
    /// Copy a file.
    Copy { from: String, to: String },
    /// Write a file.
    Write { path: String, content: String },
    /// Make a file executable.
    AllowExecution(String),
    /// Find out how large a file is.
    Measure(String),
    /// The build is over.
    Finish,
    /// The build is over, and the error says why.
    Fail(String),
}

/// What an action says.
#[verifier::ext_equal]
pub enum NativeActionView {
    Probe(Seq<char>),
    Run { program: Seq<char>, args: Seq<Seq<char>>, workdir: Option<Seq<char>> },
    MakeDir(Seq<char>),
    Exists(Seq<char>),
    Copy { from: Seq<char>, to: Seq<char> },
    Write { path: Seq<char>, content: Seq<char> },
    AllowExecution(Seq<char>),
    Measure(Seq<char>),
    Finish,
    Fail(Seq<char>),
}

impl View for NativeAction {
    type V = NativeActionView;

    open spec fn view(&self) -> NativeActionView {
        match *self {
            NativeAction::Probe(tool) => NativeActionView::Probe(tool@),
            NativeAction::Run { program, args, workdir } => NativeActionView::Run {
                program: program@,
                args: texts(args@),
                workdir: match workdir {
                    Some(dir) => Some(dir@),
                    None => None,
                },
            },
            NativeAction::MakeDir(path) => NativeActionView::MakeDir(path@),
            NativeAction::Exists(path) => NativeActionView::Exists(path@),
            NativeAction::Copy { from, to } => NativeActionView::Copy { from: from@, to: to@ },
            NativeAction::Write { path, content } => NativeActionView::Write {
                path: path@,
                content: content@,
            },
            NativeAction::AllowExecution(path) => NativeActionView::AllowExecution(path@),
            NativeAction::Measure(path) => NativeActionView::Measure(path@),
            NativeAction::Finish => NativeActionView::Finish,
            NativeAction::Fail(complaint) => NativeActionView::Fail(complaint@),
        }
    }
}

/// A file or a directory inside a directory, where `sep` separates the names of a path.
pub open spec fn inside(dir: Seq<char>, sep: Seq<char>, name: Seq<char>) -> Seq<char> {
    dir + sep + name
}

/// The directory of the sources.
pub open spec fn sources_dir(sep: Seq<char>) -> Seq<char> {
    inside(WORK_DIR@, sep, "cp2k"@)
}

/// The directory of the toolchain.
pub open spec fn toolchain_dir(sep: Seq<char>) -> Seq<char> {
    inside(inside(sources_dir(sep), sep, "tools"@), sep, "toolchain"@)
}

/// The script that installs the toolchain.
pub open spec fn toolchain_script(sep: Seq<char>) -> Seq<char> {
    inside(toolchain_dir(sep), sep, "install_cp2k_toolchain.sh"@)
}

/// The directory of what the toolchain installed.
pub open spec fn toolchain_install(sep: Seq<char>) -> Seq<char> {
    inside(toolchain_dir(sep), sep, "install"@)
}

/// The name of the architecture file of a release: it tells whether there is a
/// GPU, and the variant of the binary.
pub open spec fn arch_file_name(config: BuildConfig) -> Seq<char> {
    arch_of(config.cuda@) + "."@ + config.variant@
}

/// The architecture file that the toolchain made.
pub open spec fn arch_file(config: BuildConfig, sep: Seq<char>) -> Seq<char> {
    inside(inside(toolchain_install(sep), sep, "arch"@), sep, arch_file_name(config))
}

/// Where the sources look for their architecture file.
pub open spec fn arch_dest(config: BuildConfig, sep: Seq<char>) -> Seq<char> {
    inside(inside(sources_dir(sep), sep, "arch"@), sep, arch_file_name(config))
}

/// The script that builds CP2K.
pub open spec fn build_script(sep: Seq<char>) -> Seq<char> {
    inside(sources_dir(sep), sep, "build_native.sh"@)
}

/// The directory of the finished binary.
pub open spec fn binary_dir(config: BuildConfig, sep: Seq<char>) -> Seq<char> {
    if config.is_master() {
        "/opt/cp2k/install/bin"@
    } else {
        inside(inside(sources_dir(sep), sep, "exe"@), sep, arch_of(config.cuda@))
    }
}

/// The finished binary.
pub open spec fn binary_path(config: BuildConfig, sep: Seq<char>) -> Seq<char> {
    if config.is_master() {
        "/opt/cp2k/install/bin/cp2k."@ + config.variant@
    } else {
        inside(binary_dir(config, sep), sep, "cp2k."@ + config.variant@)
    }
}

/// What the build script holds: the development branch is built with CMake
/// and Ninja, a release with make.
pub open spec fn script_content(config: BuildConfig, sep: Seq<char>) -> Seq<char> {
    let setup = inside(toolchain_install(sep), sep, "setup"@);
    let jobs = decimal(config.jobs as nat);
    if config.is_master() {
        SCRIPT_OPEN@ + setup + SCRIPT_CMAKE@ + cmake_options(config.variant@) + SCRIPT_NINJA@ + jobs
            + SCRIPT_CMAKE_END@
    } else {
        SCRIPT_OPEN@ + setup + "\nmake -j "@ + jobs + " ARCH="@ + arch_of(config.cuda@)
            + " VERSION="@ + config.variant@ + SCRIPT_MAKE_END@
    }
}

/// The arguments of the command that clones the sources.
pub open spec fn clone_args(version: Seq<char>, sep: Seq<char>) -> Seq<Seq<char>> {
    seq!["clone"@, "--recursive"@] + (if version != "master"@ {
        seq!["-b"@, "support/v"@ + version]
    } else {
        seq![]
    }) + seq![CLONE_URL@, sources_dir(sep)]
}

/// The toolchain options about the GPU.
pub open spec fn cuda_args(cuda: Seq<char>) -> Seq<Seq<char>> {
    if cuda != "none"@ {
        seq!["--enable-cuda=yes"@, "--gpu-ver="@ + cuda, "--with-libtorch=no"@]
    } else {
        seq!["--enable-cuda=no"@]
    }
}

/// The arguments of the command that installs the toolchain, for the GPU, the
/// CPU target and the MPI implementation of the configuration.
pub open spec fn toolchain_args(config: BuildConfig, sep: Seq<char>) -> Seq<Seq<char>> {
    seq![toolchain_script(sep), "-j"@, decimal(config.jobs as nat), "--install-all"@]
        + cuda_args(config.cuda@) + seq![
        "--with-deepmd=no"@,
        "--target-cpu="@ + config.cpu@,
        "--with-cusolvermp=no"@,
        "--with-gcc=system"@,
        mpi_option(config.mpi@),
    ]
}

/// A command that runs where the program runs.
pub open spec fn run_here(program: Seq<char>, args: Seq<Seq<char>>) -> NativeActionView {
    NativeActionView::Run { program, args, workdir: None }
}

/// What a native build does at a stage.
pub open spec fn action_at(
    stage: NativeStage,
    config: BuildConfig,
    missing: Seq<Seq<char>>,
    complaint: Seq<char>,
    sep: Seq<char>,
) -> NativeActionView {
    match stage {
        NativeStage::Probe(i) => NativeActionView::Probe(required_tools()[i as int]),
        NativeStage::UpdateIndex => run_here("apt-get"@, seq!["update"@, "-qq"@]),
        NativeStage::InstallPackages => run_here(
            "apt-get"@,
            seq!["install"@, "-qq"@, "--no-install-recommends"@, "-y"@] + missing
                + extra_packages(),
        ),
        NativeStage::InstallWithSudo => run_here(
            "sudo"@,
            seq!["apt-get"@, "install"@, "-qq"@, "-y"@, joined(missing, " "@)],
        ),
        NativeStage::MakeWorkDir => NativeActionView::MakeDir(WORK_DIR@),
        NativeStage::FindSources => NativeActionView::Exists(sources_dir(sep)),
        NativeStage::Pull => run_here("git"@, seq!["-C"@, sources_dir(sep), "pull"@]),
        NativeStage::Clone => run_here("git"@, clone_args(config.version@, sep)),
        NativeStage::FindScript => NativeActionView::Exists(toolchain_script(sep)),
        NativeStage::InstallToolchain => NativeActionView::Run {
            program: "bash"@,
            args: toolchain_args(config, sep),
            workdir: Some(toolchain_dir(sep)),
        },
        NativeStage::FindArch => NativeActionView::Exists(arch_file(config, sep)),
        NativeStage::CopyArch => NativeActionView::Copy {
            from: arch_file(config, sep),
            to: arch_dest(config, sep),
        },
        NativeStage::WriteScript => NativeActionView::Write {
            path: build_script(sep),
            content: script_content(config, sep),
        },
        NativeStage::AllowScript => NativeActionView::AllowExecution(build_script(sep)),
        NativeStage::RunScript => NativeActionView::Run {
            program: "bash"@,
            args: seq![build_script(sep)],
            workdir: Some(sources_dir(sep)),
        },
        NativeStage::FindBinary => NativeActionView::Exists(binary_path(config, sep)),
        NativeStage::MeasureBinary => NativeActionView::Measure(binary_path(config, sep)),
        NativeStage::Done => NativeActionView::Finish,
        NativeStage::Failed => NativeActionView::Fail(complaint),
    }
}

/// Where a native build goes from a stage. `bad` tells that the action of the
/// stage came to nothing, `all_tools` that no tool is missing so far, `master`
/// that the development branch is built.
pub open spec fn next_stage(
    stage: NativeStage,
    bad: bool,
    all_tools: bool,
    master: bool,
) -> NativeStage {
    match stage {
        NativeStage::Probe(i) => if i + 1 < required_tools().len() {
            NativeStage::Probe((i + 1) as usize)
        } else if all_tools {
            NativeStage::MakeWorkDir
        } else {
            NativeStage::UpdateIndex
        },
        NativeStage::UpdateIndex => if bad {
            NativeStage::Failed
        } else {
            NativeStage::InstallPackages
        },
        NativeStage::InstallPackages => if bad {
            NativeStage::InstallWithSudo
        } else {
            NativeStage::MakeWorkDir
        },
        NativeStage::InstallWithSudo => NativeStage::MakeWorkDir,
        NativeStage::MakeWorkDir => if bad {
            NativeStage::Failed
        } else {
            NativeStage::FindSources
        },
        NativeStage::FindSources => if bad {
            NativeStage::Clone
        } else {
            NativeStage::Pull
        },
        NativeStage::Pull | NativeStage::Clone => if bad {
            NativeStage::Failed
        } else {
            NativeStage::FindScript
        },
        NativeStage::FindScript => if bad {
            NativeStage::Failed
        } else {
            NativeStage::InstallToolchain
        },
        NativeStage::InstallToolchain => if bad {
            NativeStage::Failed
        } else if master {
            NativeStage::WriteScript
        } else {
            NativeStage::FindArch
        },
        NativeStage::FindArch => if bad {
            NativeStage::WriteScript
        } else {
            NativeStage::CopyArch
        },
        NativeStage::CopyArch => if bad {
            NativeStage::Failed
        } else {
            NativeStage::WriteScript
        },
        NativeStage::WriteScript => if bad {
            NativeStage::Failed
        } else {
            NativeStage::AllowScript
        },
        NativeStage::AllowScript => if bad {
            NativeStage::Failed
        } else {
            NativeStage::RunScript
        },
        NativeStage::RunScript => if bad {
            NativeStage::Failed
        } else {
            NativeStage::FindBinary
        },
        NativeStage::FindBinary => if bad {
            NativeStage::Done
        } else {
            NativeStage::MeasureBinary
        },
        NativeStage::MeasureBinary => NativeStage::Done,
        NativeStage::Done => NativeStage::Done,
        NativeStage::Failed => NativeStage::Failed,
    }
}

/// The first notes of a native build.
pub open spec fn native_header(config: BuildConfig) -> Seq<NoteView> {
    seq![
        said("🔨 Forge2K Native Build v"@ + VERSION@),
        said("   Method:    native"@),
        said("   Version:   "@ + config.version@),
        said("   MPI:       "@ + config.mpi@),
        said("   CPU:       "@ + config.cpu@),
        said("   CUDA:      "@ + config.cuda@),
        said("   Variant:   "@ + config.variant@),
        said("   Jobs:      "@ + decimal(config.jobs as nat)),
        said(""@),
        said("📋 Step 1/6: Checking system prerequisites..."@),
    ]
}

/// The notes before the working directory is made.
pub open spec fn work_dir_notes() -> Seq<NoteView> {
    seq![said(""@), said("📋 Step 2/6: Setting up working directory..."@)]
}

/// The notes at the end of a native build.
pub open spec fn closing_notes() -> Seq<NoteView> {
    seq![said(""@), said("✅ Native build completed!"@)]
}

/// The size of a file in whole mebibytes.
pub open spec fn mebibytes(size: nat) -> nat {
    size / 1_048_576
}

/// What a native build logs when it leaves a stage. `missing` are the tools
/// that are known to be missing, `size` is that of the binary in bytes.
pub open spec fn notes_after(
    stage: NativeStage,
    bad: bool,
    size: nat,
    config: BuildConfig,
    missing: Seq<Seq<char>>,
    sep: Seq<char>,
) -> Seq<NoteView> {
    match stage {
        NativeStage::Probe(i) => if i + 1 < required_tools().len() {
            seq![]
        } else if missing.len() == 0 {
            seq![said("   ✅ All required tools found"@)] + work_dir_notes()
        } else {
            seq![
                failed("   Missing: "@ + joined(missing, ", "@)),
                said("   Attempting to install missing packages..."@),
            ]
        },
        NativeStage::InstallPackages => if bad {
            seq![failed("   ⚠️  Some packages failed to install. Trying with sudo..."@)]
        } else {
            work_dir_notes()
        },
        NativeStage::InstallWithSudo => work_dir_notes(),
        NativeStage::MakeWorkDir => if bad {
            seq![]
        } else {
            seq![
                said("   Work dir: "@ + WORK_DIR@),
                said(""@),
                said("📋 Step 3/6: Cloning CP2K source..."@),
            ]
        },
        NativeStage::FindSources => if bad {
            seq![]
        } else {
            seq![said("   CP2K directory already exists, pulling latest..."@)]
        },
        NativeStage::Pull | NativeStage::Clone => if bad {
            seq![]
        } else {
            seq![
                said(""@),
                said("📋 Step 4/6: Installing CP2K toolchain dependencies..."@),
                said("   This will download and compile many libraries (30-60 min)..."@),
                said(""@),
            ]
        },
        NativeStage::InstallToolchain => if bad {
            seq![]
        } else {
            seq![said(""@), said("📋 Step 5/6: Building CP2K..."@), said(""@)]
        },
        NativeStage::RunScript => if bad {
            seq![]
        } else {
            seq![said(""@), said("📋 Step 6/6: Verifying installation..."@)]
        },
        NativeStage::FindBinary => if bad {
            seq![
                failed(
                    "   ⚠️  CP2K binary not found at expected location. Check build output above."@,
                ),
            ] + closing_notes()
        } else {
            seq![]
        },
        NativeStage::MeasureBinary => seq![
            said("   ✅ CP2K built successfully: "@ + binary_path(config, sep)),
            said("   Binary size: "@ + decimal(mebibytes(size)) + " MB"@),
            said(""@),
            said("   🎉 To use CP2K, add to your PATH:"@),
            said("      export PATH="@ + binary_dir(config, sep) + ":$PATH"@),
        ] + closing_notes(),
        _ => seq![],
    }
}

/// Why a native build failed at a stage, where `reason` is what its action
/// came back with.
pub open spec fn failure_text(stage: NativeStage, reason: Seq<char>, sep: Seq<char>) -> Seq<char> {
    match stage {
        NativeStage::MakeWorkDir => "Failed to create /opt/cp2k_build"@,
        NativeStage::FindScript => "Toolchain script not found at "@ + toolchain_script(sep),
        NativeStage::InstallToolchain => "Toolchain installation failed: "@ + reason,
        NativeStage::AllowScript => "Cannot chmod +x "@ + build_script(sep) + ": "@ + reason,
        _ => reason,
    }
}

impl NativeReply {
    /// The action came to nothing.
    pub open spec fn is_bad(&self) -> bool {
        self is Bad
    }

    /// Why the action came to nothing.
    pub open spec fn reason(&self) -> Seq<char> {
        match *self {
            NativeReply::Bad(reason) => reason@,
            _ => Seq::empty(),
        }
    }

    /// The size that was asked for.
    pub open spec fn size(&self) -> nat {
        match *self {
            NativeReply::Size(n) => n as nat,
            _ => 0,
        }
    }
}

/// A native build under way.
#[derive(Debug)]
pub struct NativeBuild {
    /// What is built.
    pub config: BuildConfig,
    /// What separates the names of a path on this system.
    pub separator: String,
    /// The tools that are known to be missing.
    pub missing: Vec<String>,
    /// Why the build failed, where it did.
    pub complaint: String,
    /// What the build is waiting for.
    pub stage: NativeStage,
}

/// A file or a directory inside a directory.
fn within(dir: &str, sep: &str, name: &str) -> (r: String)
    ensures
        r@ == inside(dir@, sep@, name@),
{
    dir.to_owned().concat(sep).concat(name)
}

/// The directory of the sources.
fn sources_path(sep: &str) -> (r: String)
    ensures
        r@ == sources_dir(sep@),
{
    within(WORK_DIR, sep, "cp2k")
}

/// The directory of the toolchain.
fn toolchain_path(sep: &str) -> (r: String)
    ensures
        r@ == toolchain_dir(sep@),
{
    within(within(sources_path(sep).as_str(), sep, "tools").as_str(), sep, "toolchain")
}

/// The script that installs the toolchain.
fn toolchain_script_path(sep: &str) -> (r: String)
    ensures
        r@ == toolchain_script(sep@),
{
    within(toolchain_path(sep).as_str(), sep, "install_cp2k_toolchain.sh")
}

/// The directory of what the toolchain installed.
fn toolchain_install_path(sep: &str) -> (r: String)
    ensures
        r@ == toolchain_install(sep@),
{
    within(toolchain_path(sep).as_str(), sep, "install")
}

/// The name of the architecture file of a release.
fn arch_file_text(config: &BuildConfig) -> (r: String)
    ensures
        r@ == arch_file_name(*config),
{
    arch_name(config.cuda.as_str()).to_owned().concat(".").concat(config.variant.as_str())
}

/// The architecture file that the toolchain made.
fn arch_file_path(config: &BuildConfig, sep: &str) -> (r: String)
    ensures
        r@ == arch_file(*config, sep@),
{
    within(
        within(toolchain_install_path(sep).as_str(), sep, "arch").as_str(),
        sep,
        arch_file_text(config).as_str(),
    )
}

/// The script that builds CP2K.
fn build_script_path(sep: &str) -> (r: String)
    ensures
        r@ == build_script(sep@),
{
    within(sources_path(sep).as_str(), sep, "build_native.sh")
}

/// Whether the development branch is built.
fn builds_master(config: &BuildConfig) -> (r: bool)
    ensures
        r == config.is_master(),
{
    same(config.version.as_str(), "master")
}

/// The directory of the finished binary.
fn binary_dir_path(config: &BuildConfig, sep: &str) -> (r: String)
    ensures
        r@ == binary_dir(*config, sep@),
{
    if builds_master(config) {
        "/opt/cp2k/install/bin".to_owned()
    } else {
        within(
            within(sources_path(sep).as_str(), sep, "exe").as_str(),
            sep,
            arch_name(config.cuda.as_str()),
        )
    }
}

/// The finished binary.
fn binary_file_path(config: &BuildConfig, sep: &str) -> (r: String)
    ensures
        r@ == binary_path(*config, sep@),
{
    if builds_master(config) {
        "/opt/cp2k/install/bin/cp2k.".to_owned().concat(config.variant.as_str())
    } else {
        let name = "cp2k.".to_owned().concat(config.variant.as_str());
        within(binary_dir_path(config, sep).as_str(), sep, name.as_str())
    }
}

/// What the build script holds.
fn script_text(config: &BuildConfig, sep: &str) -> (r: String)
    ensures
        r@ == script_content(*config, sep@),
{
    let setup = within(toolchain_install_path(sep).as_str(), sep, "setup");
    let count = decimal_text(config.jobs as u64);
    if builds_master(config) {
        SCRIPT_OPEN.to_owned()
            .concat(setup.as_str())
            .concat(SCRIPT_CMAKE)
            .concat(cmake_options_text(config.variant.as_str()).as_str())
            .concat(SCRIPT_NINJA)
            .concat(count.as_str())
            .concat(SCRIPT_CMAKE_END)
    } else {
        SCRIPT_OPEN.to_owned()
            .concat(setup.as_str())
            .concat("\nmake -j ")
            .concat(count.as_str())
            .concat(" ARCH=")
            .concat(arch_name(config.cuda.as_str()))
            .concat(" VERSION=")
            .concat(config.variant.as_str())
            .concat(SCRIPT_MAKE_END)
    }
}

/// A command that runs where the program runs.
fn run_command(program: &str, args: Vec<String>) -> (r: NativeAction)
    ensures
        r@ == run_here(program@, texts(args@)),
{
    NativeAction::Run { program: program.to_owned(), args, workdir: None }
}

/// The command that clones the sources.
fn clone_command(version: &str, sep: &str) -> (r: NativeAction)
    ensures
        r@ == run_here("git"@, clone_args(version@, sep@)),
{
    let mut args = no_texts();
    push_copy(&mut args, "clone");
    push_copy(&mut args, "--recursive");
    if !same(version, "master") {
        push_copy(&mut args, "-b");
        push_text(&mut args, "support/v".to_owned().concat(version));
    }
    push_copy(&mut args, CLONE_URL);
    push_text(&mut args, sources_path(sep));
    assert(texts(args@) =~= clone_args(version@, sep@));
    run_command("git", args)
}

/// The command that installs the toolchain.
fn toolchain_command(config: &BuildConfig, sep: &str) -> (r: NativeAction)
    ensures
        r@ == (NativeActionView::Run {
            program: "bash"@,
            args: toolchain_args(*config, sep@),
            workdir: Some(toolchain_dir(sep@)),
        }),
{
    let mut args = no_texts();
    push_text(&mut args, toolchain_script_path(sep));
    push_copy(&mut args, "-j");
    push_text(&mut args, decimal_text(config.jobs as u64));
    push_copy(&mut args, "--install-all");
    if same(config.cuda.as_str(), "none") {
        push_copy(&mut args, "--enable-cuda=no");
    } else {
        push_copy(&mut args, "--enable-cuda=yes");
        push_text(&mut args, "--gpu-ver=".to_owned().concat(config.cuda.as_str()));
        push_copy(&mut args, "--with-libtorch=no");
    }
    push_copy(&mut args, "--with-deepmd=no");
    push_text(&mut args, "--target-cpu=".to_owned().concat(config.cpu.as_str()));
    push_copy(&mut args, "--with-cusolvermp=no");
    push_copy(&mut args, "--with-gcc=system");
    push_text(&mut args, mpi_option_text(config.mpi.as_str()));
    assert(texts(args@) =~= toolchain_args(*config, sep@));
    NativeAction::Run {
        program: "bash".to_owned(),
        args,
        workdir: Some(toolchain_path(sep)),
    }
}

/// The command that installs missing tools and the packages that go with them.
fn install_command(missing: &Vec<String>) -> (r: NativeAction)
    ensures
        r@ == run_here(
            "apt-get"@,
            seq!["install"@, "-qq"@, "--no-install-recommends"@, "-y"@] + texts(missing@)
                + extra_packages(),
        ),
{
    let mut args = no_texts();
    push_copy(&mut args, "install");
    push_copy(&mut args, "-qq");
    push_copy(&mut args, "--no-install-recommends");
    push_copy(&mut args, "-y");
    push_all(&mut args, missing);
    push_extras(&mut args);
    run_command("apt-get", args)
}

/// The command that installs missing tools as another user.
fn sudo_command(missing: &Vec<String>) -> (r: NativeAction)
    ensures
        r@ == run_here(
            "sudo"@,
            seq!["apt-get"@, "install"@, "-qq"@, "-y"@, joined(texts(missing@), " "@)],
        ),
{
    let mut args = no_texts();
    push_copy(&mut args, "apt-get");
    push_copy(&mut args, "install");
    push_copy(&mut args, "-qq");
    push_copy(&mut args, "-y");
    push_text(&mut args, join(missing, " "));
    run_command("sudo", args)
}

/// Adds the notes before the working directory is made.
fn announce_work_dir(notes: &mut Notes)
    ensures
        final(notes)@ == old(notes)@ + work_dir_notes(),
{
    notes.say("");
    notes.say("📋 Step 2/6: Setting up working directory...");
    assert(notes@ =~= old(notes)@ + work_dir_notes());
}

/// Adds the notes at the end of a native build.
fn announce_end(notes: &mut Notes)
    ensures
        final(notes)@ == old(notes)@ + closing_notes(),
{
    notes.say("");
    notes.say("✅ Native build completed!");
    assert(notes@ =~= old(notes)@ + closing_notes());
}

/// Where a native build goes from a stage.
pub fn stage_after(stage: NativeStage, bad: bool, all_tools: bool, master: bool) -> (r: NativeStage)
    requires
        stage matches NativeStage::Probe(i) ==> i < required_tools().len(),
    ensures
        r == next_stage(stage, bad, all_tools, master),
{
    match stage {
        NativeStage::Probe(i) => {
            assert(required_tools().len() == 8);
            if i + 1 < 8 {
                NativeStage::Probe(i + 1)
            } else if all_tools {
                NativeStage::MakeWorkDir
            } else {
                NativeStage::UpdateIndex
            }
        },
        NativeStage::InstallPackages => if bad {
            NativeStage::InstallWithSudo
        } else {
            NativeStage::MakeWorkDir
        },
        NativeStage::InstallWithSudo => NativeStage::MakeWorkDir,
        NativeStage::FindSources => if bad {
            NativeStage::Clone
        } else {
            NativeStage::Pull
        },
        NativeStage::FindArch => if bad {
            NativeStage::WriteScript
        } else {
            NativeStage::CopyArch
        },
        NativeStage::FindBinary => if bad {
            NativeStage::Done
        } else {
            NativeStage::MeasureBinary
        },
        NativeStage::MeasureBinary => NativeStage::Done,
        NativeStage::Done => NativeStage::Done,
        NativeStage::Failed => NativeStage::Failed,
        other => {
            if bad {
                return NativeStage::Failed;
            }
            match other {
                NativeStage::UpdateIndex => NativeStage::InstallPackages,
                NativeStage::MakeWorkDir => NativeStage::FindSources,
                NativeStage::Pull => NativeStage::FindScript,
                NativeStage::Clone => NativeStage::FindScript,
                NativeStage::FindScript => NativeStage::InstallToolchain,
                NativeStage::InstallToolchain => if master {
                    NativeStage::WriteScript
                } else {
                    NativeStage::FindArch
                },
                NativeStage::CopyArch => NativeStage::WriteScript,
                NativeStage::WriteScript => NativeStage::AllowScript,
                NativeStage::AllowScript => NativeStage::RunScript,
                _ => NativeStage::FindBinary,
            }
        },
    }
}

impl NativeBuild {
    /// The stage is one that a build can be at.
    pub open spec fn well_formed(&self) -> bool {
        self.stage matches NativeStage::Probe(i) ==> i < required_tools().len()
    }

    /// The tools that are known to be missing after a reply.
    pub open spec fn missing_after(&self, reply: NativeReply) -> Seq<Seq<char>> {
        match self.stage {
            NativeStage::Probe(i) => if reply.is_bad() {
                texts(self.missing@).push(required_tools()[i as int])
            } else {
                texts(self.missing@)
            },
            _ => texts(self.missing@),
        }
    }

    /// A native build that is about to look for its tools, and its first notes.
    pub fn start(config: BuildConfig, separator: &str) -> (r: (NativeBuild, Notes))
        ensures
            r.0.well_formed(),
            r.0.config == config,
            r.0.separator@ == separator@,
            texts(r.0.missing@) == Seq::<Seq<char>>::empty(),
            r.0.complaint@ == Seq::<char>::empty(),
            r.0.stage == NativeStage::Probe(0),
            r.1@ == native_header(config),
    {
        let mut notes = Notes::new();
        notes.say_of("🔨 Forge2K Native Build v", VERSION);
        notes.say("   Method:    native");
        notes.say_of("   Version:   ", config.version.as_str());
        notes.say_of("   MPI:       ", config.mpi.as_str());
        notes.say_of("   CPU:       ", config.cpu.as_str());
        notes.say_of("   CUDA:      ", config.cuda.as_str());
        notes.say_of("   Variant:   ", config.variant.as_str());
        notes.say_of("   Jobs:      ", decimal_text(config.jobs as u64).as_str());
        notes.say("");
        notes.say("📋 Step 1/6: Checking system prerequisites...");
        let build = NativeBuild {
            config,
            separator: separator.to_owned(),
            missing: no_texts(),
            complaint: String::new(),
            stage: NativeStage::Probe(0),
        };
        (build, notes)
    }

    /// What the build does now.
    pub fn action(&self) -> (r: NativeAction)
        requires
            self.well_formed(),
        ensures
            r@ == action_at(
                self.stage,
                self.config,
                texts(self.missing@),
                self.complaint@,
                self.separator@,
            ),
    {
        let sep = self.separator.as_str();
        match self.stage {
            NativeStage::Probe(i) => {
                let tools = tools();
                assert(texts(tools@)[i as int] == tools@[i as int]@);
                NativeAction::Probe(tools[i].clone())
            },
            NativeStage::UpdateIndex => {
                let mut args = no_texts();
                push_copy(&mut args, "update");
                push_copy(&mut args, "-qq");
                run_command("apt-get", args)
            },
            NativeStage::InstallPackages => install_command(&self.missing),
            NativeStage::InstallWithSudo => sudo_command(&self.missing),
            NativeStage::MakeWorkDir => NativeAction::MakeDir(WORK_DIR.to_owned()),
            NativeStage::FindSources => NativeAction::Exists(sources_path(sep)),
            NativeStage::Pull => {
                let mut args = no_texts();
                push_copy(&mut args, "-C");
                push_text(&mut args, sources_path(sep));
                push_copy(&mut args, "pull");
                run_command("git", args)
            },
            NativeStage::Clone => clone_command(self.config.version.as_str(), sep),
            NativeStage::FindScript => NativeAction::Exists(toolchain_script_path(sep)),
            NativeStage::InstallToolchain => toolchain_command(&self.config, sep),
            NativeStage::FindArch => NativeAction::Exists(arch_file_path(&self.config, sep)),
            NativeStage::CopyArch => NativeAction::Copy {
                from: arch_file_path(&self.config, sep),
                to: within(
                    within(sources_path(sep).as_str(), sep, "arch").as_str(),
                    sep,
                    arch_file_text(&self.config).as_str(),
                ),
            },
            NativeStage::WriteScript => NativeAction::Write {
                path: build_script_path(sep),
                content: script_text(&self.config, sep),
            },
            NativeStage::AllowScript => NativeAction::AllowExecution(build_script_path(sep)),
            NativeStage::RunScript => {
                let mut args = no_texts();
                push_text(&mut args, build_script_path(sep));
                NativeAction::Run {
                    program: "bash".to_owned(),
                    args,
                    workdir: Some(sources_path(sep)),
                }
            },
            NativeStage::FindBinary => NativeAction::Exists(binary_file_path(&self.config, sep)),
            NativeStage::MeasureBinary => NativeAction::Measure(
                binary_file_path(&self.config, sep),
            ),
            NativeStage::Done => NativeAction::Finish,
            NativeStage::Failed => NativeAction::Fail(self.complaint.clone()),
        }
    }

    /// What the build logs when it leaves its stage.
    fn leaving_notes(&self, bad: bool, size: u64) -> (r: Notes)
        requires
            self.well_formed(),
        ensures
            r@ == notes_after(
                self.stage,
                bad,
                size as nat,
                self.config,
                texts(self.missing@),
                self.separator@,
            ),
    {
        let mut notes = Notes::new();
        let sep = self.separator.as_str();
        match self.stage {
            NativeStage::Probe(i) => {
                assert(required_tools().len() == 8);
                if i + 1 >= 8 {
                    assert(texts(self.missing@).len() == self.missing@.len());
                    if self.missing.len() == 0 {
                        notes.say("   ✅ All required tools found");
                        announce_work_dir(&mut notes);
                    } else {
                        notes.fail(
                            "   Missing: ".to_owned().concat(
                                join(&self.missing, ", ").as_str(),
                            ).as_str(),
                        );
                        notes.say("   Attempting to install missing packages...");
                    }
                }
            },
            NativeStage::InstallPackages => {
                if bad {
                    notes.fail("   ⚠️  Some packages failed to install. Trying with sudo...");
                } else {
                    announce_work_dir(&mut notes);
                }
            },
            NativeStage::InstallWithSudo => {
                announce_work_dir(&mut notes);
            },
            NativeStage::MakeWorkDir => {
                if !bad {
                    notes.say_of("   Work dir: ", WORK_DIR);
                    notes.say("");
                    notes.say("📋 Step 3/6: Cloning CP2K source...");
                }
            },
            NativeStage::FindSources => {
                if !bad {
                    notes.say("   CP2K directory already exists, pulling latest...");
                }
            },
            NativeStage::Pull | NativeStage::Clone => {
                if !bad {
                    notes.say("");
                    notes.say("📋 Step 4/6: Installing CP2K toolchain dependencies...");
                    notes.say("   This will download and compile many libraries (30-60 min)...");
                    notes.say("");
                }
            },
            NativeStage::InstallToolchain => {
                if !bad {
                    notes.say("");
                    notes.say("📋 Step 5/6: Building CP2K...");
                    notes.say("");
                }
            },
            NativeStage::RunScript => {
                if !bad {
                    notes.say("");
                    notes.say("📋 Step 6/6: Verifying installation...");
                }
            },
            NativeStage::FindBinary => {
                if bad {
                    notes.fail(
                        "   ⚠️  CP2K binary not found at expected location. Check build output above.",
                    );
                    announce_end(&mut notes);
                }
            },
            NativeStage::MeasureBinary => {
                notes.say_of(
                    "   ✅ CP2K built successfully: ",
                    binary_file_path(&self.config, sep).as_str(),
                );
                notes.say(
                    "   Binary size: ".to_owned().concat(
                        decimal_text(size / 1_048_576).as_str(),
                    ).concat(" MB").as_str(),
                );
                notes.say("");
                notes.say("   🎉 To use CP2K, add to your PATH:");
                notes.say(
                    "      export PATH=".to_owned().concat(
                        binary_dir_path(&self.config, sep).as_str(),
                    ).concat(":$PATH").as_str(),
                );
                announce_end(&mut notes);
            },
            _ => {},
        }
        assert(notes@ =~= notes_after(
            self.stage,
            bad,
            size as nat,
            self.config,
            texts(self.missing@),
            self.separator@,
        ));
        notes
    }

    /// Why the build fails at its stage.
    fn failure(&self, reason: &str) -> (r: String)
        ensures
            r@ == failure_text(self.stage, reason@, self.separator@),
    {
        match self.stage {
            NativeStage::MakeWorkDir => "Failed to create /opt/cp2k_build".to_owned(),
            NativeStage::FindScript => "Toolchain script not found at ".to_owned().concat(
                toolchain_script_path(self.separator.as_str()).as_str(),
            ),
            NativeStage::InstallToolchain => "Toolchain installation failed: ".to_owned().concat(
                reason,
            ),
            NativeStage::AllowScript => "Cannot chmod +x ".to_owned().concat(
                build_script_path(self.separator.as_str()).as_str(),
            ).concat(": ").concat(reason),
            _ => reason.to_owned(),
        }
    }

    /// Takes the reply to the action of the stage, goes on to the next stage,
    /// and gives what is to be logged.
    pub fn advance(&mut self, reply: NativeReply) -> (r: Notes)
        requires
            old(self).well_formed(),
        ensures
            final(self).well_formed(),
            final(self).config == old(self).config,
            final(self).separator == old(self).separator,
            texts(final(self).missing@) == old(self).missing_after(reply),
            final(self).stage == next_stage(
                old(self).stage,
                reply.is_bad(),
                old(self).missing_after(reply).len() == 0,
                old(self).config.is_master(),
            ),
            final(self).complaint@ == if final(self).stage is Failed && !(old(
                self,
            ).stage is Failed) {
                failure_text(old(self).stage, reply.reason(), old(self).separator@)
            } else {
                old(self).complaint@
            },
            r@ == notes_after(
                old(self).stage,
                reply.is_bad(),
                reply.size(),
                old(self).config,
                old(self).missing_after(reply),
                old(self).separator@,
            ),
    {
        let (bad, reason, size) = match reply {
            NativeReply::Good => (false, String::new(), 0u64),
            NativeReply::Bad(reason) => (true, reason, 0u64),
            NativeReply::Size(n) => (false, String::new(), n),
        };
        if let NativeStage::Probe(i) = self.stage {
            if bad {
                let tools = tools();
                assert(texts(tools@)[i as int] == tools@[i as int]@);
                push_copy(&mut self.missing, tools[i].as_str());
            }
        }
        assert(texts(self.missing@) == old(self).missing_after(reply));
        let notes = self.leaving_notes(bad, size);
        let all_tools = self.missing.len() == 0;
        assert(texts(self.missing@).len() == self.missing@.len());
        let next = stage_after(self.stage, bad, all_tools, builds_master(&self.config));
        let already = match self.stage {
            NativeStage::Failed => true,
            _ => false,
        };
        let fails = match next {
            NativeStage::Failed => true,
            _ => false,
        };
        if fails && !already {
            self.complaint = self.failure(reason.as_str());
        }
        self.stage = next;
        notes
    }
}

/// How many replies a native build may still wait for.
pub open spec fn replies_left(stage: NativeStage) -> nat {
    match stage {
        NativeStage::Probe(i) => (15 + required_tools().len() - i) as nat,
        NativeStage::UpdateIndex => 15,
        NativeStage::InstallPackages => 14,
        NativeStage::InstallWithSudo => 13,
        NativeStage::MakeWorkDir => 12,
        NativeStage::FindSources => 11,
        NativeStage::Pull | NativeStage::Clone => 10,
        NativeStage::FindScript => 9,
        NativeStage::InstallToolchain => 8,
        NativeStage::FindArch => 7,
        NativeStage::CopyArch => 6,
        NativeStage::WriteScript => 5,
        NativeStage::AllowScript => 4,
        NativeStage::RunScript => 3,
        NativeStage::FindBinary => 2,
        NativeStage::MeasureBinary => 1,
        NativeStage::Done | NativeStage::Failed => 0,
    }
}

/// A native build ends: every reply brings it closer to its end, whatever the
/// reply is.
pub proof fn native_build_ends(stage: NativeStage, bad: bool, all_tools: bool, master: bool)
    requires
        stage matches NativeStage::Probe(i) ==> i < required_tools().len(),
        !(stage is Done),
        !(stage is Failed),
    ensures
        replies_left(next_stage(stage, bad, all_tools, master)) < replies_left(stage),
{
}

/// Where a native build stands after some replies. A reply is bad or not, and
/// comes while no tool is missing or some are.
pub open spec fn stage_after_replies(replies: Seq<(bool, bool)>, master: bool) -> NativeStage
    decreases replies.len(),
{
    if replies.len() == 0 {
        NativeStage::Probe(0)
    } else {
        next_stage(
            stage_after_replies(replies.drop_last(), master),
            replies.last().0,
            replies.last().1,
            master,
        )
    }
}

proof fn replies_run_out(replies: Seq<(bool, bool)>, master: bool)
    ensures
        ({
            let stage = stage_after_replies(replies, master);
            &&& stage matches NativeStage::Probe(i) ==> i < required_tools().len()
            &&& replies_left(stage) + replies.len() <= 23 || replies_left(stage) == 0
        }),
    decreases replies.len(),
{
    if replies.len() > 0 {
        replies_run_out(replies.drop_last(), master);
    }
}

/// A native build is over, done or failed, after at most 23 replies.
pub proof fn native_build_is_over(replies: Seq<(bool, bool)>, master: bool)
    requires
        replies.len() >= 23,
    ensures
        stage_after_replies(replies, master) is Done || stage_after_replies(
            replies,
            master,
        ) is Failed,
{
    replies_run_out(replies, master);
}

/// The step of the log that a stage belongs to, from one to six; the end counts
/// as a seventh.
pub open spec fn log_step(stage: NativeStage) -> nat {
    match stage {
        NativeStage::Probe(_) => 1,
        NativeStage::UpdateIndex | NativeStage::InstallPackages | NativeStage::InstallWithSudo => 1,
        NativeStage::MakeWorkDir => 2,
        NativeStage::FindSources | NativeStage::Pull | NativeStage::Clone => 3,
        NativeStage::FindScript | NativeStage::InstallToolchain => 4,
        NativeStage::FindArch | NativeStage::CopyArch | NativeStage::WriteScript => 5,
        NativeStage::AllowScript | NativeStage::RunScript => 5,
        NativeStage::FindBinary | NativeStage::MeasureBinary => 6,
        NativeStage::Done | NativeStage::Failed => 7,
    }
}

/// A native build takes its six steps in order and skips none: it stays in a
/// step, goes on to the next one, or fails.
pub proof fn native_steps_in_order(stage: NativeStage, bad: bool, all_tools: bool, master: bool)
    ensures
        ({
            let next = next_stage(stage, bad, all_tools, master);
            next is Failed || log_step(next) == log_step(stage) || log_step(next) == log_step(
                stage,
            ) + 1
        }),
{
}

/// A native build fails only where an action came to nothing, and never for
/// want of a tool or of the finished binary.
pub proof fn native_build_fails_on_bad_replies(
    stage: NativeStage,
    bad: bool,
    all_tools: bool,
    master: bool,
)
    requires
        !(stage is Failed),
        next_stage(stage, bad, all_tools, master) is Failed,
    ensures
        bad,
        !(stage is Probe),
        !(stage is FindBinary),
{
}

/// The stages whose action has to succeed.
pub open spec fn has_to_succeed(stage: NativeStage) -> bool {
    ||| stage is UpdateIndex
    ||| stage is MakeWorkDir
    ||| stage is Pull
    ||| stage is Clone
    ||| stage is FindScript
    ||| stage is InstallToolchain
    ||| stage is CopyArch
    ||| stage is WriteScript
    ||| stage is AllowScript
    ||| stage is RunScript
}

/// A native build fails where an action that has to succeed came to nothing,
/// for releases and for the development branch alike, and nowhere else; what
/// failed stays failed.
pub proof fn native_build_needs_its_steps(
    stage: NativeStage,
    bad: bool,
    all_tools: bool,
    master: bool,
)
    ensures
        next_stage(stage, bad, all_tools, master) is Failed <==> stage is Failed || (bad
            && has_to_succeed(stage)),
{
}

/// The reply to a stage came, and was good.
pub open spec fn went_well(
    replies: Seq<(bool, bool)>,
    master: bool,
    stage: NativeStage,
) -> bool {
    exists|k: int|
        0 <= k < replies.len() && #[trigger] stage_after_replies(replies.take(k), master) == stage
            && !replies[k].0
}

proof fn what_went_well_stays(
    replies: Seq<(bool, bool)>,
    master: bool,
    stage: NativeStage,
)
    requires
        replies.len() > 0,
        went_well(replies.drop_last(), master, stage),
    ensures
        went_well(replies, master, stage),
{
    let before = replies.drop_last();
    let k = choose|k: int|
        0 <= k < before.len() && #[trigger] stage_after_replies(before.take(k), master) == stage
            && !before[k].0;
    assert(before.take(k) =~= replies.take(k));
    assert(stage_after_replies(replies.take(k), master) == stage);
}

proof fn later_stages_need_the_earlier(replies: Seq<(bool, bool)>, master: bool)
    ensures
        ({
            let stage = stage_after_replies(replies, master);
            !(stage is Failed) ==> {
                &&& replies_left(stage) < 12 ==> went_well(replies, master, NativeStage::MakeWorkDir)
                &&& replies_left(stage) < 10 ==> went_well(replies, master, NativeStage::Pull)
                    || went_well(replies, master, NativeStage::Clone)
                &&& replies_left(stage) < 9 ==> went_well(replies, master, NativeStage::FindScript)
                &&& replies_left(stage) < 8 ==> went_well(
                    replies,
                    master,
                    NativeStage::InstallToolchain,
                )
                &&& replies_left(stage) < 5 ==> went_well(replies, master, NativeStage::WriteScript)
                &&& replies_left(stage) < 4 ==> went_well(replies, master, NativeStage::AllowScript)
                &&& replies_left(stage) < 3 ==> went_well(replies, master, NativeStage::RunScript)
            }
        }),
    decreases replies.len(),
{
    replies_run_out(replies, master);
    if replies.len() > 0 {
        let before = replies.drop_last();
        replies_run_out(before, master);
        later_stages_need_the_earlier(before, master);
        assert(replies.take(replies.len() - 1) =~= before);
        let last = replies.len() - 1;
        let stage = stage_after_replies(before, master);
        assert(stage_after_replies(replies.take(last), master) == stage);
        assert(replies[last] == replies.last());
        assert(!replies.last().0 ==> went_well(replies, master, stage));
        assert forall|s: NativeStage| went_well(before, master, s) implies #[trigger] went_well(
            replies,
            master,
            s,
        ) by {
            what_went_well_stays(replies, master, s);
        }
    }
}

/// A native build is done only where its working directory was made, its sources
/// were fetched, its toolchain was found and installed, and its build script was
/// written, allowed to run, and run, all with success.
pub proof fn native_build_is_done_where_its_steps_went_well(
    replies: Seq<(bool, bool)>,
    master: bool,
)
    requires
        stage_after_replies(replies, master) is Done,
    ensures
        went_well(replies, master, NativeStage::MakeWorkDir),
        went_well(replies, master, NativeStage::Pull) || went_well(
            replies,
            master,
            NativeStage::Clone,
        ),
        went_well(replies, master, NativeStage::FindScript),
        went_well(replies, master, NativeStage::InstallToolchain),
        went_well(replies, master, NativeStage::WriteScript),
        went_well(replies, master, NativeStage::AllowScript),
        went_well(replies, master, NativeStage::RunScript),
{
    later_stages_need_the_earlier(replies, master);
}

/// Every tool is probed, one behind the other, whatever the replies are; after the
/// last one packages are installed where a tool is missing, and only there.
pub proof fn every_tool_is_probed(i: usize, bad: bool, all_tools: bool, master: bool)
    requires
        i < required_tools().len(),
    ensures
        i + 1 < required_tools().len() ==> next_stage(
            NativeStage::Probe(i),
            bad,
            all_tools,
            master,
        ) == NativeStage::Probe((i + 1) as usize),
        i + 1 == required_tools().len() ==> (next_stage(
            NativeStage::Probe(i),
            bad,
            all_tools,
            master,
        ) is UpdateIndex <==> !all_tools) && (next_stage(
            NativeStage::Probe(i),
            bad,
            all_tools,
            master,
        ) is MakeWorkDir <==> all_tools),
{
}

/// What is built, and which tools are missing, decides nothing but this: a
/// release looks for its architecture file behind the toolchain, and the
/// development branch does not; missing tools are installed behind the probes.
pub proof fn stages_depend_on_few_things(
    stage: NativeStage,
    bad: bool,
    tools: bool,
    other_tools: bool,
    master: bool,
    other_master: bool,
)
    ensures
        !(stage is InstallToolchain) ==> next_stage(stage, bad, tools, master) == next_stage(
            stage,
            bad,
            tools,
            other_master,
        ),
        !(stage is Probe) ==> next_stage(stage, bad, tools, master) == next_stage(
            stage,
            bad,
            other_tools,
            master,
        ),
        next_stage(NativeStage::InstallToolchain, bad, tools, master) is FindArch <==> !bad
            && !master,
        next_stage(NativeStage::InstallToolchain, bad, tools, master) is WriteScript <==> !bad
            && master,
{
}

/// What a bad reply decides where it does not end the build: packages are
/// installed with `sudo`, sources are cloned instead of pulled, no architecture
/// file is copied, and no binary is measured.
pub proof fn other_bad_replies_choose_the_way(
    stage: NativeStage,
    bad: bool,
    tools: bool,
    master: bool,
)
    ensures
        stage is InstallPackages ==> (next_stage(stage, bad, tools, master) is InstallWithSudo
            <==> bad) && (next_stage(stage, bad, tools, master) is MakeWorkDir <==> !bad),
        stage is FindSources ==> (next_stage(stage, bad, tools, master) is Clone <==> bad) && (
        next_stage(stage, bad, tools, master) is Pull <==> !bad),
        stage is FindArch ==> (next_stage(stage, bad, tools, master) is CopyArch <==> !bad) && (
        next_stage(stage, bad, tools, master) is WriteScript <==> bad),
        stage is FindBinary ==> (next_stage(stage, bad, tools, master) is MeasureBinary <==> !bad)
            && (next_stage(stage, bad, tools, master) is Done <==> bad),
        stage is InstallWithSudo ==> next_stage(stage, bad, tools, master) is MakeWorkDir,
        stage is MeasureBinary || stage is Done ==> next_stage(stage, bad, tools, master) is Done,
        !bad && stage is UpdateIndex ==> next_stage(stage, bad, tools, master) is InstallPackages,
        !bad && stage is MakeWorkDir ==> next_stage(stage, bad, tools, master) is FindSources,
        !bad && (stage is Pull || stage is Clone) ==> next_stage(
            stage,
            bad,
            tools,
            master,
        ) is FindScript,
        !bad && stage is FindScript ==> next_stage(stage, bad, tools, master) is InstallToolchain,
        !bad && stage is CopyArch ==> next_stage(stage, bad, tools, master) is WriteScript,
        !bad && stage is WriteScript ==> next_stage(stage, bad, tools, master) is AllowScript,
        !bad && stage is AllowScript ==> next_stage(stage, bad, tools, master) is RunScript,
        !bad && stage is RunScript ==> next_stage(stage, bad, tools, master) is FindBinary,
{
}

/// The tool that is probed is missing where the reply is bad, and then alone; no
/// other reply changes what is missing.
pub proof fn bad_probes_are_missing_tools(build: NativeBuild, reply: NativeReply)
    requires
        build.well_formed(),
    ensures
        build.stage is Probe && reply is Bad ==> NativeActionView::Probe(
            build.missing_after(reply).last(),
        ) == action_at(
            build.stage,
            build.config,
            texts(build.missing@),
            build.complaint@,
            build.separator@,
        ) && build.missing_after(reply).drop_last() == texts(build.missing@)
            && build.missing_after(reply).len() == texts(build.missing@).len() + 1,
        !(build.stage is Probe) || !(reply is Bad) ==> build.missing_after(reply) == texts(
            build.missing@,
        ),
{
    if build.stage is Probe && reply is Bad {
        assert(build.missing_after(reply).drop_last() =~= texts(build.missing@));
    }
}

/// The tools that are probed are the eight that are required, in their order,
/// each under its place.
pub proof fn probes_follow_the_list(
    i: usize,
    config: BuildConfig,
    missing: Seq<Seq<char>>,
    complaint: Seq<char>,
    sep: Seq<char>,
)
    requires
        i < 8,
    ensures
        required_tools().len() == 8,
        action_at(NativeStage::Probe(i), config, missing, complaint, sep)
            == NativeActionView::Probe(
            seq![
                "gcc"@,
                "g++"@,
                "gfortran"@,
                "git"@,
                "make"@,
                "cmake"@,
                "wget"@,
                "bunzip2"@,
            ][i as int],
        ),
{
}

/// Every missing tool is among the packages that are installed, and among those
/// that are named to `sudo`.
pub proof fn missing_tools_are_installed(
    i: int,
    config: BuildConfig,
    missing: Seq<Seq<char>>,
    complaint: Seq<char>,
    sep: Seq<char>,
)
    requires
        0 <= i < missing.len(),
    ensures
        action_at(NativeStage::InstallPackages, config, missing, complaint, sep) matches
            NativeActionView::Run { program, args, workdir } && program == "apt-get"@ && workdir
            is None && args.contains(missing[i]) && args[0] == "install"@ && args.len() == 16
            + missing.len(),
        action_at(NativeStage::InstallWithSudo, config, missing, complaint, sep) matches
            NativeActionView::Run { program, args, workdir } && program == "sudo"@ && workdir
            is None && args.len() == 5 && args[0] == "apt-get"@ && args[1] == "install"@
            && args[4] == joined(missing, " "@) && occurs(args[4], missing[i]),
{
    let args = seq!["install"@, "-qq"@, "--no-install-recommends"@, "-y"@] + missing
        + extra_packages();
    assert(args[4 + i] == missing[i]);
    crate::text::joined_holds_its_parts(missing, " "@, i);
}

/// The sources that are looked for are those that are pulled or cloned, and the
/// toolchain script, the build script and the binary lie among them.
pub proof fn native_paths_agree(
    config: BuildConfig,
    missing: Seq<Seq<char>>,
    complaint: Seq<char>,
    sep: Seq<char>,
)
    ensures
        ({
            let at = |stage: NativeStage| action_at(stage, config, missing, complaint, sep);
            let sources = at(NativeStage::FindSources)->Exists_0;
            let script = at(NativeStage::FindScript)->Exists_0;
            let binary = at(NativeStage::FindBinary)->Exists_0;
            let arch = at(NativeStage::FindArch)->Exists_0;
            &&& at(NativeStage::MakeWorkDir) == NativeActionView::MakeDir(WORK_DIR@)
            &&& at(NativeStage::FindSources) == NativeActionView::Exists(sources)
            &&& sources == WORK_DIR@ + sep + "cp2k"@
            &&& at(NativeStage::Pull) == run_here("git"@, seq!["-C"@, sources, "pull"@])
            &&& at(NativeStage::Clone) matches NativeActionView::Run { program, args, workdir }
                && program == "git"@ && args.last() == sources && workdir is None
            &&& at(NativeStage::FindScript) == NativeActionView::Exists(script)
            &&& at(NativeStage::InstallToolchain) matches NativeActionView::Run {
                program,
                args,
                workdir,
            } && program == "bash"@ && args[0] == script && workdir == Some(
                sources + sep + "tools"@ + sep + "toolchain"@,
            ) && script == workdir->0 + sep + "install_cp2k_toolchain.sh"@
            &&& at(NativeStage::FindArch) == NativeActionView::Exists(arch)
            &&& at(NativeStage::CopyArch) matches NativeActionView::Copy { from, to } && from == arch
                && to == sources + sep + "arch"@ + sep + arch_file_name(config)
            &&& at(NativeStage::WriteScript) matches NativeActionView::Write { path, content }
                && path == sources + sep + "build_native.sh"@ && at(NativeStage::AllowScript)
                == NativeActionView::AllowExecution(path) && at(NativeStage::RunScript)
                == (NativeActionView::Run {
                program: "bash"@,
                args: seq![path],
                workdir: Some(sources),
            })
            &&& at(NativeStage::FindBinary) == NativeActionView::Exists(binary)
            &&& at(NativeStage::MeasureBinary) == NativeActionView::Measure(binary)
            &&& at(NativeStage::Done) == NativeActionView::Finish
            &&& at(NativeStage::Failed) == NativeActionView::Fail(complaint)
        }),
{
    assert(clone_args(config.version@, sep).last() == sources_dir(sep));
}

/// The finished binary is named by its variant, and lies in the directory that is
/// to be added to the path: that of the installation for the development branch,
/// that of the architecture for a release.
pub proof fn binary_lies_in_its_directory(config: BuildConfig, sep: Seq<char>)
    ensures
        config.version@ != "master"@ ==> binary_path(config, sep) == binary_dir(config, sep) + sep
            + ("cp2k."@ + config.variant@),
        config.version@ == "master"@ ==> binary_path(config, sep) == binary_dir(config, sep) + "/"@
            + ("cp2k."@ + config.variant@),
        config.version@ == "master"@ ==> binary_dir(config, sep) == "/opt/cp2k/install/bin"@,
        config.version@ != "master"@ && config.cuda@ == "none"@ ==> binary_dir(config, sep)
            == sources_dir(sep) + sep + "exe"@ + sep + "local"@,
        config.version@ != "master"@ && config.cuda@ != "none"@ ==> binary_dir(config, sep)
            == sources_dir(sep) + sep + "exe"@ + sep + "local_cuda"@,
{
    reveal_strlit("/opt/cp2k/install/bin/cp2k.");
    reveal_strlit("/opt/cp2k/install/bin");
    reveal_strlit("/");
    reveal_strlit("cp2k.");
    assert("/opt/cp2k/install/bin/cp2k."@ =~= "/opt/cp2k/install/bin"@ + "/"@ + "cp2k."@);
    if config.version@ == "master"@ {
        assert(binary_path(config, sep) =~= binary_dir(config, sep) + "/"@ + ("cp2k."@
            + config.variant@));
    }
}

/// The architecture file of a release tells its GPU and its variant, wherever it
/// lies.
pub proof fn architecture_file_tells_its_build(config: BuildConfig, sep: Seq<char>)
    ensures
        config.cuda@ == "none"@ ==> arch_file_name(config) == "local"@ + "."@ + config.variant@,
        config.cuda@ != "none"@ ==> arch_file_name(config) == "local_cuda"@ + "."@ + config.variant@,
        arch_file(config, sep) == toolchain_dir(sep) + sep + "install"@ + sep + "arch"@ + sep
            + arch_file_name(config),
{
}

/// The sources of a release are cloned from its branch, and those of the
/// development branch from none; the submodules come along, and the sources go to
/// their directory.
pub proof fn clones_take_their_branch(version: Seq<char>, sep: Seq<char>)
    ensures
        version != "master"@ ==> clone_args(version, sep) == seq![
            "clone"@,
            "--recursive"@,
            "-b"@,
            "support/v"@ + version,
            CLONE_URL@,
            sources_dir(sep),
        ],
        version == "master"@ ==> clone_args(version, sep) == seq![
            "clone"@,
            "--recursive"@,
            CLONE_URL@,
            sources_dir(sep),
        ],
{
    if version != "master"@ {
        assert(clone_args(version, sep) =~= seq![
            "clone"@,
            "--recursive"@,
            "-b"@,
            "support/v"@ + version,
            CLONE_URL@,
            sources_dir(sep),
        ]);
    } else {
        assert(clone_args(version, sep) =~= seq![
            "clone"@,
            "--recursive"@,
            CLONE_URL@,
            sources_dir(sep),
        ]);
    }
}

/// The installation of the toolchain is told the number of jobs, the GPU, the CPU
/// target and the MPI implementation of the configuration, whatever is built.
pub proof fn toolchain_is_told_its_options(config: BuildConfig, sep: Seq<char>)
    ensures
        ({
            let args = toolchain_args(config, sep);
            &&& args[0] == toolchain_script(sep)
            &&& gives(args, "-j"@, decimal(config.jobs as nat))
            &&& args.contains("--install-all"@)
            &&& args.contains("--target-cpu="@ + config.cpu@)
            &&& config.mpi@ == "openmpi"@ ==> args.last() == "--with-"@ + "openmpi"@ + "=system"@
            &&& config.mpi@ != "openmpi"@ ==> args.last() == "--with-"@ + "mpich"@ + "=system"@
            &&& config.cuda@ == "none"@ ==> args.len() == 10 && args[4] == "--enable-cuda=no"@
            &&& config.cuda@ != "none"@ ==> args.len() == 12 && args[4] == "--enable-cuda=yes"@
                && args[5] == "--gpu-ver="@ + config.cuda@ && args[6] == "--with-libtorch=no"@
            &&& args[args.len() - 5] == "--with-deepmd=no"@
            &&& args[args.len() - 3] == "--with-cusolvermp=no"@
            &&& args[args.len() - 2] == "--with-gcc=system"@
        }),
{
    let args = toolchain_args(config, sep);
    assert(args[1] == "-j"@);
    assert(args[2] == decimal(config.jobs as nat));
    assert(args[3] == "--install-all"@);
    assert(args[args.len() - 4] == "--target-cpu="@ + config.cpu@);
}

/// The build script sources the setup of the toolchain, builds with the jobs of
/// the configuration, and builds its variant for its architecture.
pub proof fn script_takes_its_configuration(config: BuildConfig, sep: Seq<char>)
    ensures
        ({
            let script = script_content(config, sep);
            let jobs = decimal(config.jobs as nat);
            let setup = toolchain_dir(sep) + sep + "install"@ + sep + "setup"@;
            &&& occurs(script, SCRIPT_OPEN@ + setup)
            &&& config.version@ != "master"@ ==> occurs(script, "\nmake -j "@ + jobs + " ARCH="@)
            &&& config.version@ != "master"@ && config.cuda@ == "none"@ ==> occurs(
                script,
                " ARCH="@ + "local"@ + " VERSION="@,
            )
            &&& config.version@ != "master"@ && config.cuda@ != "none"@ ==> occurs(
                script,
                " ARCH="@ + "local_cuda"@ + " VERSION="@,
            )
            &&& config.version@ != "master"@ ==> occurs(
                script,
                " VERSION="@ + config.variant@ + SCRIPT_MAKE_END@,
            )
            &&& config.version@ == "master"@ ==> occurs(
                script,
                SCRIPT_NINJA@ + jobs + SCRIPT_CMAKE_END@,
            )
            &&& config.version@ == "master"@ && (config.variant@ == "ssmp"@ || config.variant@
                == "sdbg"@) ==> occurs(script, "    -DCP2K_USE_MPI=OFF \\\n"@)
            &&& config.version@ == "master"@ && (config.variant@ == "pdbg"@ || config.variant@
                == "sdbg"@) ==> occurs(script, "    -DCMAKE_BUILD_TYPE=Debug \\\n"@)
        }),
{
    broadcast use {occurs_in_longer, occurs_behind};

    let jobs = decimal(config.jobs as nat);
    let setup = toolchain_dir(sep) + sep + "install"@ + sep + "setup"@;
    pair_occurs(Seq::empty(), SCRIPT_OPEN@, setup);
    assert(Seq::<char>::empty() + SCRIPT_OPEN@ + setup =~= SCRIPT_OPEN@ + setup);
    if config.version@ != "master"@ {
        triple_occurs(SCRIPT_OPEN@ + setup, "\nmake -j "@, jobs, " ARCH="@);
        let front = SCRIPT_OPEN@ + setup + "\nmake -j "@ + jobs;
        triple_occurs(front, " ARCH="@, arch_of(config.cuda@), " VERSION="@);
        triple_occurs(
            front + " ARCH="@ + arch_of(config.cuda@),
            " VERSION="@,
            config.variant@,
            SCRIPT_MAKE_END@,
        );
    } else {
        let options = cmake_options(config.variant@);
        let front = SCRIPT_OPEN@ + setup + SCRIPT_CMAKE@ + options;
        triple_occurs(front, SCRIPT_NINJA@, jobs, SCRIPT_CMAKE_END@);
        let mpi = "    -DCP2K_USE_MPI=OFF \\\n"@;
        let kind = "    -DCMAKE_BUILD_TYPE=Debug \\\n"@;
        crate::text::middle_occurs(Seq::empty(), mpi, Seq::empty());
        crate::text::middle_occurs(Seq::empty(), kind, Seq::empty());
        assert(Seq::<char>::empty() + mpi + Seq::empty() =~= mpi);
        assert(Seq::<char>::empty() + kind + Seq::empty() =~= kind);
        if config.variant@ == "ssmp"@ || config.variant@ == "sdbg"@ {
            assert(occurs(options, mpi));
        }
        if config.variant@ == "pdbg"@ || config.variant@ == "sdbg"@ {
            assert(occurs(options, kind));
        }
    }
}

/// The build scripts of two configurations differ in the number of jobs, the
/// variant and the architecture alone; the version decides only which of the two
/// builds it is.
pub proof fn scripts_differ_in_their_settings(a: BuildConfig, b: BuildConfig, sep: Seq<char>)
    requires
        (a.version@ == "master"@) == (b.version@ == "master"@),
    ensures
        a.cuda@ == b.cuda@ && a.variant@ == b.variant@ ==> same_form(
            script_content(a, sep),
            script_content(b, sep),
            decimal(a.jobs as nat),
            decimal(b.jobs as nat),
        ) && script_content(a, sep).len() - decimal(a.jobs as nat).len() == script_content(
            b,
            sep,
        ).len() - decimal(b.jobs as nat).len(),
        a.cuda@ == b.cuda@ && a.jobs == b.jobs && a.version@ != "master"@ ==> same_form(
            script_content(a, sep),
            script_content(b, sep),
            a.variant@,
            b.variant@,
        ) && script_content(a, sep).len() - a.variant@.len() == script_content(b, sep).len()
            - b.variant@.len(),
        a.variant@ == b.variant@ && a.jobs == b.jobs && a.version@ == "master"@ ==> script_content(
            a,
            sep,
        ) == script_content(b, sep),
        (a.cuda@ == "none"@) == (b.cuda@ == "none"@) && a.variant@ == b.variant@ && a.jobs == b.jobs
            ==> script_content(a, sep) == script_content(b, sep),
{
    broadcast use {same_form_joins, same_form_of_itself, same_form_of_values};

}

/// A native build says why it failed: what came back stands in its complaint,
/// but where the working directory or the toolchain script is wanting; there the
/// complaint names the directory, or the script that was looked for.
pub proof fn failures_tell_their_reason(stage: NativeStage, reason: Seq<char>, sep: Seq<char>)
    ensures
        stage is MakeWorkDir ==> failure_text(stage, reason, sep)
            == "Failed to create /opt/cp2k_build"@,
        stage is FindScript ==> failure_text(stage, reason, sep) == "Toolchain script not found at "@
            + toolchain_script(sep),
        stage is InstallToolchain ==> failure_text(stage, reason, sep)
            == "Toolchain installation failed: "@ + reason,
        stage is AllowScript ==> failure_text(stage, reason, sep) == "Cannot chmod +x "@
            + build_script(sep) + ": "@ + reason,
        !(stage is MakeWorkDir) && !(stage is FindScript) && !(stage is InstallToolchain) && !(
        stage is AllowScript) ==> failure_text(stage, reason, sep) == reason,
        !(stage is MakeWorkDir) && !(stage is FindScript) ==> occurs(
            failure_text(stage, reason, sep),
            reason,
        ),
{
    broadcast use {occurs_in_longer, occurs_behind};

    crate::text::middle_occurs(Seq::empty(), reason, Seq::empty());
    assert(Seq::<char>::empty() + reason + Seq::empty() =~= reason);
}

/// The heading of a step in the log.
pub open spec fn step_heading(step: nat) -> Seq<char> {
    if step == 2 {
        "📋 Step 2/6: Setting up working directory..."@
    } else if step == 3 {
        "📋 Step 3/6: Cloning CP2K source..."@
    } else if step == 4 {
        "📋 Step 4/6: Installing CP2K toolchain dependencies..."@
    } else if step == 5 {
        "📋 Step 5/6: Building CP2K..."@
    } else if step == 6 {
        "📋 Step 6/6: Verifying installation..."@
    } else {
        "📋 Step 1/6: Checking system prerequisites..."@
    }
}

/// Every step is announced when it is entered, and the end of the build when it is
/// reached; a build that fails says nothing more.
pub proof fn steps_are_announced(
    stage: NativeStage,
    bad: bool,
    size: nat,
    config: BuildConfig,
    missing: Seq<Seq<char>>,
    sep: Seq<char>,
    master: bool,
)
    requires
        stage matches NativeStage::Probe(i) ==> i < required_tools().len(),
        !(stage is Done),
        !(stage is Failed),
    ensures
        ({
            let next = next_stage(stage, bad, missing.len() == 0, master);
            let notes = notes_after(stage, bad, size, config, missing, sep);
            &&& next is Failed ==> notes.len() == 0
            &&& next is Done ==> notes.last() == said("✅ Native build completed!"@)
            &&& !(next is Failed) && !(next is Done) && log_step(next) != log_step(stage)
                ==> notes.contains(said(step_heading(log_step(next))))
            &&& native_header(config).last() == said(step_heading(1))
        }),
{
    let next = next_stage(stage, bad, missing.len() == 0, master);
    let notes = notes_after(stage, bad, size, config, missing, sep);
    match stage {
        NativeStage::Probe(i) => {
            if next is MakeWorkDir {
                assert(notes[2] == said(step_heading(2)));
            }
        },
        NativeStage::InstallPackages | NativeStage::InstallWithSudo => {
            if next is MakeWorkDir {
                assert(notes[1] == said(step_heading(2)));
            }
        },
        NativeStage::MakeWorkDir => {
            if !bad {
                assert(notes[2] == said(step_heading(3)));
            }
        },
        NativeStage::Pull | NativeStage::Clone => {
            if !bad {
                assert(notes[1] == said(step_heading(4)));
            }
        },
        NativeStage::InstallToolchain | NativeStage::RunScript => {
            if !bad {
                assert(notes[1] == said(step_heading(log_step(next))));
            }
        },
        NativeStage::FindBinary => {
            if bad {
                assert(notes.last() == closing_notes().last());
            }
        },
        NativeStage::MeasureBinary => {
            assert(notes.last() == closing_notes().last());
        },
        _ => {},
    }
}

/// What a native build logs depends on the configuration and the size only where
/// the finished binary is shown, and on the missing tools only behind the last
/// probe.
pub proof fn notes_depend_on_few_things(
    stage: NativeStage,
    bad: bool,
    sizes: (nat, nat),
    configs: (BuildConfig, BuildConfig),
    missing: (Seq<Seq<char>>, Seq<Seq<char>>),
    seps: (Seq<char>, Seq<char>),
)
    ensures
        !(stage is MeasureBinary) ==> notes_after(stage, bad, sizes.0, configs.0, missing.0, seps.0)
            == notes_after(stage, bad, sizes.1, configs.1, missing.0, seps.1),
        !(stage is Probe) ==> notes_after(stage, bad, sizes.0, configs.0, missing.0, seps.0)
            == notes_after(stage, bad, sizes.0, configs.0, missing.1, seps.0),
        stage is MeasureBinary || stage is InstallWithSudo || stage is Probe ==> notes_after(
            stage,
            bad,
            sizes.0,
            configs.0,
            missing.0,
            seps.0,
        ) == notes_after(stage, !bad, sizes.0, configs.0, missing.0, seps.0),
{
}

/// Behind the last probe the log names every missing tool, as an error, or says
/// that none is missing; a binary that is not found is an error too.
pub proof fn missing_tools_are_logged(
    i: usize,
    bad: bool,
    size: nat,
    config: BuildConfig,
    missing: Seq<Seq<char>>,
    sep: Seq<char>,
)
    requires
        i < required_tools().len(),
    ensures
        ({
            let notes = notes_after(NativeStage::Probe(i), bad, size, config, missing, sep);
            &&& i + 1 < required_tools().len() ==> notes.len() == 0
            &&& i + 1 == required_tools().len() && missing.len() == 0 ==> notes[0] == said(
                "   ✅ All required tools found"@,
            ) && notes.len() == 3
            &&& i + 1 == required_tools().len() && missing.len() > 0 ==> notes[0].1 && notes.len()
                == 2 && notes[0].0 == "   Missing: "@ + joined(missing, ", "@) && !notes[1].1
            &&& i + 1 == required_tools().len() ==> forall|k: int|
                0 <= k < missing.len() ==> occurs(notes[0].0, #[trigger] missing[k])
        }),
        ({
            let notes = notes_after(NativeStage::FindBinary, true, size, config, missing, sep);
            notes[0].1 && notes.len() == 3
        }),
        ({
            let notes = notes_after(NativeStage::InstallPackages, true, size, config, missing, sep);
            notes[0].1 && notes.len() == 1
        }),
{
    broadcast use {occurs_in_longer, occurs_behind};

    assert forall|k: int| 0 <= k < missing.len() implies occurs(
        "   Missing: "@ + joined(missing, ", "@),
        #[trigger] missing[k],
    ) by {
        crate::text::joined_holds_its_parts(missing, ", "@, k);
    }
}

/// The log shows the binary that was measured, its size in whole mebibytes, and
/// the directory that holds it.
pub proof fn finished_binary_is_shown(
    bad: bool,
    size: nat,
    config: BuildConfig,
    missing: Seq<Seq<char>>,
    complaint: Seq<char>,
    sep: Seq<char>,
)
    ensures
        ({
            let notes = notes_after(NativeStage::MeasureBinary, bad, size, config, missing, sep);
            &&& notes.len() == 7
            &&& forall|k: int| 0 <= k < 7 ==> !(#[trigger] notes[k]).1
            &&& action_at(NativeStage::MeasureBinary, config, missing, complaint, sep) matches
                NativeActionView::Measure(path) && notes[0].0 == "   ✅ CP2K built successfully: "@
                + path
            &&& notes[1].0 == "   Binary size: "@ + decimal(mebibytes(size)) + " MB"@
            &&& notes[4].0 == "      export PATH="@ + binary_dir(config, sep) + ":$PATH"@
        }),
        mebibytes(size) * 1_048_576 <= size < (mebibytes(size) + 1) * 1_048_576,
{
}

/// The first notes of a native build show its configuration, each value as it is.
pub proof fn native_header_shows_the_configuration(config: BuildConfig)
    ensures
        ({
            let notes = native_header(config);
            &&& notes.len() == 10
            &&& forall|k: int| 0 <= k < 10 ==> !(#[trigger] notes[k]).1
            &&& notes[0].0 == "🔨 Forge2K Native Build v"@ + VERSION@
            &&& notes[1].0 == "   Method:    native"@
            &&& notes[2].0 == "   Version:   "@ + config.version@
            &&& notes[3].0 == "   MPI:       "@ + config.mpi@
            &&& notes[4].0 == "   CPU:       "@ + config.cpu@
            &&& notes[5].0 == "   CUDA:      "@ + config.cuda@
            &&& notes[6].0 == "   Variant:   "@ + config.variant@
            &&& notes[7].0 == "   Jobs:      "@ + decimal(config.jobs as nat)
        }),
{
}

/// A reply is bad where it says so; its reason and its size are what it carries.
pub proof fn replies_say_what_they_carry(reply: NativeReply)
    ensures
        reply.is_bad() <==> reply is Bad,
        reply matches NativeReply::Bad(why) ==> reply.reason() == why@,
        reply matches NativeReply::Size(n) ==> reply.size() == n,
        reply is Good ==> reply.reason().len() == 0 && reply.size() == 0,
{
}

/// An action says what it holds.
pub proof fn native_actions_say_what_they_hold(action: NativeAction)
    ensures
        action matches NativeAction::Probe(tool) ==> action@ == NativeActionView::Probe(tool@),
        action matches NativeAction::Run { program, args, workdir } ==> (action@
            matches NativeActionView::Run { program: p, args: a, workdir: w } && p == program@ && a
            == texts(args@) && (w is Some <==> workdir is Some) && (workdir is Some ==> w->0
            == workdir->0@)),
        action matches NativeAction::MakeDir(path) ==> action@ == NativeActionView::MakeDir(path@),
        action matches NativeAction::Exists(path) ==> action@ == NativeActionView::Exists(path@),
        action matches NativeAction::Copy { from, to } ==> action@ == (NativeActionView::Copy {
            from: from@,
            to: to@,
        }),
        action matches NativeAction::Write { path, content } ==> action@ == (
        NativeActionView::Write { path: path@, content: content@ }),
        action matches NativeAction::AllowExecution(path) ==> action@
            == NativeActionView::AllowExecution(path@),
        action matches NativeAction::Measure(path) ==> action@ == NativeActionView::Measure(path@),
        action is Finish ==> action@ is Finish,
        action matches NativeAction::Fail(why) ==> action@ == NativeActionView::Fail(why@),
{
}

/// The packages that come along with missing tools are those of the toolchain, in
/// one order, whatever is missing.
pub proof fn toolchain_packages_come_along(
    config: BuildConfig,
    missing: Seq<Seq<char>>,
    complaint: Seq<char>,
    sep: Seq<char>,
)
    ensures
        action_at(NativeStage::InstallPackages, config, missing, complaint, sep) matches
            NativeActionView::Run { program, args, workdir } && args == seq![
            "install"@,
            "-qq"@,
            "--no-install-recommends"@,
            "-y"@,
        ] + missing + seq![
            "autoconf"@,
            "autogen"@,
            "automake"@,
            "libtool"@,
            "libtool-bin"@,
            "ninja-build"@,
            "pkg-config"@,
            "python3-dev"@,
            "python3-pip"@,
            "xxd"@,
            "xz-utils"@,
            "zlib1g-dev"@,
        ],
        action_at(NativeStage::UpdateIndex, config, missing, complaint, sep) == run_here(
            "apt-get"@,
            seq!["update"@, "-qq"@],
        ),
        action_at(NativeStage::InstallWithSudo, config, missing, complaint, sep) == run_here(
            "sudo"@,
            seq!["apt-get"@, "install"@, "-qq"@, "-y"@, joined(missing, " "@)],
        ),
        run_here("git"@, missing) == (NativeActionView::Run {
            program: "git"@,
            args: missing,
            workdir: None,
        }),
{
}

} // verus!
