//! The Dockerfiles of CP2K images.

use crate::config::dockerfile_file_name;
use crate::config::file_name_for;
use crate::config::BuildConfig;
use crate::config::GeneratedDockerfile;
use crate::text::occurrence_is_by_characters;
use crate::text::occurs;
use crate::text::occurs_at;
use crate::text::occurs_behind;
use crate::text::occurs_in_longer;
use crate::text::pair_occurs;
use crate::text::same;
use crate::text::same_form;
use crate::text::same_form_joins;
use crate::text::same_form_of_itself;
use crate::text::same_form_of_values;
use crate::text::triple_occurs;
use vstd::prelude::*;

verus! {

/// The first lines of a Spack image, up to the base image.
pub const SPACK_HEADER: &'static str = r#"#
# Dockerfile generated by Forge2K
# Inspired by github.com/cp2k/cp2k-containers
#

"#;

/// The system packages of the build stage of a Spack image.
pub const SPACK_PACKAGES: &'static str = r#" AS build_cp2k

RUN apt-get update -qq && apt-get install -qq --no-install-recommends \
    g++ gcc gfortran python3 autoconf automake bzip2 ca-certificates cmake git \
    less libncurses-dev libssh-dev libssl-dev libtool-bin lsb-release make \
    ninja-build openssh-client patch pkgconf python3-dev python3-pip \
    python3-venv unzip wget xxd xz-utils zlib1g-dev zstd \
    && rm -rf /var/lib/apt/lists/*

"#;

/// The installation of Spack, up to the variant of the binary.
pub const SPACK_INSTALL: &'static str = r#"

ARG NUM_PROCS=16
ENV NUM_PROCS=${NUM_PROCS}
ARG SPACK_VERSION=1.0.0
ARG SPACK_PACKAGES_VERSION=2025.07.0
ENV SPACK_VERSION=${SPACK_VERSION}
ENV SPACK_PACKAGES_VERSION=${SPACK_PACKAGES_VERSION}

RUN mkdir -p /opt/spack-${SPACK_VERSION} && \
    wget -q https://github.com/spack/spack/archive/v${SPACK_VERSION}.tar.gz && \
    tar -xzf v${SPACK_VERSION}.tar.gz -C /opt && \
    rm -f v${SPACK_VERSION}.tar.gz && \
    mkdir -p /opt/spack-packages-${SPACK_PACKAGES_VERSION} && \
    wget -q https://github.com/spack/spack-packages/archive/v${SPACK_PACKAGES_VERSION}.tar.gz && \
    tar -xzf v${SPACK_PACKAGES_VERSION}.tar.gz -C /opt && \
    rm -f v${SPACK_PACKAGES_VERSION}.tar.gz

ENV PATH="/opt/spack-${SPACK_VERSION}/bin:${PATH}"
RUN spack repo add --scope site /opt/spack-packages-${SPACK_PACKAGES_VERSION}/repos/spack_repo/builtin
RUN spack compiler find
RUN spack external find --all --not-buildable

"#;

/// The packages of CP2K, up to the choice of the MPI implementation.
pub const SPACK_REPO: &'static str = r#"
ENV CP2K_VERSION=${CP2K_VERSION}

RUN cp -a /opt/cp2k/tools/spack/cp2k_dev_repo /opt/spack-packages-${SPACK_PACKAGES_VERSION}/repos/spack_repo && \
    spack repo add --scope site /opt/spack-packages-${SPACK_PACKAGES_VERSION}/repos/spack_repo/cp2k_dev_repo

"#;

/// The build of CP2K with Spack, up to the base image of the runtime stage.
pub const SPACK_BUILD: &'static str = r#"

RUN cat /opt/cp2k/tools/spack/cp2k_deps_all_${CP2K_VERSION}.yaml && \
    spack env create myenv /opt/cp2k/tools/spack/cp2k_deps_all_${CP2K_VERSION}.yaml

RUN spack -e myenv concretize -f
ENV SPACK_ENV_VIEW="/opt/spack-${SPACK_VERSION}/var/spack/environments/myenv/spack-env/view"
RUN spack -e myenv env depfile -o spack_makefile && \
    make -j${NUM_PROCS} -f spack_makefile

WORKDIR /opt/cp2k
RUN cp /opt/cp2k/tools/spack/spack_env_relocate.sh . && \
    cp /opt/spack-packages-${SPACK_PACKAGES_VERSION}/repos/spack_repo/cp2k_dev_repo/packages/cp2k/*.patch . && \
    cp /opt/spack-packages-${SPACK_PACKAGES_VERSION}/repos/spack_repo/cp2k_dev_repo/packages/cp2k/*.sh . && \
    bash -c "source /opt/spack-${SPACK_VERSION}/share/spack/setup-env.sh && \
             spack env activate myenv && \
             spack build-env -- spack install --source cp2k@${CP2K_VERSION}"

FROM "#;

/// The runtime stage of a Spack image, up to the variant of the binary.
pub const SPACK_RUNTIME: &'static str = r#" AS runtime
RUN apt-get update -qq && apt-get install -qq --no-install-recommends \
    g++ gcc gfortran ca-certificates libgomp1 libopenblas-dev \
    libmpich-dev libpython3-dev libstdc++-13-dev python3 python3-dev \
    && rm -rf /var/lib/apt/lists/*

COPY --from=build_cp2k /opt/cp2k/install /opt/cp2k
COPY --from=build_cp2k /opt/cp2k/exe /opt/cp2k/exe
COPY --from=build_cp2k /opt/cp2k/data /opt/cp2k/data
COPY --from=build_cp2k /opt/cp2k/tests /opt/cp2k/tests

RUN ln -sf "#;

/// The search path and the entry point of a Spack image.
pub const SPACK_ENTRY: &'static str = r#" /usr/local/bin/cp2k
ENV PATH="/opt/cp2k/exe/local:${PATH}"
ENV LD_LIBRARY_PATH="/opt/cp2k/lib:${LD_LIBRARY_PATH}"
WORKDIR /work
ENTRYPOINT ["cp2k"]
"#;

/// The start of the command that sets the CPU target of the Spack environment.
pub const TARGET_OPEN: &'static str = r#"RUN sed -e '/^\s*mpi:/i\      require: "#;

/// What follows the switch of the Spack environment from MPICH to Open MPI: the
/// options of Open MPI.
pub const SWITCH_OPTIONS: &'static str = r#"' \
    -e '/^\s*xpmem:/i\    openmpi:\n      require:\n        - +internal-hwloc' \
    -e '/^\s*- "mpich@/ s/^ /#/' \
    -e '/^#\s*- "openmpi@/ s/^#/ /' \
"#;

/// The end of that command: the file that describes the Spack environment.
pub const TARGET_FILE: &'static str = r#"    -i /opt/cp2k/tools/spack/cp2k_deps_all_${CP2K_VERSION}.yaml"#;

/// The first lines of a toolchain image, up to the base image.
pub const TOOLCHAIN_HEADER: &'static str = r#"#
# Dockerfile generated by Forge2K
# Inspired by github.com/cp2k/cp2k-containers
#

"#;

/// The system packages that the toolchain needs, up to the MPI library.
pub const TOOLCHAIN_PACKAGES: &'static str = r#"

RUN apt-get update -qq && apt-get install -qq --no-install-recommends \
    autoconf autogen automake autotools-dev \
    bzip2 ca-certificates \
    g++ gcc gfortran git less libtool libtool-bin \
    "#;

/// The system packages that the toolchain needs, behind the MPI implementation.
pub const TOOLCHAIN_TOOLS: &'static str = r#" ninja-build openssh-client patch \
    pkg-config python3 python3-dev python3-pip \
    unzip wget xxd xz-utils zlib1g-dev

"#;

/// The installation of the toolchain, up to the CUDA switch.
pub const TOOLCHAIN_INSTALL: &'static str = r#"

WORKDIR /opt/cp2k/tools/toolchain
RUN ./install_cp2k_toolchain.sh -j ${NUM_PROCS:-8} \
    --install-all \
    "#;

/// The toolchain options between the CUDA options and the CPU target.
pub const TOOLCHAIN_TARGET: &'static str = r#" --with-deepmd=no \
    "#;

/// The toolchain options behind the CPU target, up to the MPI implementation.
pub const TOOLCHAIN_OPTIONS: &'static str = r#" \
    --with-cusolvermp=no \
    --with-gcc=system \
    "#;

/// The system packages of the runtime stage, up to the MPI library.
pub const TOOLCHAIN_RUNTIME: &'static str = r#" AS install
RUN apt-get update -qq && apt-get install -qq --no-install-recommends \
    g++ gcc gfortran "#;

/// The system packages of the runtime stage, behind the MPI implementation.
pub const TOOLCHAIN_RUNTIME_TOOLS: &'static str = r#" openssh-client python3 \
    && rm -rf /var/lib/apt/lists/*

"#;

/// The working directory and the entry point of an image.
pub const IMAGE_ENTRY: &'static str = r#"

WORKDIR /work
ENTRYPOINT ["cp2k"]
"#;

/// The build of the development branch, with CMake and Ninja, up to the options
/// of the variant.
pub const CMAKE_BUILD: &'static str = r#"SHELL ["/bin/bash", "-c"]
WORKDIR /opt/cp2k
ENV TOOLCHAIN_DIR=/opt/cp2k/tools/toolchain
RUN source ${TOOLCHAIN_DIR}/install/setup && \
    cmake -GNinja \
    -DCMAKE_INSTALL_PREFIX=/opt/cp2k/install \
    -DCP2K_USE_EVERYTHING=ON \
    -DCP2K_USE_DLAF=OFF \
    -DCP2K_USE_PEXSI=OFF \
    -DCP2K_USE_DEEPMD=OFF \
    -DCMAKE_INTERPROCEDURAL_OPTIMIZATION=OFF \
    -DCMAKE_C_FLAGS="-fno-lto" \
    -DCMAKE_CXX_FLAGS="-fno-lto" \
    -DCMAKE_Fortran_FLAGS="-fno-lto" \
    -DCMAKE_EXE_LINKER_FLAGS="-fno-lto" \
"#;

/// The build of the development branch behind the options of the variant.
pub const CMAKE_BUILD_END: &'static str = r#"    -Werror=dev \
    -B build -S . && \
    ninja -C build -j ${NUM_PROCS:-8} && \
    cmake --install build --prefix /opt/cp2k/install

RUN mkdir -p /toolchain/install /toolchain/scripts && \
    for d in /opt/cp2k/tools/toolchain/install/*/; do \
        libdir=$(basename "$d"); \
        cp -a "$d" /toolchain/install/; \
    done && \
    cp /opt/cp2k/tools/toolchain/scripts/tool_kit.sh /toolchain/scripts"#;

/// The build of a release with make, up to its architecture file.
pub const MAKE_ARCH: &'static str = r#"WORKDIR /opt/cp2k
RUN cp ./tools/toolchain/install/arch/"#;

/// The build of a release with make, up to its architecture.
pub const MAKE_RUN: &'static str = r#" ./arch/ && \
    source ./tools/toolchain/install/setup && \
    make -j ${NUM_PROCS:-8} "#;

/// The search for the libraries of a release, up to its architecture.
pub const MAKE_LIBRARIES: &'static str = r#"

RUN mkdir -p /toolchain/install /toolchain/scripts && \
    for libdir in $(ldd ./exe/"#;

/// The copy of the libraries that a release links.
pub const MAKE_TOOLCHAIN: &'static str = r#" | \
                     grep /opt/cp2k/tools/toolchain/install | \
                     awk '{print $3}' | cut -d/ -f7 | \
                     sort | uniq) setup; do \
       cp -ar /opt/cp2k/tools/toolchain/install/${libdir} /toolchain/install; \
    done && \
    cp /opt/cp2k/tools/toolchain/scripts/tool_kit.sh /toolchain/scripts"#;

/// The links to the binaries of the development branch, up to the variant.
pub const CMAKE_LINK: &'static str = "RUN ln -sf /opt/cp2k/install/bin/cp2k.";

/// The links to the binaries of the development branch, up to that of the shell.
pub const CMAKE_LINK_SHELL: &'static str = r#" /usr/local/bin/cp2k && \
    ln -sf /opt/cp2k/install/bin/cp2k_shell."#;

/// The last link to a binary of the development branch, and the search path.
pub const CMAKE_LINK_END: &'static str = r#" /usr/local/bin/cp2k_shell && \
    ln -sf /opt/cp2k/install/bin/cp2k.popt /usr/local/bin/cp2k.popt
ENV PATH="/opt/cp2k/install/bin:${PATH}"
ENV LD_LIBRARY_PATH="/opt/cp2k/install/lib:${LD_LIBRARY_PATH}""#;

/// The links to the binaries of a release, up to its architecture.
pub const MAKE_LINK: &'static str = r#"RUN for binary in cp2k dumpdcd graph xyz2dcd; do \
        ln -sf /opt/cp2k/exe/"#;

/// The links to the binaries of a release, up to that of the shell.
pub const MAKE_LINK_SHELL: &'static str = r#" /usr/local/bin/${binary}; \
    done && \
    ln -sf /opt/cp2k/exe/"#;

/// The link to the shell of a release, and the search path of the image.
pub const MAKE_LINK_PATH: &'static str = r#" /usr/local/bin/cp2k_shell
ENV PATH="/opt/cp2k/exe/"#;

/// The search path of a release, behind its architecture.
pub const MAKE_LINK_END: &'static str = r#":${PATH}"
ENV LD_LIBRARY_PATH="/opt/cp2k/tools/toolchain/install/lib:${LD_LIBRARY_PATH}""#;

/// The base image of a Spack image.
pub const SPACK_BASE: &'static str = "ubuntu:24.04";

/// The base image of a toolchain image without a GPU.
pub const UBUNTU_BASE: &'static str = "ubuntu:22.04";

/// The base image of a toolchain image with a GPU.
pub const CUDA_BASE: &'static str = "nvidia/cuda:12.2.0-devel-ubuntu22.04";

/// The CUDA environment of an image with a GPU.
pub const CUDA_ENV: &'static str = "ENV CUDA_PATH /usr/local/cuda\nENV LD_LIBRARY_PATH /usr/local/cuda/lib64\nENV CUDA_CACHE_DISABLE 1";

/// The data and the toolchain that every runtime stage copies.
pub const COPY_SHARED: &'static str = "\nCOPY --from=build /opt/cp2k/data/ /opt/cp2k/data/\nCOPY --from=build /toolchain/ /opt/cp2k/tools/toolchain/";

/// The base image of an image that is built with the given method and GPU.
pub open spec fn base_of(method: Seq<char>, cuda: Seq<char>) -> Seq<char> {
    if method != "toolchain"@ {
        SPACK_BASE@
    } else if cuda != "none"@ {
        CUDA_BASE@
    } else {
        UBUNTU_BASE@
    }
}

/// The MPI implementation that a toolchain is built with: Open MPI where it is
/// asked for, and MPICH otherwise.
pub open spec fn mpi_of(mpi: Seq<char>) -> Seq<char> {
    if mpi == "openmpi"@ {
        "openmpi"@
    } else {
        "mpich"@
    }
}

/// The toolchain option that takes the MPI implementation of the system.
pub open spec fn mpi_option(mpi: Seq<char>) -> Seq<char> {
    "--with-"@ + mpi_of(mpi) + "=system"@
}

/// The package with the library of an MPI implementation.
pub open spec fn mpi_library(mpi: Seq<char>) -> Seq<char> {
    if mpi == "openmpi"@ {
        "libopenmpi-dev"@
    } else {
        "libmpich-dev"@
    }
}

/// The package with the programs of an MPI implementation.
pub open spec fn mpi_programs(mpi: Seq<char>) -> Seq<char> {
    if mpi == "openmpi"@ {
        "openmpi-bin"@
    } else {
        "mpich"@
    }
}

/// The CMake options of a variant, one to a line: those without MPI switch it
/// off, those for debugging say so.
pub open spec fn cmake_options(variant: Seq<char>) -> Seq<char> {
    (if variant == "ssmp"@ || variant == "sdbg"@ {
        "    -DCP2K_USE_MPI=OFF \\\n"@
    } else {
        ""@
    }) + (if variant == "pdbg"@ || variant == "sdbg"@ {
        "    -DCMAKE_BUILD_TYPE=Debug \\\n"@
    } else {
        ""@
    })
}

/// The switch of the Spack environment from MPICH to Open MPI.
pub open spec fn openmpi_switch() -> Seq<char> {
    "    -e '"@ + "s/- mpich/- openmpi/"@ + SWITCH_OPTIONS@
}

/// The name of the architecture files of a release.
pub open spec fn arch_of(cuda: Seq<char>) -> Seq<char> {
    if cuda != "none"@ {
        "local_cuda"@
    } else {
        "local"@
    }
}

/// The toolchain option that takes the MPI implementation of the system.
pub fn mpi_option_text(mpi: &str) -> (r: String)
    ensures
        r@ == mpi_option(mpi@),
{
    let name = if same(mpi, "openmpi") {
        "openmpi"
    } else {
        "mpich"
    };
    "--with-".to_owned().concat(name).concat("=system")
}

/// The CMake options of a variant, one to a line.
pub fn cmake_options_text(variant: &str) -> (r: String)
    ensures
        r@ == cmake_options(variant@),
{
    let mpi = if same(variant, "ssmp") || same(variant, "sdbg") {
        "    -DCP2K_USE_MPI=OFF \\\n"
    } else {
        ""
    };
    let kind = if same(variant, "pdbg") || same(variant, "sdbg") {
        "    -DCMAKE_BUILD_TYPE=Debug \\\n"
    } else {
        ""
    };
    mpi.to_owned().concat(kind)
}

/// The name of the architecture files of a release.
pub fn arch_name(cuda: &str) -> (r: &'static str)
    ensures
        r@ == arch_of(cuda@),
{
    if same(cuda, "none") {
        "local"
    } else {
        "local_cuda"
    }
}

impl BuildConfig {
    /// The command that clones the sources: a release has a branch of its own.
    pub open spec fn clone_step(&self) -> Seq<char> {
        if self.is_master() {
            "RUN git clone --recursive https://github.com/cp2k/cp2k.git /opt/cp2k"@
        } else {
            "RUN git clone --recursive -b support/v"@ + self.version@
                + " https://github.com/cp2k/cp2k.git /opt/cp2k"@
        }
    }

    /// The command that sets the CPU target and the MPI implementation of the
    /// Spack environment.
    pub open spec fn mpi_setup(&self) -> Seq<char> {
        TARGET_OPEN@ + "target=\""@ + self.cpu@ + "\"' \\\n"@ + (if self.mpi@ == "openmpi"@ {
            openmpi_switch()
        } else {
            ""@
        }) + TARGET_FILE@
    }

    /// The Dockerfile of a Spack image.
    pub open spec fn spack_dockerfile(&self) -> Seq<char> {
        SPACK_HEADER@ + "FROM "@ + SPACK_BASE@ + SPACK_PACKAGES@ + self.clone_step() + SPACK_INSTALL@
            + "ARG CP2K_VERSION="@ + self.variant@ + SPACK_REPO@ + self.mpi_setup() + SPACK_BUILD@
            + SPACK_BASE@ + SPACK_RUNTIME@ + "/opt/cp2k/exe/local/cp2k."@ + self.variant@
            + SPACK_ENTRY@
    }

    /// The base image of a toolchain image.
    pub open spec fn toolchain_base(&self) -> Seq<char> {
        base_of("toolchain"@, self.cuda@)
    }

    /// The name of the architecture files of a release.
    pub open spec fn arch_dir(&self) -> Seq<char> {
        arch_of(self.cuda@)
    }

    /// The toolchain options that a GPU adds.
    pub open spec fn cuda_options(&self) -> Seq<char> {
        if self.has_cuda() {
            "--gpu-ver="@ + self.cuda@ + " --with-libtorch=no"@
        } else {
            Seq::empty()
        }
    }

    /// The build: the development branch has CMake, releases have make.
    pub open spec fn build_step(&self) -> Seq<char> {
        if self.is_master() {
            CMAKE_BUILD@ + cmake_options(self.variant@) + CMAKE_BUILD_END@
        } else {
            MAKE_ARCH@ + self.arch_dir() + "."@ + self.variant@ + MAKE_RUN@ + "ARCH="@
                + self.arch_dir() + " VERSION="@ + self.variant@ + MAKE_LIBRARIES@ + self.arch_dir() + "/cp2k."@
                + self.variant@ + MAKE_TOOLCHAIN@
        }
    }

    /// What the runtime stage copies from the build stage.
    pub open spec fn copy_step(&self) -> Seq<char> {
        if self.is_master() {
            "COPY --from=build /opt/cp2k/install/ /opt/cp2k/install/"@ + COPY_SHARED@
        } else {
            "COPY --from=build /opt/cp2k/exe/"@ + self.arch_dir() + "/ /opt/cp2k/exe/"@
                + self.arch_dir() + "/"@ + COPY_SHARED@
        }
    }

    /// The links to the binaries.
    pub open spec fn link_step(&self) -> Seq<char> {
        if self.is_master() {
            CMAKE_LINK@ + self.variant@ + CMAKE_LINK_SHELL@ + self.variant@ + CMAKE_LINK_END@
        } else {
            MAKE_LINK@ + self.arch_dir() + "/${binary}."@ + self.variant@ + MAKE_LINK_SHELL@
                + self.arch_dir() + "/cp2k."@ + self.variant@ + MAKE_LINK_PATH@ + self.arch_dir()
                + MAKE_LINK_END@
        }
    }

    /// The Dockerfile of a toolchain image.
    pub open spec fn toolchain_dockerfile(&self) -> Seq<char> {
        TOOLCHAIN_HEADER@ + "FROM "@ + self.toolchain_base() + " AS build\n\n"@ + (if self.has_cuda() {
            CUDA_ENV@
        } else {
            ""@
        }) + TOOLCHAIN_PACKAGES@ + mpi_library(self.mpi@) + " make "@ + mpi_programs(self.mpi@)
            + TOOLCHAIN_TOOLS@ + self.clone_step() + TOOLCHAIN_INSTALL@ + (if self.has_cuda() {
            "--enable-cuda=yes "@
        } else {
            "--enable-cuda=no "@
        }) + self.cuda_options() + TOOLCHAIN_TARGET@ + "--target-cpu="@ + self.cpu@ + TOOLCHAIN_OPTIONS@
            + mpi_option(self.mpi@) + "\n\n"@ + self.build_step() + "\n\nFROM "@
            + self.toolchain_base() + TOOLCHAIN_RUNTIME@ + mpi_library(self.mpi@) + " "@
            + mpi_programs(self.mpi@) + TOOLCHAIN_RUNTIME_TOOLS@ + self.copy_step() + "\n\n"@ + self.link_step() + IMAGE_ENTRY@
    }

    /// The Dockerfile of the image: that of the toolchain for that method, and
    /// that of Spack for every other.
    pub open spec fn dockerfile_content(&self) -> Seq<char> {
        if self.method@ == "toolchain"@ {
            self.toolchain_dockerfile()
        } else {
            self.spack_dockerfile()
        }
    }

    /// The Dockerfile of the image under the given tag: its file name and its content.
    pub fn generate_dockerfile_for(&self, tag: &str) -> (r: GeneratedDockerfile)
        ensures
            r.name@ == file_name_for(tag@),
            r.content@ == self.dockerfile_content(),
    {
        GeneratedDockerfile {
            name: dockerfile_file_name(tag),
            content: generate_dockerfile_content(self),
        }
    }

    /// The Dockerfile of the image under its default tag: its file name and its
    /// content.
    pub fn generate_dockerfile(&self) -> (r: GeneratedDockerfile)
        ensures
            exists|tag: Seq<char>| self.is_tag(tag) && r.name@ == #[trigger] file_name_for(tag),
            !self.is_dated() ==> r.name@ == file_name_for(self.tag_on(Seq::empty())),
            r.content@ == self.dockerfile_content(),
    {
        let tag = self.default_tag();
        self.generate_dockerfile_for(tag.as_str())
    }
}

/// The Dockerfile of a configuration.
pub fn generate_dockerfile_content(config: &BuildConfig) -> (r: String)
    ensures
        r@ == config.dockerfile_content(),
{
    if same(config.method.as_str(), "toolchain") {
        generate_toolchain_dockerfile(config)
    } else {
        generate_spack_dockerfile(config)
    }
}

/// The command that clones the sources.
fn git_clone(config: &BuildConfig) -> (r: String)
    ensures
        r@ == config.clone_step(),
{
    if same(config.version.as_str(), "master") {
        "RUN git clone --recursive https://github.com/cp2k/cp2k.git /opt/cp2k".to_owned()
    } else {
        "RUN git clone --recursive -b support/v".to_owned()
            .concat(config.version.as_str())
            .concat(" https://github.com/cp2k/cp2k.git /opt/cp2k")
    }
}

/// The Dockerfile of a Spack image.
pub fn generate_spack_dockerfile(config: &BuildConfig) -> (r: String)
    ensures
        r@ == config.spack_dockerfile(),
{
    let switch = if same(config.mpi.as_str(), "openmpi") {
        "    -e '".to_owned().concat("s/- mpich/- openmpi/").concat(SWITCH_OPTIONS)
    } else {
        "".to_owned()
    };
    let mpi_setup = TARGET_OPEN.to_owned()
        .concat("target=\"")
        .concat(config.cpu.as_str())
        .concat("\"' \\\n")
        .concat(switch.as_str())
        .concat(TARGET_FILE);
    SPACK_HEADER.to_owned()
        .concat("FROM ")
        .concat(SPACK_BASE)
        .concat(SPACK_PACKAGES)
        .concat(git_clone(config).as_str())
        .concat(SPACK_INSTALL)
        .concat("ARG CP2K_VERSION=")
        .concat(config.variant.as_str())
        .concat(SPACK_REPO)
        .concat(mpi_setup.as_str())
        .concat(SPACK_BUILD)
        .concat(SPACK_BASE)
        .concat(SPACK_RUNTIME)
        .concat("/opt/cp2k/exe/local/cp2k.")
        .concat(config.variant.as_str())
        .concat(SPACK_ENTRY)
}

/// The build of a toolchain image.
fn toolchain_build(config: &BuildConfig, arch: &str) -> (r: String)
    requires
        arch@ == config.arch_dir(),
    ensures
        r@ == config.build_step(),
{
    if same(config.version.as_str(), "master") {
        CMAKE_BUILD.to_owned()
            .concat(cmake_options_text(config.variant.as_str()).as_str())
            .concat(CMAKE_BUILD_END)
    } else {
        MAKE_ARCH.to_owned()
            .concat(arch)
            .concat(".")
            .concat(config.variant.as_str())
            .concat(MAKE_RUN)
            .concat("ARCH=")
            .concat(arch)
            .concat(" VERSION=")
            .concat(config.variant.as_str())
            .concat(MAKE_LIBRARIES)
            .concat(arch)
            .concat("/cp2k.")
            .concat(config.variant.as_str())
            .concat(MAKE_TOOLCHAIN)
    }
}

/// What the runtime stage of a toolchain image copies.
fn toolchain_copy(config: &BuildConfig, arch: &str) -> (r: String)
    requires
        arch@ == config.arch_dir(),
    ensures
        r@ == config.copy_step(),
{
    if same(config.version.as_str(), "master") {
        "COPY --from=build /opt/cp2k/install/ /opt/cp2k/install/".to_owned().concat(COPY_SHARED)
    } else {
        "COPY --from=build /opt/cp2k/exe/".to_owned()
            .concat(arch)
            .concat("/ /opt/cp2k/exe/")
            .concat(arch)
            .concat("/")
            .concat(COPY_SHARED)
    }
}

/// The links to the binaries of a toolchain image.
fn toolchain_link(config: &BuildConfig, arch: &str) -> (r: String)
    requires
        arch@ == config.arch_dir(),
    ensures
        r@ == config.link_step(),
{
    if same(config.version.as_str(), "master") {
        CMAKE_LINK.to_owned()
            .concat(config.variant.as_str())
            .concat(CMAKE_LINK_SHELL)
            .concat(config.variant.as_str())
            .concat(CMAKE_LINK_END)
    } else {
        MAKE_LINK.to_owned()
            .concat(arch)
            .concat("/${binary}.")
            .concat(config.variant.as_str())
            .concat(MAKE_LINK_SHELL)
            .concat(arch)
            .concat("/cp2k.")
            .concat(config.variant.as_str())
            .concat(MAKE_LINK_PATH)
            .concat(arch)
            .concat(MAKE_LINK_END)
    }
}

/// The Dockerfile of a toolchain image.
pub fn generate_toolchain_dockerfile(config: &BuildConfig) -> (r: String)
    ensures
        r@ == config.toolchain_dockerfile(),
{
    let cuda = !same(config.cuda.as_str(), "none");
    let base = if cuda {
        CUDA_BASE
    } else {
        UBUNTU_BASE
    };
    let arch = arch_name(config.cuda.as_str());
    let openmpi = same(config.mpi.as_str(), "openmpi");
    let library = if openmpi {
        "libopenmpi-dev"
    } else {
        "libmpich-dev"
    };
    let programs = if openmpi {
        "openmpi-bin"
    } else {
        "mpich"
    };
    let environment = if cuda {
        CUDA_ENV
    } else {
        ""
    };
    let switch = if cuda {
        "--enable-cuda=yes "
    } else {
        "--enable-cuda=no "
    };
    let options = if cuda {
        "--gpu-ver=".to_owned().concat(config.cuda.as_str()).concat(" --with-libtorch=no")
    } else {
        String::new()
    };
    TOOLCHAIN_HEADER.to_owned()
        .concat("FROM ")
        .concat(base)
        .concat(" AS build\n\n")
        .concat(environment)
        .concat(TOOLCHAIN_PACKAGES)
        .concat(library)
        .concat(" make ")
        .concat(programs)
        .concat(TOOLCHAIN_TOOLS)
        .concat(git_clone(config).as_str())
        .concat(TOOLCHAIN_INSTALL)
        .concat(switch)
        .concat(options.as_str())
        .concat(TOOLCHAIN_TARGET)
        .concat("--target-cpu=")
        .concat(config.cpu.as_str())
        .concat(TOOLCHAIN_OPTIONS)
        .concat(mpi_option_text(config.mpi.as_str()).as_str())
        .concat("\n\n")
        .concat(toolchain_build(config, arch).as_str())
        .concat("\n\nFROM ")
        .concat(base)
        .concat(TOOLCHAIN_RUNTIME)
        .concat(library)
        .concat(" ")
        .concat(programs)
        .concat(TOOLCHAIN_RUNTIME_TOOLS)
        .concat(toolchain_copy(config, arch).as_str())
        .concat("\n\n")
        .concat(toolchain_link(config, arch).as_str())
        .concat(IMAGE_ENTRY)
}

/// Every method but the toolchain has the Dockerfile of Spack.
pub proof fn only_the_toolchain_has_its_own_dockerfile(a: BuildConfig, b: BuildConfig)
    requires
        a.version@ == b.version@,
        a.mpi@ == b.mpi@,
        a.cpu@ == b.cpu@,
        a.variant@ == b.variant@,
        a.method@ != "toolchain"@,
    ensures
        b.method@ != "toolchain"@ ==> a.dockerfile_content() == b.dockerfile_content(),
        a.dockerfile_content() == b.spack_dockerfile(),
        b.method@ == "toolchain"@ ==> b.dockerfile_content() == b.toolchain_dockerfile(),
{
}

/// The Dockerfile of the toolchain depends on the version, the MPI
/// implementation, the CPU target, the GPU and the variant, and on nothing else.
pub proof fn toolchain_dockerfile_depends_on_its_parts_alone(a: BuildConfig, b: BuildConfig)
    requires
        a.version@ == b.version@,
        a.mpi@ == b.mpi@,
        a.cpu@ == b.cpu@,
        a.cuda@ == b.cuda@,
        a.variant@ == b.variant@,
    ensures
        a.toolchain_dockerfile() == b.toolchain_dockerfile(),
{
}

/// A Spack image is switched to Open MPI wherever that is asked for, whatever
/// the version is; without it, every MPI implementation has the same Dockerfile,
/// and the switch is all that makes the two differ.
pub proof fn open_mpi_reaches_every_spack_image(a: BuildConfig, b: BuildConfig)
    requires
        a.method@ != "toolchain"@,
        b.method@ != "toolchain"@,
    ensures
        a.mpi@ == "openmpi"@ ==> occurs(a.dockerfile_content(), "s/- mpich/- openmpi/"@),
        a.version@ == b.version@ && a.cpu@ == b.cpu@ && a.variant@ == b.variant@ && a.mpi@
            != "openmpi"@ && b.mpi@ != "openmpi"@ ==> a.dockerfile_content()
            == b.dockerfile_content(),
        a.version@ == b.version@ && a.cpu@ == b.cpu@ && a.variant@ == b.variant@ && a.mpi@
            == "openmpi"@ && b.mpi@ != "openmpi"@ ==> same_form(
            a.dockerfile_content(),
            b.dockerfile_content(),
            openmpi_switch(),
            ""@,
        ) && a.dockerfile_content().len() == b.dockerfile_content().len() + openmpi_switch().len(),
{
    if a.mpi@ == "openmpi"@ {
        let part = "s/- mpich/- openmpi/"@;
        broadcast use {occurs_in_longer, occurs_behind};

        pair_occurs(Seq::empty(), "    -e '"@, part);
        assert(occurs(openmpi_switch(), part)) by {
            crate::text::middle_occurs("    -e '"@, part, SWITCH_OPTIONS@);
        }
        assert(occurs(a.mpi_setup(), part));
    }
    reveal_strlit("");
    assert(""@ =~= Seq::empty());
    if a.version@ == b.version@ && a.cpu@ == b.cpu@ && a.variant@ == b.variant@ && a.mpi@
        == "openmpi"@ && b.mpi@ != "openmpi"@ {
        broadcast use {same_form_joins, same_form_of_itself, same_form_of_values};

        assert(same_form(a.mpi_setup(), b.mpi_setup(), openmpi_switch(), ""@));
    }
}

/// The step that sets the MPI implementation of a Spack image depends on it and
/// on the CPU target alone, and it names the target.
pub proof fn mpi_step_depends_on_mpi_and_target_alone(a: BuildConfig, b: BuildConfig)
    requires
        a.mpi@ == b.mpi@,
        a.cpu@ == b.cpu@,
    ensures
        a.mpi_setup() == b.mpi_setup(),
        occurs(a.mpi_setup(), "target=\""@ + a.cpu@ + "\"' \\\n"@),
        occurs(a.spack_dockerfile(), a.mpi_setup()),
{
    broadcast use {occurs_in_longer, occurs_behind};

    triple_occurs(TARGET_OPEN@, "target=\""@, a.cpu@, "\"' \\\n"@);
    crate::text::middle_occurs(Seq::empty(), a.mpi_setup(), Seq::empty());
    assert(Seq::<char>::empty() + a.mpi_setup() + Seq::empty() =~= a.mpi_setup());
}

/// Without Open MPI the step that sets the MPI implementation holds no switch to
/// it, for every CPU target that is no path.
pub proof fn no_switch_without_open_mpi(config: BuildConfig)
    requires
        config.mpi@ != "openmpi"@,
        forall|i: int| 0 <= i < config.cpu@.len() ==> #[trigger] config.cpu@[i] != '/',
    ensures
        !occurs(config.mpi_setup(), "s/- mpich/- openmpi/"@),
{
    let part = "s/- mpich/- openmpi/"@;
    let step = config.mpi_setup();
    reveal_strlit("");
    reveal_strlit("s/- mpich/- openmpi/");
    reveal_strlit("target=\"");
    reveal_strlit("\"' \\\n");
    reveal_strlit(r#"RUN sed -e '/^\s*mpi:/i\      require: "#);
    reveal_strlit(r#"    -i /opt/cp2k/tools/spack/cp2k_deps_all_${CP2K_VERSION}.yaml"#);
    let a = TARGET_OPEN@ + "target=\""@;
    let b = a + config.cpu@;
    let c = b + "\"' \\\n"@;
    assert(step =~= c + TARGET_FILE@);
    assert forall|i: int| 0 <= i < step.len() - 1 && #[trigger] step[i] == '/' implies step[i + 1]
        != '-' by {
        if i < a.len() {
            assert(step[i] == a[i]);
            assert(i < TARGET_OPEN@.len());
            assert(i + 1 < a.len());
            assert(step[i + 1] == a[i + 1]);
        } else if i < b.len() {
            assert(step[i] == config.cpu@[i - a.len()]);
        } else if i < c.len() {
            assert(step[i] == "\"' \\\n"@[i - b.len()]);
        } else {
            assert(step[i] == TARGET_FILE@[i - c.len()]);
            assert(step[i + 1] == TARGET_FILE@[i + 1 - c.len()]);
        }
    }
    if occurs(step, part) {
        let at = choose|at: int| #[trigger] occurs_at(step, part, at);
        occurrence_is_by_characters(step, part, at);
        assert(part[1] == step[at + 1]);
        assert(part[2] == step[at + 2]);
    }
}

/// A Spack image takes its CPU target as it is, in one place.
pub proof fn spack_takes_the_target(a: BuildConfig, b: BuildConfig)
    requires
        a.version@ == b.version@,
        a.mpi@ == b.mpi@,
        a.variant@ == b.variant@,
    ensures
        same_form(a.spack_dockerfile(), b.spack_dockerfile(), a.cpu@, b.cpu@),
        a.spack_dockerfile().len() - a.cpu@.len() == b.spack_dockerfile().len() - b.cpu@.len(),
        occurs(a.spack_dockerfile(), "target=\""@ + a.cpu@ + "\"' \\\n"@),
{
    broadcast use {same_form_joins, same_form_of_itself, same_form_of_values};

    assert(same_form(a.mpi_setup(), b.mpi_setup(), a.cpu@, b.cpu@));
    broadcast use {occurs_in_longer, occurs_behind};

    triple_occurs(TARGET_OPEN@, "target=\""@, a.cpu@, "\"' \\\n"@);
    assert(occurs(a.mpi_setup(), "target=\""@ + a.cpu@ + "\"' \\\n"@));
}

/// A Spack image takes its variant as it is: for the packages that are built and
/// for the binary that is run.
pub proof fn spack_takes_the_variant(a: BuildConfig, b: BuildConfig)
    requires
        a.version@ == b.version@,
        a.mpi@ == b.mpi@,
        a.cpu@ == b.cpu@,
    ensures
        same_form(a.spack_dockerfile(), b.spack_dockerfile(), a.variant@, b.variant@),
        a.spack_dockerfile().len() - 2 * a.variant@.len() == b.spack_dockerfile().len() - 2
            * b.variant@.len(),
        occurs(a.spack_dockerfile(), "ARG CP2K_VERSION="@ + a.variant@),
        occurs(a.spack_dockerfile(), "/opt/cp2k/exe/local/cp2k."@ + a.variant@),
{
    broadcast use {same_form_joins, same_form_of_itself, same_form_of_values};
    broadcast use {occurs_in_longer, occurs_behind};

    let front = SPACK_HEADER@ + "FROM "@ + SPACK_BASE@ + SPACK_PACKAGES@ + a.clone_step()
        + SPACK_INSTALL@;
    pair_occurs(front, "ARG CP2K_VERSION="@, a.variant@);
    let later = front + "ARG CP2K_VERSION="@ + a.variant@ + SPACK_REPO@ + a.mpi_setup()
        + SPACK_BUILD@ + SPACK_BASE@ + SPACK_RUNTIME@;
    pair_occurs(later, "/opt/cp2k/exe/local/cp2k."@, a.variant@);
}

/// Both kinds of image clone the branch of their release, named by the version as
/// it is, and the development branch without a name.
pub proof fn images_clone_their_version(config: BuildConfig)
    ensures
        config.version@ != "master"@ ==> occurs(
            config.dockerfile_content(),
            "RUN git clone --recursive -b support/v"@ + config.version@
                + " https://github.com/cp2k/cp2k.git /opt/cp2k"@,
        ),
        config.version@ == "master"@ ==> occurs(
            config.dockerfile_content(),
            "RUN git clone --recursive https://github.com/cp2k/cp2k.git /opt/cp2k"@,
        ),
{
    broadcast use {occurs_in_longer, occurs_behind};

    let step = if config.version@ != "master"@ {
        "RUN git clone --recursive -b support/v"@ + config.version@
            + " https://github.com/cp2k/cp2k.git /opt/cp2k"@
    } else {
        "RUN git clone --recursive https://github.com/cp2k/cp2k.git /opt/cp2k"@
    };
    crate::text::middle_occurs(Seq::empty(), step, Seq::empty());
    assert(Seq::<char>::empty() + step + Seq::empty() =~= step);
    assert(occurs(config.clone_step(), step));
}

/// Releases differ in the name of their branch alone.
pub proof fn releases_differ_in_their_branch(a: BuildConfig, b: BuildConfig)
    requires
        a.version@ != "master"@,
        b.version@ != "master"@,
        (a.method@ == "toolchain"@) == (b.method@ == "toolchain"@),
        a.mpi@ == b.mpi@,
        a.cpu@ == b.cpu@,
        a.cuda@ == b.cuda@,
        a.variant@ == b.variant@,
    ensures
        same_form(a.dockerfile_content(), b.dockerfile_content(), a.version@, b.version@),
        a.dockerfile_content().len() - a.version@.len() == b.dockerfile_content().len()
            - b.version@.len(),
{
    broadcast use {same_form_joins, same_form_of_itself, same_form_of_values};

    assert(same_form(a.clone_step(), b.clone_step(), a.version@, b.version@));
}

/// Spack images of all versions, the development branch among them, differ in
/// the command that clones the sources alone.
pub proof fn spack_versions_differ_in_their_clone(a: BuildConfig, b: BuildConfig)
    requires
        a.mpi@ == b.mpi@,
        a.cpu@ == b.cpu@,
        a.variant@ == b.variant@,
    ensures
        same_form(a.spack_dockerfile(), b.spack_dockerfile(), a.clone_step(), b.clone_step()),
        a.spack_dockerfile().len() - a.clone_step().len() == b.spack_dockerfile().len()
            - b.clone_step().len(),
{
    broadcast use {same_form_joins, same_form_of_itself, same_form_of_values};

}

/// Every image starts from its base image, in both of its stages: Spack from
/// Ubuntu 24.04, the toolchain from Ubuntu 22.04, or from that of CUDA where there
/// is a GPU.
pub proof fn images_start_from_their_base(config: BuildConfig)
    ensures
        config.method@ != "toolchain"@ ==> occurs(
            config.dockerfile_content(),
            "FROM "@ + "ubuntu:24.04"@,
        ),
        config.method@ == "toolchain"@ && config.cuda@ == "none"@ ==> occurs(
            config.dockerfile_content(),
            "FROM "@ + "ubuntu:22.04"@ + " AS build\n\n"@,
        ),
        config.method@ == "toolchain"@ && config.cuda@ != "none"@ ==> occurs(
            config.dockerfile_content(),
            "FROM "@ + "nvidia/cuda:12.2.0-devel-ubuntu22.04"@ + " AS build\n\n"@,
        ),
        config.method@ == "toolchain"@ ==> occurs(
            config.toolchain_dockerfile(),
            "\n\nFROM "@ + base_of("toolchain"@, config.cuda@) + TOOLCHAIN_RUNTIME@,
        ),
{
    broadcast use {occurs_in_longer, occurs_behind};

    pair_occurs(SPACK_HEADER@, "FROM "@, SPACK_BASE@);
    let base = config.toolchain_base();
    triple_occurs(TOOLCHAIN_HEADER@, "FROM "@, base, " AS build\n\n"@);
    let front = TOOLCHAIN_HEADER@ + "FROM "@ + base + " AS build\n\n"@ + (if config.has_cuda() {
        CUDA_ENV@
    } else {
        ""@
    }) + TOOLCHAIN_PACKAGES@ + mpi_library(config.mpi@) + " make "@ + mpi_programs(config.mpi@)
        + TOOLCHAIN_TOOLS@ + config.clone_step() + TOOLCHAIN_INSTALL@ + (if config.has_cuda() {
        "--enable-cuda=yes "@
    } else {
        "--enable-cuda=no "@
    }) + config.cuda_options() + TOOLCHAIN_TARGET@ + "--target-cpu="@ + config.cpu@
        + TOOLCHAIN_OPTIONS@ + mpi_option(config.mpi@) + "\n\n"@ + config.build_step();
    triple_occurs(front, "\n\nFROM "@, base, TOOLCHAIN_RUNTIME@);
}

/// A toolchain image takes its CPU target as it is, in one place.
pub proof fn toolchain_takes_the_target(a: BuildConfig, b: BuildConfig)
    requires
        a.version@ == b.version@,
        a.mpi@ == b.mpi@,
        a.cuda@ == b.cuda@,
        a.variant@ == b.variant@,
    ensures
        same_form(a.toolchain_dockerfile(), b.toolchain_dockerfile(), a.cpu@, b.cpu@),
        a.toolchain_dockerfile().len() - a.cpu@.len() == b.toolchain_dockerfile().len()
            - b.cpu@.len(),
        occurs(a.toolchain_dockerfile(), "--target-cpu="@ + a.cpu@),
{
    broadcast use {same_form_joins, same_form_of_itself, same_form_of_values};
    broadcast use {occurs_in_longer, occurs_behind};

    let front = toolchain_front(a) + TOOLCHAIN_TARGET@;
    pair_occurs(front, "--target-cpu="@, a.cpu@);
}

/// The Dockerfile of the toolchain up to its options on the GPU.
spec fn toolchain_front(config: BuildConfig) -> Seq<char> {
    TOOLCHAIN_HEADER@ + "FROM "@ + config.toolchain_base() + " AS build\n\n"@ + (
    if config.has_cuda() {
        CUDA_ENV@
    } else {
        ""@
    }) + TOOLCHAIN_PACKAGES@ + mpi_library(config.mpi@) + " make "@ + mpi_programs(config.mpi@)
        + TOOLCHAIN_TOOLS@ + config.clone_step() + TOOLCHAIN_INSTALL@ + (if config.has_cuda() {
        "--enable-cuda=yes "@
    } else {
        "--enable-cuda=no "@
    }) + config.cuda_options()
}

/// A toolchain image with a GPU names the GPU as it is, in one place, and turns
/// CUDA on; without one it turns CUDA off. The architecture files of a release
/// follow it.
pub proof fn toolchain_takes_the_gpu(a: BuildConfig, b: BuildConfig)
    requires
        a.version@ == b.version@,
        a.mpi@ == b.mpi@,
        a.cpu@ == b.cpu@,
        a.variant@ == b.variant@,
    ensures
        a.cuda@ != "none"@ && b.cuda@ != "none"@ ==> same_form(
            a.toolchain_dockerfile(),
            b.toolchain_dockerfile(),
            a.cuda@,
            b.cuda@,
        ) && a.toolchain_dockerfile().len() - a.cuda@.len() == b.toolchain_dockerfile().len()
            - b.cuda@.len(),
        a.cuda@ != "none"@ ==> occurs(
            a.toolchain_dockerfile(),
            "--enable-cuda=yes "@ + ("--gpu-ver="@ + a.cuda@ + " --with-libtorch=no"@),
        ) && occurs(a.toolchain_dockerfile(), CUDA_ENV@),
        a.cuda@ == "none"@ ==> occurs(
            a.toolchain_dockerfile(),
            "--enable-cuda=no "@ + TOOLCHAIN_TARGET@,
        ),
        a.version@ != "master"@ && a.cuda@ != "none"@ ==> occurs(
            a.toolchain_dockerfile(),
            "ARCH="@ + "local_cuda"@ + " VERSION="@,
        ),
        a.version@ != "master"@ && a.cuda@ == "none"@ ==> occurs(
            a.toolchain_dockerfile(),
            "ARCH="@ + "local"@ + " VERSION="@,
        ),
{
    if a.cuda@ != "none"@ && b.cuda@ != "none"@ {
        broadcast use {same_form_joins, same_form_of_itself, same_form_of_values};

        assert(same_form(a.cuda_options(), b.cuda_options(), a.cuda@, b.cuda@));
    }
    broadcast use {occurs_in_longer, occurs_behind};

    let before = TOOLCHAIN_HEADER@ + "FROM "@ + a.toolchain_base() + " AS build\n\n"@;
    let opening = before + (if a.has_cuda() {
        CUDA_ENV@
    } else {
        ""@
    }) + TOOLCHAIN_PACKAGES@ + mpi_library(a.mpi@) + " make "@ + mpi_programs(a.mpi@)
        + TOOLCHAIN_TOOLS@ + a.clone_step() + TOOLCHAIN_INSTALL@;
    if a.cuda@ != "none"@ {
        pair_occurs(opening, "--enable-cuda=yes "@, a.cuda_options());
        crate::text::middle_occurs(before, CUDA_ENV@, Seq::empty());
        assert(before + CUDA_ENV@ + Seq::<char>::empty() =~= before + CUDA_ENV@);
    } else {
        let front = opening + "--enable-cuda=no "@;
        assert(toolchain_front(a) =~= front);
        pair_occurs(opening, "--enable-cuda=no "@, TOOLCHAIN_TARGET@);
        assert(occurs(toolchain_front(a) + TOOLCHAIN_TARGET@, "--enable-cuda=no "@ + TOOLCHAIN_TARGET@));
    }
    if a.version@ != "master"@ {
        let run = MAKE_ARCH@ + a.arch_dir() + "."@ + a.variant@ + MAKE_RUN@;
        triple_occurs(run, "ARCH="@, a.arch_dir(), " VERSION="@);
        assert(occurs(a.build_step(), "ARCH="@ + a.arch_dir() + " VERSION="@));
    }
}

/// A toolchain image installs and takes the MPI implementation that is asked for:
/// Open MPI, or MPICH in all other cases.
pub proof fn toolchain_takes_the_mpi(a: BuildConfig, b: BuildConfig)
    requires
        a.version@ == b.version@,
        a.cpu@ == b.cpu@,
        a.cuda@ == b.cuda@,
        a.variant@ == b.variant@,
    ensures
        a.mpi@ != "openmpi"@ && b.mpi@ != "openmpi"@ ==> a.toolchain_dockerfile()
            == b.toolchain_dockerfile(),
        a.mpi@ == "openmpi"@ ==> occurs(
            a.toolchain_dockerfile(),
            "libopenmpi-dev"@ + " make "@ + "openmpi-bin"@,
        ) && occurs(a.toolchain_dockerfile(), "--with-"@ + "openmpi"@ + "=system"@) && occurs(
            a.toolchain_dockerfile(),
            "libopenmpi-dev"@ + " "@ + "openmpi-bin"@,
        ),
        a.mpi@ != "openmpi"@ ==> occurs(
            a.toolchain_dockerfile(),
            "libmpich-dev"@ + " make "@ + "mpich"@,
        ) && occurs(a.toolchain_dockerfile(), "--with-"@ + "mpich"@ + "=system"@) && occurs(
            a.toolchain_dockerfile(),
            "libmpich-dev"@ + " "@ + "mpich"@,
        ),
{
    broadcast use {occurs_in_longer, occurs_behind};

    let library = mpi_library(a.mpi@);
    let programs = mpi_programs(a.mpi@);
    let opening = TOOLCHAIN_HEADER@ + "FROM "@ + a.toolchain_base() + " AS build\n\n"@ + (
    if a.has_cuda() {
        CUDA_ENV@
    } else {
        ""@
    }) + TOOLCHAIN_PACKAGES@;
    triple_occurs(opening, library, " make "@, programs);
    let middle = toolchain_front(a) + TOOLCHAIN_TARGET@ + "--target-cpu="@ + a.cpu@
        + TOOLCHAIN_OPTIONS@;
    pair_occurs(middle, mpi_option(a.mpi@), "\n\n"@);
    crate::text::middle_occurs(middle, mpi_option(a.mpi@), Seq::empty());
    assert(middle + mpi_option(a.mpi@) + Seq::<char>::empty() =~= middle + mpi_option(a.mpi@));
    let late = middle + mpi_option(a.mpi@) + "\n\n"@ + a.build_step() + "\n\nFROM "@
        + a.toolchain_base() + TOOLCHAIN_RUNTIME@;
    triple_occurs(late, library, " "@, programs);
}

/// The toolchain image of a release takes its variant as it is: for the
/// architecture file, the build, and the binaries that are copied and linked.
pub proof fn toolchain_release_takes_the_variant(a: BuildConfig, b: BuildConfig)
    requires
        a.version@ == b.version@,
        a.version@ != "master"@,
        a.mpi@ == b.mpi@,
        a.cpu@ == b.cpu@,
        a.cuda@ == b.cuda@,
    ensures
        same_form(a.toolchain_dockerfile(), b.toolchain_dockerfile(), a.variant@, b.variant@),
        a.toolchain_dockerfile().len() - 5 * a.variant@.len() == b.toolchain_dockerfile().len() - 5
            * b.variant@.len(),
        occurs(a.toolchain_dockerfile(), " VERSION="@ + a.variant@),
        occurs(a.toolchain_dockerfile(), "/cp2k."@ + a.variant@),
        occurs(a.toolchain_dockerfile(), "/${binary}."@ + a.variant@),
{
    broadcast use {same_form_joins, same_form_of_itself, same_form_of_values};

    assert(same_form(a.build_step(), b.build_step(), a.variant@, b.variant@));
    assert(same_form(a.link_step(), b.link_step(), a.variant@, b.variant@));
    broadcast use {occurs_in_longer, occurs_behind};

    let run = MAKE_ARCH@ + a.arch_dir() + "."@ + a.variant@ + MAKE_RUN@ + "ARCH="@ + a.arch_dir();
    pair_occurs(run, " VERSION="@, a.variant@);
    assert(occurs(a.build_step(), " VERSION="@ + a.variant@));
    pair_occurs(
        run + " VERSION="@ + a.variant@ + MAKE_LIBRARIES@ + a.arch_dir(),
        "/cp2k."@,
        a.variant@,
    );
    assert(occurs(a.build_step(), "/cp2k."@ + a.variant@));
    pair_occurs(MAKE_LINK@ + a.arch_dir(), "/${binary}."@, a.variant@);
    assert(occurs(a.link_step(), "/${binary}."@ + a.variant@));
}

/// The toolchain image of the development branch links the binaries of its
/// variant, and builds them without MPI or for debugging where the variant says
/// so.
pub proof fn toolchain_master_takes_the_variant(a: BuildConfig, b: BuildConfig)
    requires
        a.version@ == "master"@,
        b.version@ == "master"@,
    ensures
        occurs(a.toolchain_dockerfile(), CMAKE_LINK@ + a.variant@),
        same_form(a.link_step(), b.link_step(), a.variant@, b.variant@),
        a.link_step().len() - 2 * a.variant@.len() == b.link_step().len() - 2 * b.variant@.len(),
        a.copy_step() == b.copy_step(),
        a.variant@ == b.variant@ ==> a.build_step() == b.build_step(),
        a.variant@ == "ssmp"@ || a.variant@ == "sdbg"@ ==> occurs(
            a.toolchain_dockerfile(),
            "    -DCP2K_USE_MPI=OFF \\\n"@,
        ),
        a.variant@ == "pdbg"@ || a.variant@ == "sdbg"@ ==> occurs(
            a.toolchain_dockerfile(),
            "    -DCMAKE_BUILD_TYPE=Debug \\\n"@,
        ),
        a.variant@ != "ssmp"@ && a.variant@ != "pdbg"@ && a.variant@ != "sdbg"@
            ==> a.build_step() == CMAKE_BUILD@ + CMAKE_BUILD_END@,
{
    broadcast use {same_form_joins, same_form_of_itself, same_form_of_values};
    broadcast use {occurs_in_longer, occurs_behind};

    pair_occurs(Seq::empty(), CMAKE_LINK@, a.variant@);
    assert(Seq::<char>::empty() + CMAKE_LINK@ + a.variant@ =~= CMAKE_LINK@ + a.variant@);
    assert(occurs(a.link_step(), CMAKE_LINK@ + a.variant@));
    reveal_strlit("");
    let mpi = "    -DCP2K_USE_MPI=OFF \\\n"@;
    let kind = "    -DCMAKE_BUILD_TYPE=Debug \\\n"@;
    crate::text::middle_occurs(Seq::empty(), mpi, Seq::empty());
    crate::text::middle_occurs(Seq::empty(), kind, Seq::empty());
    assert(Seq::<char>::empty() + mpi + Seq::empty() =~= mpi);
    assert(Seq::<char>::empty() + kind + Seq::empty() =~= kind);
    options_tell_ssmp();
    if a.variant@ == "ssmp"@ || a.variant@ == "sdbg"@ {
        assert(occurs(cmake_options(a.variant@), mpi));
        assert(occurs(a.build_step(), mpi));
    }
    if a.variant@ == "pdbg"@ || a.variant@ == "sdbg"@ {
        assert(occurs(cmake_options(a.variant@), kind));
        assert(occurs(a.build_step(), kind));
    }
    if a.variant@ != "ssmp"@ && a.variant@ != "pdbg"@ && a.variant@ != "sdbg"@ {
        assert(CMAKE_BUILD@ + cmake_options(a.variant@) =~= CMAKE_BUILD@);
    }
}

proof fn options_tell_ssmp()
    ensures
        "ssmp"@ != "sdbg"@,
        "ssmp"@ != "pdbg"@,
        "pdbg"@ != "sdbg"@,
{
    reveal_strlit("ssmp");
    reveal_strlit("sdbg");
    reveal_strlit("pdbg");
    assert("ssmp"@[1] != "sdbg"@[1]);
    assert("ssmp"@[0] != "pdbg"@[0]);
    assert("pdbg"@[0] != "sdbg"@[0]);
}

/// The variants ask CMake for different things, and a variant that asks for
/// neither has no options of its own.
pub proof fn variants_have_their_options(variant: Seq<char>)
    ensures
        variant == "ssmp"@ ==> cmake_options(variant) == "    -DCP2K_USE_MPI=OFF \\\n"@,
        variant == "pdbg"@ ==> cmake_options(variant) == "    -DCMAKE_BUILD_TYPE=Debug \\\n"@,
        variant == "sdbg"@ ==> cmake_options(variant) == "    -DCP2K_USE_MPI=OFF \\\n"@
            + "    -DCMAKE_BUILD_TYPE=Debug \\\n"@,
        variant != "ssmp"@ && variant != "pdbg"@ && variant != "sdbg"@ ==> cmake_options(
            variant,
        ).len() == 0,
{
    options_tell_ssmp();
    reveal_strlit("");
    assert(""@ =~= Seq::empty());
    if variant == "ssmp"@ {
        assert(cmake_options(variant) =~= "    -DCP2K_USE_MPI=OFF \\\n"@);
    }
    if variant == "pdbg"@ {
        assert(cmake_options(variant) =~= "    -DCMAKE_BUILD_TYPE=Debug \\\n"@);
    }
}

/// The toolchain images of two versions differ only in the commands that clone,
/// build, copy and link: what they install, and for which GPU, target and MPI
/// implementation, does not depend on the version.
pub proof fn toolchain_versions_share_their_stages(a: BuildConfig, b: BuildConfig)
    requires
        a.mpi@ == b.mpi@,
        a.cpu@ == b.cpu@,
        a.cuda@ == b.cuda@,
    ensures
        exists|front: Seq<char>, middle: Seq<char>, late: Seq<char>|
            {
                &&& a.toolchain_dockerfile() == #[trigger] staged(
                    front,
                    a.clone_step(),
                    middle,
                    a.build_step(),
                    late,
                    a.copy_step(),
                    a.link_step(),
                )
                &&& b.toolchain_dockerfile() == staged(
                    front,
                    b.clone_step(),
                    middle,
                    b.build_step(),
                    late,
                    b.copy_step(),
                    b.link_step(),
                )
            },
{
    toolchain_is_staged(a);
    toolchain_is_staged(b);
}

/// The stages of a toolchain image, one behind the other.
pub open spec fn staged(
    front: Seq<char>,
    clone: Seq<char>,
    middle: Seq<char>,
    build: Seq<char>,
    late: Seq<char>,
    copy: Seq<char>,
    link: Seq<char>,
) -> Seq<char> {
    front + clone + middle + build + late + copy + "\n\n"@ + link + IMAGE_ENTRY@
}

spec fn opening_stage(config: BuildConfig) -> Seq<char> {
    TOOLCHAIN_HEADER@ + "FROM "@ + config.toolchain_base() + " AS build\n\n"@ + (
    if config.has_cuda() {
        CUDA_ENV@
    } else {
        ""@
    }) + TOOLCHAIN_PACKAGES@ + mpi_library(config.mpi@) + " make "@ + mpi_programs(config.mpi@)
        + TOOLCHAIN_TOOLS@
}

spec fn install_stage(config: BuildConfig) -> Seq<char> {
    TOOLCHAIN_INSTALL@ + (if config.has_cuda() {
        "--enable-cuda=yes "@
    } else {
        "--enable-cuda=no "@
    }) + config.cuda_options() + TOOLCHAIN_TARGET@ + "--target-cpu="@ + config.cpu@
        + TOOLCHAIN_OPTIONS@ + mpi_option(config.mpi@) + "\n\n"@
}

spec fn runtime_stage(config: BuildConfig) -> Seq<char> {
    "\n\nFROM "@ + config.toolchain_base() + TOOLCHAIN_RUNTIME@ + mpi_library(config.mpi@) + " "@
        + mpi_programs(config.mpi@) + TOOLCHAIN_RUNTIME_TOOLS@
}

#[verifier::rlimit(60)]
#[verifier::spinoff_prover]
proof fn toolchain_is_staged(config: BuildConfig)
    ensures
        config.toolchain_dockerfile() == staged(
            opening_stage(config),
            config.clone_step(),
            install_stage(config),
            config.build_step(),
            runtime_stage(config),
            config.copy_step(),
            config.link_step(),
        ),
{
    let p0 = opening_stage(config) + config.clone_step();
    let switch = if config.has_cuda() {
        "--enable-cuda=yes "@
    } else {
        "--enable-cuda=no "@
    };
    assert(p0 + TOOLCHAIN_INSTALL@ + switch + config.cuda_options() + TOOLCHAIN_TARGET@
        + "--target-cpu="@ + config.cpu@ + TOOLCHAIN_OPTIONS@ + mpi_option(config.mpi@) + "\n\n"@
        =~= p0 + install_stage(config));
    let p1 = p0 + install_stage(config) + config.build_step();
    assert(p1 + "\n\nFROM "@ + config.toolchain_base() + TOOLCHAIN_RUNTIME@ + mpi_library(
        config.mpi@,
    ) + " "@ + mpi_programs(config.mpi@) + TOOLCHAIN_RUNTIME_TOOLS@ =~= p1 + runtime_stage(config));
}

/// The runtime stage of a release copies the binaries of its architecture, and
/// that of the development branch what was installed.
pub proof fn images_copy_what_was_built(config: BuildConfig)
    ensures
        config.version@ != "master"@ && config.cuda@ == "none"@ ==> occurs(
            config.toolchain_dockerfile(),
            "COPY --from=build /opt/cp2k/exe/"@ + "local"@ + "/ /opt/cp2k/exe/"@,
        ),
        config.version@ != "master"@ && config.cuda@ != "none"@ ==> occurs(
            config.toolchain_dockerfile(),
            "COPY --from=build /opt/cp2k/exe/"@ + "local_cuda"@ + "/ /opt/cp2k/exe/"@,
        ),
        config.version@ == "master"@ ==> occurs(
            config.toolchain_dockerfile(),
            "COPY --from=build /opt/cp2k/install/ /opt/cp2k/install/"@ + COPY_SHARED@,
        ),
        occurs(config.toolchain_dockerfile(), COPY_SHARED@),
{
    broadcast use {occurs_in_longer, occurs_behind};

    let first = "COPY --from=build /opt/cp2k/exe/"@;
    triple_occurs(Seq::empty(), first, config.arch_dir(), "/ /opt/cp2k/exe/"@);
    assert(Seq::<char>::empty() + first =~= first);
    crate::text::middle_occurs(Seq::empty(), COPY_SHARED@, Seq::empty());
    assert(Seq::<char>::empty() + COPY_SHARED@ + Seq::empty() =~= COPY_SHARED@);
    assert(occurs(config.copy_step(), COPY_SHARED@));
    if config.version@ == "master"@ {
        let all = config.copy_step();
        crate::text::middle_occurs(Seq::empty(), all, Seq::empty());
        assert(Seq::<char>::empty() + all + Seq::empty() =~= all);
    } else {
        assert(occurs(config.copy_step(), first + config.arch_dir() + "/ /opt/cp2k/exe/"@));
    }
}

/// The name that a toolchain is told for its MPI implementation, and the packages
/// of it, belong together.
pub proof fn mpi_parts_belong_together(mpi: Seq<char>)
    ensures
        mpi == "openmpi"@ ==> mpi_of(mpi) == mpi && mpi_library(mpi) == "libopenmpi-dev"@
            && mpi_programs(mpi) == "openmpi-bin"@,
        mpi != "openmpi"@ ==> mpi_of(mpi) == "mpich"@ && mpi_library(mpi) == "libmpich-dev"@
            && mpi_programs(mpi) == "mpich"@,
{
}

/// The commands of a release that build, copy and link name its architecture alone
/// where a GPU makes a difference, and everywhere alike.
pub proof fn releases_follow_their_architecture(a: BuildConfig, b: BuildConfig)
    requires
        a.version@ != "master"@,
        b.version@ != "master"@,
        a.variant@ == b.variant@,
    ensures
        same_form(a.build_step(), b.build_step(), a.arch_dir(), b.arch_dir()),
        a.build_step().len() - 3 * a.arch_dir().len() == b.build_step().len() - 3
            * b.arch_dir().len(),
        same_form(a.copy_step(), b.copy_step(), a.arch_dir(), b.arch_dir()),
        a.copy_step().len() - 2 * a.arch_dir().len() == b.copy_step().len() - 2
            * b.arch_dir().len(),
        same_form(a.link_step(), b.link_step(), a.arch_dir(), b.arch_dir()),
        a.link_step().len() - 3 * a.arch_dir().len() == b.link_step().len() - 3
            * b.arch_dir().len(),
        a.cuda@ == "none"@ ==> a.arch_dir() == "local"@,
        a.cuda@ != "none"@ ==> a.arch_dir() == "local_cuda"@,
{
    broadcast use {same_form_joins, same_form_of_itself, same_form_of_values};

}

/// Without a GPU a toolchain image has no CUDA environment: the packages follow the
/// base image. With one the packages follow the environment.
pub proof fn cuda_environment_comes_with_the_gpu(config: BuildConfig)
    ensures
        config.cuda@ == "none"@ ==> occurs(
            config.toolchain_dockerfile(),
            " AS build\n\n"@ + TOOLCHAIN_PACKAGES@,
        ),
        config.cuda@ != "none"@ ==> occurs(
            config.toolchain_dockerfile(),
            " AS build\n\n"@ + CUDA_ENV@ + TOOLCHAIN_PACKAGES@,
        ),
{
    broadcast use {occurs_in_longer, occurs_behind};

    let base = TOOLCHAIN_HEADER@ + "FROM "@ + config.toolchain_base();
    if config.cuda@ == "none"@ {
        reveal_strlit("");
        let opened = base + " AS build\n\n"@;
        assert(opened + ""@ =~= opened);
        pair_occurs(base, " AS build\n\n"@, TOOLCHAIN_PACKAGES@);
        assert(occurs(
            opened + ""@ + TOOLCHAIN_PACKAGES@,
            " AS build\n\n"@ + TOOLCHAIN_PACKAGES@,
        ));
    } else {
        triple_occurs(base, " AS build\n\n"@, CUDA_ENV@, TOOLCHAIN_PACKAGES@);
    }
}

} // verus!
