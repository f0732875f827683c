//! The whole text of generated Dockerfiles.

use forge2k::config::BuildConfig;
use forge2k::dockerfile::generate_dockerfile_content;
use forge2k::dockerfile::generate_spack_dockerfile;
use forge2k::dockerfile::generate_toolchain_dockerfile;

fn config(method: &str, version: &str, mpi: &str, cpu: &str, cuda: &str) -> BuildConfig {
    BuildConfig {
        method: method.to_string(),
        version: version.to_string(),
        mpi: mpi.to_string(),
        cpu: cpu.to_string(),
        cuda: cuda.to_string(),
        variant: "psmp".to_string(),
        jobs: 8,
        tag: String::new(),
        no_cache: false,
        shm_size: "1g".to_string(),
        dockerfile: None,
        _output: "docker".to_string(),
    }
}

#[test]
fn spack_release_with_mpich() {
    let config = config("spack", "2025.2", "mpich", "x86_64", "none");
    let expected = r###"#
# Dockerfile generated by Forge2K
# Inspired by github.com/cp2k/cp2k-containers
#

FROM ubuntu:24.04 AS build_cp2k

RUN apt-get update -qq && apt-get install -qq --no-install-recommends \
    g++ gcc gfortran python3 autoconf automake bzip2 ca-certificates cmake git \
    less libncurses-dev libssh-dev libssl-dev libtool-bin lsb-release make \
    ninja-build openssh-client patch pkgconf python3-dev python3-pip \
    python3-venv unzip wget xxd xz-utils zlib1g-dev zstd \
    && rm -rf /var/lib/apt/lists/*

RUN git clone --recursive -b support/v2025.2 https://github.com/cp2k/cp2k.git /opt/cp2k

ARG NUM_PROCS=16
ENV NUM_PROCS=${NUM_PROCS}
ARG SPACK_VERSION=1.0.0
ARG SPACK_PACKAGES_VERSION=2025.07.0
ENV SPACK_VERSION=${SPACK_VERSION}
ENV SPACK_PACKAGES_VERSION=${SPACK_PACKAGES_VERSION}

RUN mkdir -p /opt/spack-${SPACK_VERSION} && \
    wget -q https://github.com/spack/spack/archive/v${SPACK_VERSION}.tar.gz && \
    tar -xzf v${SPACK_VERSION}.tar.gz -C /opt && \
    rm -f v${SPACK_VERSION}.tar.gz && \
    mkdir -p /opt/spack-packages-${SPACK_PACKAGES_VERSION} && \
    wget -q https://github.com/spack/spack-packages/archive/v${SPACK_PACKAGES_VERSION}.tar.gz && \
    tar -xzf v${SPACK_PACKAGES_VERSION}.tar.gz -C /opt && \
    rm -f v${SPACK_PACKAGES_VERSION}.tar.gz

ENV PATH="/opt/spack-${SPACK_VERSION}/bin:${PATH}"
RUN spack repo add --scope site /opt/spack-packages-${SPACK_PACKAGES_VERSION}/repos/spack_repo/builtin
RUN spack compiler find
RUN spack external find --all --not-buildable

ARG CP2K_VERSION=psmp
ENV CP2K_VERSION=${CP2K_VERSION}

RUN cp -a /opt/cp2k/tools/spack/cp2k_dev_repo /opt/spack-packages-${SPACK_PACKAGES_VERSION}/repos/spack_repo && \
    spack repo add --scope site /opt/spack-packages-${SPACK_PACKAGES_VERSION}/repos/spack_repo/cp2k_dev_repo

RUN sed -e '/^\s*mpi:/i\      require: target="x86_64"' \
    -i /opt/cp2k/tools/spack/cp2k_deps_all_${CP2K_VERSION}.yaml

RUN cat /opt/cp2k/tools/spack/cp2k_deps_all_${CP2K_VERSION}.yaml && \
    spack env create myenv /opt/cp2k/tools/spack/cp2k_deps_all_${CP2K_VERSION}.yaml

RUN spack -e myenv concretize -f
ENV SPACK_ENV_VIEW="/opt/spack-${SPACK_VERSION}/var/spack/environments/myenv/spack-env/view"
RUN spack -e myenv env depfile -o spack_makefile && \
    make -j${NUM_PROCS} -f spack_makefile

WORKDIR /opt/cp2k
RUN cp /opt/cp2k/tools/spack/spack_env_relocate.sh . && \
    cp /opt/spack-packages-${SPACK_PACKAGES_VERSION}/repos/spack_repo/cp2k_dev_repo/packages/cp2k/*.patch . && \
    cp /opt/spack-packages-${SPACK_PACKAGES_VERSION}/repos/spack_repo/cp2k_dev_repo/packages/cp2k/*.sh . && \
    bash -c "source /opt/spack-${SPACK_VERSION}/share/spack/setup-env.sh && \
             spack env activate myenv && \
             spack build-env -- spack install --source cp2k@${CP2K_VERSION}"

FROM ubuntu:24.04 AS runtime
RUN apt-get update -qq && apt-get install -qq --no-install-recommends \
    g++ gcc gfortran ca-certificates libgomp1 libopenblas-dev \
    libmpich-dev libpython3-dev libstdc++-13-dev python3 python3-dev \
    && rm -rf /var/lib/apt/lists/*

COPY --from=build_cp2k /opt/cp2k/install /opt/cp2k
COPY --from=build_cp2k /opt/cp2k/exe /opt/cp2k/exe
COPY --from=build_cp2k /opt/cp2k/data /opt/cp2k/data
COPY --from=build_cp2k /opt/cp2k/tests /opt/cp2k/tests

RUN ln -sf /opt/cp2k/exe/local/cp2k.psmp /usr/local/bin/cp2k
ENV PATH="/opt/cp2k/exe/local:${PATH}"
ENV LD_LIBRARY_PATH="/opt/cp2k/lib:${LD_LIBRARY_PATH}"
WORKDIR /work
ENTRYPOINT ["cp2k"]
"###;
    assert_eq!(generate_dockerfile_content(&config), expected);
    assert_eq!(generate_spack_dockerfile(&config), expected);
}

#[test]
fn spack_master_with_openmpi() {
    let config = config("spack", "master", "openmpi", "cascadelake", "none");
    let expected = r###"#
# Dockerfile generated by Forge2K
# Inspired by github.com/cp2k/cp2k-containers
#

FROM ubuntu:24.04 AS build_cp2k

RUN apt-get update -qq && apt-get install -qq --no-install-recommends \
    g++ gcc gfortran python3 autoconf automake bzip2 ca-certificates cmake git \
    less libncurses-dev libssh-dev libssl-dev libtool-bin lsb-release make \
    ninja-build openssh-client patch pkgconf python3-dev python3-pip \
    python3-venv unzip wget xxd xz-utils zlib1g-dev zstd \
    && rm -rf /var/lib/apt/lists/*

RUN git clone --recursive https://github.com/cp2k/cp2k.git /opt/cp2k

ARG NUM_PROCS=16
ENV NUM_PROCS=${NUM_PROCS}
ARG SPACK_VERSION=1.0.0
ARG SPACK_PACKAGES_VERSION=2025.07.0
ENV SPACK_VERSION=${SPACK_VERSION}
ENV SPACK_PACKAGES_VERSION=${SPACK_PACKAGES_VERSION}

RUN mkdir -p /opt/spack-${SPACK_VERSION} && \
    wget -q https://github.com/spack/spack/archive/v${SPACK_VERSION}.tar.gz && \
    tar -xzf v${SPACK_VERSION}.tar.gz -C /opt && \
    rm -f v${SPACK_VERSION}.tar.gz && \
    mkdir -p /opt/spack-packages-${SPACK_PACKAGES_VERSION} && \
    wget -q https://github.com/spack/spack-packages/archive/v${SPACK_PACKAGES_VERSION}.tar.gz && \
    tar -xzf v${SPACK_PACKAGES_VERSION}.tar.gz -C /opt && \
    rm -f v${SPACK_PACKAGES_VERSION}.tar.gz

ENV PATH="/opt/spack-${SPACK_VERSION}/bin:${PATH}"
RUN spack repo add --scope site /opt/spack-packages-${SPACK_PACKAGES_VERSION}/repos/spack_repo/builtin
RUN spack compiler find
RUN spack external find --all --not-buildable

ARG CP2K_VERSION=psmp
ENV CP2K_VERSION=${CP2K_VERSION}

RUN cp -a /opt/cp2k/tools/spack/cp2k_dev_repo /opt/spack-packages-${SPACK_PACKAGES_VERSION}/repos/spack_repo && \
    spack repo add --scope site /opt/spack-packages-${SPACK_PACKAGES_VERSION}/repos/spack_repo/cp2k_dev_repo

RUN sed -e '/^\s*mpi:/i\      require: target="cascadelake"' \
    -e 's/- mpich/- openmpi/' \
    -e '/^\s*xpmem:/i\    openmpi:\n      require:\n        - +internal-hwloc' \
    -e '/^\s*- "mpich@/ s/^ /#/' \
    -e '/^#\s*- "openmpi@/ s/^#/ /' \
    -i /opt/cp2k/tools/spack/cp2k_deps_all_${CP2K_VERSION}.yaml

RUN cat /opt/cp2k/tools/spack/cp2k_deps_all_${CP2K_VERSION}.yaml && \
    spack env create myenv /opt/cp2k/tools/spack/cp2k_deps_all_${CP2K_VERSION}.yaml

RUN spack -e myenv concretize -f
ENV SPACK_ENV_VIEW="/opt/spack-${SPACK_VERSION}/var/spack/environments/myenv/spack-env/view"
RUN spack -e myenv env depfile -o spack_makefile && \
    make -j${NUM_PROCS} -f spack_makefile

WORKDIR /opt/cp2k
RUN cp /opt/cp2k/tools/spack/spack_env_relocate.sh . && \
    cp /opt/spack-packages-${SPACK_PACKAGES_VERSION}/repos/spack_repo/cp2k_dev_repo/packages/cp2k/*.patch . && \
    cp /opt/spack-packages-${SPACK_PACKAGES_VERSION}/repos/spack_repo/cp2k_dev_repo/packages/cp2k/*.sh . && \
    bash -c "source /opt/spack-${SPACK_VERSION}/share/spack/setup-env.sh && \
             spack env activate myenv && \
             spack build-env -- spack install --source cp2k@${CP2K_VERSION}"

FROM ubuntu:24.04 AS runtime
RUN apt-get update -qq && apt-get install -qq --no-install-recommends \
    g++ gcc gfortran ca-certificates libgomp1 libopenblas-dev \
    libmpich-dev libpython3-dev libstdc++-13-dev python3 python3-dev \
    && rm -rf /var/lib/apt/lists/*

COPY --from=build_cp2k /opt/cp2k/install /opt/cp2k
COPY --from=build_cp2k /opt/cp2k/exe /opt/cp2k/exe
COPY --from=build_cp2k /opt/cp2k/data /opt/cp2k/data
COPY --from=build_cp2k /opt/cp2k/tests /opt/cp2k/tests

RUN ln -sf /opt/cp2k/exe/local/cp2k.psmp /usr/local/bin/cp2k
ENV PATH="/opt/cp2k/exe/local:${PATH}"
ENV LD_LIBRARY_PATH="/opt/cp2k/lib:${LD_LIBRARY_PATH}"
WORKDIR /work
ENTRYPOINT ["cp2k"]
"###;
    assert_eq!(generate_dockerfile_content(&config), expected);
    assert_eq!(generate_spack_dockerfile(&config), expected);
}

#[test]
fn toolchain_release() {
    let config = config("toolchain", "2023.2", "mpich", "generic", "none");
    let expected = r###"#
# Dockerfile generated by Forge2K
# Inspired by github.com/cp2k/cp2k-containers
#

FROM ubuntu:22.04 AS build



RUN apt-get update -qq && apt-get install -qq --no-install-recommends \
    autoconf autogen automake autotools-dev \
    bzip2 ca-certificates \
    g++ gcc gfortran git less libtool libtool-bin \
    libmpich-dev make mpich ninja-build openssh-client patch \
    pkg-config python3 python3-dev python3-pip \
    unzip wget xxd xz-utils zlib1g-dev

RUN git clone --recursive -b support/v2023.2 https://github.com/cp2k/cp2k.git /opt/cp2k

WORKDIR /opt/cp2k/tools/toolchain
RUN ./install_cp2k_toolchain.sh -j ${NUM_PROCS:-8} \
    --install-all \
    --enable-cuda=no  --with-deepmd=no \
    --target-cpu=generic \
    --with-cusolvermp=no \
    --with-gcc=system \
    --with-mpich=system

WORKDIR /opt/cp2k
RUN cp ./tools/toolchain/install/arch/local.psmp ./arch/ && \
    source ./tools/toolchain/install/setup && \
    make -j ${NUM_PROCS:-8} ARCH=local VERSION=psmp

RUN mkdir -p /toolchain/install /toolchain/scripts && \
    for libdir in $(ldd ./exe/local/cp2k.psmp | \
                     grep /opt/cp2k/tools/toolchain/install | \
                     awk '{print $3}' | cut -d/ -f7 | \
                     sort | uniq) setup; do \
       cp -ar /opt/cp2k/tools/toolchain/install/${libdir} /toolchain/install; \
    done && \
    cp /opt/cp2k/tools/toolchain/scripts/tool_kit.sh /toolchain/scripts

FROM ubuntu:22.04 AS install
RUN apt-get update -qq && apt-get install -qq --no-install-recommends \
    g++ gcc gfortran libmpich-dev mpich openssh-client python3 \
    && rm -rf /var/lib/apt/lists/*

COPY --from=build /opt/cp2k/exe/local/ /opt/cp2k/exe/local/
COPY --from=build /opt/cp2k/data/ /opt/cp2k/data/
COPY --from=build /toolchain/ /opt/cp2k/tools/toolchain/

RUN for binary in cp2k dumpdcd graph xyz2dcd; do \
        ln -sf /opt/cp2k/exe/local/${binary}.psmp /usr/local/bin/${binary}; \
    done && \
    ln -sf /opt/cp2k/exe/local/cp2k.psmp /usr/local/bin/cp2k_shell
ENV PATH="/opt/cp2k/exe/local:${PATH}"
ENV LD_LIBRARY_PATH="/opt/cp2k/tools/toolchain/install/lib:${LD_LIBRARY_PATH}"

WORKDIR /work
ENTRYPOINT ["cp2k"]
"###;
    assert_eq!(generate_dockerfile_content(&config), expected);
    assert_eq!(generate_toolchain_dockerfile(&config), expected);
}

#[test]
fn toolchain_release_with_gpu() {
    let config = config("toolchain", "2023.2", "mpich", "generic", "V100");
    let expected = r###"#
# Dockerfile generated by Forge2K
# Inspired by github.com/cp2k/cp2k-containers
#

FROM nvidia/cuda:12.2.0-devel-ubuntu22.04 AS build

ENV CUDA_PATH /usr/local/cuda
ENV LD_LIBRARY_PATH /usr/local/cuda/lib64
ENV CUDA_CACHE_DISABLE 1

RUN apt-get update -qq && apt-get install -qq --no-install-recommends \
    autoconf autogen automake autotools-dev \
    bzip2 ca-certificates \
    g++ gcc gfortran git less libtool libtool-bin \
    libmpich-dev make mpich ninja-build openssh-client patch \
    pkg-config python3 python3-dev python3-pip \
    unzip wget xxd xz-utils zlib1g-dev

RUN git clone --recursive -b support/v2023.2 https://github.com/cp2k/cp2k.git /opt/cp2k

WORKDIR /opt/cp2k/tools/toolchain
RUN ./install_cp2k_toolchain.sh -j ${NUM_PROCS:-8} \
    --install-all \
    --enable-cuda=yes --gpu-ver=V100 --with-libtorch=no --with-deepmd=no \
    --target-cpu=generic \
    --with-cusolvermp=no \
    --with-gcc=system \
    --with-mpich=system

WORKDIR /opt/cp2k
RUN cp ./tools/toolchain/install/arch/local_cuda.psmp ./arch/ && \
    source ./tools/toolchain/install/setup && \
    make -j ${NUM_PROCS:-8} ARCH=local_cuda VERSION=psmp

RUN mkdir -p /toolchain/install /toolchain/scripts && \
    for libdir in $(ldd ./exe/local_cuda/cp2k.psmp | \
                     grep /opt/cp2k/tools/toolchain/install | \
                     awk '{print $3}' | cut -d/ -f7 | \
                     sort | uniq) setup; do \
       cp -ar /opt/cp2k/tools/toolchain/install/${libdir} /toolchain/install; \
    done && \
    cp /opt/cp2k/tools/toolchain/scripts/tool_kit.sh /toolchain/scripts

FROM nvidia/cuda:12.2.0-devel-ubuntu22.04 AS install
RUN apt-get update -qq && apt-get install -qq --no-install-recommends \
    g++ gcc gfortran libmpich-dev mpich openssh-client python3 \
    && rm -rf /var/lib/apt/lists/*

COPY --from=build /opt/cp2k/exe/local_cuda/ /opt/cp2k/exe/local_cuda/
COPY --from=build /opt/cp2k/data/ /opt/cp2k/data/
COPY --from=build /toolchain/ /opt/cp2k/tools/toolchain/

RUN for binary in cp2k dumpdcd graph xyz2dcd; do \
        ln -sf /opt/cp2k/exe/local_cuda/${binary}.psmp /usr/local/bin/${binary}; \
    done && \
    ln -sf /opt/cp2k/exe/local_cuda/cp2k.psmp /usr/local/bin/cp2k_shell
ENV PATH="/opt/cp2k/exe/local_cuda:${PATH}"
ENV LD_LIBRARY_PATH="/opt/cp2k/tools/toolchain/install/lib:${LD_LIBRARY_PATH}"

WORKDIR /work
ENTRYPOINT ["cp2k"]
"###;
    assert_eq!(generate_dockerfile_content(&config), expected);
    assert_eq!(generate_toolchain_dockerfile(&config), expected);
}

#[test]
fn toolchain_master() {
    let config = config("toolchain", "master", "mpich", "generic", "none");
    let expected = r###"#
# Dockerfile generated by Forge2K
# Inspired by github.com/cp2k/cp2k-containers
#

FROM ubuntu:22.04 AS build



RUN apt-get update -qq && apt-get install -qq --no-install-recommends \
    autoconf autogen automake autotools-dev \
    bzip2 ca-certificates \
    g++ gcc gfortran git less libtool libtool-bin \
    libmpich-dev make mpich ninja-build openssh-client patch \
    pkg-config python3 python3-dev python3-pip \
    unzip wget xxd xz-utils zlib1g-dev

RUN git clone --recursive https://github.com/cp2k/cp2k.git /opt/cp2k

WORKDIR /opt/cp2k/tools/toolchain
RUN ./install_cp2k_toolchain.sh -j ${NUM_PROCS:-8} \
    --install-all \
    --enable-cuda=no  --with-deepmd=no \
    --target-cpu=generic \
    --with-cusolvermp=no \
    --with-gcc=system \
    --with-mpich=system

SHELL ["/bin/bash", "-c"]
WORKDIR /opt/cp2k
ENV TOOLCHAIN_DIR=/opt/cp2k/tools/toolchain
RUN source ${TOOLCHAIN_DIR}/install/setup && \
    cmake -GNinja \
    -DCMAKE_INSTALL_PREFIX=/opt/cp2k/install \
    -DCP2K_USE_EVERYTHING=ON \
    -DCP2K_USE_DLAF=OFF \
    -DCP2K_USE_PEXSI=OFF \
    -DCP2K_USE_DEEPMD=OFF \
    -DCMAKE_INTERPROCEDURAL_OPTIMIZATION=OFF \
    -DCMAKE_C_FLAGS="-fno-lto" \
    -DCMAKE_CXX_FLAGS="-fno-lto" \
    -DCMAKE_Fortran_FLAGS="-fno-lto" \
    -DCMAKE_EXE_LINKER_FLAGS="-fno-lto" \
    -Werror=dev \
    -B build -S . && \
    ninja -C build -j ${NUM_PROCS:-8} && \
    cmake --install build --prefix /opt/cp2k/install

RUN mkdir -p /toolchain/install /toolchain/scripts && \
    for d in /opt/cp2k/tools/toolchain/install/*/; do \
        libdir=$(basename "$d"); \
        cp -a "$d" /toolchain/install/; \
    done && \
    cp /opt/cp2k/tools/toolchain/scripts/tool_kit.sh /toolchain/scripts

FROM ubuntu:22.04 AS install
RUN apt-get update -qq && apt-get install -qq --no-install-recommends \
    g++ gcc gfortran libmpich-dev mpich openssh-client python3 \
    && rm -rf /var/lib/apt/lists/*

COPY --from=build /opt/cp2k/install/ /opt/cp2k/install/
COPY --from=build /opt/cp2k/data/ /opt/cp2k/data/
COPY --from=build /toolchain/ /opt/cp2k/tools/toolchain/

RUN ln -sf /opt/cp2k/install/bin/cp2k.psmp /usr/local/bin/cp2k && \
    ln -sf /opt/cp2k/install/bin/cp2k_shell.psmp /usr/local/bin/cp2k_shell && \
    ln -sf /opt/cp2k/install/bin/cp2k.popt /usr/local/bin/cp2k.popt
ENV PATH="/opt/cp2k/install/bin:${PATH}"
ENV LD_LIBRARY_PATH="/opt/cp2k/install/lib:${LD_LIBRARY_PATH}"

WORKDIR /work
ENTRYPOINT ["cp2k"]
"###;
    assert_eq!(generate_dockerfile_content(&config), expected);
    assert_eq!(generate_toolchain_dockerfile(&config), expected);
}

#[test]
fn native_builds_fall_back_to_spack() {
    let native = config("native", "2025.2", "mpich", "x86_64", "none");
    let spack = config("spack", "2025.2", "mpich", "x86_64", "none");
    assert_eq!(generate_dockerfile_content(&native), generate_dockerfile_content(&spack));
}

#[test]
fn written_dockerfiles_have_flat_names() {
    let mut config = config("toolchain", "2023.2", "mpich", "generic", "V100");
    let made = config.generate_dockerfile();
    assert_eq!(made.name, "cp2k_cp2k_2023.2_mpich_generic_cuda_V100_psmp.Dockerfile");
    assert_eq!(made.content, generate_toolchain_dockerfile(&config));
    config.tag = "registry.example/team/cp2k:today".to_string();
    assert_eq!(config.generate_dockerfile().name, "registry.example_team_cp2k_today.Dockerfile");
    assert_eq!(config.generate_dockerfile_for("a/b:c").name, "a_b_c.Dockerfile");
}

fn variant_of(mut config: BuildConfig, variant: &str) -> String {
    config.variant = variant.to_string();
    generate_dockerfile_content(&config)
}

#[test]
fn variants_replace_one_another() {
    for config in [
        config("spack", "2025.2", "mpich", "x86_64", "none"),
        config("toolchain", "2023.2", "mpich", "generic", "none"),
        config("toolchain", "2023.2", "mpich", "generic", "V100"),
    ] {
        let psmp = variant_of(config.clone(), "psmp");
        assert!(psmp.contains("psmp"));
        for variant in ["ssmp", "pdbg", "sdbg"] {
            assert_eq!(variant_of(config.clone(), variant), psmp.replace("psmp", variant));
        }
    }
}

#[test]
fn variants_of_the_development_branch() {
    let config = config("toolchain", "master", "mpich", "generic", "none");
    let psmp = variant_of(config.clone(), "psmp");
    let mpi = "    -DCP2K_USE_MPI=OFF \\\n";
    let debug = "    -DCMAKE_BUILD_TYPE=Debug \\\n";
    for (variant, options) in [
        ("ssmp", mpi.to_string()),
        ("pdbg", debug.to_string()),
        ("sdbg", format!("{}{}", mpi, debug)),
    ] {
        let last = "    -Werror=dev \\\n";
        let expected =
            psmp.replace("psmp", variant).replace(last, &format!("{}{}", options, last));
        assert_eq!(variant_of(config.clone(), variant), expected);
    }
}

#[test]
fn toolchain_with_open_mpi() {
    let mpich = config("toolchain", "2023.2", "mpich", "generic", "none");
    let openmpi = config("toolchain", "2023.2", "openmpi", "generic", "none");
    let expected = generate_toolchain_dockerfile(&mpich)
        .replace("libmpich-dev make mpich ", "libopenmpi-dev make openmpi-bin ")
        .replace("libmpich-dev mpich ", "libopenmpi-dev openmpi-bin ")
        .replace("--with-mpich=system", "--with-openmpi=system");
    assert!(!expected.contains("mpich"));
    assert_eq!(generate_toolchain_dockerfile(&openmpi), expected);
}
