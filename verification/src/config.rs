//! Build configurations: image tags, Dockerfile names and `docker build` arguments.

use crate::clock::date_text;
use crate::clock::is_date_stamp;
use crate::clock::today;
use crate::text::decimal;
use crate::text::decimal_reads_back;
use crate::text::decimal_text;
use crate::text::joined;
use crate::text::middles_agree;
use crate::text::no_texts;
use crate::text::occurs;
use crate::text::occurs_in_longer;
use crate::text::parsed_u32;
use crate::text::push_copy;
use crate::text::push_text;
use crate::text::replace;
use crate::text::replaced;
use crate::text::replacing_is_by_characters;
use crate::text::same;
use crate::text::texts;
use crate::text::triple_occurs;
use vstd::prelude::*;

verus! {

/// What to build and how.
#[derive(Clone, Debug)]
pub struct BuildConfig {
    /// "spack", "toolchain" or "native".
    pub method: String,
    /// A release such as "2025.2", or "master".
    pub version: String,
    /// "mpich" or "openmpi".
    pub mpi: String,
    /// A CPU target such as "x86_64".
    pub cpu: String,
    /// "none" or the name of a GPU.
    pub cuda: String,
    /// "psmp", "ssmp", "pdbg" or "sdbg".
    pub variant: String,
    pub jobs: u32,
    /// An image tag that overrides the automatic one where it is not empty.
    pub tag: String,
    pub no_cache: bool,
    pub shm_size: String,
    /// The path of a Dockerfile that overrides the automatic one.
    pub dockerfile: Option<String>,
    /// "docker" for a local image, "image" for an archive of it as well.
    pub _output: String,
}

/// A Dockerfile on disk: its path, and the parent of that path where it has one.
/// The parent of a bare file name is empty.
#[derive(Clone, Debug)]
pub struct DockerfilePath {
    pub path: String,
    pub parent: Option<String>,
}

/// A Dockerfile to be written: its file name and its content.
#[derive(Clone, Debug)]
pub struct GeneratedDockerfile {
    pub name: String,
    pub content: String,
}

/// The part of a name that tells the GPU.
pub open spec fn suffix_for(cuda: Seq<char>) -> Seq<char> {
    if cuda != "none"@ {
        "_cuda_"@ + cuda
    } else {
        Seq::empty()
    }
}

/// The name of a bundled Dockerfile, below the directory of Dockerfiles. Those
/// of the toolchain tell the GPU; those of Spack, which has none, do not.
pub open spec fn bundled_name(
    method: Seq<char>,
    version: Seq<char>,
    mpi: Seq<char>,
    cpu: Seq<char>,
    cuda: Seq<char>,
    variant: Seq<char>,
) -> Seq<char> {
    if method == "toolchain"@ {
        "toolchain/"@ + version + "_"@ + mpi + "_"@ + cpu + suffix_for(cuda) + "_"@ + variant
            + ".Dockerfile"@
    } else {
        "spack/"@ + version + "_"@ + mpi + "_"@ + cpu + "_"@ + variant + ".Dockerfile"@
    }
}

impl BuildConfig {
    /// The version is the head of the development branch.
    pub open spec fn is_master(&self) -> bool {
        self.version@ == "master"@
    }

    /// The build runs on this machine, without Docker.
    pub open spec fn is_native(&self) -> bool {
        self.method@ == "native"@
    }

    /// An archive of the image is asked for.
    pub open spec fn wants_archive(&self) -> bool {
        self._output@ == "image"@
    }

    /// A GPU is asked for.
    pub open spec fn has_cuda(&self) -> bool {
        self.cuda@ != "none"@
    }

    /// The part of a name that tells the GPU.
    pub open spec fn cuda_suffix(&self) -> Seq<char> {
        suffix_for(self.cuda@)
    }

    /// The version as a tag of the given day names it.
    pub open spec fn version_on(&self, date: Seq<char>) -> Seq<char> {
        if self.is_master() {
            "master_"@ + date
        } else {
            self.version@
        }
    }

    /// The image tag on the given day: the configured one, or one that names
    /// the version, the MPI implementation, the CPU target, the GPU and the variant.
    pub open spec fn tag_on(&self, date: Seq<char>) -> Seq<char> {
        if self.tag@.len() > 0 {
            self.tag@
        } else {
            "cp2k/cp2k:"@ + self.version_on(date) + "_"@ + self.mpi@ + "_"@ + self.cpu@
                + self.cuda_suffix() + "_"@ + self.variant@
        }
    }

    /// The tag names the day on which it is made.
    pub open spec fn is_dated(&self) -> bool {
        self.tag@.len() == 0 && self.is_master()
    }

    /// The text is the image tag of some day.
    pub open spec fn is_tag(&self, text: Seq<char>) -> bool {
        exists|date: Seq<char>| is_date_stamp(date) && text == #[trigger] self.tag_on(date)
    }

    /// The name of the bundled Dockerfile, below the directory of Dockerfiles.
    pub open spec fn dockerfile_name_view(&self) -> Seq<char> {
        bundled_name(
            self.method@,
            self.version@,
            self.mpi@,
            self.cpu@,
            self.cuda@,
            self.variant@,
        )
    }

    /// The arguments of the `docker` command that builds the image.
    pub open spec fn docker_args_view(
        &self,
        tag: Seq<char>,
        path: Seq<char>,
        context: Seq<char>,
    ) -> Seq<Seq<char>> {
        seq!["build"@, "--shm-size"@, self.shm_size@] + (if self.no_cache {
            seq!["--no-cache"@]
        } else {
            seq![]
        }) + seq![
            "-f"@,
            path,
            "-t"@,
            tag,
            "--build-arg"@,
            "NUM_PROCS="@ + decimal(self.jobs as nat),
            context,
        ]
    }

    /// The part of a name that tells the GPU.
    fn cuda_part(&self) -> (r: String)
        ensures
            r@ == self.cuda_suffix(),
    {
        if same(self.cuda.as_str(), "none") {
            String::new()
        } else {
            "_cuda_".to_owned().concat(self.cuda.as_str())
        }
    }

    /// Whether the build runs on this machine, without Docker.
    pub fn builds_natively(&self) -> (r: bool)
        ensures
            r == self.is_native(),
    {
        same(self.method.as_str(), "native")
    }

    /// The image tag on the given day.
    pub fn tag_for(&self, date: &str) -> (r: String)
        ensures
            r@ == self.tag_on(date@),
    {
        if !self.tag.as_str().is_empty() {
            return self.tag.clone();
        }
        let version = if same(self.version.as_str(), "master") {
            "master_".to_owned().concat(date)
        } else {
            self.version.clone()
        };
        "cp2k/cp2k:".to_owned()
            .concat(version.as_str())
            .concat("_")
            .concat(self.mpi.as_str())
            .concat("_")
            .concat(self.cpu.as_str())
            .concat(self.cuda_part().as_str())
            .concat("_")
            .concat(self.variant.as_str())
    }

    /// There is a tag on some day.
    pub proof fn some_tag(&self)
        ensures
            self.is_tag(self.tag_on(date_text(1970, 1, 1))),
    {
        assert(is_date_stamp(date_text(1970, 1, 1)));
    }

    /// A tag that names no day is the tag of every day.
    pub proof fn undated_tag_is_tag(&self)
        requires
            !self.is_dated(),
        ensures
            forall|date: Seq<char>| #[trigger] self.tag_on(date) == self.tag_on(Seq::empty()),
            self.is_tag(self.tag_on(Seq::empty())),
    {
        assert(is_date_stamp(date_text(1970, 1, 1)));
        assert(self.tag_on(date_text(1970, 1, 1)) == self.tag_on(Seq::empty()));
    }

    /// The image tag: the configured one, or an automatic one. An automatic tag
    /// of the development branch names today's date; the clock is read for no
    /// other.
    pub fn default_tag(&self) -> (r: String)
        ensures
            self.is_tag(r@),
            !self.is_dated() ==> r@ == self.tag_on(Seq::empty()),
    {
        if self.tag.as_str().is_empty() && same(self.version.as_str(), "master") {
            return self.tag_for(today().as_str());
        }
        proof {
            self.undated_tag_is_tag();
        }
        self.tag_for("")
    }

    /// The name of the bundled Dockerfile, below the directory of Dockerfiles.
    pub fn dockerfile_name(&self) -> (r: String)
        ensures
            r@ == self.dockerfile_name_view(),
    {
        if same(self.method.as_str(), "toolchain") {
            "toolchain/".to_owned()
                .concat(self.version.as_str())
                .concat("_")
                .concat(self.mpi.as_str())
                .concat("_")
                .concat(self.cpu.as_str())
                .concat(self.cuda_part().as_str())
                .concat("_")
                .concat(self.variant.as_str())
                .concat(".Dockerfile")
        } else {
            "spack/".to_owned()
                .concat(self.version.as_str())
                .concat("_")
                .concat(self.mpi.as_str())
                .concat("_")
                .concat(self.cpu.as_str())
                .concat("_")
                .concat(self.variant.as_str())
                .concat(".Dockerfile")
        }
    }

    /// The arguments of the `docker` command that builds the image under the
    /// given tag. The build context is the parent of the Dockerfile's path, or the
    /// current directory where the path has no parent.
    pub fn docker_args(&self, tag: &str, dockerfile: &DockerfilePath) -> (r: Vec<String>)
        ensures
            texts(r@) == self.docker_args_view(tag@, dockerfile.path@, dockerfile.context()),
    {
        let mut args = no_texts();
        push_copy(&mut args, "build");
        push_copy(&mut args, "--shm-size");
        push_copy(&mut args, self.shm_size.as_str());
        if self.no_cache {
            push_copy(&mut args, "--no-cache");
        }
        push_copy(&mut args, "-f");
        push_copy(&mut args, dockerfile.path.as_str());
        push_copy(&mut args, "-t");
        push_copy(&mut args, tag);
        push_copy(&mut args, "--build-arg");
        push_text(
            &mut args,
            "NUM_PROCS=".to_owned().concat(decimal_text(self.jobs as u64).as_str()),
        );
        let context = match &dockerfile.parent {
            Some(parent) => parent.clone(),
            None => ".".to_owned(),
        };
        push_text(&mut args, context);
        assert(texts(args@) =~= self.docker_args_view(
            tag@,
            dockerfile.path@,
            dockerfile.context(),
        ));
        args
    }

    /// The arguments of the `docker` command that builds the image under its
    /// default tag.
    pub fn build_docker_args(&self, dockerfile: &DockerfilePath) -> (r: Vec<String>)
        ensures
            exists|tag: Seq<char>|
                self.is_tag(tag) && texts(r@) == #[trigger] self.docker_args_view(
                    tag,
                    dockerfile.path@,
                    dockerfile.context(),
                ),
            !self.is_dated() ==> texts(r@) == self.docker_args_view(
                self.tag_on(Seq::empty()),
                dockerfile.path@,
                dockerfile.context(),
            ),
    {
        let tag = self.default_tag();
        self.docker_args(tag.as_str(), dockerfile)
    }
}

impl DockerfilePath {
    /// The directory that `docker build` takes as its context: the parent of the
    /// path as it is, or the current directory where the path has no parent.
    pub open spec fn context(&self) -> Seq<char> {
        match self.parent {
            Some(parent) => parent@,
            None => "."@,
        }
    }
}

/// A tag as a part of a file name: with an underscore for each slash and colon.
pub open spec fn flat_tag(tag: Seq<char>) -> Seq<char> {
    replaced(replaced(tag, '/', '_'), ':', '_')
}

/// The file name under which a Dockerfile for the given tag is written.
pub open spec fn file_name_for(tag: Seq<char>) -> Seq<char> {
    flat_tag(tag) + ".Dockerfile"@
}

/// The file name under which an archive of the image is written.
pub open spec fn archive_name_for(tag: Seq<char>) -> Seq<char> {
    flat_tag(tag) + ".tar"@
}

/// A tag as a part of a file name.
fn flattened(tag: &str) -> (r: String)
    ensures
        r@ == flat_tag(tag@),
{
    proof {
        reveal_strlit("_");
    }
    replace(replace(tag, '/', "_").as_str(), ':', "_")
}

/// The file name under which a Dockerfile for the given tag is written.
pub fn dockerfile_file_name(tag: &str) -> (r: String)
    ensures
        r@ == file_name_for(tag@),
{
    flattened(tag).concat(".Dockerfile")
}

/// The file name under which an archive of the image is written.
pub fn archive_file_name(tag: &str) -> (r: String)
    ensures
        r@ == archive_name_for(tag@),
{
    flattened(tag).concat(".tar")
}

/// The name of a written Dockerfile or archive holds neither a slash nor a
/// colon, so that it names a file in the directory it is written to, whatever
/// the tag is.
pub proof fn file_name_is_flat(tag: Seq<char>)
    ensures
        !file_name_for(tag).contains('/'),
        !file_name_for(tag).contains(':'),
        !archive_name_for(tag).contains('/'),
        !archive_name_for(tag).contains(':'),
{
    reveal_strlit(".Dockerfile");
    reveal_strlit(".tar");
    let stem = flat_tag(tag);
    let name = file_name_for(tag);
    assert forall|i: int| 0 <= i < name.len() implies name[i] != '/' && name[i] != ':' by {
        if i >= stem.len() {
            assert(name[i] == ".Dockerfile"@[i - stem.len()]);
        }
    }
    let archive = archive_name_for(tag);
    assert forall|i: int| 0 <= i < archive.len() implies archive[i] != '/' && archive[i] != ':' by {
        if i >= stem.len() {
            assert(archive[i] == ".tar"@[i - stem.len()]);
        }
    }
}

/// A configured tag is the tag of the image on every day, whatever else is
/// configured.
pub proof fn configured_tag_wins(config: BuildConfig, date: Seq<char>)
    requires
        config.tag@.len() > 0,
    ensures
        config.tag_on(date) == config.tag@,
        !config.is_dated(),
{
}

/// An automatic tag tells the version, the MPI implementation, the CPU target
/// with the GPU, and the variant, in this order and with underscores between
/// them. The development branch tells the day behind its version.
#[verifier::rlimit(60)]
#[verifier::spinoff_prover]
pub proof fn automatic_tag_joins_its_parts(config: BuildConfig, date: Seq<char>)
    requires
        config.tag@.len() == 0,
    ensures
        config.tag_on(date) == "cp2k/cp2k:"@ + joined(
            seq![
                if config.version@ == "master"@ {
                    "master"@ + "_"@ + date
                } else {
                    config.version@
                },
                config.mpi@,
                if config.cuda@ == "none"@ {
                    config.cpu@
                } else {
                    config.cpu@ + "_cuda_"@ + config.cuda@
                },
                config.variant@,
            ],
            "_"@,
        ),
        occurs(config.tag_on(date), "_"@ + config.mpi@ + "_"@),
        config.is_dated() <==> config.version@ == "master"@,
{
    reveal_strlit("_");
    reveal_strlit("master_");
    reveal_strlit("master");
    reveal_strlit("_cuda_");
    let version = if config.version@ == "master"@ {
        "master"@ + "_"@ + date
    } else {
        config.version@
    };
    let target = if config.cuda@ == "none"@ {
        config.cpu@
    } else {
        config.cpu@ + "_cuda_"@ + config.cuda@
    };
    assert(version =~= config.version_on(date));
    assert(target =~= config.cpu@ + config.cuda_suffix());
    let parts = seq![version, config.mpi@, target, config.variant@];
    reveal_with_fuel(joined, 5);
    assert(parts.drop_last() =~= seq![version, config.mpi@, target]);
    assert(parts.drop_last().drop_last() =~= seq![version, config.mpi@]);
    assert(parts.drop_last().drop_last().drop_last() =~= seq![version]);
    let all = joined(parts, "_"@);
    assert(all == version + "_"@ + config.mpi@ + "_"@ + target + "_"@ + config.variant@);
    let head = "cp2k/cp2k:"@;
    assert(head + version + "_"@ + config.mpi@ + "_"@ + target + "_"@ + config.variant@ =~= head
        + all);
    assert(head + version + "_"@ + config.mpi@ + "_"@ + config.cpu@ + config.cuda_suffix()
        =~= head + version + "_"@ + config.mpi@ + "_"@ + target);
    broadcast use occurs_in_longer;

    triple_occurs(head + version, "_"@, config.mpi@, "_"@);
}

/// Two configurations that differ in one part that the tag tells have different
/// automatic tags.
#[verifier::rlimit(60)]
#[verifier::spinoff_prover]
pub proof fn automatic_tags_tell_configurations_apart(
    a: BuildConfig,
    b: BuildConfig,
    date: Seq<char>,
)
    requires
        a.tag@.len() == 0,
        b.tag@.len() == 0,
        a.tag_on(date) == b.tag_on(date),
    ensures
        b.version@ == a.version@ && b.cpu@ == a.cpu@ && b.cuda@ == a.cuda@ && b.variant@
            == a.variant@ ==> b.mpi@ == a.mpi@,
        b.version@ == a.version@ && b.mpi@ == a.mpi@ && b.cuda@ == a.cuda@ && b.variant@
            == a.variant@ ==> b.cpu@ == a.cpu@,
        b.version@ == a.version@ && b.mpi@ == a.mpi@ && b.cpu@ == a.cpu@ && b.cuda@ == a.cuda@
            ==> b.variant@ == a.variant@,
        b.version@ == a.version@ && b.mpi@ == a.mpi@ && b.cpu@ == a.cpu@ && b.variant@
            == a.variant@ ==> b.cuda@ == a.cuda@,
        b.mpi@ == a.mpi@ && b.cpu@ == a.cpu@ && b.cuda@ == a.cuda@ && b.variant@ == a.variant@
            && a.version@ != "master"@ && b.version@ != "master"@ ==> b.version@ == a.version@,
{
    let head = "cp2k/cp2k:"@;
    let va = a.version_on(date);
    let vb = b.version_on(date);
    let sa = a.cuda_suffix();
    let sb = b.cuda_suffix();
    if b.version@ == a.version@ && b.cpu@ == a.cpu@ && b.cuda@ == a.cuda@ && b.variant@
        == a.variant@ {
        let front = head + va + "_"@;
        let back = "_"@ + a.cpu@ + sa + "_"@ + a.variant@;
        assert(a.tag_on(date) =~= front + a.mpi@ + back);
        assert(b.tag_on(date) =~= front + b.mpi@ + back);
        middles_agree(front, a.mpi@, b.mpi@, back);
    }
    if b.version@ == a.version@ && b.mpi@ == a.mpi@ && b.cuda@ == a.cuda@ && b.variant@
        == a.variant@ {
        let front = head + va + "_"@ + a.mpi@ + "_"@;
        let back = sa + "_"@ + a.variant@;
        assert(a.tag_on(date) =~= front + a.cpu@ + back);
        assert(b.tag_on(date) =~= front + b.cpu@ + back);
        middles_agree(front, a.cpu@, b.cpu@, back);
    }
    if b.version@ == a.version@ && b.mpi@ == a.mpi@ && b.cpu@ == a.cpu@ && b.cuda@ == a.cuda@ {
        let front = head + va + "_"@ + a.mpi@ + "_"@ + a.cpu@ + sa + "_"@;
        let back = Seq::<char>::empty();
        assert(a.tag_on(date) =~= front + a.variant@ + back);
        assert(b.tag_on(date) =~= front + b.variant@ + back);
        middles_agree(front, a.variant@, b.variant@, back);
    }
    if b.version@ == a.version@ && b.mpi@ == a.mpi@ && b.cpu@ == a.cpu@ && b.variant@
        == a.variant@ {
        let front = head + va + "_"@ + a.mpi@ + "_"@ + a.cpu@;
        let back = "_"@ + a.variant@;
        assert(a.tag_on(date) =~= front + sa + back);
        assert(b.tag_on(date) =~= front + sb + back);
        middles_agree(front, sa, sb, back);
        suffixes_tell_the_gpu(a.cuda@, b.cuda@);
    }
    if b.mpi@ == a.mpi@ && b.cpu@ == a.cpu@ && b.cuda@ == a.cuda@ && b.variant@ == a.variant@ {
        let back = "_"@ + a.mpi@ + "_"@ + a.cpu@ + sa + "_"@ + a.variant@;
        assert(a.tag_on(date) =~= head + va + back);
        assert(b.tag_on(date) =~= head + vb + back);
        middles_agree(head, va, vb, back);
    }
}

/// The part of a name that tells the GPU tells each GPU apart, and from none.
pub proof fn suffixes_tell_the_gpu(a: Seq<char>, b: Seq<char>)
    requires
        suffix_for(a) == suffix_for(b),
    ensures
        a == b,
{
    reveal_strlit("_cuda_");
    assert(("_cuda_"@ + a).len() == 6 + a.len());
    assert(("_cuda_"@ + b).len() == 6 + b.len());
    if a != "none"@ && b != "none"@ {
        assert("_cuda_"@ + a + seq![] =~= "_cuda_"@ + a);
        assert("_cuda_"@ + b + seq![] =~= "_cuda_"@ + b);
        middles_agree("_cuda_"@, a, b, seq![]);
    }
}

/// The tag depends on the configured tag, the version, the MPI implementation,
/// the CPU target, the GPU and the variant, and on nothing else; and on the day
/// only for an automatic tag of the development branch.
pub proof fn tag_depends_on_its_parts_alone(
    a: BuildConfig,
    b: BuildConfig,
    date: Seq<char>,
    other: Seq<char>,
)
    requires
        a.tag@ == b.tag@,
        a.version@ == b.version@,
        a.mpi@ == b.mpi@,
        a.cpu@ == b.cpu@,
        a.cuda@ == b.cuda@,
        a.variant@ == b.variant@,
    ensures
        a.tag_on(date) == b.tag_on(date),
        a.tag@.len() > 0 || a.version@ != "master"@ ==> a.tag_on(date) == a.tag_on(other),
        a.tag@.len() == 0 && a.version@ == "master"@ && a.tag_on(date) == a.tag_on(other)
            ==> date == other,
{
    if a.tag@.len() == 0 && a.version@ == "master"@ && a.tag_on(date) == a.tag_on(other) {
        let front = "cp2k/cp2k:"@ + "master_"@;
        let back = "_"@ + a.mpi@ + "_"@ + a.cpu@ + a.cuda_suffix() + "_"@ + a.variant@;
        assert(a.tag_on(date) =~= front + date + back);
        assert(a.tag_on(other) =~= front + other + back);
        middles_agree(front, date, other, back);
    }
}

/// A text is a tag of a configuration exactly where it is its tag on some day.
pub proof fn tags_are_those_of_days(config: BuildConfig, text: Seq<char>)
    ensures
        config.tag@.len() > 0 ==> (config.is_tag(text) <==> text == config.tag@),
        config.tag@.len() == 0 && config.version@ != "master"@ ==> (config.is_tag(text) <==> text
            == config.tag_on(Seq::empty())),
        config.is_tag(text) ==> exists|date: Seq<char>|
            is_date_stamp(date) && text == #[trigger] config.tag_on(date),
{
    if !config.is_dated() {
        config.undated_tag_is_tag();
    }
}

/// Some arguments give an option with a value right behind it.
pub open spec fn gives(args: Seq<Seq<char>>, option: Seq<char>, value: Seq<char>) -> bool {
    exists|i: int| 0 <= i < args.len() - 1 && #[trigger] args[i] == option && args[i + 1] == value
}

/// The arguments of `docker build` give the shared memory size, the Dockerfile,
/// the tag and the number of jobs, each behind its option, and end with the
/// context.
pub proof fn docker_args_give_their_options(
    config: BuildConfig,
    tag: Seq<char>,
    path: Seq<char>,
    context: Seq<char>,
)
    ensures
        ({
            let args = config.docker_args_view(tag, path, context);
            &&& args[0] == "build"@
            &&& gives(args, "--shm-size"@, config.shm_size@)
            &&& gives(args, "-f"@, path)
            &&& gives(args, "-t"@, tag)
            &&& exists|jobs: Seq<char>|
                parsed_u32(jobs) == Some(config.jobs) && gives(
                    args,
                    "--build-arg"@,
                    "NUM_PROCS="@ + jobs,
                )
            &&& args.last() == context
            &&& args.len() == if config.no_cache {
                11
            } else {
                10int
            }
            &&& config.no_cache ==> args[3] == "--no-cache"@
        }),
{
    let args = config.docker_args_view(tag, path, context);
    let k: int = if config.no_cache {
        1
    } else {
        0
    };
    decimal_reads_back(config.jobs);
    let jobs = decimal(config.jobs as nat);
    assert(args[1] == "--shm-size"@ && args[2] == config.shm_size@);
    assert(args[3 + k] == "-f"@ && args[3 + k + 1] == path);
    assert(args[5 + k] == "-t"@ && args[5 + k + 1] == tag);
    assert(args[7 + k] == "--build-arg"@ && args[7 + k + 1] == "NUM_PROCS="@ + jobs);
    assert(gives(args, "--shm-size"@, config.shm_size@));
    assert(gives(args, "-f"@, path));
    assert(gives(args, "-t"@, tag));
    assert(gives(args, "--build-arg"@, "NUM_PROCS="@ + jobs));
}

/// Turning the cache off adds one argument behind the shared memory size and
/// changes nothing else.
pub proof fn no_cache_adds_one_argument(
    a: BuildConfig,
    b: BuildConfig,
    tag: Seq<char>,
    path: Seq<char>,
    context: Seq<char>,
)
    requires
        a.no_cache,
        !b.no_cache,
        a.shm_size@ == b.shm_size@,
        a.jobs == b.jobs,
    ensures
        a.docker_args_view(tag, path, context) == b.docker_args_view(tag, path, context).insert(
            3,
            "--no-cache"@,
        ),
{
    assert(a.docker_args_view(tag, path, context) =~= b.docker_args_view(
        tag,
        path,
        context,
    ).insert(3, "--no-cache"@));
}

/// Equal arguments come from equal settings: nothing that the user sets for
/// `docker build` is lost, and nothing else has a say.
pub proof fn docker_args_tell_their_settings(
    a: BuildConfig,
    b: BuildConfig,
    tag: Seq<char>,
    path: Seq<char>,
    context: Seq<char>,
    tag2: Seq<char>,
    path2: Seq<char>,
    context2: Seq<char>,
)
    ensures
        a.docker_args_view(tag, path, context) == b.docker_args_view(tag2, path2, context2) <==> (
        a.shm_size@ == b.shm_size@ && a.no_cache == b.no_cache && a.jobs == b.jobs && tag == tag2
            && path == path2 && context == context2),
{
    let x = a.docker_args_view(tag, path, context);
    let y = b.docker_args_view(tag2, path2, context2);
    if x == y {
        let k: int = if a.no_cache {
            1
        } else {
            0
        };
        assert(x.len() == 10 + k);
        assert(y.len() == if b.no_cache {
            11int
        } else {
            10
        });
        assert(x[2] == a.shm_size@ && y[2] == b.shm_size@);
        assert(x[4 + k] == path && y[4 + k] == path2);
        assert(x[6 + k] == tag && y[6 + k] == tag2);
        assert(x[9 + k] == context && y[9 + k] == context2);
        let m = decimal(a.jobs as nat);
        let n = decimal(b.jobs as nat);
        assert(x[8 + k] == "NUM_PROCS="@ + m && y[8 + k] == "NUM_PROCS="@ + n);
        assert("NUM_PROCS="@ + m + seq![] =~= "NUM_PROCS="@ + m);
        assert("NUM_PROCS="@ + n + seq![] =~= "NUM_PROCS="@ + n);
        middles_agree("NUM_PROCS="@, m, n, seq![]);
        decimal_reads_back(a.jobs);
        decimal_reads_back(b.jobs);
    }
}

/// The context is the parent of the Dockerfile's path where it has one.
pub proof fn context_is_the_parent(dockerfile: DockerfilePath)
    ensures
        dockerfile.parent matches Some(parent) ==> dockerfile.context() == parent@,
        dockerfile.parent is None ==> dockerfile.context() == "."@,
{
}

/// The bundled Dockerfile of a release is named like its automatic tag: both tell
/// the same parts in the same order. Every method but the toolchain has the
/// Dockerfiles of Spack, whose names tell no GPU.
#[verifier::rlimit(60)]
#[verifier::spinoff_prover]
pub proof fn bundled_names_follow_the_tag(config: BuildConfig, date: Seq<char>)
    requires
        config.tag@.len() == 0,
        config.version@ != "master"@,
    ensures
        exists|stem: Seq<char>|
            {
                &&& config.tag_on(date) == #[trigger] ("cp2k/cp2k:"@ + stem)
                &&& config.method@ == "toolchain"@ ==> config.dockerfile_name_view()
                    == "toolchain/"@ + stem + ".Dockerfile"@
                &&& config.method@ != "toolchain"@ && config.cuda@ == "none"@
                    ==> config.dockerfile_name_view() == "spack/"@ + stem + ".Dockerfile"@
            },
{
    let stem = config.version@ + "_"@ + config.mpi@ + "_"@ + config.cpu@ + config.cuda_suffix()
        + "_"@ + config.variant@;
    assert(config.tag_on(date) =~= "cp2k/cp2k:"@ + stem);
    if config.method@ == "toolchain"@ {
        assert(config.dockerfile_name_view() =~= "toolchain/"@ + stem + ".Dockerfile"@);
    } else if config.cuda@ == "none"@ {
        assert(config.dockerfile_name_view() =~= "spack/"@ + stem + ".Dockerfile"@);
    }
}

/// The name of a bundled Dockerfile takes each part of the configuration as it
/// is: another version, MPI implementation, CPU target or variant takes the
/// place of the first. It depends on nothing else.
#[verifier::rlimit(60)]
#[verifier::spinoff_prover]
pub proof fn bundled_names_take_their_parts(a: BuildConfig, b: BuildConfig)
    requires
        (a.method@ == "toolchain"@) == (b.method@ == "toolchain"@),
        a.method@ == "toolchain"@ ==> a.cuda@ == b.cuda@,
    ensures
        a.mpi@ == b.mpi@ && a.cpu@ == b.cpu@ && a.variant@ == b.variant@ ==> (
        a.dockerfile_name_view() == b.dockerfile_name_view() <==> a.version@ == b.version@),
        a.version@ == b.version@ && a.cpu@ == b.cpu@ && a.variant@ == b.variant@ ==> (
        a.dockerfile_name_view() == b.dockerfile_name_view() <==> a.mpi@ == b.mpi@),
        a.version@ == b.version@ && a.mpi@ == b.mpi@ && a.variant@ == b.variant@ ==> (
        a.dockerfile_name_view() == b.dockerfile_name_view() <==> a.cpu@ == b.cpu@),
        a.version@ == b.version@ && a.mpi@ == b.mpi@ && a.cpu@ == b.cpu@ ==> (
        a.dockerfile_name_view() == b.dockerfile_name_view() <==> a.variant@ == b.variant@),
{
    let toolchain = a.method@ == "toolchain"@;
    let head = if toolchain {
        "toolchain/"@
    } else {
        "spack/"@
    };
    let gpu = if toolchain {
        a.cuda_suffix()
    } else {
        Seq::empty()
    };
    let end = ".Dockerfile"@;
    assert(a.dockerfile_name_view() =~= head + a.version@ + "_"@ + a.mpi@ + "_"@ + a.cpu@ + gpu
        + "_"@ + a.variant@ + end);
    assert(b.dockerfile_name_view() =~= head + b.version@ + "_"@ + b.mpi@ + "_"@ + b.cpu@ + gpu
        + "_"@ + b.variant@ + end);
    if a.dockerfile_name_view() == b.dockerfile_name_view() {
        if a.mpi@ == b.mpi@ && a.cpu@ == b.cpu@ && a.variant@ == b.variant@ {
            assert(a.version@ == b.version@) by {
                let back = "_"@ + a.mpi@ + "_"@ + a.cpu@ + gpu + "_"@ + a.variant@ + end;
                assert(a.dockerfile_name_view() =~= head + a.version@ + back);
                assert(b.dockerfile_name_view() =~= head + b.version@ + back);
                middles_agree(head, a.version@, b.version@, back);
            }
        }
        if a.version@ == b.version@ && a.cpu@ == b.cpu@ && a.variant@ == b.variant@ {
            assert(a.mpi@ == b.mpi@) by {
                let front = head + a.version@ + "_"@;
                let back = "_"@ + a.cpu@ + gpu + "_"@ + a.variant@ + end;
                assert(a.dockerfile_name_view() =~= front + a.mpi@ + back);
                assert(b.dockerfile_name_view() =~= front + b.mpi@ + back);
                middles_agree(front, a.mpi@, b.mpi@, back);
            }
        }
        if a.version@ == b.version@ && a.mpi@ == b.mpi@ && a.variant@ == b.variant@ {
            assert(a.cpu@ == b.cpu@) by {
                let front = head + a.version@ + "_"@ + a.mpi@ + "_"@;
                let back = gpu + "_"@ + a.variant@ + end;
                assert(a.dockerfile_name_view() =~= front + a.cpu@ + back);
                assert(b.dockerfile_name_view() =~= front + b.cpu@ + back);
                middles_agree(front, a.cpu@, b.cpu@, back);
            }
        }
        if a.version@ == b.version@ && a.mpi@ == b.mpi@ && a.cpu@ == b.cpu@ {
            assert(a.variant@ == b.variant@) by {
                let front = head + a.version@ + "_"@ + a.mpi@ + "_"@ + a.cpu@ + gpu + "_"@;
                assert(a.dockerfile_name_view() =~= front + a.variant@ + end);
                assert(b.dockerfile_name_view() =~= front + b.variant@ + end);
                middles_agree(front, a.variant@, b.variant@, end);
            }
        }
    }
}

/// The file names that a tag gives have the characters of the tag, but for an
/// underscore in the place of each slash and colon, and then their ending.
pub proof fn file_names_keep_the_tag(tag: Seq<char>)
    ensures
        forall|i: int|
            0 <= i < tag.len() ==> #[trigger] file_name_for(tag)[i] == (if tag[i] == '/' || tag[i]
                == ':' {
                '_'
            } else {
                tag[i]
            }) && archive_name_for(tag)[i] == file_name_for(tag)[i],
        file_name_for(tag).skip(tag.len() as int) == ".Dockerfile"@,
        archive_name_for(tag).skip(tag.len() as int) == ".tar"@,
{
    replacing_is_by_characters(tag, '/', '_');
    replacing_is_by_characters(replaced(tag, '/', '_'), ':', '_');
    assert(file_name_for(tag).skip(tag.len() as int) =~= ".Dockerfile"@);
    assert(archive_name_for(tag).skip(tag.len() as int) =~= ".tar"@);
    assert forall|i: int| 0 <= i < tag.len() implies #[trigger] file_name_for(tag)[i] == (
    if tag[i] == '/' || tag[i] == ':' {
        '_'
    } else {
        tag[i]
    }) && archive_name_for(tag)[i] == file_name_for(tag)[i] by {
        let once = replaced(tag, '/', '_');
        assert(replaced(once, ':', '_')[i] == if once[i] == ':' {
            '_'
        } else {
            once[i]
        });
    }
}

/// The development branch, native builds, GPUs and archives are told by the words
/// that ask for them, whatever else the configuration says.
pub proof fn words_tell_the_kind(config: BuildConfig)
    ensures
        config.is_master() <==> config.version@ == "master"@,
        config.is_native() <==> config.method@ == "native"@,
        config.has_cuda() <==> config.cuda@ != "none"@,
        config.wants_archive() <==> config._output@ == "image"@,
        config.is_dated() <==> config.tag@.len() == 0 && config.version@ == "master"@,
{
}

} // verus!
