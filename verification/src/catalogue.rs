//! The catalogue of ready-made build configurations.

use crate::config::bundled_name;
use crate::config::suffix_for;
use crate::dockerfile::base_of;
use crate::page::plain;
use crate::page::styled;
use crate::page::Page;
use crate::page::PieceView;
use crate::page::Tone;
use crate::text::decimal;
use crate::text::decimal_text;
use crate::text::is_word;
use crate::text::occurs;
use crate::text::occurs_behind;
use crate::text::occurs_in_longer;
use crate::text::pair_occurs;
use crate::text::same;
use crate::text::same_form;
use crate::text::same_form_joins;
use crate::text::same_form_of_itself;
use crate::text::same_form_of_values;
use crate::text::word_stands_alone;
use crate::text::words_join;
use crate::text::words_of;
use vstd::prelude::*;

verus! {

/// A ready-made build configuration.
#[derive(Debug)]
pub struct ConfigInfo {
    pub method: String,
    pub version: String,
    pub mpi: String,
    pub cpu: String,
    pub cuda: String,
    pub variant: String,
    pub _dockerfile: String,
    pub base_image: String,
    pub description: String,
}

/// What an entry of the catalogue says.
#[verifier::ext_equal]
pub struct ConfigInfoView {
    pub method: Seq<char>,
    pub version: Seq<char>,
    pub mpi: Seq<char>,
    pub cpu: Seq<char>,
    pub cuda: Seq<char>,
    pub variant: Seq<char>,
    pub dockerfile: Seq<char>,
    pub base_image: Seq<char>,
    pub description: Seq<char>,
}

impl View for ConfigInfo {
    type V = ConfigInfoView;

    open spec fn view(&self) -> ConfigInfoView {
        ConfigInfoView {
            method: self.method@,
            version: self.version@,
            mpi: self.mpi@,
            cpu: self.cpu@,
            cuda: self.cuda@,
            variant: self.variant@,
            dockerfile: self._dockerfile@,
            base_image: self.base_image@,
            description: self.description@,
        }
    }
}

impl Clone for ConfigInfo {
    fn clone(&self) -> (r: ConfigInfo)
        ensures
            r@ == self@,
    {
        ConfigInfo {
            method: self.method.clone(),
            version: self.version.clone(),
            mpi: self.mpi.clone(),
            cpu: self.cpu.clone(),
            cuda: self.cuda.clone(),
            variant: self.variant.clone(),
            _dockerfile: self._dockerfile.clone(),
            base_image: self.base_image.clone(),
            description: self.description.clone(),
        }
    }
}

/// What the entries of a list say.
pub open spec fn entries(configs: Seq<ConfigInfo>) -> Seq<ConfigInfoView> {
    configs.map_values(|c: ConfigInfo| c@)
}

/// An entry of the catalogue.
pub open spec fn listed(
    method: Seq<char>,
    version: Seq<char>,
    mpi: Seq<char>,
    cpu: Seq<char>,
    cuda: Seq<char>,
    variant: Seq<char>,
    dockerfile: Seq<char>,
    base_image: Seq<char>,
    description: Seq<char>,
) -> ConfigInfoView {
    ConfigInfoView { method, version, mpi, cpu, cuda, variant, dockerfile, base_image, description }
}

/// The catalogue, the recommended configuration first.
pub open spec fn catalogue() -> Seq<ConfigInfoView> {
    seq![
        listed(
            "spack"@,
            "2026.1"@,
            "mpich"@,
            "x86_64"@,
            "none"@,
            "psmp"@,
            "2026.1_mpich_x86_64_psmp.Dockerfile"@,
            "ubuntu:24.04"@,
            "CP2K v2026.1 with Spack + MPICH, x86_64 (recommended)"@,
        ),
        listed(
            "spack"@,
            "2026.1"@,
            "mpich"@,
            "cascadelake"@,
            "none"@,
            "psmp"@,
            "2026.1_mpich_cascadelake_psmp.Dockerfile"@,
            "ubuntu:24.04"@,
            "CP2K v2026.1 with MPICH, optimized for Cascade Lake CPUs"@,
        ),
        listed(
            "spack"@,
            "2026.1"@,
            "openmpi"@,
            "cascadelake"@,
            "none"@,
            "psmp"@,
            "2026.1_openmpi_cascadelake_psmp.Dockerfile"@,
            "ubuntu:24.04"@,
            "CP2K v2026.1 with OpenMPI, optimized for Cascade Lake CPUs"@,
        ),
        listed(
            "toolchain"@,
            "master"@,
            "mpich"@,
            "generic"@,
            "none"@,
            "psmp"@,
            "master_mpich_generic_psmp.Dockerfile"@,
            "ubuntu:22.04"@,
            "CP2K latest master branch (bleeding edge)"@,
        ),
        listed(
            "spack"@,
            "2025.2"@,
            "mpich"@,
            "x86_64"@,
            "none"@,
            "psmp"@,
            "2025.2_mpich_x86_64_psmp.Dockerfile"@,
            "ubuntu:24.04"@,
            "CP2K 2025.2 with MPICH, x86_64 (stable)"@,
        ),
        listed(
            "spack"@,
            "2025.2"@,
            "mpich"@,
            "cascadelake"@,
            "none"@,
            "psmp"@,
            "2025.2_mpich_cascadelake_psmp.Dockerfile"@,
            "ubuntu:24.04"@,
            "CP2K 2025.2 with MPICH, optimized for Cascade Lake CPUs"@,
        ),
        listed(
            "spack"@,
            "2025.2"@,
            "openmpi"@,
            "cascadelake"@,
            "none"@,
            "psmp"@,
            "2025.2_openmpi_cascadelake_psmp.Dockerfile"@,
            "ubuntu:24.04"@,
            "CP2K 2025.2 with OpenMPI, optimized for Cascade Lake CPUs"@,
        ),
        listed(
            "toolchain"@,
            "2023.2"@,
            "mpich"@,
            "generic"@,
            "none"@,
            "psmp"@,
            "2023.2_mpich_generic_psmp.Dockerfile"@,
            "ubuntu:22.04"@,
            "CP2K 2023.2 with MPICH, generic x86_64 (LTS)"@,
        ),
        listed(
            "toolchain"@,
            "2023.2"@,
            "mpich"@,
            "generic"@,
            "V100"@,
            "psmp"@,
            "2023.2_mpich_generic_cuda_V100_psmp.Dockerfile"@,
            "nvidia/cuda:12.2.0-devel-ubuntu22.04"@,
            "CP2K 2023.2 with CUDA V100 GPU acceleration"@,
        ),
        listed(
            "toolchain"@,
            "2023.2"@,
            "mpich"@,
            "generic"@,
            "P100"@,
            "psmp"@,
            "2023.2_mpich_generic_cuda_P100_psmp.Dockerfile"@,
            "nvidia/cuda:12.2.0-devel-ubuntu22.04"@,
            "CP2K 2023.2 with CUDA P100 GPU acceleration"@,
        ),
    ]
}

/// Adds an entry to a list.
fn list(
    configs: &mut Vec<ConfigInfo>,
    method: &str,
    version: &str,
    mpi: &str,
    cpu: &str,
    cuda: &str,
    variant: &str,
    dockerfile: &str,
    base_image: &str,
    description: &str,
)
    ensures
        entries(final(configs)@) == entries(old(configs)@).push(
            listed(
                method@,
                version@,
                mpi@,
                cpu@,
                cuda@,
                variant@,
                dockerfile@,
                base_image@,
                description@,
            ),
        ),
{
    let config = ConfigInfo {
        method: method.to_owned(),
        version: version.to_owned(),
        mpi: mpi.to_owned(),
        cpu: cpu.to_owned(),
        cuda: cuda.to_owned(),
        variant: variant.to_owned(),
        _dockerfile: dockerfile.to_owned(),
        base_image: base_image.to_owned(),
        description: description.to_owned(),
    };
    let ghost shown = config@;
    configs.push(config);
    assert(entries(configs@) =~= entries(old(configs)@).push(shown));
}

/// The ready-made build configurations.
pub fn list_available_configs() -> (r: Vec<ConfigInfo>)
    ensures
        entries(r@) == catalogue(),
{
    let mut configs: Vec<ConfigInfo> = Vec::new();
    assert(entries(configs@) =~= seq![]);
    list(
        &mut configs,
        "spack",
        "2026.1",
        "mpich",
        "x86_64",
        "none",
        "psmp",
        "2026.1_mpich_x86_64_psmp.Dockerfile",
        "ubuntu:24.04",
        "CP2K v2026.1 with Spack + MPICH, x86_64 (recommended)",
    );
    list(
        &mut configs,
        "spack",
        "2026.1",
        "mpich",
        "cascadelake",
        "none",
        "psmp",
        "2026.1_mpich_cascadelake_psmp.Dockerfile",
        "ubuntu:24.04",
        "CP2K v2026.1 with MPICH, optimized for Cascade Lake CPUs",
    );
    list(
        &mut configs,
        "spack",
        "2026.1",
        "openmpi",
        "cascadelake",
        "none",
        "psmp",
        "2026.1_openmpi_cascadelake_psmp.Dockerfile",
        "ubuntu:24.04",
        "CP2K v2026.1 with OpenMPI, optimized for Cascade Lake CPUs",
    );
    list(
        &mut configs,
        "toolchain",
        "master",
        "mpich",
        "generic",
        "none",
        "psmp",
        "master_mpich_generic_psmp.Dockerfile",
        "ubuntu:22.04",
        "CP2K latest master branch (bleeding edge)",
    );
    list(
        &mut configs,
        "spack",
        "2025.2",
        "mpich",
        "x86_64",
        "none",
        "psmp",
        "2025.2_mpich_x86_64_psmp.Dockerfile",
        "ubuntu:24.04",
        "CP2K 2025.2 with MPICH, x86_64 (stable)",
    );
    list(
        &mut configs,
        "spack",
        "2025.2",
        "mpich",
        "cascadelake",
        "none",
        "psmp",
        "2025.2_mpich_cascadelake_psmp.Dockerfile",
        "ubuntu:24.04",
        "CP2K 2025.2 with MPICH, optimized for Cascade Lake CPUs",
    );
    list(
        &mut configs,
        "spack",
        "2025.2",
        "openmpi",
        "cascadelake",
        "none",
        "psmp",
        "2025.2_openmpi_cascadelake_psmp.Dockerfile",
        "ubuntu:24.04",
        "CP2K 2025.2 with OpenMPI, optimized for Cascade Lake CPUs",
    );
    list(
        &mut configs,
        "toolchain",
        "2023.2",
        "mpich",
        "generic",
        "none",
        "psmp",
        "2023.2_mpich_generic_psmp.Dockerfile",
        "ubuntu:22.04",
        "CP2K 2023.2 with MPICH, generic x86_64 (LTS)",
    );
    list(
        &mut configs,
        "toolchain",
        "2023.2",
        "mpich",
        "generic",
        "V100",
        "psmp",
        "2023.2_mpich_generic_cuda_V100_psmp.Dockerfile",
        "nvidia/cuda:12.2.0-devel-ubuntu22.04",
        "CP2K 2023.2 with CUDA V100 GPU acceleration",
    );
    list(
        &mut configs,
        "toolchain",
        "2023.2",
        "mpich",
        "generic",
        "P100",
        "psmp",
        "2023.2_mpich_generic_cuda_P100_psmp.Dockerfile",
        "nvidia/cuda:12.2.0-devel-ubuntu22.04",
        "CP2K 2023.2 with CUDA P100 GPU acceleration",
    );
    configs
}

/// An entry passes the filters on the method and on the version. A filter that
/// is not set lets every entry pass.
pub open spec fn passes(
    entry: ConfigInfoView,
    method: Option<Seq<char>>,
    version: Option<Seq<char>>,
) -> bool {
    (method matches Some(m) ==> entry.method == m) && (version matches Some(v) ==> entry.version
        == v)
}

/// The entries that pass the filters, in their order.
pub open spec fn selection(
    configs: Seq<ConfigInfoView>,
    method: Option<Seq<char>>,
    version: Option<Seq<char>>,
) -> Seq<ConfigInfoView> {
    configs.filter(|entry: ConfigInfoView| passes(entry, method, version))
}

/// The text of an optional filter.
pub open spec fn filter_text(filter: Option<String>) -> Option<Seq<char>> {
    match filter {
        Some(text) => Some(text@),
        None => None,
    }
}

/// The entries that pass the filters, in their order.
pub fn select_configs(
    configs: &Vec<ConfigInfo>,
    method: &Option<String>,
    version: &Option<String>,
) -> (r: Vec<ConfigInfo>)
    ensures
        entries(r@) == selection(entries(configs@), filter_text(*method), filter_text(*version)),
{
    let ghost pass = |entry: ConfigInfoView|
        passes(entry, filter_text(*method), filter_text(*version));
    let ghost all = entries(configs@);
    let mut out: Vec<ConfigInfo> = Vec::new();
    let mut i: usize = 0;
    proof {
        reveal(Seq::filter);
        assert(all.take(0) =~= seq![]);
        assert(entries(out@) =~= all.take(0).filter(pass));
    }
    while i < configs.len()
        invariant
            i <= configs@.len(),
            all == entries(configs@),
            pass == (|entry: ConfigInfoView|
                passes(entry, filter_text(*method), filter_text(*version))),
            entries(out@) == all.take(i as int).filter(pass),
        decreases configs@.len() - i,
    {
        let by_method = match method {
            Some(m) => same(configs[i].method.as_str(), m.as_str()),
            None => true,
        };
        let by_version = match version {
            Some(v) => same(configs[i].version.as_str(), v.as_str()),
            None => true,
        };
        let ghost before = out@;
        if by_method && by_version {
            out.push(configs[i].clone());
            assert(entries(out@) =~= entries(before).push(all[i as int]));
        }
        proof {
            reveal(Seq::filter);
            assert(all.take(i + 1).drop_last() =~= all.take(i as int));
            assert(all.take(i + 1).last() == all[i as int]);
        }
        i += 1;
    }
    assert(all.take(i as int) =~= all);
    out
}

/// The command that builds an entry of the catalogue.
pub open spec fn build_command(entry: ConfigInfoView) -> Seq<char> {
    " forge2k build -m "@ + entry.method + " -v "@ + entry.version + " --mpi "@ + entry.mpi
        + " --cpu "@ + entry.cpu + " --cuda "@ + entry.cuda + " --variant "@ + entry.variant
        + "\n\n"@
}

/// How the entry at the given place of a list is shown.
pub open spec fn entry_page(place: nat, entry: ConfigInfoView) -> Seq<PieceView> {
    seq![
        plain("  "@),
        styled(Tone::YellowBold, "#"@ + decimal(place)),
        plain("  "@),
        styled(Tone::Cyan, entry.description),
        plain("\n      "@),
        styled(Tone::Dimmed, "Method:"@),
        plain(" "@ + entry.method + "/"@ + entry.version + " ("@ + entry.base_image + ")\n      "@),
        styled(Tone::Dimmed, "Specs:"@),
        plain(" "@),
        styled(Tone::BrightBlue, "MPI="@ + entry.mpi),
        plain(" / "@),
        styled(Tone::BrightBlue, "CPU="@ + entry.cpu),
        plain(" / "@),
        styled(Tone::BrightBlue, "CUDA="@ + entry.cuda),
        plain(" / "@),
        styled(Tone::BrightBlue, "Variant="@ + entry.variant),
        plain("\n      "@),
        styled(Tone::Dimmed, "Build:"@),
        plain(build_command(entry)),
    ]
}

/// How a list of entries is shown, numbered from one.
pub open spec fn entry_pages(list: Seq<ConfigInfoView>) -> Seq<PieceView>
    decreases list.len(),
{
    if list.len() == 0 {
        seq![]
    } else {
        entry_pages(list.drop_last()) + entry_page(list.len(), list.last())
    }
}

/// The frame above the title of the list.
pub const LIST_TOP: &'static str = "╔══════════════════════════════════════════════════════════════════════════════════╗";

/// The title of the list.
pub const LIST_TITLE: &'static str = "║                           Available Build Configurations                        ║";

/// The frame below the title of the list.
pub const LIST_BOTTOM: &'static str = "╚══════════════════════════════════════════════════════════════════════════════════╝";

/// What the `list` command prints for the selected entries.
pub open spec fn list_page(selected: Seq<ConfigInfoView>) -> Seq<PieceView> {
    if selected.len() == 0 {
        seq![
            styled(Tone::Yellow, "ℹ"@),
            plain(" No configurations match the given filters.\n"@),
        ]
    } else {
        seq![
            plain("\n"@),
            styled(Tone::BrightBlack, LIST_TOP@),
            plain("\n"@),
            styled(Tone::YellowBold, LIST_TITLE@),
            plain("\n"@),
            styled(Tone::BrightBlack, LIST_BOTTOM@),
            plain("\n\n"@),
        ] + entry_pages(selected) + seq![
            plain("  "@),
            styled(Tone::Yellow, "💡"@),
            plain(" Run 'forge2k gui' for the interactive builder!\n\n"@),
        ]
    }
}

/// How the entry at the given place of a list is shown.
fn show_entry(place: usize, config: &ConfigInfo) -> (r: Page)
    ensures
        r@ == entry_page(place as nat, config@),
{
    let mut page = Page::new();
    page.write("  ");
    page.put(Tone::YellowBold, "#".to_owned().concat(decimal_text(place as u64).as_str()).as_str());
    page.write("  ");
    page.put(Tone::Cyan, config.description.as_str());
    page.write("\n      ");
    page.put(Tone::Dimmed, "Method:");
    page.write(
        " ".to_owned()
            .concat(config.method.as_str())
            .concat("/")
            .concat(config.version.as_str())
            .concat(" (")
            .concat(config.base_image.as_str())
            .concat(")\n      ")
            .as_str(),
    );
    page.put(Tone::Dimmed, "Specs:");
    page.write(" ");
    page.put(Tone::BrightBlue, "MPI=".to_owned().concat(config.mpi.as_str()).as_str());
    page.write(" / ");
    page.put(Tone::BrightBlue, "CPU=".to_owned().concat(config.cpu.as_str()).as_str());
    page.write(" / ");
    page.put(Tone::BrightBlue, "CUDA=".to_owned().concat(config.cuda.as_str()).as_str());
    page.write(" / ");
    page.put(Tone::BrightBlue, "Variant=".to_owned().concat(config.variant.as_str()).as_str());
    page.write("\n      ");
    page.put(Tone::Dimmed, "Build:");
    page.write(
        " forge2k build -m ".to_owned()
            .concat(config.method.as_str())
            .concat(" -v ")
            .concat(config.version.as_str())
            .concat(" --mpi ")
            .concat(config.mpi.as_str())
            .concat(" --cpu ")
            .concat(config.cpu.as_str())
            .concat(" --cuda ")
            .concat(config.cuda.as_str())
            .concat(" --variant ")
            .concat(config.variant.as_str())
            .concat("\n\n")
            .as_str(),
    );
    page
}

/// What the `list` command prints: the entries of the catalogue that pass the
/// filters.
pub fn cmd_list(method: Option<String>, version: Option<String>) -> (r: Page)
    ensures
        r@ == list_page(selection(catalogue(), filter_text(method), filter_text(version))),
{
    let configs = list_available_configs();
    let selected = select_configs(&configs, &method, &version);
    let ghost shown = entries(selected@);
    let mut page = Page::new();
    if selected.len() == 0 {
        page.put(Tone::Yellow, "ℹ");
        page.write(" No configurations match the given filters.\n");
        return page;
    }
    page.write("\n");
    page.put(Tone::BrightBlack, LIST_TOP);
    page.write("\n");
    page.put(Tone::YellowBold, LIST_TITLE);
    page.write("\n");
    page.put(Tone::BrightBlack, LIST_BOTTOM);
    page.write("\n\n");
    let ghost header = page@;
    let mut i: usize = 0;
    assert(shown.take(0) =~= seq![]);
    assert(page@ =~= header + entry_pages(shown.take(0)));
    while i < selected.len()
        invariant
            i <= selected@.len(),
            shown == entries(selected@),
            page@ == header + entry_pages(shown.take(i as int)),
        decreases selected@.len() - i,
    {
        page.append(show_entry(i + 1, &selected[i]));
        proof {
            let next = shown.take(i + 1);
            assert(next.drop_last() =~= shown.take(i as int));
            assert(next.last() == selected@[i as int]@);
            assert(page@ =~= header + entry_pages(next));
        }
        i += 1;
    }
    assert(shown.take(i as int) =~= shown);
    page.write("  ");
    page.put(Tone::Yellow, "💡");
    page.write(" Run 'forge2k gui' for the interactive builder!\n\n");
    assert(page@ =~= list_page(shown));
    page
}

/// A Spack file name is found below the directory of its method.
proof fn spack_name_joins(
    version: Seq<char>,
    mpi: Seq<char>,
    cpu: Seq<char>,
    cuda: Seq<char>,
    variant: Seq<char>,
    file: Seq<char>,
)
    requires
        file == version + "_"@ + mpi + "_"@ + cpu + "_"@ + variant + ".Dockerfile"@,
    ensures
        bundled_name("spack"@, version, mpi, cpu, cuda, variant) == "spack"@ + "/"@ + file,
{
    reveal_strlit("spack");
    reveal_strlit("toolchain");
    reveal_strlit("/");
    reveal_strlit("spack/");
    assert("spack"@[0] != "toolchain"@[0]);
    assert("spack/"@ =~= "spack"@ + "/"@);
    assert(bundled_name("spack"@, version, mpi, cpu, cuda, variant) =~= "spack"@ + "/"@ + file);
}

/// A toolchain file name is found below the directory of its method.
proof fn toolchain_name_joins(
    version: Seq<char>,
    mpi: Seq<char>,
    cpu: Seq<char>,
    cuda: Seq<char>,
    variant: Seq<char>,
    file: Seq<char>,
)
    requires
        file == version + "_"@ + mpi + "_"@ + cpu + suffix_for(cuda) + "_"@ + variant
            + ".Dockerfile"@,
    ensures
        bundled_name("toolchain"@, version, mpi, cpu, cuda, variant) == "toolchain"@ + "/"@ + file,
{
    reveal_strlit("toolchain");
    reveal_strlit("/");
    reveal_strlit("toolchain/");
    assert("toolchain/"@ =~= "toolchain"@ + "/"@);
    assert(bundled_name("toolchain"@, version, mpi, cpu, cuda, variant) =~= "toolchain"@ + "/"@
        + file);
}

/// An entry names the Dockerfile that its own configuration asks for.
pub open spec fn names_its_dockerfile(entry: ConfigInfoView) -> bool {
    bundled_name(entry.method, entry.version, entry.mpi, entry.cpu, entry.cuda, entry.variant)
        == entry.method + "/"@ + entry.dockerfile
}

/// Every entry of the catalogue names the Dockerfile that its own configuration
/// asks for.
pub proof fn catalogue_names_its_dockerfiles()
    ensures
        forall|i: int|
            0 <= i < catalogue().len() ==> names_its_dockerfile(#[trigger] catalogue()[i]),
{
    assert(suffix_for("none"@) =~= seq![]);
    assert(names_its_dockerfile(catalogue()[0])) by {
        reveal_strlit(".Dockerfile");
        reveal_strlit("2026.1");
        reveal_strlit("2026.1_mpich_x86_64_psmp.Dockerfile");
        reveal_strlit("_");
        reveal_strlit("mpich");
        reveal_strlit("psmp");
        reveal_strlit("x86_64");
        assert("2026.1_mpich_x86_64_psmp.Dockerfile"@ =~= "2026.1"@ + "_"@ + "mpich"@ + "_"@ + "x86_64"@ + "_"@ + "psmp"@
            + ".Dockerfile"@);
        spack_name_joins("2026.1"@, "mpich"@, "x86_64"@, "none"@, "psmp"@, "2026.1_mpich_x86_64_psmp.Dockerfile"@);
    }
    assert(names_its_dockerfile(catalogue()[1])) by {
        reveal_strlit(".Dockerfile");
        reveal_strlit("2026.1");
        reveal_strlit("2026.1_mpich_cascadelake_psmp.Dockerfile");
        reveal_strlit("_");
        reveal_strlit("cascadelake");
        reveal_strlit("mpich");
        reveal_strlit("psmp");
        assert("2026.1_mpich_cascadelake_psmp.Dockerfile"@ =~= "2026.1"@ + "_"@ + "mpich"@ + "_"@ + "cascadelake"@ + "_"@ + "psmp"@
            + ".Dockerfile"@);
        spack_name_joins("2026.1"@, "mpich"@, "cascadelake"@, "none"@, "psmp"@, "2026.1_mpich_cascadelake_psmp.Dockerfile"@);
    }
    assert(names_its_dockerfile(catalogue()[2])) by {
        reveal_strlit(".Dockerfile");
        reveal_strlit("2026.1");
        reveal_strlit("2026.1_openmpi_cascadelake_psmp.Dockerfile");
        reveal_strlit("_");
        reveal_strlit("cascadelake");
        reveal_strlit("openmpi");
        reveal_strlit("psmp");
        assert("2026.1_openmpi_cascadelake_psmp.Dockerfile"@ =~= "2026.1"@ + "_"@ + "openmpi"@ + "_"@ + "cascadelake"@ + "_"@ + "psmp"@
            + ".Dockerfile"@);
        spack_name_joins("2026.1"@, "openmpi"@, "cascadelake"@, "none"@, "psmp"@, "2026.1_openmpi_cascadelake_psmp.Dockerfile"@);
    }
    assert(names_its_dockerfile(catalogue()[3])) by {
        reveal_strlit(".Dockerfile");
        reveal_strlit("_");
        reveal_strlit("generic");
        reveal_strlit("master");
        reveal_strlit("master_mpich_generic_psmp.Dockerfile");
        reveal_strlit("mpich");
        reveal_strlit("psmp");
        assert("master_mpich_generic_psmp.Dockerfile"@ =~= "master"@ + "_"@ + "mpich"@ + "_"@ + "generic"@ + suffix_for("none"@) + "_"@
            + "psmp"@ + ".Dockerfile"@);
        toolchain_name_joins("master"@, "mpich"@, "generic"@, "none"@, "psmp"@, "master_mpich_generic_psmp.Dockerfile"@);
    }
    assert(names_its_dockerfile(catalogue()[4])) by {
        reveal_strlit(".Dockerfile");
        reveal_strlit("2025.2");
        reveal_strlit("2025.2_mpich_x86_64_psmp.Dockerfile");
        reveal_strlit("_");
        reveal_strlit("mpich");
        reveal_strlit("psmp");
        reveal_strlit("x86_64");
        assert("2025.2_mpich_x86_64_psmp.Dockerfile"@ =~= "2025.2"@ + "_"@ + "mpich"@ + "_"@ + "x86_64"@ + "_"@ + "psmp"@
            + ".Dockerfile"@);
        spack_name_joins("2025.2"@, "mpich"@, "x86_64"@, "none"@, "psmp"@, "2025.2_mpich_x86_64_psmp.Dockerfile"@);
    }
    assert(names_its_dockerfile(catalogue()[5])) by {
        reveal_strlit(".Dockerfile");
        reveal_strlit("2025.2");
        reveal_strlit("2025.2_mpich_cascadelake_psmp.Dockerfile");
        reveal_strlit("_");
        reveal_strlit("cascadelake");
        reveal_strlit("mpich");
        reveal_strlit("psmp");
        assert("2025.2_mpich_cascadelake_psmp.Dockerfile"@ =~= "2025.2"@ + "_"@ + "mpich"@ + "_"@ + "cascadelake"@ + "_"@ + "psmp"@
            + ".Dockerfile"@);
        spack_name_joins("2025.2"@, "mpich"@, "cascadelake"@, "none"@, "psmp"@, "2025.2_mpich_cascadelake_psmp.Dockerfile"@);
    }
    assert(names_its_dockerfile(catalogue()[6])) by {
        reveal_strlit(".Dockerfile");
        reveal_strlit("2025.2");
        reveal_strlit("2025.2_openmpi_cascadelake_psmp.Dockerfile");
        reveal_strlit("_");
        reveal_strlit("cascadelake");
        reveal_strlit("openmpi");
        reveal_strlit("psmp");
        assert("2025.2_openmpi_cascadelake_psmp.Dockerfile"@ =~= "2025.2"@ + "_"@ + "openmpi"@ + "_"@ + "cascadelake"@ + "_"@ + "psmp"@
            + ".Dockerfile"@);
        spack_name_joins("2025.2"@, "openmpi"@, "cascadelake"@, "none"@, "psmp"@, "2025.2_openmpi_cascadelake_psmp.Dockerfile"@);
    }
    assert(names_its_dockerfile(catalogue()[7])) by {
        reveal_strlit(".Dockerfile");
        reveal_strlit("2023.2");
        reveal_strlit("2023.2_mpich_generic_psmp.Dockerfile");
        reveal_strlit("_");
        reveal_strlit("generic");
        reveal_strlit("mpich");
        reveal_strlit("psmp");
        assert("2023.2_mpich_generic_psmp.Dockerfile"@ =~= "2023.2"@ + "_"@ + "mpich"@ + "_"@ + "generic"@ + suffix_for("none"@) + "_"@
            + "psmp"@ + ".Dockerfile"@);
        toolchain_name_joins("2023.2"@, "mpich"@, "generic"@, "none"@, "psmp"@, "2023.2_mpich_generic_psmp.Dockerfile"@);
    }
    assert(names_its_dockerfile(catalogue()[8])) by {
        reveal_strlit(".Dockerfile");
        reveal_strlit("2023.2");
        reveal_strlit("2023.2_mpich_generic_cuda_V100_psmp.Dockerfile");
        reveal_strlit("V100");
        reveal_strlit("_");
        reveal_strlit("_cuda_");
        reveal_strlit("generic");
        reveal_strlit("mpich");
        reveal_strlit("psmp");
        reveal_strlit("none");
        assert("V100"@[0] != "none"@[0]);
        assert("2023.2_mpich_generic_cuda_V100_psmp.Dockerfile"@ =~= "2023.2"@ + "_"@ + "mpich"@ + "_"@ + "generic"@ + suffix_for("V100"@) + "_"@
            + "psmp"@ + ".Dockerfile"@);
        toolchain_name_joins("2023.2"@, "mpich"@, "generic"@, "V100"@, "psmp"@, "2023.2_mpich_generic_cuda_V100_psmp.Dockerfile"@);
    }
    assert(names_its_dockerfile(catalogue()[9])) by {
        reveal_strlit(".Dockerfile");
        reveal_strlit("2023.2");
        reveal_strlit("2023.2_mpich_generic_cuda_P100_psmp.Dockerfile");
        reveal_strlit("P100");
        reveal_strlit("_");
        reveal_strlit("_cuda_");
        reveal_strlit("generic");
        reveal_strlit("mpich");
        reveal_strlit("psmp");
        reveal_strlit("none");
        assert("P100"@[0] != "none"@[0]);
        assert("2023.2_mpich_generic_cuda_P100_psmp.Dockerfile"@ =~= "2023.2"@ + "_"@ + "mpich"@ + "_"@ + "generic"@ + suffix_for("P100"@) + "_"@
            + "psmp"@ + ".Dockerfile"@);
        toolchain_name_joins("2023.2"@, "mpich"@, "generic"@, "P100"@, "psmp"@, "2023.2_mpich_generic_cuda_P100_psmp.Dockerfile"@);
    }
}

/// Every entry of the catalogue names the base image of its own Dockerfile.
pub proof fn catalogue_names_its_base_images()
    ensures
        forall|i: int|
            0 <= i < catalogue().len() ==> (#[trigger] catalogue()[i]).base_image == base_of(
                catalogue()[i].method,
                catalogue()[i].cuda,
            ),
{
    reveal_strlit("spack");
    reveal_strlit("toolchain");
    reveal_strlit("none");
    reveal_strlit("V100");
    reveal_strlit("P100");
    assert("spack"@[0] != "toolchain"@[0]);
    assert("V100"@[0] != "none"@[0]);
    assert("P100"@[0] != "none"@[0]);
}

/// A text that can be the value of an option: one word that is no option.
pub open spec fn is_value(text: Seq<char>) -> bool {
    is_word(text) && text[0] != '-'
}

/// Every part of an entry can be the value of an option.
pub open spec fn has_values(entry: ConfigInfoView) -> bool {
    &&& is_value(entry.method)
    &&& is_value(entry.version)
    &&& is_value(entry.mpi)
    &&& is_value(entry.cpu)
    &&& is_value(entry.cuda)
    &&& is_value(entry.variant)
}

/// The words of the command that builds an entry: each option with its value.
pub open spec fn command_words(entry: ConfigInfoView) -> Seq<Seq<char>> {
    seq![
        "forge2k"@,
        "build"@,
        "-m"@,
        entry.method,
        "-v"@,
        entry.version,
        "--mpi"@,
        entry.mpi,
        "--cpu"@,
        entry.cpu,
        "--cuda"@,
        entry.cuda,
        "--variant"@,
        entry.variant,
    ]
}

/// A command gives an option once, with this value behind it.
pub open spec fn gives_option(words: Seq<Seq<char>>, option: Seq<char>, value: Seq<char>) -> bool {
    exists|i: int|
        0 <= i < words.len() - 1 && #[trigger] words[i] == option && words[i + 1] == value && (
        forall|j: int| 0 <= j < words.len() && #[trigger] words[j] == option ==> j == i)
}

proof fn option_words(text: Seq<char>, option: Seq<char>)
    requires
        is_word(option),
        text == seq![' '] + option + seq![' '],
    ensures
        words_of(text) == seq![option],
{
    reveal_with_fuel(words_of, 2);
    assert(words_of(seq![' ']) =~= seq![]) by {
        assert(seq![' '].drop_first() =~= seq![]);
    }
    word_stands_alone(option);
    words_join(seq![' '], option);
    words_join(seq![' '] + option, seq![' ']);
    assert(words_of(text) =~= seq![option]);
}

/// Adds an option and its value to the end of a command.
proof fn option_joins(
    front: Seq<char>,
    words: Seq<Seq<char>>,
    text: Seq<char>,
    option: Seq<char>,
    value: Seq<char>,
)
    requires
        words_of(front) == words,
        is_word(option),
        text == seq![' '] + option + seq![' '],
        is_word(value),
    ensures
        words_of(front + text + value) == words.push(option).push(value),
{
    option_words(text, option);
    words_join(front, text);
    word_stands_alone(value);
    assert((front + text).last() == ' ');
    words_join(front + text, value);
    assert(words_of(front + text + value) =~= words.push(option).push(value));
}

/// The command that the list prints for an entry has the entry's parts as the
/// values of its options.
pub proof fn printed_command_has_its_words(entry: ConfigInfoView)
    requires
        has_values(entry),
    ensures
        words_of(build_command(entry)) == command_words(entry),
{
    let first = " forge2k build -m "@;
    assert(words_of(first) == seq!["forge2k"@, "build"@, "-m"@]) by {
        reveal_strlit(" forge2k build -m ");
        reveal_strlit("forge2k");
        reveal_strlit("build");
        reveal_strlit("-m");
        let a = seq![' '] + "forge2k"@ + seq![' '];
        let b = seq![' '] + "build"@ + seq![' '];
        let c = seq![' '] + "-m"@ + seq![' '];
        option_words(a, "forge2k"@);
        option_words(b, "build"@);
        option_words(c, "-m"@);
        let b1 = b.drop_first();
        let c1 = c.drop_first();
        assert(words_of(b) == words_of(b1));
        assert(words_of(c) == words_of(c1));
        assert(a.last() == ' ' && (a + b1).last() == ' ');
        words_join(a, b1);
        words_join(a + b1, c1);
        assert(first =~= a + b1 + c1);
        assert(words_of(first) =~= seq!["forge2k"@, "build"@, "-m"@]);
    }
    word_stands_alone(entry.method);
    assert(first.last() == ' ') by {
        reveal_strlit(" forge2k build -m ");
    }
    assert(first.len() > 0) by {
        reveal_strlit(" forge2k build -m ");
    }
    words_join(first, entry.method);
    let t0 = first + entry.method;
    let w0 = seq!["forge2k"@, "build"@, "-m"@].push(entry.method);
    assert(words_of(t0) =~= w0);
    assert(" -v "@ == seq![' '] + "-v"@ + seq![' '] && is_word("-v"@)) by {
        reveal_strlit(" -v ");
        reveal_strlit("-v");
        assert(" -v "@ =~= seq![' '] + "-v"@ + seq![' ']);
    }
    option_joins(t0, w0, " -v "@, "-v"@, entry.version);
    let t1 = t0 + " -v "@ + entry.version;
    let w1 = w0.push("-v"@).push(entry.version);
    assert(" --mpi "@ == seq![' '] + "--mpi"@ + seq![' '] && is_word("--mpi"@)) by {
        reveal_strlit(" --mpi ");
        reveal_strlit("--mpi");
        assert(" --mpi "@ =~= seq![' '] + "--mpi"@ + seq![' ']);
    }
    option_joins(t1, w1, " --mpi "@, "--mpi"@, entry.mpi);
    let t2 = t1 + " --mpi "@ + entry.mpi;
    let w2 = w1.push("--mpi"@).push(entry.mpi);
    assert(" --cpu "@ == seq![' '] + "--cpu"@ + seq![' '] && is_word("--cpu"@)) by {
        reveal_strlit(" --cpu ");
        reveal_strlit("--cpu");
        assert(" --cpu "@ =~= seq![' '] + "--cpu"@ + seq![' ']);
    }
    option_joins(t2, w2, " --cpu "@, "--cpu"@, entry.cpu);
    let t3 = t2 + " --cpu "@ + entry.cpu;
    let w3 = w2.push("--cpu"@).push(entry.cpu);
    assert(" --cuda "@ == seq![' '] + "--cuda"@ + seq![' '] && is_word("--cuda"@)) by {
        reveal_strlit(" --cuda ");
        reveal_strlit("--cuda");
        assert(" --cuda "@ =~= seq![' '] + "--cuda"@ + seq![' ']);
    }
    option_joins(t3, w3, " --cuda "@, "--cuda"@, entry.cuda);
    let t4 = t3 + " --cuda "@ + entry.cuda;
    let w4 = w3.push("--cuda"@).push(entry.cuda);
    assert(" --variant "@ == seq![' '] + "--variant"@ + seq![' '] && is_word("--variant"@)) by {
        reveal_strlit(" --variant ");
        reveal_strlit("--variant");
        assert(" --variant "@ =~= seq![' '] + "--variant"@ + seq![' ']);
    }
    option_joins(t4, w4, " --variant "@, "--variant"@, entry.variant);
    let t5 = t4 + " --variant "@ + entry.variant;
    let w5 = w4.push("--variant"@).push(entry.variant);
    assert(words_of("\n\n"@) =~= seq![] && "\n\n"@.first() == '\n' && "\n\n"@.len() == 2) by {
        reveal_strlit("\n\n");
        reveal_with_fuel(words_of, 3);
    }
    words_join(t5, "\n\n"@);
    assert(words_of(build_command(entry)) =~= command_words(entry));
}

/// The command that the list prints for an entry gives every option once, with
/// the entry's own value: read back, it asks for the entry.
pub proof fn printed_command_gives_its_entry(entry: ConfigInfoView)
    requires
        has_values(entry),
    ensures
        gives_option(words_of(build_command(entry)), "-m"@, entry.method),
        gives_option(words_of(build_command(entry)), "-v"@, entry.version),
        gives_option(words_of(build_command(entry)), "--mpi"@, entry.mpi),
        gives_option(words_of(build_command(entry)), "--cpu"@, entry.cpu),
        gives_option(words_of(build_command(entry)), "--cuda"@, entry.cuda),
        gives_option(words_of(build_command(entry)), "--variant"@, entry.variant),
{
    printed_command_has_its_words(entry);
    let words = command_words(entry);
    assert(words.len() == 14);
    reveal_strlit("forge2k");
    reveal_strlit("build");
    reveal_strlit("-m");
    reveal_strlit("-v");
    reveal_strlit("--mpi");
    reveal_strlit("--cpu");
    reveal_strlit("--cuda");
    reveal_strlit("--variant");
    assert("-m"@[1] != "-v"@[1]);
    assert("--mpi"@[2] != "--cpu"@[2]);
    assert("forge2k"@[0] != '-' && "build"@[0] != '-');
    assert("-m"@.len() == 2 && "-v"@.len() == 2 && "--mpi"@.len() == 5 && "--cpu"@.len() == 5
        && "--cuda"@.len() == 6 && "--variant"@.len() == 9);
    assert("-m"@[0] == '-' && "-v"@[0] == '-' && "--mpi"@[0] == '-' && "--cpu"@[0] == '-'
        && "--cuda"@[0] == '-' && "--variant"@[0] == '-');
    assert(words[2] == "-m"@ && words[3] == entry.method);
    assert(words[4] == "-v"@ && words[5] == entry.version);
    assert(words[6] == "--mpi"@ && words[7] == entry.mpi);
    assert(words[8] == "--cpu"@ && words[9] == entry.cpu);
    assert(words[10] == "--cuda"@ && words[11] == entry.cuda);
    assert(words[12] == "--variant"@ && words[13] == entry.variant);
    assert(words[0][0] != '-' && words[1][0] != '-');
}

/// Every part of a catalogue entry can be the value of an option, so that each
/// command that the list prints gives its entry back.
pub proof fn catalogue_commands_give_their_entries(i: int)
    requires
        0 <= i < catalogue().len(),
    ensures
        has_values(catalogue()[i]),
        words_of(build_command(catalogue()[i])) == command_words(catalogue()[i]),
{
    reveal_strlit("spack");
    reveal_strlit("toolchain");
    reveal_strlit("2026.1");
    reveal_strlit("2025.2");
    reveal_strlit("2023.2");
    reveal_strlit("master");
    reveal_strlit("mpich");
    reveal_strlit("openmpi");
    reveal_strlit("x86_64");
    reveal_strlit("cascadelake");
    reveal_strlit("generic");
    reveal_strlit("none");
    reveal_strlit("V100");
    reveal_strlit("P100");
    reveal_strlit("psmp");
    assert(is_value("spack"@) && is_value("toolchain"@));
    assert(is_value("2026.1"@) && is_value("2025.2"@) && is_value("2023.2"@));
    assert(is_value("master"@) && is_value("mpich"@) && is_value("openmpi"@));
    assert(is_value("x86_64"@) && is_value("cascadelake"@) && is_value("generic"@));
    assert(is_value("none"@) && is_value("V100"@) && is_value("P100"@) && is_value("psmp"@));
    printed_command_has_its_words(catalogue()[i]);
}

/// What an entry says is what its fields hold, in a list as by itself.
pub proof fn entries_say_what_they_hold(configs: Seq<ConfigInfo>, i: int)
    requires
        0 <= i < configs.len(),
    ensures
        entries(configs).len() == configs.len(),
        entries(configs)[i] == configs[i]@,
        configs[i]@.method == configs[i].method@,
        configs[i]@.version == configs[i].version@,
        configs[i]@.mpi == configs[i].mpi@,
        configs[i]@.cpu == configs[i].cpu@,
        configs[i]@.cuda == configs[i].cuda@,
        configs[i]@.variant == configs[i].variant@,
        configs[i]@.dockerfile == configs[i]._dockerfile@,
        configs[i]@.base_image == configs[i].base_image@,
        configs[i]@.description == configs[i].description@,
{
}

/// A filter that is set asks for its own text.
pub proof fn filters_ask_for_their_text(filter: Option<String>)
    ensures
        filter_text(filter) is Some <==> filter is Some,
        filter matches Some(text) ==> filter_text(filter) == Some(text@),
{
}

proof fn selecting_goes_entry_by_entry(
    configs: Seq<ConfigInfoView>,
    entry: ConfigInfoView,
    method: Option<Seq<char>>,
    version: Option<Seq<char>>,
)
    ensures
        selection(Seq::empty(), method, version).len() == 0,
        passes(entry, method, version) ==> selection(configs.push(entry), method, version)
            == selection(configs, method, version).push(entry),
        !passes(entry, method, version) ==> selection(configs.push(entry), method, version)
            == selection(configs, method, version),
{
    reveal(Seq::filter);
    assert(configs.push(entry).drop_last() =~= configs);
}

/// An entry that is added to a list is added to the end of the selection where
/// its method is the one that is asked for, or none is asked for, and likewise
/// its version; otherwise the selection stays as it is. Nothing is selected from
/// an empty list.
pub proof fn selection_keeps_the_order(
    configs: Seq<ConfigInfoView>,
    entry: ConfigInfoView,
    method: Option<Seq<char>>,
    version: Option<Seq<char>>,
)
    ensures
        selection(Seq::empty(), method, version).len() == 0,
        (method is None || method == Some(entry.method)) && (version is None || version == Some(
            entry.version,
        )) ==> selection(configs.push(entry), method, version) == selection(
            configs,
            method,
            version,
        ).push(entry),
        (method is Some && method != Some(entry.method)) || (version is Some && version != Some(
            entry.version,
        )) ==> selection(configs.push(entry), method, version) == selection(
            configs,
            method,
            version,
        ),
{
    selecting_goes_entry_by_entry(configs, entry, method, version);
}

/// Every selected entry is one of the list and has the version that is asked for,
/// whether a method is asked for or not, and the method that is asked for,
/// whether a version is asked for or not.
pub proof fn selected_entries_are_as_asked(
    configs: Seq<ConfigInfoView>,
    method: Option<Seq<char>>,
    version: Option<Seq<char>>,
    i: int,
)
    requires
        0 <= i < selection(configs, method, version).len(),
    ensures
        configs.contains(selection(configs, method, version)[i]),
        version matches Some(v) ==> selection(configs, method, version)[i].version == v,
        method matches Some(m) ==> selection(configs, method, version)[i].method == m,
    decreases configs.len(),
{
    if configs.len() == 0 {
        assert(configs =~= Seq::empty());
        selection_keeps_the_order(configs, arbitrary(), method, version);
    } else {
        let rest = configs.drop_last();
        let last = configs.last();
        assert(rest.push(last) =~= configs);
        selection_keeps_the_order(rest, last, method, version);
        assert(configs[configs.len() - 1] == last);
        if i < selection(rest, method, version).len() {
            selected_entries_are_as_asked(rest, method, version, i);
            let k = choose|k: int|
                0 <= k < rest.len() && rest[k] == selection(rest, method, version)[i];
            assert(configs[k] == rest[k]);
        }
    }
}

/// Every entry of the list with the version that is asked for, and with the
/// method if one is asked for, is selected; without filters every entry is.
pub proof fn entries_as_asked_are_selected(
    configs: Seq<ConfigInfoView>,
    method: Option<Seq<char>>,
    version: Option<Seq<char>>,
    i: int,
)
    requires
        0 <= i < configs.len(),
        version matches Some(v) ==> configs[i].version == v,
        method matches Some(m) ==> configs[i].method == m,
    ensures
        selection(configs, method, version).contains(configs[i]),
    decreases configs.len(),
{
    let rest = configs.drop_last();
    let last = configs.last();
    assert(rest.push(last) =~= configs);
    selection_keeps_the_order(rest, last, method, version);
    let before = selection(rest, method, version);
    if i < rest.len() {
        assert(rest[i] == configs[i]);
        entries_as_asked_are_selected(rest, method, version, i);
        let k = choose|k: int| 0 <= k < before.len() && before[k] == configs[i];
        assert(selection(configs, method, version)[k] == before[k]);
    } else {
        assert(selection(configs, method, version)[before.len() as int] == configs[i]);
    }
}

/// Without filters the whole list is selected; to filter by both is to filter by
/// one and then by the other.
pub proof fn filters_combine(
    configs: Seq<ConfigInfoView>,
    method: Option<Seq<char>>,
    version: Option<Seq<char>>,
)
    ensures
        selection(configs, None, None) == configs,
        selection(configs, method, version) == selection(
            selection(configs, method, None),
            None,
            version,
        ),
        selection(configs, method, version) == selection(
            selection(configs, None, version),
            method,
            None,
        ),
    decreases configs.len(),
{
    if configs.len() == 0 {
        assert(configs =~= Seq::empty());
        selection_keeps_the_order(configs, arbitrary(), method, version);
        selection_keeps_the_order(configs, arbitrary(), method, None);
        selection_keeps_the_order(configs, arbitrary(), None, version);
        selection_keeps_the_order(configs, arbitrary(), None, None);
        assert(selection(configs, method, None) =~= configs);
        assert(selection(configs, None, version) =~= configs);
        assert(selection(configs, None, None) =~= configs);
    } else {
        let rest = configs.drop_last();
        let last = configs.last();
        assert(rest.push(last) =~= configs);
        filters_combine(rest, method, version);
        selection_keeps_the_order(rest, last, method, version);
        selection_keeps_the_order(rest, last, method, None);
        selection_keeps_the_order(rest, last, None, version);
        selection_keeps_the_order(rest, last, None, None);
        selection_keeps_the_order(selection(rest, method, None), last, None, version);
        selection_keeps_the_order(selection(rest, None, version), last, method, None);
    }
}

/// An entry is shown with its number, and every value of it as it is.
pub proof fn entry_is_shown_as_it_is(place: nat, entry: ConfigInfoView)
    ensures
        entry_page(place, entry).len() == 19,
        entry_page(place, entry)[1].text == "#"@ + decimal(place),
        entry_page(place, entry)[3].text == entry.description,
        entry_page(place, entry)[6].text == " "@ + entry.method + "/"@ + entry.version + " ("@
            + entry.base_image + ")\n      "@,
        entry_page(place, entry)[9].text == "MPI="@ + entry.mpi,
        entry_page(place, entry)[11].text == "CPU="@ + entry.cpu,
        entry_page(place, entry)[13].text == "CUDA="@ + entry.cuda,
        entry_page(place, entry)[15].text == "Variant="@ + entry.variant,
        entry_page(place, entry)[18].text == build_command(entry),
{
}

/// Two entries, at whatever places, are shown in the same styles and with the
/// same labels.
pub proof fn entries_are_shown_alike(
    place: nat,
    entry: ConfigInfoView,
    other_place: nat,
    other: ConfigInfoView,
    k: int,
)
    requires
        0 <= k < 19,
    ensures
        entry_page(place, entry)[k].tone == entry_page(other_place, other)[k].tone,
        k != 1 && k != 3 && k != 6 && k != 9 && k != 11 && k != 13 && k != 15 && k != 18
            ==> entry_page(place, entry)[k] == entry_page(other_place, other)[k],
{
}

/// The entries of a list are shown one behind the other, each under its place,
/// counted from one.
pub proof fn entries_are_numbered(list: Seq<ConfigInfoView>, i: int)
    requires
        0 <= i < list.len(),
    ensures
        entry_pages(list).len() == 19 * list.len(),
        entry_pages(list).subrange(19 * i, 19 * i + 19) == entry_page((i + 1) as nat, list[i]),
    decreases list.len(),
{
    let rest = list.drop_last();
    if rest.len() > 0 {
        entries_are_numbered(rest, 0);
    }
    assert(entry_pages(rest).len() == 19 * rest.len());
    if i < rest.len() {
        entries_are_numbered(rest, i);
        assert(rest[i] == list[i]);
        assert(entry_pages(list).subrange(19 * i, 19 * i + 19) =~= entry_pages(rest).subrange(
            19 * i,
            19 * i + 19,
        ));
    } else {
        assert(entry_pages(list).subrange(19 * i, 19 * i + 19) =~= entry_page(
            list.len(),
            list.last(),
        ));
    }
}

/// The list shows a title, every selected entry under its place, and a hint; where
/// nothing is selected it says so, and shows nothing else.
pub proof fn list_shows_every_entry(selected: Seq<ConfigInfoView>, i: int)
    ensures
        selected.len() == 0 ==> list_page(selected).len() == 2 && list_page(selected)[1]
            == plain(" No configurations match the given filters.\n"@),
        selected.len() > 0 ==> list_page(selected).len() == 10 + 19 * selected.len()
            && list_page(selected)[3] == styled(Tone::YellowBold, LIST_TITLE@)
            && list_page(selected).last() == plain(
            " Run 'forge2k gui' for the interactive builder!\n\n"@,
        ),
        0 <= i < selected.len() ==> list_page(selected).subrange(7 + 19 * i, 26 + 19 * i)
            == entry_page((i + 1) as nat, selected[i]),
{
    if selected.len() > 0 {
        entries_are_numbered(selected, 0);
    }
    if 0 <= i < selected.len() {
        entries_are_numbered(selected, i);
        assert(list_page(selected).subrange(7 + 19 * i, 26 + 19 * i) =~= entry_pages(
            selected,
        ).subrange(19 * i, 19 * i + 19));
    }
}

/// Lists of the same length have the same title and the same hint around their
/// entries.
pub proof fn lists_look_alike(a: Seq<ConfigInfoView>, b: Seq<ConfigInfoView>, k: int)
    requires
        a.len() == b.len(),
    ensures
        0 <= k < 7 && a.len() > 0 ==> list_page(a)[k] == list_page(b)[k],
        0 < k <= 3 && a.len() > 0 ==> list_page(a)[list_page(a).len() - k] == list_page(
            b,
        )[list_page(b).len() - k],
{
    if a.len() > 0 {
        entries_are_numbered(a, 0);
        entries_are_numbered(b, 0);
    }
}

/// The command that the list prints for an entry gives each value right behind
/// its option, and takes each as it is, in one place.
pub proof fn printed_commands_take_their_values(a: ConfigInfoView, b: ConfigInfoView)
    ensures
        occurs(build_command(a), " forge2k build -m "@ + a.method),
        occurs(build_command(a), " -v "@ + a.version),
        occurs(build_command(a), " --mpi "@ + a.mpi),
        occurs(build_command(a), " --cpu "@ + a.cpu),
        occurs(build_command(a), " --cuda "@ + a.cuda),
        occurs(build_command(a), " --variant "@ + a.variant),
        build_command(a).len() - a.method.len() - a.version.len() - a.mpi.len() - a.cpu.len()
            - a.cuda.len() - a.variant.len() == build_command(b).len() - b.method.len()
            - b.version.len() - b.mpi.len() - b.cpu.len() - b.cuda.len() - b.variant.len(),
{
    broadcast use {occurs_in_longer, occurs_behind};

    let t0 = " forge2k build -m "@ + a.method;
    pair_occurs(Seq::empty(), " forge2k build -m "@, a.method);
    assert(Seq::<char>::empty() + " forge2k build -m "@ + a.method =~= t0);
    pair_occurs(t0, " -v "@, a.version);
    let t1 = t0 + " -v "@ + a.version;
    pair_occurs(t1, " --mpi "@, a.mpi);
    let t2 = t1 + " --mpi "@ + a.mpi;
    pair_occurs(t2, " --cpu "@, a.cpu);
    let t3 = t2 + " --cpu "@ + a.cpu;
    pair_occurs(t3, " --cuda "@, a.cuda);
    let t4 = t3 + " --cuda "@ + a.cuda;
    pair_occurs(t4, " --variant "@, a.variant);
}

/// Two entries that differ in one value have commands that differ in that value
/// alone.
pub proof fn printed_commands_differ_in_their_values(a: ConfigInfoView, b: ConfigInfoView)
    ensures
        a.version == b.version && a.mpi == b.mpi && a.cpu == b.cpu && a.cuda == b.cuda && a.variant
            == b.variant ==> same_form(build_command(a), build_command(b), a.method, b.method),
        a.method == b.method && a.mpi == b.mpi && a.cpu == b.cpu && a.cuda == b.cuda && a.variant
            == b.variant ==> same_form(build_command(a), build_command(b), a.version, b.version),
        a.method == b.method && a.version == b.version && a.cpu == b.cpu && a.cuda == b.cuda
            && a.variant == b.variant ==> same_form(
            build_command(a),
            build_command(b),
            a.mpi,
            b.mpi,
        ),
        a.method == b.method && a.version == b.version && a.mpi == b.mpi && a.cuda == b.cuda
            && a.variant == b.variant ==> same_form(
            build_command(a),
            build_command(b),
            a.cpu,
            b.cpu,
        ),
        a.method == b.method && a.version == b.version && a.mpi == b.mpi && a.cpu == b.cpu
            && a.variant == b.variant ==> same_form(
            build_command(a),
            build_command(b),
            a.cuda,
            b.cuda,
        ),
        a.method == b.method && a.version == b.version && a.mpi == b.mpi && a.cpu == b.cpu && a.cuda
            == b.cuda ==> same_form(
            build_command(a),
            build_command(b),
            a.variant,
            b.variant,
        ),
{
    broadcast use {same_form_joins, same_form_of_itself, same_form_of_values};

}

} // verus!
