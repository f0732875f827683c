//! What the window shows of the state of the interface.

use crate::gui::cpu_choices;
use crate::gui::cpu_choices_view;
use crate::gui::cuda_choices;
use crate::gui::cuda_choices_view;
use crate::gui::method_choices;
use crate::gui::method_choices_view;
use crate::gui::mpi_choices;
use crate::gui::mpi_choices_view;
use crate::gui::no_pairs;
use crate::gui::pairs;
use crate::gui::push_pair;
use crate::gui::variant_choices;
use crate::gui::variant_choices_view;
use crate::gui::version_choices;
use crate::gui::version_choices_view;
use crate::gui::Forge2kApp;
use crate::gui::Setting;
use crate::gui::Tab;
use crate::log::LogLine;
use crate::registry::is_web_address;
use crate::registry::known_mirrors;
use crate::text::occurs_at;
use crate::text::starts_with;
use crate::text::texts;
use vstd::prelude::*;

verus! {

/// A colour: its red, green and blue parts.
#[derive(Clone, Copy, Debug, PartialEq, Eq, Structural)]
pub struct Rgb {
    pub red: u8,
    pub green: u8,
    pub blue: u8,
}

/// The colour with the given parts.
pub open spec fn rgb(red: u8, green: u8, blue: u8) -> Rgb {
    Rgb { red, green, blue }
}

/// The colour with the given parts.
fn color(red: u8, green: u8, blue: u8) -> (r: Rgb)
    ensures
        r == rgb(red, green, blue),
{
    Rgb { red, green, blue }
}

/// How a label is drawn. What is not said is left to the window's style.
#[derive(Clone, Copy, Debug, PartialEq, Eq, Structural)]
pub struct Face {
    /// The height in points.
    pub size: Option<u8>,
    pub color: Option<Rgb>,
    pub strong: bool,
    pub monospace: bool,
}

/// The face of text that is left to the window's style.
pub open spec fn bare() -> Face {
    Face { size: None, color: None, strong: false, monospace: false }
}

/// The face of text in a size.
pub open spec fn sized(size: u8) -> Face {
    Face { size: Some(size), ..bare() }
}

/// The face of text in a colour.
pub open spec fn tinted(color: Rgb) -> Face {
    Face { color: Some(color), ..bare() }
}

/// The face of text in a size and a colour.
pub open spec fn drawn(size: u8, color: Rgb) -> Face {
    Face { size: Some(size), color: Some(color), ..bare() }
}

/// A text and how it is drawn.
#[derive(Clone, Debug)]
pub struct Label {
    pub text: String,
    pub face: Face,
}

/// What the labels of a list show.
pub open spec fn shown(labels: Seq<Label>) -> Seq<(Seq<char>, Face)> {
    labels.map_values(|l: Label| (l.text@, l.face))
}

/// A list without labels.
fn no_labels() -> (r: Vec<Label>)
    ensures
        shown(r@) == Seq::<(Seq<char>, Face)>::empty(),
{
    let r: Vec<Label> = Vec::new();
    assert(shown(r@) =~= Seq::<(Seq<char>, Face)>::empty());
    r
}

/// Adds a label to a list.
fn push_label(labels: &mut Vec<Label>, text: &str, face: Face)
    ensures
        shown(final(labels)@) == shown(old(labels)@).push((text@, face)),
{
    labels.push(Label { text: text.to_owned(), face });
    assert(shown(labels@) =~= shown(old(labels)@).push((text@, face)));
}

/// Adds a label without a face of its own to a list.
fn push_bare(labels: &mut Vec<Label>, text: &str)
    ensures
        shown(final(labels)@) == shown(old(labels)@).push((text@, bare())),
{
    push_label(labels, text, Face { size: None, color: None, strong: false, monospace: false });
}

/// Adds a label with a size to a list.
fn push_sized(labels: &mut Vec<Label>, text: &str, size: u8)
    ensures
        shown(final(labels)@) == shown(old(labels)@).push((text@, sized(size))),
{
    push_label(
        labels,
        text,
        Face { size: Some(size), color: None, strong: false, monospace: false },
    );
}

/// Adds a label with a colour to a list.
fn push_tinted(labels: &mut Vec<Label>, text: &str, tint: Rgb)
    ensures
        shown(final(labels)@) == shown(old(labels)@).push((text@, tinted(tint))),
{
    push_label(
        labels,
        text,
        Face { size: None, color: Some(tint), strong: false, monospace: false },
    );
}

/// Adds a label with a size and a colour to a list.
fn push_drawn(labels: &mut Vec<Label>, text: &str, size: u8, tint: Rgb)
    ensures
        shown(final(labels)@) == shown(old(labels)@).push((text@, drawn(size, tint))),
{
    push_label(
        labels,
        text,
        Face { size: Some(size), color: Some(tint), strong: false, monospace: false },
    );
}

/// A button that opens a tab. Without a ground of its own it has that of the
/// window.
#[derive(Clone, Copy, Debug)]
pub struct TabButton {
    pub label: &'static str,
    pub tab: Tab,
    pub color: Rgb,
    pub ground: Option<Rgb>,
}

/// What the window shows around the content of a tab.
#[derive(Debug)]
pub struct Header {
    /// Whether the window is drawn again at once.
    pub repaint: bool,
    /// The badges of the header, from the right.
    pub badges: Vec<Label>,
    pub tabs: Vec<TabButton>,
}

/// The badges of the header, from the right.
pub open spec fn badges_view(app: Forge2kApp) -> Seq<(Seq<char>, Face)> {
    let docker = if app.docker_running {
        ("● Docker OK"@, drawn(11, rgb(80, 220, 100)))
    } else {
        ("○ Docker"@, drawn(11, rgb(200, 80, 80)))
    };
    if app.is_building {
        seq![("● BUILDING"@, drawn(11, rgb(255, 180, 50))), docker]
    } else {
        seq![docker]
    }
}

/// The tabs in their order.
pub open spec fn tab_order() -> Seq<Tab> {
    seq![Tab::Build, Tab::System, Tab::Settings, Tab::About]
}

/// The label of a tab.
pub open spec fn tab_label_view(tab: Tab) -> Seq<char> {
    match tab {
        Tab::Build => "🛠 Build"@,
        Tab::System => "📊 System"@,
        Tab::Settings => "⚙ Settings"@,
        Tab::About => "ℹ About"@,
    }
}

/// A button belongs to a tab: it is labelled after it, and it stands out where
/// the tab is the active one.
pub open spec fn opens(button: TabButton, tab: Tab, active: Tab) -> bool {
    &&& button.label@ == tab_label_view(tab)
    &&& button.tab == tab
    &&& button.color == if active == tab {
        rgb(255, 200, 50)
    } else {
        rgb(160, 160, 180)
    }
    &&& button.ground == if active == tab {
        Some(rgb(40, 40, 55))
    } else {
        None::<Rgb>
    }
}

/// The place of a tab among the buttons.
pub open spec fn tab_place(tab: Tab) -> int {
    match tab {
        Tab::Build => 0,
        Tab::System => 1,
        Tab::Settings => 2,
        Tab::About => 3,
    }
}

/// The tab that counts as active when the button at a place is drawn. The
/// buttons are drawn one after the other, and a click takes effect at once: those
/// behind the clicked one are drawn by the tab that it opens.
pub open spec fn active_at(place: int, active: Tab, clicked: Option<Tab>) -> Tab {
    match clicked {
        Some(tab) => if tab_place(tab) < place {
            tab
        } else {
            active
        },
        None => active,
    }
}

/// The tab that counts as active when the button of a tab is drawn.
fn active_for(tab: Tab, active: Tab, clicked: Option<Tab>) -> (r: Tab)
    ensures
        r == active_at(tab_place(tab), active, clicked),
{
    let behind = match (clicked, tab) {
        (Some(Tab::Build), Tab::System | Tab::Settings | Tab::About) => true,
        (Some(Tab::System), Tab::Settings | Tab::About) => true,
        (Some(Tab::Settings), Tab::About) => true,
        _ => false,
    };
    match clicked {
        Some(opened) => if behind {
            opened
        } else {
            active
        },
        None => active,
    }
}

/// The button of a tab.
pub fn tab_button(tab: Tab, active: Tab) -> (r: TabButton)
    ensures
        opens(r, tab, active),
{
    let label = match tab {
        Tab::Build => "🛠 Build",
        Tab::System => "📊 System",
        Tab::Settings => "⚙ Settings",
        Tab::About => "ℹ About",
    };
    if active == tab {
        TabButton { label, tab, color: color(255, 200, 50), ground: Some(color(40, 40, 55)) }
    } else {
        TabButton { label, tab, color: color(160, 160, 180), ground: None }
    }
}

/// A part of a build as the form shows it. Where there are choices, one of them
/// can be picked; otherwise the user types.
#[derive(Debug)]
pub struct Field {
    pub setting: Setting,
    pub caption: &'static str,
    pub value: String,
    /// What can be picked: the values, each with its label.
    pub choices: Vec<(String, String)>,
    /// The width of a field to type in.
    pub width: u16,
    /// What an empty field to type in shows.
    pub hint: &'static str,
}

/// What a field shows.
#[verifier::ext_equal]
pub struct FieldView {
    pub setting: Setting,
    pub caption: Seq<char>,
    pub value: Seq<char>,
    pub choices: Seq<(Seq<char>, Seq<char>)>,
    pub width: u16,
    pub hint: Seq<char>,
}

impl View for Field {
    type V = FieldView;

    open spec fn view(&self) -> FieldView {
        FieldView {
            setting: self.setting,
            caption: self.caption@,
            value: self.value@,
            choices: pairs(self.choices@),
            width: self.width,
            hint: self.hint@,
        }
    }
}

/// What the fields of a form show.
pub open spec fn form(fields: Seq<Field>) -> Seq<FieldView> {
    fields.map_values(|f: Field| f@)
}

/// Choices that are their own labels.
pub open spec fn plain_choices(values: Seq<Seq<char>>) -> Seq<(Seq<char>, Seq<char>)> {
    values.map_values(|v: Seq<char>| (v, v))
}

/// Choices that are their own labels.
fn label_choices(values: &Vec<String>) -> (r: Vec<(String, String)>)
    ensures
        pairs(r@) == plain_choices(texts(values@)),
{
    let mut list = no_pairs();
    let mut i: usize = 0;
    while i < values.len()
        invariant
            i <= values.len(),
            pairs(list@) == plain_choices(texts(values@)).take(i as int),
        decreases values.len() - i,
    {
        push_pair(&mut list, values[i].as_str(), values[i].as_str());
        i = i + 1;
        assert(plain_choices(texts(values@)).take(i as int) =~= plain_choices(
            texts(values@),
        ).take(i as int - 1).push((values@[i - 1]@, values@[i - 1]@)));
    }
    assert(plain_choices(texts(values@)).take(i as int) =~= plain_choices(texts(values@)));
    list
}

/// A field in which one of some choices is picked.
pub open spec fn picked(
    setting: Setting,
    caption: Seq<char>,
    value: Seq<char>,
    choices: Seq<(Seq<char>, Seq<char>)>,
) -> FieldView {
    FieldView { setting, caption, value, choices, width: 0, hint: ""@ }
}

/// A field in which the user types.
pub open spec fn typed(
    setting: Setting,
    caption: Seq<char>,
    value: Seq<char>,
    width: u16,
    hint: Seq<char>,
) -> FieldView {
    FieldView { setting, caption, value, choices: seq![], width, hint }
}

/// The form in which a build is chosen. What can be picked depends on the
/// method.
pub open spec fn build_form(app: Forge2kApp) -> Seq<FieldView> {
    let method = app.method@;
    seq![
        picked(Setting::Method, "Build Method"@, method, method_choices_view()),
        picked(
            Setting::Version,
            "CP2K Version"@,
            app.version@,
            plain_choices(version_choices_view(method)),
        ),
        picked(
            Setting::Mpi,
            "MPI Implementation"@,
            app.mpi@,
            plain_choices(mpi_choices_view(method)),
        ),
        picked(Setting::Cpu, "CPU Target"@, app.cpu@, plain_choices(cpu_choices_view(method))),
        picked(
            Setting::Cuda,
            "CUDA Support"@,
            app.cuda@,
            plain_choices(cuda_choices_view(method)),
        ),
        picked(Setting::Variant, "Binary Variant"@, app.variant@, variant_choices_view()),
        typed(Setting::Jobs, "Parallel Jobs (0 = auto)"@, app.jobs@, 80, ""@),
        typed(Setting::ShmSize, "Shared Memory Size"@, app.shm_size@, 80, ""@),
        typed(
            Setting::Tag,
            "Custom Image Tag (optional)"@,
            app.tag@,
            200,
            "auto-generate"@,
        ),
    ]
}

/// Adds a field in which one of some choices is picked.
fn push_picked(
    fields: &mut Vec<Field>,
    setting: Setting,
    caption: &'static str,
    value: &String,
    choices: Vec<(String, String)>,
)
    ensures
        form(final(fields)@) == form(old(fields)@).push(
            picked(setting, caption@, value@, pairs(choices@)),
        ),
{
    let field = Field { setting, caption, value: value.clone(), choices, width: 0, hint: "" };
    let ghost added = field@;
    fields.push(field);
    assert(form(fields@) =~= form(old(fields)@).push(added));
}

/// Adds a field in which the user types.
fn push_typed(
    fields: &mut Vec<Field>,
    setting: Setting,
    caption: &'static str,
    value: &String,
    width: u16,
    hint: &'static str,
)
    ensures
        form(final(fields)@) == form(old(fields)@).push(
            typed(setting, caption@, value@, width, hint@),
        ),
{
    let field = Field { setting, caption, value: value.clone(), choices: no_pairs(), width, hint };
    let ghost added = field@;
    fields.push(field);
    assert(form(fields@) =~= form(old(fields)@).push(added));
}

/// The button below the form.
#[derive(Clone, Copy, Debug)]
pub struct BuildButton {
    pub label: &'static str,
    pub color: Rgb,
    pub ground: Rgb,
    /// Whether it cancels the build under way; otherwise it starts one.
    pub cancels: bool,
}

/// The button below the form: while a build is under way it can be cancelled,
/// otherwise one can be started.
pub open spec fn offers_action(button: BuildButton, is_building: bool) -> bool {
    &&& button.cancels == is_building
    &&& button.label@ == if is_building {
        "⛔ CANCEL BUILD"@
    } else {
        "🔥 START BUILD"@
    }
    &&& button.color == if is_building {
        rgb(255, 100, 100)
    } else {
        rgb(20, 20, 30)
    }
    &&& button.ground == if is_building {
        rgb(60, 20, 20)
    } else {
        rgb(255, 200, 50)
    }
}

/// The button below the form.
pub fn build_button(is_building: bool) -> (r: BuildButton)
    ensures
        offers_action(r, is_building),
{
    if is_building {
        BuildButton {
            label: "⛔ CANCEL BUILD",
            color: color(255, 100, 100),
            ground: color(60, 20, 20),
            cancels: true,
        }
    } else {
        BuildButton {
            label: "🔥 START BUILD",
            color: color(20, 20, 30),
            ground: color(255, 200, 50),
            cancels: false,
        }
    }
}

/// The colour of a line of the log: errors stand out first, then good news and
/// progress, then warnings.
pub open spec fn log_color_view(text: Seq<char>, is_error: bool) -> Rgb {
    if is_error {
        rgb(255, 100, 100)
    } else if occurs_at(text, "✅"@, 0) || occurs_at(text, "🚀"@, 0) || occurs_at(text, "📋"@, 0) {
        rgb(100, 220, 130)
    } else if occurs_at(text, "⚠"@, 0) || occurs_at(text, "⏹"@, 0) {
        rgb(255, 200, 80)
    } else {
        rgb(180, 185, 195)
    }
}

/// The colour of a line of the log.
pub fn log_color(line: &LogLine) -> (r: Rgb)
    ensures
        r == log_color_view(line.text@, line.is_error),
{
    let text = line.text.as_str();
    if line.is_error {
        color(255, 100, 100)
    } else if starts_with(text, "✅") || starts_with(text, "🚀") || starts_with(text, "📋") {
        color(100, 220, 130)
    } else if starts_with(text, "⚠") || starts_with(text, "⏹") {
        color(255, 200, 80)
    } else {
        color(180, 185, 195)
    }
}

/// How a line of the log is shown.
pub open spec fn log_label_view(line: LogLine) -> (Seq<char>, Face) {
    (
        "  "@ + line.text@,
        Face { monospace: true, ..drawn(12, log_color_view(line.text@, line.is_error)) },
    )
}

/// How the log is shown. An empty one says what to do.
pub open spec fn log_view(lines: Seq<LogLine>) -> Seq<(Seq<char>, Face)> {
    if lines.len() == 0 {
        seq![
            ("  ⚡ Configure your build and click START BUILD"@, drawn(13, rgb(80, 80, 100))),
            ("  Build logs will appear here in real-time."@, drawn(12, rgb(60, 60, 80))),
        ]
    } else {
        lines.map_values(|line: LogLine| log_label_view(line))
    }
}

/// How the log is shown.
pub fn log_labels(lines: &Vec<LogLine>) -> (r: Vec<Label>)
    ensures
        shown(r@) == log_view(lines@),
{
    let mut labels = no_labels();
    if lines.len() == 0 {
        push_drawn(
            &mut labels,
            "  ⚡ Configure your build and click START BUILD",
            13,
            color(80, 80, 100),
        );
        push_drawn(
            &mut labels,
            "  Build logs will appear here in real-time.",
            12,
            color(60, 60, 80),
        );
        return labels;
    }
    let mut i: usize = 0;
    while i < lines.len()
        invariant
            i <= lines.len(),
            lines.len() > 0,
            shown(labels@) == log_view(lines@).take(i as int),
        decreases lines.len() - i,
    {
        let line = &lines[i];
        let text = "  ".to_owned().concat(line.text.as_str());
        push_label(
            &mut labels,
            text.as_str(),
            Face { size: Some(12), color: Some(log_color(line)), strong: false, monospace: true },
        );
        i = i + 1;
        assert(log_view(lines@).take(i as int) =~= log_view(lines@).take(i as int - 1).push(
            log_label_view(lines@[i - 1]),
        ));
    }
    assert(log_view(lines@).take(i as int) =~= log_view(lines@));
    labels
}

/// What the tab `Build` shows.
#[derive(Debug)]
pub struct BuildTab {
    pub fields: Vec<Field>,
    pub button: BuildButton,
    /// The error of the last build, where there is one.
    pub error: Vec<Label>,
    pub log: Vec<Label>,
    /// Whether the log follows its last line.
    pub follows: bool,
}

/// How the error of the last build is shown, where there is one.
pub open spec fn error_view(error: Option<String>) -> Seq<(Seq<char>, Face)> {
    match error {
        Some(reason) => seq![("❌ "@ + reason@, drawn(11, rgb(255, 100, 100)))],
        None => seq![],
    }
}

/// What the tab `System` shows.
#[derive(Debug)]
pub struct SystemTab {
    /// A sign and a word that tell of Docker.
    pub docker: Vec<Label>,
    /// The version of Docker, once it was looked for.
    pub version: Vec<Label>,
    /// How well the registry can be reached.
    pub registry: Vec<Label>,
    /// The configured mirror, where there is one.
    pub mirror: Vec<Label>,
    pub tips: Vec<Label>,
}

/// The sign and the word that tell of Docker.
pub open spec fn docker_mark(app: Forge2kApp) -> Seq<(Seq<char>, Face)> {
    if !app.docker_checked {
        seq![("○"@, drawn(20, rgb(120, 120, 140))), ("Not checked"@, bare())]
    } else if app.docker_running {
        seq![
            ("●"@, drawn(20, rgb(80, 220, 100))),
            ("Running"@, Face { strong: true, ..tinted(rgb(80, 220, 100)) }),
        ]
    } else {
        seq![
            ("●"@, drawn(20, rgb(220, 80, 80))),
            ("Not Running"@, Face { strong: true, ..tinted(rgb(220, 80, 80)) }),
        ]
    }
}

/// The version of Docker, once it was looked for.
pub open spec fn docker_version(app: Forge2kApp) -> Seq<(Seq<char>, Face)> {
    if app.docker_checked {
        seq![("Version: "@ + app.docker_status@, bare())]
    } else {
        seq![]
    }
}

/// The configured mirror after a caption, where there is one.
pub open spec fn mirror_label(caption: Seq<char>, mirror: Seq<char>) -> Seq<(Seq<char>, Face)> {
    if mirror.len() == 0 {
        seq![]
    } else {
        seq![(caption + mirror, tinted(rgb(100, 180, 255)))]
    }
}

/// The configured mirror after a caption, where there is one.
fn mirror_labels(caption: &str, mirror: &str) -> (r: Vec<Label>)
    ensures
        shown(r@) == mirror_label(caption@, mirror@),
{
    let mut labels = no_labels();
    if !mirror.is_empty() {
        let text = caption.to_owned().concat(mirror);
        push_tinted(&mut labels, text.as_str(), color(100, 180, 255));
    }
    labels
}

/// Hints for the user.
pub open spec fn tips_view() -> Seq<(Seq<char>, Face)> {
    seq![
        ("• CP2K builds take 1-3 hours depending on your system"@, bare()),
        ("• Use 'forge2k list' in terminal to see all configs"@, bare()),
        ("• Use 'forge2k mirror' to configure registry mirror if network is slow"@, bare()),
        ("• For WSL2, ensure Docker Desktop WSL integration is enabled"@, bare()),
        ("• Minimum 50GB free disk space recommended for builds"@, bare()),
    ]
}

/// A known mirror as the tab `Settings` shows it: its name, its address, and
/// who runs it.
#[derive(Clone, Copy, Debug)]
pub struct MirrorCard {
    pub name: &'static str,
    pub url: &'static str,
    pub about: &'static str,
}

/// What the tab `Settings` shows.
#[derive(Debug)]
pub struct SettingsTab {
    /// What became of the last change, where there was one.
    pub message: Vec<Label>,
    /// The configured mirror, where there is one.
    pub current: Vec<Label>,
    pub mirrors: Vec<MirrorCard>,
}

/// What the cards of a list say.
pub open spec fn cards(list: Seq<MirrorCard>) -> Seq<(Seq<char>, Seq<char>, Seq<char>)> {
    list.map_values(|c: MirrorCard| (c.name@, c.url@, c.about@))
}

/// The known mirrors as the tab `Settings` shows them.
pub open spec fn mirror_cards_view() -> Seq<(Seq<char>, Seq<char>, Seq<char>)> {
    seq![
        (
            "USTC"@,
            "https://docker.mirrors.ustc.edu.cn"@,
            "China - University of Science and Technology"@,
        ),
        ("Tencent Cloud"@, "https://mirror.ccs.tencentyun.com"@, "China - Tencent Cloud"@),
        ("DaoCloud"@, "https://2a59f68c.m.daocloud.io"@, "China - DaoCloud"@),
        ("Docker CN"@, "https://registry.docker-cn.com"@, "China - Docker Official CN Mirror"@),
        ("DockerHub Proxy"@, "https://dockerhub.timeweb.cloud"@, "Russia - Timeweb Cloud"@),
    ]
}

/// Adds a card to a list.
fn push_card(
    list: &mut Vec<MirrorCard>,
    name: &'static str,
    url: &'static str,
    about: &'static str,
)
    ensures
        cards(final(list)@) == cards(old(list)@).push((name@, url@, about@)),
{
    list.push(MirrorCard { name, url, about });
    assert(cards(list@) =~= cards(old(list)@).push((name@, url@, about@)));
}

/// The known mirrors as the tab `Settings` shows them.
pub fn mirror_cards() -> (r: Vec<MirrorCard>)
    ensures
        cards(r@) == mirror_cards_view(),
{
    let mut list: Vec<MirrorCard> = Vec::new();
    assert(cards(list@) =~= seq![]);
    push_card(
        &mut list,
        "USTC",
        "https://docker.mirrors.ustc.edu.cn",
        "China - University of Science and Technology",
    );
    push_card(
        &mut list,
        "Tencent Cloud",
        "https://mirror.ccs.tencentyun.com",
        "China - Tencent Cloud",
    );
    push_card(&mut list, "DaoCloud", "https://2a59f68c.m.daocloud.io", "China - DaoCloud");
    push_card(
        &mut list,
        "Docker CN",
        "https://registry.docker-cn.com",
        "China - Docker Official CN Mirror",
    );
    push_card(
        &mut list,
        "DockerHub Proxy",
        "https://dockerhub.timeweb.cloud",
        "Russia - Timeweb Cloud",
    );
    list
}

/// What became of the last change of the settings, where there was one.
pub open spec fn message_view(message: Seq<char>) -> Seq<(Seq<char>, Face)> {
    if message.len() == 0 {
        seq![]
    } else {
        seq![(message, sized(12))]
    }
}

/// What the program can do.
pub open spec fn features_view() -> Seq<(Seq<char>, Face)> {
    seq![
        ("🔥 One-click build with full configuration options"@, sized(13)),
        ("📦 Multiple build methods: Spack (2025.2) & Toolchain (2023.2)"@, sized(13)),
        ("🖥 Beautiful GUI & powerful CLI interfaces"@, sized(13)),
        ("🌐 Auto-detects and configures Docker registry mirrors"@, sized(13)),
        ("🐳 Docker Engine detection with installation guide"@, sized(13)),
        ("🎯 CPU target optimization (x86_64, Cascadelake, etc.)"@, sized(13)),
        ("🎮 CUDA GPU support (P100, V100)"@, sized(13)),
        ("🔄 Real-time build log streaming"@, sized(13)),
        ("🪟 Cross-platform: Windows, Linux, WSL2"@, sized(13)),
    ]
}

/// What one tab shows.
#[derive(Debug)]
pub enum Content {
    Build(BuildTab),
    System(SystemTab),
    Settings(SettingsTab),
    /// What the program can do.
    About(Vec<Label>),
}

/// What the window shows at one time.
#[derive(Debug)]
pub struct Frame {
    pub header: Header,
    pub content: Content,
}

impl Forge2kApp {
    /// The header is that of the state, where the button of a tab is clicked
    /// while the buttons are drawn, or none: the window is drawn again at once
    /// while a build is under way.
    pub open spec fn heads(&self, header: Header, clicked: Option<Tab>) -> bool {
        &&& header.repaint == self.is_building
        &&& shown(header.badges@) == badges_view(*self)
        &&& header.tabs@.len() == tab_order().len()
        &&& forall|i: int|
            0 <= i < tab_order().len() ==> opens(
                #[trigger] header.tabs@[i],
                tab_order()[i],
                active_at(i, self.active_tab, clicked),
            )
    }

    /// What the window shows around the content of a tab, where the button of a
    /// tab is clicked, or none.
    pub fn header(&self, clicked: Option<Tab>) -> (r: Header)
        ensures
            self.heads(r, clicked),
    {
        let mut badges = no_labels();
        if self.is_building {
            push_drawn(&mut badges, "● BUILDING", 11, color(255, 180, 50));
        }
        if self.docker_running {
            push_drawn(&mut badges, "● Docker OK", 11, color(80, 220, 100));
        } else {
            push_drawn(&mut badges, "○ Docker", 11, color(200, 80, 80));
        }
        assert(shown(badges@) =~= badges_view(*self));
        let mut tabs: Vec<TabButton> = Vec::new();
        let active = self.active_tab;
        tabs.push(tab_button(Tab::Build, active_for(Tab::Build, active, clicked)));
        tabs.push(tab_button(Tab::System, active_for(Tab::System, active, clicked)));
        tabs.push(tab_button(Tab::Settings, active_for(Tab::Settings, active, clicked)));
        tabs.push(tab_button(Tab::About, active_for(Tab::About, active, clicked)));
        Header { repaint: self.is_building, badges, tabs }
    }

    /// The content is that of the tab `Build`.
    pub open spec fn shows_build(&self, tab: BuildTab) -> bool {
        &&& form(tab.fields@) == build_form(*self)
        &&& offers_action(tab.button, self.is_building)
        &&& shown(tab.error@) == error_view(self.build_error)
        &&& shown(tab.log@) == log_view(self.build_logs@)
        &&& tab.follows == (self.log_auto_scroll && self.is_building)
    }

    /// The content is that of the tab `System`.
    pub open spec fn shows_system(&self, tab: SystemTab) -> bool {
        &&& shown(tab.docker@) == docker_mark(*self)
        &&& shown(tab.version@) == docker_version(*self)
        &&& shown(tab.registry@) == seq![("Status: "@ + self.registry_status@, bare())]
        &&& shown(tab.mirror@) == mirror_label("Mirror: "@, self.current_mirror@)
        &&& shown(tab.tips@) == tips_view()
    }

    /// The content is that of the tab `Settings`.
    pub open spec fn shows_settings(&self, tab: SettingsTab) -> bool {
        &&& shown(tab.message@) == message_view(self.settings_message@)
        &&& shown(tab.current@) == mirror_label("Current mirror: "@, self.current_mirror@)
        &&& cards(tab.mirrors@) == mirror_cards_view()
    }

    /// The content is that of the active tab.
    pub open spec fn shows(&self, content: Content) -> bool {
        match content {
            Content::Build(tab) => self.active_tab == Tab::Build && self.shows_build(tab),
            Content::System(tab) => self.active_tab == Tab::System && self.shows_system(tab),
            Content::Settings(tab) => self.active_tab == Tab::Settings && self.shows_settings(tab),
            Content::About(features) => self.active_tab == Tab::About && shown(features@)
                == features_view(),
        }
    }

    /// Draws a frame in which the button of a tab is clicked, or none: the
    /// buttons up to the clicked one are drawn by the tab that was active before
    /// and those behind it by the clicked one, which becomes the active tab. The
    /// content of the active tab, and of no other, is drawn in the same frame.
    pub fn update(&mut self, clicked: Option<Tab>) -> (r: Frame)
        ensures
            *final(self) == (Forge2kApp {
                active_tab: match clicked {
                    Some(tab) => tab,
                    None => old(self).active_tab,
                },
                ..*old(self)
            }),
            old(self).heads(r.header, clicked),
            final(self).shows(r.content),
    {
        let header = self.header(clicked);
        match clicked {
            Some(tab) => {
                self.select_tab(tab);
            },
            None => {},
        }
        let content = match self.active_tab {
            Tab::Build => Content::Build(self.render_build_tab()),
            Tab::System => Content::System(self.render_system_tab()),
            Tab::Settings => Content::Settings(self.render_settings_tab()),
            Tab::About => Content::About(self.render_about_tab()),
        };
        Frame { header, content }
    }

    /// What the tab `Build` shows. The log follows its last line while a build
    /// writes it and the user wants it to.
    pub fn render_build_tab(&self) -> (r: BuildTab)
        ensures
            self.shows_build(r),
    {
        let method = self.method.as_str();
        let mut fields: Vec<Field> = Vec::new();
        assert(form(fields@) =~= seq![]);
        push_picked(
            &mut fields,
            Setting::Method,
            "Build Method",
            &self.method,
            method_choices(),
        );
        push_picked(
            &mut fields,
            Setting::Version,
            "CP2K Version",
            &self.version,
            label_choices(&version_choices(method)),
        );
        push_picked(
            &mut fields,
            Setting::Mpi,
            "MPI Implementation",
            &self.mpi,
            label_choices(&mpi_choices(method)),
        );
        push_picked(
            &mut fields,
            Setting::Cpu,
            "CPU Target",
            &self.cpu,
            label_choices(&cpu_choices(method)),
        );
        push_picked(
            &mut fields,
            Setting::Cuda,
            "CUDA Support",
            &self.cuda,
            label_choices(&cuda_choices(method)),
        );
        push_picked(
            &mut fields,
            Setting::Variant,
            "Binary Variant",
            &self.variant,
            variant_choices(),
        );
        push_typed(&mut fields, Setting::Jobs, "Parallel Jobs (0 = auto)", &self.jobs, 80, "");
        push_typed(&mut fields, Setting::ShmSize, "Shared Memory Size", &self.shm_size, 80, "");
        push_typed(
            &mut fields,
            Setting::Tag,
            "Custom Image Tag (optional)",
            &self.tag,
            200,
            "auto-generate",
        );
        assert(form(fields@) =~= build_form(*self));
        let mut error = no_labels();
        match &self.build_error {
            Some(reason) => {
                let text = "❌ ".to_owned().concat(reason.as_str());
                push_drawn(&mut error, text.as_str(), 11, color(255, 100, 100));
            },
            None => {},
        }
        assert(shown(error@) =~= error_view(self.build_error));
        BuildTab {
            fields,
            button: build_button(self.is_building),
            error,
            log: log_labels(&self.build_logs),
            follows: self.log_auto_scroll && self.is_building,
        }
    }

    /// What the tab `System` shows.
    pub fn render_system_tab(&self) -> (r: SystemTab)
        ensures
            self.shows_system(r),
    {
        let mut docker = no_labels();
        let mut version = no_labels();
        if self.docker_checked {
            let tint = if self.docker_running {
                color(80, 220, 100)
            } else {
                color(220, 80, 80)
            };
            let word = if self.docker_running {
                "Running"
            } else {
                "Not Running"
            };
            push_drawn(&mut docker, "●", 20, tint);
            push_label(
                &mut docker,
                word,
                Face { size: None, color: Some(tint), strong: true, monospace: false },
            );
            let text = "Version: ".to_owned().concat(self.docker_status.as_str());
            push_bare(&mut version, text.as_str());
        } else {
            push_drawn(&mut docker, "○", 20, color(120, 120, 140));
            push_bare(&mut docker, "Not checked");
        }
        let mut registry = no_labels();
        let status = "Status: ".to_owned().concat(self.registry_status.as_str());
        push_bare(&mut registry, status.as_str());
        let mut tips = no_labels();
        push_bare(&mut tips, "• CP2K builds take 1-3 hours depending on your system");
        push_bare(&mut tips, "• Use 'forge2k list' in terminal to see all configs");
        push_bare(
            &mut tips,
            "• Use 'forge2k mirror' to configure registry mirror if network is slow",
        );
        push_bare(&mut tips, "• For WSL2, ensure Docker Desktop WSL integration is enabled");
        push_bare(&mut tips, "• Minimum 50GB free disk space recommended for builds");
        assert(shown(docker@) =~= docker_mark(*self));
        assert(shown(version@) =~= docker_version(*self));
        assert(shown(registry@) =~= seq![("Status: "@ + self.registry_status@, bare())]);
        assert(shown(tips@) =~= tips_view());
        SystemTab {
            docker,
            version,
            registry,
            mirror: mirror_labels("Mirror: ", self.current_mirror.as_str()),
            tips,
        }
    }

    /// What the tab `Settings` shows.
    pub fn render_settings_tab(&self) -> (r: SettingsTab)
        ensures
            self.shows_settings(r),
    {
        let mut message = no_labels();
        if !self.settings_message.as_str().is_empty() {
            push_sized(&mut message, self.settings_message.as_str(), 12);
        }
        SettingsTab {
            message,
            current: mirror_labels("Current mirror: ", self.current_mirror.as_str()),
            mirrors: mirror_cards(),
        }
    }

    /// What the tab `About` lists.
    pub fn render_about_tab(&self) -> (r: Vec<Label>)
        ensures
            shown(r@) == features_view(),
    {
        let mut features = no_labels();
        push_sized(&mut features, "🔥 One-click build with full configuration options", 13);
        push_sized(
            &mut features,
            "📦 Multiple build methods: Spack (2025.2) & Toolchain (2023.2)",
            13,
        );
        push_sized(&mut features, "🖥 Beautiful GUI & powerful CLI interfaces", 13);
        push_sized(&mut features, "🌐 Auto-detects and configures Docker registry mirrors", 13);
        push_sized(&mut features, "🐳 Docker Engine detection with installation guide", 13);
        push_sized(
            &mut features,
            "🎯 CPU target optimization (x86_64, Cascadelake, etc.)",
            13,
        );
        push_sized(&mut features, "🎮 CUDA GPU support (P100, V100)", 13);
        push_sized(&mut features, "🔄 Real-time build log streaming", 13);
        push_sized(&mut features, "🪟 Cross-platform: Windows, Linux, WSL2", 13);
        features
    }
}

/// The tab `Settings` shows the mirrors that the search for a mirror tries, in
/// the same order, and each of them can be applied.
pub proof fn shown_mirrors_are_searched(i: int)
    requires
        0 <= i < mirror_cards_view().len(),
    ensures
        mirror_cards_view().len() == known_mirrors().len(),
        mirror_cards_view()[i].1 == known_mirrors()[i],
        is_web_address(mirror_cards_view()[i].1),
{
    reveal_strlit("https://");
    reveal_strlit("https://docker.mirrors.ustc.edu.cn");
    reveal_strlit("https://mirror.ccs.tencentyun.com");
    reveal_strlit("https://2a59f68c.m.daocloud.io");
    reveal_strlit("https://registry.docker-cn.com");
    reveal_strlit("https://dockerhub.timeweb.cloud");
    let url = mirror_cards_view()[i].1;
    assert(url.subrange(0, 8) =~= "https://"@);
}

/// The header and the tab `System` agree on whether Docker runs.
pub proof fn header_and_system_agree(app: Forge2kApp)
    requires
        app.docker_known(),
    ensures
        badges_view(app).last().0 == "● Docker OK"@ <==> docker_mark(app)[1].0 == "Running"@,
{
    reveal_strlit("● Docker OK");
    reveal_strlit("○ Docker");
    reveal_strlit("Running");
    reveal_strlit("Not Running");
    reveal_strlit("Not checked");
    assert("● Docker OK"@.len() != "○ Docker"@.len());
    assert("Running"@.len() != "Not Running"@.len());
    assert("Running"@.len() != "Not checked"@.len());
}

/// A label shows its own text with its own face, in a list as by itself.
pub proof fn labels_show_what_they_hold(labels: Seq<Label>, i: int)
    ensures
        shown(labels).len() == labels.len(),
        0 <= i < labels.len() ==> shown(labels)[i] == (labels[i].text@, labels[i].face),
{
}

/// A face says what it is made from, and leaves the rest to the window's style.
pub proof fn faces_say_what_they_are_made_from(size: u8, red: u8, green: u8, blue: u8)
    ensures
        rgb(red, green, blue).red == red,
        rgb(red, green, blue).green == green,
        rgb(red, green, blue).blue == blue,
        bare() == (Face { size: None, color: None, strong: false, monospace: false }),
        sized(size) == (Face { size: Some(size), color: None, strong: false, monospace: false }),
        tinted(rgb(red, green, blue)) == (Face {
            size: None,
            color: Some(rgb(red, green, blue)),
            strong: false,
            monospace: false,
        }),
        drawn(size, rgb(red, green, blue)) == (Face {
            size: Some(size),
            color: Some(rgb(red, green, blue)),
            strong: false,
            monospace: false,
        }),
{
}

/// The header tells whether Docker runs, whether a build is under way or not, and
/// tells of a build exactly while one is under way.
pub proof fn badges_tell_the_state(app: Forge2kApp)
    ensures
        badges_view(app).len() == if app.is_building {
            2
        } else {
            1int
        },
        app.is_building ==> badges_view(app)[0] == ("● BUILDING"@, drawn(11, rgb(255, 180, 50))),
        app.docker_running ==> badges_view(app).last() == (
            "● Docker OK"@,
            drawn(11, rgb(80, 220, 100)),
        ),
        !app.docker_running ==> badges_view(app).last() == (
            "○ Docker"@,
            drawn(11, rgb(200, 80, 80)),
        ),
{
}

/// The buttons stand in the order of their tabs, each tab once.
pub proof fn tabs_have_their_place(tab: Tab, other: Tab)
    ensures
        tab_order().len() == 4,
        0 <= tab_place(tab) < 4,
        tab_order()[tab_place(tab)] == tab,
        tab_place(tab) == tab_place(other) ==> tab == other,
        tab_place(Tab::Build) < tab_place(Tab::System) < tab_place(Tab::Settings) < tab_place(
            Tab::About,
        ),
{
}

/// A button opens its own tab, is labelled after it, and stands out exactly where
/// that tab is the active one.
pub proof fn buttons_open_their_tab(button: TabButton, tab: Tab, active: Tab)
    requires
        opens(button, tab, active),
    ensures
        button.tab == tab,
        button.ground is Some <==> tab == active,
        button.color == rgb(255, 200, 50) <==> tab == active,
        tab == active ==> button.ground == Some(rgb(40, 40, 55)),
        tab != active ==> button.color == rgb(160, 160, 180),
        button.label@ == tab_label_view(tab),
{
}

/// Different tabs have different labels.
pub proof fn labels_tell_tabs_apart(tab: Tab, other: Tab)
    ensures
        tab_label_view(tab) == tab_label_view(other) ==> tab == other,
        tab_label_view(Tab::Build) == "🛠 Build"@,
        tab_label_view(Tab::System) == "📊 System"@,
        tab_label_view(Tab::Settings) == "⚙ Settings"@,
        tab_label_view(Tab::About) == "ℹ About"@,
{
    reveal_strlit("🛠 Build");
    reveal_strlit("📊 System");
    reveal_strlit("⚙ Settings");
    reveal_strlit("ℹ About");
    assert("🛠 Build"@.last() == 'd');
    assert("📊 System"@.last() == 'm');
    assert("⚙ Settings"@.last() == 's');
    assert("ℹ About"@.last() == 't');
}

/// A click takes effect at once: the buttons up to the clicked one are drawn by the
/// tab that was active before, and those behind it by the clicked tab; without a
/// click all are drawn by the active tab.
pub proof fn clicks_take_effect_at_once(place: int, active: Tab, clicked: Tab)
    ensures
        active_at(place, active, None) == active,
        place <= tab_place(clicked) ==> active_at(place, active, Some(clicked)) == active,
        place > tab_place(clicked) ==> active_at(place, active, Some(clicked)) == clicked,
{
}

/// A field shows what it holds, in a form as by itself.
pub proof fn fields_show_what_they_hold(fields: Seq<Field>, i: int)
    requires
        0 <= i < fields.len(),
    ensures
        form(fields).len() == fields.len(),
        form(fields)[i].setting == fields[i].setting,
        form(fields)[i].caption == fields[i].caption@,
        form(fields)[i].value == fields[i].value@,
        form(fields)[i].choices == pairs(fields[i].choices@),
        form(fields)[i].width == fields[i].width,
        form(fields)[i].hint == fields[i].hint@,
{
}

/// The form has a field for every setting, each once, and shows the value of that
/// setting in it.
pub proof fn form_shows_every_setting(app: Forge2kApp, i: int, j: int)
    ensures
        build_form(app).len() == 9,
        0 <= i < 9 ==> build_form(app)[i].value == app.setting(build_form(app)[i].setting),
        0 <= i < 9 && 0 <= j < 9 && i != j ==> build_form(app)[i].setting
            != build_form(app)[j].setting,
        build_form(app)[0].setting == Setting::Method,
        build_form(app)[1].setting == Setting::Version,
        build_form(app)[2].setting == Setting::Mpi,
        build_form(app)[3].setting == Setting::Cpu,
        build_form(app)[4].setting == Setting::Cuda,
        build_form(app)[5].setting == Setting::Variant,
        build_form(app)[6].setting == Setting::Jobs,
        build_form(app)[7].setting == Setting::ShmSize,
        build_form(app)[8].setting == Setting::Tag,
{
}

/// What can be picked is what the method offers, each choice under its own label;
/// the number of jobs, the shared memory size and the tag are typed.
pub proof fn form_offers_the_choices_of_the_method(app: Forge2kApp, k: int)
    ensures
        build_form(app)[0].choices == method_choices_view(),
        build_form(app)[1].choices.len() == version_choices_view(app.method@).len(),
        0 <= k < version_choices_view(app.method@).len() ==> build_form(app)[1].choices[k] == (
            version_choices_view(app.method@)[k],
            version_choices_view(app.method@)[k],
        ),
        build_form(app)[2].choices.len() == mpi_choices_view(app.method@).len(),
        0 <= k < mpi_choices_view(app.method@).len() ==> build_form(app)[2].choices[k] == (
            mpi_choices_view(app.method@)[k],
            mpi_choices_view(app.method@)[k],
        ),
        build_form(app)[3].choices.len() == cpu_choices_view(app.method@).len(),
        0 <= k < cpu_choices_view(app.method@).len() ==> build_form(app)[3].choices[k] == (
            cpu_choices_view(app.method@)[k],
            cpu_choices_view(app.method@)[k],
        ),
        build_form(app)[4].choices.len() == cuda_choices_view(app.method@).len(),
        0 <= k < cuda_choices_view(app.method@).len() ==> build_form(app)[4].choices[k] == (
            cuda_choices_view(app.method@)[k],
            cuda_choices_view(app.method@)[k],
        ),
        build_form(app)[5].choices == variant_choices_view(),
        6 <= k < 9 ==> build_form(app)[k].choices.len() == 0 && build_form(app)[k].width > 0,
        0 <= k < 6 ==> build_form(app)[k].width == 0,
{
}

/// Two states have forms with the same captions, widths and hints.
pub proof fn forms_look_alike(a: Forge2kApp, b: Forge2kApp, i: int)
    requires
        0 <= i < 9,
    ensures
        build_form(a)[i].caption == build_form(b)[i].caption,
        build_form(a)[i].width == build_form(b)[i].width,
        build_form(a)[i].hint == build_form(b)[i].hint,
        build_form(a)[i].setting == build_form(b)[i].setting,
{
}

/// While a build is under way the button cancels it, and otherwise it starts one;
/// its label says which.
pub proof fn button_cancels_a_build_under_way(button: BuildButton, is_building: bool)
    requires
        offers_action(button, is_building),
    ensures
        button.cancels <==> is_building,
        is_building ==> button.label@ == "⛔ CANCEL BUILD"@ && button.color == rgb(255, 100, 100)
            && button.ground == rgb(60, 20, 20),
        !is_building ==> button.label@ == "🔥 START BUILD"@ && button.color == rgb(20, 20, 30)
            && button.ground == rgb(255, 200, 50),
{
}

/// Every error has the colour of errors, whatever it says. Other lines are coloured
/// by the sign that they begin with, whatever follows it.
pub proof fn lines_are_coloured_by_their_sign(text: Seq<char>, rest: Seq<char>)
    ensures
        log_color_view(text, true) == rgb(255, 100, 100),
        log_color_view("✅"@ + rest, false) == rgb(100, 220, 130),
        log_color_view("🚀"@ + rest, false) == rgb(100, 220, 130),
        log_color_view("📋"@ + rest, false) == rgb(100, 220, 130),
        log_color_view("⚠"@ + rest, false) == rgb(255, 200, 80),
        log_color_view("⏹"@ + rest, false) == rgb(255, 200, 80),
        text.len() == 0 || (text[0] != '✅' && text[0] != '🚀' && text[0] != '📋' && text[0] != '⚠'
            && text[0] != '⏹') ==> log_color_view(text, false) == rgb(180, 185, 195),
{
    reveal_strlit("✅");
    reveal_strlit("🚀");
    reveal_strlit("📋");
    reveal_strlit("⚠");
    reveal_strlit("⏹");
    sign_comes_first("✅"@, rest);
    sign_comes_first("🚀"@, rest);
    sign_comes_first("📋"@, rest);
    sign_comes_first("⚠"@, rest);
    sign_comes_first("⏹"@, rest);
    let warning = "⚠"@ + rest;
    let stop = "⏹"@ + rest;
    sign_is_told(warning, "✅"@);
    sign_is_told(warning, "🚀"@);
    sign_is_told(warning, "📋"@);
    sign_is_told(stop, "✅"@);
    sign_is_told(stop, "🚀"@);
    sign_is_told(stop, "📋"@);
    sign_is_told(text, "✅"@);
    sign_is_told(text, "🚀"@);
    sign_is_told(text, "📋"@);
    sign_is_told(text, "⚠"@);
    sign_is_told(text, "⏹"@);
}

proof fn sign_comes_first(sign: Seq<char>, rest: Seq<char>)
    ensures
        occurs_at(sign + rest, sign, 0),
{
    assert((sign + rest).subrange(0, sign.len() as int) =~= sign);
}

proof fn sign_is_told(text: Seq<char>, sign: Seq<char>)
    requires
        sign.len() == 1,
    ensures
        occurs_at(text, sign, 0) ==> text.len() > 0 && text[0] == sign[0],
{
    if occurs_at(text, sign, 0) {
        assert(text.subrange(0, 1)[0] == text[0]);
    }
}

/// Every line of the log is shown, in its order, in a fixed-width face, and with
/// its text as it is; an empty log says what to do.
pub proof fn every_line_of_the_log_is_shown(lines: Seq<LogLine>, i: int)
    ensures
        lines.len() > 0 ==> log_view(lines).len() == lines.len(),
        0 <= i < lines.len() ==> log_view(lines)[i].0 == "  "@ + lines[i].text@
            && log_view(lines)[i].1.monospace && log_view(lines)[i].1.size == Some(12u8)
            && log_view(lines)[i].1.color == Some(
            log_color_view(lines[i].text@, lines[i].is_error),
        ) && !log_view(lines)[i].1.strong,
        lines.len() == 0 ==> log_view(lines).len() == 2 && log_view(lines)[0].0
            == "  ⚡ Configure your build and click START BUILD"@,
{
}

/// The error of the last build is shown as it is, where there is one.
pub proof fn errors_are_shown(error: Option<String>)
    ensures
        error is None ==> error_view(error).len() == 0,
        error matches Some(reason) ==> error_view(error) == seq![
            ("❌ "@ + reason@, drawn(11, rgb(255, 100, 100))),
        ],
{
}

/// Docker is shown as running, as not running, or as not yet looked for; its
/// version is shown as it is once it was looked for.
pub proof fn docker_is_marked(app: Forge2kApp)
    ensures
        docker_mark(app).len() == 2,
        !app.docker_checked ==> docker_mark(app)[1] == ("Not checked"@, bare()) && docker_mark(
            app,
        )[0] == ("○"@, drawn(20, rgb(120, 120, 140))) && docker_version(app).len() == 0,
        app.docker_checked ==> docker_version(app) == seq![
            ("Version: "@ + app.docker_status@, bare()),
        ],
        app.docker_checked && app.docker_running ==> docker_mark(app)[1].0 == "Running"@
            && docker_mark(app)[0] == ("●"@, drawn(20, rgb(80, 220, 100))) && docker_mark(
            app,
        )[1].1.color == Some(rgb(80, 220, 100)) && docker_mark(app)[1].1.strong,
        app.docker_checked && !app.docker_running ==> docker_mark(app)[1].0 == "Not Running"@
            && docker_mark(app)[0] == ("●"@, drawn(20, rgb(220, 80, 80))) && docker_mark(
            app,
        )[1].1.color == Some(rgb(220, 80, 80)) && docker_mark(app)[1].1.strong,
{
}

/// A mirror that is configured is shown behind its caption, and a message as it is;
/// what is empty is not shown.
pub proof fn mirrors_and_messages_are_shown(caption: Seq<char>, text: Seq<char>)
    ensures
        text.len() == 0 <==> mirror_label(caption, text).len() == 0,
        text.len() > 0 ==> mirror_label(caption, text) == seq![
            (caption + text, tinted(rgb(100, 180, 255))),
        ],
        text.len() == 0 <==> message_view(text).len() == 0,
        text.len() > 0 ==> message_view(text) == seq![(text, sized(12))],
{
}

/// The header is drawn again while a build is under way, shows the badges, and has
/// the button of every tab at its place.
pub proof fn header_follows_the_state(app: Forge2kApp, header: Header, tab: Tab)
    requires
        app.heads(header, None),
    ensures
        header.repaint <==> app.is_building,
        shown(header.badges@) == badges_view(app),
        header.tabs@.len() == 4,
        header.tabs@[tab_place(tab)].tab == tab,
        header.tabs@[tab_place(tab)].ground is Some <==> tab == app.active_tab,
{
    tabs_have_their_place(tab, tab);
    assert(opens(
        header.tabs@[tab_place(tab)],
        tab_order()[tab_place(tab)],
        active_at(tab_place(tab), app.active_tab, None),
    ));
}

/// The content that is shown is that of the active tab, and of no other.
pub proof fn content_is_that_of_the_active_tab(app: Forge2kApp, content: Content)
    requires
        app.shows(content),
    ensures
        content is Build <==> app.active_tab is Build,
        content is System <==> app.active_tab is System,
        content is Settings <==> app.active_tab is Settings,
        content is About <==> app.active_tab is About,
        content matches Content::Build(tab) ==> form(tab.fields@) == build_form(app)
            && offers_action(tab.button, app.is_building) && shown(tab.error@) == error_view(
            app.build_error,
        ) && shown(tab.log@) == log_view(app.build_logs@) && (tab.follows <==> app.log_auto_scroll
            && app.is_building),
        content matches Content::System(tab) ==> shown(tab.docker@) == docker_mark(app) && shown(
            tab.version@,
        ) == docker_version(app) && shown(tab.registry@) == seq![
            ("Status: "@ + app.registry_status@, bare()),
        ] && shown(tab.mirror@) == mirror_label("Mirror: "@, app.current_mirror@) && shown(
            tab.tips@,
        ) == tips_view(),
        content matches Content::Settings(tab) ==> shown(tab.message@) == message_view(
            app.settings_message@,
        ) && shown(tab.current@) == mirror_label("Current mirror: "@, app.current_mirror@)
            && cards(tab.mirrors@) == mirror_cards_view(),
        content matches Content::About(features) ==> shown(features@) == features_view(),
{
}

/// A card says what it holds, in a list as by itself.
pub proof fn cards_say_what_they_hold(list: Seq<MirrorCard>, i: int)
    ensures
        cards(list).len() == list.len(),
        0 <= i < list.len() ==> cards(list)[i] == (list[i].name@, list[i].url@, list[i].about@),
{
}

} // verus!
