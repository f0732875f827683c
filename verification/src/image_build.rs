//! The build of an image with Docker: what is logged, and what is done next.

use crate::config::archive_file_name;
use crate::config::archive_name_for;
use crate::config::BuildConfig;
use crate::config::DockerfilePath;
use crate::log::failed;
use crate::log::said;
use crate::log::NoteView;
use crate::log::Notes;
use crate::process::command_result;
use crate::process::command_text;
use crate::process::command_view;
use crate::process::commands_fail_unless_they_succeed;
use crate::process::complaint_view;
use crate::process::exit_code_text;
use crate::process::exit_code_view;
use crate::process::CommandOutcome;
use crate::text::decimal;
use crate::text::decimal_text;
use crate::text::no_texts;
use crate::text::push_copy;
use crate::text::same;
use crate::text::texts;
use vstd::prelude::*;

verus! {

/// The version of this program.
pub const VERSION: &'static str = "1.0.0";

/// An image build that is about to be launched.
#[derive(Clone, Debug)]
pub struct ImageBuild {
    /// The tag of the image.
    pub tag: String,
    /// The file to which the finished image is saved, where that is asked for.
    pub archive: Option<String>,
    /// What is logged before the launch.
    pub notes: Notes,
    /// The arguments of the `docker` command.
    pub args: Vec<String>,
}

/// Something that an image build waits for.
#[derive(Clone, Debug)]
pub enum BuildEvent {
    /// Docker was launched.
    Launched,
    /// Docker could not be launched, and why.
    NotLaunched(String),
    /// Whether the user has cancelled the build.
    CancelChecked(bool),
    /// Docker is still at work.
    Running,
    /// Docker ended.
    Exited { success: bool, code: Option<i32> },
    /// The state of Docker cannot be told, and why.
    Lost(String),
    /// The pause is over.
    Rested,
    /// What came of saving the image.
    Saved(CommandOutcome),
}

/// What an image build does next.
#[derive(Clone, Debug)]
pub enum BuildStep {
    /// Find out whether the user has cancelled the build.
    CheckCancel,
    /// Find out whether Docker has ended.
    Poll,
    /// Pause for a moment.
    Rest,
    /// Stop Docker; the build is over.
    Kill,
    /// Save the image with these arguments of the `docker` command.
    Save(Vec<String>),
    /// The build is over.
    Finish,
    /// The build is over, and the error says why.
    Fail(String),
}

/// How long an image build pauses between two looks at Docker.
pub const REST_MILLIS: u64 = 200;

/// The notes before the launch of an image build.
pub open spec fn build_header(
    config: BuildConfig,
    tag: Seq<char>,
    path: Seq<char>,
    args: Seq<Seq<char>>,
) -> Seq<NoteView> {
    seq![
        said("🔨 Forge2K Build Engine v"@ + VERSION@),
        said("   Method:    "@ + config.method@),
        said("   Version:   "@ + config.version@),
        said("   MPI:       "@ + config.mpi@),
        said("   CPU:       "@ + config.cpu@),
        said("   CUDA:      "@ + config.cuda@),
        said("   Variant:   "@ + config.variant@),
        said("   Jobs:      "@ + decimal(config.jobs as nat)),
        said("   Tag:       "@ + tag),
        said("   Dockerfile: "@ + path),
        said(""@),
        said("🚀 Starting build (this may take 1-3 hours)..."@),
        said(""@),
        said(command_view("docker"@, args)),
        said(""@),
    ]
}

/// The file to which a finished image is saved, where the configuration asks
/// for an archive.
pub open spec fn archive_view(config: BuildConfig, tag: Seq<char>) -> Option<Seq<char>> {
    if config.wants_archive() {
        Some(archive_name_for(tag))
    } else {
        None
    }
}

/// The arguments of the `docker` command that saves an image to a file.
pub open spec fn save_args_view(file: Seq<char>, tag: Seq<char>) -> Seq<Seq<char>> {
    seq!["save"@, "-o"@, file, tag]
}

impl ImageBuild {
    /// The file to which the finished image is saved, where that is asked for.
    pub open spec fn archive_name(&self) -> Option<Seq<char>> {
        match self.archive {
            Some(file) => Some(file@),
            None => None,
        }
    }
}

/// The image build of a configuration under the given tag. The finished image
/// is saved to a file where the configuration asks for an archive, and only
/// there.
pub fn image_build_for(config: &BuildConfig, tag: &str, dockerfile: &DockerfilePath) -> (r:
    ImageBuild)
    ensures
        r.tag@ == tag@,
        r.archive_name() == archive_view(*config, tag@),
        texts(r.args@) == config.docker_args_view(tag@, dockerfile.path@, dockerfile.context()),
        r.notes@ == build_header(*config, tag@, dockerfile.path@, texts(r.args@)),
{
    let args = config.docker_args(tag, dockerfile);
    let mut notes = Notes::new();
    notes.say_of("🔨 Forge2K Build Engine v", VERSION);
    notes.say_of("   Method:    ", config.method.as_str());
    notes.say_of("   Version:   ", config.version.as_str());
    notes.say_of("   MPI:       ", config.mpi.as_str());
    notes.say_of("   CPU:       ", config.cpu.as_str());
    notes.say_of("   CUDA:      ", config.cuda.as_str());
    notes.say_of("   Variant:   ", config.variant.as_str());
    notes.say_of("   Jobs:      ", decimal_text(config.jobs as u64).as_str());
    notes.say_of("   Tag:       ", tag);
    notes.say_of("   Dockerfile: ", dockerfile.path.as_str());
    notes.say("");
    notes.say("🚀 Starting build (this may take 1-3 hours)...");
    notes.say("");
    notes.say(command_text("docker", &args).as_str());
    notes.say("");
    let archive = if same(config._output.as_str(), "image") {
        Some(archive_file_name(tag))
    } else {
        None
    };
    ImageBuild { tag: tag.to_owned(), archive, notes, args }
}

/// The image build of a configuration under its default tag.
pub fn execute_build(config: &BuildConfig, dockerfile: &DockerfilePath) -> (r: ImageBuild)
    ensures
        config.is_tag(r.tag@),
        !config.is_dated() ==> r.tag@ == config.tag_on(Seq::empty()),
        r.archive_name() == archive_view(*config, r.tag@),
        texts(r.args@) == config.docker_args_view(
            r.tag@,
            dockerfile.path@,
            dockerfile.context(),
        ),
        r.notes@ == build_header(*config, r.tag@, dockerfile.path@, texts(r.args@)),
{
    let tag = config.default_tag();
    image_build_for(config, tag.as_str(), dockerfile)
}

/// The notes of a build that succeeded.
pub open spec fn success_notes(tag: Seq<char>) -> Seq<NoteView> {
    seq![
        said(""@),
        said("✅ Build completed successfully!"@),
        said("   Image: "@ + tag),
        said(""@),
        said("💡 Run with:"@),
        said("   docker run --rm -v $(pwd):/work "@ + tag + " cp2k --help"@),
    ]
}

/// What an event adds to the log of an image build, where the finished image
/// goes to the given file or to none.
pub open spec fn event_notes(
    event: BuildEvent,
    tag: Seq<char>,
    archive: Option<Seq<char>>,
) -> Seq<NoteView> {
    match event {
        BuildEvent::CancelChecked(true) => seq![failed("⛔ Build cancelled by user."@)],
        BuildEvent::Exited { success: true, .. } => match archive {
            Some(file) => success_notes(tag) + seq![
                said(""@),
                said(command_view("docker"@, save_args_view(file, tag))),
            ],
            None => success_notes(tag),
        },
        BuildEvent::Exited { success: false, code } => seq![
            said(""@),
            failed("❌ Build failed with exit code: "@ + exit_code_view(code)),
        ],
        BuildEvent::Lost(reason) => seq![failed("⚠️ Error waiting for build: "@ + reason@)],
        BuildEvent::Saved(outcome) => match (complaint_view("docker"@, outcome), archive) {
            (Some(reason), _) => seq![failed("❌ Saving the image failed: "@ + reason)],
            (None, Some(file)) => seq![said("   Archive: "@ + file)],
            (None, None) => seq![],
        },
        _ => seq![],
    }
}

/// What an image build does after an event. A cancelled build is stopped
/// before Docker is looked at again; a build that Docker ends is over, whether
/// it succeeded or not, but for an image that is still to be saved.
pub open spec fn follows(
    event: BuildEvent,
    tag: Seq<char>,
    archive: Option<Seq<char>>,
    step: BuildStep,
) -> bool {
    match event {
        BuildEvent::Launched | BuildEvent::Rested => step is CheckCancel,
        BuildEvent::NotLaunched(reason) => step matches BuildStep::Fail(complaint) && complaint@
            == "Failed to launch docker build: "@ + reason@,
        BuildEvent::CancelChecked(cancelled) => if cancelled {
            step is Kill
        } else {
            step is Poll
        },
        BuildEvent::Running => step is Rest,
        BuildEvent::Exited { success, .. } => match archive {
            Some(file) => if success {
                step matches BuildStep::Save(args) && texts(args@) == save_args_view(file, tag)
            } else {
                step is Finish
            },
            None => step is Finish,
        },
        BuildEvent::Lost(reason) => step matches BuildStep::Fail(complaint) && complaint@
            == "Build process error: "@ + reason@,
        BuildEvent::Saved(outcome) => match complaint_view("docker"@, outcome) {
            Some(reason) => step matches BuildStep::Fail(complaint) && complaint@
                == "Failed to save image: "@ + reason,
            None => step is Finish,
        },
    }
}

/// The arguments of the `docker` command that saves an image to a file.
fn save_args(file: &str, tag: &str) -> (r: Vec<String>)
    ensures
        texts(r@) == save_args_view(file@, tag@),
{
    let mut args = no_texts();
    push_copy(&mut args, "save");
    push_copy(&mut args, "-o");
    push_copy(&mut args, file);
    push_copy(&mut args, tag);
    args
}

/// What an event adds to the log of an image build.
pub fn notes_of_event(build: &ImageBuild, event: &BuildEvent) -> (r: Notes)
    ensures
        r@ == event_notes(*event, build.tag@, build.archive_name()),
{
    let tag = build.tag.as_str();
    let mut notes = Notes::new();
    match event {
        BuildEvent::CancelChecked(cancelled) => {
            if *cancelled {
                notes.fail("⛔ Build cancelled by user.");
            }
        },
        BuildEvent::Exited { success, code } => {
            notes.say("");
            if *success {
                notes.say("✅ Build completed successfully!");
                notes.say_of("   Image: ", tag);
                notes.say("");
                notes.say("💡 Run with:");
                notes.say(
                    "   docker run --rm -v $(pwd):/work ".to_owned().concat(tag).concat(
                        " cp2k --help",
                    ).as_str(),
                );
                match &build.archive {
                    Some(file) => {
                        notes.say("");
                        let args = save_args(file.as_str(), tag);
                        notes.say(command_text("docker", &args).as_str());
                    },
                    None => {},
                }
            } else {
                notes.fail(
                    "❌ Build failed with exit code: ".to_owned().concat(
                        exit_code_text(*code).as_str(),
                    ).as_str(),
                );
            }
        },
        BuildEvent::Lost(reason) => {
            notes.fail("⚠️ Error waiting for build: ".to_owned().concat(reason.as_str()).as_str());
        },
        BuildEvent::Saved(outcome) => match command_result("docker", outcome) {
            Ok(()) => match &build.archive {
                Some(file) => {
                    notes.say_of("   Archive: ", file.as_str());
                },
                None => {},
            },
            Err(reason) => {
                notes.fail(
                    "❌ Saving the image failed: ".to_owned().concat(reason.as_str()).as_str(),
                );
            },
        },
        _ => {},
    }
    assert(notes@ =~= event_notes(*event, build.tag@, build.archive_name()));
    notes
}

/// What an image build logs and does after an event.
pub fn after_build_event(build: &ImageBuild, event: BuildEvent) -> (r: (Notes, BuildStep))
    ensures
        r.0@ == event_notes(event, build.tag@, build.archive_name()),
        follows(event, build.tag@, build.archive_name(), r.1),
{
    let notes = notes_of_event(build, &event);
    let step = match event {
        BuildEvent::Launched => BuildStep::CheckCancel,
        BuildEvent::Rested => BuildStep::CheckCancel,
        BuildEvent::NotLaunched(reason) => BuildStep::Fail(
            "Failed to launch docker build: ".to_owned().concat(reason.as_str()),
        ),
        BuildEvent::CancelChecked(cancelled) => if cancelled {
            BuildStep::Kill
        } else {
            BuildStep::Poll
        },
        BuildEvent::Running => BuildStep::Rest,
        BuildEvent::Exited { success, .. } => match &build.archive {
            Some(file) => if success {
                BuildStep::Save(save_args(file.as_str(), build.tag.as_str()))
            } else {
                BuildStep::Finish
            },
            None => BuildStep::Finish,
        },
        BuildEvent::Lost(reason) => BuildStep::Fail(
            "Build process error: ".to_owned().concat(reason.as_str()),
        ),
        BuildEvent::Saved(outcome) => match command_result("docker", &outcome) {
            Ok(()) => BuildStep::Finish,
            Err(reason) => BuildStep::Fail(
                "Failed to save image: ".to_owned().concat(reason.as_str()),
            ),
        },
    };
    (notes, step)
}

/// Docker is looked at only right after the user was found not to have
/// cancelled the build, and it is stopped exactly where the user has.
pub proof fn cancelled_builds_are_stopped(
    event: BuildEvent,
    tag: Seq<char>,
    archive: Option<Seq<char>>,
    step: BuildStep,
)
    requires
        follows(event, tag, archive, step),
    ensures
        step is Poll <==> event == BuildEvent::CancelChecked(false),
        step is Kill <==> event == BuildEvent::CancelChecked(true),
{
}

/// The image of a configuration is saved to a file exactly where its build
/// succeeded and the configuration asks for an archive.
pub proof fn archives_are_saved(
    config: BuildConfig,
    event: BuildEvent,
    tag: Seq<char>,
    step: BuildStep,
)
    requires
        follows(event, tag, archive_view(config, tag), step),
    ensures
        step is Save <==> (config._output@ == "image"@ && (
        event matches BuildEvent::Exited { success, .. } && success)),
        step matches BuildStep::Save(args) ==> texts(args@) == seq![
            "save"@,
            "-o"@,
            archive_name_for(tag),
            tag,
        ],
{
}

/// The notes before the launch show the configuration, the tag, the Dockerfile and
/// the command, each as it is.
pub proof fn header_shows_the_configuration(
    config: BuildConfig,
    tag: Seq<char>,
    path: Seq<char>,
    args: Seq<Seq<char>>,
)
    ensures
        ({
            let notes = build_header(config, tag, path, args);
            &&& notes.len() == 15
            &&& forall|i: int| 0 <= i < 15 ==> !(#[trigger] notes[i]).1
            &&& notes[0].0 == "🔨 Forge2K Build Engine v"@ + VERSION@
            &&& notes[1].0 == "   Method:    "@ + config.method@
            &&& notes[2].0 == "   Version:   "@ + config.version@
            &&& notes[3].0 == "   MPI:       "@ + config.mpi@
            &&& notes[4].0 == "   CPU:       "@ + config.cpu@
            &&& notes[5].0 == "   CUDA:      "@ + config.cuda@
            &&& notes[6].0 == "   Variant:   "@ + config.variant@
            &&& notes[7].0 == "   Jobs:      "@ + decimal(config.jobs as nat)
            &&& notes[8].0 == "   Tag:       "@ + tag
            &&& notes[9].0 == "   Dockerfile: "@ + path
            &&& notes[13].0 == command_view("docker"@, args)
        }),
{
}

/// An archive is made exactly where the output is to be an image file, and is
/// named by the tag.
pub proof fn archives_are_asked_for(config: BuildConfig, tag: Seq<char>)
    ensures
        archive_view(config, tag) is Some <==> config._output@ == "image"@,
        archive_view(config, tag) matches Some(file) ==> file == archive_name_for(tag),
{
}

/// What follows an event is one thing alone: two steps that follow it agree.
pub proof fn events_decide_the_step(
    event: BuildEvent,
    tag: Seq<char>,
    archive: Option<Seq<char>>,
    a: BuildStep,
    b: BuildStep,
)
    requires
        follows(event, tag, archive, a),
        follows(event, tag, archive, b),
    ensures
        a is CheckCancel == b is CheckCancel,
        a is Poll == b is Poll,
        a is Rest == b is Rest,
        a is Kill == b is Kill,
        a is Save == b is Save,
        a is Finish == b is Finish,
        a is Fail == b is Fail,
        a is Fail ==> a->Fail_0@ == b->Fail_0@,
        a is Save ==> texts(a->Save_0@) == texts(b->Save_0@),
{
}

/// An image build fails exactly where Docker cannot be launched, its state cannot
/// be told, or the finished image cannot be saved, and the error says why. A build
/// that Docker ends is no such failure, whatever its exit code is.
pub proof fn builds_fail_with_their_reason(
    event: BuildEvent,
    tag: Seq<char>,
    archive: Option<Seq<char>>,
    step: BuildStep,
)
    requires
        follows(event, tag, archive, step),
    ensures
        step is Fail <==> event is NotLaunched || event is Lost || (event matches BuildEvent::Saved(
            outcome,
        ) && !(outcome is Succeeded)),
        event matches BuildEvent::NotLaunched(reason) ==> step->Fail_0@
            == "Failed to launch docker build: "@ + reason@,
        event matches BuildEvent::Lost(reason) ==> step->Fail_0@ == "Build process error: "@
            + reason@,
        event matches BuildEvent::Saved(outcome) ==> (!(outcome is Succeeded) ==> step->Fail_0@
            == "Failed to save image: "@ + complaint_view("docker"@, outcome)->0),
        step is Finish <==> (event matches BuildEvent::Saved(outcome) && outcome is Succeeded) || (
        event matches BuildEvent::Exited { success, .. } && !(success && archive is Some)),
{
    if let BuildEvent::Saved(outcome) = event {
        commands_fail_unless_they_succeed("docker"@, outcome);
    }
}

/// While Docker runs, the build asks whether it was cancelled, looks at Docker,
/// pauses, and asks again.
pub proof fn running_builds_are_watched(
    event: BuildEvent,
    tag: Seq<char>,
    archive: Option<Seq<char>>,
    step: BuildStep,
)
    requires
        follows(event, tag, archive, step),
    ensures
        step is CheckCancel <==> event is Launched || event is Rested,
        step is Rest <==> event is Running,
        step is Save <==> archive is Some && (event matches BuildEvent::Exited { success, .. }
            && success),
        step matches BuildStep::Save(args) ==> texts(args@) == seq![
            "save"@,
            "-o"@,
            archive->0,
            tag,
        ],
{
}

/// A build that succeeded says so, and names the image under its tag; the command
/// that runs it names the image too. Where the image is saved, the command that
/// saves it follows.
pub proof fn success_is_logged(code: Option<i32>, tag: Seq<char>, archive: Option<Seq<char>>)
    ensures
        ({
            let notes = event_notes(BuildEvent::Exited { success: true, code }, tag, archive);
            &&& archive is None ==> notes.len() == 6
            &&& archive matches Some(file) ==> notes.len() == 8 && notes[7].0 == command_view(
                "docker"@,
                seq!["save"@, "-o"@, file, tag],
            )
            &&& forall|i: int| 0 <= i < notes.len() ==> !(#[trigger] notes[i]).1
            &&& notes[1].0 == "✅ Build completed successfully!"@
            &&& notes[2].0 == "   Image: "@ + tag
            &&& notes[5].0 == "   docker run --rm -v $(pwd):/work "@ + tag + " cp2k --help"@
        }),
{
}

/// What goes wrong is logged as an error, in one line with the reason: a
/// cancelled build, an exit code without success, a lost process, and an image
/// that could not be saved. Other events log nothing, but for the archive that was
/// saved.
pub proof fn failures_are_logged(event: BuildEvent, tag: Seq<char>, archive: Option<Seq<char>>)
    ensures
        ({
            let notes = event_notes(event, tag, archive);
            &&& event == BuildEvent::CancelChecked(true) ==> notes == seq![
                ("⛔ Build cancelled by user."@, true),
            ]
            &&& event matches BuildEvent::Exited { success, code } ==> (!success ==> notes.len()
                == 2 && !notes[0].1 && notes[1] == ("❌ Build failed with exit code: "@
                + exit_code_view(code), true))
            &&& event matches BuildEvent::Lost(reason) ==> notes == seq![
                ("⚠️ Error waiting for build: "@ + reason@, true),
            ]
            &&& event matches BuildEvent::Saved(outcome) ==> (!(outcome is Succeeded) ==> notes
                == seq![
                (
                    "❌ Saving the image failed: "@ + complaint_view("docker"@, outcome)->0,
                    true,
                ),
            ])
            &&& event matches BuildEvent::Saved(outcome) ==> (outcome is Succeeded && archive is Some
                ==> notes == seq![("   Archive: "@ + archive->0, false)])
            &&& event is Launched || event is NotLaunched || event is Running || event is Rested
                || event == BuildEvent::CancelChecked(false) ==> notes.len() == 0
        }),
{
    if let BuildEvent::Saved(outcome) = event {
        commands_fail_unless_they_succeed("docker"@, outcome);
    }
}

/// An image build names the file that it saves to, where there is one.
pub proof fn builds_name_their_archive(build: ImageBuild)
    ensures
        build.archive_name() is Some <==> build.archive is Some,
        build.archive matches Some(file) ==> build.archive_name() == Some(file@),
{
}

} // verus!
