//! Assembling the bundle of one binary, step by step.
//!
//! The work itself is done by whoever drives the assembly: directories are
//! made, files copied, tools run. What is decided here is which step comes
//! next and what it consists of. The driver asks for the action of the
//! current step, performs it, and reports the outcome; a step that fails ends
//! the assembly, with one exception: where no icon is found, an empty one is
//! written in its place.
//!
//! The built binary is looked for as soon as the skeleton of the bundle
//! stands, before any library is staged: a build that left no binary ends
//! the assembly for want of it, whether or not libraries are bundled. The
//! launcher is looked for last, once everything else is in place.

use vstd::prelude::*;
use crate::config::Settings;
use crate::layout::{icon_source, Binary, BinaryTarget};

verus! {

/// The steps of an assembly, in the order in which they are taken.
#[derive(Debug, Clone, Copy, PartialEq, Eq, Structural)]
pub enum Step {
    /// Make the directory `usr` of the bundle anew.
    MakeUsrDir,
    /// Make the directory `usr/bin` of the bundle anew.
    MakeBinDir,
    /// Look for the built binary.
    FindBinary,
    /// Stage the libraries that the binary depends on. Taken only where
    /// libraries are bundled.
    StageLibraries,
    /// Copy the staged libraries to their places in the bundle. Taken only
    /// where libraries are bundled.
    PlaceLibraries,
    /// Copy the built binary into `usr/bin`.
    InstallBinary,
    /// Look for the icon of the package.
    FindIcon,
    /// Copy the icon that was found.
    CopyIcon,
    /// Write an empty icon, none having been found.
    WriteEmptyIcon,
    /// Copy the configured assets into the bundle root.
    CopyAssets,
    /// Write the desktop entry.
    WriteDesktopEntry,
    /// Look for the launcher. Fails untried where its place is not known.
    FindLauncher,
    /// Copy the launcher in as the entry point of the bundle.
    InstallEntryPoint,
}

/// How a step ended. For a step that looks for a file, whether it was found.
#[derive(Debug, Clone, Copy, PartialEq, Eq, Structural)]
pub enum Outcome {
    Succeeded,
    Failed,
}

/// How far an assembly has come.
#[derive(Debug, Clone, Copy, PartialEq, Eq, Structural)]
pub enum Progress {
    /// The step to take now.
    Next(Step),
    /// Every step has succeeded: the bundle is complete.
    Finished,
    /// The step that failed. No step is taken after it.
    Failed(Step),
}

/// What the driver is to do for a step.
#[derive(Debug, Clone, PartialEq, Eq)]
pub enum Action {
    /// Create the directory with its ancestors, removing first what it held.
    ResetDir { path: String },
    /// Find the libraries that `binary` depends on and link them in
    /// `staging_dir`.
    StageLibraries { binary: String, staging_dir: String },
    /// Copy the libraries staged in `staging_dir` to their places below
    /// `root`.
    PlaceLibraries { staging_dir: String, root: String },
    /// Copy the file `from` to `to`.
    CopyFile { from: String, to: String },
    /// Report whether `path` is a file.
    FindFile { path: String },
    /// Write `contents` to the file `path`.
    WriteFile { path: String, contents: String },
    /// Copy each of `sources`, a file or a directory with all it holds, into
    /// the directory `dir`, replacing what is there.
    CopyInto { sources: Vec<String>, dir: String },
}

/// Why an assembly failed.
#[derive(Debug, Clone, PartialEq, Eq)]
pub enum BundleError {
    /// The build did not leave the binary where it was expected.
    BinaryNotFound { path: String },
    /// The launcher is not installed where it was expected.
    LauncherNotFound { path: String },
    /// The place of the launcher is not known, for want of a home directory.
    LauncherUnknown,
    /// Another step failed.
    StepFailed { step: Step },
}

/// What an `Action` stands for.
pub enum ActionValue {
    ResetDir { path: Seq<char> },
    StageLibraries { binary: Seq<char>, staging_dir: Seq<char> },
    PlaceLibraries { staging_dir: Seq<char>, root: Seq<char> },
    CopyFile { from: Seq<char>, to: Seq<char> },
    FindFile { path: Seq<char> },
    WriteFile { path: Seq<char>, contents: Seq<char> },
    CopyInto { sources: Seq<Seq<char>>, dir: Seq<char> },
}

/// What a `BundleError` stands for.
pub enum BundleErrorValue {
    BinaryNotFound { path: Seq<char> },
    LauncherNotFound { path: Seq<char> },
    LauncherUnknown,
    StepFailed { step: Step },
}

impl View for Action {
    type V = ActionValue;

    open spec fn view(&self) -> ActionValue {
        match self {
            Action::ResetDir { path } => ActionValue::ResetDir { path: path@ },
            Action::StageLibraries { binary, staging_dir } => ActionValue::StageLibraries {
                binary: binary@,
                staging_dir: staging_dir@,
            },
            Action::PlaceLibraries { staging_dir, root } => ActionValue::PlaceLibraries {
                staging_dir: staging_dir@,
                root: root@,
            },
            Action::CopyFile { from, to } => ActionValue::CopyFile { from: from@, to: to@ },
            Action::FindFile { path } => ActionValue::FindFile { path: path@ },
            Action::WriteFile { path, contents } => ActionValue::WriteFile {
                path: path@,
                contents: contents@,
            },
            Action::CopyInto { sources, dir } => ActionValue::CopyInto {
                sources: sources.deep_view(),
                dir: dir@,
            },
        }
    }
}

impl View for BundleError {
    type V = BundleErrorValue;

    open spec fn view(&self) -> BundleErrorValue {
        match self {
            BundleError::BinaryNotFound { path } => BundleErrorValue::BinaryNotFound {
                path: path@,
            },
            BundleError::LauncherNotFound { path } => BundleErrorValue::LauncherNotFound {
                path: path@,
            },
            BundleError::LauncherUnknown => BundleErrorValue::LauncherUnknown,
            BundleError::StepFailed { step } => BundleErrorValue::StepFailed { step: *step },
        }
    }
}

/// Where an assembly begins.
pub open spec fn start() -> Progress {
    Progress::Next(Step::MakeUsrDir)
}

/// What follows a step, given how it ended, whether libraries are bundled
/// and whether the place of the launcher is known.
///
/// The steps follow each other in the order of their declaration, with
/// three branches: the two library steps are passed over where libraries are
/// not bundled; the icon is copied if it was found and written empty if not;
/// and the search for the launcher fails untried where its place is not
/// known. The failure of any step but the search for the icon ends the
/// assembly.
pub open spec fn after(auto_link: bool, launcher_known: bool, step: Step, outcome: Outcome)
    -> Progress {
    match (step, outcome) {
        (Step::FindIcon, Outcome::Succeeded) => Progress::Next(Step::CopyIcon),
        (Step::FindIcon, Outcome::Failed) => Progress::Next(Step::WriteEmptyIcon),
        (_, Outcome::Failed) => Progress::Failed(step),
        (Step::MakeUsrDir, _) => Progress::Next(Step::MakeBinDir),
        (Step::MakeBinDir, _) => Progress::Next(Step::FindBinary),
        (Step::FindBinary, _) => if auto_link {
            Progress::Next(Step::StageLibraries)
        } else {
            Progress::Next(Step::InstallBinary)
        },
        (Step::StageLibraries, _) => Progress::Next(Step::PlaceLibraries),
        (Step::PlaceLibraries, _) => Progress::Next(Step::InstallBinary),
        (Step::InstallBinary, _) => Progress::Next(Step::FindIcon),
        (Step::CopyIcon, _) => Progress::Next(Step::CopyAssets),
        (Step::WriteEmptyIcon, _) => Progress::Next(Step::CopyAssets),
        (Step::CopyAssets, _) => Progress::Next(Step::WriteDesktopEntry),
        (Step::WriteDesktopEntry, _) => if launcher_known {
            Progress::Next(Step::FindLauncher)
        } else {
            Progress::Failed(Step::FindLauncher)
        },
        (Step::FindLauncher, _) => Progress::Next(Step::InstallEntryPoint),
        (Step::InstallEntryPoint, _) => Progress::Finished,
    }
}

/// How far the assembly is once the outcome of the current step is known.
/// An assembly that has ended stays as it is.
pub open spec fn advance(
    auto_link: bool,
    launcher_known: bool,
    progress: Progress,
    outcome: Outcome,
) -> Progress {
    match progress {
        Progress::Next(step) => after(auto_link, launcher_known, step, outcome),
        ended => ended,
    }
}

/// How far the assembly is after a series of outcomes, taken from
/// `progress`.
pub open spec fn run(
    auto_link: bool,
    launcher_known: bool,
    progress: Progress,
    outcomes: Seq<Outcome>,
) -> Progress
    decreases outcomes.len(),
{
    if outcomes.len() == 0 {
        progress
    } else {
        run(
            auto_link,
            launcher_known,
            advance(auto_link, launcher_known, progress, outcomes[0]),
            outcomes.skip(1),
        )
    }
}

/// The launcher's expected place, or the empty path where it is not known.
/// No step that uses it is taken then.
pub open spec fn launcher_path(launcher: Option<Seq<char>>) -> Seq<char> {
    match launcher {
        Some(path) => path,
        None => Seq::empty(),
    }
}

/// What the driver does for `step`, for the binary `binary`, the configured
/// `assets` and the launcher expected at `launcher`.
pub open spec fn action(
    binary: Binary,
    assets: Seq<Seq<char>>,
    launcher: Option<Seq<char>>,
    step: Step,
) -> ActionValue {
    match step {
        Step::MakeUsrDir => ActionValue::ResetDir { path: binary.usr_dir() },
        Step::MakeBinDir => ActionValue::ResetDir { path: binary.bin_dir() },
        Step::FindBinary => ActionValue::FindFile { path: binary.built_path() },
        Step::StageLibraries => ActionValue::StageLibraries {
            binary: binary.built_path(),
            staging_dir: binary.staging_dir(),
        },
        Step::PlaceLibraries => ActionValue::PlaceLibraries {
            staging_dir: binary.staging_dir(),
            root: binary.bundle_root(),
        },
        Step::InstallBinary => ActionValue::CopyFile {
            from: binary.built_path(),
            to: binary.installed_path(),
        },
        Step::FindIcon => ActionValue::FindFile { path: icon_source() },
        Step::CopyIcon => ActionValue::CopyFile { from: icon_source(), to: binary.icon_path() },
        Step::WriteEmptyIcon => ActionValue::WriteFile {
            path: binary.icon_path(),
            contents: Seq::empty(),
        },
        Step::CopyAssets => ActionValue::CopyInto { sources: assets, dir: binary.bundle_root() },
        Step::WriteDesktopEntry => ActionValue::WriteFile {
            path: binary.desktop_entry_path(),
            contents: binary.desktop_entry(),
        },
        Step::FindLauncher => ActionValue::FindFile { path: launcher_path(launcher) },
        Step::InstallEntryPoint => ActionValue::CopyFile {
            from: launcher_path(launcher),
            to: binary.entry_point_path(),
        },
    }
}

/// What the failure of `step` means for the bundle of `binary`.
///
/// Where the binary is not found, or cannot be installed, the build has not
/// left it at the expected path. Where the launcher is not found, it is not
/// installed at its expected place, or that place is not known.
pub open spec fn failure(binary: Binary, launcher: Option<Seq<char>>, step: Step)
    -> BundleErrorValue {
    match step {
        Step::FindBinary => BundleErrorValue::BinaryNotFound { path: binary.built_path() },
        Step::InstallBinary => BundleErrorValue::BinaryNotFound { path: binary.built_path() },
        Step::FindLauncher => match launcher {
            Some(path) => BundleErrorValue::LauncherNotFound { path },
            None => BundleErrorValue::LauncherUnknown,
        },
        _ => BundleErrorValue::StepFailed { step },
    }
}

/// Whether `progress` is at, or has failed at, one of the two steps that
/// bundle libraries.
pub open spec fn touches_libraries(progress: Progress) -> bool {
    ||| progress == Progress::Next(Step::StageLibraries)
    ||| progress == Progress::Next(Step::PlaceLibraries)
    ||| progress == Progress::Failed(Step::StageLibraries)
    ||| progress == Progress::Failed(Step::PlaceLibraries)
}

/// Whether `progress` is no further than the search for the built binary:
/// at, or failed at, one of the two steps that make the skeleton of the
/// bundle or that search. Nothing but the empty skeleton is written up to
/// there.
pub open spec fn before_binary_is_found(progress: Progress) -> bool {
    ||| progress == Progress::Next(Step::MakeUsrDir)
    ||| progress == Progress::Next(Step::MakeBinDir)
    ||| progress == Progress::Next(Step::FindBinary)
    ||| progress == Progress::Failed(Step::MakeUsrDir)
    ||| progress == Progress::Failed(Step::MakeBinDir)
    ||| progress == Progress::Failed(Step::FindBinary)
}

/// Whether `progress` is at a step that needs the launcher, or has
/// finished.
pub open spec fn uses_launcher(progress: Progress) -> bool {
    ||| progress == Progress::Next(Step::FindLauncher)
    ||| progress == Progress::Next(Step::InstallEntryPoint)
    ||| progress == Progress::Failed(Step::InstallEntryPoint)
    ||| progress == Progress::Finished
}

/// An assembly that has ended takes no further step, whatever is reported.
pub proof fn lemma_ended_stays_ended(
    auto_link: bool,
    launcher_known: bool,
    progress: Progress,
    outcomes: Seq<Outcome>,
)
    requires
        !(progress is Next),
    ensures
        run(auto_link, launcher_known, progress, outcomes) == progress,
    decreases outcomes.len(),
{
    if outcomes.len() > 0 {
        lemma_ended_stays_ended(auto_link, launcher_known, progress, outcomes.skip(1));
    }
}

/// A run is the run of its first outcome followed by the run of the rest.
proof fn lemma_run_unfolds(
    auto_link: bool,
    launcher_known: bool,
    progress: Progress,
    outcomes: Seq<Outcome>,
)
    requires
        outcomes.len() > 0,
    ensures
        run(auto_link, launcher_known, progress, outcomes) == run(
            auto_link,
            launcher_known,
            advance(auto_link, launcher_known, progress, outcomes[0]),
            outcomes.skip(1),
        ),
{
}

/// A missing binary ends the assembly for want of it, whether or not
/// libraries are bundled: once the skeleton stands, the search for the
/// binary is the next step, and where it finds nothing the assembly has
/// failed with the path at which the binary was expected. Whatever is
/// reported afterwards, no later step is taken.
pub proof fn lemma_missing_binary_ends_assembly(
    auto_link: bool,
    launcher_known: bool,
    launcher: Option<Seq<char>>,
    binary: Binary,
    later: Seq<Outcome>,
)
    ensures
        run(
            auto_link,
            launcher_known,
            start(),
            seq![Outcome::Succeeded, Outcome::Succeeded],
        ) == Progress::Next(Step::FindBinary),
        run(
            auto_link,
            launcher_known,
            start(),
            seq![Outcome::Succeeded, Outcome::Succeeded, Outcome::Failed] + later,
        ) == Progress::Failed(Step::FindBinary),
        run(
            auto_link,
            launcher_known,
            Progress::Next(Step::FindBinary),
            seq![Outcome::Failed] + later,
        ) == Progress::Failed(Step::FindBinary),
        failure(binary, launcher, Step::FindBinary) == (BundleErrorValue::BinaryNotFound {
            path: binary.built_path(),
        }),
{
    let found = seq![Outcome::Succeeded, Outcome::Succeeded];
    lemma_run_unfolds(auto_link, launcher_known, start(), found);
    lemma_run_unfolds(auto_link, launcher_known, Progress::Next(Step::MakeBinDir), found.skip(1));
    assert(found.skip(1).skip(1).len() == 0);

    let missing = seq![Outcome::Failed] + later;
    assert(missing[0] == Outcome::Failed);
    assert(missing.skip(1) == later);
    lemma_run_unfolds(auto_link, launcher_known, Progress::Next(Step::FindBinary), missing);
    lemma_ended_stays_ended(auto_link, launcher_known, Progress::Failed(Step::FindBinary), later);

    let whole = seq![Outcome::Succeeded, Outcome::Succeeded, Outcome::Failed] + later;
    lemma_run_unfolds(auto_link, launcher_known, start(), whole);
    lemma_run_unfolds(auto_link, launcher_known, Progress::Next(Step::MakeBinDir), whole.skip(1));
    assert(whole.skip(1).skip(1) == missing);
}

/// No step beyond the search for the binary is taken unless the binary was
/// found: an assembly that has got further has had three outcomes at least,
/// the third of which, that of the search, was a success.
pub proof fn lemma_later_steps_need_the_binary(
    auto_link: bool,
    launcher_known: bool,
    outcomes: Seq<Outcome>,
)
    ensures
        !before_binary_is_found(run(auto_link, launcher_known, start(), outcomes))
            ==> outcomes.len() >= 3 && outcomes[2] == Outcome::Succeeded,
{
    if outcomes.len() > 0 {
        lemma_run_unfolds(auto_link, launcher_known, start(), outcomes);
        let second = advance(auto_link, launcher_known, start(), outcomes[0]);
        let rest = outcomes.skip(1);
        if !(second is Next) {
            lemma_ended_stays_ended(auto_link, launcher_known, second, rest);
        } else if rest.len() > 0 {
            lemma_run_unfolds(auto_link, launcher_known, second, rest);
            let third = advance(auto_link, launcher_known, second, rest[0]);
            let tail = rest.skip(1);
            if !(third is Next) {
                lemma_ended_stays_ended(auto_link, launcher_known, third, tail);
            } else if tail.len() > 0 {
                lemma_run_unfolds(auto_link, launcher_known, third, tail);
                assert(tail[0] == outcomes[2]);
                if tail[0] == Outcome::Failed {
                    lemma_ended_stays_ended(
                        auto_link,
                        launcher_known,
                        Progress::Failed(Step::FindBinary),
                        tail.skip(1),
                    );
                }
            }
        }
    }
}

/// Where libraries are not bundled, an assembly never reaches the steps
/// that stage or place them, whatever the outcomes of its steps.
pub proof fn lemma_no_library_step_without_auto_link(launcher_known: bool, outcomes: Seq<Outcome>)
    ensures
        !touches_libraries(run(false, launcher_known, start(), outcomes)),
{
    lemma_library_steps_unreachable(launcher_known, start(), outcomes);
}

/// Without bundling of libraries, an assembly that is not at a library step
/// does not get to one.
proof fn lemma_library_steps_unreachable(
    launcher_known: bool,
    progress: Progress,
    outcomes: Seq<Outcome>,
)
    requires
        !touches_libraries(progress),
    ensures
        !touches_libraries(run(false, launcher_known, progress, outcomes)),
    decreases outcomes.len(),
{
    if outcomes.len() > 0 {
        lemma_library_steps_unreachable(
            launcher_known,
            advance(false, launcher_known, progress, outcomes[0]),
            outcomes.skip(1),
        );
    }
}

/// Where the place of the launcher is not known, an assembly never takes a
/// step that needs it, and never finishes.
pub proof fn lemma_unknown_launcher_is_never_used(auto_link: bool, outcomes: Seq<Outcome>)
    ensures
        !uses_launcher(run(auto_link, false, start(), outcomes)),
{
    lemma_launcher_steps_unreachable(auto_link, start(), outcomes);
}

/// Without a known place of the launcher, an assembly that is not at a step
/// that needs it does not get to one.
proof fn lemma_launcher_steps_unreachable(
    auto_link: bool,
    progress: Progress,
    outcomes: Seq<Outcome>,
)
    requires
        !uses_launcher(progress),
    ensures
        !uses_launcher(run(auto_link, false, progress, outcomes)),
    decreases outcomes.len(),
{
    if outcomes.len() > 0 {
        lemma_launcher_steps_unreachable(
            auto_link,
            advance(auto_link, false, progress, outcomes[0]),
            outcomes.skip(1),
        );
    }
}

/// What follows `step`, given how it ended, whether libraries are bundled
/// and whether the place of the launcher is known.
pub fn after_step(auto_link: bool, launcher_known: bool, step: Step, outcome: Outcome) -> (progress:
    Progress)
    ensures
        progress == after(auto_link, launcher_known, step, outcome),
{
    match (step, outcome) {
        (Step::FindIcon, Outcome::Succeeded) => Progress::Next(Step::CopyIcon),
        (Step::FindIcon, Outcome::Failed) => Progress::Next(Step::WriteEmptyIcon),
        (_, Outcome::Failed) => Progress::Failed(step),
        (Step::MakeUsrDir, _) => Progress::Next(Step::MakeBinDir),
        (Step::MakeBinDir, _) => Progress::Next(Step::FindBinary),
        (Step::FindBinary, _) => if auto_link {
            Progress::Next(Step::StageLibraries)
        } else {
            Progress::Next(Step::InstallBinary)
        },
        (Step::StageLibraries, _) => Progress::Next(Step::PlaceLibraries),
        (Step::PlaceLibraries, _) => Progress::Next(Step::InstallBinary),
        (Step::InstallBinary, _) => Progress::Next(Step::FindIcon),
        (Step::CopyIcon, _) => Progress::Next(Step::CopyAssets),
        (Step::WriteEmptyIcon, _) => Progress::Next(Step::CopyAssets),
        (Step::CopyAssets, _) => Progress::Next(Step::WriteDesktopEntry),
        (Step::WriteDesktopEntry, _) => if launcher_known {
            Progress::Next(Step::FindLauncher)
        } else {
            Progress::Failed(Step::FindLauncher)
        },
        (Step::FindLauncher, _) => Progress::Next(Step::InstallEntryPoint),
        (Step::InstallEntryPoint, _) => Progress::Finished,
    }
}

/// What the driver is to do for `step`.
pub fn action_for(
    binary: &BinaryTarget,
    assets: &Vec<String>,
    launcher: &Option<String>,
    step: Step,
) -> (task: Action)
    ensures
        task@ == action(binary@, assets.deep_view(), launcher.deep_view(), step),
{
    match step {
        Step::MakeUsrDir => Action::ResetDir { path: binary.usr_dir() },
        Step::MakeBinDir => Action::ResetDir { path: binary.bin_dir() },
        Step::FindBinary => Action::FindFile { path: binary.built_path() },
        Step::StageLibraries => Action::StageLibraries {
            binary: binary.built_path(),
            staging_dir: binary.staging_dir(),
        },
        Step::PlaceLibraries => Action::PlaceLibraries {
            staging_dir: binary.staging_dir(),
            root: binary.bundle_root(),
        },
        Step::InstallBinary => Action::CopyFile {
            from: binary.built_path(),
            to: binary.installed_path(),
        },
        Step::FindIcon => Action::FindFile { path: "./icon.png".to_owned() },
        Step::CopyIcon => Action::CopyFile {
            from: "./icon.png".to_owned(),
            to: binary.icon_path(),
        },
        Step::WriteEmptyIcon => Action::WriteFile {
            path: binary.icon_path(),
            contents: String::new(),
        },
        Step::CopyAssets => {
            let sources = assets.clone();
            assert(sources.deep_view() == assets.deep_view());
            Action::CopyInto { sources, dir: binary.bundle_root() }
        },
        Step::WriteDesktopEntry => Action::WriteFile {
            path: binary.desktop_entry_path(),
            contents: binary.desktop_entry(),
        },
        Step::FindLauncher => Action::FindFile { path: launcher_place(launcher) },
        Step::InstallEntryPoint => Action::CopyFile {
            from: launcher_place(launcher),
            to: binary.entry_point_path(),
        },
    }
}

/// The launcher's expected place, or the empty path where it is not known.
fn launcher_place(launcher: &Option<String>) -> (path: String)
    ensures
        path@ == launcher_path(launcher.deep_view()),
{
    match launcher {
        Some(path) => path.clone(),
        None => String::new(),
    }
}

/// What the failure of `step` means for the bundle of `binary`.
pub fn failure_of(binary: &BinaryTarget, launcher: &Option<String>, step: Step) -> (error:
    BundleError)
    ensures
        error@ == failure(binary@, launcher.deep_view(), step),
{
    match step {
        Step::FindBinary => BundleError::BinaryNotFound { path: binary.built_path() },
        Step::InstallBinary => BundleError::BinaryNotFound { path: binary.built_path() },
        Step::FindLauncher => match launcher {
            Some(path) => BundleError::LauncherNotFound { path: path.clone() },
            None => BundleError::LauncherUnknown,
        },
        _ => BundleError::StepFailed { step },
    }
}

/// The assembly of the bundle of one binary.
#[derive(Debug)]
pub struct Assembly {
    /// The binary that is bundled.
    pub binary: BinaryTarget,
    /// Whether the libraries that the binary depends on are bundled.
    pub auto_link: bool,
    /// The configured assets.
    pub assets: Vec<String>,
    /// Where the launcher is expected, if that is known.
    pub launcher: Option<String>,
    /// How far the assembly has come.
    pub progress: Progress,
}

/// What an `Assembly` stands for.
pub struct AssemblyValue {
    pub binary: Binary,
    pub auto_link: bool,
    pub assets: Seq<Seq<char>>,
    pub launcher: Option<Seq<char>>,
    pub progress: Progress,
}

impl View for Assembly {
    type V = AssemblyValue;

    open spec fn view(&self) -> AssemblyValue {
        AssemblyValue {
            binary: self.binary@,
            auto_link: self.auto_link,
            assets: self.assets.deep_view(),
            launcher: self.launcher.deep_view(),
            progress: self.progress,
        }
    }
}

impl Assembly {
    /// An assembly at its first step.
    pub fn new(binary: BinaryTarget, settings: &Settings, launcher: Option<String>) -> (assembly:
        Assembly)
        ensures
            assembly@ == (AssemblyValue {
                binary: binary@,
                auto_link: settings@.auto_link,
                assets: settings@.assets,
                launcher: launcher.deep_view(),
                progress: start(),
            }),
    {
        let assets = settings.assets.clone();
        assert(assets.deep_view() == settings.assets.deep_view());
        Assembly {
            binary,
            auto_link: settings.auto_link,
            assets,
            launcher,
            progress: Progress::Next(Step::MakeUsrDir),
        }
    }

    /// What to do now: the action of the current step, or nothing once the
    /// assembly has ended.
    pub fn next_action(&self) -> (task: Option<Action>)
        ensures
            task is Some <==> self@.progress is Next,
            task matches Some(found) ==> found@ == action(
                self@.binary,
                self@.assets,
                self@.launcher,
                self@.progress->Next_0,
            ),
    {
        match self.progress {
            Progress::Next(step) => Some(
                action_for(&self.binary, &self.assets, &self.launcher, step),
            ),
            _ => None,
        }
    }

    /// Takes note of how the current step ended and moves on. Nothing
    /// changes once the assembly has ended.
    pub fn report(&mut self, outcome: Outcome)
        ensures
            final(self)@ == (AssemblyValue {
                progress: advance(
                    old(self)@.auto_link,
                    old(self)@.launcher is Some,
                    old(self)@.progress,
                    outcome,
                ),
                ..old(self)@
            }),
    {
        match self.progress {
            Progress::Next(step) => {
                self.progress = after_step(self.auto_link, self.launcher.is_some(), step, outcome);
            },
            _ => {},
        }
    }

    /// How the assembly ended: nothing while steps remain, then success or
    /// the meaning of the step that failed.
    pub fn result(&self) -> (ended: Option<Result<(), BundleError>>)
        ensures
            match self@.progress {
                Progress::Next(_) => ended is None,
                Progress::Finished => ended == Some(Ok::<(), BundleError>(())),
                Progress::Failed(step) => ended matches Some(Err(error)) && error@ == failure(
                    self@.binary,
                    self@.launcher,
                    step,
                ),
            },
    {
        match self.progress {
            Progress::Next(_) => None,
            Progress::Finished => Some(Ok(())),
            Progress::Failed(step) => Some(Err(failure_of(&self.binary, &self.launcher, step))),
        }
    }
}

} // verus!
