use vstd::prelude::*;
use crate::config::{GameConfig, GameInfoType};
use crate::context::{app_descriptor, depot_descriptor, extra_file_paths, GodotBuildContext};
use crate::error::{Descriptor, LowlyError};

verus! {

pub const APP_BUILD_FILE: &'static str = "lowly_build.vdf";
pub const DEPOT_BUILD_FILE: &'static str = "lowly_depot_build.vdf";
pub const UPLOAD_TOOL: &'static str = "steamcmd";

/// The path of `name` under the directory `base`.
pub uninterp spec fn joined_path(base: Seq<char>, name: Seq<char>) -> Seq<char>;

/// Relies on std's `Path::join`: the text of `base` joined with `name`.
#[verifier::external_body]
fn join_path(base: &str, name: &str) -> (r: String)
    ensures
        r@ == joined_path(base@, name@),
{
    std::path::Path::new(base).join(name).to_string_lossy().into_owned()
}

/// An external program and its arguments.
pub struct Command {
    pub program: String,
    pub args: Vec<String>,
}

pub open spec fn args_view(a: Seq<String>) -> Seq<Seq<char>> {
    a.map_values(|s: String| s@)
}

/// What the caller of `Release::step` is to do next.
pub enum Action {
    /// Run the program, wait for it, and report whether it exited successfully.
    Run(Command),
    /// Copy a file and report whether the copy succeeded.
    Copy { from: String, to: String },
    /// Write a file and report whether the write succeeded.
    Write { path: String, contents: String },
    /// The release is complete.
    Finish,
    /// The release stopped on a fatal error.
    Abort(LowlyError),
}

/// A failure that is reported and does not stop the release.
#[derive(Debug, Clone, Copy, PartialEq, Eq, Structural)]
pub enum Warning {
    ExportFailed { package: usize },
    UploadFailed,
}

/// The next action, and a warning about the outcome of the last one.
pub struct Step {
    pub action: Action,
    pub warning: Option<Warning>,
}

/// Where a release stands: the action it last asked for.
#[derive(Debug, Clone, Copy, PartialEq, Eq, Structural)]
pub enum Phase {
    Start,
    Exporting(usize),
    Copying(usize),
    WritingApp,
    WritingDepot,
    Uploading,
    Finished,
    Aborted(LowlyError),
}

pub open spec fn after_stage(c: GodotBuildContext, j: int) -> Phase {
    if j < c.game_info.extra_files.len() {
        if extra_file_paths(c, j) is Some {
            Phase::Copying(j as usize)
        } else {
            Phase::Aborted(LowlyError::ExtraFileTemplate { index: j as usize })
        }
    } else {
        Phase::WritingApp
    }
}

pub open spec fn after_export(c: GodotBuildContext, i: int) -> Phase {
    if i < c.game_info.pcks.len() {
        Phase::Exporting(i as usize)
    } else {
        after_stage(c, 0)
    }
}

/// The phase that follows `p` when its action succeeded (`ok`) or failed.
/// Export and upload failures do not change the course of a release; copy and
/// write failures abort it.
pub open spec fn next_phase(c: GodotBuildContext, p: Phase, ok: bool) -> Phase {
    match p {
        Phase::Start => after_export(c, 0),
        Phase::Exporting(i) => after_export(c, i + 1),
        Phase::Copying(j) => if ok {
            after_stage(c, j + 1)
        } else {
            Phase::Aborted(LowlyError::CopyFailed { index: j })
        },
        Phase::WritingApp => if ok {
            Phase::WritingDepot
        } else {
            Phase::Aborted(LowlyError::WriteFailed { descriptor: Descriptor::AppBuild })
        },
        Phase::WritingDepot => if ok {
            Phase::Uploading
        } else {
            Phase::Aborted(LowlyError::WriteFailed { descriptor: Descriptor::DepotBuild })
        },
        Phase::Uploading => Phase::Finished,
        Phase::Finished => Phase::Finished,
        Phase::Aborted(e) => Phase::Aborted(e),
    }
}

/// The phase reached from `p` after actions with the given outcomes.
pub open spec fn run_phases(c: GodotBuildContext, p: Phase, outcomes: Seq<bool>) -> Phase
    decreases outcomes.len(),
{
    if outcomes.len() == 0 {
        p
    } else {
        run_phases(c, next_phase(c, p, outcomes[0]), outcomes.drop_first())
    }
}

pub open spec fn warning_for(p: Phase, ok: bool) -> Option<Warning> {
    if ok {
        None
    } else {
        match p {
            Phase::Exporting(i) => Some(Warning::ExportFailed { package: i }),
            Phase::Uploading => Some(Warning::UploadFailed),
            _ => None,
        }
    }
}

/// The engine arguments that export the package at `i`.
pub open spec fn export_args(c: GodotBuildContext, i: int) -> Seq<Seq<char>> {
    let pck = c.game_info.pcks@[i];
    seq![
        "--headless"@,
        "--path"@,
        c.game_path@,
        "--export-pack"@,
        pck.export_preset_name@,
        joined_path(c.game_output_path@, pck.name@),
    ]
}

/// The upload tool's arguments.
pub open spec fn upload_args(c: GodotBuildContext, temp_dir: Seq<char>) -> Seq<Seq<char>> {
    seq![
        "+login"@,
        c.game_info.steam_account_name@,
        "+run_app_build"@,
        joined_path(temp_dir, APP_BUILD_FILE@),
        "+exit"@,
    ]
}

/// The action that a release in phase `p` asks for.
pub open spec fn action_for(c: GodotBuildContext, temp_dir: Seq<char>, p: Phase, a: Action) -> bool {
    match p {
        Phase::Start => false,
        Phase::Exporting(i) => a matches Action::Run(cmd) && cmd.program@ == c.game_info.editor_path@
            && args_view(cmd.args@) == export_args(c, i as int),
        Phase::Copying(j) => a matches Action::Copy { from, to } && extra_file_paths(c, j as int)
            == Some((from@, to@)),
        Phase::WritingApp => a matches Action::Write { path, contents } && path@ == joined_path(
            temp_dir,
            APP_BUILD_FILE@,
        ) && contents@ == app_descriptor(
            c.game_info.steam_app_id,
            c.game_info.steam_branch@,
            c.game_output_path@,
            c.game_info.steam_depot_id,
        ),
        Phase::WritingDepot => a matches Action::Write { path, contents } && path@ == joined_path(
            temp_dir,
            DEPOT_BUILD_FILE@,
        ) && contents@ == depot_descriptor(c.game_info.steam_depot_id),
        Phase::Uploading => a matches Action::Run(cmd) && cmd.program@ == UPLOAD_TOOL@ && args_view(
            cmd.args@,
        ) == upload_args(c, temp_dir),
        Phase::Finished => a is Finish,
        Phase::Aborted(e) => a == Action::Abort(e),
    }
}

/// A release in progress: export the packages, copy the extra files, write
/// both descriptors to `temp_dir`, then run the upload tool.
pub struct Release {
    pub context: GodotBuildContext,
    pub temp_dir: String,
    pub phase: Phase,
}

fn text(s: &str) -> (r: String)
    ensures
        r@ == s@,
{
    String::from_str(s)
}

impl Release {
    pub open spec fn wf(&self) -> bool {
        &&& self.context.wf()
        &&& self.phase matches Phase::Exporting(i) ==> i < self.context.game_info.pcks.len()
        &&& self.phase matches Phase::Copying(j) ==> j < self.context.game_info.extra_files.len()
            && extra_file_paths(self.context, j as int) is Some
    }

    /// A release of `context` that has not started.
    pub fn new(context: GodotBuildContext, temp_dir: String) -> (r: Release)
        requires
            context.wf(),
        ensures
            r.wf(),
            r.context == context,
            r.temp_dir == temp_dir,
            r.phase == Phase::Start,
    {
        Release { context, temp_dir, phase: Phase::Start }
    }

    fn enter_stage(&mut self, j: usize) -> (a: Action)
        requires
            old(self).context.wf(),
            j <= old(self).context.game_info.extra_files.len(),
        ensures
            final(self).wf(),
            final(self).context == old(self).context,
            final(self).temp_dir == old(self).temp_dir,
            final(self).phase == after_stage(old(self).context, j as int),
            action_for(final(self).context, final(self).temp_dir@, final(self).phase, a),
    {
        if j < self.context.game_info.extra_files.len() {
            match self.context.render_extra_file(j) {
                Ok(paths) => {
                    self.phase = Phase::Copying(j);
                    Action::Copy { from: paths.0, to: paths.1 }
                },
                Err(e) => {
                    self.phase = Phase::Aborted(e);
                    Action::Abort(e)
                },
            }
        } else {
            match self.context.compile_app_build() {
                Ok(contents) => {
                    self.phase = Phase::WritingApp;
                    let path = join_path(self.temp_dir.as_str(), APP_BUILD_FILE);
                    Action::Write { path, contents }
                },
                Err(e) => {
                    self.phase = Phase::Aborted(e);
                    Action::Abort(e)
                },
            }
        }
    }

    fn enter_export(&mut self, i: usize) -> (a: Action)
        requires
            old(self).context.wf(),
            i <= old(self).context.game_info.pcks.len(),
        ensures
            final(self).wf(),
            final(self).context == old(self).context,
            final(self).temp_dir == old(self).temp_dir,
            final(self).phase == after_export(old(self).context, i as int),
            action_for(final(self).context, final(self).temp_dir@, final(self).phase, a),
    {
        if i < self.context.game_info.pcks.len() {
            self.phase = Phase::Exporting(i);
            let pck = &self.context.game_info.pcks[i];
            let mut args: Vec<String> = Vec::new();
            args.push(text("--headless"));
            args.push(text("--path"));
            args.push(self.context.game_path.clone());
            args.push(text("--export-pack"));
            args.push(pck.export_preset_name.clone());
            args.push(join_path(self.context.game_output_path.as_str(), pck.name.as_str()));
            assert(args_view(args@) =~= export_args(self.context, i as int));
            Action::Run(Command { program: self.context.game_info.editor_path.clone(), args })
        } else {
            self.enter_stage(0)
        }
    }

    /// Takes the outcome of the last action (`ok`: it succeeded; ignored at the
    /// start) and moves the release on, returning the next action and a warning
    /// where the last action failed without stopping the release.
    pub fn step(&mut self, ok: bool) -> (s: Step)
        requires
            old(self).wf(),
        ensures
            final(self).wf(),
            final(self).context == old(self).context,
            final(self).temp_dir == old(self).temp_dir,
            final(self).phase == next_phase(old(self).context, old(self).phase, ok),
            action_for(final(self).context, final(self).temp_dir@, final(self).phase, s.action),
            s.warning == warning_for(old(self).phase, ok),
    {
        let warning = if ok {
            None
        } else {
            match self.phase {
                Phase::Exporting(i) => Some(Warning::ExportFailed { package: i }),
                Phase::Uploading => Some(Warning::UploadFailed),
                _ => None,
            }
        };
        let action = match self.phase {
            Phase::Start => self.enter_export(0),
            Phase::Exporting(i) => self.enter_export(i + 1),
            Phase::Copying(j) => {
                if ok {
                    self.enter_stage(j + 1)
                } else {
                    let e = LowlyError::CopyFailed { index: j };
                    self.phase = Phase::Aborted(e);
                    Action::Abort(e)
                }
            },
            Phase::WritingApp => {
                if ok {
                    match self.context.compile_depot_build() {
                        Ok(contents) => {
                            self.phase = Phase::WritingDepot;
                            let path = join_path(self.temp_dir.as_str(), DEPOT_BUILD_FILE);
                            Action::Write { path, contents }
                        },
                        Err(e) => {
                            self.phase = Phase::Aborted(e);
                            Action::Abort(e)
                        },
                    }
                } else {
                    let e = LowlyError::WriteFailed { descriptor: Descriptor::AppBuild };
                    self.phase = Phase::Aborted(e);
                    Action::Abort(e)
                }
            },
            Phase::WritingDepot => {
                if ok {
                    self.phase = Phase::Uploading;
                    let mut args: Vec<String> = Vec::new();
                    args.push(text("+login"));
                    args.push(self.context.game_info.steam_account_name.clone());
                    args.push(text("+run_app_build"));
                    args.push(join_path(self.temp_dir.as_str(), APP_BUILD_FILE));
                    args.push(text("+exit"));
                    assert(args_view(args@) =~= upload_args(self.context, self.temp_dir@));
                    Action::Run(Command { program: text(UPLOAD_TOOL), args })
                } else {
                    let e = LowlyError::WriteFailed { descriptor: Descriptor::DepotBuild };
                    self.phase = Phase::Aborted(e);
                    Action::Abort(e)
                }
            },
            Phase::Uploading => {
                self.phase = Phase::Finished;
                Action::Finish
            },
            Phase::Finished => Action::Finish,
            Phase::Aborted(e) => Action::Abort(e),
        };
        Step { action, warning }
    }
}

/// Starts a release of a configured project, dispatching on its kind.
/// Fails exactly where the project's build context cannot be built.
pub fn start_release(config: GameConfig, game_path: String, game_output_path: String, temp_dir: String) -> (r:
    Result<Release, LowlyError>)
    ensures
        match config.game_info {
            GameInfoType::Godot(info) => match r {
                Ok(rel) => rel.wf() && rel.phase == Phase::Start && rel.temp_dir == temp_dir
                    && rel.context.game_info == info && rel.context.game_path == game_path
                    && rel.context.game_output_path == game_output_path,
                Err(e) => e == LowlyError::Template && !crate::context::catalog_plain(
                    info.steam_app_id,
                    info.steam_branch@,
                    game_output_path@,
                    info.steam_depot_id,
                ),
            },
        },
{
    match config.game_info {
        GameInfoType::Godot(info) => {
            let context = GodotBuildContext::new(info, game_path, game_output_path)?;
            Ok(Release::new(context, temp_dir))
        },
    }
}

/// An export that fails leads a release on exactly as one that succeeds: the
/// phases that follow, copying, writing and upload, are the same for any later outcomes.
pub proof fn lemma_export_failure_continues(c: GodotBuildContext, i: usize, later: Seq<bool>)
    ensures
        next_phase(c, Phase::Exporting(i), false) == next_phase(c, Phase::Exporting(i), true),
        run_phases(c, Phase::Exporting(i), seq![false] + later) == run_phases(
            c,
            Phase::Exporting(i),
            seq![true] + later,
        ),
{
    assert((seq![false] + later).drop_first() =~= later);
    assert((seq![true] + later).drop_first() =~= later);
}

/// Whatever each export's outcome, once the packages from `i` on are exported
/// the release goes on to the extra files, or to the descriptors when there are none.
pub proof fn lemma_exports_any_outcomes(c: GodotBuildContext, i: usize, outcomes: Seq<bool>)
    requires
        i < c.game_info.pcks.len(),
        outcomes.len() == c.game_info.pcks.len() - i,
    ensures
        run_phases(c, Phase::Exporting(i), outcomes) == after_stage(c, 0),
    decreases outcomes.len(),
{
    let rest = outcomes.drop_first();
    assert(next_phase(c, Phase::Exporting(i), outcomes[0]) == after_export(c, i + 1));
    assert(run_phases(c, Phase::Exporting(i), outcomes) == run_phases(c, after_export(c, i + 1), rest));
    if i + 1 < c.game_info.pcks.len() {
        lemma_exports_any_outcomes(c, (i + 1) as usize, rest);
    } else {
        assert(rest.len() == 0);
        assert(run_phases(c, after_stage(c, 0), rest) == after_stage(c, 0));
    }
}

/// An aborted release stays aborted, whatever the later outcomes.
pub proof fn lemma_aborted_stays(c: GodotBuildContext, e: LowlyError, later: Seq<bool>)
    ensures
        run_phases(c, Phase::Aborted(e), later) == Phase::Aborted(e),
    decreases later.len(),
{
    if later.len() > 0 {
        lemma_aborted_stays(c, e, later.drop_first());
    }
}

/// A failed copy aborts the release: no descriptor is written and nothing is
/// uploaded afterwards, whatever the later outcomes.
pub proof fn lemma_copy_failure_aborts(c: GodotBuildContext, j: usize, later: Seq<bool>)
    ensures
        run_phases(c, Phase::Copying(j), seq![false] + later) == Phase::Aborted(
            LowlyError::CopyFailed { index: j },
        ),
{
    assert((seq![false] + later).drop_first() =~= later);
    lemma_aborted_stays(c, LowlyError::CopyFailed { index: j }, later);
}

/// With no packages and no extra files, a release writes the app descriptor,
/// then the depot descriptor, then runs the upload once and finishes.
pub proof fn lemma_release_without_packages_or_files(c: GodotBuildContext, first: bool, upload: bool)
    requires
        c.game_info.pcks.len() == 0,
        c.game_info.extra_files.len() == 0,
    ensures
        next_phase(c, Phase::Start, first) == Phase::WritingApp,
        next_phase(c, Phase::WritingApp, true) == Phase::WritingDepot,
        next_phase(c, Phase::WritingDepot, true) == Phase::Uploading,
        next_phase(c, Phase::Uploading, upload) == Phase::Finished,
        next_phase(c, Phase::Finished, true) == Phase::Finished,
        run_phases(c, Phase::Start, seq![first, true, true, upload]) == Phase::Finished,
{
    let o = seq![first, true, true, upload];
    assert(o.drop_first() =~= seq![true, true, upload]);
    assert(o.drop_first().drop_first() =~= seq![true, upload]);
    assert(o.drop_first().drop_first().drop_first() =~= seq![upload]);
    assert(o.drop_first().drop_first().drop_first().drop_first() =~= Seq::<bool>::empty());
    assert(run_phases(c, Phase::Finished, Seq::<bool>::empty()) == Phase::Finished);
    assert(run_phases(c, Phase::Uploading, seq![upload]) == Phase::Finished);
    assert(run_phases(c, Phase::WritingDepot, seq![true, upload]) == Phase::Finished);
    assert(run_phases(c, Phase::WritingApp, seq![true, true, upload]) == Phase::Finished);
}

} // verus!
