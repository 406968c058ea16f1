//! The switch engine: what stands at the live path, the steps that move the
//! alias to a new target, and the run that hands them out one by one.
use vstd::prelude::*;
use crate::layout::{join_path, SENTINEL_FOLDER, account_path, sentinel_path};

verus! {

/// What stands at the live path when a switch begins.
#[derive(Clone, Copy, Debug, PartialEq, Eq, Structural)]
pub enum LiveKind {
    /// Nothing is there.
    Absent,
    /// A directory alias, whether or not its target still resolves.
    Redirect,
    /// A real directory that may hold live data.
    RealDirectory,
}

/// One step of a switch, in the order the engine issues them.
#[derive(Clone, Copy, Debug, PartialEq, Eq, Structural)]
pub enum SwitchStep {
    /// Create the target folder with its marker file.
    CreateTarget,
    /// Remove the alias at the live path.
    RemoveAlias,
    /// Move the live directory's contents into the target (copy, verify, delete).
    RescueLive,
    /// Remove the emptied live directory.
    RemoveLiveDir,
    /// Best-effort forced removal of whatever is left at the live path.
    ForceRemoveLive,
    /// Create the alias from the live path to the target.
    CreateAlias,
    /// Persist the active-account pointer.
    RecordActive,
}

/// Why a switch was refused or could not start.
#[derive(Clone, Copy, Debug, PartialEq, Eq, Structural)]
pub enum SwitchError {
    /// The launcher is running.
    ClientRunning,
    /// The game is running.
    GameRunning,
    /// The account has no data folder assigned.
    NoDataFolder,
}

/// Classifies the live path from what a probe saw: an alias wins over
/// everything else, a real directory comes next; anything else needs no
/// cleanup.
pub fn classify_live(exists: bool, is_alias: bool, is_dir: bool) -> (r: LiveKind)
    ensures
        is_alias ==> r == LiveKind::Redirect,
        !is_alias && exists && is_dir ==> r == LiveKind::RealDirectory,
        !is_alias && !(exists && is_dir) ==> r == LiveKind::Absent,
{
    if is_alias {
        LiveKind::Redirect
    } else if exists && is_dir {
        LiveKind::RealDirectory
    } else {
        LiveKind::Absent
    }
}

/// A switch is refused while the launcher or the game is running.
pub fn switch_guard(client_running: bool, game_running: bool) -> (r: Result<(), SwitchError>)
    ensures
        client_running ==> r == Err::<(), SwitchError>(SwitchError::ClientRunning),
        !client_running && game_running ==> r == Err::<(), SwitchError>(SwitchError::GameRunning),
        !client_running && !game_running ==> r is Ok,
{
    if client_running {
        Err(SwitchError::ClientRunning)
    } else if game_running {
        Err(SwitchError::GameRunning)
    } else {
        Ok(())
    }
}

/// The folder a switch aliases: the account's folder under `root`, or the
/// sentinel folder when no account is requested.
pub open spec fn target_of(root: Seq<char>, account: Option<i64>, data_folder: Option<Seq<char>>) -> Option<Seq<char>> {
    match account {
        None => Some(join_path(root, SENTINEL_FOLDER@)),
        Some(_) => match data_folder {
            Some(f) => Some(join_path(root, f)),
            None => None,
        },
    }
}

/// Resolves the target folder of a switch. `data_folder` is the requested
/// account's stored folder name.
pub fn switch_target(root: &str, account: Option<i64>, data_folder: Option<&str>) -> (r: Result<String, SwitchError>)
    ensures
        match target_of(root@, account, match data_folder { Some(f) => Some(f@), None => None }) {
            Some(t) => r matches Ok(s) && s@ == t,
            None => r == Err::<String, SwitchError>(SwitchError::NoDataFolder),
        },
{
    match account {
        None => Ok(sentinel_path(root)),
        Some(_) => match data_folder {
            Some(f) => Ok(account_path(root, f)),
            None => Err(SwitchError::NoDataFolder),
        },
    }
}

/// The steps of a switch from a live path of kind `live`.
pub open spec fn plan_of(live: LiveKind, target_exists: bool) -> Seq<SwitchStep> {
    let create = if target_exists { seq![] } else { seq![SwitchStep::CreateTarget] };
    let cleanup = match live {
        LiveKind::Absent => seq![],
        LiveKind::Redirect => seq![SwitchStep::RemoveAlias],
        LiveKind::RealDirectory => seq![SwitchStep::RescueLive, SwitchStep::RemoveLiveDir],
    };
    create + cleanup + seq![SwitchStep::ForceRemoveLive, SwitchStep::CreateAlias, SwitchStep::RecordActive]
}

/// The steps of a switch: create the target if it is missing, clear the live
/// path (remove an alias, or rescue a real directory's data and remove it),
/// force away any residue, create the alias, and only then record the
/// active account.
pub fn plan_switch(live: LiveKind, target_exists: bool) -> (r: Vec<SwitchStep>)
    ensures
        r@ == plan_of(live, target_exists),
{
    let mut v: Vec<SwitchStep> = Vec::new();
    if !target_exists {
        v.push(SwitchStep::CreateTarget);
    }
    match live {
        LiveKind::Absent => {},
        LiveKind::Redirect => {
            v.push(SwitchStep::RemoveAlias);
        },
        LiveKind::RealDirectory => {
            v.push(SwitchStep::RescueLive);
            v.push(SwitchStep::RemoveLiveDir);
        },
    }
    v.push(SwitchStep::ForceRemoveLive);
    v.push(SwitchStep::CreateAlias);
    v.push(SwitchStep::RecordActive);
    assert(v@ =~= plan_of(live, target_exists));
    v
}

/// The steps of first-time setup, which puts the live path under the
/// sentinel folder: nothing when it is already an alias; otherwise the
/// sentinel folder is made, real live data is rescued into it and the
/// emptied directory removed, and the alias is created.
pub open spec fn setup_plan_of(live: LiveKind) -> Seq<SwitchStep> {
    match live {
        LiveKind::Redirect => seq![],
        LiveKind::Absent => seq![SwitchStep::CreateTarget, SwitchStep::CreateAlias],
        LiveKind::RealDirectory => seq![SwitchStep::CreateTarget, SwitchStep::RescueLive,
            SwitchStep::RemoveLiveDir, SwitchStep::CreateAlias],
    }
}

/// Plans first-time setup from a live path of kind `live`; the target of
/// the steps is the sentinel folder.
pub fn plan_first_setup(live: LiveKind) -> (r: Vec<SwitchStep>)
    ensures
        r@ == setup_plan_of(live),
{
    let mut v: Vec<SwitchStep> = Vec::new();
    match live {
        LiveKind::Redirect => {},
        LiveKind::Absent => {
            v.push(SwitchStep::CreateTarget);
            v.push(SwitchStep::CreateAlias);
        },
        LiveKind::RealDirectory => {
            v.push(SwitchStep::CreateTarget);
            v.push(SwitchStep::RescueLive);
            v.push(SwitchStep::RemoveLiveDir);
            v.push(SwitchStep::CreateAlias);
        },
    }
    assert(v@ =~= setup_plan_of(live));
    v
}

/// The path to use: the newly given one, else the one already configured.
/// `None` leaves the choice to the platform default.
pub fn chosen_path(given: Option<String>, configured: Option<String>) -> (r: Option<String>)
    ensures
        r == (if given is Some { given } else { configured }),
{
    match given {
        Some(p) => Some(p),
        None => configured,
    }
}

/// Whether a failure of `step` ends the switch. The forced removal is best
/// effort and never ends it.
pub open spec fn fatal(step: SwitchStep) -> bool {
    step != SwitchStep::ForceRemoveLive
}

pub fn is_fatal(step: SwitchStep) -> (r: bool)
    ensures
        r == fatal(step),
{
    !matches!(step, SwitchStep::ForceRemoveLive)
}

} // verus!

verus! {

/// A switch in progress: the planned steps, the position of the next one,
/// and whether a fatal step failed. The app performs each step the run hands
/// out and reports back whether it succeeded.
pub struct SwitchRun {
    pub steps: Vec<SwitchStep>,
    pub next: usize,
    pub failed: bool,
    /// Outcome reported for each step handed out so far.
    pub outcomes: Ghost<Seq<bool>>,
}

impl SwitchRun {
    /// Steps before `next` have been reported; each fatal one succeeded,
    /// except the last one reported when the run failed.
    pub open spec fn wf(&self) -> bool {
        &&& self.next <= self.steps@.len()
        &&& self.outcomes@.len() == self.next
        &&& !self.failed ==> forall|j: int| 0 <= j < self.next ==>
                #[trigger] self.outcomes@[j] || !fatal(self.steps@[j])
        &&& self.failed ==> self.next >= 1
                && !self.outcomes@[self.next - 1]
                && fatal(self.steps@[self.next - 1])
                && forall|j: int| 0 <= j < self.next - 1 ==>
                    #[trigger] self.outcomes@[j] || !fatal(self.steps@[j])
    }

    /// The step to perform next, if the run is still going.
    pub open spec fn pending(&self) -> Option<SwitchStep> {
        if self.failed || self.next >= self.steps@.len() {
            None
        } else {
            Some(self.steps@[self.next as int])
        }
    }

    /// Starts a switch from a live path of kind `live`.
    pub fn new(live: LiveKind, target_exists: bool) -> (r: SwitchRun)
        ensures
            r.wf(),
            r.steps@ == plan_of(live, target_exists),
            r.next == 0,
            !r.failed,
    {
        SwitchRun { steps: plan_switch(live, target_exists), next: 0, failed: false, outcomes: Ghost(Seq::empty()) }
    }

    /// Starts a run of the given steps, such as a first-time setup.
    pub fn from_steps(steps: Vec<SwitchStep>) -> (r: SwitchRun)
        ensures
            r.wf(),
            r.steps@ == steps@,
            r.next == 0,
            !r.failed,
    {
        SwitchRun { steps, next: 0, failed: false, outcomes: Ghost(Seq::empty()) }
    }

    /// The step to perform next; `None` once the run has finished or failed.
    pub fn current(&self) -> (r: Option<SwitchStep>)
        ensures
            r == self.pending(),
    {
        if self.failed || self.next >= self.steps.len() {
            None
        } else {
            Some(self.steps[self.next])
        }
    }

    /// Records the outcome of the pending step. A failed fatal step ends the
    /// run; any other outcome moves on to the following step.
    pub fn report(&mut self, succeeded: bool)
        requires
            old(self).wf(),
            old(self).pending() is Some,
        ensures
            final(self).wf(),
            final(self).steps@ == old(self).steps@,
            final(self).next == old(self).next + 1,
            final(self).outcomes@ == old(self).outcomes@.push(succeeded),
            final(self).failed == (!succeeded && fatal(old(self).steps@[old(self).next as int])),
    {
        let step = self.steps[self.next];
        let len = self.steps.len();
        assert(self.next < len);
        self.outcomes = Ghost(self.outcomes@.push(succeeded));
        if !succeeded && is_fatal(step) {
            self.failed = true;
        }
        self.next = self.next + 1;
    }

    /// Whether every step has been performed without a fatal failure.
    pub fn finished(&self) -> (r: bool)
        ensures
            r == (!self.failed && self.next == self.steps@.len()),
    {
        !self.failed && self.next == self.steps.len()
    }

    /// Whether a fatal step failed.
    pub fn has_failed(&self) -> (r: bool)
        ensures
            r == self.failed,
    {
        self.failed
    }
}

/// The active account is recorded only after the alias was created: when a
/// run hands out the recording step, the alias step before it succeeded,
/// and so did every other fatal step.
pub proof fn lemma_record_only_after_alias(run: SwitchRun, live: LiveKind, target_exists: bool)
    requires
        run.wf(),
        run.steps@ == plan_of(live, target_exists),
        run.pending() == Some(SwitchStep::RecordActive),
    ensures
        run.next == run.steps@.len() - 1,
        run.steps@[run.next - 1] == SwitchStep::CreateAlias,
        run.outcomes@[run.next - 1],
        forall|j: int| 0 <= j < run.next && fatal(run.steps@[j]) ==> #[trigger] run.outcomes@[j],
{
    let p = plan_of(live, target_exists);
    assert(p.last() == SwitchStep::RecordActive);
    assert(p[p.len() - 2] == SwitchStep::CreateAlias);
    assert forall|j: int| 0 <= j < p.len() - 1 implies p[j] != SwitchStep::RecordActive by {}
    assert(fatal(SwitchStep::CreateAlias));
}

} // verus!
