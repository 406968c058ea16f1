//! An abstract filesystem in which the laws of switching are stated: the
//! live path, the folders under the account data root with the files they
//! hold, and the persisted active-account pointer.
use vstd::prelude::*;
use crate::layout::is_separator;
use crate::switch::{LiveKind, SwitchStep, plan_of, setup_plan_of};

verus! {

/// Files of a directory tree: relative path to content.
pub type Files = Map<Seq<char>, Seq<u8>>;

/// What stands at the live path.
pub enum LiveEntry {
    Absent,
    /// A directory alias to the given path (which may no longer exist).
    Alias(Seq<char>),
    /// A real directory holding the given files.
    Real(Files),
}

pub struct FsModel {
    pub live: LiveEntry,
    /// Account folders (and the sentinel folder) by full path.
    pub folders: Map<Seq<char>, Files>,
    /// The persisted active-account pointer.
    pub active: Option<i64>,
}

/// The last component of a path, or empty when it ends in a separator.
pub open spec fn final_component(p: Seq<char>) -> Seq<char>
    decreases p.len(),
{
    if p.len() == 0 || is_separator(p.last()) {
        seq![]
    } else {
        final_component(p.drop_last()).push(p.last())
    }
}

/// A new folder holding only its empty marker file.
pub open spec fn marked_folder(path: Seq<char>) -> Files {
    if final_component(path).len() == 0 {
        Map::empty()
    } else {
        Map::empty().insert(final_component(path), seq![])
    }
}

pub open spec fn kind_of(live: LiveEntry) -> LiveKind {
    match live {
        LiveEntry::Absent => LiveKind::Absent,
        LiveEntry::Alias(_) => LiveKind::Redirect,
        LiveEntry::Real(_) => LiveKind::RealDirectory,
    }
}

/// The files of a folder, or none when it does not exist yet.
pub open spec fn folder_or_empty(fs: FsModel, path: Seq<char>) -> Files {
    if fs.folders.contains_key(path) {
        fs.folders[path]
    } else {
        Map::empty()
    }
}

/// The target folder as the rescue finds it: the existing folder, or the
/// newly created one holding its marker.
pub open spec fn folder_or_new(fs: FsModel, path: Seq<char>) -> Files {
    if fs.folders.contains_key(path) {
        fs.folders[path]
    } else {
        marked_folder(path)
    }
}

/// The empty marker file of the folder at `folder`: named like the folder.
pub open spec fn is_marker(folder: Seq<char>, name: Seq<char>, content: Seq<u8>) -> bool {
    name == final_component(folder) && content.len() == 0
}

/// The rescue of `files` into `folder` (at path `target`) overwrites
/// nothing but the folder's own empty marker.
pub open spec fn rescue_allowed(files: Files, folder: Files, target: Seq<char>) -> bool {
    forall|p: Seq<char>| #![trigger files.contains_key(p), folder.contains_key(p)]
        files.contains_key(p) && folder.contains_key(p) ==> is_marker(target, p, folder[p])
}

/// The rescue into `target` would be refused in the state `fs`.
pub open spec fn blocked(fs: FsModel, target: Seq<char>) -> bool {
    fs.live is Real && !rescue_allowed(fs.live->Real_0, folder_or_empty(fs, target), target)
}

/// The effect of one step of a switch to `target` for `account`. A step
/// the platform refuses leaves the state as it was: the rescue refuses to
/// move live data when an entry of the same name is already in the target,
/// other than the target's own empty marker, which the move replaces.
pub open spec fn apply_step(fs: FsModel, target: Seq<char>, account: Option<i64>, step: SwitchStep) -> FsModel {
    match step {
        SwitchStep::CreateTarget => if fs.folders.contains_key(target) {
            fs
        } else {
            FsModel { folders: fs.folders.insert(target, marked_folder(target)), ..fs }
        },
        SwitchStep::RemoveAlias => match fs.live {
            LiveEntry::Alias(_) => FsModel { live: LiveEntry::Absent, ..fs },
            _ => fs,
        },
        SwitchStep::RescueLive => match fs.live {
            LiveEntry::Real(files) => if rescue_allowed(files, folder_or_empty(fs, target), target) {
                FsModel {
                    live: LiveEntry::Real(Map::empty()),
                    folders: fs.folders.insert(target, folder_or_empty(fs, target).union_prefer_right(files)),
                    ..fs
                }
            } else {
                fs
            },
            _ => fs,
        },
        SwitchStep::RemoveLiveDir => match fs.live {
            LiveEntry::Real(files) => if files.dom().is_empty() {
                FsModel { live: LiveEntry::Absent, ..fs }
            } else {
                fs
            },
            _ => fs,
        },
        SwitchStep::ForceRemoveLive => match fs.live {
            LiveEntry::Alias(_) => FsModel { live: LiveEntry::Absent, ..fs },
            LiveEntry::Real(files) => if files.dom().is_empty() {
                FsModel { live: LiveEntry::Absent, ..fs }
            } else {
                fs
            },
            LiveEntry::Absent => fs,
        },
        SwitchStep::CreateAlias => match fs.live {
            LiveEntry::Absent => if fs.folders.contains_key(target) {
                FsModel { live: LiveEntry::Alias(target), ..fs }
            } else {
                fs
            },
            _ => fs,
        },
        SwitchStep::RecordActive => FsModel { active: account, ..fs },
    }
}

/// The effect of performing `steps` in order, each succeeding.
pub open spec fn run_steps(fs: FsModel, target: Seq<char>, account: Option<i64>, steps: Seq<SwitchStep>) -> FsModel
    decreases steps.len(),
{
    if steps.len() == 0 {
        fs
    } else {
        run_steps(apply_step(fs, target, account, steps[0]), target, account, steps.drop_first())
    }
}

/// The steps the engine plans from the state `fs`.
pub open spec fn planned(fs: FsModel, target: Seq<char>) -> Seq<SwitchStep> {
    plan_of(kind_of(fs.live), fs.folders.contains_key(target))
}

/// The effect of performing `steps` in order until one is refused: a
/// refused rescue stops the run there, as the engine stops, and the steps
/// after it (the recording of the pointer among them) are not performed.
pub open spec fn run_until_refused(fs: FsModel, target: Seq<char>, account: Option<i64>, steps: Seq<SwitchStep>) -> FsModel
    decreases steps.len(),
{
    if steps.len() == 0 {
        fs
    } else if steps[0] == SwitchStep::RescueLive && blocked(fs, target) {
        fs
    } else {
        run_until_refused(apply_step(fs, target, account, steps[0]), target, account, steps.drop_first())
    }
}

/// The state after a switch to `target` for `account`, run until it
/// completes or a step is refused.
pub open spec fn switched(fs: FsModel, target: Seq<char>, account: Option<i64>) -> FsModel {
    run_until_refused(fs, target, account, planned(fs, target))
}

/// No live file has the name of an entry of the target folder other than
/// its marker, so the rescue into it is not refused and the switch can
/// complete. A target that does not exist yet never collides.
pub open spec fn no_collision(fs: FsModel, target: Seq<char>) -> bool {
    match fs.live {
        LiveEntry::Real(files) => rescue_allowed(files, folder_or_new(fs, target), target),
        _ => true,
    }
}

/// Every file of a real live directory is in `folder` with the same content.
pub open spec fn rescued_into(live: LiveEntry, folder: Files) -> bool {
    match live {
        LiveEntry::Real(files) => forall|p: Seq<char>| #![trigger files.contains_key(p)]
            files.contains_key(p) ==> folder.contains_key(p) && folder[p] == files[p],
        _ => true,
    }
}

/// Every file of every folder of `a` is in `b`, in the same folder, with the
/// same content; only a folder's empty marker may have been replaced.
pub open spec fn keeps_files(a: FsModel, b: FsModel) -> bool {
    forall|f: Seq<char>, p: Seq<char>|
        #![trigger a.folders[f].contains_key(p)]
        a.folders.contains_key(f) && a.folders[f].contains_key(p) ==>
            b.folders.contains_key(f) && b.folders[f].contains_key(p)
            && (b.folders[f][p] == a.folders[f][p] || is_marker(f, p, a.folders[f][p]))
}

proof fn lemma_unblocked_step(s: FsModel, target: Seq<char>, account: Option<i64>, step: SwitchStep)
    requires
        !blocked(s, target),
    ensures
        !blocked(apply_step(s, target, account, step), target),
{
    let n = apply_step(s, target, account, step);
    if n.live is Real {
        let files = n.live->Real_0;
        assert forall|p: Seq<char>| #![trigger files.contains_key(p), folder_or_empty(n, target).contains_key(p)]
            files.contains_key(p) && folder_or_empty(n, target).contains_key(p)
            implies is_marker(target, p, folder_or_empty(n, target)[p]) by {
            if step == SwitchStep::CreateTarget && !s.folders.contains_key(target) {
                assert(folder_or_empty(n, target) == marked_folder(target));
            } else if step == SwitchStep::RescueLive {
                if s.live is Real && rescue_allowed(s.live->Real_0, folder_or_empty(s, target), target) {
                    assert(files == Map::<Seq<char>, Seq<u8>>::empty());
                } else {
                    assert(n == s);
                }
            } else {
                assert(n.live == s.live);
                assert(folder_or_empty(n, target) == folder_or_empty(s, target));
            }
        }
    }
}

proof fn lemma_run_unblocked(s: FsModel, target: Seq<char>, account: Option<i64>, steps: Seq<SwitchStep>)
    requires
        !blocked(s, target),
    ensures
        run_until_refused(s, target, account, steps) == run_steps(s, target, account, steps),
    decreases steps.len(),
{
    if steps.len() > 0 {
        lemma_unblocked_step(s, target, account, steps[0]);
        lemma_run_unblocked(apply_step(s, target, account, steps[0]), target, account, steps.drop_first());
    }
}

/// Without a collision the rescue is never refused.
proof fn lemma_no_collision_unblocked(fs: FsModel, target: Seq<char>)
    requires
        no_collision(fs, target),
    ensures
        !blocked(fs, target),
{
    if fs.live is Real && !fs.folders.contains_key(target) {
        assert(folder_or_empty(fs, target) == Map::<Seq<char>, Seq<u8>>::empty());
    }
}

proof fn lemma_run_append(fs: FsModel, target: Seq<char>, account: Option<i64>, s: Seq<SwitchStep>, t: Seq<SwitchStep>)
    ensures
        run_steps(fs, target, account, s + t) == run_steps(run_steps(fs, target, account, s), target, account, t),
    decreases s.len(),
{
    if s.len() > 0 {
        assert((s + t).drop_first() =~= s.drop_first() + t);
        lemma_run_append(apply_step(fs, target, account, s[0]), target, account, s.drop_first(), t);
    } else {
        assert(s + t =~= t);
    }
}

proof fn lemma_run_one(fs: FsModel, target: Seq<char>, account: Option<i64>, s: SwitchStep)
    ensures
        run_steps(fs, target, account, seq![s]) == apply_step(fs, target, account, s),
{
    let n = apply_step(fs, target, account, s);
    assert(seq![s].drop_first() =~= Seq::<SwitchStep>::empty());
    assert(run_steps(n, target, account, Seq::<SwitchStep>::empty()) == n);
}

/// The state after the cleanup part of a switch: target present, live
/// entry gone.
proof fn lemma_prepare(fs: FsModel, target: Seq<char>, account: Option<i64>) -> (mid: FsModel)
    requires
        no_collision(fs, target),
    ensures
        mid.live == LiveEntry::Absent,
        mid.folders.contains_key(target),
        mid.active == fs.active,
        keeps_files(fs, mid),
        rescued_into(fs.live, mid.folders[target]),
        !(fs.live is Real) && fs.folders.contains_key(target) ==> mid.folders == fs.folders,
        !fs.folders.contains_key(target) ==> mid.folders[target] == match fs.live {
            LiveEntry::Real(files) => marked_folder(target).union_prefer_right(files),
            _ => marked_folder(target),
        },
        switched(fs, target, account) == run_steps(mid, target, account,
            seq![SwitchStep::CreateAlias, SwitchStep::RecordActive]),
{
    lemma_no_collision_unblocked(fs, target);
    lemma_run_unblocked(fs, target, account, planned(fs, target));
    let create: Seq<SwitchStep> = if fs.folders.contains_key(target) { seq![] } else { seq![SwitchStep::CreateTarget] };
    let cleanup: Seq<SwitchStep> = match fs.live {
        LiveEntry::Absent => seq![],
        LiveEntry::Alias(_) => seq![SwitchStep::RemoveAlias],
        LiveEntry::Real(_) => seq![SwitchStep::RescueLive, SwitchStep::RemoveLiveDir],
    };
    let tail: Seq<SwitchStep> = seq![SwitchStep::CreateAlias, SwitchStep::RecordActive];
    assert(planned(fs, target) =~= create + cleanup + seq![SwitchStep::ForceRemoveLive] + tail);
    let s1 = run_steps(fs, target, account, create);
    lemma_run_one(fs, target, account, SwitchStep::CreateTarget);
    assert(s1.folders.contains_key(target));
    assert(s1.live == fs.live);
    assert(keeps_files(fs, s1));
    let s2 = run_steps(s1, target, account, cleanup);
    match fs.live {
        LiveEntry::Real(files) => {
            assert(folder_or_empty(s1, target) == folder_or_new(fs, target));
            assert(rescue_allowed(files, folder_or_empty(s1, target), target));
            let r1 = apply_step(s1, target, account, SwitchStep::RescueLive);
            lemma_run_append(s1, target, account, seq![SwitchStep::RescueLive], seq![SwitchStep::RemoveLiveDir]);
            assert(seq![SwitchStep::RescueLive] + seq![SwitchStep::RemoveLiveDir] =~= cleanup);
            lemma_run_one(s1, target, account, SwitchStep::RescueLive);
            lemma_run_one(r1, target, account, SwitchStep::RemoveLiveDir);
            assert(Map::<Seq<char>, Seq<u8>>::empty().dom().is_empty()) by {
                assert(Map::<Seq<char>, Seq<u8>>::empty().dom() =~= Set::empty());
            }
            assert(s2.live == LiveEntry::Absent);
            assert forall|f: Seq<char>, p: Seq<char>|
                #![trigger fs.folders[f].contains_key(p)]
                fs.folders.contains_key(f) && fs.folders[f].contains_key(p) implies
                    s2.folders.contains_key(f) && s2.folders[f].contains_key(p)
                    && (s2.folders[f][p] == fs.folders[f][p] || is_marker(f, p, fs.folders[f][p])) by {
                if f == target {
                    assert(s1.folders[f][p] == fs.folders[f][p]);
                    assert(folder_or_empty(s1, target).contains_key(p));
                } else {
                    assert(s1.folders[f][p] == fs.folders[f][p]);
                }
            }
        },
        LiveEntry::Alias(_) => {
            lemma_run_one(s1, target, account, SwitchStep::RemoveAlias);
        },
        LiveEntry::Absent => {},
    }
    let mid = run_steps(s2, target, account, seq![SwitchStep::ForceRemoveLive]);
    lemma_run_one(s2, target, account, SwitchStep::ForceRemoveLive);
    lemma_run_append(fs, target, account, create, cleanup);
    lemma_run_append(fs, target, account, create + cleanup, seq![SwitchStep::ForceRemoveLive]);
    lemma_run_append(fs, target, account, create + cleanup + seq![SwitchStep::ForceRemoveLive], tail);
    mid
}

proof fn lemma_finish(mid: FsModel, target: Seq<char>, account: Option<i64>)
    requires
        mid.live == LiveEntry::Absent,
        mid.folders.contains_key(target),
    ensures
        run_steps(mid, target, account, seq![SwitchStep::CreateAlias, SwitchStep::RecordActive])
            == (FsModel { live: LiveEntry::Alias(target), folders: mid.folders, active: account }),
{
    let a = apply_step(mid, target, account, SwitchStep::CreateAlias);
    lemma_run_append(mid, target, account, seq![SwitchStep::CreateAlias], seq![SwitchStep::RecordActive]);
    assert(seq![SwitchStep::CreateAlias] + seq![SwitchStep::RecordActive] =~= seq![SwitchStep::CreateAlias, SwitchStep::RecordActive]);
    lemma_run_one(mid, target, account, SwitchStep::CreateAlias);
    lemma_run_one(a, target, account, SwitchStep::RecordActive);
}

/// After a completed switch the live path is an alias to exactly the
/// requested target, that target exists, and the active-account pointer is
/// the requested account, whatever stood at the live path before. A switch
/// completes unless its rescue is refused because a live file has the name
/// of an entry already in the target (`no_collision`).
pub proof fn lemma_switch_installs_alias(fs: FsModel, target: Seq<char>, account: Option<i64>)
    requires
        no_collision(fs, target),
    ensures
        switched(fs, target, account).live == LiveEntry::Alias(target),
        switched(fs, target, account).folders.contains_key(target),
        switched(fs, target, account).active == account,
{
    let mid = lemma_prepare(fs, target, account);
    lemma_finish(mid, target, account);
}

/// Rescue: every file of a real live directory ends up in the target
/// folder with the same content (hence the same size), and the live path
/// becomes an alias to that folder.
pub proof fn lemma_switch_rescues_live_data(fs: FsModel, target: Seq<char>, account: Option<i64>)
    requires
        no_collision(fs, target),
    ensures
        rescued_into(fs.live, switched(fs, target, account).folders[target]),
        switched(fs, target, account).live == LiveEntry::Alias(target),
{
    let mid = lemma_prepare(fs, target, account);
    lemma_finish(mid, target, account);
}

/// A switch to a folder that did not exist yet always completes and
/// leaves the folder with its marker: a file named like the folder, empty
/// unless the live directory held a file of that name, which replaced it.
pub proof fn lemma_switch_marks_new_folder(fs: FsModel, target: Seq<char>, account: Option<i64>)
    requires
        !fs.folders.contains_key(target),
        final_component(target).len() > 0,
    ensures
        switched(fs, target, account).live == LiveEntry::Alias(target),
        switched(fs, target, account).folders[target].contains_key(final_component(target)),
        !(fs.live matches LiveEntry::Real(files) && files.contains_key(final_component(target)))
            ==> switched(fs, target, account).folders[target][final_component(target)] == Seq::<u8>::empty(),
{
    lemma_new_target_never_collides(fs, target);
    let mid = lemma_prepare(fs, target, account);
    lemma_finish(mid, target, account);
    assert(marked_folder(target).contains_key(final_component(target)));
}

/// Every file of a real live directory of `fs0` is in `s` still in the live
/// directory or in some folder, with the same content.
pub open spec fn live_files_kept(fs0: FsModel, s: FsModel) -> bool {
    match fs0.live {
        LiveEntry::Real(files) => forall|p: Seq<char>| #![trigger files.contains_key(p)]
            files.contains_key(p) ==> (
                (s.live matches LiveEntry::Real(f) && f.contains_key(p) && f[p] == files[p])
                || exists|d: Seq<char>| #[trigger] s.folders.contains_key(d)
                    && s.folders[d].contains_key(p)
                    && (s.folders[d][p] == files[p] || is_marker(d, p, files[p]))),
        _ => true,
    }
}

/// A switch loses no file of any folder, and every live file stays in the
/// live directory or reaches the target.
pub proof fn lemma_switch_keeps_files(fs: FsModel, target: Seq<char>, account: Option<i64>)
    ensures
        keeps_files(fs, switched(fs, target, account)),
        live_data_safe(fs, switched(fs, target, account), target),
{
    lemma_safe_until(fs, fs, target, account, planned(fs, target));
}

proof fn lemma_keeps_files_trans(a: FsModel, b: FsModel, c: FsModel)
    requires
        keeps_files(a, b),
        keeps_files(b, c),
    ensures
        keeps_files(a, c),
{
    assert forall|f: Seq<char>, p: Seq<char>|
        #![trigger a.folders[f].contains_key(p)]
        a.folders.contains_key(f) && a.folders[f].contains_key(p) implies
            c.folders.contains_key(f) && c.folders[f].contains_key(p)
            && (c.folders[f][p] == a.folders[f][p] || is_marker(f, p, a.folders[f][p])) by {
        assert(b.folders[f].contains_key(p));
    }
}

/// Switching twice in a row to the same target gives the same state as
/// switching once, and the second switch moves no data.
pub proof fn lemma_switch_idempotent(fs: FsModel, target: Seq<char>, account: Option<i64>)
    requires
        no_collision(fs, target),
    ensures
        switched(switched(fs, target, account), target, account) == switched(fs, target, account),
        !planned(switched(fs, target, account), target).contains(SwitchStep::RescueLive),
{
    let s1 = switched(fs, target, account);
    lemma_switch_installs_alias(fs, target, account);
    let mid = lemma_prepare(s1, target, account);
    lemma_finish(mid, target, account);
    let p = planned(s1, target);
    assert(p =~= seq![SwitchStep::RemoveAlias, SwitchStep::ForceRemoveLive, SwitchStep::CreateAlias, SwitchStep::RecordActive]);
    assert(p[0] != SwitchStep::RescueLive && p[1] != SwitchStep::RescueLive
        && p[2] != SwitchStep::RescueLive && p[3] != SwitchStep::RescueLive);
}

/// A sequence of switch requests: target folder and account of each.
pub open spec fn switch_all(fs: FsModel, reqs: Seq<(Seq<char>, Option<i64>)>) -> FsModel
    decreases reqs.len(),
{
    if reqs.len() == 0 {
        fs
    } else {
        switch_all(switched(fs, reqs[0].0, reqs[0].1), reqs.drop_first())
    }
}

/// No data loss over any sequence of switches, whether each completes or
/// not: every file of every folder is still there, in the same folder with
/// the same content, and every file of a real live directory is still in
/// the live directory or in a folder, with the same content.
pub proof fn lemma_switches_keep_files(fs: FsModel, reqs: Seq<(Seq<char>, Option<i64>)>)
    ensures
        keeps_files(fs, switch_all(fs, reqs)),
        live_files_kept(fs, switch_all(fs, reqs)),
    decreases reqs.len(),
{
    if reqs.len() == 0 {
        assert(keeps_files(fs, fs));
    } else {
        let (t, a) = reqs[0];
        let s1 = switched(fs, t, a);
        lemma_switch_keeps_files(fs, t, a);
        let rest = reqs.drop_first();
        lemma_switches_keep_files(s1, rest);
        let end = switch_all(s1, rest);
        assert(end == switch_all(fs, reqs));
        lemma_keeps_files_trans(fs, s1, end);
        match fs.live {
            LiveEntry::Real(files) => {
                assert forall|p: Seq<char>| #![trigger files.contains_key(p)]
                    files.contains_key(p) implies (
                        (end.live matches LiveEntry::Real(f) && f.contains_key(p) && f[p] == files[p])
                        || exists|d: Seq<char>| #[trigger] end.folders.contains_key(d)
                            && end.folders[d].contains_key(p)
                            && (end.folders[d][p] == files[p] || is_marker(d, p, files[p]))) by {
                    if s1.folders.contains_key(t) && s1.folders[t].contains_key(p) && s1.folders[t][p] == files[p] {
                        assert(s1.folders[t].contains_key(p));
                        assert(end.folders.contains_key(t) && end.folders[t].contains_key(p));
                    } else {
                        let f1 = s1.live->Real_0;
                        assert(f1.contains_key(p) && f1[p] == files[p]);
                        assert(live_files_kept(s1, end));
                    }
                }
            },
            _ => {},
        }
    }
}

/// A switch to a folder that does not exist yet never collides: the new
/// folder holds only its marker, which the rescue may replace. So such a
/// switch always completes (`lemma_switch_installs_alias`).
pub proof fn lemma_new_target_never_collides(fs: FsModel, target: Seq<char>)
    requires
        !fs.folders.contains_key(target),
    ensures
        no_collision(fs, target),
{
    if fs.live is Real {
        let files = fs.live->Real_0;
        assert forall|q: Seq<char>| #![trigger files.contains_key(q), folder_or_new(fs, target).contains_key(q)]
            files.contains_key(q) && folder_or_new(fs, target).contains_key(q)
            implies is_marker(target, q, folder_or_new(fs, target)[q]) by {}
    }
}

/// A switch whose rescue is refused (a live file would overwrite a file
/// of the target) stops before changing anything: the live path stays as
/// it was and the pointer is not recorded.
pub proof fn lemma_refused_switch_changes_nothing(fs: FsModel, target: Seq<char>, account: Option<i64>)
    requires
        !no_collision(fs, target),
    ensures
        switched(fs, target, account) == fs,
{
    let p = planned(fs, target);
    if !fs.folders.contains_key(target) {
        lemma_new_target_never_collides(fs, target);
    }
    assert(p[0] == SwitchStep::RescueLive);
    assert(blocked(fs, target));
}

proof fn lemma_live_files_trans(a: FsModel, b: FsModel, c: FsModel)
    requires
        keeps_files(a, b),
        live_files_kept(a, b),
        keeps_files(b, c),
        live_files_kept(b, c),
    ensures
        live_files_kept(a, c),
{
    if a.live is Real {
        let files = a.live->Real_0;
        assert forall|p: Seq<char>| #![trigger files.contains_key(p)]
            files.contains_key(p) implies (
                (c.live matches LiveEntry::Real(f) && f.contains_key(p) && f[p] == files[p])
                || exists|d: Seq<char>| #[trigger] c.folders.contains_key(d)
                    && c.folders[d].contains_key(p)
                    && (c.folders[d][p] == files[p] || is_marker(d, p, files[p]))) by {
            if b.live is Real && b.live->Real_0.contains_key(p) && b.live->Real_0[p] == files[p] {
                let f = b.live->Real_0;
                assert(f.contains_key(p));
            } else {
                let d = choose|d: Seq<char>| #[trigger] b.folders.contains_key(d)
                    && b.folders[d].contains_key(p)
                    && (b.folders[d][p] == files[p] || is_marker(d, p, files[p]));
                assert(b.folders[d].contains_key(p));
                assert(c.folders.contains_key(d));
            }
        }
    }
}

/// One request of a sequence: a switch to a target for an account, stopped
/// after its first `k` planned steps (or run to the end when `k` is large).
pub open spec fn run_requests(fs: FsModel, reqs: Seq<(Seq<char>, Option<i64>, nat)>) -> FsModel
    decreases reqs.len(),
{
    if reqs.len() == 0 {
        fs
    } else {
        let (t, a, k) = reqs[0];
        let steps = planned(fs, t);
        let n = if k < steps.len() { k as int } else { steps.len() as int };
        run_requests(run_until_refused(fs, t, a, steps.take(n)), reqs.drop_first())
    }
}

/// No data loss over any sequence of switches, each stopped after any
/// number of its steps: every file of every folder is still in the same
/// folder with the same content (a marker may be replaced), and every live
/// file is still in the live directory or in a folder.
pub proof fn lemma_stopped_switches_keep_files(fs: FsModel, reqs: Seq<(Seq<char>, Option<i64>, nat)>)
    ensures
        keeps_files(fs, run_requests(fs, reqs)),
        live_files_kept(fs, run_requests(fs, reqs)),
    decreases reqs.len(),
{
    if reqs.len() == 0 {
        assert(keeps_files(fs, fs));
        assert(live_files_kept(fs, fs));
    } else {
        let (t, a, k) = reqs[0];
        let steps = planned(fs, t);
        let n = if k < steps.len() { k as int } else { steps.len() as int };
        let s1 = run_until_refused(fs, t, a, steps.take(n));
        lemma_safe_until(fs, fs, t, a, steps.take(n));
        assert(live_files_kept(fs, s1)) by {
            if fs.live is Real {
                let files = fs.live->Real_0;
                assert forall|p: Seq<char>| #![trigger files.contains_key(p)]
                    files.contains_key(p) implies (
                        (s1.live matches LiveEntry::Real(f) && f.contains_key(p) && f[p] == files[p])
                        || exists|d: Seq<char>| #[trigger] s1.folders.contains_key(d)
                            && s1.folders[d].contains_key(p)
                            && (s1.folders[d][p] == files[p] || is_marker(d, p, files[p]))) by {
                    if s1.folders.contains_key(t) && s1.folders[t].contains_key(p) {
                        assert(s1.folders.contains_key(t));
                    }
                }
            }
        }
        let rest = reqs.drop_first();
        lemma_stopped_switches_keep_files(s1, rest);
        let end = run_requests(s1, rest);
        assert(end == run_requests(fs, reqs));
        lemma_keeps_files_trans(fs, s1, end);
        lemma_live_files_trans(fs, s1, end);
    }
}

/// Alias round trip: creating the alias on an empty live path makes it an
/// alias that resolves to the target; removing it leaves nothing there.
pub proof fn lemma_alias_round_trip(fs: FsModel, target: Seq<char>, account: Option<i64>)
    requires
        fs.live == LiveEntry::Absent,
        fs.folders.contains_key(target),
    ensures
        apply_step(fs, target, account, SwitchStep::CreateAlias).live == LiveEntry::Alias(target),
        kind_of(apply_step(fs, target, account, SwitchStep::CreateAlias).live) == LiveKind::Redirect,
        apply_step(apply_step(fs, target, account, SwitchStep::CreateAlias), target, account,
            SwitchStep::RemoveAlias).live == LiveEntry::Absent,
{
}

/// First-time setup puts the live path under the sentinel folder: no file
/// of any folder is lost and the pointer is untouched; unless the rescue is
/// refused for a name collision, a live path that was not an alias ends as
/// an alias to the sentinel folder, which then holds every live file.
pub proof fn lemma_first_setup(fs: FsModel, sentinel: Seq<char>)
    ensures
        keeps_files(fs, run_steps(fs, sentinel, fs.active, setup_plan_of(kind_of(fs.live)))),
        run_steps(fs, sentinel, fs.active, setup_plan_of(kind_of(fs.live))).active == fs.active,
        no_collision(fs, sentinel) && !(fs.live is Alias) ==>
            run_steps(fs, sentinel, fs.active, setup_plan_of(kind_of(fs.live))).live == LiveEntry::Alias(sentinel),
        no_collision(fs, sentinel) ==>
            rescued_into(fs.live, run_steps(fs, sentinel, fs.active, setup_plan_of(kind_of(fs.live))).folders[sentinel]),
{
    let a = fs.active;
    let s1 = apply_step(fs, sentinel, a, SwitchStep::CreateTarget);
    lemma_switch_stops_safely(fs, sentinel, a, setup_plan_of(kind_of(fs.live)));
    lemma_active_kept(fs, sentinel, a, setup_plan_of(kind_of(fs.live)));
    match fs.live {
        LiveEntry::Alias(_) => {
            assert(setup_plan_of(kind_of(fs.live)) =~= Seq::<SwitchStep>::empty());
        },
        LiveEntry::Absent => {
            let p = setup_plan_of(kind_of(fs.live));
            assert(p =~= seq![SwitchStep::CreateTarget] + seq![SwitchStep::CreateAlias]);
            lemma_run_append(fs, sentinel, a, seq![SwitchStep::CreateTarget], seq![SwitchStep::CreateAlias]);
            lemma_run_one(fs, sentinel, a, SwitchStep::CreateTarget);
            lemma_run_one(s1, sentinel, a, SwitchStep::CreateAlias);
        },
        LiveEntry::Real(files) => {
            if no_collision(fs, sentinel) {
                assert(folder_or_empty(s1, sentinel) == folder_or_new(fs, sentinel));
                let s2 = apply_step(s1, sentinel, a, SwitchStep::RescueLive);
                let s3 = apply_step(s2, sentinel, a, SwitchStep::RemoveLiveDir);
                let p = setup_plan_of(kind_of(fs.live));
                assert(p =~= seq![SwitchStep::CreateTarget] + (seq![SwitchStep::RescueLive]
                    + (seq![SwitchStep::RemoveLiveDir] + seq![SwitchStep::CreateAlias])));
                lemma_run_append(fs, sentinel, a, seq![SwitchStep::CreateTarget], seq![SwitchStep::RescueLive]
                    + (seq![SwitchStep::RemoveLiveDir] + seq![SwitchStep::CreateAlias]));
                lemma_run_append(s1, sentinel, a, seq![SwitchStep::RescueLive],
                    seq![SwitchStep::RemoveLiveDir] + seq![SwitchStep::CreateAlias]);
                lemma_run_append(s2, sentinel, a, seq![SwitchStep::RemoveLiveDir], seq![SwitchStep::CreateAlias]);
                lemma_run_one(fs, sentinel, a, SwitchStep::CreateTarget);
                lemma_run_one(s1, sentinel, a, SwitchStep::RescueLive);
                lemma_run_one(s2, sentinel, a, SwitchStep::RemoveLiveDir);
                lemma_run_one(s3, sentinel, a, SwitchStep::CreateAlias);
                assert(Map::<Seq<char>, Seq<u8>>::empty().dom() =~= Set::<Seq<char>>::empty());
            }
        },
    }
}

/// No step changes the active-account pointer but the recording step.
proof fn lemma_active_kept(fs: FsModel, target: Seq<char>, account: Option<i64>, steps: Seq<SwitchStep>)
    requires
        !steps.contains(SwitchStep::RecordActive),
    ensures
        run_steps(fs, target, account, steps).active == fs.active,
    decreases steps.len(),
{
    if steps.len() > 0 {
        assert(steps[0] != SwitchStep::RecordActive);
        assert forall|i: int| 0 <= i < steps.drop_first().len() implies steps.drop_first()[i] != SwitchStep::RecordActive by {
            assert(steps.drop_first()[i] == steps[i + 1]);
        }
        lemma_active_kept(apply_step(fs, target, account, steps[0]), target, account, steps.drop_first());
    }
}

/// Every file of a real live directory in `fs0` is, in `s`, still in the
/// live directory or already in the target folder, with the same content.
pub open spec fn live_data_safe(fs0: FsModel, s: FsModel, target: Seq<char>) -> bool {
    match fs0.live {
        LiveEntry::Real(files) => forall|p: Seq<char>| #![trigger files.contains_key(p)]
            files.contains_key(p) ==> (
                (s.live matches LiveEntry::Real(f) && f.contains_key(p) && f[p] == files[p])
                || (s.folders.contains_key(target) && s.folders[target].contains_key(p)
                    && s.folders[target][p] == files[p])),
        _ => true,
    }
}

/// A state a switch to `target` from `fs0` may stop in: no file of any
/// folder lost, live data still in the live directory or in the target,
/// and the live path as it was, gone, an emptied directory, or an alias to
/// exactly the requested target.
pub open spec fn safe_stop(fs0: FsModel, s: FsModel, target: Seq<char>) -> bool {
    &&& keeps_files(fs0, s)
    &&& live_data_safe(fs0, s, target)
    &&& (s.live == fs0.live || s.live == LiveEntry::Absent
        || s.live == LiveEntry::Real(Map::empty()) || s.live == LiveEntry::Alias(target))
}

proof fn lemma_step_stays_safe(fs0: FsModel, s: FsModel, target: Seq<char>, account: Option<i64>, step: SwitchStep)
    requires
        safe_stop(fs0, s, target),
    ensures
        safe_stop(fs0, apply_step(s, target, account, step), target),
{
    let n = apply_step(s, target, account, step);
    assert(Map::<Seq<char>, Seq<u8>>::empty().dom() =~= Set::<Seq<char>>::empty());
    assert forall|f: Seq<char>, q: Seq<char>|
        #![trigger fs0.folders[f].contains_key(q)]
        fs0.folders.contains_key(f) && fs0.folders[f].contains_key(q) implies
            n.folders.contains_key(f) && n.folders[f].contains_key(q)
            && (n.folders[f][q] == fs0.folders[f][q] || is_marker(f, q, fs0.folders[f][q])) by {
        assert(s.folders[f].contains_key(q));
        if step == SwitchStep::RescueLive && f == target {
            if s.live is Real {
                let files = s.live->Real_0;
                if files.contains_key(q) {
                    assert(folder_or_empty(s, target).contains_key(q));
                }
            }
        }
    }
    match fs0.live {
        LiveEntry::Real(files) => {
            assert forall|p: Seq<char>| #![trigger files.contains_key(p)]
                files.contains_key(p) implies (
                    (n.live matches LiveEntry::Real(f) && f.contains_key(p) && f[p] == files[p])
                    || (n.folders.contains_key(target) && n.folders[target].contains_key(p)
                        && n.folders[target][p] == files[p])) by {
                if s.folders.contains_key(target) && s.folders[target].contains_key(p)
                    && s.folders[target][p] == files[p] {
                    if step == SwitchStep::RescueLive && s.live is Real {
                        let f2 = s.live->Real_0;
                        if s.live != fs0.live {
                            assert(f2 =~= Map::<Seq<char>, Seq<u8>>::empty());
                        }
                    }
                } else {
                    assert(s.live == fs0.live);
                }
            }
        },
        _ => {},
    }
}

/// Wherever a switch stops, after any number of its steps have succeeded,
/// the state is safe: no file of any folder is lost, the live data is in
/// the live directory or the target, and the live path never points at a
/// wrong target.
pub proof fn lemma_switch_stops_safely(fs: FsModel, target: Seq<char>, account: Option<i64>, steps: Seq<SwitchStep>)
    ensures
        safe_stop(fs, run_steps(fs, target, account, steps), target),
{
    lemma_safe_from(fs, fs, target, account, steps);
}

proof fn lemma_safe_until(fs0: FsModel, s: FsModel, target: Seq<char>, account: Option<i64>, steps: Seq<SwitchStep>)
    requires
        safe_stop(fs0, s, target),
    ensures
        safe_stop(fs0, run_until_refused(s, target, account, steps), target),
    decreases steps.len(),
{
    if steps.len() > 0 && !(steps[0] == SwitchStep::RescueLive && blocked(s, target)) {
        lemma_step_stays_safe(fs0, s, target, account, steps[0]);
        lemma_safe_until(fs0, apply_step(s, target, account, steps[0]), target, account, steps.drop_first());
    }
}

proof fn lemma_safe_from(fs0: FsModel, s: FsModel, target: Seq<char>, account: Option<i64>, steps: Seq<SwitchStep>)
    requires
        safe_stop(fs0, s, target),
    ensures
        safe_stop(fs0, run_steps(s, target, account, steps), target),
    decreases steps.len(),
{
    if steps.len() > 0 {
        lemma_step_stays_safe(fs0, s, target, account, steps[0]);
        lemma_safe_from(fs0, apply_step(s, target, account, steps[0]), target, account, steps.drop_first());
    }
}

} // verus!
