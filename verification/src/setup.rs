use vstd::prelude::*;

verus! {

/// One step of the repository synchronization plan, in the order the
/// driver must perform them.
#[derive(Clone, Copy, Debug, PartialEq, Eq)]
pub enum SyncAction {
    RemoveDir,
    CloneRepo,
    FetchRemote,
    CheckoutRevision,
}

/// Abstract state of the destination directory: nothing there, something
/// there that is not a working tree, or a working tree checked out at some
/// revision.
pub enum DirState {
    Absent,
    Untracked,
    WorkTree { rev: Seq<char> },
}

pub open spec fn probe_work_tree(s: DirState) -> bool {
    s is WorkTree
}

pub open spec fn probe_exists(s: DirState) -> bool {
    !(s is Absent)
}

/// Effect of one action on the directory, when the underlying tool
/// succeeds: `clone_rev` is the revision a fresh clone leaves checked out
/// (the remote's default branch), `rev` the requested revision. Fetching
/// only updates remote-tracking refs, so it leaves the modelled state
/// unchanged; a checkout moves a working tree to the requested revision.
pub open spec fn apply_action(
    s: DirState,
    a: SyncAction,
    clone_rev: Seq<char>,
    rev: Seq<char>,
) -> DirState {
    match a {
        SyncAction::RemoveDir => DirState::Absent,
        SyncAction::CloneRepo => DirState::WorkTree { rev: clone_rev },
        SyncAction::FetchRemote => s,
        SyncAction::CheckoutRevision => if s is WorkTree {
            DirState::WorkTree { rev }
        } else {
            s
        },
    }
}

pub open spec fn apply_plan(
    s: DirState,
    plan: Seq<SyncAction>,
    clone_rev: Seq<char>,
    rev: Seq<char>,
) -> DirState
    decreases plan.len(),
{
    if plan.len() == 0 {
        s
    } else {
        apply_plan(apply_action(s, plan[0], clone_rev, rev), plan.skip(1), clone_rev, rev)
    }
}

/// The linear synchronization decision: an existing working tree is only
/// fetched, anything else is removed (when present) and cloned afresh, and
/// the requested revision is checked out unconditionally at the end.
pub open spec fn sync_plan_spec(is_work_tree: bool, dir_exists: bool) -> Seq<SyncAction> {
    if is_work_tree {
        seq![SyncAction::FetchRemote, SyncAction::CheckoutRevision]
    } else if dir_exists {
        seq![SyncAction::RemoveDir, SyncAction::CloneRepo, SyncAction::CheckoutRevision]
    } else {
        seq![SyncAction::CloneRepo, SyncAction::CheckoutRevision]
    }
}

/// Computes the plan for one `sync` call from the two probes the driver
/// makes: is the directory a working tree, and does it exist at all.
pub fn sync_plan(is_work_tree: bool, dir_exists: bool) -> (r: Vec<SyncAction>)
    ensures
        r@ == sync_plan_spec(is_work_tree, dir_exists),
{
    let mut v: Vec<SyncAction> = Vec::new();
    if is_work_tree {
        v.push(SyncAction::FetchRemote);
    } else {
        if dir_exists {
            v.push(SyncAction::RemoveDir);
        }
        v.push(SyncAction::CloneRepo);
    }
    v.push(SyncAction::CheckoutRevision);
    proof {
        assert(v@ =~= sync_plan_spec(is_work_tree, dir_exists));
    }
    v
}

proof fn lemma_apply_two(
    s: DirState,
    a: SyncAction,
    b: SyncAction,
    clone_rev: Seq<char>,
    rev: Seq<char>,
)
    ensures
        apply_plan(s, seq![a, b], clone_rev, rev) == apply_action(
            apply_action(s, a, clone_rev, rev),
            b,
            clone_rev,
            rev,
        ),
{
    let s1 = apply_action(s, a, clone_rev, rev);
    let s2 = apply_action(s1, b, clone_rev, rev);
    assert(seq![a, b].skip(1) =~= seq![b]);
    assert(seq![b].skip(1) =~= Seq::<SyncAction>::empty());
    assert(apply_plan(s, seq![a, b], clone_rev, rev) == apply_plan(
        s1,
        seq![b],
        clone_rev,
        rev,
    ));
    assert(apply_plan(s1, seq![b], clone_rev, rev) == apply_plan(
        s2,
        Seq::<SyncAction>::empty(),
        clone_rev,
        rev,
    ));
    assert(apply_plan(s2, Seq::<SyncAction>::empty(), clone_rev, rev) == s2);
}

proof fn lemma_apply_three(
    s: DirState,
    a: SyncAction,
    b: SyncAction,
    c: SyncAction,
    clone_rev: Seq<char>,
    rev: Seq<char>,
)
    ensures
        apply_plan(s, seq![a, b, c], clone_rev, rev) == apply_action(
            apply_action(apply_action(s, a, clone_rev, rev), b, clone_rev, rev),
            c,
            clone_rev,
            rev,
        ),
{
    let s1 = apply_action(s, a, clone_rev, rev);
    assert(seq![a, b, c].skip(1) =~= seq![b, c]);
    assert(apply_plan(s, seq![a, b, c], clone_rev, rev) == apply_plan(
        s1,
        seq![b, c],
        clone_rev,
        rev,
    ));
    lemma_apply_two(s1, b, c, clone_rev, rev);
}

/// Whatever state the directory starts in, running the plan that its
/// probes dictate ends in a working tree checked out at the requested
/// revision.
pub proof fn lemma_sync_reaches_revision(s: DirState, clone_rev: Seq<char>, rev: Seq<char>)
    ensures
        apply_plan(
            s,
            sync_plan_spec(probe_work_tree(s), probe_exists(s)),
            clone_rev,
            rev,
        ) == (DirState::WorkTree { rev }),
{
    if probe_work_tree(s) {
        lemma_apply_two(s, SyncAction::FetchRemote, SyncAction::CheckoutRevision, clone_rev, rev);
    } else if probe_exists(s) {
        lemma_apply_three(
            s,
            SyncAction::RemoveDir,
            SyncAction::CloneRepo,
            SyncAction::CheckoutRevision,
            clone_rev,
            rev,
        );
    } else {
        lemma_apply_two(s, SyncAction::CloneRepo, SyncAction::CheckoutRevision, clone_rev, rev);
    }
}

/// A directory that already is a working tree is never deleted nor cloned
/// over: its plan only fetches and checks the requested revision out.
pub proof fn lemma_sync_preserves_tree(s: DirState, clone_rev: Seq<char>, rev: Seq<char>)
    requires
        s is WorkTree,
    ensures
        sync_plan_spec(probe_work_tree(s), probe_exists(s)) == seq![
            SyncAction::FetchRemote,
            SyncAction::CheckoutRevision,
        ],
        !sync_plan_spec(probe_work_tree(s), probe_exists(s)).contains(SyncAction::RemoveDir),
        apply_plan(
            s,
            sync_plan_spec(probe_work_tree(s), probe_exists(s)),
            clone_rev,
            rev,
        ) == (DirState::WorkTree { rev }),
{
    let p = sync_plan_spec(probe_work_tree(s), probe_exists(s));
    assert(forall|i: int| 0 <= i < p.len() ==> p[i] != SyncAction::RemoveDir);
    lemma_sync_reaches_revision(s, clone_rev, rev);
}

/// A directory that is not a working tree has its stale contents removed,
/// exactly when something is there to remove, before the clone; the plan
/// still ends in a working tree at the requested revision.
pub proof fn lemma_sync_rebuilds_non_tree(s: DirState, clone_rev: Seq<char>, rev: Seq<char>)
    requires
        !(s is WorkTree),
    ensures
        sync_plan_spec(probe_work_tree(s), probe_exists(s)).contains(SyncAction::RemoveDir)
            <==> probe_exists(s),
        apply_plan(
            s,
            sync_plan_spec(probe_work_tree(s), probe_exists(s)),
            clone_rev,
            rev,
        ) == (DirState::WorkTree { rev }),
{
    let p = sync_plan_spec(probe_work_tree(s), probe_exists(s));
    if probe_exists(s) {
        assert(p[0] == SyncAction::RemoveDir);
        assert(p.contains(SyncAction::RemoveDir));
    } else {
        assert(forall|i: int| 0 <= i < p.len() ==> p[i] != SyncAction::RemoveDir);
    }
    lemma_sync_reaches_revision(s, clone_rev, rev);
}

/// Arguments of the clone invocation: `clone <url> <dir>`.
pub fn git_clone_args(repo_url: &String, target_dir: &String) -> (r: Vec<String>)
    ensures
        r@.len() == 3,
        r@[0]@ == "clone"@,
        r@[1]@ == repo_url@,
        r@[2]@ == target_dir@,
{
    let mut v: Vec<String> = Vec::new();
    v.push("clone".to_owned());
    v.push(repo_url.clone());
    v.push(target_dir.clone());
    v
}

/// Arguments of the fetch invocation: `-C <dir> fetch`.
pub fn git_fetch_args(repo_path: &String) -> (r: Vec<String>)
    ensures
        r@.len() == 3,
        r@[0]@ == "-C"@,
        r@[1]@ == repo_path@,
        r@[2]@ == "fetch"@,
{
    let mut v: Vec<String> = Vec::new();
    v.push("-C".to_owned());
    v.push(repo_path.clone());
    v.push("fetch".to_owned());
    v
}

/// Arguments of the checkout invocation: `-C <dir> checkout <revision>`.
pub fn git_checkout_args(repo_path: &String, revision: &String) -> (r: Vec<String>)
    ensures
        r@.len() == 4,
        r@[0]@ == "-C"@,
        r@[1]@ == repo_path@,
        r@[2]@ == "checkout"@,
        r@[3]@ == revision@,
{
    let mut v: Vec<String> = Vec::new();
    v.push("-C".to_owned());
    v.push(repo_path.clone());
    v.push("checkout".to_owned());
    v.push(revision.clone());
    v
}

/// Arguments of the working-tree probe: `-C <dir> rev-parse
/// --is-inside-work-tree`; only its exit status is read.
pub fn git_probe_args(repo_path: &String) -> (r: Vec<String>)
    ensures
        r@.len() == 4,
        r@[0]@ == "-C"@,
        r@[1]@ == repo_path@,
        r@[2]@ == "rev-parse"@,
        r@[3]@ == "--is-inside-work-tree"@,
{
    let mut v: Vec<String> = Vec::new();
    v.push("-C".to_owned());
    v.push(repo_path.clone());
    v.push("rev-parse".to_owned());
    v.push("--is-inside-work-tree".to_owned());
    v
}

/// A version-control step that returned a non-zero status; no retry and no
/// fallback revision, per the error policy.
#[derive(Clone, Copy, Debug, PartialEq, Eq)]
pub struct VcsError {
    pub step: SyncAction,
}

/// Maps one step's exit status to the operation's result: a failing step
/// is fatal and names the step.
pub fn step_outcome(step: SyncAction, exit_ok: bool) -> (r: Result<(), VcsError>)
    ensures
        r is Ok <==> exit_ok,
        r matches Err(e) ==> e.step == step,
{
    if exit_ok {
        Result::Ok(())
    } else {
        Result::Err(VcsError { step })
    }
}

} // verus!
