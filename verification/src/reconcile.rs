//! The symlink-reconciliation state machine. Given what stands at the link
//! location and the canonical path of the desired target, it decides, in
//! order: create the missing parent directory first; leave a link that
//! already resolves to the target alone; remove a link that resolves
//! elsewhere; rename anything else out of the way to a backup name; and
//! finally create the link. The filesystem work itself is carried out by the
//! caller, step by step, as the plan says.

use vstd::prelude::*;

verus! {

/// What stands at the link location, as observed before reconciling.
pub enum LinkStatus {
    /// Nothing exists there.
    Missing,
    /// A symlink whose full resolution succeeded; `resolved` is the
    /// canonical absolute path it resolves to.
    Symlink { resolved: String },
    /// Something else: a regular file, a directory, or a symlink whose
    /// resolution failed (a broken link).
    Other,
}

/// What to do at the link location.
#[derive(Clone, Copy, PartialEq, Eq, Structural, Debug)]
pub enum LinkAction {
    /// The link already resolves to the target: touch nothing.
    KeepLink,
    /// Remove the stale link entry (never its target), then create the link.
    ReplaceLink,
    /// Rename the conflicting entry to a backup name, then create the link.
    BackupThenLink,
    /// Nothing is in the way: create the link.
    CreateLink,
}

/// The whole decision: whether the parent directory must be created first,
/// and what to do at the link location itself.
#[derive(Clone, Copy, PartialEq, Eq, Structural, Debug)]
pub struct ReconcilePlan {
    /// Create the link's parent directory, with its missing ancestors,
    /// before anything else.
    pub create_parent: bool,
    pub action: LinkAction,
}

/// The link location's state with the path it shows reduced to characters.
pub enum LinkModel {
    Missing,
    SymlinkTo(Seq<char>),
    Other,
}

/// What an observed status says, as a model state.
pub open spec fn status_model(s: LinkStatus) -> LinkModel {
    match s {
        LinkStatus::Missing => LinkModel::Missing,
        LinkStatus::Symlink { resolved } => LinkModel::SymlinkTo(resolved@),
        LinkStatus::Other => LinkModel::Other,
    }
}

/// The action taken at a link location in state `m` when the link should
/// resolve to `target`.
pub open spec fn plan_model(m: LinkModel, target: Seq<char>) -> LinkAction {
    match m {
        LinkModel::Missing => LinkAction::CreateLink,
        LinkModel::SymlinkTo(resolved) => if resolved == target {
            LinkAction::KeepLink
        } else {
            LinkAction::ReplaceLink
        },
        LinkModel::Other => LinkAction::BackupThenLink,
    }
}

/// The link location's state after the action is carried out against an
/// existing `target`: every action but `KeepLink` ends with a fresh link to
/// `target`, and `KeepLink` touches nothing.
pub open spec fn model_after(m: LinkModel, target: Seq<char>, a: LinkAction) -> LinkModel {
    match a {
        LinkAction::KeepLink => m,
        LinkAction::ReplaceLink => LinkModel::SymlinkTo(target),
        LinkAction::BackupThenLink => LinkModel::SymlinkTo(target),
        LinkAction::CreateLink => LinkModel::SymlinkTo(target),
    }
}

/// Decides how to reconcile the link location with the target.
/// `status` is what stands at the link location, `canonical_target` the
/// canonical absolute path the link should resolve to, and `parent_exists`
/// whether the link's parent directory exists.
pub fn plan_reconcile(status: &LinkStatus, canonical_target: &String, parent_exists: bool) -> (p:
    ReconcilePlan)
    ensures
        p.create_parent == !parent_exists,
        p.action == plan_model(status_model(*status), canonical_target@),
{
    let action = match status {
        LinkStatus::Missing => LinkAction::CreateLink,
        LinkStatus::Symlink { resolved } => {
            if resolved.eq(canonical_target) {
                LinkAction::KeepLink
            } else {
                LinkAction::ReplaceLink
            }
        },
        LinkStatus::Other => LinkAction::BackupThenLink,
    };
    ReconcilePlan { create_parent: !parent_exists, action }
}

/// A link that already resolves to the canonical target is left alone:
/// reconciling it plans no filesystem mutation at all.
pub proof fn lemma_correct_link_untouched(target: Seq<char>)
    ensures
        plan_model(LinkModel::SymlinkTo(target), target) == LinkAction::KeepLink,
        model_after(LinkModel::SymlinkTo(target), target, LinkAction::KeepLink)
            == LinkModel::SymlinkTo(target),
{
}

/// A non-symlink occupant is displaced by a rename, never removed.
pub proof fn lemma_occupant_backed_up(target: Seq<char>)
    ensures
        plan_model(LinkModel::Other, target) == LinkAction::BackupThenLink,
{
}

/// A stale link is replaced by removing only the link entry; nothing is
/// renamed to a backup name on that path.
pub proof fn lemma_stale_link_replaced(resolved: Seq<char>, target: Seq<char>)
    requires
        resolved != target,
    ensures
        plan_model(LinkModel::SymlinkTo(resolved), target) == LinkAction::ReplaceLink,
{
}

/// Reconciliation is idempotent: whatever stood at the link location, one
/// carried-out plan leaves a link resolving to the target, and planning
/// again from that state decides to touch nothing.
pub proof fn lemma_reconcile_idempotent(m: LinkModel, target: Seq<char>)
    ensures
        model_after(m, target, plan_model(m, target)) == LinkModel::SymlinkTo(target),
        plan_model(model_after(m, target, plan_model(m, target)), target) == LinkAction::KeepLink,
{
}

/// The filesystem facts that one run reads and changes, as a model: whether
/// the repository root exists and is a git repository, whether the day's
/// directory exists, and what stands at the link location.
pub struct RunState {
    pub repo_exists: bool,
    pub is_git_repo: bool,
    pub date_dir_exists: bool,
    pub link: LinkModel,
}

/// What one full run leaves behind when every step succeeds: the repository
/// root exists and is git-initialized, the day's directory exists, and the
/// link resolves to `target`, the canonical path of that directory.
pub open spec fn run_model(s: RunState, target: Seq<char>) -> RunState {
    RunState {
        repo_exists: true,
        is_git_repo: true,
        date_dir_exists: true,
        link: model_after(s.link, target, plan_model(s.link, target)),
    }
}

/// Running the full sequence twice on the same calendar day leaves exactly
/// the state of one run, and the second run plans no link mutation at all:
/// nothing is removed, renamed or created again.
pub proof fn lemma_run_idempotent(s: RunState, target: Seq<char>)
    ensures
        run_model(run_model(s, target), target) == run_model(s, target),
        plan_model(run_model(s, target).link, target) == LinkAction::KeepLink,
{
    lemma_reconcile_idempotent(s.link, target);
}

} // verus!
