//! The operations that the workflows are made of.
//!
//! A workflow never touches the repository or the disk. It hands its caller
//! a list of [`Step`]s; the caller performs them in order, stops at the
//! first that fails, and reports what it saw in an [`Observed`].

use crate::error::Failure;
use crate::structs::dotfile::{contents_differ, Dotfile};
use vstd::prelude::*;
use vstd::string::*;

verus! {

/// The author of every commit the workflows make.
pub const SIGNATURE_NAME: &'static str = "Jointhedots Sync";

/// The e-mail address of that author.
pub const SIGNATURE_EMAIL: &'static str = "jtd@danielobr.ie";

/// The message of a merge commit.
pub const MERGE_MESSAGE: &'static str = "Merge";

/// The remote that a sync pushes to.
pub const REMOTE_NAME: &'static str = "origin";

/// What is pushed, and where to.
pub const PUSH_REFSPEC: &'static str = "refs/heads/master:refs/heads/master";

/// The name and the e-mail address that the workflows sign their commits
/// with.
pub fn generate_signature() -> (signature: (&'static str, &'static str))
    ensures
        signature.0@ == SIGNATURE_NAME@,
        signature.1@ == SIGNATURE_EMAIL@,
{
    (SIGNATURE_NAME, SIGNATURE_EMAIL)
}

/// Something `HEAD` can be moved to.
#[derive(Debug)]
pub enum Revision {
    /// The commit with this hash.
    Commit(String),
    /// The tip of this branch.
    Branch(String),
    /// Whatever `HEAD` referred to before the first step of the list.
    Start,
}

/// A [`Revision`], as text.
pub enum RevisionView {
    Commit(Seq<char>),
    Branch(Seq<char>),
    Start,
}

impl View for Revision {
    type V = RevisionView;

    open spec fn view(&self) -> RevisionView {
        match self {
            Revision::Commit(hash) => RevisionView::Commit(hash@),
            Revision::Branch(name) => RevisionView::Branch(name@),
            Revision::Start => RevisionView::Start,
        }
    }
}

/// One operation on the disk or on the repository.
#[derive(Debug)]
pub enum Step {
    /// Look up the commit with this hash. Its absence means that the
    /// metadata is corrupt.
    Resolve { hash: String },
    /// Check the revision out into the working tree and move `HEAD` there.
    Checkout { target: Revision },
    /// Read the file at this local path and report it as `Observed::local`.
    ReadLocal { path: String },
    /// Read the file at this path of the working tree and report it as
    /// `Observed::recorded`.
    ReadRecorded { path: String },
    /// Copy the local file `from` over the file `to` of the working tree.
    CopyToRepo { from: String, to: String },
    /// Copy the file `from` of the working tree over the local file `to`,
    /// creating the directories above it.
    CopyToLocal { from: String, to: String },
    /// Run these shell commands in order, waiting for each.
    RunCommands { commands: Vec<String> },
    /// Create the branch at the commit with hash `at`, moving it if it is
    /// there already.
    Branch { name: String, at: String },
    /// Stage `file` (everything, where there is none) and commit it on top
    /// of `parent` (of `HEAD`, where there is none), moving `HEAD`'s branch
    /// to the new commit, which is reported as `Observed::commit`.
    Commit { file: Option<String>, message: String, parent: Option<String> },
    /// Merge the revision into what `HEAD` referred to at the start. The
    /// merge commit is reported as `Observed::commit`.
    Merge { theirs: Revision },
    /// Move the branch back to the first parent of the commit with this
    /// hash, keeping index and working tree.
    ResetSoft { to_parent_of: String },
    /// Look up the commit with this hash and add its time to
    /// `Observed::stamps`. A hash that names no commit is passed over.
    Stamp { hash: String },
    /// Push the branch to the remote.
    Push,
}

/// A [`Step`], as text.
pub enum StepView {
    Resolve { hash: Seq<char> },
    Checkout { target: RevisionView },
    ReadLocal { path: Seq<char> },
    ReadRecorded { path: Seq<char> },
    CopyToRepo { from: Seq<char>, to: Seq<char> },
    CopyToLocal { from: Seq<char>, to: Seq<char> },
    RunCommands { commands: Seq<Seq<char>> },
    Branch { name: Seq<char>, at: Seq<char> },
    Commit { file: Option<Seq<char>>, message: Seq<char>, parent: Option<Seq<char>> },
    Merge { theirs: RevisionView },
    ResetSoft { to_parent_of: Seq<char> },
    Stamp { hash: Seq<char> },
    Push,
}

/// The text of an optional string.
pub open spec fn optional_text(text: Option<String>) -> Option<Seq<char>> {
    match text {
        Some(text) => Some(text@),
        None => None,
    }
}

impl View for Step {
    type V = StepView;

    open spec fn view(&self) -> StepView {
        match self {
            Step::Resolve { hash } => StepView::Resolve { hash: hash@ },
            Step::Checkout { target } => StepView::Checkout { target: target@ },
            Step::ReadLocal { path } => StepView::ReadLocal { path: path@ },
            Step::ReadRecorded { path } => StepView::ReadRecorded { path: path@ },
            Step::CopyToRepo { from, to } => StepView::CopyToRepo { from: from@, to: to@ },
            Step::CopyToLocal { from, to } => StepView::CopyToLocal { from: from@, to: to@ },
            Step::RunCommands { commands } => StepView::RunCommands {
                commands: crate::text::texts(commands@),
            },
            Step::Branch { name, at } => StepView::Branch { name: name@, at: at@ },
            Step::Commit { file, message, parent } => StepView::Commit {
                file: optional_text(*file),
                message: message@,
                parent: optional_text(*parent),
            },
            Step::Merge { theirs } => StepView::Merge { theirs: theirs@ },
            Step::ResetSoft { to_parent_of } => StepView::ResetSoft { to_parent_of: to_parent_of@ },
            Step::Stamp { hash } => StepView::Stamp { hash: hash@ },
            Step::Push => StepView::Push,
        }
    }
}

/// A list of steps, as text.
pub open spec fn views(steps: Seq<Step>) -> Seq<StepView> {
    Seq::new(steps.len(), |i: int| steps[i]@)
}

/// Where `HEAD` is after the steps were performed.
pub open spec fn head_after(steps: Seq<StepView>) -> RevisionView
    decreases steps.len(),
{
    if steps.len() == 0 {
        RevisionView::Start
    } else {
        match steps.last() {
            StepView::Checkout { target } => target,
            _ => head_after(steps.drop_last()),
        }
    }
}

/// The steps leave `HEAD` where they found it.
pub open spec fn restores_head(steps: Seq<StepView>) -> bool {
    head_after(steps) is Start
}

/// How many of the steps create a commit.
pub open spec fn commits_made(steps: Seq<StepView>) -> nat
    decreases steps.len(),
{
    if steps.len() == 0 {
        0
    } else {
        let before = commits_made(steps.drop_last());
        match steps.last() {
            StepView::Commit { .. } => before + 1,
            StepView::Merge { .. } => before + 1,
            _ => before,
        }
    }
}

/// The step changes the repository: its history, its branches, its index,
/// its working tree or where `HEAD` points.
pub open spec fn mutates_repository(step: StepView) -> bool {
    !(step is Resolve || step is ReadLocal || step is ReadRecorded || step is CopyToLocal || step
        is RunCommands || step is Stamp)
}

/// Whether `HEAD` is away from where it started once the first `done` of
/// the steps were performed. The caller asks this when a step failed, and
/// checks [`Revision::Start`] out again where the answer is yes, so that a
/// failure leaves `HEAD` as it was.
pub fn displaced(steps: &[Step], done: usize) -> (away: bool)
    ensures
        away == !restores_head(
            views(steps@).take(
                if done <= steps@.len() {
                    done as int
                } else {
                    steps@.len() as int
                },
            ),
        ),
{
    let count = if done <= steps.len() {
        done
    } else {
        steps.len()
    };
    let ghost all = views(steps@);
    let mut i: usize = count;
    while i > 0
        invariant
            i <= count <= steps@.len(),
            count == if done <= steps@.len() {
                done
            } else {
                steps@.len() as usize
            },
            all == views(steps@),
            head_after(all.take(count as int)) == head_after(all.take(i as int)),
        decreases i,
    {
        i -= 1;
        proof {
            assert(all.take(i + 1).drop_last() == all.take(i as int));
            assert(all.take(i + 1).last() == steps@[i as int]@);
        }
        match &steps[i] {
            Step::Checkout { target } => {
                assert(head_after(all.take(i + 1)) == target@);
                return match target {
                    Revision::Start => false,
                    _ => true,
                };
            },
            _ => {},
        }
    }
    proof {
        assert(all.take(0).len() == 0);
    }
    false
}

/// What the caller saw while it performed a list of steps.
#[derive(Debug)]
pub struct Observed {
    /// The local copy of the dotfile, where a step read it.
    pub local: Option<Vec<u8>>,
    /// The copy in the working tree, where a step read it.
    pub recorded: Option<Vec<u8>>,
    /// The hash of the last commit that a step created.
    pub commit: Option<String>,
    /// The times of the commits that were looked up, in the order of the
    /// steps.
    pub stamps: Vec<CommitStamp>,
}

impl Observed {
    /// Nothing seen yet.
    pub fn new() -> (observed: Self)
        ensures
            observed.local is None,
            observed.recorded is None,
            observed.commit is None,
            observed.stamps@.len() == 0,
    {
        Observed { local: None, recorded: None, commit: None, stamps: Vec::new() }
    }

    /// Whether the local copy has to be taken as changed: the two copies
    /// that were read differ, or one of them was not read at all.
    pub open spec fn differs(&self) -> bool {
        match (self.local, self.recorded) {
            (Some(local), Some(recorded)) => contents_differ(local@, recorded@),
            _ => true,
        }
    }

    /// Whether the local copy has to be taken as changed.
    pub fn changed(&self) -> (changed: bool)
        ensures
            changed == self.differs(),
    {
        match (&self.local, &self.recorded) {
            (Some(local), Some(recorded)) => Dotfile::has_changed(
                local.as_slice(),
                recorded.as_slice(),
            ),
            _ => true,
        }
    }
}

/// When a commit was made.
#[derive(Debug)]
pub struct CommitStamp {
    /// The hash of the commit.
    pub hash: String,
    /// Seconds since the epoch.
    pub seconds: i64,
    /// The offset of the committer's time zone, in minutes.
    pub offset_minutes: i32,
}

/// `a` was made before `b`: by the seconds, and by the offset where the
/// seconds are the same.
pub open spec fn earlier(a: CommitStamp, b: CommitStamp) -> bool {
    a.seconds < b.seconds || (a.seconds == b.seconds && a.offset_minutes < b.offset_minutes)
}

/// `at` is the first of the earliest stamps.
pub open spec fn is_oldest(stamps: Seq<CommitStamp>, at: int) -> bool {
    &&& 0 <= at < stamps.len()
    &&& forall|j: int| 0 <= j < stamps.len() ==> !earlier(#[trigger] stamps[j], stamps[at])
    &&& forall|j: int| 0 <= j < at ==> earlier(stamps[at], #[trigger] stamps[j])
}

/// At most one index is that of the oldest commit.
pub proof fn lemma_oldest_unique(stamps: Seq<CommitStamp>, a: int, b: int)
    requires
        is_oldest(stamps, a),
        is_oldest(stamps, b),
    ensures
        a == b,
{
    if a < b {
        assert(earlier(stamps[b], stamps[a]));
        assert(!earlier(stamps[b], stamps[a]));
    } else if b < a {
        assert(earlier(stamps[a], stamps[b]));
        assert(!earlier(stamps[a], stamps[b]));
    }
}

/// The index of the oldest commit: the first of those with the earliest
/// time. The order of the list says nothing about the order of history, so
/// the times decide.
pub fn oldest(stamps: &[CommitStamp]) -> (found: Option<usize>)
    ensures
        match found {
            Some(at) => is_oldest(stamps@, at as int),
            None => stamps@.len() == 0,
        },
{
    if stamps.len() == 0 {
        return None;
    }
    let mut best: usize = 0;
    let mut i: usize = 1;
    while i < stamps.len()
        invariant
            1 <= i <= stamps@.len(),
            best < i,
            forall|j: int| 0 <= j < i ==> !earlier(#[trigger] stamps@[j], stamps@[best as int]),
            forall|j: int| 0 <= j < best ==> earlier(stamps@[best as int], #[trigger] stamps@[j]),
        decreases stamps@.len() - i,
    {
        let candidate = &stamps[i];
        let current = &stamps[best];
        if candidate.seconds < current.seconds || (candidate.seconds == current.seconds
            && candidate.offset_minutes < current.offset_minutes) {
            best = i;
        }
        i += 1;
    }
    Some(best)
}

/// How far a merge has come.
#[derive(Debug, Clone, Copy, PartialEq, Eq, Structural)]
pub enum MergeState {
    /// The merge was started and its index has not been looked at.
    Merging,
    /// The index held conflicts when it was last looked at.
    Conflicted,
    /// The index was free of conflicts: the merge can be committed.
    Resolved,
}

/// What the caller does next with a merge.
#[derive(Debug, Clone, Copy, PartialEq, Eq, Structural)]
pub enum MergeAction {
    /// Check the conflicted index out with conflict markers, tell the user
    /// how to resolve them, wait for the user, and look at the index again.
    Explain,
    /// Tell the user that conflicts are left, wait, and look again.
    Remind,
    /// Commit the merge with both tips as parents and clean up.
    Commit,
    /// Nothing: the merge was committed before.
    Nothing,
}

/// The state and the action that follow on a look at the index.
pub open spec fn merge_step(state: MergeState, conflicts: bool) -> (MergeState, MergeAction) {
    match state {
        MergeState::Resolved => (MergeState::Resolved, MergeAction::Nothing),
        MergeState::Merging => if conflicts {
            (MergeState::Conflicted, MergeAction::Explain)
        } else {
            (MergeState::Resolved, MergeAction::Commit)
        },
        MergeState::Conflicted => if conflicts {
            (MergeState::Conflicted, MergeAction::Remind)
        } else {
            (MergeState::Resolved, MergeAction::Commit)
        },
    }
}

/// The state after a series of looks at the index.
pub open spec fn merge_run(state: MergeState, looks: Seq<bool>) -> MergeState
    decreases looks.len(),
{
    if looks.len() == 0 {
        state
    } else {
        merge_step(merge_run(state, looks.drop_last()), looks.last()).0
    }
}

/// Advances a merge by one look at the index: `conflicts` tells whether it
/// holds conflicts. A merge is committed only on a look that found none,
/// and waits for the user as long as there are any.
pub fn normal_merge(state: MergeState, conflicts: bool) -> (next: (MergeState, MergeAction))
    ensures
        next == merge_step(state, conflicts),
        next.1 is Commit <==> !(state is Resolved) && !conflicts,
        next.0 is Resolved <==> state is Resolved || !conflicts,
{
    match state {
        MergeState::Resolved => (MergeState::Resolved, MergeAction::Nothing),
        MergeState::Merging => {
            if conflicts {
                (MergeState::Conflicted, MergeAction::Explain)
            } else {
                (MergeState::Resolved, MergeAction::Commit)
            }
        },
        MergeState::Conflicted => {
            if conflicts {
                (MergeState::Conflicted, MergeAction::Remind)
            } else {
                (MergeState::Resolved, MergeAction::Commit)
            }
        },
    }
}

/// Some look of the series found no conflict.
pub open spec fn some_look_clean(looks: Seq<bool>) -> bool {
    exists|i: int| 0 <= i < looks.len() && !looks[i]
}

/// A merge is resolved after a series of looks exactly if one of them found
/// no conflict: while every look finds conflicts, the merge stays
/// conflicted and is not committed.
pub proof fn lemma_merge_waits_for_resolution(looks: Seq<bool>)
    ensures
        merge_run(MergeState::Merging, looks) is Resolved <==> some_look_clean(looks),
        looks.len() > 0 && !some_look_clean(looks) ==> merge_run(MergeState::Merging, looks)
            is Conflicted,
    decreases looks.len(),
{
    if looks.len() > 0 {
        let front = looks.drop_last();
        let last = looks.len() - 1;
        lemma_merge_waits_for_resolution(front);
        if some_look_clean(front) {
            let i = choose|i: int| 0 <= i < front.len() && !front[i];
            assert(!looks[i]);
        }
        if !looks[last] {
            assert(some_look_clean(looks));
        }
        if some_look_clean(looks) && looks[last] {
            let i = choose|i: int| 0 <= i < looks.len() && !looks[i];
            assert(!front[i]);
        }
    }
}

/// How a line of a diff is shown.
#[derive(Debug, Clone, Copy, PartialEq, Eq, Structural)]
pub enum DiffStyle {
    Green,
    Red,
    Bold,
    Cyan,
    Plain,
}

/// The style for a diff line by its origin mark: additions green, removals
/// red, file headers bold, hunk headers cyan, the rest plain.
pub fn colorize_diff_line(origin: char) -> (style: DiffStyle)
    ensures
        style == if origin == '+' || origin == '>' {
            DiffStyle::Green
        } else if origin == '-' || origin == '<' {
            DiffStyle::Red
        } else if origin == 'F' {
            DiffStyle::Bold
        } else if origin == 'H' {
            DiffStyle::Cyan
        } else {
            DiffStyle::Plain
        },
{
    if origin == '+' || origin == '>' {
        DiffStyle::Green
    } else if origin == '-' || origin == '<' {
        DiffStyle::Red
    } else if origin == 'F' {
        DiffStyle::Bold
    } else if origin == 'H' {
        DiffStyle::Cyan
    } else {
        DiffStyle::Plain
    }
}

impl Step {
    /// The failure to report when this step could not be performed for the
    /// dotfile `dotfile`, with the backend's own words in `reason`: a commit
    /// that cannot be found is corrupt metadata, a merge that cannot be made
    /// and a command that cannot be run are failures of their own, and all
    /// else is the backend's.
    pub fn failure(&self, dotfile: &str, reason: String) -> (failure: Failure)
        ensures
            match self@ {
                StepView::Resolve { hash } => failure matches Failure::CorruptMetadata {
                    dotfile: d,
                    hash: h,
                } && d@ == dotfile@ && h@ == hash,
                StepView::Merge { .. } => failure matches Failure::MergeFailed { reason: r } && r@
                    == reason@,
                StepView::RunCommands { .. } => failure matches Failure::HookExecutionFailure {
                    dotfile: d,
                    reason: r,
                } && d@ == dotfile@ && r@ == reason@,
                _ => failure matches Failure::Backend { reason: r } && r@ == reason@,
            },
    {
        match self {
            Step::Resolve { hash } => Failure::CorruptMetadata {
                dotfile: String::from_str(dotfile),
                hash: hash.clone(),
            },
            Step::Merge { .. } => Failure::MergeFailed { reason },
            Step::RunCommands { .. } => Failure::HookExecutionFailure {
                dotfile: String::from_str(dotfile),
                reason,
            },
            _ => Failure::Backend { reason },
        }
    }
}

/// The first of two optional texts that is there.
pub open spec fn first_text(kept: Option<String>, given: Option<String>) -> Option<Seq<char>> {
    match kept {
        Some(kept) => Some(kept@),
        None => optional_text(given),
    }
}

/// Answers the backend's questions for credentials during one clone or
/// push. The backend may ask many times; the user is asked once for each
/// thing, and the answer is kept for the rest of the operation.
#[derive(Debug)]
pub struct CredentialUIDialoguer {
    /// The user name, once it is known.
    pub username: Option<String>,
    /// The password or passphrase, once it is known.
    pub secret: Option<String>,
}

impl CredentialUIDialoguer {
    /// Nothing known yet.
    pub fn new() -> (ui: Self)
        ensures
            ui.username is None,
            ui.secret is None,
    {
        CredentialUIDialoguer { username: None, secret: None }
    }

    /// Whether the user has to be asked for the user name.
    pub fn needs_username(&self) -> (needed: bool)
        ensures
            needed == (self.username is None),
    {
        self.username.is_none()
    }

    /// Whether the user has to be asked for the password or passphrase.
    pub fn needs_secret(&self) -> (needed: bool)
        ensures
            needed == (self.secret is None),
    {
        self.secret.is_none()
    }

    /// The user name and password to hand to the backend. `username` and
    /// `password` are what the user just answered, for what had to be
    /// asked. What is known already is used and the answer passed over;
    /// what was not known is learned from the answer and kept. Nothing is
    /// handed out while either is missing.
    pub fn ask_user_password(&mut self, username: Option<String>, password: Option<String>) -> (
        credentials: Option<(String, String)>)
        ensures
            optional_text(final(self).username) == first_text(old(self).username, username),
            optional_text(final(self).secret) == first_text(old(self).secret, password),
            match credentials {
                Some((user, secret)) => {
                    &&& first_text(old(self).username, username) == Some(user@)
                    &&& first_text(old(self).secret, password) == Some(secret@)
                },
                None => first_text(old(self).username, username) is None || first_text(
                    old(self).secret,
                    password,
                ) is None,
            },
    {
        if self.username.is_none() {
            self.username = username;
        }
        if self.secret.is_none() {
            self.secret = password;
        }
        match (&self.username, &self.secret) {
            (Some(user), Some(secret)) => Some((user.clone(), secret.clone())),
            _ => None,
        }
    }

    /// The passphrase of an SSH key to hand to the backend. It is kept in
    /// the place of the password: what is known there is used.
    pub fn ask_ssh_passphrase(&mut self, passphrase: Option<String>) -> (secret: Option<String>)
        ensures
            optional_text(final(self).secret) == first_text(old(self).secret, passphrase),
            optional_text(secret) == first_text(old(self).secret, passphrase),
            final(self).username == old(self).username,
    {
        if self.secret.is_none() {
            self.secret = passphrase;
        }
        match &self.secret {
            Some(secret) => Some(secret.clone()),
            None => None,
        }
    }
}

} // verus!
