//! One dotfile: where it lives in the repository, where it belongs on this
//! machine, and what has to run around its installation.

use crate::error::Failure;
use crate::git::operations::{
    commits_made, head_after, mutates_repository, restores_head, views, Observed, Revision,
    RevisionView, Step, StepView,
};
use crate::structs::config::{commit_message, Config};
use crate::structs::metadata::{DotfileMetadata, MetadataView};
use crate::text::{copy_strings, same_bytes, same_text, texts};
use crate::utils::{command_hash, hash_command_vec, sha1, sha1_digest};
use vstd::prelude::*;
use vstd::string::*;

verus! {

/// A dotfile, as texts.
pub struct DotfileView {
    pub file: Seq<char>,
    pub target: Seq<char>,
    pub pre_install: Option<Seq<Seq<char>>>,
    pub post_install: Option<Seq<Seq<char>>>,
}

/// A single named unit of configuration.
#[derive(Debug)]
pub struct Dotfile {
    /// The path of the file inside the repository.
    pub file: String,
    /// The path of the file on this machine. A leading `~` stands for the
    /// home directory.
    pub target: String,
    /// Shell commands to run before the file is installed.
    pub pre_install: Option<Vec<String>>,
    /// Shell commands to run after the file is installed.
    pub post_install: Option<Vec<String>>,
}

/// The commands of a stage, as texts.
pub open spec fn stage_texts(stage: Option<Vec<String>>) -> Option<Seq<Seq<char>>> {
    match stage {
        Some(commands) => Some(texts(commands@)),
        None => None,
    }
}

impl View for Dotfile {
    type V = DotfileView;

    open spec fn view(&self) -> DotfileView {
        DotfileView {
            file: self.file@,
            target: self.target@,
            pre_install: stage_texts(self.pre_install),
            post_install: stage_texts(self.post_install),
        }
    }
}

/// The hash of a stage: that of its commands, and nothing for a stage that
/// is absent.
pub open spec fn stage_hash(stage: Option<Seq<Seq<char>>>) -> Seq<char> {
    match stage {
        Some(commands) => command_hash(commands),
        None => Seq::empty(),
    }
}

/// The stage holds at least one command.
pub open spec fn has_commands(stage: Option<Seq<Seq<char>>>) -> bool {
    stage is Some && stage->0.len() > 0
}

/// The dotfile has commands that this machine has not run: a stage with
/// commands whose hash is not the recorded one, or any stage with commands
/// where nothing is recorded.
pub open spec fn unexecuted(dotfile: DotfileView, metadata: Option<MetadataView>) -> bool {
    match metadata {
        Some(metadata) => (has_commands(dotfile.pre_install) && metadata.pre_install_hash
            != stage_hash(dotfile.pre_install)) || (has_commands(dotfile.post_install)
            && metadata.post_install_hash != stage_hash(dotfile.post_install)),
        None => has_commands(dotfile.pre_install) || has_commands(dotfile.post_install),
    }
}

/// An install runs the stage: hooks are not skipped, the stage is there,
/// and its hash is not the one recorded by an earlier install.
pub open spec fn stage_runs(
    stage: Option<Seq<Seq<char>>>,
    recorded: Option<Seq<char>>,
    skip: bool,
) -> bool {
    !skip && stage is Some && !(recorded is Some && recorded->0 == stage_hash(stage))
}

/// The hash an install records for the stage: that of the commands it ran,
/// and nothing where it ran none.
pub open spec fn hash_recorded(
    stage: Option<Seq<Seq<char>>>,
    recorded: Option<Seq<char>>,
    skip: bool,
) -> Seq<char> {
    if stage_runs(stage, recorded, skip) {
        stage_hash(stage)
    } else {
        Seq::empty()
    }
}

/// The step that runs the stage, where an install runs it.
pub open spec fn stage_steps(
    stage: Option<Seq<Seq<char>>>,
    recorded: Option<Seq<char>>,
    skip: bool,
) -> Seq<StepView> {
    if stage_runs(stage, recorded, skip) {
        seq![StepView::RunCommands { commands: stage->0 }]
    } else {
        Seq::empty()
    }
}

/// The recorded pre-install hash, where there is a record.
pub open spec fn recorded_pre(metadata: Option<MetadataView>) -> Option<Seq<char>> {
    match metadata {
        Some(metadata) => Some(metadata.pre_install_hash),
        None => None,
    }
}

/// The recorded post-install hash, where there is a record.
pub open spec fn recorded_post(metadata: Option<MetadataView>) -> Option<Seq<char>> {
    match metadata {
        Some(metadata) => Some(metadata.post_install_hash),
        None => None,
    }
}

/// The steps of an install: the pre-install commands where they run, the
/// copy onto this machine, the post-install commands where they run.
pub open spec fn install_steps(
    dotfile: DotfileView,
    metadata: Option<MetadataView>,
    skip: bool,
) -> Seq<StepView> {
    stage_steps(dotfile.pre_install, recorded_pre(metadata), skip) + seq![
        StepView::CopyToLocal { from: dotfile.file, to: dotfile.target },
    ] + stage_steps(dotfile.post_install, recorded_post(metadata), skip)
}

/// The record that an install from the commit `head` leaves.
pub open spec fn installed_metadata(
    dotfile: DotfileView,
    metadata: Option<MetadataView>,
    head: Seq<char>,
    skip: bool,
) -> MetadataView {
    MetadataView {
        install_hash: head,
        sync_hash: head,
        pre_install_hash: hash_recorded(dotfile.pre_install, recorded_pre(metadata), skip),
        post_install_hash: hash_recorded(dotfile.post_install, recorded_post(metadata), skip),
    }
}

/// An install is refused: there is a record, the install is not forced,
/// and the local copy is not known to be what was last synced.
pub open spec fn install_refused(recorded: bool, force: bool, differs: bool) -> bool {
    recorded && !force && differs
}

/// The steps that find out whether the local copy changed since the commit
/// `sync_hash`: read the local copy, make sure that the commit exists,
/// check it out, read the copy in the working tree, and check out what was
/// there before.
pub open spec fn probe_steps(dotfile: DotfileView, sync_hash: Seq<char>) -> Seq<StepView> {
    seq![
        StepView::ReadLocal { path: dotfile.target },
        StepView::Resolve { hash: sync_hash },
        StepView::Checkout { target: RevisionView::Commit(sync_hash) },
        StepView::ReadRecorded { path: dotfile.file },
        StepView::Checkout { target: RevisionView::Start },
    ]
}

/// Whether two copies of a file differ, judged by their SHA-1 digests.
pub open spec fn contents_differ(local: Seq<u8>, recorded: Seq<u8>) -> bool {
    sha1_digest(local) != sha1_digest(recorded)
}

/// The name of the branch on which the local copy of a dotfile is
/// committed before it is merged.
pub open spec fn merge_branch(name: Seq<char>) -> Seq<char> {
    "merge-"@ + name + "-dotfile"@
}

/// The steps of a first sync: copy the local file into the working tree
/// and commit it on top of `HEAD`.
pub open spec fn first_sync_steps(dotfile: DotfileView, message: Seq<char>) -> Seq<StepView> {
    seq![
        StepView::CopyToRepo { from: dotfile.target, to: dotfile.file },
        StepView::Commit { file: Some(dotfile.file), message: message, parent: None },
    ]
}

/// The steps of a sync of local edits: go back to the commit `parent` that
/// the edits were made on, copy the local file there, commit it on a branch
/// of its own, return, and merge that branch.
pub open spec fn merge_steps(
    dotfile: DotfileView,
    name: Seq<char>,
    message: Seq<char>,
    parent: Seq<char>,
) -> Seq<StepView> {
    seq![
        StepView::Resolve { hash: parent },
        StepView::Checkout { target: RevisionView::Commit(parent) },
        StepView::CopyToRepo { from: dotfile.target, to: dotfile.file },
        StepView::Branch { name: merge_branch(name), at: parent },
        StepView::Checkout { target: RevisionView::Branch(merge_branch(name)) },
        StepView::Commit { file: Some(dotfile.file), message: message, parent: Some(parent) },
        StepView::Checkout { target: RevisionView::Start },
        StepView::Merge { theirs: RevisionView::Branch(merge_branch(name)) },
    ]
}

/// What an install does and what it records.
#[derive(Debug)]
pub struct InstallPlan {
    /// The steps to perform, in order.
    pub steps: Vec<Step>,
    /// The record to keep once all steps succeeded.
    pub metadata: DotfileMetadata,
}

/// What a sync of one dotfile does.
#[derive(Debug)]
pub enum SyncPlan {
    /// Nothing: the local copy is what was last synced, and the record
    /// stays as it is.
    UpToDate { metadata: DotfileMetadata },
    /// Perform the steps. They end in a commit, and the record then names
    /// that commit and keeps these hook hashes.
    Commit { steps: Vec<Step>, pre_install_hash: String, post_install_hash: String },
}

/// A [`SyncPlan`], as text.
pub enum SyncPlanView {
    UpToDate { metadata: MetadataView },
    Commit { steps: Seq<StepView>, pre_install_hash: Seq<char>, post_install_hash: Seq<char> },
}

impl SyncPlanView {
    /// The steps of the plan.
    pub open spec fn steps(self) -> Seq<StepView> {
        match self {
            SyncPlanView::UpToDate { .. } => Seq::empty(),
            SyncPlanView::Commit { steps, .. } => steps,
        }
    }

    /// The record after the plan was carried out and ended in `commit`.
    pub open spec fn recorded(self, commit: Seq<char>) -> MetadataView {
        match self {
            SyncPlanView::UpToDate { metadata } => metadata,
            SyncPlanView::Commit { pre_install_hash, post_install_hash, .. } => MetadataView {
                install_hash: commit,
                sync_hash: commit,
                pre_install_hash,
                post_install_hash,
            },
        }
    }
}

impl View for SyncPlan {
    type V = SyncPlanView;

    open spec fn view(&self) -> SyncPlanView {
        match self {
            SyncPlan::UpToDate { metadata } => SyncPlanView::UpToDate { metadata: metadata@ },
            SyncPlan::Commit { steps, pre_install_hash, post_install_hash } => SyncPlanView::Commit {
                steps: views(steps@),
                pre_install_hash: pre_install_hash@,
                post_install_hash: post_install_hash@,
            },
        }
    }
}

/// The plan of a sync of the dotfile called `name`, with commit messages
/// under `prefix`.
///
/// Without a record this is a first sync. With a record and a local copy
/// that is what was last synced there is nothing to do. Otherwise the local
/// edits are committed on the commit the dotfile was installed from and
/// merged.
pub open spec fn sync_plan(
    dotfile: DotfileView,
    name: Seq<char>,
    prefix: Seq<char>,
    metadata: Option<MetadataView>,
    differs: bool,
) -> SyncPlanView {
    let message = commit_message(prefix, seq![name]);
    match metadata {
        None => SyncPlanView::Commit {
            steps: first_sync_steps(dotfile, message),
            pre_install_hash: stage_hash(dotfile.pre_install),
            post_install_hash: stage_hash(dotfile.post_install),
        },
        Some(metadata) => if differs {
            SyncPlanView::Commit {
                steps: merge_steps(dotfile, name, message, metadata.install_hash),
                pre_install_hash: metadata.pre_install_hash,
                post_install_hash: metadata.post_install_hash,
            }
        } else {
            SyncPlanView::UpToDate { metadata }
        },
    }
}

impl SyncPlan {
    /// The record of the dotfile once the steps were performed and ended
    /// in the commit `commit`. A plan without steps keeps its record
    /// whatever `commit` is.
    pub fn finish(self, commit: &str) -> (metadata: DotfileMetadata)
        ensures
            metadata@ == self@.recorded(commit@),
    {
        match self {
            SyncPlan::UpToDate { metadata } => metadata,
            SyncPlan::Commit { pre_install_hash, post_install_hash, .. } => DotfileMetadata::new(
                commit,
                commit,
                pre_install_hash,
                post_install_hash,
            ),
        }
    }
}

/// The view of an optional record.
pub open spec fn optional_view(metadata: Option<DotfileMetadata>) -> Option<MetadataView> {
    match metadata {
        Some(metadata) => Some(metadata@),
        None => None,
    }
}

/// The view of an optional borrowed record.
pub open spec fn optional_ref_view(metadata: Option<&DotfileMetadata>) -> Option<MetadataView> {
    match metadata {
        Some(metadata) => Some(metadata@),
        None => None,
    }
}

/// The hash of an optional command list.
fn hash_stage(stage: &Option<Vec<String>>) -> (hash: String)
    ensures
        hash@ == stage_hash(stage_texts(*stage)),
        hash@.len() == if stage is Some {
            40nat
        } else {
            0nat
        },
{
    match stage {
        Some(commands) => hash_command_vec(commands.as_slice()),
        None => String::new(),
    }
}

/// The step that runs a stage during an install, where it runs, and the
/// hash that the install records for it.
fn plan_stage(stage: &Option<Vec<String>>, recorded: Option<&String>, skip: bool) -> (planned: (
    Option<Step>,
    String,
))
    ensures
        planned.1@ == hash_recorded(
            stage_texts(*stage),
            match recorded {
                Some(hash) => Some(hash@),
                None => None,
            },
            skip,
        ),
        match planned.0 {
            Some(step) => seq![step@],
            None => Seq::<StepView>::empty(),
        } == stage_steps(
            stage_texts(*stage),
            match recorded {
                Some(hash) => Some(hash@),
                None => None,
            },
            skip,
        ),
{
    if skip {
        return (None, String::new());
    }
    match stage {
        None => (None, String::new()),
        Some(commands) => {
            let hash = hash_command_vec(commands.as_slice());
            let seen = match recorded {
                Some(before) => same_text(before.as_str(), hash.as_str()),
                None => false,
            };
            if seen {
                (None, String::new())
            } else {
                (Some(Step::RunCommands { commands: copy_strings(commands.as_slice()) }), hash)
            }
        },
    }
}

impl Dotfile {
    /// The hash of the pre-install commands: forty digits, or nothing at
    /// all where there is no such stage.
    pub fn hash_pre_install(&self) -> (hash: String)
        ensures
            hash@ == stage_hash(self@.pre_install),
            hash@.len() == if self@.pre_install is Some {
                40nat
            } else {
                0nat
            },
    {
        hash_stage(&self.pre_install)
    }

    /// The hash of the post-install commands: forty digits, or nothing at
    /// all where there is no such stage.
    pub fn hash_post_install(&self) -> (hash: String)
        ensures
            hash@ == stage_hash(self@.post_install),
            hash@.len() == if self@.post_install is Some {
                40nat
            } else {
                0nat
            },
    {
        hash_stage(&self.post_install)
    }

    /// Whether this dotfile has a pre-install or a post-install stage.
    pub fn has_run_stages(&self) -> (has: bool)
        ensures
            has == (self@.pre_install is Some || self@.post_install is Some),
    {
        self.pre_install.is_some() || self.post_install.is_some()
    }

    /// Whether this dotfile has commands that this machine has not run yet.
    pub fn has_unexecuted_run_stages(&self, maybe_metadata: &Option<&DotfileMetadata>) -> (has:
        bool)
        ensures
            has == unexecuted(self@, optional_ref_view(*maybe_metadata)),
    {
        let pre = match &self.pre_install {
            Some(commands) => commands.len() > 0,
            None => false,
        };
        let post = match &self.post_install {
            Some(commands) => commands.len() > 0,
            None => false,
        };
        match maybe_metadata {
            Some(metadata) => {
                (pre && !same_text(
                    metadata.pre_install_hash.as_str(),
                    self.hash_pre_install().as_str(),
                )) || (post && !same_text(
                    metadata.post_install_hash.as_str(),
                    self.hash_post_install().as_str(),
                ))
            },
            None => pre || post,
        }
    }

    /// What an install does about the pre-install stage: the step that runs
    /// it, unless hooks are skipped or the same commands ran in an earlier
    /// install, and the hash to record.
    pub fn run_pre_install(&self, metadata: &Option<DotfileMetadata>, skip: bool) -> (planned: (
        Option<Step>,
        String,
    ))
        ensures
            planned.1@ == hash_recorded(
                self@.pre_install,
                recorded_pre(optional_view(*metadata)),
                skip,
            ),
            match planned.0 {
                Some(step) => seq![step@],
                None => Seq::<StepView>::empty(),
            } == stage_steps(self@.pre_install, recorded_pre(optional_view(*metadata)), skip),
    {
        let recorded = match metadata {
            Some(metadata) => Some(&metadata.pre_install_hash),
            None => None,
        };
        plan_stage(&self.pre_install, recorded, skip)
    }

    /// What an install does about the post-install stage.
    pub fn run_post_install(&self, metadata: &Option<DotfileMetadata>, skip: bool) -> (planned: (
        Option<Step>,
        String,
    ))
        ensures
            planned.1@ == hash_recorded(
                self@.post_install,
                recorded_post(optional_view(*metadata)),
                skip,
            ),
            match planned.0 {
                Some(step) => seq![step@],
                None => Seq::<StepView>::empty(),
            } == stage_steps(self@.post_install, recorded_post(optional_view(*metadata)), skip),
    {
        let recorded = match metadata {
            Some(metadata) => Some(&metadata.post_install_hash),
            None => None,
        };
        plan_stage(&self.post_install, recorded, skip)
    }

    /// The step that copies this dotfile from the working tree onto this
    /// machine.
    pub fn install_dotfile(&self) -> (step: Step)
        ensures
            step@ == (StepView::CopyToLocal { from: self@.file, to: self@.target }),
    {
        Step::CopyToLocal { from: self.file.clone(), to: self.target.clone() }
    }

    /// Whether two copies of a file differ, judged by their SHA-1 digests.
    /// Equal copies never differ.
    pub fn has_changed(local: &[u8], recorded: &[u8]) -> (changed: bool)
        ensures
            changed == contents_differ(local@, recorded@),
            local@ == recorded@ ==> !changed,
    {
        let here = sha1(local);
        let there = sha1(recorded);
        !same_bytes(here.as_slice(), there.as_slice())
    }

    /// The steps that find out whether the local copy of this dotfile
    /// changed since the sync recorded in `metadata`. What they read is to be
    /// handed to [`Dotfile::install`] or [`Dotfile::sync`].
    pub fn probe(&self, metadata: &DotfileMetadata) -> (steps: Vec<Step>)
        ensures
            views(steps@) == probe_steps(self@, metadata@.sync_hash),
    {
        let mut steps: Vec<Step> = Vec::new();
        steps.push(Step::ReadLocal { path: self.target.clone() });
        steps.push(Step::Resolve { hash: metadata.sync_hash.clone() });
        steps.push(Step::Checkout { target: Revision::Commit(metadata.sync_hash.clone()) });
        steps.push(Step::ReadRecorded { path: self.file.clone() });
        steps.push(Step::Checkout { target: Revision::Start });
        assert(views(steps@) =~= probe_steps(self@, metadata@.sync_hash));
        steps
    }

    /// The steps to perform before [`Dotfile::install`] is asked: those of
    /// [`Dotfile::probe`] where there is a record and the install is not
    /// forced, and none otherwise.
    pub fn install_probe(&self, maybe_metadata: &Option<DotfileMetadata>, force: bool) -> (steps:
        Vec<Step>)
        ensures
            views(steps@) == match *maybe_metadata {
                Some(metadata) if !force => probe_steps(self@, metadata@.sync_hash),
                _ => Seq::<StepView>::empty(),
            },
    {
        match maybe_metadata {
            Some(metadata) if !force => self.probe(metadata),
            _ => {
                let steps: Vec<Step> = Vec::new();
                assert(views(steps@) =~= Seq::<StepView>::empty());
                steps
            },
        }
    }

    /// Plans the install of this dotfile, called `dotfile_name`, from the
    /// commit `commit_hash` that `HEAD` is at.
    ///
    /// The install is refused where a record exists, `force` is off and the
    /// local copy differs from what was last synced (`observed` holds what
    /// the steps of [`Dotfile::install_probe`] read): it never overwrites
    /// local edits that were not synced. A refusal plans no step at all.
    pub fn install(
        &self,
        dotfile_name: &str,
        commit_hash: &str,
        maybe_metadata: Option<DotfileMetadata>,
        skip_install_steps: bool,
        force: bool,
        observed: &Observed,
    ) -> (plan: Result<InstallPlan, Failure>)
        ensures
            plan is Err <==> install_refused(maybe_metadata is Some, force, observed.differs()),
            match plan {
                Err(failure) => failure matches Failure::LocalChangesConflict { dotfile }
                    && dotfile@ == dotfile_name@,
                Ok(plan) => {
                    &&& views(plan.steps@) == install_steps(
                        self@,
                        optional_view(maybe_metadata),
                        skip_install_steps,
                    )
                    &&& plan.metadata@ == installed_metadata(
                        self@,
                        optional_view(maybe_metadata),
                        commit_hash@,
                        skip_install_steps,
                    )
                },
            },
    {
        if !force && maybe_metadata.is_some() && observed.changed() {
            return Err(Failure::LocalChangesConflict { dotfile: String::from_str(dotfile_name) });
        }
        let (pre_step, pre_install_hash) = self.run_pre_install(
            &maybe_metadata,
            skip_install_steps,
        );
        let (post_step, post_install_hash) = self.run_post_install(
            &maybe_metadata,
            skip_install_steps,
        );
        let mut steps: Vec<Step> = Vec::new();
        match pre_step {
            Some(step) => {
                steps.push(step);
            },
            None => {},
        }
        steps.push(self.install_dotfile());
        match post_step {
            Some(step) => {
                steps.push(step);
            },
            None => {},
        }
        assert(views(steps@) =~= install_steps(
            self@,
            optional_view(maybe_metadata),
            skip_install_steps,
        ));
        Ok(
            InstallPlan {
                steps,
                metadata: DotfileMetadata::new(
                    commit_hash,
                    commit_hash,
                    pre_install_hash,
                    post_install_hash,
                ),
            },
        )
    }

    /// The steps to perform before [`Dotfile::sync`] is asked: those of
    /// [`Dotfile::probe`] where there is a record, and none otherwise.
    pub fn sync_probe(&self, metadata: Option<&DotfileMetadata>) -> (steps: Vec<Step>)
        ensures
            views(steps@) == match metadata {
                Some(metadata) => probe_steps(self@, metadata@.sync_hash),
                None => Seq::<StepView>::empty(),
            },
    {
        match metadata {
            Some(metadata) => self.probe(metadata),
            None => {
                let steps: Vec<Step> = Vec::new();
                assert(views(steps@) =~= Seq::<StepView>::empty());
                steps
            },
        }
    }

    /// Plans the sync of this dotfile, called `dotfile_name`, back into the
    /// repository. `observed` holds what the steps of
    /// [`Dotfile::sync_probe`] read.
    pub fn sync(
        &self,
        dotfile_name: &str,
        config: &Config,
        metadata: Option<&DotfileMetadata>,
        observed: &Observed,
    ) -> (plan: SyncPlan)
        ensures
            plan@ == sync_plan(
                self@,
                dotfile_name@,
                config.commit_prefix@,
                optional_ref_view(metadata),
                observed.differs(),
            ),
    {
        let mut names: Vec<&str> = Vec::new();
        names.push(dotfile_name);
        assert(crate::text::slice_texts(names@) =~= seq![dotfile_name@]);
        match metadata {
            None => {
                let message = config.generate_commit_message(names);
                let mut steps: Vec<Step> = Vec::new();
                steps.push(Step::CopyToRepo { from: self.target.clone(), to: self.file.clone() });
                steps.push(
                    Step::Commit { file: Some(self.file.clone()), message, parent: None },
                );
                assert(views(steps@) =~= first_sync_steps(
                    self@,
                    commit_message(config.commit_prefix@, seq![dotfile_name@]),
                ));
                SyncPlan::Commit {
                    steps,
                    pre_install_hash: self.hash_pre_install(),
                    post_install_hash: self.hash_post_install(),
                }
            },
            Some(metadata) => {
                if observed.changed() {
                    let message = config.generate_commit_message(names);
                    let mut branch = String::from_str("merge-");
                    branch.append(dotfile_name);
                    branch.append("-dotfile");
                    let mut steps: Vec<Step> = Vec::new();
                    steps.push(Step::Resolve { hash: metadata.install_hash.clone() });
                    steps.push(
                        Step::Checkout { target: Revision::Commit(metadata.install_hash.clone()) },
                    );
                    steps.push(
                        Step::CopyToRepo { from: self.target.clone(), to: self.file.clone() },
                    );
                    steps.push(
                        Step::Branch { name: branch.clone(), at: metadata.install_hash.clone() },
                    );
                    steps.push(Step::Checkout { target: Revision::Branch(branch.clone()) });
                    steps.push(
                        Step::Commit {
                            file: Some(self.file.clone()),
                            message,
                            parent: Some(metadata.install_hash.clone()),
                        },
                    );
                    steps.push(Step::Checkout { target: Revision::Start });
                    steps.push(Step::Merge { theirs: Revision::Branch(branch) });
                    assert(views(steps@) =~= merge_steps(
                        self@,
                        dotfile_name@,
                        commit_message(config.commit_prefix@, seq![dotfile_name@]),
                        metadata@.install_hash,
                    ));
                    SyncPlan::Commit {
                        steps,
                        pre_install_hash: metadata.pre_install_hash.clone(),
                        post_install_hash: metadata.post_install_hash.clone(),
                    }
                } else {
                    SyncPlan::UpToDate { metadata: metadata.clone() }
                }
            },
        }
    }
}

/// A first sync makes one commit and no other: the local file is copied
/// and committed, `HEAD` is never moved away, and the record then names
/// that one commit both as installed and as synced.
pub proof fn lemma_first_sync_commits_once(
    dotfile: DotfileView,
    name: Seq<char>,
    prefix: Seq<char>,
    differs: bool,
    commit: Seq<char>,
)
    ensures
        ({
            let plan = sync_plan(dotfile, name, prefix, None, differs);
            &&& commits_made(plan.steps()) == 1
            &&& restores_head(plan.steps())
            &&& plan.recorded(commit).install_hash == commit
            &&& plan.recorded(commit).sync_hash == commit
        }),
{
    let steps = sync_plan(dotfile, name, prefix, None, differs).steps();
    reveal_with_fuel(commits_made, 3);
    reveal_with_fuel(head_after, 3);
    assert(steps.drop_last().drop_last().len() == 0);
}

/// Where the digest of the local copy is that of the copy last synced, a
/// sync has no step at all, so it changes nothing in the repository, and
/// the record stays as it was. Finding that out creates no commit and
/// leaves `HEAD` where it was.
pub proof fn lemma_unchanged_sync_is_idle(
    dotfile: DotfileView,
    name: Seq<char>,
    prefix: Seq<char>,
    metadata: MetadataView,
    local: Seq<u8>,
    recorded: Seq<u8>,
    commit: Seq<char>,
)
    ensures
        sha1_digest(local) == sha1_digest(recorded) ==> ({
            let plan = sync_plan(
                dotfile,
                name,
                prefix,
                Some(metadata),
                contents_differ(local, recorded),
            );
            &&& plan.steps().len() == 0
            &&& plan.recorded(commit) == metadata
        }),
        commits_made(probe_steps(dotfile, metadata.sync_hash)) == 0,
        restores_head(probe_steps(dotfile, metadata.sync_hash)),
{
    let probe = probe_steps(dotfile, metadata.sync_hash);
    reveal_with_fuel(commits_made, 6);
    reveal_with_fuel(head_after, 2);
    assert(probe.drop_last().drop_last().drop_last().drop_last().drop_last().len() == 0);
}

/// A sync of local edits never copies them over what the repository holds
/// now. The local file is copied in while `HEAD` is at the commit the
/// dotfile was installed from, it is committed there, and the last step is
/// the merge of that commit. After it `HEAD` is back at what it referred to
/// before the first step. On the way two commits are made, that of the
/// edits and that of the merge.
pub proof fn lemma_merge_sync_returns(
    dotfile: DotfileView,
    name: Seq<char>,
    message: Seq<char>,
    parent: Seq<char>,
)
    ensures
        restores_head(merge_steps(dotfile, name, message, parent)),
        commits_made(merge_steps(dotfile, name, message, parent)) == 2,
        merge_steps(dotfile, name, message, parent)[2] is CopyToRepo,
        head_after(merge_steps(dotfile, name, message, parent).take(2)) == RevisionView::Commit(
            parent,
        ),
        merge_steps(dotfile, name, message, parent).last() is Merge,
{
    let steps = merge_steps(dotfile, name, message, parent);
    reveal_with_fuel(commits_made, 9);
    reveal_with_fuel(head_after, 3);
    let s7 = steps.drop_last();
    let s6 = s7.drop_last();
    let s5 = s6.drop_last();
    let s4 = s5.drop_last();
    let s3 = s4.drop_last();
    let s2 = s3.drop_last();
    let s1 = s2.drop_last();
    assert(s1.drop_last().len() == 0);
    let first = steps.take(2);
    assert(first.last() == steps[1]);
}

/// An install followed at once by a look for local changes finds none.
/// The install copies the repository's file to the target and records the
/// commit it copied from; the look reads that target and that file at that
/// commit; and two copies with the same bytes never count as changed.
pub proof fn lemma_install_then_unchanged(
    dotfile: DotfileView,
    metadata: Option<MetadataView>,
    head: Seq<char>,
    skip: bool,
    contents: Seq<u8>,
)
    ensures
        install_steps(dotfile, metadata, skip).contains(
            StepView::CopyToLocal { from: dotfile.file, to: dotfile.target },
        ),
        probe_steps(dotfile, installed_metadata(dotfile, metadata, head, skip).sync_hash) == seq![
            StepView::ReadLocal { path: dotfile.target },
            StepView::Resolve { hash: head },
            StepView::Checkout { target: RevisionView::Commit(head) },
            StepView::ReadRecorded { path: dotfile.file },
            StepView::Checkout { target: RevisionView::Start },
        ],
        !contents_differ(contents, contents),
{
    let steps = install_steps(dotfile, metadata, skip);
    let before = stage_steps(dotfile.pre_install, recorded_pre(metadata), skip);
    assert(steps[before.len() as int] == (StepView::CopyToLocal {
        from: dotfile.file,
        to: dotfile.target,
    }));
}

/// A refused install has no step, and an install that is not refused
/// touches the repository with none of its steps: it runs commands and
/// copies one file onto this machine.
pub proof fn lemma_install_leaves_repository(
    dotfile: DotfileView,
    metadata: Option<MetadataView>,
    skip: bool,
)
    ensures
        forall|i: int|
            0 <= i < install_steps(dotfile, metadata, skip).len() ==> !mutates_repository(
                #[trigger] install_steps(dotfile, metadata, skip)[i],
            ),
{
}

} // verus!
