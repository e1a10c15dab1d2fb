//! The manifest: every dotfile of a repository by name, and the sync
//! policy. It is parsed once and never changed.

use crate::error::Failure;
use crate::git::operations::{
    commits_made, head_after, is_oldest, oldest, restores_head, views, CommitStamp, Observed,
    Step, StepView,
};
use crate::structs::config::{commit_message, Config};
use crate::structs::dotfile::{
    install_refused, install_steps, installed_metadata, optional_view, probe_steps, sync_plan,
    unexecuted, Dotfile, InstallPlan, SyncPlan,
};
use crate::structs::metadata::{AggregatedDotfileMetadata, DotfileMetadata, MetadataView};
use crate::table::{
    distinct_names, has_name, lemma_position_unique, lookup, names_of, position_of, upsert, Table,
};
use crate::text::{
    index_list_has, list_has, picked_has, slice_list_has, slice_texts, texts,
};
use vstd::prelude::*;
use vstd::string::*;

verus! {

/// Whether the row `index`, called `name`, is selected: every row where
/// `all` is set; else the rows named in `wanted`, where any are named; else
/// the rows whose index was picked by hand.
pub open spec fn is_target(
    name: Seq<char>,
    index: int,
    wanted: Seq<Seq<char>>,
    all: bool,
    picked: Seq<usize>,
) -> bool {
    if all {
        true
    } else if wanted.len() > 0 {
        wanted.contains(name)
    } else {
        picked_has(picked, index)
    }
}

/// The selected rows among the first `upto`, in the order of the manifest.
pub open spec fn targets_below<V>(
    rows: Seq<(Seq<char>, V)>,
    wanted: Seq<Seq<char>>,
    all: bool,
    picked: Seq<usize>,
    upto: int,
) -> Seq<(Seq<char>, V)>
    decreases upto,
{
    if upto <= 0 {
        Seq::empty()
    } else {
        let before = targets_below(rows, wanted, all, picked, upto - 1);
        if is_target(rows[upto - 1].0, upto - 1, wanted, all, picked) {
            before.push(rows[upto - 1])
        } else {
            before
        }
    }
}

/// The selected rows, in the order of the manifest. A wanted name that the
/// manifest does not hold selects nothing.
pub open spec fn targets_of<V>(
    rows: Seq<(Seq<char>, V)>,
    wanted: Seq<Seq<char>>,
    all: bool,
    picked: Seq<usize>,
) -> Seq<(Seq<char>, V)> {
    targets_below(rows, wanted, all, picked, rows.len() as int)
}

/// Where all dotfiles are asked for, all are selected, whatever else is
/// named or picked. In any case every selected row is a row of the
/// manifest that [`is_target`] selects, and the rows come in the order of
/// the manifest.
pub proof fn lemma_targets_are_rows<V>(
    rows: Seq<(Seq<char>, V)>,
    wanted: Seq<Seq<char>>,
    all: bool,
    picked: Seq<usize>,
    upto: int,
)
    requires
        0 <= upto <= rows.len(),
    ensures
        all ==> targets_below(rows, wanted, all, picked, upto) == rows.take(upto),
        targets_below(rows, wanted, all, picked, upto).len() <= upto,
        forall|k: int|
            0 <= k < targets_below(rows, wanted, all, picked, upto).len() ==> exists|i: int|
                0 <= i < upto && is_target(rows[i].0, i, wanted, all, picked) && #[trigger] rows[i]
                    == #[trigger] targets_below(rows, wanted, all, picked, upto)[k],
    decreases upto,
{
    if upto > 0 {
        lemma_targets_are_rows(rows, wanted, all, picked, upto - 1);
        let before = targets_below(rows, wanted, all, picked, upto - 1);
        let now = targets_below(rows, wanted, all, picked, upto);
        if all {
            assert(rows.take(upto) =~= rows.take(upto - 1).push(rows[upto - 1]));
        }
        assert forall|k: int| 0 <= k < now.len() implies exists|i: int|
            0 <= i < upto && is_target(rows[i].0, i, wanted, all, picked) && #[trigger] rows[i]
                == #[trigger] now[k] by {
            if k < before.len() {
                let i = choose|i: int|
                    0 <= i < upto - 1 && is_target(rows[i].0, i, wanted, all, picked)
                        && #[trigger] rows[i] == #[trigger] before[k];
                assert(rows[i] == now[k]);
            } else {
                assert(rows[upto - 1] == now[k]);
            }
        }
    } else {
        assert(rows.take(0) =~= Seq::<(Seq<char>, V)>::empty());
    }
}

/// The rows that a list of borrowed entries stands for.
pub open spec fn borrowed_rows(targets: Seq<(&String, &Dotfile)>) -> Seq<(Seq<char>, Dotfile)> {
    Seq::new(targets.len(), |i: int| (targets[i].0@, *targets[i].1))
}

/// Whether a name is among those asked about; no list asks about all.
pub open spec fn asked_about(name: Seq<char>, names: Option<Seq<Seq<char>>>) -> bool {
    match names {
        Some(names) => names.contains(name),
        None => true,
    }
}

/// The texts of an optional list of names.
pub open spec fn optional_names(names: Option<Vec<&str>>) -> Option<Seq<Seq<char>>> {
    match names {
        Some(names) => Some(slice_texts(names@)),
        None => None,
    }
}

/// Some dotfile that is asked about has a pre-install or post-install
/// stage.
pub open spec fn any_run_stages(
    rows: Seq<(Seq<char>, Dotfile)>,
    names: Option<Seq<Seq<char>>>,
) -> bool {
    exists|i: int|
        0 <= i < rows.len() && asked_about((#[trigger] rows[i]).0, names) && (rows[i].1@.pre_install
            is Some || rows[i].1@.post_install is Some)
}

/// Some dotfile that is asked about has commands that this machine has not
/// run, going by the records in `store`.
pub open spec fn any_unexecuted(
    rows: Seq<(Seq<char>, Dotfile)>,
    names: Option<Seq<Seq<char>>>,
    store: Seq<(Seq<char>, DotfileMetadata)>,
) -> bool {
    exists|i: int|
        0 <= i < rows.len() && asked_about((#[trigger] rows[i]).0, names) && unexecuted(
            rows[i].1@,
            optional_view(lookup(store, rows[i].0)),
        )
}

/// All dotfiles of a repository, by name, with the sync policy.
#[derive(Debug)]
pub struct Manifest {
    config: Config,
    data: Table<Dotfile>,
}

impl Manifest {
    /// The dotfiles by name, in the order of the manifest.
    pub closed spec fn rows(&self) -> Seq<(Seq<char>, Dotfile)> {
        self.data.rows()
    }

    /// The prefix of generated commit messages.
    pub closed spec fn prefix(&self) -> Seq<char> {
        self.config.commit_prefix@
    }

    /// Whether the commits of a sync are squashed.
    pub closed spec fn squashes(&self) -> bool {
        self.config.squash_commits
    }

    /// A manifest of the given dotfiles under the given policy.
    pub fn new(config: Config, data: Table<Dotfile>) -> (manifest: Self)
        ensures
            manifest.rows() == data.rows(),
            manifest.prefix() == config.commit_prefix@,
            manifest.squashes() == config.squash_commits,
    {
        Manifest { config, data }
    }

    /// The manifest as it was found in the repository under the name
    /// `file`. `read` is `None` where the file could not be opened, and
    /// holds the parser's complaint where it could not be parsed. Either
    /// way no dotfile is worked on.
    pub fn get(read: Option<Result<Manifest, String>>, file: &str) -> (found: Result<
        Manifest,
        Failure,
    >)
        ensures
            match read {
                Some(Ok(manifest)) => found == Ok::<Manifest, Failure>(manifest),
                Some(Err(complaint)) => found matches Err(
                    Failure::ManifestUnreadable { file: named, complaint: Some(kept) },
                ) && named@ == file@ && kept@ == complaint@,
                None => found matches Err(
                    Failure::ManifestUnreadable { file: named, complaint: None },
                ) && named@ == file@,
            },
    {
        match read {
            Some(Ok(manifest)) => Ok(manifest),
            Some(Err(complaint)) => Err(
                Failure::ManifestUnreadable {
                    file: String::from_str(file),
                    complaint: Some(complaint),
                },
            ),
            None => Err(
                Failure::ManifestUnreadable { file: String::from_str(file), complaint: None },
            ),
        }
    }

    /// The sync policy.
    pub fn config(&self) -> (config: &Config)
        ensures
            config.commit_prefix@ == self.prefix(),
            config.squash_commits == self.squashes(),
    {
        &self.config
    }

    /// The dotfiles by name.
    pub fn data(&self) -> (data: &Table<Dotfile>)
        ensures
            data.rows() == self.rows(),
    {
        &self.data
    }

    /// Whether the user has to pick the dotfiles by hand: not all are
    /// asked for, and none is named.
    pub fn needs_selection(target_dotfiles: &[String], all: bool) -> (needed: bool)
        ensures
            needed == (!all && target_dotfiles@.len() == 0),
    {
        !all && target_dotfiles.len() == 0
    }

    /// The dotfiles that a workflow works on, in the order of the manifest:
    /// every one where `all` is set; else those named in
    /// `target_dotfiles`, where any are named; else those whose index is in
    /// `picked`, the user's own selection. Names that the manifest does not
    /// hold are passed over.
    pub fn get_target_dotfiles(
        &self,
        target_dotfiles: Vec<String>,
        all: bool,
        picked: &[usize],
    ) -> (targets: Vec<(&String, &Dotfile)>)
        ensures
            borrowed_rows(targets@) == targets_of(
                self.rows(),
                texts(target_dotfiles@),
                all,
                picked@,
            ),
    {
        let mut targets: Vec<(&String, &Dotfile)> = Vec::new();
        let count = self.data.len();
        let mut i: usize = 0;
        while i < count
            invariant
                i <= count,
                count == self.rows().len(),
                borrowed_rows(targets@) == targets_below(
                    self.rows(),
                    texts(target_dotfiles@),
                    all,
                    picked@,
                    i as int,
                ),
            decreases count - i,
        {
            match self.data.entry(i) {
                Some((name, dotfile)) => {
                    let selected = if all {
                        true
                    } else if target_dotfiles.len() > 0 {
                        list_has(target_dotfiles.as_slice(), name.as_str())
                    } else {
                        index_list_has(picked, i)
                    };
                    if selected {
                        let ghost before = borrowed_rows(targets@);
                        targets.push((name, dotfile));
                        assert(borrowed_rows(targets@) =~= before.push((name@, *dotfile)));
                    }
                },
                None => {},
            }
            i += 1;
        }
        targets
    }

    /// Whether some dotfile named in `dotfile_names` (any dotfile, where
    /// there is no list) has a pre-install or post-install stage.
    pub fn has_run_stages(&self, dotfile_names: Option<Vec<&str>>) -> (has: bool)
        ensures
            has == any_run_stages(self.rows(), optional_names(dotfile_names)),
    {
        let count = self.data.len();
        let mut i: usize = 0;
        while i < count
            invariant
                i <= count,
                count == self.rows().len(),
                forall|j: int|
                    0 <= j < i ==> !(asked_about(
                        (#[trigger] self.rows()[j]).0,
                        optional_names(dotfile_names),
                    ) && (self.rows()[j].1@.pre_install is Some || self.rows()[j].1@.post_install
                        is Some)),
            decreases count - i,
        {
            match self.data.entry(i) {
                Some((name, dotfile)) => {
                    let asked = match &dotfile_names {
                        Some(names) => slice_list_has(names.as_slice(), name.as_str()),
                        None => true,
                    };
                    if asked && dotfile.has_run_stages() {
                        assert(asked_about(self.rows()[i as int].0, optional_names(dotfile_names)));
                        return true;
                    }
                },
                None => {},
            }
            i += 1;
        }
        false
    }

    /// Whether some dotfile named in `dotfile_names` (any dotfile, where
    /// there is no list) has commands that this machine has not run yet,
    /// going by `metadata`.
    pub fn has_unexecuted_run_stages(
        &self,
        dotfile_names: Option<Vec<&str>>,
        metadata: &AggregatedDotfileMetadata,
    ) -> (has: bool)
        ensures
            has == any_unexecuted(
                self.rows(),
                optional_names(dotfile_names),
                metadata.data.rows(),
            ),
    {
        let count = self.data.len();
        let mut i: usize = 0;
        while i < count
            invariant
                i <= count,
                count == self.rows().len(),
                forall|j: int|
                    0 <= j < i ==> !(asked_about(
                        (#[trigger] self.rows()[j]).0,
                        optional_names(dotfile_names),
                    ) && unexecuted(
                        self.rows()[j].1@,
                        optional_view(lookup(metadata.data.rows(), self.rows()[j].0)),
                    )),
            decreases count - i,
        {
            match self.data.entry(i) {
                Some((name, dotfile)) => {
                    let asked = match &dotfile_names {
                        Some(names) => slice_list_has(names.as_slice(), name.as_str()),
                        None => true,
                    };
                    if asked {
                        let record = metadata.data.get(name.as_str());
                        if dotfile.has_unexecuted_run_stages(&record) {
                            assert(asked_about(
                                self.rows()[i as int].0,
                                optional_names(dotfile_names),
                            ));
                            return true;
                        }
                    }
                },
                None => {},
            }
            i += 1;
        }
        false
    }

    /// The dotfile called `target_dotfile`, for a diff against the
    /// repository.
    pub fn diff(&self, target_dotfile: &str) -> (found: Result<&Dotfile, Failure>)
        ensures
            match found {
                Ok(dotfile) => lookup(self.rows(), target_dotfile@) == Some(*dotfile),
                Err(failure) => {
                    &&& lookup(self.rows(), target_dotfile@) is None
                    &&& failure matches Failure::UnknownDotfile { name } && name@
                        == target_dotfile@
                },
            },
    {
        match self.data.get(target_dotfile) {
            Some(dotfile) => Ok(dotfile),
            None => Err(Failure::UnknownDotfile { name: String::from_str(target_dotfile) }),
        }
    }
}

/// The names of borrowed entries, borrowed in turn.
fn names_borrowed<'a>(targets: &Vec<(&'a String, &'a Dotfile)>) -> (names: Vec<&'a str>)
    ensures
        slice_texts(names@) == names_of(borrowed_rows(targets@)),
{
    let mut names: Vec<&'a str> = Vec::new();
    let mut i: usize = 0;
    while i < targets.len()
        invariant
            i <= targets@.len(),
            names@.len() == i,
            forall|j: int| 0 <= j < i ==> names@[j]@ == targets@[j].0@,
        decreases targets@.len() - i,
    {
        names.push(targets[i].0.as_str());
        i += 1;
    }
    assert(slice_texts(names@) =~= names_of(borrowed_rows(targets@)));
    names
}

/// An install under way: the records, and what was settled at its start.
#[derive(Debug)]
pub struct InstallRun {
    /// The records, to be saved when the run is over, whether or not every
    /// dotfile was installed.
    pub store: AggregatedDotfileMetadata,
    /// Whether the user has to be asked if the hooks may run: no blanket
    /// trust was given, and a selected dotfile has commands that have not
    /// run on this machine.
    pub ask_to_skip_hooks: bool,
    /// Whether existing files and local edits are overwritten unasked.
    pub force: bool,
}

impl InstallRun {
    /// Whether the user has to agree before the dotfile is installed: its
    /// target is there already and the run is not forced. A dotfile that
    /// the user declines is passed over.
    pub fn needs_confirmation(&self, exists: bool) -> (needed: bool)
        ensures
            needed == (exists && !self.force),
    {
        exists && !self.force
    }

    /// The steps to perform before [`InstallRun::plan`] is asked about the
    /// dotfile called `name`.
    pub fn probe(&self, name: &str, dotfile: &Dotfile) -> (steps: Vec<Step>)
        ensures
            views(steps@) == match lookup(self.store.data.rows(), name@) {
                Some(metadata) if !self.force => probe_steps(dotfile@, metadata@.sync_hash),
                _ => Seq::<StepView>::empty(),
            },
    {
        match self.store.data.get(name) {
            Some(metadata) if !self.force => dotfile.probe(metadata),
            _ => {
                let steps: Vec<Step> = Vec::new();
                assert(views(steps@) =~= Seq::<StepView>::empty());
                steps
            },
        }
    }

    /// Plans the install of the dotfile called `name` from the commit
    /// `commit_hash`, against the record the store holds for it. See
    /// [`Dotfile::install`].
    pub fn plan(
        &self,
        name: &str,
        dotfile: &Dotfile,
        commit_hash: &str,
        skip_install_steps: bool,
        observed: &Observed,
    ) -> (plan: Result<InstallPlan, Failure>)
        ensures
            plan is Err <==> install_refused(
                lookup(self.store.data.rows(), name@) is Some,
                self.force,
                observed.differs(),
            ),
            match plan {
                Err(failure) => failure matches Failure::LocalChangesConflict { dotfile: refused }
                    && refused@ == name@,
                Ok(plan) => {
                    &&& views(plan.steps@) == install_steps(
                        dotfile@,
                        optional_view(lookup(self.store.data.rows(), name@)),
                        skip_install_steps,
                    )
                    &&& plan.metadata@ == installed_metadata(
                        dotfile@,
                        optional_view(lookup(self.store.data.rows(), name@)),
                        commit_hash@,
                        skip_install_steps,
                    )
                },
            },
    {
        let record = match self.store.data.get(name) {
            Some(metadata) => Some(metadata.clone()),
            None => None,
        };
        dotfile.install(name, commit_hash, record, skip_install_steps, self.force, observed)
    }

    /// Keeps the record of an install that went through.
    pub fn record(&mut self, name: &str, metadata: DotfileMetadata)
        ensures
            final(self).store.data.rows() == upsert(old(self).store.data.rows(), name@, metadata),
            lookup(final(self).store.data.rows(), name@) == Some(metadata),
            final(self).ask_to_skip_hooks == old(self).ask_to_skip_hooks,
            final(self).force == old(self).force,
    {
        self.store.data.insert(String::from_str(name), metadata);
    }

    /// The records to save.
    pub fn finish(self) -> (store: AggregatedDotfileMetadata)
        ensures
            store == self.store,
    {
        self.store
    }
}

/// The message of the commit that a squash leaves: the caller's own, or
/// the generated one for the dotfiles that were synced.
pub open spec fn squash_message(
    custom: Option<Seq<char>>,
    prefix: Seq<char>,
    names: Seq<Seq<char>>,
) -> Seq<char> {
    match custom {
        Some(message) => message,
        None => commit_message(prefix, names),
    }
}

/// The steps of a squash onto the parent of the commit with hash `oldest`:
/// move the branch back there, keeping the files, and commit everything at
/// once.
pub open spec fn squash_steps(oldest: Seq<char>, message: Seq<char>) -> Seq<StepView> {
    seq![
        StepView::ResetSoft { to_parent_of: oldest },
        StepView::Commit { file: None, message: message, parent: None },
    ]
}

/// A squash leaves one commit, made of everything that is staged, and
/// moves `HEAD` nowhere else.
pub proof fn lemma_squash_commits_once(oldest: Seq<char>, message: Seq<char>)
    ensures
        commits_made(squash_steps(oldest, message)) == 1,
        restores_head(squash_steps(oldest, message)),
        squash_steps(oldest, message).last() == (StepView::Commit {
            file: None,
            message: message,
            parent: None,
        }),
{
    let steps = squash_steps(oldest, message);
    reveal_with_fuel(commits_made, 3);
    reveal_with_fuel(head_after, 3);
    assert(steps.drop_last().drop_last().len() == 0);
}

/// A record made to name `commit` as the commit it was installed from and
/// synced in.
pub open spec fn repointed(metadata: MetadataView, commit: Seq<char>) -> MetadataView {
    MetadataView {
        install_hash: commit,
        sync_hash: commit,
        pre_install_hash: metadata.pre_install_hash,
        post_install_hash: metadata.post_install_hash,
    }
}

/// A sync under way.
#[derive(Debug)]
pub struct SyncRun {
    /// The records, to be saved when the run is over.
    pub store: AggregatedDotfileMetadata,
    /// The sync policy of the manifest.
    pub config: Config,
    /// The commit message that the caller asked for, if any.
    pub message: Option<String>,
    /// Whether every dotfile of the manifest was asked for.
    pub sync_all: bool,
    /// The names of the dotfiles synced so far, in order.
    pub names: Vec<String>,
    /// The commit that each of them is recorded at, in the same order.
    pub commits: Vec<String>,
}

impl SyncRun {
    /// The steps to perform before [`SyncRun::plan`] is asked about the
    /// dotfile called `name`.
    pub fn probe(&self, name: &str, dotfile: &Dotfile) -> (steps: Vec<Step>)
        ensures
            views(steps@) == match lookup(self.store.data.rows(), name@) {
                Some(metadata) => probe_steps(dotfile@, metadata@.sync_hash),
                None => Seq::<StepView>::empty(),
            },
    {
        dotfile.sync_probe(self.store.data.get(name))
    }

    /// Plans the sync of the dotfile called `name`, against the record the
    /// store holds for it. See [`Dotfile::sync`].
    pub fn plan(&self, name: &str, dotfile: &Dotfile, observed: &Observed) -> (plan: SyncPlan)
        ensures
            plan@ == sync_plan(
                dotfile@,
                name@,
                self.config.commit_prefix@,
                optional_view(lookup(self.store.data.rows(), name@)),
                observed.differs(),
            ),
    {
        dotfile.sync(name, &self.config, self.store.data.get(name), observed)
    }

    /// Keeps the outcome of the sync of the dotfile called `name`: its
    /// record, and the commit it is recorded at. `commit` is the commit
    /// that the plan's steps ended in; for a plan without steps it is not
    /// looked at.
    pub fn record(&mut self, name: &str, plan: SyncPlan, commit: &str)
        ensures
            lookup(final(self).store.data.rows(), name@) is Some,
            lookup(final(self).store.data.rows(), name@)->0@ == plan@.recorded(commit@),
            forall|other: Seq<char>|
                other != name@ ==> lookup(final(self).store.data.rows(), other) == lookup(
                    old(self).store.data.rows(),
                    other,
                ),
            texts(final(self).names@) == texts(old(self).names@).push(name@),
            texts(final(self).commits@) == texts(old(self).commits@).push(
                plan@.recorded(commit@).sync_hash,
            ),
            final(self).config == old(self).config,
            final(self).message == old(self).message,
            final(self).sync_all == old(self).sync_all,
    {
        let metadata = plan.finish(commit);
        let ghost names = texts(self.names@);
        let ghost commits = texts(self.commits@);
        self.commits.push(metadata.sync_hash.clone());
        self.names.push(String::from_str(name));
        self.store.data.insert(String::from_str(name), metadata);
        assert(texts(self.names@) =~= names.push(name@));
        assert(texts(self.commits@) =~= commits.push(plan@.recorded(commit@).sync_hash));
    }

    /// The steps that look up the times of the recorded commits, where the
    /// policy is to squash, and none otherwise.
    pub fn stamp_steps(&self) -> (steps: Vec<Step>)
        ensures
            views(steps@) == if self.config.squash_commits {
                Seq::new(
                    self.commits@.len(),
                    |i: int| StepView::Stamp { hash: self.commits@[i]@ },
                )
            } else {
                Seq::<StepView>::empty()
            },
    {
        let mut steps: Vec<Step> = Vec::new();
        if self.config.squash_commits {
            let mut i: usize = 0;
            while i < self.commits.len()
                invariant
                    i <= self.commits@.len(),
                    steps@.len() == i,
                    forall|j: int|
                        0 <= j < i ==> steps@[j]@ == (StepView::Stamp { hash: self.commits@[j]@ }),
                decreases self.commits@.len() - i,
            {
                steps.push(Step::Stamp { hash: self.commits[i].clone() });
                i += 1;
            }
            assert(views(steps@) =~= Seq::new(
                self.commits@.len(),
                |i: int| StepView::Stamp { hash: self.commits@[i]@ },
            ));
        } else {
            assert(views(steps@) =~= Seq::<StepView>::empty());
        }
        steps
    }

    /// The steps of the squash, given the times of the commits that could
    /// be looked up: none where the policy is not to squash or no commit
    /// was found; else a move back to the parent of the oldest commit and
    /// one commit of everything.
    pub fn squash(&self, stamps: &[CommitStamp]) -> (steps: Vec<Step>)
        ensures
            !self.config.squash_commits || stamps@.len() == 0 ==> views(steps@)
                == Seq::<StepView>::empty(),
            self.config.squash_commits && stamps@.len() > 0 ==> exists|at: int|
                #![trigger stamps@[at]]
                is_oldest(stamps@, at) && views(steps@) == squash_steps(
                    stamps@[at].hash@,
                    squash_message(
                        crate::git::operations::optional_text(self.message),
                        self.config.commit_prefix@,
                        texts(self.names@),
                    ),
                ),
    {
        let mut steps: Vec<Step> = Vec::new();
        if !self.config.squash_commits {
            assert(views(steps@) =~= Seq::<StepView>::empty());
            return steps;
        }
        match oldest(stamps) {
            None => {
                assert(views(steps@) =~= Seq::<StepView>::empty());
            },
            Some(at) => {
                let message = match &self.message {
                    Some(message) => message.clone(),
                    None => {
                        let names = borrow_all(&self.names);
                        self.config.generate_commit_message(names)
                    },
                };
                steps.push(Step::ResetSoft { to_parent_of: stamps[at].hash.clone() });
                steps.push(Step::Commit { file: None, message, parent: None });
                assert(views(steps@) =~= squash_steps(
                    stamps@[at as int].hash@,
                    squash_message(
                        crate::git::operations::optional_text(self.message),
                        self.config.commit_prefix@,
                        texts(self.names@),
                    ),
                ));
            },
        }
        steps
    }

    /// Makes the records of the dotfiles synced in this run name the commit
    /// `commit` that the squash left. A record of any other name stays as
    /// it is, whether or not all dotfiles of the manifest were asked for.
    pub fn squashed(&mut self, commit: &str)
        ensures
            names_of(final(self).store.data.rows()) == names_of(old(self).store.data.rows()),
            forall|i: int|
                0 <= i < old(self).store.data.rows().len() ==> (
                #[trigger] final(self).store.data.rows()[i]).1@ == if texts(
                    old(self).names@,
                ).contains(old(self).store.data.rows()[i].0) {
                    repointed(old(self).store.data.rows()[i].1@, commit@)
                } else {
                    old(self).store.data.rows()[i].1@
                },
            forall|name: Seq<char>|
                !texts(old(self).names@).contains(name) ==> #[trigger] lookup(
                    final(self).store.data.rows(),
                    name,
                ) == lookup(old(self).store.data.rows(), name),
            forall|name: Seq<char>|
                optional_view(#[trigger] lookup(final(self).store.data.rows(), name)) == match lookup(
                    old(self).store.data.rows(),
                    name,
                ) {
                    Some(metadata) => Some(
                        if texts(old(self).names@).contains(name) {
                            repointed(metadata@, commit@)
                        } else {
                            metadata@
                        },
                    ),
                    None => None,
                },
            final(self).config == old(self).config,
            final(self).message == old(self).message,
            final(self).sync_all == old(self).sync_all,
            final(self).names == old(self).names,
            final(self).commits == old(self).commits,
    {
        let ghost before = self.store.data.rows();
        let count = self.store.data.len();
        let mut i: usize = 0;
        while i < count
            invariant
                i <= count,
                count == before.len(),
                distinct_names(before),
                self.store.data.rows().len() == before.len(),
                names_of(self.store.data.rows()) == names_of(before),
                forall|j: int|
                    0 <= j < i ==> (#[trigger] self.store.data.rows()[j]).1@ == if texts(
                        self.names@,
                    ).contains(before[j].0) {
                        repointed(before[j].1@, commit@)
                    } else {
                        before[j].1@
                    },
                forall|j: int|
                    0 <= j < count && (i <= j || !texts(self.names@).contains(before[j].0)) ==> (
                    #[trigger] self.store.data.rows()[j]) == before[j],
                self.config == old(self).config,
                self.message == old(self).message,
                self.sync_all == old(self).sync_all,
                self.names == old(self).names,
                self.commits == old(self).commits,
            decreases count - i,
        {
            let ghost rows = self.store.data.rows();
            let changed = match self.store.data.entry(i) {
                Some((name, metadata)) => {
                    if list_has(self.names.as_slice(), name.as_str()) {
                        Some(
                            (
                                name.clone(),
                                DotfileMetadata::new(
                                    commit,
                                    commit,
                                    metadata.pre_install_hash.clone(),
                                    metadata.post_install_hash.clone(),
                                ),
                            ),
                        )
                    } else {
                        None
                    }
                },
                None => None,
            };
            match changed {
                Some((name, metadata)) => {
                    proof {
                        assert(names_of(rows)[i as int] == names_of(before)[i as int]);
                        assert(distinct_names(rows)) by {
                            assert forall|a: int, b: int|
                                0 <= a < rows.len() && 0 <= b < rows.len() && a != b implies (
                            #[trigger] rows[a]).0 != (#[trigger] rows[b]).0 by {
                                assert(names_of(rows)[a] == names_of(before)[a]);
                                assert(names_of(rows)[b] == names_of(before)[b]);
                            }
                        }
                        lemma_position_unique(rows, i as int);
                    }
                    self.store.data.insert(name, metadata);
                    proof {
                        let after = self.store.data.rows();
                        assert(after == rows.update(i as int, (rows[i as int].0, metadata)));
                        assert(names_of(after) =~= names_of(before)) by {
                            assert forall|k: int| 0 <= k < after.len() implies names_of(after)[k]
                                == names_of(before)[k] by {
                                assert(names_of(rows)[k] == names_of(before)[k]);
                            }
                        }
                    }
                },
                None => {},
            }
            i += 1;
        }
        proof {
            let after = self.store.data.rows();
            assert forall|name: Seq<char>|
                optional_view(#[trigger] lookup(after, name)) == match lookup(before, name) {
                    Some(metadata) => Some(
                        if texts(self.names@).contains(name) {
                            repointed(metadata@, commit@)
                        } else {
                            metadata@
                        },
                    ),
                    None => None,
                } by {
                lemma_same_names_same_places(before, after, name);
                if has_name(before, name) {
                    let at = position_of(before, name);
                    assert(before[at].0 == name);
                    assert(after[at].1@ == if texts(self.names@).contains(before[at].0) {
                        repointed(before[at].1@, commit@)
                    } else {
                        before[at].1@
                    });
                }
            }
            assert forall|name: Seq<char>| !texts(self.names@).contains(name) implies #[trigger] lookup(
                after,
                name,
            ) == lookup(before, name) by {
                lemma_same_names_same_places(before, after, name);
                if has_name(before, name) {
                    let at = position_of(before, name);
                    assert(before[at].0 == name);
                    assert(after[at] == before[at]);
                }
            }
        }
    }

    /// The end of the run: the step that pushes the history, and the
    /// records to save once it is pushed.
    pub fn finish(self) -> (end: (Vec<Step>, AggregatedDotfileMetadata))
        ensures
            views(end.0@) == seq![StepView::Push],
            end.1 == self.store,
    {
        let mut steps: Vec<Step> = Vec::new();
        steps.push(Step::Push);
        assert(views(steps@) =~= seq![StepView::Push]);
        (steps, self.store)
    }
}

/// Rows with the same names in the same order hold a name at the same
/// place, or not at all.
proof fn lemma_same_names_same_places<V>(
    before: Seq<(Seq<char>, V)>,
    after: Seq<(Seq<char>, V)>,
    name: Seq<char>,
)
    requires
        distinct_names(before),
        names_of(after) == names_of(before),
    ensures
        has_name(after, name) == has_name(before, name),
        has_name(before, name) ==> 0 <= position_of(before, name) < before.len() && position_of(
            after,
            name,
        ) == position_of(before, name),
{
    assert(names_of(after).len() == after.len());
    assert(names_of(before).len() == before.len());
    assert forall|k: int| 0 <= k < before.len() implies (#[trigger] after[k]).0 == before[k].0 by {
        assert(names_of(after)[k] == names_of(before)[k]);
    }
    if has_name(before, name) {
        let at = position_of(before, name);
        assert(after[at].0 == name);
        assert(distinct_names(after)) by {
            assert forall|a: int, b: int|
                0 <= a < after.len() && 0 <= b < after.len() && a != b implies (
            #[trigger] after[a]).0 != (#[trigger] after[b]).0 by {
                assert(before[a].0 != before[b].0);
            }
        }
        lemma_position_unique(after, at);
    } else if has_name(after, name) {
        let at = position_of(after, name);
        assert(before[at].0 == name);
    }
}

/// The strings of a list, borrowed.
fn borrow_all<'a>(list: &'a Vec<String>) -> (borrowed: Vec<&'a str>)
    ensures
        slice_texts(borrowed@) == texts(list@),
{
    let mut borrowed: Vec<&'a str> = Vec::new();
    let mut i: usize = 0;
    while i < list.len()
        invariant
            i <= list@.len(),
            borrowed@.len() == i,
            forall|j: int| 0 <= j < i ==> borrowed@[j]@ == list@[j]@,
        decreases list@.len() - i,
    {
        borrowed.push(list[i].as_str());
        i += 1;
    }
    assert(slice_texts(borrowed@) =~= texts(list@));
    borrowed
}

impl Manifest {
    /// Starts an install: selects the dotfiles as
    /// [`Manifest::get_target_dotfiles`] does, and settles whether the user
    /// has to be asked about the hooks, which is so where `trust` is off
    /// and a selected dotfile has commands that have not run on this
    /// machine. The dotfiles are then installed one by one, in the order
    /// returned, each through the [`InstallRun`].
    pub fn install(
        &self,
        install_all: bool,
        target_dotfiles: Vec<String>,
        picked: &[usize],
        store: AggregatedDotfileMetadata,
        force_install: bool,
        trust: bool,
    ) -> (started: (Vec<(&String, &Dotfile)>, InstallRun))
        ensures
            borrowed_rows(started.0@) == targets_of(
                self.rows(),
                texts(target_dotfiles@),
                install_all,
                picked@,
            ),
            started.1.store == store,
            started.1.force == force_install,
            started.1.ask_to_skip_hooks == (!trust && any_unexecuted(
                self.rows(),
                Some(names_of(borrowed_rows(started.0@))),
                store.data.rows(),
            )),
    {
        let targets = self.get_target_dotfiles(target_dotfiles, install_all, picked);
        let ask_to_skip_hooks = !trust && self.has_unexecuted_run_stages(
            Some(names_borrowed(&targets)),
            &store,
        );
        (targets, InstallRun { store, ask_to_skip_hooks, force: force_install })
    }

    /// Starts a sync. Without a metadata store a sync overwrites what the
    /// repository holds, so it is refused unless `use_naive_sync` allows
    /// it. The dotfiles are selected as [`Manifest::get_target_dotfiles`]
    /// does, and are then synced one by one, in the order returned, each
    /// through the [`SyncRun`].
    pub fn sync(
        &self,
        sync_all: bool,
        target_dotfiles: Vec<String>,
        picked: &[usize],
        commit_msg: Option<&str>,
        aggregated_metadata: Option<AggregatedDotfileMetadata>,
        use_naive_sync: bool,
    ) -> (started: Result<(Vec<(&String, &Dotfile)>, SyncRun), Failure>)
        ensures
            started is Err <==> aggregated_metadata is None && !use_naive_sync,
            match started {
                Err(failure) => failure is MissingMetadata,
                Ok((targets, run)) => {
                    &&& borrowed_rows(targets@) == targets_of(
                        self.rows(),
                        texts(target_dotfiles@),
                        sync_all,
                        picked@,
                    )
                    &&& run.store.data.rows() == match aggregated_metadata {
                        Some(store) => store.data.rows(),
                        None => Seq::<(Seq<char>, DotfileMetadata)>::empty(),
                    }
                    &&& run.config.commit_prefix@ == self.prefix()
                    &&& run.config.squash_commits == self.squashes()
                    &&& crate::git::operations::optional_text(run.message) == match commit_msg {
                        Some(message) => Some(message@),
                        None => None,
                    }
                    &&& run.sync_all == sync_all
                    &&& run.names@.len() == 0
                    &&& run.commits@.len() == 0
                },
            },
    {
        let store = match aggregated_metadata {
            Some(store) => store,
            None => {
                if !use_naive_sync {
                    return Err(Failure::MissingMetadata);
                }
                AggregatedDotfileMetadata::new()
            },
        };
        let targets = self.get_target_dotfiles(target_dotfiles, sync_all, picked);
        let message = match commit_msg {
            Some(message) => Some(String::from_str(message)),
            None => None,
        };
        Ok(
            (
                targets,
                SyncRun {
                    store,
                    config: self.config.clone(),
                    message,
                    sync_all,
                    names: Vec::new(),
                    commits: Vec::new(),
                },
            ),
        )
    }
}

} // verus!
