use jointhedots::error::Failure;
use jointhedots::git::operations::{CommitStamp, Observed, Step};
use jointhedots::structs::dotfile::SyncPlan;
use jointhedots::structs::{AggregatedDotfileMetadata, Config, Dotfile, DotfileMetadata, Manifest};
use jointhedots::table::Table;

const HOOK_HASH: &str = "1ef98a8d0946d6512ca5da8242eb7a52a506de54";

fn dotfile(file: &str, hooks: bool) -> Dotfile {
    let commands = if hooks {
        Some(vec!["echo".to_string(), "ls".to_string(), "cat".to_string()])
    } else {
        None
    };
    Dotfile {
        file: file.to_string(),
        target: format!("~/.config/{}", file),
        pre_install: commands,
        post_install: None,
    }
}

fn manifest_with(config: Config) -> Manifest {
    let mut data = Table::new();
    data.insert("kitty".to_string(), dotfile("kitty.conf", false));
    data.insert("neovim".to_string(), dotfile("init.vim", true));
    data.insert("zsh".to_string(), dotfile("zshrc", false));
    Manifest::new(config, data)
}

fn manifest() -> Manifest {
    manifest_with(Config::default())
}

fn record(install: &str, sync: &str, pre: &str, post: &str) -> DotfileMetadata {
    DotfileMetadata::new(install, sync, pre.to_string(), post.to_string())
}

fn names(targets: &[(&String, &Dotfile)]) -> Vec<String> {
    targets.iter().map(|(name, _)| name.to_string()).collect()
}

fn strings(list: &[&str]) -> Vec<String> {
    list.iter().map(|item| item.to_string()).collect()
}

fn edited() -> Observed {
    let mut observed = Observed::new();
    observed.local = Some(b"edited".to_vec());
    observed.recorded = Some(b"as synced".to_vec());
    observed
}

fn untouched() -> Observed {
    let mut observed = Observed::new();
    observed.local = Some(b"as synced".to_vec());
    observed.recorded = Some(b"as synced".to_vec());
    observed
}

fn describe(steps: &[Step]) -> Vec<String> {
    steps.iter().map(|step| format!("{:?}", step)).collect()
}

#[test]
fn test_manifest_get() {
    let mut data = Table::new();
    data.insert(
        "kitty".to_string(),
        Dotfile {
            file: "dotfile".to_string(),
            target: "~/some/path/here".to_string(),
            pre_install: None,
            post_install: None,
        },
    );
    let parsed = Manifest::new(Config::default(), data);

    let manifest = Manifest::get(Some(Ok(parsed)), "manifest.yaml").unwrap();

    let kitty = manifest.data().get("kitty").expect("kitty is listed");
    assert_eq!(kitty.file, "dotfile");
    assert_eq!(kitty.target, "~/some/path/here");
    assert!(kitty.pre_install.is_none());
    assert!(kitty.post_install.is_none());
}

#[test]
fn test_manifest_get_unreadable() {
    let missing = Manifest::get(None, "jtd.yaml").unwrap_err();
    assert!(matches!(
        &missing,
        Failure::ManifestUnreadable { file, complaint: None } if file == "jtd.yaml"
    ));
    let broken = Manifest::get(Some(Err("did not find expected key".to_string())), "jtd.yaml")
        .unwrap_err();
    assert!(matches!(
        &broken,
        Failure::ManifestUnreadable { file, complaint: Some(complaint) }
            if file == "jtd.yaml" && complaint == "did not find expected key"
    ));
}

#[test]
fn test_manifest_accessors() {
    let manifest = manifest_with(Config { commit_prefix: "x ".to_string(), squash_commits: false });
    assert_eq!(manifest.config().commit_prefix, "x ");
    assert!(!manifest.config().squash_commits);
    assert_eq!(manifest.data().len(), 3);
}

#[test]
fn test_get_target_dotfiles_all() {
    let manifest = manifest();
    let targets = manifest.get_target_dotfiles(vec![], true, &[]);
    assert_eq!(names(&targets), vec!["kitty", "neovim", "zsh"]);
    assert_eq!(targets[1].1.file, "init.vim");
    let targets = manifest.get_target_dotfiles(strings(&["zsh"]), true, &[0]);
    assert_eq!(names(&targets), vec!["kitty", "neovim", "zsh"]);
}

#[test]
fn test_get_target_dotfiles_by_name() {
    let manifest = manifest();
    let targets = manifest.get_target_dotfiles(strings(&["zsh", "kitty"]), false, &[]);
    assert_eq!(names(&targets), vec!["kitty", "zsh"]);
    let targets = manifest.get_target_dotfiles(strings(&["neovim"]), false, &[0, 2]);
    assert_eq!(names(&targets), vec!["neovim"]);
    let targets = manifest.get_target_dotfiles(strings(&["zsh", "zsh"]), false, &[]);
    assert_eq!(names(&targets), vec!["zsh"]);
}

#[test]
fn test_get_target_dotfiles_drops_unknown_names() {
    let manifest = manifest();
    let targets = manifest.get_target_dotfiles(strings(&["tmux", "zsh", "Kitty"]), false, &[]);
    assert_eq!(names(&targets), vec!["zsh"]);
    let targets = manifest.get_target_dotfiles(strings(&["tmux"]), false, &[0, 1, 2]);
    assert!(targets.is_empty());
}

#[test]
fn test_get_target_dotfiles_picked_by_hand() {
    let manifest = manifest();
    let targets = manifest.get_target_dotfiles(vec![], false, &[2, 0]);
    assert_eq!(names(&targets), vec!["kitty", "zsh"]);
    let targets = manifest.get_target_dotfiles(vec![], false, &[1, 1, 7]);
    assert_eq!(names(&targets), vec!["neovim"]);
    let targets = manifest.get_target_dotfiles(vec![], false, &[]);
    assert!(targets.is_empty());
}

#[test]
fn test_get_target_dotfiles_of_empty_manifest() {
    let manifest = Manifest::new(Config::default(), Table::new());
    assert!(manifest.get_target_dotfiles(vec![], true, &[]).is_empty());
    assert!(manifest.get_target_dotfiles(strings(&["zsh"]), false, &[0]).is_empty());
}

#[test]
fn test_needs_selection() {
    assert!(Manifest::needs_selection(&[], false));
    assert!(!Manifest::needs_selection(&[], true));
    assert!(!Manifest::needs_selection(&strings(&["zsh"]), false));
    assert!(!Manifest::needs_selection(&strings(&["zsh"]), true));
}

#[test]
fn test_manifest_has_run_stages() {
    let manifest = manifest();
    assert!(manifest.has_run_stages(None));
    assert!(manifest.has_run_stages(Some(vec!["neovim"])));
    assert!(manifest.has_run_stages(Some(vec!["kitty", "neovim"])));
    assert!(!manifest.has_run_stages(Some(vec!["kitty", "zsh"])));
    assert!(!manifest.has_run_stages(Some(vec![])));
    assert!(!manifest.has_run_stages(Some(vec!["tmux"])));
    assert!(!Manifest::new(Config::default(), Table::new()).has_run_stages(None));
}

#[test]
fn test_manifest_has_unexecuted_run_stages() {
    let manifest = manifest();
    let empty = AggregatedDotfileMetadata::new();
    assert!(manifest.has_unexecuted_run_stages(None, &empty));
    assert!(manifest.has_unexecuted_run_stages(Some(vec!["neovim"]), &empty));
    assert!(!manifest.has_unexecuted_run_stages(Some(vec!["kitty", "zsh"]), &empty));
    assert!(!manifest.has_unexecuted_run_stages(Some(vec![]), &empty));

    let mut run_before = AggregatedDotfileMetadata::new();
    run_before.data.insert("neovim".to_string(), record("a", "a", HOOK_HASH, ""));
    assert!(!manifest.has_unexecuted_run_stages(None, &run_before));
    assert!(!manifest.has_unexecuted_run_stages(Some(vec!["neovim"]), &run_before));

    let mut stale = AggregatedDotfileMetadata::new();
    stale.data.insert("neovim".to_string(), record("a", "a", "stale", ""));
    stale.data.insert("kitty".to_string(), record("a", "a", "", ""));
    assert!(manifest.has_unexecuted_run_stages(None, &stale));
    assert!(!manifest.has_unexecuted_run_stages(Some(vec!["kitty"]), &stale));
}

#[test]
fn test_manifest_diff() {
    let manifest = manifest();
    assert_eq!(manifest.diff("zsh").expect("zsh is listed").file, "zshrc");
    let failure = manifest.diff("tmux").unwrap_err();
    assert!(matches!(&failure, Failure::UnknownDotfile { name } if name == "tmux"));
    assert_eq!(
        failure.message(),
        "Target dotfile \"tmux\" was not found in the manifest"
    );
}

#[test]
fn test_manifest_install() {
    let manifest = manifest();
    let (targets, mut run) =
        manifest.install(true, vec![], &[], AggregatedDotfileMetadata::new(), true, false);
    assert_eq!(names(&targets), vec!["kitty", "neovim", "zsh"]);
    assert!(run.ask_to_skip_hooks);
    assert!(run.force);
    for (name, dotfile) in targets {
        assert!(!run.needs_confirmation(true));
        assert!(run.probe(name, dotfile).is_empty());
        let plan = run
            .plan(name, dotfile, "c0ffee", false, &Observed::new())
            .expect("Failed to install manifest");
        assert!(plan
            .steps
            .iter()
            .any(|step| matches!(step, Step::CopyToLocal { from, .. } if *from == dotfile.file)));
        run.record(name, plan.metadata);
    }
    let store = run.finish();
    assert_eq!(store.data.len(), 3);
    let neovim = store.data.get("neovim").expect("neovim was installed");
    assert_eq!(neovim.install_hash, "c0ffee");
    assert_eq!(neovim.sync_hash, "c0ffee");
    assert_eq!(neovim.pre_install_hash, HOOK_HASH);
    assert_eq!(store.data.get("kitty").expect("kitty was installed").pre_install_hash, "");
}

#[test]
fn test_manifest_install_asks_about_hooks_only_when_needed() {
    let manifest = manifest();
    let (_, run) =
        manifest.install(true, vec![], &[], AggregatedDotfileMetadata::new(), false, true);
    assert!(!run.ask_to_skip_hooks);
    let (_, run) = manifest.install(
        false,
        strings(&["kitty", "zsh"]),
        &[],
        AggregatedDotfileMetadata::new(),
        false,
        false,
    );
    assert!(!run.ask_to_skip_hooks);
    let (_, run) = manifest.install(
        false,
        strings(&["neovim"]),
        &[],
        AggregatedDotfileMetadata::new(),
        false,
        false,
    );
    assert!(run.ask_to_skip_hooks);
    let mut store = AggregatedDotfileMetadata::new();
    store.data.insert("neovim".to_string(), record("a", "a", HOOK_HASH, ""));
    let (_, run) = manifest.install(true, vec![], &[], store, false, false);
    assert!(!run.ask_to_skip_hooks);
}

#[test]
fn test_manifest_install_refuses_to_overwrite_local_edits() {
    let manifest = manifest();
    let mut store = AggregatedDotfileMetadata::new();
    store.data.insert("kitty".to_string(), record("aaa", "bbb", "", ""));
    let (targets, mut run) = manifest.install(false, strings(&["kitty"]), &[], store, false, true);
    let (name, dotfile) = targets[0];
    assert!(run.needs_confirmation(true));
    assert!(!run.needs_confirmation(false));
    assert_eq!(
        describe(&run.probe(name, dotfile)),
        vec![
            "ReadLocal { path: \"~/.config/kitty.conf\" }",
            "Resolve { hash: \"bbb\" }",
            "Checkout { target: Commit(\"bbb\") }",
            "ReadRecorded { path: \"kitty.conf\" }",
            "Checkout { target: Start }",
        ]
    );
    let failure = run.plan(name, dotfile, "c0ffee", false, &edited()).unwrap_err();
    assert!(matches!(&failure, Failure::LocalChangesConflict { dotfile } if dotfile == "kitty"));
    let plan = run
        .plan(name, dotfile, "c0ffee", false, &untouched())
        .expect("an unchanged dotfile is installed");
    run.record(name, plan.metadata);
    let store = run.finish();
    assert_eq!(store.data.len(), 1);
    assert_eq!(store.data.get("kitty").expect("kept").sync_hash, "c0ffee");
}

#[test]
fn test_manifest_sync() {
    let manifest = manifest();
    let started = manifest.sync(true, vec![], &[], None, None, true);
    let (targets, mut run) = started.expect("a naive sync was allowed");
    assert_eq!(names(&targets), vec!["kitty", "neovim", "zsh"]);
    let mut commits = vec![];
    for (index, (name, dotfile)) in targets.into_iter().enumerate() {
        assert!(run.probe(name, dotfile).is_empty());
        let plan = run.plan(name, dotfile, &Observed::new());
        assert!(matches!(
            &plan,
            SyncPlan::Commit { steps, .. }
                if matches!(&steps[0], Step::CopyToRepo { to, .. } if *to == dotfile.file)
        ));
        let commit = format!("commit{}", index);
        run.record(name, plan, &commit);
        commits.push(commit);
    }
    assert_eq!(run.commits, commits);
    assert_eq!(run.names, vec!["kitty", "neovim", "zsh"]);
    let (steps, store) = run.finish();
    assert_eq!(describe(&steps), vec!["Push"]);
    assert_eq!(store.data.get("neovim").expect("synced").sync_hash, "commit1");
    assert_eq!(store.data.get("neovim").expect("synced").pre_install_hash, HOOK_HASH);
}

#[test]
fn test_manifest_sync_needs_metadata_or_leave() {
    let manifest = manifest();
    let refused = manifest.sync(true, vec![], &[], None, None, false);
    let failure = refused.err().expect("a sync without metadata is refused");
    assert!(matches!(failure, Failure::MissingMetadata));
    assert_eq!(failure.message(), "Aborting due to lack of dotfile metadata");
    assert!(manifest.sync(true, vec![], &[], None, None, true).is_ok());
    let store = AggregatedDotfileMetadata::new();
    assert!(manifest.sync(true, vec![], &[], None, Some(store), false).is_ok());
}

#[test]
fn test_manifest_sync_with_metadata() {
    let manifest = manifest();
    let mut store = AggregatedDotfileMetadata::new();
    store.data.insert("kitty".to_string(), record("k1", "k2", "", ""));
    store.data.insert("zsh".to_string(), record("z1", "z2", "", ""));
    let (targets, mut run) = manifest
        .sync(false, strings(&["kitty", "zsh"]), &[], None, Some(store), false)
        .expect("metadata was given");
    let (kitty_name, kitty) = targets[0];
    let (zsh_name, zsh) = targets[1];
    assert_eq!(run.probe(kitty_name, kitty).len(), 5);

    let plan = run.plan(kitty_name, kitty, &untouched());
    assert!(matches!(&plan, SyncPlan::UpToDate { .. }));
    run.record(kitty_name, plan, "");

    let plan = run.plan(zsh_name, zsh, &edited());
    match &plan {
        SyncPlan::Commit { steps, .. } => {
            assert_eq!(steps.len(), 8);
            assert!(matches!(&steps[0], Step::Resolve { hash } if hash == "z1"));
        }
        SyncPlan::UpToDate { .. } => panic!("local edits are synced"),
    }
    run.record(zsh_name, plan, "merged");

    assert_eq!(run.commits, vec!["k2", "merged"]);
    let (_, store) = run.finish();
    let kitty = store.data.get("kitty").expect("kept");
    assert_eq!((kitty.install_hash.as_str(), kitty.sync_hash.as_str()), ("k1", "k2"));
    let zsh = store.data.get("zsh").expect("synced");
    assert_eq!((zsh.install_hash.as_str(), zsh.sync_hash.as_str()), ("merged", "merged"));
}

#[test]
fn test_squash_three_commits() {
    let manifest = manifest();
    let (targets, mut run) = manifest
        .sync(true, vec![], &[], None, None, true)
        .expect("a naive sync was allowed");
    for (index, (name, dotfile)) in targets.into_iter().enumerate() {
        let plan = run.plan(name, dotfile, &Observed::new());
        run.record(name, plan, ["bbb", "ccc", "aaa"][index]);
    }
    assert_eq!(
        describe(&run.stamp_steps()),
        vec![
            "Stamp { hash: \"bbb\" }",
            "Stamp { hash: \"ccc\" }",
            "Stamp { hash: \"aaa\" }",
        ]
    );
    let stamps = vec![
        CommitStamp { hash: "bbb".to_string(), seconds: 2000, offset_minutes: 0 },
        CommitStamp { hash: "ccc".to_string(), seconds: 3000, offset_minutes: 0 },
        CommitStamp { hash: "aaa".to_string(), seconds: 1000, offset_minutes: 0 },
    ];
    let steps = run.squash(&stamps);
    assert_eq!(
        describe(&steps),
        vec![
            "ResetSoft { to_parent_of: \"aaa\" }".to_string(),
            "Commit { file: None, message: \"\u{1F501} Sync dotfiles for kitty, neovim and zsh\", parent: None }".to_string(),
        ]
    );
    run.squashed("squashed");
    let (_, store) = run.finish();
    for name in ["kitty", "neovim", "zsh"] {
        let metadata = store.data.get(name).expect("synced");
        assert_eq!(metadata.install_hash, "squashed");
        assert_eq!(metadata.sync_hash, "squashed");
    }
    assert_eq!(store.data.get("neovim").expect("synced").pre_install_hash, HOOK_HASH);
}

#[test]
fn test_squash_uses_the_message_asked_for() {
    let manifest = manifest();
    let (targets, mut run) = manifest
        .sync(false, strings(&["zsh"]), &[], Some("my own words"), None, true)
        .expect("a naive sync was allowed");
    let (name, dotfile) = targets[0];
    let plan = run.plan(name, dotfile, &Observed::new());
    run.record(name, plan, "aaa");
    let stamps = vec![CommitStamp { hash: "aaa".to_string(), seconds: 1, offset_minutes: 0 }];
    assert_eq!(
        describe(&run.squash(&stamps)),
        vec![
            "ResetSoft { to_parent_of: \"aaa\" }",
            "Commit { file: None, message: \"my own words\", parent: None }",
        ]
    );
}

#[test]
fn test_squash_leaves_other_dotfiles_alone() {
    let manifest = manifest();
    let mut store = AggregatedDotfileMetadata::new();
    store.data.insert("kitty".to_string(), record("k1", "k2", "kp", "kq"));
    store.data.insert("zsh".to_string(), record("z1", "z2", "zp", "zq"));
    let (targets, mut run) = manifest
        .sync(false, strings(&["zsh"]), &[], None, Some(store), false)
        .expect("metadata was given");
    let (name, dotfile) = targets[0];
    let plan = run.plan(name, dotfile, &edited());
    run.record(name, plan, "merged");
    run.squashed("squashed");
    let (_, store) = run.finish();
    let kitty = store.data.get("kitty").expect("kept");
    assert_eq!(
        (&*kitty.install_hash, &*kitty.sync_hash, &*kitty.pre_install_hash, &*kitty.post_install_hash),
        ("k1", "k2", "kp", "kq")
    );
    let zsh = store.data.get("zsh").expect("synced");
    assert_eq!(
        (&*zsh.install_hash, &*zsh.sync_hash, &*zsh.pre_install_hash, &*zsh.post_install_hash),
        ("squashed", "squashed", "zp", "zq")
    );
}

#[test]
fn test_squash_of_everything_keeps_records_that_were_not_synced() {
    let manifest = manifest();
    let mut store = AggregatedDotfileMetadata::new();
    store.data.insert("tmux".to_string(), record("t1", "t2", "tp", "tq"));
    let (targets, mut run) = manifest
        .sync(true, vec![], &[], None, Some(store), false)
        .expect("metadata was given");
    assert_eq!(names(&targets), vec!["kitty", "neovim", "zsh"]);
    for (index, (name, dotfile)) in targets.into_iter().enumerate() {
        let plan = run.plan(name, dotfile, &Observed::new());
        run.record(name, plan, ["k", "n", "z"][index]);
    }
    run.squashed("squashed");
    let (_, store) = run.finish();
    let tmux = store.data.get("tmux").expect("kept");
    assert_eq!(
        (&*tmux.install_hash, &*tmux.sync_hash, &*tmux.pre_install_hash, &*tmux.post_install_hash),
        ("t1", "t2", "tp", "tq")
    );
    for name in ["kitty", "neovim", "zsh"] {
        let metadata = store.data.get(name).expect("synced");
        assert_eq!(metadata.install_hash, "squashed");
        assert_eq!(metadata.sync_hash, "squashed");
    }
    assert_eq!(store.data.len(), 4);
}

#[test]
fn test_squash_before_any_sync_changes_no_record() {
    let manifest = manifest();
    for sync_all in [true, false] {
        let mut store = AggregatedDotfileMetadata::new();
        store.data.insert("tmux".to_string(), record("t1", "t2", "", ""));
        store.data.insert("kitty".to_string(), record("k1", "k2", "", ""));
        let (_, mut run) = manifest
            .sync(sync_all, strings(&["kitty"]), &[], None, Some(store), false)
            .expect("metadata was given");
        run.squashed("squashed");
        let (_, store) = run.finish();
        assert_eq!(store.data.get("tmux").expect("kept").sync_hash, "t2");
        assert_eq!(store.data.get("tmux").expect("kept").install_hash, "t1");
        assert_eq!(store.data.get("kitty").expect("kept").sync_hash, "k2");
    }
}

#[test]
fn test_no_squash_without_policy_or_commits() {
    let stamps = vec![CommitStamp { hash: "aaa".to_string(), seconds: 1, offset_minutes: 0 }];
    let plain = manifest_with(Config { commit_prefix: String::new(), squash_commits: false });
    let (targets, mut run) = plain
        .sync(false, strings(&["zsh"]), &[], None, None, true)
        .expect("a naive sync was allowed");
    let (name, dotfile) = targets[0];
    let plan = run.plan(name, dotfile, &Observed::new());
    run.record(name, plan, "aaa");
    assert!(run.stamp_steps().is_empty());
    assert!(run.squash(&stamps).is_empty());

    let squashing = manifest();
    let (_, run) = squashing
        .sync(false, strings(&["tmux"]), &[], None, None, true)
        .expect("a naive sync was allowed");
    assert!(run.stamp_steps().is_empty());
    assert!(run.squash(&[]).is_empty());
}
