use jointhedots::error::Failure;
use jointhedots::git::operations::{displaced, Observed, Revision, Step};
use jointhedots::structs::dotfile::{InstallPlan, SyncPlan};
use jointhedots::structs::{Config, Dotfile, DotfileMetadata};

const HOOK_HASH: &str = "1ef98a8d0946d6512ca5da8242eb7a52a506de54";

fn hooks() -> Option<Vec<String>> {
    Some(vec!["echo".to_string(), "ls".to_string(), "cat".to_string()])
}

fn plain_dotfile() -> Dotfile {
    Dotfile {
        file: "dotfile".to_string(),
        target: "~/dotfile".to_string(),
        pre_install: None,
        post_install: None,
    }
}

fn hooked_dotfile() -> Dotfile {
    Dotfile {
        file: "dotfile".to_string(),
        target: "~/dotfile".to_string(),
        pre_install: hooks(),
        post_install: hooks(),
    }
}

fn metadata(install: &str, sync: &str, pre: &str, post: &str) -> DotfileMetadata {
    DotfileMetadata {
        install_hash: install.to_string(),
        sync_hash: sync.to_string(),
        pre_install_hash: pre.to_string(),
        post_install_hash: post.to_string(),
    }
}

fn observed(local: &[u8], recorded: &[u8]) -> Observed {
    let mut observed = Observed::new();
    observed.local = Some(local.to_vec());
    observed.recorded = Some(recorded.to_vec());
    observed
}

fn describe(steps: &[Step]) -> Vec<String> {
    steps.iter().map(|step| format!("{:?}", step)).collect()
}

fn installed(plan: Result<InstallPlan, Failure>) -> InstallPlan {
    plan.expect("Failed to install dotfile")
}

#[test]
fn test_hash_empty_pre_install() {
    let dotfile = Dotfile {
        file: "".to_string(),
        target: String::new(),
        pre_install: None,
        post_install: None,
    };

    assert_eq!("", dotfile.hash_pre_install());
}

#[test]
fn test_hash_pre_install() {
    let dotfile = Dotfile {
        file: "".to_string(),
        target: String::new(),
        pre_install: Some(vec![
            "echo".to_string(),
            "ls".to_string(),
            "cat".to_string(),
        ]),
        post_install: None,
    };

    assert_eq!(
        "1ef98a8d0946d6512ca5da8242eb7a52a506de54",
        dotfile.hash_pre_install()
    );
}

#[test]
fn test_hash_empty_post_install() {
    let dotfile = Dotfile {
        file: "".to_string(),
        target: String::new(),
        pre_install: None,
        post_install: None,
    };

    assert_eq!("", dotfile.hash_post_install());
}

#[test]
fn test_hash_post_install() {
    let dotfile = Dotfile {
        file: "".to_string(),
        target: String::new(),
        pre_install: None,
        post_install: Some(vec![
            "echo".to_string(),
            "ls".to_string(),
            "cat".to_string(),
        ]),
    };

    assert_eq!(
        "1ef98a8d0946d6512ca5da8242eb7a52a506de54",
        dotfile.hash_post_install()
    );
}

#[test]
fn test_has_unexecuted_run_stages_no_metadata() {
    let dotfile = Dotfile {
        file: "".to_string(),
        target: String::new(),
        pre_install: None,
        post_install: None,
    };

    assert!(!dotfile.has_unexecuted_run_stages(&None));
}

#[test]
fn test_has_unexecuted_run_stages_with_metadata_no_install_steps() {
    let dotfile = Dotfile {
        file: "".to_string(),
        target: String::new(),
        pre_install: None,
        post_install: None,
    };

    let metadata = DotfileMetadata {
        install_hash: "".to_string(),
        sync_hash: "".to_string(),
        pre_install_hash: "".to_string(),
        post_install_hash: "".to_string(),
    };

    assert!(!dotfile.has_unexecuted_run_stages(&Some(&metadata)));
}

#[test]
fn test_has_unexecuted_run_stages_with_metadata_with_install_steps_true() {
    let dotfile = Dotfile {
        file: "".to_string(),
        target: String::new(),
        pre_install: Some(vec![
            "echo".to_string(),
            "ls".to_string(),
            "cat".to_string(),
        ]),
        post_install: Some(vec![
            "echo".to_string(),
            "ls".to_string(),
            "cat".to_string(),
        ]),
    };

    let metadata = DotfileMetadata {
        install_hash: "".to_string(),
        sync_hash: "".to_string(),
        pre_install_hash: "".to_string(),
        post_install_hash: "".to_string(),
    };

    assert!(dotfile.has_unexecuted_run_stages(&Some(&metadata)));
}

#[test]
fn test_has_unexecuted_run_stages_with_metadata_with_install_steps_false() {
    let dotfile = Dotfile {
        file: "".to_string(),
        target: String::new(),
        pre_install: Some(vec![
            "echo".to_string(),
            "ls".to_string(),
            "cat".to_string(),
        ]),
        post_install: Some(vec![
            "echo".to_string(),
            "ls".to_string(),
            "cat".to_string(),
        ]),
    };

    let metadata = DotfileMetadata {
        install_hash: "".to_string(),
        sync_hash: "".to_string(),
        pre_install_hash: "1ef98a8d0946d6512ca5da8242eb7a52a506de54".to_string(),
        post_install_hash: "1ef98a8d0946d6512ca5da8242eb7a52a506de54".to_string(),
    };

    assert!(!dotfile.has_unexecuted_run_stages(&Some(&metadata)));
}

#[test]
fn test_has_unexecuted_run_stages_without_metadata_with_install_steps() {
    assert!(hooked_dotfile().has_unexecuted_run_stages(&None));
    let mut only_post = plain_dotfile();
    only_post.post_install = hooks();
    assert!(only_post.has_unexecuted_run_stages(&None));
}

#[test]
fn test_has_unexecuted_run_stages_one_stage_differs() {
    let dotfile = hooked_dotfile();
    let pre_stale = metadata("", "", "stale", HOOK_HASH);
    assert!(dotfile.has_unexecuted_run_stages(&Some(&pre_stale)));
    let post_stale = metadata("", "", HOOK_HASH, "stale");
    assert!(dotfile.has_unexecuted_run_stages(&Some(&post_stale)));
}

#[test]
fn test_has_unexecuted_run_stages_empty_stage_has_nothing_to_run() {
    let mut dotfile = plain_dotfile();
    dotfile.pre_install = Some(vec![]);
    dotfile.post_install = Some(vec![]);
    assert!(!dotfile.has_unexecuted_run_stages(&None));
    assert!(!dotfile.has_unexecuted_run_stages(&Some(&metadata("", "", "", ""))));
    assert!(dotfile.has_run_stages());
}

#[test]
fn test_has_run_stages() {
    assert!(!plain_dotfile().has_run_stages());
    assert!(hooked_dotfile().has_run_stages());
    let mut only_pre = plain_dotfile();
    only_pre.pre_install = hooks();
    assert!(only_pre.has_run_stages());
}

#[test]
fn test_hash_of_empty_stage_is_digest_of_nothing() {
    let mut dotfile = plain_dotfile();
    dotfile.pre_install = Some(vec![]);
    assert_eq!(
        dotfile.hash_pre_install(),
        "da39a3ee5e6b4b0d3255bfef95601890afd80709"
    );
}

#[test]
fn test_has_changed_false() {
    assert!(!Dotfile::has_changed(b"", b""));
    assert!(!observed(b"", b"").changed());
}

#[test]
fn test_has_changed_true() {
    assert!(Dotfile::has_changed(b"This file has changes", b""));
    assert!(observed(b"This file has changes", b"").changed());
}

#[test]
fn test_has_changed_compares_whole_contents() {
    assert!(!Dotfile::has_changed(b"same text\n", b"same text\n"));
    assert!(Dotfile::has_changed(b"same text\n", b"same text"));
    assert!(Dotfile::has_changed(b"a", b"b"));
}

#[test]
fn test_unread_copy_counts_as_changed() {
    let mut only_local = Observed::new();
    only_local.local = Some(b"text".to_vec());
    assert!(only_local.changed());
    assert!(Observed::new().changed());
}

#[test]
fn test_probe() {
    let dotfile = plain_dotfile();
    let steps = dotfile.probe(&metadata("aaa", "bbb", "", ""));
    assert_eq!(
        describe(&steps),
        vec![
            "ReadLocal { path: \"~/dotfile\" }",
            "Resolve { hash: \"bbb\" }",
            "Checkout { target: Commit(\"bbb\") }",
            "ReadRecorded { path: \"dotfile\" }",
            "Checkout { target: Start }",
        ]
    );
    assert!(!displaced(&steps, 0));
    assert!(!displaced(&steps, 1));
    assert!(!displaced(&steps, 2));
    assert!(displaced(&steps, 3));
    assert!(displaced(&steps, 4));
    assert!(!displaced(&steps, 5));
    assert!(!displaced(&steps, 9));
}

#[test]
fn test_install_probe_only_where_it_decides() {
    let dotfile = plain_dotfile();
    let record = Some(metadata("aaa", "bbb", "", ""));
    assert_eq!(dotfile.install_probe(&record, false).len(), 5);
    assert!(dotfile.install_probe(&record, true).is_empty());
    assert!(dotfile.install_probe(&None, false).is_empty());
    assert!(dotfile.install_probe(&None, true).is_empty());
}

#[test]
fn test_install_no_metadata() {
    let dotfile = plain_dotfile();
    let plan = installed(dotfile.install("dotfile", "c0ffee", None, true, true, &Observed::new()));
    assert_eq!(
        describe(&plan.steps),
        vec!["CopyToLocal { from: \"dotfile\", to: \"~/dotfile\" }"]
    );
    assert_eq!(plan.metadata.install_hash, "c0ffee");
    assert_eq!(plan.metadata.sync_hash, "c0ffee");
    assert_eq!(plan.metadata.pre_install_hash, "");
    assert_eq!(plan.metadata.post_install_hash, "");
}

#[test]
fn test_install_commands() {
    let dotfile = Dotfile {
        file: "dotfile".to_string(),
        target: "/tmp/dotfile".to_string(),
        pre_install: Some(vec!["touch /tmp/pre_install".to_string()]),
        post_install: Some(vec!["touch /tmp/post_install".to_string()]),
    };
    let plan = installed(dotfile.install("dotfile", "c0ffee", None, false, true, &Observed::new()));
    assert_eq!(
        describe(&plan.steps),
        vec![
            "RunCommands { commands: [\"touch /tmp/pre_install\"] }",
            "CopyToLocal { from: \"dotfile\", to: \"/tmp/dotfile\" }",
            "RunCommands { commands: [\"touch /tmp/post_install\"] }",
        ]
    );
    assert_eq!(plan.metadata.pre_install_hash, dotfile.hash_pre_install());
    assert_eq!(plan.metadata.post_install_hash, dotfile.hash_post_install());
}

#[test]
fn test_install_skips_commands_on_request() {
    let dotfile = hooked_dotfile();
    let plan = installed(dotfile.install("dotfile", "c0ffee", None, true, false, &Observed::new()));
    assert_eq!(plan.steps.len(), 1);
    assert_eq!(plan.metadata.pre_install_hash, "");
    assert_eq!(plan.metadata.post_install_hash, "");
}

#[test]
fn test_install_runs_commands_once() {
    let dotfile = hooked_dotfile();
    let record = metadata("old", "old", HOOK_HASH, "stale");
    let plan = installed(dotfile.install(
        "dotfile",
        "c0ffee",
        Some(record),
        false,
        false,
        &observed(b"x", b"x"),
    ));
    assert_eq!(
        describe(&plan.steps),
        vec![
            "CopyToLocal { from: \"dotfile\", to: \"~/dotfile\" }",
            "RunCommands { commands: [\"echo\", \"ls\", \"cat\"] }",
        ]
    );
    assert_eq!(plan.metadata.pre_install_hash, "");
    assert_eq!(plan.metadata.post_install_hash, HOOK_HASH);
    assert_eq!(plan.metadata.install_hash, "c0ffee");
    assert_eq!(plan.metadata.sync_hash, "c0ffee");
}

#[test]
fn test_run_stage_plans() {
    let dotfile = hooked_dotfile();
    let (step, hash) = dotfile.run_pre_install(&None, false);
    assert!(matches!(step, Some(Step::RunCommands { .. })));
    assert_eq!(hash, HOOK_HASH);
    let (step, hash) = dotfile.run_post_install(&None, true);
    assert!(step.is_none());
    assert_eq!(hash, "");
    let seen = Some(metadata("", "", HOOK_HASH, HOOK_HASH));
    let (step, hash) = dotfile.run_pre_install(&seen, false);
    assert!(step.is_none());
    assert_eq!(hash, "");
    let (step, hash) = plain_dotfile().run_post_install(&None, false);
    assert!(step.is_none());
    assert_eq!(hash, "");
}

#[test]
fn test_abort_install_if_local_changes() {
    let dotfile = plain_dotfile();
    let metadata = DotfileMetadata {
        install_hash: "c0ffee".to_string(),
        sync_hash: "c0ffee".to_string(),
        pre_install_hash: "".to_string(),
        post_install_hash: "".to_string(),
    };
    let seen = observed(b"These are local changes on the system", b"");

    assert!(dotfile
        .install("dotfile", "c0ffee", Some(metadata), true, false, &seen)
        .is_err());
}

#[test]
fn test_refused_install_names_the_dotfile() {
    let dotfile = plain_dotfile();
    let seen = observed(b"local edits", b"as synced");
    let failure = dotfile
        .install("kitty", "c0ffee", Some(metadata("a", "a", "", "")), false, false, &seen)
        .unwrap_err();
    assert!(matches!(&failure, Failure::LocalChangesConflict { dotfile } if dotfile == "kitty"));
    assert_eq!(
        failure.message(),
        "Refusing to install dotfile kitty. Changes have been made since last sync. either run \"jtd sync\" for this dotfile or call install again with the \"--force\" flag"
    );
}

#[test]
fn test_install_goes_ahead_when_forced_or_unchanged_or_new() {
    let dotfile = plain_dotfile();
    let edited = observed(b"local edits", b"as synced");
    let same = observed(b"as synced", b"as synced");
    assert!(dotfile
        .install("kitty", "c", Some(metadata("a", "a", "", "")), false, true, &edited)
        .is_ok());
    assert!(dotfile
        .install("kitty", "c", Some(metadata("a", "a", "", "")), false, false, &same)
        .is_ok());
    assert!(dotfile.install("kitty", "c", None, false, false, &edited).is_ok());
    assert!(dotfile
        .install("kitty", "c", Some(metadata("a", "a", "", "")), false, false, &Observed::new())
        .is_err());
}

#[test]
fn test_install_then_no_change() {
    let dotfile = plain_dotfile();
    let plan = installed(dotfile.install("dotfile", "c0ffee", None, false, false, &Observed::new()));
    let probe = dotfile.probe(&plan.metadata);
    assert!(matches!(&probe[1], Step::Resolve { hash } if hash == "c0ffee"));
    assert!(matches!(&probe[2], Step::Checkout { target: Revision::Commit(hash) } if hash == "c0ffee"));
    let contents = b"what the repository holds";
    assert!(!observed(contents, contents).changed());
}

#[test]
fn test_sync_naive() {
    let dotfile = plain_dotfile();
    let config = Config::default();

    let plan = dotfile.sync("dotfile", &config, None, &Observed::new());
    match &plan {
        SyncPlan::Commit { steps, .. } => assert_eq!(
            describe(steps),
            vec![
                "CopyToRepo { from: \"~/dotfile\", to: \"dotfile\" }".to_string(),
                "Commit { file: Some(\"dotfile\"), message: \"\u{1F501} Sync dotfile dotfile\", parent: None }".to_string(),
            ]
        ),
        SyncPlan::UpToDate { .. } => panic!("Failed to sync dotfile"),
    }
    let metadata = plan.finish("abc123");
    assert_eq!(metadata.install_hash, "abc123");
    assert_eq!(metadata.sync_hash, "abc123");
    assert_eq!(metadata.pre_install_hash, "");
    assert_eq!(metadata.post_install_hash, "");
}

#[test]
fn test_first_sync_makes_one_commit() {
    let dotfile = hooked_dotfile();
    let plan = dotfile.sync("kitty", &Config::default(), None, &observed(b"a", b"b"));
    let SyncPlan::Commit { steps, pre_install_hash, post_install_hash } = &plan else {
        panic!("a first sync has steps");
    };
    let commits = steps
        .iter()
        .filter(|step| matches!(step, Step::Commit { .. } | Step::Merge { .. }))
        .count();
    assert_eq!(commits, 1);
    assert_eq!(pre_install_hash, HOOK_HASH);
    assert_eq!(post_install_hash, HOOK_HASH);
    let metadata = plan.finish("feed");
    assert_eq!(metadata.install_hash, metadata.sync_hash);
}

#[test]
fn test_sync_with_metadata() {
    let dotfile = plain_dotfile();
    let metadata = DotfileMetadata {
        install_hash: "1111".to_string(),
        sync_hash: "2222".to_string(),
        pre_install_hash: "pre".to_string(),
        post_install_hash: "post".to_string(),
    };
    let config = Config::default();
    let seen = observed(b"These are local changes on the system", b"");

    let plan = dotfile.sync("dotfile", &config, Some(&metadata), &seen);
    match &plan {
        SyncPlan::Commit { steps, .. } => {
            assert_eq!(
                describe(steps),
                vec![
                    "Resolve { hash: \"1111\" }".to_string(),
                    "Checkout { target: Commit(\"1111\") }".to_string(),
                    "CopyToRepo { from: \"~/dotfile\", to: \"dotfile\" }".to_string(),
                    "Branch { name: \"merge-dotfile-dotfile\", at: \"1111\" }".to_string(),
                    "Checkout { target: Branch(\"merge-dotfile-dotfile\") }".to_string(),
                    "Commit { file: Some(\"dotfile\"), message: \"\u{1F501} Sync dotfile dotfile\", parent: Some(\"1111\") }".to_string(),
                    "Checkout { target: Start }".to_string(),
                    "Merge { theirs: Branch(\"merge-dotfile-dotfile\") }".to_string(),
                ]
            );
            assert!(!displaced(steps, steps.len()));
            assert!(displaced(steps, 2));
            assert!(displaced(steps, 6));
            assert!(!displaced(steps, 7));
        }
        SyncPlan::UpToDate { .. } => panic!("Failed to sync dotfile"),
    }
    let synced = plan.finish("3333");
    assert_eq!(synced.install_hash, "3333");
    assert_eq!(synced.sync_hash, "3333");
    assert_eq!(synced.pre_install_hash, "pre");
    assert_eq!(synced.post_install_hash, "post");
}

#[test]
fn test_sync_with_metadata_skip_if_no_changes() {
    let dotfile = plain_dotfile();
    let metadata = DotfileMetadata {
        install_hash: "1111".to_string(),
        sync_hash: "2222".to_string(),
        pre_install_hash: "".to_string(),
        post_install_hash: "".to_string(),
    };
    let config = Config::default();

    let plan = dotfile.sync("dotfile", &config, Some(&metadata), &observed(b"", b""));
    assert!(matches!(&plan, SyncPlan::UpToDate { .. }));
    let kept = plan.finish("ignored");
    assert_eq!(kept.install_hash, "1111");
    assert_eq!(kept.sync_hash, "2222");
    assert_eq!(kept.pre_install_hash, "");
    assert_eq!(kept.post_install_hash, "");
}

#[test]
fn test_sync_probe() {
    let dotfile = plain_dotfile();
    assert!(dotfile.sync_probe(None).is_empty());
    let record = metadata("aaa", "bbb", "", "");
    assert_eq!(
        describe(&dotfile.sync_probe(Some(&record))),
        describe(&dotfile.probe(&record))
    );
}

#[test]
fn test_install_dotfile_step() {
    assert_eq!(
        format!("{:?}", plain_dotfile().install_dotfile()),
        "CopyToLocal { from: \"dotfile\", to: \"~/dotfile\" }"
    );
}
