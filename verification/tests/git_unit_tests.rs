//! The collectors of the fast snapshot.

use slick::action::{detect, Marker, Operation};
use slick::git::{
    build_prompt_fast, get_action, is_ahead_behind_remote, is_staged, remote_tokens,
    seconds_since_epoch, unix_timestamp, DiffCounts, FastQueries, Prompt, UpstreamQuery,
    NO_BRANCH,
};
use std::time::{Duration, SystemTime, UNIX_EPOCH};
use slick::EnvDefaults;

fn quiet_repository() -> FastQueries {
    FastQueries {
        head: Some("main".to_string()),
        user_name: None,
        cache: None,
        now: 1_700_000_000,
        upstream: UpstreamQuery::NoUpstream,
        markers: Vec::new(),
        diff: Some(DiffCounts { files_changed: 0, insertions: 0, deletions: 0 }),
    }
}

#[test]
fn test_unix_timestamp() {
    let timestamp = unix_timestamp();
    assert!(timestamp > 0);
    let now = std::time::SystemTime::now()
        .duration_since(std::time::UNIX_EPOCH)
        .unwrap()
        .as_secs();
    // Allow a small delta for execution time
    assert!(timestamp >= now - 5 && timestamp <= now + 5);
}

#[test]
fn test_clock_before_the_epoch_reads_as_zero() {
    let early = UNIX_EPOCH - Duration::from_secs(10);
    let failed = early.duration_since(UNIX_EPOCH).map(|d| d.as_secs());
    assert!(failed.is_err());
    assert_eq!(seconds_since_epoch(failed), 0);
    let late = UNIX_EPOCH + Duration::new(1_700_000_000, 999_999_999);
    let measured = late.duration_since(UNIX_EPOCH).map(|d| d.as_secs());
    assert_eq!(seconds_since_epoch(measured), 1_700_000_000);
    assert_eq!(seconds_since_epoch(Ok(0)), 0);
    assert_eq!(seconds_since_epoch(Ok(u64::MAX)), u64::MAX);
    let since_late = SystemTime::now().duration_since(late).map(|d| d.as_secs());
    assert!(seconds_since_epoch(since_late) > 0);
}

#[test]
fn test_get_action_no_action() {
    // A repository with one commit and nothing in progress holds no marker.
    let found: Vec<Marker> = Vec::new();
    assert_eq!(get_action(&found), None);
}

#[test]
fn test_is_staged_no_changes() {
    let diff = DiffCounts { files_changed: 0, insertions: 0, deletions: 0 };
    assert!(!is_staged(&diff));
}

#[test]
fn test_is_staged_with_staged_changes() {
    // One new file with one line, added to the index.
    let diff = DiffCounts { files_changed: 1, insertions: 1, deletions: 0 };
    assert!(is_staged(&diff));
}

#[test]
fn test_staged_changes() {
    // One file modified and staged again.
    let diff = DiffCounts { files_changed: 1, insertions: 1, deletions: 1 };
    assert!(diff.files_changed > 0);
    assert!(is_staged(&diff));
}

#[test]
fn test_get_branch_name() {
    let settings = EnvDefaults::new(&Vec::new());
    for name in ["master", "main"] {
        let mut queries = quiet_repository();
        queries.head = Some(name.to_string());
        let branch = build_prompt_fast(&queries, &settings).branch;
        assert!(branch == "master" || branch == "main");
        assert_eq!(branch, name);
    }
}

#[test]
fn test_is_staged_any_count_is_enough() {
    assert!(is_staged(&DiffCounts { files_changed: 1, insertions: 0, deletions: 0 }));
    assert!(is_staged(&DiffCounts { files_changed: 0, insertions: 3, deletions: 0 }));
    assert!(is_staged(&DiffCounts { files_changed: 0, insertions: 0, deletions: 2 }));
}

#[test]
fn test_is_ahead_behind_remote_no_remote() {
    let (ahead, behind) = is_ahead_behind_remote(&UpstreamQuery::NoUpstream);
    assert_eq!(ahead, 0);
    assert_eq!(behind, 0);
}

#[test]
fn test_is_ahead_behind_remote_failures_are_zero() {
    assert_eq!(is_ahead_behind_remote(&UpstreamQuery::NoHead), (0, 0));
    assert_eq!(is_ahead_behind_remote(&UpstreamQuery::Unreachable), (0, 0));
    assert_eq!(
        is_ahead_behind_remote(&UpstreamQuery::Distance { ahead: 2, behind: 1 }),
        (2, 1)
    );
}

#[test]
fn test_remote_tokens_behind_comes_first() {
    assert_eq!(remote_tokens(2, 1, "\u{21e1}", "\u{21e3}"), vec!["\u{21e3}1", "\u{21e1}2"]);
    assert_eq!(remote_tokens(2, 0, "\u{21e1}", "\u{21e3}"), vec!["\u{21e1}2"]);
    assert_eq!(remote_tokens(0, 12, "\u{21e1}", "\u{21e3}"), vec!["\u{21e3}12"]);
    assert!(remote_tokens(0, 0, "\u{21e1}", "\u{21e3}").is_empty());
    assert_eq!(remote_tokens(100, 7, "+", "-"), vec!["-7", "+100"]);
}

#[test]
fn test_action_names() {
    assert_eq!(get_action(&vec![Marker::RebaseApplyRebasing]), Some("rebase".to_string()));
    assert_eq!(get_action(&vec![Marker::RebaseApplyApplying]), Some("am".to_string()));
    assert_eq!(get_action(&vec![Marker::RebaseApply]), Some("am/rebase".to_string()));
    assert_eq!(get_action(&vec![Marker::RebaseRebasing]), Some("rebase".to_string()));
    assert_eq!(get_action(&vec![Marker::RebaseApplying]), Some("am".to_string()));
    assert_eq!(get_action(&vec![Marker::Rebase]), Some("am/rebase".to_string()));
    assert_eq!(get_action(&vec![Marker::DotestRebasing]), Some("rebase".to_string()));
    assert_eq!(get_action(&vec![Marker::DotestApplying]), Some("am".to_string()));
    assert_eq!(get_action(&vec![Marker::Dotest]), Some("am/rebase".to_string()));
    assert_eq!(get_action(&vec![Marker::RebaseMergeInteractive]), Some("rebase-i".to_string()));
    assert_eq!(get_action(&vec![Marker::DotestMergeInteractive]), Some("rebase-i".to_string()));
    assert_eq!(get_action(&vec![Marker::RebaseMerge]), Some("rebase-m".to_string()));
    assert_eq!(get_action(&vec![Marker::DotestMerge]), Some("rebase-m".to_string()));
    assert_eq!(get_action(&vec![Marker::MergeHead]), Some("merge".to_string()));
    assert_eq!(get_action(&vec![Marker::BisectLog]), Some("bisect".to_string()));
    assert_eq!(get_action(&vec![Marker::CherryPickHead]), Some("cherry".to_string()));
    assert_eq!(
        get_action(&vec![Marker::Sequencer, Marker::CherryPickHead]),
        Some("cherry-seq".to_string())
    );
    assert_eq!(get_action(&vec![Marker::Sequencer]), Some("cherry-or-revert".to_string()));
}

#[test]
fn test_action_first_rule_wins() {
    let everything = Marker::all();
    assert_eq!(everything.len(), 17);
    assert_eq!(detect(&everything), Some(Operation::Rebase));
    // A patch directory with `applying` in it is a mailbox, not a rebase.
    assert_eq!(
        detect(&vec![Marker::RebaseApply, Marker::RebaseApplyApplying]),
        Some(Operation::Am)
    );
    // An earlier directory decides before a later one is looked at.
    assert_eq!(
        detect(&vec![Marker::DotestRebasing, Marker::RebaseApply]),
        Some(Operation::AmRebase)
    );
    assert_eq!(
        detect(&vec![Marker::RebaseMerge, Marker::DotestMergeInteractive]),
        Some(Operation::RebaseInteractive)
    );
    assert_eq!(
        detect(&vec![Marker::Sequencer, Marker::BisectLog, Marker::MergeHead]),
        Some(Operation::Merge)
    );
    assert_eq!(detect(&vec![Marker::CherryPickHead, Marker::BisectLog]), Some(Operation::Bisect));
}

#[test]
fn test_marker_paths() {
    assert_eq!(Marker::RebaseApplyRebasing.path(), "rebase-apply/rebasing");
    assert_eq!(Marker::Dotest.path(), "../.dotest");
    assert_eq!(Marker::DotestMergeInteractive.path(), ".dotest-merge/interactive");
    assert_eq!(Marker::MergeHead.path(), "MERGE_HEAD");
    assert_eq!(Marker::BisectLog.path(), "BISECT_LOG");
    assert_eq!(Marker::CherryPickHead.path(), "CHERRY_PICK_HEAD");
    assert_eq!(Marker::Sequencer.path(), "sequencer");
    let paths: Vec<&str> = Marker::all().into_iter().map(|m| m.path()).collect();
    assert_eq!(
        paths,
        vec![
            "rebase-apply/rebasing",
            "rebase-apply/applying",
            "rebase-apply",
            "rebase/rebasing",
            "rebase/applying",
            "rebase",
            "../.dotest/rebasing",
            "../.dotest/applying",
            "../.dotest",
            "rebase-merge/interactive",
            ".dotest-merge/interactive",
            "rebase-merge",
            ".dotest-merge",
            "MERGE_HEAD",
            "BISECT_LOG",
            "CHERRY_PICK_HEAD",
            "sequencer",
        ]
    );
}

#[test]
fn test_default_prompt_is_empty() {
    let prompt = Prompt::default();
    assert_eq!(prompt.action, "");
    assert_eq!(prompt.branch, "");
    assert!(prompt.remote.is_empty());
    assert!(!prompt.staged);
    assert_eq!(prompt.status, "");
    assert_eq!(prompt.u_name, "");
    assert!(!prompt.auth_failed);
}

#[test]
fn test_prompt_clone_keeps_every_field() {
    let prompt = Prompt {
        action: "merge".to_string(),
        branch: "main".to_string(),
        remote: vec!["\u{21e3}1".to_string(), "\u{21e1}2".to_string()],
        staged: true,
        status: "M 1".to_string(),
        u_name: "Test User".to_string(),
        auth_failed: true,
    };
    let copy = prompt.clone();
    assert_eq!(copy.action, "merge");
    assert_eq!(copy.branch, "main");
    assert_eq!(copy.remote, vec!["\u{21e3}1", "\u{21e1}2"]);
    assert!(copy.staged);
    assert_eq!(copy.status, "M 1");
    assert_eq!(copy.u_name, "Test User");
    assert!(copy.auth_failed);
}

#[test]
fn test_fast_prompt_of_a_quiet_repository() {
    let settings = EnvDefaults::new(&Vec::new());
    let prompt = build_prompt_fast(&quiet_repository(), &settings);
    assert_eq!(prompt.action, "");
    assert_eq!(prompt.branch, "main");
    assert!(prompt.remote.is_empty());
    assert!(!prompt.staged);
    assert_eq!(prompt.status, "");
    assert_eq!(prompt.u_name, "");
    assert!(!prompt.auth_failed);
}

#[test]
fn test_fast_prompt_with_everything_found() {
    let settings = EnvDefaults::new(&Vec::new());
    let queries = FastQueries {
        head: Some("feature/x".to_string()),
        user_name: Some("Test User".to_string()),
        cache: Some("1699999900:1".to_string()),
        now: 1_700_000_000,
        upstream: UpstreamQuery::Distance { ahead: 2, behind: 1 },
        markers: vec![Marker::MergeHead],
        diff: Some(DiffCounts { files_changed: 1, insertions: 4, deletions: 0 }),
    };
    let prompt = build_prompt_fast(&queries, &settings);
    assert_eq!(prompt.action, "merge");
    assert_eq!(prompt.branch, "feature/x");
    assert_eq!(prompt.remote, vec!["\u{21e3}1", "\u{21e1}2"]);
    assert!(prompt.staged);
    assert_eq!(prompt.status, "");
    assert_eq!(prompt.u_name, "Test User");
    assert!(prompt.auth_failed);
}

#[test]
fn test_fast_prompt_when_every_query_failed() {
    let settings = EnvDefaults::new(&Vec::new());
    let queries = FastQueries {
        head: None,
        user_name: None,
        cache: Some("garbage".to_string()),
        now: 1_700_000_000,
        upstream: UpstreamQuery::NoHead,
        markers: Vec::new(),
        diff: None,
    };
    let prompt = build_prompt_fast(&queries, &settings);
    assert_eq!(prompt.action, "");
    assert_eq!(prompt.branch, NO_BRANCH);
    assert_eq!(prompt.branch, "(no branch)");
    assert!(prompt.remote.is_empty());
    assert!(!prompt.staged);
    assert_eq!(prompt.status, "");
    assert_eq!(prompt.u_name, "");
    assert!(!prompt.auth_failed);
}

#[test]
fn test_fast_prompt_uses_the_symbols_of_the_settings() {
    let vars = vec![
        ("SLICK_PROMPT_GIT_REMOTE_AHEAD".to_string(), "A".to_string()),
        ("SLICK_PROMPT_GIT_REMOTE_BEHIND".to_string(), "B".to_string()),
    ];
    let settings = EnvDefaults::new(&vars);
    let mut queries = quiet_repository();
    queries.upstream = UpstreamQuery::Distance { ahead: 3, behind: 40 };
    let prompt = build_prompt_fast(&queries, &settings);
    assert_eq!(prompt.remote, vec!["B40", "A3"]);
}

#[test]
fn test_fast_prompt_ignores_a_stale_cache() {
    let settings = EnvDefaults::new(&Vec::new());
    let mut queries = quiet_repository();
    queries.cache = Some("1699999700:1".to_string());
    assert!(!build_prompt_fast(&queries, &settings).auth_failed);
    queries.cache = Some("1699999701:1".to_string());
    assert!(build_prompt_fast(&queries, &settings).auth_failed);
}
