//! The status summary and the codes it is made of.

use slick::git::get_status;
use slick::status::{
    count_code, StatusCode, CONFLICTED, IGNORED, INDEX_DELETED, INDEX_MODIFIED, INDEX_NEW,
    INDEX_RENAMED, INDEX_TYPECHANGE, WT_DELETED, WT_MODIFIED, WT_NEW, WT_RENAMED, WT_TYPECHANGE,
};

#[test]
fn test_flags_are_those_of_the_repository_library() {
    assert_eq!(INDEX_NEW, git2::Status::INDEX_NEW.bits());
    assert_eq!(INDEX_MODIFIED, git2::Status::INDEX_MODIFIED.bits());
    assert_eq!(INDEX_DELETED, git2::Status::INDEX_DELETED.bits());
    assert_eq!(INDEX_RENAMED, git2::Status::INDEX_RENAMED.bits());
    assert_eq!(INDEX_TYPECHANGE, git2::Status::INDEX_TYPECHANGE.bits());
    assert_eq!(WT_NEW, git2::Status::WT_NEW.bits());
    assert_eq!(WT_MODIFIED, git2::Status::WT_MODIFIED.bits());
    assert_eq!(WT_DELETED, git2::Status::WT_DELETED.bits());
    assert_eq!(WT_TYPECHANGE, git2::Status::WT_TYPECHANGE.bits());
    assert_eq!(WT_RENAMED, git2::Status::WT_RENAMED.bits());
    assert_eq!(IGNORED, git2::Status::IGNORED.bits());
    assert_eq!(CONFLICTED, git2::Status::CONFLICTED.bits());
}

#[test]
fn test_status_code_folding() {
    let entries = vec![INDEX_NEW | WT_MODIFIED, WT_NEW, WT_NEW];
    let status = get_status(&entries);
    let mut tokens: Vec<String> = Vec::new();
    let mut words = status.split(' ');
    while let (Some(code), Some(count)) = (words.next(), words.next()) {
        tokens.push(format!("{} {}", code, count));
    }
    tokens.sort();
    assert_eq!(tokens, vec!["?? 2", "AM 1"]);
    assert_eq!(status, "AM 1 ?? 2");
}

#[test]
fn test_status_of_a_clean_tree_is_empty() {
    assert_eq!(get_status(&Vec::new()), "");
}

#[test]
fn test_file_status_detection() {
    // One committed file, modified in the working tree.
    let flags = git2::Status::WT_MODIFIED;
    assert!(flags.is_wt_modified());
    assert_eq!(StatusCode::of(flags.bits()), StatusCode::Modified);
    assert_eq!(get_status(&vec![flags.bits()]), "M 1");
    assert_eq!(get_status(&vec![WT_MODIFIED]), "M 1");
}

#[test]
fn test_untracked_files() {
    // One file that was never added.
    let flags = git2::Status::WT_NEW;
    assert!(flags.is_wt_new());
    let entries = vec![flags.bits()];
    assert_eq!(entries.len(), 1);
    assert_eq!(get_status(&entries), "?? 1");
}

#[test]
fn test_each_code_and_its_label() {
    let cases = [
        (INDEX_NEW | WT_MODIFIED, StatusCode::AddedModified, "AM"),
        (INDEX_MODIFIED | WT_MODIFIED, StatusCode::ModifiedTwice, "MM"),
        (INDEX_MODIFIED, StatusCode::Modified, "M"),
        (WT_MODIFIED, StatusCode::Modified, "M"),
        (INDEX_DELETED, StatusCode::Deleted, "D"),
        (WT_DELETED, StatusCode::Deleted, "D"),
        (INDEX_RENAMED, StatusCode::Renamed, "R"),
        (WT_RENAMED, StatusCode::Renamed, "R"),
        (INDEX_TYPECHANGE, StatusCode::TypeChanged, "T"),
        (WT_TYPECHANGE, StatusCode::TypeChanged, "T"),
        (INDEX_NEW, StatusCode::Added, "A"),
        (WT_NEW, StatusCode::Untracked, "??"),
        (CONFLICTED, StatusCode::Conflicted, "UU"),
        (IGNORED, StatusCode::Ignored, "!"),
        (0, StatusCode::Other, "X"),
        (0x1000, StatusCode::Other, "X"),
    ];
    for (flags, code, label) in cases {
        assert_eq!(StatusCode::of(flags), code, "{:#x}", flags);
        assert_eq!(code.label(), label);
        assert_eq!(get_status(&vec![flags]), format!("{} 1", label));
    }
}

#[test]
fn test_more_specific_code_wins() {
    assert_eq!(StatusCode::of(INDEX_NEW | INDEX_MODIFIED | WT_MODIFIED), StatusCode::AddedModified);
    assert_eq!(StatusCode::of(INDEX_MODIFIED | WT_DELETED), StatusCode::Modified);
    assert_eq!(StatusCode::of(INDEX_DELETED | WT_NEW), StatusCode::Deleted);
    assert_eq!(StatusCode::of(INDEX_RENAMED | WT_TYPECHANGE), StatusCode::Renamed);
    assert_eq!(StatusCode::of(INDEX_NEW | WT_NEW), StatusCode::Added);
    assert_eq!(StatusCode::of(INDEX_NEW | WT_DELETED), StatusCode::Deleted);
    assert_eq!(StatusCode::of(WT_NEW | CONFLICTED), StatusCode::Untracked);
    assert_eq!(StatusCode::of(CONFLICTED | IGNORED), StatusCode::Conflicted);
    assert_eq!(StatusCode::of(u32::MAX), StatusCode::AddedModified);
}

#[test]
fn test_status_lists_codes_in_the_order_of_the_vocabulary() {
    let entries = vec![
        0, IGNORED, CONFLICTED, WT_NEW, INDEX_NEW, WT_TYPECHANGE, INDEX_RENAMED, WT_DELETED,
        WT_MODIFIED, INDEX_MODIFIED | WT_MODIFIED, INDEX_NEW | WT_MODIFIED, INDEX_MODIFIED,
    ];
    assert_eq!(
        get_status(&entries),
        "AM 1 MM 1 M 2 D 1 R 1 T 1 A 1 ?? 1 UU 1 ! 1 X 1"
    );
}

#[test]
fn test_status_counts_in_decimal() {
    let entries: Vec<u32> = (0..123).map(|i| if i % 3 == 0 { WT_NEW } else { WT_DELETED }).collect();
    assert_eq!(get_status(&entries), "D 82 ?? 41");
    assert_eq!(count_code(&entries, StatusCode::Deleted), 82);
    assert_eq!(count_code(&entries, StatusCode::Untracked), 41);
    assert_eq!(count_code(&entries, StatusCode::Modified), 0);
}

#[test]
fn test_vocabulary_order() {
    let labels: Vec<&str> = (0..11).map(|k| StatusCode::at(k).label()).collect();
    assert_eq!(labels, vec!["AM", "MM", "M", "D", "R", "T", "A", "??", "UU", "!", "X"]);
}
