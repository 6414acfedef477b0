use differ::classify::{
    file_status, line_text, line_type, make_line, rename_source, select_path, DeltaKind,
    LineRecord,
};
use differ::error::{DiffSide, ErrorKind, GitError};
use differ::types::{FileStatus, LineType};

#[test]
fn test_status_of_each_kind() {
    assert_eq!(file_status(DeltaKind::Added), FileStatus::Added);
    assert_eq!(file_status(DeltaKind::Deleted), FileStatus::Deleted);
    assert_eq!(file_status(DeltaKind::Modified), FileStatus::Modified);
    assert_eq!(file_status(DeltaKind::Renamed), FileStatus::Renamed);
    assert_eq!(file_status(DeltaKind::Unmodified), FileStatus::Modified);
    assert_eq!(file_status(DeltaKind::Copied), FileStatus::Modified);
    assert_eq!(file_status(DeltaKind::Ignored), FileStatus::Modified);
    assert_eq!(file_status(DeltaKind::Untracked), FileStatus::Modified);
    assert_eq!(file_status(DeltaKind::Typechange), FileStatus::Modified);
    assert_eq!(file_status(DeltaKind::Unreadable), FileStatus::Modified);
    assert_eq!(file_status(DeltaKind::Conflicted), FileStatus::Modified);
}

#[test]
fn test_select_path_prefers_new_side() {
    assert_eq!(select_path(Some("new.txt".into()), Some("old.txt".into())), "new.txt");
    assert_eq!(select_path(Some("new.txt".into()), None), "new.txt");
    assert_eq!(select_path(None, Some("old.txt".into())), "old.txt");
    assert_eq!(select_path(None, None), "");
}

#[test]
fn test_rename_source_only_for_renames() {
    assert_eq!(rename_source(FileStatus::Renamed, Some("old.txt".into())), Some("old.txt".to_string()));
    assert_eq!(rename_source(FileStatus::Renamed, None), None);
    assert_eq!(rename_source(FileStatus::Added, Some("old.txt".into())), None);
    assert_eq!(rename_source(FileStatus::Modified, Some("old.txt".into())), None);
    assert_eq!(rename_source(FileStatus::Deleted, Some("old.txt".into())), None);
}

#[test]
fn test_line_type_by_origin() {
    assert_eq!(line_type('+'), LineType::Add);
    assert_eq!(line_type('-'), LineType::Delete);
    assert_eq!(line_type(' '), LineType::Context);
    assert_eq!(line_type('='), LineType::Context);
    assert_eq!(line_type('>'), LineType::Context);
    assert_eq!(line_type('<'), LineType::Context);
    assert_eq!(line_type('H'), LineType::Context);
}

#[test]
fn test_line_text_strips_one_newline() {
    assert_eq!(line_text(b"hello\n"), "hello");
    assert_eq!(line_text(b"hello"), "hello");
    assert_eq!(line_text(b"\n"), "");
    assert_eq!(line_text(b""), "");
    assert_eq!(line_text(b"a\n\n"), "a\n");
    assert_eq!(line_text(b"a\nb"), "a\nb");
    assert_eq!(line_text("gr\u{fc}n \u{2713}\n".as_bytes()), "gr\u{fc}n \u{2713}");
}

#[test]
fn test_line_text_of_invalid_bytes_is_empty() {
    assert_eq!(line_text(&[0xff, 0xfe, b'\n']), "");
    assert_eq!(line_text(&[b'a', 0xc3]), "");
    assert_eq!(line_text(&[0xc3, 0x28, b'x', b'\n']), "");
}

#[test]
fn test_make_line() {
    let added = make_line(&LineRecord {
        origin: '+',
        content: b"world\n".to_vec(),
        old_lineno: None,
        new_lineno: Some(2),
    });
    assert_eq!(added.line_type, LineType::Add);
    assert_eq!(added.content, "world");
    assert_eq!(added.old_num, None);
    assert_eq!(added.new_num, Some(2));

    let removed = make_line(&LineRecord {
        origin: '-',
        content: vec![0x80, b'\n'],
        old_lineno: Some(5),
        new_lineno: None,
    });
    assert_eq!(removed.line_type, LineType::Delete);
    assert_eq!(removed.content, "");
    assert_eq!(removed.old_num, Some(5));
    assert_eq!(removed.new_num, None);
}

#[test]
fn test_error_messages() {
    let detail = || "boom".to_string();
    assert_eq!(
        GitError::NotFound { detail: detail() }.message(),
        "Failed to discover repo: boom"
    );
    assert_eq!(GitError::NoRepoOpened.message(), "No repo opened");
    assert_eq!(
        GitError::ListBranches { detail: detail() }.message(),
        "Failed to list branches: boom"
    );
    assert_eq!(
        GitError::ReadBranch { detail: detail() }.message(),
        "Failed to read branch: boom"
    );
    assert_eq!(
        GitError::BranchName { detail: detail() }.message(),
        "Invalid branch name: boom"
    );
    assert_eq!(GitError::ListTags { detail: detail() }.message(), "Failed to list tags: boom");
    assert_eq!(
        GitError::Unresolved { side: DiffSide::Base, name: "main".into(), detail: detail() }
            .message(),
        "Failed to resolve 'main': boom"
    );
    assert_eq!(
        GitError::NoTree { side: DiffSide::Compare, name: "feature".into(), detail: detail() }
            .message(),
        "Failed to get tree for 'feature': boom"
    );
    assert_eq!(
        GitError::DiffCompute { detail: detail() }.message(),
        "Failed to generate diff: boom"
    );
}

#[test]
fn test_error_kinds() {
    let detail = || "boom".to_string();
    assert_eq!(GitError::NotFound { detail: detail() }.kind(), ErrorKind::NotFound);
    assert_eq!(GitError::NoRepoOpened.kind(), ErrorKind::NotFound);
    assert_eq!(GitError::ListBranches { detail: detail() }.kind(), ErrorKind::Listing);
    assert_eq!(GitError::ReadBranch { detail: detail() }.kind(), ErrorKind::Listing);
    assert_eq!(GitError::BranchName { detail: detail() }.kind(), ErrorKind::Listing);
    assert_eq!(GitError::ListTags { detail: detail() }.kind(), ErrorKind::Listing);
    assert_eq!(
        GitError::Unresolved { side: DiffSide::Base, name: "main".into(), detail: detail() }
            .kind(),
        ErrorKind::Resolution
    );
    assert_eq!(
        GitError::NoTree { side: DiffSide::Compare, name: "main".into(), detail: detail() }
            .kind(),
        ErrorKind::Resolution
    );
    assert_eq!(GitError::DiffCompute { detail: detail() }.kind(), ErrorKind::DiffCompute);
}
