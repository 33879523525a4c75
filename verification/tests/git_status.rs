use editor_core::git::order::{compare_paths, PathOrder};
use editor_core::git::repository::RepoPath;
use editor_core::git::status::StatusCode::{
    Added, Copied, Deleted, Modified, Renamed, TypeChanged, Unmodified,
};
use editor_core::git::status::{
    parse_status, FileStatus, GitStatus, GitSummary, StatusCode, StatusError, TrackedStatus,
    UnmergedStatus, UnmergedStatusCode,
};

fn known(index_status: StatusCode, worktree_status: StatusCode) -> FileStatus {
    FileStatus::TrackedFile(TrackedStatus { index_status, worktree_status })
}

fn unmerged(first_head: UnmergedStatusCode, second_head: UnmergedStatusCode) -> FileStatus {
    FileStatus::Unmerged(UnmergedStatus { first_head, second_head })
}

fn entry(path: &str, status: FileStatus) -> (RepoPath, FileStatus) {
    (RepoPath(path.to_string()), status)
}

#[test]
fn status_code_from_byte() {
    assert_eq!(StatusCode::from_byte(b'M'), Ok(StatusCode::Modified));
    assert_eq!(StatusCode::from_byte(b'T'), Ok(StatusCode::TypeChanged));
    assert_eq!(StatusCode::from_byte(b'A'), Ok(StatusCode::Added));
    assert_eq!(StatusCode::from_byte(b'D'), Ok(StatusCode::Deleted));
    assert_eq!(StatusCode::from_byte(b'R'), Ok(StatusCode::Renamed));
    assert_eq!(StatusCode::from_byte(b'C'), Ok(StatusCode::Copied));
    assert_eq!(StatusCode::from_byte(b' '), Ok(StatusCode::Unmodified));
}

#[test]
fn status_code_from_any_other_byte_fails() {
    let codes = b"MTADRC ";
    for byte in 0..=255u8 {
        if !codes.contains(&byte) {
            assert_eq!(StatusCode::from_byte(byte), Err(StatusError::InvalidStatusCode(byte)));
        }
    }
}

#[test]
fn unmerged_status_code_from_byte() {
    assert_eq!(UnmergedStatusCode::from_byte(b'A'), Ok(UnmergedStatusCode::Added));
    assert_eq!(UnmergedStatusCode::from_byte(b'D'), Ok(UnmergedStatusCode::Deleted));
    assert_eq!(UnmergedStatusCode::from_byte(b'U'), Ok(UnmergedStatusCode::Updated));
    for byte in 0..=255u8 {
        if !b"ADU".contains(&byte) {
            assert_eq!(
                UnmergedStatusCode::from_byte(byte),
                Err(StatusError::InvalidUnmergedStatusCode(byte))
            );
        }
    }
}

#[test]
fn file_status_from_bytes_of_untracked_and_ignored() {
    assert_eq!(FileStatus::from_bytes(*b"??"), Ok(FileStatus::Untracked));
    assert_eq!(FileStatus::from_bytes(*b"!!"), Ok(FileStatus::Ignored));
    assert_eq!(FileStatus::from_bytes(*b"?!"), Err(StatusError::InvalidStatusCode(b'?')));
    assert_eq!(FileStatus::from_bytes(*b"M?"), Err(StatusError::InvalidStatusCode(b'?')));
}

#[test]
fn file_status_from_bytes_of_conflicts() {
    assert_eq!(FileStatus::from_bytes(*b"AA"), Ok(unmerged(UnmergedStatusCode::Added, UnmergedStatusCode::Added)));
    assert_eq!(FileStatus::from_bytes(*b"DD"), Ok(unmerged(UnmergedStatusCode::Added, UnmergedStatusCode::Added)));
    assert_eq!(FileStatus::from_bytes(*b"UU"), Ok(unmerged(UnmergedStatusCode::Updated, UnmergedStatusCode::Updated)));
    assert_eq!(FileStatus::from_bytes(*b"AU"), Ok(unmerged(UnmergedStatusCode::Added, UnmergedStatusCode::Updated)));
    assert_eq!(FileStatus::from_bytes(*b"DU"), Ok(unmerged(UnmergedStatusCode::Deleted, UnmergedStatusCode::Updated)));
    assert_eq!(FileStatus::from_bytes(*b"UA"), Ok(unmerged(UnmergedStatusCode::Updated, UnmergedStatusCode::Added)));
    assert_eq!(FileStatus::from_bytes(*b"UD"), Ok(unmerged(UnmergedStatusCode::Updated, UnmergedStatusCode::Deleted)));
    assert_eq!(
        FileStatus::from_bytes(*b"MU"),
        Err(StatusError::InvalidUnmergedStatusCode(b'M'))
    );
    assert_eq!(
        FileStatus::from_bytes(*b" U"),
        Err(StatusError::InvalidUnmergedStatusCode(b' '))
    );
    assert_eq!(
        FileStatus::from_bytes(*b"UM"),
        Err(StatusError::InvalidUnmergedStatusCode(b'M'))
    );
}

#[test]
fn file_status_from_bytes_of_tracked_files() {
    assert_eq!(FileStatus::from_bytes(*b" M"), Ok(known(Unmodified, Modified)));
    assert_eq!(FileStatus::from_bytes(*b"M "), Ok(known(Modified, Unmodified)));
    assert_eq!(FileStatus::from_bytes(*b"MM"), Ok(known(Modified, Modified)));
    assert_eq!(FileStatus::from_bytes(*b"A "), Ok(known(Added, Unmodified)));
    assert_eq!(FileStatus::from_bytes(*b"AD"), Ok(known(Added, Deleted)));
    assert_eq!(FileStatus::from_bytes(*b"DA"), Ok(known(Deleted, Added)));
    assert_eq!(FileStatus::from_bytes(*b"RT"), Ok(known(Renamed, TypeChanged)));
    assert_eq!(FileStatus::from_bytes(*b"C "), Ok(known(Copied, Unmodified)));
    assert_eq!(FileStatus::from_bytes(*b"  "), Ok(known(Unmodified, Unmodified)));
    assert_eq!(FileStatus::from_bytes(*b"xM"), Err(StatusError::InvalidStatusCode(b'x')));
    assert_eq!(FileStatus::from_bytes(*b"Mx"), Err(StatusError::InvalidStatusCode(b'x')));
    assert_eq!(FileStatus::from_bytes(*b"xy"), Err(StatusError::InvalidStatusCode(b'x')));
}

#[test]
fn is_staged() {
    assert_eq!(FileStatus::Untracked.is_staged(), Some(false));
    assert_eq!(FileStatus::Ignored.is_staged(), Some(false));
    assert_eq!(
        unmerged(UnmergedStatusCode::Updated, UnmergedStatusCode::Updated).is_staged(),
        Some(false)
    );
    assert_eq!(known(Unmodified, Modified).is_staged(), Some(false));
    assert_eq!(known(Unmodified, Unmodified).is_staged(), Some(false));
    assert_eq!(known(Modified, Unmodified).is_staged(), Some(true));
    assert_eq!(known(Added, Unmodified).is_staged(), Some(true));
    assert_eq!(known(Modified, Modified).is_staged(), None);
    assert_eq!(known(Added, Deleted).is_staged(), None);
}

#[test]
fn predicates_of_each_kind() {
    let conflict = unmerged(UnmergedStatusCode::Added, UnmergedStatusCode::Updated);
    assert!(conflict.is_conflicted());
    assert!(!FileStatus::Untracked.is_conflicted());
    assert!(!known(Modified, Modified).is_conflicted());

    assert!(FileStatus::Ignored.is_ignored());
    assert!(!FileStatus::Untracked.is_ignored());

    assert!(FileStatus::Untracked.is_untracked());
    assert!(!FileStatus::Ignored.is_untracked());
    assert!(!known(Added, Unmodified).is_untracked());

    assert!(known(Modified, Unmodified).is_modified());
    assert!(known(Unmodified, Modified).is_modified());
    assert!(known(Added, Modified).is_modified());
    assert!(!known(Added, Deleted).is_modified());
    assert!(!conflict.is_modified());
    assert!(!FileStatus::Untracked.is_modified());

    assert!(known(Added, Unmodified).is_created());
    assert!(known(Deleted, Added).is_created());
    assert!(!known(Modified, Modified).is_created());
    assert!(!FileStatus::Untracked.is_created());

    assert!(known(Deleted, Unmodified).is_deleted());
    assert!(known(Modified, Deleted).is_deleted());
    assert!(!known(Modified, Added).is_deleted());
    assert!(!conflict.is_deleted());
}

#[test]
fn summary_of_one_file() {
    let zero = GitSummary { added: 0, modified: 0, conflict: 0, untracked: 0 };
    assert_eq!(
        unmerged(UnmergedStatusCode::Updated, UnmergedStatusCode::Updated).summary(),
        GitSummary { conflict: 1, ..zero }
    );
    assert_eq!(FileStatus::Untracked.summary(), GitSummary { untracked: 1, ..zero });
    assert_eq!(known(Modified, Unmodified).summary(), GitSummary { modified: 1, ..zero });
    assert_eq!(known(Added, Modified).summary(), GitSummary { modified: 1, ..zero });
    assert_eq!(known(Added, Unmodified).summary(), GitSummary { added: 1, ..zero });
    assert_eq!(known(Unmodified, Added).summary(), GitSummary { added: 1, ..zero });
    assert_eq!(known(Deleted, Unmodified).summary(), zero);
    assert_eq!(known(Renamed, Copied).summary(), zero);
    assert_eq!(FileStatus::Ignored.summary(), zero);
}

#[test]
fn summaries_add_and_subtract() {
    let a = GitSummary { added: 1, modified: 2, conflict: 3, untracked: 4 };
    let b = GitSummary { added: 10, modified: 20, conflict: 30, untracked: 40 };
    let sum = GitSummary { added: 11, modified: 22, conflict: 33, untracked: 44 };
    assert_eq!(a + b, sum);
    assert_eq!(sum - a, b);
    assert_eq!(sum - sum, GitSummary::zero());
    let mut c = a;
    c += b;
    assert_eq!(c, sum);
    let mut d = a;
    d.add_summary(&b);
    assert_eq!(d, sum);
    assert_eq!(a + GitSummary::zero(), a);
}

#[test]
fn summary_zero_and_is_modified() {
    let zero = GitSummary::zero();
    assert_eq!(zero, GitSummary { added: 0, modified: 0, conflict: 0, untracked: 0 });
    assert_eq!(GitSummary::default(), zero);
    assert!(!zero.is_modified());
    assert!(GitSummary { modified: 1, ..zero }.is_modified());
    assert!(!GitSummary { added: 5, conflict: 2, untracked: 9, ..zero }.is_modified());
}

#[test]
fn summing_the_files_of_a_status() {
    let status = GitStatus::new(" M a\0A  b\0?? c\0UU d\0MM e\0D  f\0");
    let mut total = GitSummary::zero();
    for (_, file) in &status.entries {
        total += file.summary();
    }
    assert_eq!(total, GitSummary { added: 1, modified: 2, conflict: 1, untracked: 1 });
}

#[test]
fn parse_status_reads_each_entry() {
    let parsed = parse_status(" M src/main.rs\0?? notes.txt\0A  new file.rs\0");
    assert_eq!(
        parsed,
        vec![
            entry("src/main.rs", known(Unmodified, Modified)),
            entry("notes.txt", FileStatus::Untracked),
            entry("new file.rs", known(Added, Unmodified)),
        ]
    );
}

#[test]
fn parse_status_of_nothing() {
    assert_eq!(parse_status(""), vec![]);
    assert_eq!(parse_status("\0"), vec![]);
    assert_eq!(parse_status("\0\0\0"), vec![]);
}

#[test]
fn parse_status_passes_over_entries_of_another_form() {
    let parsed = parse_status("M\0 M\0MM-x\0xy z\0 M ok\0\u{e9} y\0a\u{e9} y\0M\u{e9}  y\0D  last");
    assert_eq!(
        parsed,
        vec![entry("ok", known(Unmodified, Modified)), entry("last", known(Deleted, Unmodified))]
    );
}

#[test]
fn parse_status_keeps_paths_as_they_are() {
    let parsed = parse_status("M  \0 M  two  spaces \0?? d\u{e9}j\u{e0}/\u{4e2d}.txt\0");
    assert_eq!(
        parsed,
        vec![
            entry("", known(Modified, Unmodified)),
            entry(" two  spaces ", known(Unmodified, Modified)),
            entry("d\u{e9}j\u{e0}/\u{4e2d}.txt", FileStatus::Untracked),
        ]
    );
}

#[test]
fn git_status_is_ordered_by_path() {
    let status = GitStatus::new("?? z.txt\0 M b/c.rs\0A  a.rs\0 D b.rs\0MM b-a.rs\0");
    assert_eq!(
        status.entries,
        vec![
            entry("a.rs", known(Added, Unmodified)),
            entry("b/c.rs", known(Unmodified, Modified)),
            entry("b-a.rs", known(Modified, Modified)),
            entry("b.rs", known(Unmodified, Deleted)),
            entry("z.txt", FileStatus::Untracked),
        ]
    );
}

#[test]
fn git_status_keeps_every_entry() {
    let text = "?? b\0?? a\0?? b\0!! a\0";
    let mut parsed = parse_status(text);
    let status = GitStatus::new(text);
    assert_eq!(status.entries.len(), 4);
    let mut sorted = status.entries.clone();
    let key = |e: &(RepoPath, FileStatus)| (e.0 .0.clone(), e.1.is_ignored());
    parsed.sort_by_key(key);
    sorted.sort_by_key(key);
    assert_eq!(parsed, sorted);
}

#[test]
fn default_git_status_is_empty() {
    assert!(GitStatus::default().entries.is_empty());
}

#[test]
fn statuses_convert_into_file_status_and_summary() {
    let conflict = UnmergedStatus {
        first_head: UnmergedStatusCode::Deleted,
        second_head: UnmergedStatusCode::Updated,
    };
    assert_eq!(FileStatus::from(conflict), FileStatus::Unmerged(conflict));
    let change = TrackedStatus { index_status: Added, worktree_status: Unmodified };
    assert_eq!(FileStatus::from(change), FileStatus::TrackedFile(change));
    assert_eq!(
        GitSummary::from(FileStatus::from(change)),
        GitSummary { added: 1, modified: 0, conflict: 0, untracked: 0 }
    );
    assert_eq!(
        GitSummary::from(FileStatus::from(conflict)),
        GitSummary { added: 0, modified: 0, conflict: 1, untracked: 0 }
    );
}

#[test]
fn arguments_name_the_options_and_the_prefixes() {
    let options = ["--no-optional-locks", "status", "--porcelain=v1", "--untracked-files=all", "--no-renames", "-z"];
    assert_eq!(GitStatus::arguments(&vec![]), options.to_vec());
    let prefixes = vec![
        RepoPath("src".to_string()),
        RepoPath(String::new()),
        RepoPath("docs/a b".to_string()),
    ];
    let mut expected: Vec<String> = options.iter().map(|s| s.to_string()).collect();
    expected.push("src".to_string());
    expected.push(".".to_string());
    expected.push("docs/a b".to_string());
    assert_eq!(GitStatus::arguments(&prefixes), expected);
}

#[test]
fn paths_are_ordered_component_by_component() {
    assert_eq!(compare_paths("a", "b"), PathOrder::Before);
    assert_eq!(compare_paths("b", "a"), PathOrder::After);
    assert_eq!(compare_paths("a", "a"), PathOrder::Same);
    assert_eq!(compare_paths("", ""), PathOrder::Same);
    assert_eq!(compare_paths("", "a"), PathOrder::Before);
    assert_eq!(compare_paths("a", "a/b"), PathOrder::Before);
    assert_eq!(compare_paths("a/b", "a"), PathOrder::After);
    assert_eq!(compare_paths("a", "ab"), PathOrder::Before);
    assert_eq!(compare_paths("a/z", "a-b"), PathOrder::Before);
    assert_eq!(compare_paths("a-b", "a/z"), PathOrder::After);
    assert_eq!(compare_paths("a.b/x", "a/x"), PathOrder::After);
    assert_eq!(compare_paths("a/b/c", "a/b d"), PathOrder::Before);
    assert_eq!(compare_paths("src/main.rs", "src/main.rs"), PathOrder::Same);
    assert_eq!(compare_paths("z", "\u{e9}"), PathOrder::Before);
    assert_eq!(compare_paths("\u{e9}", "\u{4e2d}"), PathOrder::Before);
}

#[test]
fn the_order_of_paths_is_that_of_their_components() {
    let paths = [
        "", "a", "b", "ab", "a/b", "a-b", "a.b", "a b", "a/b/c", "a/b-c", "a/b.c", "a/bc",
        "a-b/c", "a.b/c", "A", "a/B", "src", "src/lib.rs", "src-old/lib.rs", "src.rs", "src/a/b",
        "src/a", "src/a.rs", "d\u{e9}j\u{e0}", "d\u{e9}j\u{e0}/x", "de", "\u{4e2d}/\u{6587}", "~",
    ];
    for a in paths {
        for b in paths {
            let by_components = a.split('/').cmp(b.split('/'));
            let expected = match by_components {
                std::cmp::Ordering::Less => PathOrder::Before,
                std::cmp::Ordering::Equal => PathOrder::Same,
                std::cmp::Ordering::Greater => PathOrder::After,
            };
            assert_eq!(compare_paths(a, b), expected, "{:?} and {:?}", a, b);
            if !a.is_empty() && !b.is_empty() {
                let as_paths = std::path::Path::new(a).cmp(std::path::Path::new(b));
                assert_eq!(by_components, as_paths, "{:?} and {:?}", a, b);
            }
        }
    }
}

#[test]
fn git_status_puts_a_before_b() {
    let status = GitStatus::new("?? b\0 M a\0");
    assert_eq!(
        status.entries,
        vec![entry("a", known(Unmodified, Modified)), entry("b", FileStatus::Untracked)]
    );
}

#[test]
fn git_status_ascends_whatever_the_output_order() {
    let names = ["m/n", "m", "m-n", "a", "z/z", "m.n", "b/a", "b", "m/a/b", "m/a"];
    let mut text = String::new();
    for name in names {
        text.push_str("?? ");
        text.push_str(name);
        text.push('\0');
    }
    let status = GitStatus::new(&text);
    assert_eq!(status.entries.len(), names.len());
    for pair in status.entries.windows(2) {
        assert_eq!(compare_paths(&pair[0].0 .0, &pair[1].0 .0), PathOrder::Before);
    }
    let sorted: Vec<&str> = status.entries.iter().map(|e| e.0 .0.as_str()).collect();
    assert_eq!(sorted, ["a", "b", "b/a", "m", "m/a", "m/a/b", "m/n", "m-n", "m.n", "z/z"]);
}
