use git2_ox::api::{ApiStatusDetailResponse, ApiStatusResponse, AppError};
use git2_ox::commit::{RawCommit, RawSignature};
use git2_ox::diff::{
    asks_for_content, changed_paths, kept_content, OldBlob, OldSide, PatchLine, RawDiffStats,
};
use git2_ox::error::{
    ErrorKind, StoreFailure, CODE_EXISTS, CODE_GENERIC, CODE_INVALID, CODE_INVALID_SPEC,
    CODE_NOT_FOUND,
};
use git2_ox::filter::{
    branches_among, commit_passes, filter_commit, filter_references, matching_commits,
    name_matches, passes, tags_among,
};
use git2_ox::flow::{
    CreateFlowResponse, FlowData, FlowMetadata, FullFlowRequestResponse, ListFlowsResponse,
};
use git2_ox::reference::{
    resolved_among, RawReference, ReferenceRead, ReferenceResolution, ReferencesMap,
};
use git2_ox::repository::{checked_head_target, failed_move, needs_restore, HeadTarget};
use git2_ox::status::{
    classify, current_branch_of, Change, StatusEntry, StatusQuery, TreeStatus,
    STATUS_CONFLICTED, STATUS_INDEX_DELETED, STATUS_INDEX_MODIFIED, STATUS_INDEX_NEW,
    STATUS_INDEX_RENAMED, STATUS_WT_DELETED, STATUS_WT_MODIFIED, STATUS_WT_NEW,
    STATUS_WT_RENAMED,
};
use git2_ox::text::{
    count_lines, replace_separators, same_text, text_contains, text_contains_ignoring_case,
    to_kebab_case,
};
use git2_ox::utils::{
    confirm_resolution, range_text, to_safe_glob, SORT_NEWEST_FIRST, SORT_TIME, SORT_TOPOLOGICAL,
};
use git2_ox::{
    Branch, Commit, CommitProperties, CommitWithReferences, Diff, Error, ObjectId, ReferenceKind,
    ReferenceKindFilter, ReferenceMetadata, ResolvedReference, Status, TaggedCommit,
};

const HEX_A: &str = "0123456789abcdef0123456789abcdef01234567";
const HEX_B: &str = "ffffffffffffffffffffffffffffffffffffffff";

fn oid(hex: &str) -> ObjectId {
    ObjectId::from_hex(hex).unwrap()
}

fn raw_commit(hex: &str, summary: Option<&str>) -> RawCommit {
    RawCommit::new(
        oid(hex),
        summary,
        Some("the body"),
        1_700_000_000,
        RawSignature::new(Some("Committer"), Some("committer@example.com")),
        RawSignature::new(Some("Author"), None),
    )
}

fn commit(hex: &str, summary: &str) -> Commit {
    Commit::from_raw(raw_commit(hex, Some(summary)))
}

fn raw_reference(name: &str, shorthand: &str) -> RawReference {
    RawReference {
        name: Some(name.to_string()),
        shorthand: Some(shorthand.to_string()),
        is_tag: name.starts_with("refs/tags/"),
        is_branch: name.starts_with("refs/heads/"),
        is_remote: name.starts_with("refs/remotes/"),
        is_note: name.starts_with("refs/notes/"),
    }
}

fn resolved(name: &str, kind: ReferenceKind, hex: &str) -> ResolvedReference {
    ResolvedReference::new(ReferenceMetadata::new(name, kind), commit(hex, "summary"))
}

fn failure(code: i32) -> StoreFailure {
    StoreFailure::new(code, "the store said so".to_string())
}

#[test]
fn test_to_kebab_case() {
    assert_eq!(to_kebab_case("Hello World"), "hello-world");
    assert_eq!(to_kebab_case("hello_world"), "hello-world");
    assert_eq!(to_kebab_case("Rust Programming"), "rust-programming");
    assert_eq!(to_kebab_case("Debug Tree CLI"), "debug-tree-cli");
}

#[test]
fn test_to_kebab_case_edges() {
    assert_eq!(to_kebab_case(""), "");
    assert_eq!(to_kebab_case("  _"), "---");
    assert_eq!(to_kebab_case("ÄÖ Ü"), "äö-ü");
    assert_eq!(to_kebab_case("already-kebab"), "already-kebab");
    assert_eq!(replace_separators("A b_C"), "A-b-C");
}

#[test]
fn test_to_safe_glob() {
    assert_eq!(to_safe_glob("v1"), "*v1*");
    assert_eq!(to_safe_glob(""), "**");
    assert_eq!(to_safe_glob("a*b"), "*a\\*b*");
    assert_eq!(to_safe_glob("[x]?"), "*\\[x]\\?*");
    assert_eq!(to_safe_glob("**"), "*\\*\\**");
    assert_eq!(to_safe_glob("a\\b"), "*a\\b*");
}

#[test]
fn test_text_contains() {
    assert!(text_contains("refs/heads/main", "heads"));
    assert!(text_contains("main", ""));
    assert!(text_contains("", ""));
    assert!(text_contains("main", "main"));
    assert!(text_contains("main", "n"));
    assert!(text_contains("aab", "ab"));
    assert!(!text_contains("main", "Main"));
    assert!(!text_contains("main", "mainly"));
    assert!(!text_contains("", "a"));
    assert!(!text_contains("abcabd", "abe"));
    assert!(text_contains("größe", "öß"));
    assert!(text_contains_ignoring_case("Feature/Login", "feature/LOG"));
    assert!(!text_contains_ignoring_case("Feature/Login", "logout"));
    assert!(same_text("a", "a"));
    assert!(!same_text("a", "b"));
    assert!(!same_text("a", "ab"));
}

#[test]
fn test_count_lines() {
    assert_eq!(count_lines(""), 0);
    assert_eq!(count_lines("a"), 1);
    assert_eq!(count_lines("a\n"), 1);
    assert_eq!(count_lines("a\nb"), 2);
    assert_eq!(count_lines("a\nb\n"), 2);
    assert_eq!(count_lines("\n"), 1);
    assert_eq!(count_lines("\n\n"), 2);
    assert_eq!(count_lines("a\r\nb\r\n"), 2);
    for text in ["", "a", "a\n", "a\nb", "\n\nx", "a\r\nb", "one\ntwo\nthree\n"] {
        assert_eq!(count_lines(text), text.lines().count());
    }
}

#[test]
fn test_object_id_hex() {
    let id = oid(HEX_A);
    assert_eq!(id.to_hex(), HEX_A);
    assert_eq!(id.as_bytes()[0], 0x01);
    assert_eq!(id.as_bytes()[1], 0x23);
    assert_eq!(id.as_bytes()[19], 0x67);
    assert_eq!(oid(&HEX_A.to_uppercase()), id);
    assert_eq!(oid(&HEX_A.to_uppercase()).to_hex(), HEX_A);
    assert!(id.same(&oid(HEX_A)));
    assert!(!id.same(&oid(HEX_B)));
    assert!(!id.is_zero());
    assert!(ObjectId::from_array([0u8; 20]).is_zero());
    assert_eq!(
        ObjectId::from_array([0u8; 20]).to_hex(),
        "0000000000000000000000000000000000000000"
    );
    let mut bytes = [0u8; 20];
    bytes[19] = 1;
    assert!(!ObjectId::from_array(bytes).is_zero());
    assert_eq!(ObjectId::from_bytes(&bytes), Some(ObjectId::from_array(bytes)));
    assert_eq!(ObjectId::from_bytes(&bytes[0..19]), None);
    assert_eq!(ObjectId::from_bytes(&[0u8; 21]), None);
}

#[test]
fn test_object_id_from_hex_follows_the_store() {
    // what this library reads as an id is what git2 reads as an id
    for text in [
        HEX_A,
        HEX_B,
        "a",
        "abc",
        "ABCDEF12",
        "0",
        "",
        "xyz",
        "12 34",
        "0123456789abcdef0123456789abcdef012345678",
        "0123456789abcdef0123456789abcdef0123456g",
        "é",
    ] {
        let ours = ObjectId::from_hex(text).map(|id| id.as_bytes().to_vec());
        let theirs = git2::Oid::from_str(text).ok().map(|id| id.as_bytes().to_vec());
        assert_eq!(ours, theirs);
    }
    assert_eq!(oid("a").to_hex(), "a000000000000000000000000000000000000000");
    assert_eq!(oid("abc").to_hex(), "abc0000000000000000000000000000000000000");
    assert_eq!(oid(HEX_A).to_hex(), git2::Oid::from_str(HEX_A).unwrap().to_string());
}

#[test]
fn test_error_kinds_follow_the_code() {
    let cases = [
        (CODE_NOT_FOUND, ErrorKind::NotFound),
        (CODE_INVALID, ErrorKind::Invalid),
        (CODE_INVALID_SPEC, ErrorKind::Invalid),
        (CODE_EXISTS, ErrorKind::Conflict),
        (CODE_GENERIC, ErrorKind::Generic),
        (0, ErrorKind::Generic),
        (-5, ErrorKind::Generic),
        (-13, ErrorKind::Generic),
        (i32::MIN, ErrorKind::Generic),
        (3, ErrorKind::Generic),
    ];
    for (code, kind) in cases {
        let e = Error::from_ctx_and_error("doing".to_string(), failure(code));
        assert_eq!(e.kind(), kind);
        assert_eq!(e.context().ctx, "doing");
        assert_eq!(e.context().err, failure(code));
    }
    assert_eq!(CODE_NOT_FOUND, git2::Error::new(git2::ErrorCode::NotFound, git2::ErrorClass::None, "x").raw_code());
    assert_eq!(CODE_EXISTS, git2::Error::new(git2::ErrorCode::Exists, git2::ErrorClass::None, "x").raw_code());
    assert_eq!(CODE_INVALID, git2::Error::new(git2::ErrorCode::Invalid, git2::ErrorClass::None, "x").raw_code());
    assert_eq!(CODE_INVALID_SPEC, git2::Error::new(git2::ErrorCode::InvalidSpec, git2::ErrorClass::None, "x").raw_code());
    assert_eq!(CODE_GENERIC, git2::Error::from_str("x").raw_code());
}

#[test]
fn test_error_messages() {
    let make = |code| Error::from_ctx_and_error("Revision 'x'".to_string(), failure(code));
    assert_eq!(
        make(CODE_GENERIC).message(),
        "Generic Error: Revision 'x': the store said so"
    );
    assert_eq!(
        make(CODE_NOT_FOUND).message(),
        "Revision 'x': the store said so not found"
    );
    assert_eq!(
        make(CODE_INVALID).message(),
        "Invalid Revision 'x': the store said so"
    );
    assert_eq!(
        make(CODE_EXISTS).message(),
        "Conflict: Revision 'x': the store said so"
    );
    assert_eq!(make(CODE_EXISTS).context().text(), "Revision 'x': the store said so");
    let e = Error::from_ctx("Reference is not a tag");
    assert_eq!(e.kind(), ErrorKind::Generic);
    assert_eq!(e.context().err.code, CODE_GENERIC);
    assert_eq!(e.clone(), e);
    let e = Error::invalid("both");
    assert_eq!(e.kind(), ErrorKind::Invalid);
    assert_eq!(e.context().ctx, "both");
}

#[test]
fn test_commit_from_raw() {
    let c = Commit::from_raw(raw_commit(HEX_A, Some("the summary")));
    assert_eq!(c.id(), HEX_A);
    assert_eq!(c.summary(), "the summary");
    assert_eq!(c.body(), "the body");
    assert_eq!(c.time(), 1_700_000_000);
    assert_eq!(c.committer().name(), "Committer");
    assert_eq!(c.committer().email(), "committer@example.com");
    assert_eq!(c.author().name(), "Author");
    assert_eq!(c.author().email(), "");
    assert_eq!(c.clone(), c);

    let c = Commit::from_raw(RawCommit::new(
        oid(HEX_B),
        None,
        None,
        -1,
        RawSignature::new(None, None),
        RawSignature::new(None, None),
    ));
    assert_eq!(c.id(), HEX_B);
    assert_eq!(c.summary(), "");
    assert_eq!(c.body(), "");
    assert_eq!(c.time(), -1);
    assert_eq!(c.author().name(), "");
}

#[test]
fn test_commit_time_outside_the_calendar_is_the_epoch() {
    for seconds in [i64::MAX, i64::MIN, 9_000_000_000_000, -9_000_000_000_000] {
        let mut raw = raw_commit(HEX_A, None);
        raw.seconds = seconds;
        assert_eq!(Commit::from_raw(raw).time(), 0);
    }
    for seconds in [0, 1, -1, 8_210_266_876_799, -8_334_601_228_800] {
        let mut raw = raw_commit(HEX_A, None);
        raw.seconds = seconds;
        assert_eq!(Commit::from_raw(raw).time(), seconds);
    }
    assert_eq!(
        Commit::from_raw_and_time(raw_commit(HEX_A, None), None).time(),
        0
    );
    assert_eq!(
        Commit::from_raw_and_time(raw_commit(HEX_A, None), Some(42)).time(),
        42
    );
}

#[test]
fn test_commit_with_references() {
    let c = commit(HEX_A, "s");
    let refs = vec![
        ReferenceMetadata::new("main", ReferenceKind::Branch),
        ReferenceMetadata::new("v1", ReferenceKind::Tag),
    ];
    let with = CommitWithReferences::from_commit_and_references(&c, Some(&refs));
    assert_eq!(with.commit(), &c);
    assert_eq!(with.references(), &refs);
    assert_eq!(with.id(), HEX_A);
    assert_eq!(with.summary(), "s");
    let without = CommitWithReferences::from_commit_and_references(&c, None);
    assert_eq!(without.references().len(), 0);
    assert_eq!(with.clone(), with);
    let raw = CommitWithReferences::from_raw_commit_and_references(
        raw_commit(HEX_A, Some("s")),
        Some(&refs),
    );
    assert_eq!(raw.references(), &refs);
    assert_eq!(raw.commit().body(), "the body");
}

#[test]
fn test_reference_kind_precedence() {
    let mut raw = raw_reference("refs/tags/v1", "v1");
    assert_eq!(ReferenceKind::from_raw(&raw).unwrap(), ReferenceKind::Tag);
    raw.is_branch = true;
    raw.is_remote = true;
    raw.is_note = true;
    assert_eq!(ReferenceKind::from_raw(&raw).unwrap(), ReferenceKind::Tag);
    raw.is_tag = false;
    assert_eq!(ReferenceKind::from_raw(&raw).unwrap(), ReferenceKind::Branch);
    raw.is_branch = false;
    assert_eq!(
        ReferenceKind::from_raw(&raw).unwrap(),
        ReferenceKind::RemoteBranch
    );
    raw.is_remote = false;
    assert_eq!(ReferenceKind::from_raw(&raw).unwrap(), ReferenceKind::Note);
    raw.is_note = false;
    let e = ReferenceKind::from_raw(&raw).err().unwrap();
    assert_eq!(e.kind(), ErrorKind::Generic);
    assert_eq!(e.context().ctx, "Unknown reference type");
}

#[test]
fn test_reference_metadata_from_raw() {
    let m = ReferenceMetadata::from_raw(&raw_reference("refs/heads/main", "main")).unwrap();
    assert_eq!(m.name(), "main");
    assert_eq!(m.kind(), ReferenceKind::Branch);
    let m = ReferenceMetadata::from_raw(&raw_reference("refs/remotes/origin/main", "origin/main"))
        .unwrap();
    assert_eq!(m.kind(), ReferenceKind::RemoteBranch);
    let m = ReferenceMetadata::from_raw(&raw_reference("refs/notes/commits", "commits")).unwrap();
    assert_eq!(m.kind(), ReferenceKind::Note);

    let mut raw = raw_reference("refs/stash", "stash");
    let e = ReferenceMetadata::from_raw(&raw).err().unwrap();
    assert_eq!(e.kind(), ErrorKind::Generic);
    // the name is looked at first
    raw.shorthand = None;
    let e = ReferenceMetadata::from_raw(&raw).err().unwrap();
    assert_eq!(e.kind(), ErrorKind::Invalid);
    let mut raw = raw_reference("refs/heads/main", "main");
    raw.shorthand = None;
    let e = ReferenceMetadata::from_raw(&raw).err().unwrap();
    assert_eq!(e.kind(), ErrorKind::Invalid);
    assert_eq!(e.context().ctx, "Invalid UTF-8 in reference name");
}

fn resolution(name: &str, shorthand: &str, target: Result<&str, i32>) -> ReferenceResolution {
    ReferenceResolution {
        raw: raw_reference(name, shorthand),
        target: target.map(oid).map_err(failure),
    }
}

#[test]
fn test_references_map() {
    let items = vec![
        resolution("refs/heads/main", "main", Ok(HEX_A)),
        resolution("refs/tags/v1", "v1", Ok(HEX_B)),
        resolution("refs/heads/broken", "broken", Err(CODE_NOT_FOUND)),
        resolution("refs/stash", "stash", Ok(HEX_A)),
        resolution("refs/tags/v2", "v2", Ok(HEX_A)),
    ];
    let map = ReferencesMap::from_resolutions(&items);
    let at_a = map.get_references_for_commit_oid(&oid(HEX_A)).unwrap();
    assert_eq!(
        at_a,
        &vec![
            ReferenceMetadata::new("main", ReferenceKind::Branch),
            ReferenceMetadata::new("v2", ReferenceKind::Tag),
        ]
    );
    let at_b = map.get_references_for_commit_id(HEX_B).unwrap();
    assert_eq!(at_b, &vec![ReferenceMetadata::new("v1", ReferenceKind::Tag)]);
    assert_eq!(
        map.get_references_for_commit_id(&HEX_B.to_uppercase()),
        Some(at_b)
    );
    let other = "1111111111111111111111111111111111111111";
    assert!(map.get_references_for_commit_oid(&oid(other)).is_none());
    assert!(map.get_references_for_commit_id(other).is_none());
    // a text that is no id finds nothing
    assert!(map.get_references_for_commit_id("not an id").is_none());
    assert!(map.get_references_for_commit_id("").is_none());
    assert!(ReferencesMap::new().get_references_for_commit_id(HEX_A).is_none());
    // the references that are not listed are kept for the caller to report
    let skipped: Vec<(&str, ErrorKind)> = map
        .skipped()
        .iter()
        .map(|s| (s.name.as_str(), s.error.kind()))
        .collect();
    assert_eq!(
        skipped,
        vec![
            ("refs/heads/broken", ErrorKind::NotFound),
            ("refs/stash", ErrorKind::Generic),
        ]
    );
}

#[test]
fn test_references_map_keys_are_the_commits_reached() {
    let other = "1111111111111111111111111111111111111111";
    let mut nameless = resolution("refs/heads/x", "x", Ok(HEX_B));
    nameless.raw.name = None;
    nameless.raw.shorthand = None;
    let items = vec![
        // reached only by a reference without a kind: a commit of the index, with no reference
        resolution("refs/stash", "stash", Ok(HEX_A)),
        // reached only by a reference without a name
        nameless,
        // not reached: the reference does not peel
        resolution("refs/heads/broken", "broken", Err(CODE_NOT_FOUND)),
    ];
    let map = ReferencesMap::from_resolutions(&items);
    assert_eq!(map.get_references_for_commit_id(HEX_A), Some(&vec![]));
    assert_eq!(map.get_references_for_commit_id(HEX_B), Some(&vec![]));
    assert_eq!(map.get_references_for_commit_id(other), None);
    let names: Vec<&str> = map.skipped().iter().map(|s| s.name.as_str()).collect();
    assert_eq!(names, vec!["refs/stash", "unknown reference", "refs/heads/broken"]);
    let c = commit(HEX_A, "s");
    let with = CommitWithReferences::from_commit_and_references(
        &c,
        map.get_references_for_commit_id(HEX_A),
    );
    assert_eq!(with.references().len(), 0);
}

#[test]
fn test_references_map_insert() {
    let mut map = ReferencesMap::new();
    map.insert(oid(HEX_A), ReferenceMetadata::new("one", ReferenceKind::Branch));
    map.insert(oid(HEX_B), ReferenceMetadata::new("two", ReferenceKind::Tag));
    map.insert(oid(HEX_A), ReferenceMetadata::new("three", ReferenceKind::Note));
    let names = |id: &str| -> Vec<String> {
        map.get_references_for_commit_id(id)
            .unwrap()
            .iter()
            .map(|r| r.name().to_string())
            .collect()
    };
    assert_eq!(names(HEX_A), vec!["one", "three"]);
    assert_eq!(names(HEX_B), vec!["two"]);

    let mut map = ReferencesMap::new();
    let e = map
        .try_insert_reference(&resolution("refs/heads/x", "x", Err(CODE_NOT_FOUND)))
        .err()
        .unwrap();
    assert_eq!(e.kind(), ErrorKind::NotFound);
    assert_eq!(e.context().ctx, "Failed to peel reference to commit");
    let e = map
        .try_insert_reference(&resolution("refs/stash", "stash", Ok(HEX_A)))
        .err()
        .unwrap();
    assert_eq!(e.kind(), ErrorKind::Generic);
    // the commit is in the index all the same, with no reference listed
    assert_eq!(map.get_references_for_commit_id(HEX_A), Some(&vec![]));
    map.try_insert_reference(&resolution("refs/heads/x", "x", Ok(HEX_A)))
        .unwrap();
    assert_eq!(map.get_references_for_commit_id(HEX_A).unwrap().len(), 1);
    let mut map = ReferencesMap::new();
    map.touch(oid(HEX_B));
    map.insert(oid(HEX_B), ReferenceMetadata::new("one", ReferenceKind::Branch));
    map.touch(oid(HEX_B));
    assert_eq!(map.get_references_for_commit_id(HEX_B).unwrap().len(), 1);
    assert_eq!(map.skipped().len(), 0);
}

fn read(name: &str, shorthand: &str, target: Result<&str, i32>) -> ReferenceRead {
    ReferenceRead {
        raw: raw_reference(name, shorthand),
        target: target
            .map(|hex| commit(hex, "summary"))
            .map_err(|code| Error::from_ctx_and_error("Commit".to_string(), failure(code))),
    }
}

#[test]
fn test_resolved_among() {
    let mut nameless = read("refs/heads/x", "x", Ok(HEX_A));
    nameless.raw.shorthand = None;
    let items = vec![
        read("refs/heads/main", "main", Ok(HEX_A)),
        read("refs/stash", "stash", Ok(HEX_A)),
        read("refs/tags/v1", "v1", Err(CODE_NOT_FOUND)),
        nameless,
        read("refs/tags/v2", "v2", Ok(HEX_B)),
        read("refs/heads/main", "main", Ok(HEX_B)),
    ];
    let kept = resolved_among(&items);
    let listed: Vec<(&str, ReferenceKind, &str)> = kept
        .iter()
        .map(|r| (r.name(), r.kind(), r.target().id()))
        .collect();
    assert_eq!(
        listed,
        vec![
            ("main", ReferenceKind::Branch, HEX_A),
            ("v2", ReferenceKind::Tag, HEX_B),
            ("main", ReferenceKind::Branch, HEX_B),
        ]
    );
    assert_eq!(resolved_among(&vec![]).len(), 0);

    let r = ResolvedReference::from_read(read("refs/tags/v1", "v1", Ok(HEX_A))).unwrap();
    assert_eq!(r, resolved("v1", ReferenceKind::Tag, HEX_A));
    let e = ResolvedReference::from_read(read("refs/tags/v1", "v1", Err(CODE_NOT_FOUND)))
        .err()
        .unwrap();
    assert_eq!(e.kind(), ErrorKind::NotFound);
    let e = ResolvedReference::from_read(read("refs/stash", "stash", Err(CODE_NOT_FOUND)))
        .err()
        .unwrap();
    assert_eq!(e.kind(), ErrorKind::Generic);
    let mut nameless = read("refs/stash", "stash", Ok(HEX_A));
    nameless.raw.shorthand = None;
    let e = ResolvedReference::from_read(nameless).err().unwrap();
    assert_eq!(e.kind(), ErrorKind::Invalid);
}

#[test]
fn test_changed_paths() {
    let sides = vec![
        OldSide { id: oid(HEX_A), path: Some("a".to_string()) },
        OldSide { id: oid(HEX_A), path: None },
        OldSide { id: oid(HEX_B), path: Some("dir/b".to_string()) },
    ];
    assert_eq!(changed_paths(&sides), vec!["a", "dir/b"]);
    assert_eq!(changed_paths(&vec![]), Vec::<String>::new());
    // a path that no C string can hold is not handed back to the store
    let sides = vec![
        OldSide { id: oid(HEX_A), path: Some("a\0b".to_string()) },
        OldSide { id: oid(HEX_A), path: Some("c".to_string()) },
        OldSide { id: oid(HEX_A), path: Some("\0".to_string()) },
    ];
    assert_eq!(changed_paths(&sides), vec!["c"]);
    assert!(git2_ox::text::holds_nul("a\0"));
    assert!(!git2_ox::text::holds_nul("a0"));
    assert!(!git2_ox::text::holds_nul(""));
}

#[test]
fn test_old_content_decisions() {
    let zero = "0000000000000000000000000000000000000000";
    assert!(asks_for_content(&OldSide { id: oid(HEX_A), path: None }));
    assert!(!asks_for_content(&OldSide { id: oid(zero), path: Some("a".to_string()) }));
    assert_eq!(kept_content(Some(Ok(vec![1, 2, 3]))), Some(vec![1, 2, 3]));
    assert_eq!(kept_content(Some(Ok(vec![]))), Some(vec![]));
    assert_eq!(kept_content(Some(Err(failure(CODE_NOT_FOUND)))), None);
    assert_eq!(kept_content(None), None);
}

#[test]
fn test_restore_decisions() {
    let paths = vec!["a".to_string()];
    assert!(needs_restore(true, &paths));
    assert!(!needs_restore(false, &paths));
    assert!(!needs_restore(true, &vec![]));
    assert!(!needs_restore(false, &vec![]));

    for restored in [None, Some(Ok(()))] {
        let e = failed_move("v1", failure(-14), restored);
        assert_eq!(e.kind(), ErrorKind::Generic);
        assert_eq!(e.context().ctx, "Failed to set head to revision 'v1'");
        assert_eq!(e.context().err, failure(-14));
    }
    let e = failed_move("v1", failure(-14), Some(Err(failure(CODE_NOT_FOUND))));
    assert_eq!(e.kind(), ErrorKind::NotFound);
    assert_eq!(
        e.context().ctx,
        "Failed to set head to revision 'v1', and the working tree could not be put back"
    );
    assert_eq!(e.context().err, failure(CODE_NOT_FOUND));
}

#[test]
fn test_matching_commits() {
    let with = |hex: &str, summary: &str| {
        CommitWithReferences::from_commit_and_references(&commit(hex, summary), None)
    };
    let commits = vec![
        with(HEX_A, "Fix the login page"),
        with(HEX_B, "Add logout"),
        with(HEX_A, "LOGIN again"),
    ];
    let summaries = |v: Vec<CommitWithReferences>| -> Vec<String> {
        v.iter().map(|c| c.summary().to_string()).collect()
    };
    assert_eq!(
        summaries(matching_commits(&commits, "")),
        vec!["Fix the login page", "Add logout", "LOGIN again"]
    );
    assert_eq!(
        summaries(matching_commits(&commits, "login")),
        vec!["Fix the login page", "LOGIN again"]
    );
    assert_eq!(
        summaries(matching_commits(&commits, "FFFF")),
        vec!["Add logout"]
    );
    assert_eq!(
        summaries(matching_commits(&commits, "log")),
        vec!["Fix the login page", "Add logout", "LOGIN again"]
    );
    assert_eq!(matching_commits(&commits, "nothing").len(), 0);
    assert_eq!(matching_commits(&vec![], "").len(), 0);
}

#[test]
fn test_sorting_flags_are_those_of_the_store() {
    assert_eq!(SORT_TOPOLOGICAL, git2::Sort::TOPOLOGICAL.bits());
    assert_eq!(SORT_TIME, git2::Sort::TIME.bits());
    assert_eq!(SORT_NEWEST_FIRST, (git2::Sort::TOPOLOGICAL | git2::Sort::TIME).bits());
}

#[test]
fn test_branch_and_tag_from_reference() {
    let b = Branch::try_from(resolved("main", ReferenceKind::Branch, HEX_A)).unwrap();
    assert_eq!(b.name(), "main");
    assert_eq!(b.head().id(), HEX_A);
    assert_eq!(b.clone(), b);
    for kind in [ReferenceKind::Tag, ReferenceKind::Note, ReferenceKind::RemoteBranch] {
        let e = Branch::try_from(resolved("x", kind, HEX_A)).err().unwrap();
        assert_eq!(e.context().ctx, "Reference is not a branch");
    }
    let t = TaggedCommit::try_from(resolved("v1", ReferenceKind::Tag, HEX_B)).unwrap();
    assert_eq!(t.name(), "v1");
    assert_eq!(t.commit().id(), HEX_B);
    for kind in [ReferenceKind::Branch, ReferenceKind::Note, ReferenceKind::RemoteBranch] {
        let e = TaggedCommit::try_from(resolved("x", kind, HEX_A)).err().unwrap();
        assert_eq!(e.context().ctx, "Reference is not a tag");
    }
    let c = commit(HEX_A, "s");
    assert_eq!(Branch::from_name_and_commit("dev", &c).name(), "dev");
    assert_eq!(Branch::from_name_and_commit("dev", &c).head(), &c);
    assert_eq!(TaggedCommit::new("v2", &c).name(), "v2");
    assert_eq!(TaggedCommit::new("v2", &c).commit(), &c);
}

#[test]
fn test_filter_references() {
    let refs = vec![
        resolved("main", ReferenceKind::Branch, HEX_A),
        resolved("v1-main", ReferenceKind::Tag, HEX_A),
        resolved("origin/main", ReferenceKind::RemoteBranch, HEX_B),
        resolved("commits", ReferenceKind::Note, HEX_B),
        resolved("Main", ReferenceKind::Branch, HEX_B),
    ];
    let names = |v: Vec<ResolvedReference>| -> Vec<String> {
        v.iter().map(|r| r.name().to_string()).collect()
    };
    assert_eq!(
        names(filter_references(&refs, "", None)),
        vec!["main", "v1-main", "origin/main", "commits", "Main"]
    );
    assert_eq!(
        names(filter_references(&refs, "main", None)),
        vec!["main", "v1-main", "origin/main"]
    );
    let f = ReferenceKindFilter::including(vec![ReferenceKind::Branch, ReferenceKind::Tag]);
    assert_eq!(
        names(filter_references(&refs, "", Some(&f))),
        vec!["main", "v1-main", "Main"]
    );
    assert_eq!(
        names(filter_references(&refs, "ain", Some(&f))),
        vec!["main", "v1-main", "Main"]
    );
    let f = ReferenceKindFilter::exclude(vec![ReferenceKind::Branch, ReferenceKind::Tag]);
    assert_eq!(
        names(filter_references(&refs, "", Some(&f))),
        vec!["origin/main", "commits"]
    );
    let f = ReferenceKindFilter::including(vec![]);
    assert_eq!(filter_references(&refs, "", Some(&f)).len(), 0);
    let f = ReferenceKindFilter::exclude(vec![]);
    assert_eq!(filter_references(&refs, "", Some(&f)).len(), 5);
    assert!(f.accepts(ReferenceKind::Note));
    assert!(passes(&refs[0], "mai", Some(&f)));
    assert!(!passes(&refs[0], "x", Some(&f)));

    assert_eq!(
        branches_among(refs.clone())
            .iter()
            .map(|b| b.name().to_string())
            .collect::<Vec<_>>(),
        vec!["main", "Main"]
    );
    assert_eq!(
        tags_among(refs.clone())
            .iter()
            .map(|b| b.name().to_string())
            .collect::<Vec<_>>(),
        vec!["v1-main"]
    );
}

#[test]
fn test_kind_filter_from_options() {
    let e = ReferenceKindFilter::from_options(
        Some(vec![ReferenceKind::Tag]),
        Some(vec![ReferenceKind::Branch]),
    )
    .err()
    .unwrap();
    assert_eq!(e.kind(), ErrorKind::Invalid);
    assert_eq!(
        e.context().ctx,
        "Include and exclude filters are mutually exclusive"
    );
    assert_eq!(
        ReferenceKindFilter::from_options(Some(vec![ReferenceKind::Tag]), None).unwrap(),
        Some(ReferenceKindFilter::including(vec![ReferenceKind::Tag]))
    );
    assert_eq!(
        ReferenceKindFilter::from_options(None, Some(vec![ReferenceKind::Tag])).unwrap(),
        Some(ReferenceKindFilter::exclude(vec![ReferenceKind::Tag]))
    );
    assert_eq!(ReferenceKindFilter::from_options(None, None).unwrap(), None);
    assert!(ReferenceKind::Tag.is_in(&vec![ReferenceKind::Note, ReferenceKind::Tag]));
    assert!(!ReferenceKind::Tag.is_in(&vec![ReferenceKind::Note]));
}

#[test]
fn test_filter_commit() {
    let c = commit(HEX_A, "Fix the Login page");
    assert!(filter_commit("login", &c));
    assert!(filter_commit("LOGIN PAGE", &c));
    assert!(filter_commit("89ABCDEF", &c));
    assert!(filter_commit("0123", &c));
    assert!(!filter_commit("logout", &c));
    assert!(!filter_commit("the body", &c));
    assert!(commit_passes("", &c));
    assert!(commit_passes("fix", &c));
    assert!(!commit_passes("zzz", &c));
    let with = CommitWithReferences::from_commit_and_references(&c, None);
    assert!(filter_commit("login", &with));
    assert!(!commit_passes("zzz", &with));
    assert!(name_matches("Release-1", "release"));
    assert!(name_matches("Release-1", ""));
    assert!(!name_matches("Release-1", "2"));
}

fn entry(path: Option<&str>, flags: u32) -> StatusEntry {
    StatusEntry {
        path: path.map(str::to_string),
        flags,
    }
}

#[test]
fn test_status_flags_are_those_of_the_store() {
    assert_eq!(STATUS_INDEX_NEW, git2::Status::INDEX_NEW.bits());
    assert_eq!(STATUS_INDEX_MODIFIED, git2::Status::INDEX_MODIFIED.bits());
    assert_eq!(STATUS_INDEX_DELETED, git2::Status::INDEX_DELETED.bits());
    assert_eq!(STATUS_INDEX_RENAMED, git2::Status::INDEX_RENAMED.bits());
    assert_eq!(STATUS_WT_NEW, git2::Status::WT_NEW.bits());
    assert_eq!(STATUS_WT_MODIFIED, git2::Status::WT_MODIFIED.bits());
    assert_eq!(STATUS_WT_DELETED, git2::Status::WT_DELETED.bits());
    assert_eq!(STATUS_WT_RENAMED, git2::Status::WT_RENAMED.bits());
    assert_eq!(STATUS_CONFLICTED, git2::Status::CONFLICTED.bits());
}

#[test]
fn test_classify() {
    assert_eq!(classify(0), None);
    assert_eq!(classify(STATUS_INDEX_NEW), Some(Change::IndexNew));
    assert_eq!(classify(STATUS_INDEX_RENAMED), Some(Change::IndexRenamed));
    assert_eq!(classify(STATUS_INDEX_MODIFIED), Some(Change::IndexModified));
    assert_eq!(classify(STATUS_INDEX_DELETED), Some(Change::IndexDeleted));
    assert_eq!(classify(STATUS_WT_NEW), Some(Change::WorktreeNew));
    assert_eq!(classify(STATUS_WT_RENAMED), Some(Change::WorktreeRenamed));
    assert_eq!(classify(STATUS_WT_MODIFIED), Some(Change::WorktreeModified));
    assert_eq!(classify(STATUS_WT_DELETED), Some(Change::WorktreeDeleted));
    assert_eq!(classify(STATUS_CONFLICTED), Some(Change::Conflicted));
    // the first that applies
    assert_eq!(
        classify(STATUS_INDEX_MODIFIED | STATUS_WT_MODIFIED),
        Some(Change::IndexModified)
    );
    assert_eq!(
        classify(STATUS_INDEX_RENAMED | STATUS_INDEX_MODIFIED),
        Some(Change::IndexRenamed)
    );
    assert_eq!(
        classify(STATUS_INDEX_NEW | STATUS_INDEX_RENAMED | STATUS_CONFLICTED),
        Some(Change::IndexNew)
    );
    assert_eq!(
        classify(STATUS_INDEX_DELETED | STATUS_WT_NEW),
        Some(Change::IndexDeleted)
    );
    assert_eq!(
        classify(STATUS_WT_RENAMED | STATUS_WT_MODIFIED),
        Some(Change::WorktreeRenamed)
    );
    assert_eq!(
        classify(STATUS_WT_DELETED | STATUS_CONFLICTED),
        Some(Change::WorktreeDeleted)
    );
    assert_eq!(classify(u32::MAX), Some(Change::IndexNew));
    // type changes, unreadable and ignored paths are in no bucket
    assert_eq!(classify(0x10), None);
    assert_eq!(classify(0x400), None);
    assert_eq!(classify(0x1000), None);
    assert_eq!(classify(0x4000), None);
}

#[test]
fn test_status_from_entries() {
    let head = CommitWithReferences::from_commit_and_references(&commit(HEX_A, "s"), None);
    let entries = vec![
        entry(Some("a"), STATUS_INDEX_NEW),
        entry(Some("b"), STATUS_WT_MODIFIED),
        entry(Some("c"), STATUS_INDEX_MODIFIED | STATUS_WT_MODIFIED),
        entry(None, STATUS_WT_NEW),
        entry(Some("d"), STATUS_CONFLICTED),
        entry(Some("e"), STATUS_INDEX_NEW),
        entry(Some("f"), 0x400),
        entry(Some("g"), STATUS_INDEX_DELETED),
        entry(Some("h"), STATUS_INDEX_RENAMED),
        entry(Some("i"), STATUS_WT_DELETED),
        entry(Some("j"), STATUS_WT_RENAMED),
    ];
    let s = Status::from_entries(Some("main".to_string()), head.clone(), false, &entries);
    assert_eq!(s.index().new_files(), &vec!["a", "e"]);
    assert_eq!(s.index().modified_files(), &vec!["c"]);
    assert_eq!(s.index().deleted_files(), &vec!["g"]);
    assert_eq!(s.index().renamed_files(), &vec!["h"]);
    assert_eq!(s.worktree().new_files(), &vec!["<invalid utf-8>"]);
    assert_eq!(s.worktree().modified_files(), &vec!["b"]);
    assert_eq!(s.worktree().deleted_files(), &vec!["i"]);
    assert_eq!(s.worktree().renamed_files(), &vec!["j"]);
    assert_eq!(s.conflicted(), &vec!["d"]);
    assert!(s.is_dirty());
    assert!(!s.is_detached_head());
    assert_eq!(s.current_branch(), Some("main"));
    assert_eq!(s.head(), &head);
    assert_eq!(s.index().clone(), *s.index());

    // nothing listed: clean, whatever the store reported
    let s = Status::from_entries(None, head.clone(), false, &vec![entry(Some("f"), 0x400)]);
    assert!(!s.is_dirty());
    let s = Status::from_entries(None, head.clone(), false, &vec![]);
    assert!(!s.is_dirty());
    assert_eq!(s.index(), &TreeStatus::new());
    let s = Status::from_entries(None, head.clone(), true, &vec![entry(Some("d"), STATUS_CONFLICTED)]);
    assert!(s.is_dirty());
    // a detached head stands on no branch
    let s = Status::from_entries(Some("main".to_string()), head, true, &vec![]);
    assert!(s.is_detached_head());
    assert_eq!(s.current_branch(), None);
}

#[test]
fn test_current_branch_of() {
    assert_eq!(
        current_branch_of(Some(raw_reference("refs/heads/main", "main"))),
        Some("main".to_string())
    );
    assert_eq!(current_branch_of(Some(raw_reference("HEAD", "HEAD"))), None);
    assert_eq!(
        current_branch_of(Some(raw_reference("refs/tags/v1", "v1"))),
        None
    );
    let mut raw = raw_reference("refs/heads/main", "main");
    raw.shorthand = None;
    assert_eq!(current_branch_of(Some(raw)), None);
    assert_eq!(current_branch_of(None), None);
    let q = StatusQuery::full();
    assert!(q.include_untracked && q.recurse_untracked_dirs && !q.include_ignored);
    assert!(q.renames_head_to_index && q.renames_index_to_workdir);
}

#[test]
fn test_checked_head_target() {
    assert_eq!(
        checked_head_target(Some(raw_reference("refs/heads/main", "main")), oid(HEX_A)).unwrap(),
        HeadTarget::Reference("refs/heads/main".to_string())
    );
    let mut raw = raw_reference("refs/heads/main", "main");
    raw.name = None;
    let e = checked_head_target(Some(raw), oid(HEX_A)).err().unwrap();
    assert_eq!(e.kind(), ErrorKind::Invalid);
    assert_eq!(
        checked_head_target(None, oid(HEX_A)).unwrap(),
        HeadTarget::Detached(oid(HEX_A))
    );
    assert_eq!(
        range_text(&oid(HEX_A), Some(&oid(HEX_B))),
        format!("{}..{}", HEX_A, HEX_B)
    );
    assert_eq!(range_text(&oid(HEX_A), None), format!("{}..HEAD", HEX_A));
}

fn line(origin: char, content: &[u8]) -> PatchLine {
    PatchLine {
        origin,
        content: content.to_vec(),
    }
}

fn blob(hex: &str, path: Option<&str>, content: Option<&[u8]>) -> OldBlob {
    OldBlob {
        side: OldSide {
            id: oid(hex),
            path: path.map(str::to_string),
        },
        content: content.map(<[u8]>::to_vec),
    }
}

#[test]
fn test_diff_from_parts() {
    let zero = "0000000000000000000000000000000000000000";
    let lines = vec![
        line('F', b"diff --git a/x b/x\n"),
        line('H', b"@@ -1 +1,2 @@\n"),
        line(' ', b"same\n"),
        line('-', b"old\n"),
        line('+', b"new\n"),
        line('@', b"marked\n"),
        line('>', b"\n\\ No newline at end of file\n"),
        line('+', &[0xff, 0xfe]),
        line('B', &[0xc3]),
        line('=', b""),
    ];
    let blobs = vec![
        blob(HEX_A, Some("x"), Some(b"one\ntwo\n")),
        blob(zero, Some("added"), Some(b"never looked at")),
        blob(HEX_B, Some("image.png"), Some(&[0x89, 0x50, 0xff])),
        blob(HEX_B, Some("gone"), None),
        blob(HEX_A, None, Some(b"three")),
        blob(HEX_A, Some("x"), Some(b"later\nwins\nhere")),
        blob(HEX_A, Some("empty"), Some(b"")),
    ];
    let stats = RawDiffStats {
        files_changed: 4,
        insertions: 2,
        deletions: 1,
    };
    let d = Diff::from_parts(&blobs, &lines, stats);
    assert_eq!(
        d.patch(),
        "diff --git a/x b/x\n@@ -1 +1,2 @@\n same\n-old\n+new\n@marked\n\n\\ No newline at end of file\n+<invalid utf8><invalid utf8>"
    );
    assert_eq!(d.stats().files_changed(), 4);
    assert_eq!(d.stats().insertions(), 2);
    assert_eq!(d.stats().deletions(), 1);
    assert_eq!(d.stats().total_old_num_lines(), 2 + 1 + 3);
    let listed: Vec<(&str, &str, bool)> = d
        .old_files()
        .iter()
        .map(|f| (f.path(), f.content(), f.is_binary()))
        .collect();
    assert_eq!(
        listed,
        vec![
            ("x", "one\ntwo\n", false),
            ("image.png", "<binary or invalid utf8>", true),
            ("<unknown>", "three", false),
            ("x", "later\nwins\nhere", false),
            ("empty", "", false),
        ]
    );
    assert_eq!(d.old_source("x"), Some("later\nwins\nhere"));
    assert_eq!(d.old_source("image.png"), Some("<binary or invalid utf8>"));
    assert_eq!(d.old_source("<unknown>"), Some("three"));
    assert_eq!(d.old_source("empty"), Some(""));
    assert_eq!(d.old_source("added"), None);
    assert_eq!(d.old_source("gone"), None);

    let d = Diff::from_parts(&vec![], &vec![], RawDiffStats { files_changed: 0, insertions: 0, deletions: 0 });
    assert_eq!(d.patch(), "");
    assert_eq!(d.old_files().len(), 0);
    assert_eq!(d.stats().total_old_num_lines(), 0);
}

#[test]
fn test_app_error() {
    let e = Error::from_ctx_and_error("Revision 'x'".to_string(), failure(CODE_NOT_FOUND));
    let a = AppError::from_error(&e);
    assert_eq!(a, AppError::NotFound(e.message()));
    assert_eq!(a.code(), 404);
    assert_eq!(a.reason(), "Not Found");
    let cases = [
        (CODE_INVALID, 400, "Bad Request"),
        (CODE_INVALID_SPEC, 400, "Bad Request"),
        (CODE_EXISTS, 409, "Conflict"),
        (CODE_GENERIC, 500, "Internal Server Error"),
    ];
    for (code, status, reason) in cases {
        let e = Error::from_ctx_and_error("doing".to_string(), failure(code));
        let a = AppError::from_error(&e);
        assert_eq!(a.code(), status);
        assert_eq!(a.reason(), reason);
        let r = ApiStatusDetailResponse::from_app_error(a);
        assert_eq!(r.status, status);
        assert_eq!(r.reason, reason);
        assert_eq!(r.message, e.message());
        assert_eq!(r.details, None);
    }
    let a = AppError::JsonExtractionError {
        status: 422,
        body: "no such field".to_string(),
    };
    assert_eq!(a.code(), 422);
    assert_eq!(a.reason(), "Unprocessable Entity");
    assert_eq!(a.message(), "no such field");
    assert_eq!(AppError::BadRequest("b".to_string()).message(), "b");
    assert_eq!(
        ApiStatusResponse::from_code(200),
        ApiStatusResponse {
            status: 200,
            reason: "OK".to_string()
        }
    );
    assert_eq!(ApiStatusResponse::from_code(299).reason, "Unknown");
    assert_eq!(ApiStatusResponse::from_code(0).reason, "Unknown");
    assert_eq!(ApiStatusResponse::from_code(1000).reason, "Unknown");
}

#[test]
fn test_flow_values() {
    let mut data = FlowData::new("Hello World");
    assert_eq!(data.id(), "hello-world");
    assert_eq!(data.name(), "Hello World");
    assert_eq!(data.num_nodes(), 0);
    assert_eq!(data.num_edges(), 0);
    data.reactflow.nodes.push(serde_json::Value::Null);
    data.reactflow.nodes.push(serde_json::Value::Bool(true));
    data.reactflow.edges.push(serde_json::Value::Null);
    assert_eq!(data.num_nodes(), 2);
    assert_eq!(data.num_edges(), 1);
    let m = FlowMetadata::from_data_and_time(&data, 1_700_000_000);
    assert_eq!(
        m,
        FlowMetadata {
            id: "hello-world".to_string(),
            name: "Hello World".to_string(),
            last_modified_date: 1_700_000_000,
            num_nodes: 2,
            num_edges: 1,
        }
    );
    assert_eq!(ListFlowsResponse::new().flows.len(), 0);
    let listed = ListFlowsResponse::from_metadatas(vec![m]);
    assert_eq!(listed.flows.len(), 1);
    assert_eq!(listed.flows[0].id, "hello-world");
    let m = FlowMetadata::from_data_and_time(&data, 0);
    assert_eq!(CreateFlowResponse::new(m).flow.name, "Hello World");
    assert_eq!(FullFlowRequestResponse::new(data).flow.name, "Hello World");
}

#[test]
fn flow_test_file_name() {
    assert_eq!(
        std::path::Path::new(&FlowData::file_name_from_flow_name("HELLO WORLD")),
        std::path::Path::new("hello-world.json")
    );
}

#[test]
fn test_file_name_from_id() {
    assert_eq!(FlowData::file_name_from_id("hello-world"), "hello-world.json");
    assert_eq!(FlowData::file_name_from_id("a"), "a.json");
    assert_eq!(FlowData::file_name_from_id("Flow-42"), "Flow-42.json");
    assert_eq!(FlowData::file_name_from_flow_name("My Flow_2"), "my-flow-2.json");
}

#[test]
fn test_confirm_resolution() {
    // a full id resolves to itself
    assert_eq!(confirm_resolution(HEX_A, oid(HEX_A)).unwrap(), oid(HEX_A));
    assert_eq!(
        confirm_resolution(&HEX_A.to_uppercase(), oid(HEX_A)).unwrap(),
        oid(HEX_A)
    );
    // and never to another object
    let e = confirm_resolution(HEX_A, oid(HEX_B)).err().unwrap();
    assert_eq!(e.kind(), ErrorKind::NotFound);
    assert_eq!(e.context().ctx, format!("Revision '{}'", HEX_A));
    // anything else resolves to what the store found
    for rev in ["HEAD", "main", "0123456", "", &HEX_A[0..39], "v1.0^{commit}"] {
        assert_eq!(confirm_resolution(rev, oid(HEX_B)).unwrap(), oid(HEX_B));
    }
    assert_eq!(ObjectId::from_full_hex(HEX_A), Some(oid(HEX_A)));
    assert_eq!(ObjectId::from_full_hex(&HEX_A[0..39]), None);
    assert_eq!(ObjectId::from_full_hex("g123456789abcdef0123456789abcdef01234567"), None);
}
