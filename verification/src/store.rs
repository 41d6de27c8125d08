//! The calls into the object store and into the calendar. Nothing in this
//! module is proved: each item states what the library takes for granted
//! about the code it calls.

use vstd::prelude::*;
use crate::commit::{RawCommit, RawSignature};
use crate::diff::{OldSide, PatchLine, RawDiffStats};
use crate::error::StoreFailure;
use crate::oid::ObjectId;
use crate::reference::RawReference;
use crate::status::{StatusEntry, StatusQuery};

verus! {

/// `git2::Repository`: a handle on an open repository.
#[verifier::external_type_specification]
#[verifier::external_body]
pub struct ExRepository(git2::Repository);

/// `git2::Object`: an object of any type, borrowed from a repository.
#[verifier::external_type_specification]
#[verifier::external_body]
pub struct ExObject<'repo>(git2::Object<'repo>);

/// `git2::Tree`: a tree object, borrowed from a repository.
#[verifier::external_type_specification]
#[verifier::external_body]
pub struct ExTree<'repo>(git2::Tree<'repo>);

/// `git2::Reference`: a reference, borrowed from a repository.
#[verifier::external_type_specification]
#[verifier::external_body]
pub struct ExReference<'repo>(git2::Reference<'repo>);

/// A traversal of the commit graph under way: the commits that a
/// `git2::Revwalk` has yet to hand out. Verus sees nothing inside it.
#[verifier::external_body]
pub struct RevisionWalk<'repo> {
    walk: git2::Revwalk<'repo>,
}

/// What a traversal can be asked for before it starts.
pub enum WalkRequest {
    /// To start at the commit of this id.
    Start(Seq<u8>),
    /// To start at the commit that HEAD points to.
    StartAtHead,
    /// To start at the upper end of the range `<base>..<head>` and to
    /// leave out its lower end together with the ancestors of that.
    Range(Seq<char>),
    /// To hand the commits out in the order of these sorting flags.
    Order(u32),
}

/// What a traversal has been asked for, in the order of the requests that
/// it accepted since it was made or last came to its end.
pub uninterp spec fn walk_requests(walk: RevisionWalk) -> Seq<WalkRequest>;

/// The ids of the commits that a traversal has handed out since it was
/// made, in the order in which it handed them out.
pub uninterp spec fn walk_handed_out(walk: RevisionWalk) -> Seq<Seq<u8>>;

/// Whether `chrono::DateTime::from_timestamp` accepts a number of seconds
/// since the epoch, with no nanoseconds.
pub uninterp spec fn timestamp_in_range(secs: i64) -> bool;

/// `chrono::DateTime::from_timestamp` with no nanoseconds, and
/// `DateTime::timestamp` on what it returns: a number of seconds that the
/// calendar can hold comes back unchanged, any other is refused.
#[verifier::external_body]
pub(crate) fn checked_timestamp(secs: i64) -> (r: Option<i64>)
    ensures
        r == if timestamp_in_range(secs) {
            Some(secs)
        } else {
            None::<i64>
        },
{
    chrono::DateTime::from_timestamp(secs, 0).map(|t| t.timestamp())
}

/// The canonical reason phrase of a status code, as
/// `http::StatusCode::canonical_reason` gives it; none for a number that
/// is no status code or has no such phrase.
pub uninterp spec fn canonical_reason_of(code: u16) -> Option<Seq<char>>;

/// `http::StatusCode::from_u16` and `http::StatusCode::canonical_reason`.
#[verifier::external_body]
pub(crate) fn canonical_reason(code: u16) -> (r: Option<String>)
    ensures
        match canonical_reason_of(code) {
            Some(t) => r is Some && r->0@ == t,
            None => r is None,
        },
{
    http::StatusCode::from_u16(code).ok().and_then(|s| s.canonical_reason()).map(str::to_string)
}

/// `git2::Repository::open`.
#[verifier::external_body]
pub(crate) fn open_repository(path: &str) -> Result<git2::Repository, StoreFailure> {
    git2::Repository::open(path).map_err(|e| StoreFailure::new(e.raw_code(), e.message().to_string()))
}

/// `git2::Repository::init`.
#[verifier::external_body]
pub(crate) fn init_repository(path: &str) -> Result<git2::Repository, StoreFailure> {
    git2::Repository::init(path).map_err(|e| StoreFailure::new(e.raw_code(), e.message().to_string()))
}

/// `git2::Repository::revparse_single`: the object that a revision
/// expression names.
#[verifier::external_body]
pub(crate) fn revparse_single<'repo>(repo: &'repo git2::Repository, rev: &str) -> Result<
    git2::Object<'repo>,
    StoreFailure,
> {
    repo.revparse_single(rev).map_err(|e| StoreFailure::new(e.raw_code(), e.message().to_string()))
}

/// `git2::Repository::revparse_ext`: the object that a revision expression
/// names, and the reference through which it names it, if any.
#[verifier::external_body]
pub(crate) fn revparse_ext<'repo>(repo: &'repo git2::Repository, rev: &str) -> Result<
    (git2::Object<'repo>, Option<git2::Reference<'repo>>),
    StoreFailure,
> {
    repo.revparse_ext(rev).map_err(|e| StoreFailure::new(e.raw_code(), e.message().to_string()))
}

/// `git2::Object::id`, as twenty bytes.
#[verifier::external_body]
pub(crate) fn object_id(object: &git2::Object) -> ObjectId {
    ObjectId::from_bytes(object.id().as_bytes()).unwrap()
}

/// `git2::Object::peel_to_commit`, and the id of the commit found.
#[verifier::external_body]
pub(crate) fn object_peel_to_commit(object: &git2::Object) -> Result<ObjectId, StoreFailure> {
    object.peel_to_commit().map(|c| ObjectId::from_bytes(c.id().as_bytes()).unwrap()).map_err(
        |e| StoreFailure::new(e.raw_code(), e.message().to_string()),
    )
}

/// `git2::Object::peel_to_tree`.
#[verifier::external_body]
pub(crate) fn object_peel_to_tree<'repo>(object: &git2::Object<'repo>) -> Result<
    git2::Tree<'repo>,
    StoreFailure,
> {
    object.peel_to_tree().map_err(|e| StoreFailure::new(e.raw_code(), e.message().to_string()))
}

/// `git2::Repository::find_commit`, and the fields of the commit found:
/// `summary`, `body`, `time`, `committer` and `author` of `git2::Commit`,
/// `name` and `email` of `git2::Signature`. The commit that is found is
/// the one of the id that was asked for, and carries that id.
#[verifier::external_body]
pub(crate) fn find_commit(repo: &git2::Repository, id: &ObjectId) -> (r: Result<
    RawCommit,
    StoreFailure,
>)
    ensures
        r matches Ok(c) ==> c.id@ == id@,
{
    let oid = git2::Oid::from_bytes(id.as_bytes()).unwrap();
    repo.find_commit(oid).map(|c| RawCommit::new(
        *id,
        c.summary(),
        c.body(),
        c.time().seconds(),
        RawSignature::new(c.committer().name(), c.committer().email()),
        RawSignature::new(c.author().name(), c.author().email()),
    )).map_err(|e| StoreFailure::new(e.raw_code(), e.message().to_string()))
}

/// `git2::Repository::references`, collected: every reference of the
/// repository, or the failure to read one.
#[verifier::external_body]
pub(crate) fn list_references<'repo>(repo: &'repo git2::Repository) -> Result<
    Vec<Result<git2::Reference<'repo>, StoreFailure>>,
    StoreFailure,
> {
    repo.references().map(
        |refs| refs.map(|r| r.map_err(|e| StoreFailure::new(e.raw_code(), e.message().to_string()))).collect(),
    ).map_err(|e| StoreFailure::new(e.raw_code(), e.message().to_string()))
}

/// `name`, `shorthand`, `is_tag`, `is_branch`, `is_remote` and `is_note` of
/// `git2::Reference`.
#[verifier::external_body]
pub(crate) fn reference_facts(reference: &git2::Reference) -> RawReference {
    RawReference {
        name: reference.name().map(str::to_string),
        shorthand: reference.shorthand().map(str::to_string),
        is_tag: reference.is_tag(),
        is_branch: reference.is_branch(),
        is_remote: reference.is_remote(),
        is_note: reference.is_note(),
    }
}

/// `git2::Reference::peel_to_commit`, and the id of the commit found.
#[verifier::external_body]
pub(crate) fn reference_peel_to_commit(reference: &git2::Reference) -> Result<
    ObjectId,
    StoreFailure,
> {
    reference.peel_to_commit().map(|c| ObjectId::from_bytes(c.id().as_bytes()).unwrap()).map_err(
        |e| StoreFailure::new(e.raw_code(), e.message().to_string()),
    )
}

/// `git2::Repository::find_blob`, and `git2::Blob::content`: the bytes of
/// a blob.
#[verifier::external_body]
pub(crate) fn find_blob(repo: &git2::Repository, id: &ObjectId) -> Result<Vec<u8>, StoreFailure> {
    let oid = git2::Oid::from_bytes(id.as_bytes()).unwrap();
    repo.find_blob(oid).map(|b| b.content().to_vec()).map_err(
        |e| StoreFailure::new(e.raw_code(), e.message().to_string()),
    )
}

/// `git2::Repository::head`: the reference that HEAD resolves to.
#[verifier::external_body]
pub(crate) fn head<'repo>(repo: &'repo git2::Repository) -> Result<
    git2::Reference<'repo>,
    StoreFailure,
> {
    repo.head().map_err(|e| StoreFailure::new(e.raw_code(), e.message().to_string()))
}

/// `git2::Repository::head_detached`: whether HEAD points to a commit and
/// not to a branch.
#[verifier::external_body]
pub(crate) fn head_detached(repo: &git2::Repository) -> Result<bool, StoreFailure> {
    repo.head_detached().map_err(|e| StoreFailure::new(e.raw_code(), e.message().to_string()))
}

/// `git2::Repository::set_head`: makes HEAD point to the named reference.
#[verifier::external_body]
pub(crate) fn set_head(repo: &git2::Repository, refname: &str) -> Result<(), StoreFailure> {
    repo.set_head(refname).map_err(|e| StoreFailure::new(e.raw_code(), e.message().to_string()))
}

/// `git2::Repository::set_head_detached`: makes HEAD point to the commit
/// itself.
#[verifier::external_body]
pub(crate) fn set_head_detached(repo: &git2::Repository, id: &ObjectId) -> Result<
    (),
    StoreFailure,
> {
    let oid = git2::Oid::from_bytes(id.as_bytes()).unwrap();
    repo.set_head_detached(oid).map_err(|e| StoreFailure::new(e.raw_code(), e.message().to_string()))
}

/// `git2::Repository::checkout_tree` with the default options: makes index
/// and working tree match the tree of the object.
#[verifier::external_body]
pub(crate) fn checkout_tree(repo: &git2::Repository, treeish: &git2::Object) -> Result<
    (),
    StoreFailure,
> {
    repo.checkout_tree(treeish, None).map_err(
        |e| StoreFailure::new(e.raw_code(), e.message().to_string()),
    )
}

/// `git2::Repository::checkout_tree`, forced and limited to the given
/// paths, each taken literally: makes index and working tree match the
/// tree of the object on these paths, whatever stands there. A path is
/// handed over as a C string, so it must hold no NUL character.
#[verifier::external_body]
pub(crate) fn checkout_paths_forced(
    repo: &git2::Repository,
    treeish: &git2::Object,
    paths: &Vec<String>,
) -> Result<(), StoreFailure>
    requires
        paths@.len() > 0,
        forall|i: int| 0 <= i < paths@.len() ==> !(#[trigger] paths@[i])@.contains('\0'),
{
    let mut options = git2::build::CheckoutBuilder::new();
    options.force().disable_pathspec_match(true);
    for path in paths.iter() {
        options.path(path.as_str());
    }
    repo.checkout_tree(treeish, Some(&mut options)).map_err(
        |e| StoreFailure::new(e.raw_code(), e.message().to_string()),
    )
}

/// `git2::Repository::branch` on the commit that `find_commit` gives for
/// `target`: creates a branch, replacing one of that name only with
/// `force`.
#[verifier::external_body]
pub(crate) fn create_branch(
    repo: &git2::Repository,
    name: &str,
    target: &ObjectId,
    force: bool,
) -> Result<(), StoreFailure> {
    let oid = git2::Oid::from_bytes(target.as_bytes()).unwrap();
    repo.find_commit(oid).and_then(|c| repo.branch(name, &c, force).map(|_| ())).map_err(
        |e| StoreFailure::new(e.raw_code(), e.message().to_string()),
    )
}

/// `git2::Repository::tag_lightweight`: creates a lightweight tag on the
/// object, replacing one of that name only with `force`.
#[verifier::external_body]
pub(crate) fn tag_lightweight(
    repo: &git2::Repository,
    name: &str,
    target: &git2::Object,
    force: bool,
) -> Result<ObjectId, StoreFailure> {
    repo.tag_lightweight(name, target, force).map(
        |oid| ObjectId::from_bytes(oid.as_bytes()).unwrap(),
    ).map_err(|e| StoreFailure::new(e.raw_code(), e.message().to_string()))
}

/// `git2::Repository::statuses` with the options of the query, and `path`
/// and `status` of every entry.
#[verifier::external_body]
pub(crate) fn statuses(repo: &git2::Repository, query: &StatusQuery) -> Result<
    Vec<StatusEntry>,
    StoreFailure,
> {
    let mut opts = git2::StatusOptions::new();
    opts.include_untracked(query.include_untracked);
    opts.recurse_untracked_dirs(query.recurse_untracked_dirs);
    opts.include_ignored(query.include_ignored);
    opts.renames_head_to_index(query.renames_head_to_index);
    opts.renames_index_to_workdir(query.renames_index_to_workdir);
    repo.statuses(Some(&mut opts)).map(
        |s| s.iter().map(|e| StatusEntry { path: e.path().map(str::to_string), flags: e.status().bits() }).collect(),
    ).map_err(|e| StoreFailure::new(e.raw_code(), e.message().to_string()))
}

/// The changed files between two trees: the deltas of a `git2::Diff`.
/// Verus sees nothing inside it.
#[verifier::external_body]
pub struct TreeComparison<'repo> {
    diff: git2::Diff<'repo>,
}

/// Whether a comparison was made with an old tree, and not from the empty
/// tree.
pub uninterp spec fn comparison_has_base(comparison: TreeComparison) -> bool;

/// The searches for similar files that were run on a comparison, each with
/// whether it looked for renames, in the order in which they were run.
pub uninterp spec fn comparison_searches(comparison: TreeComparison) -> Seq<bool>;

/// `git2::Repository::diff_tree_to_tree` with the default options; no old
/// tree stands for the empty tree. No search for similar files has been
/// run on what it returns.
#[verifier::external_body]
pub(crate) fn diff_tree_to_tree<'repo>(
    repo: &'repo git2::Repository,
    old_tree: Option<&git2::Tree<'repo>>,
    new_tree: &git2::Tree<'repo>,
) -> (r: Result<TreeComparison<'repo>, StoreFailure>)
    ensures
        r matches Ok(c) ==> comparison_has_base(c) == (old_tree is Some) && comparison_searches(c)
            == Seq::<bool>::empty(),
{
    repo.diff_tree_to_tree(old_tree, Some(new_tree), None).map(|diff| TreeComparison { diff }).map_err(
        |e| StoreFailure::new(e.raw_code(), e.message().to_string()),
    )
}

/// `git2::Diff::find_similar`, looking for renames or not: pairs a deleted
/// and an added file of similar content into one renamed file. Where the
/// search succeeds it is the last of the searches run on the comparison,
/// which is still one of the same two trees.
#[verifier::external_body]
pub(crate) fn diff_find_similar(comparison: &mut TreeComparison, renames: bool) -> (r: Result<
    (),
    StoreFailure,
>)
    ensures
        r is Ok ==> comparison_has_base(*final(comparison)) == comparison_has_base(
            *old(comparison),
        ) && comparison_searches(*final(comparison)) == comparison_searches(
            *old(comparison),
        ).push(renames),
{
    let mut opts = git2::DiffFindOptions::new();
    opts.renames(renames);
    comparison.diff.find_similar(Some(&mut opts)).map_err(
        |e| StoreFailure::new(e.raw_code(), e.message().to_string()),
    )
}

/// The old side of every changed file that a comparison holds, in the
/// order of the changes.
pub uninterp spec fn comparison_old_sides(comparison: TreeComparison) -> Seq<OldSide>;

/// The lines of the patch that a comparison is printed as, in their order.
pub uninterp spec fn comparison_lines(comparison: TreeComparison) -> Seq<PatchLine>;

/// The statistics of a comparison.
pub uninterp spec fn comparison_stats(comparison: TreeComparison) -> RawDiffStats;

/// `git2::Diff::foreach` over the files: `id` and `path` of the old file
/// of every delta, in the order of the deltas.
#[verifier::external_body]
pub(crate) fn diff_old_sides(comparison: &TreeComparison) -> (r: Result<
    Vec<OldSide>,
    StoreFailure,
>)
    ensures
        r matches Ok(v) ==> v@ == comparison_old_sides(*comparison),
{
    let mut sides = Vec::new();
    let walked = comparison.diff.foreach(&mut |delta, _| {
        let id = ObjectId::from_bytes(delta.old_file().id().as_bytes()).unwrap();
        let path = delta.old_file().path().map(|p| p.to_string_lossy().to_string());
        sides.push(OldSide { id, path });
        true
    }, None, None, None);
    walked.map(|_| sides).map_err(|e| StoreFailure::new(e.raw_code(), e.message().to_string()))
}

/// `git2::Diff::print` in patch format: `origin` and `content` of every
/// line, in the order in which they are printed.
#[verifier::external_body]
pub(crate) fn diff_patch_lines(comparison: &TreeComparison) -> (r: Result<
    Vec<PatchLine>,
    StoreFailure,
>)
    ensures
        r matches Ok(v) ==> v@ == comparison_lines(*comparison),
{
    let mut lines = Vec::new();
    let printed = comparison.diff.print(git2::DiffFormat::Patch, |_, _, line| {
        lines.push(PatchLine { origin: line.origin(), content: line.content().to_vec() });
        true
    });
    printed.map(|_| lines).map_err(|e| StoreFailure::new(e.raw_code(), e.message().to_string()))
}

/// `git2::Diff::stats`, and `files_changed`, `insertions` and `deletions`
/// of what it returns.
#[verifier::external_body]
pub(crate) fn diff_stats(comparison: &TreeComparison) -> (r: Result<RawDiffStats, StoreFailure>)
    ensures
        r matches Ok(s) ==> s == comparison_stats(*comparison),
{
    comparison.diff.stats().map(
        |s| RawDiffStats { files_changed: s.files_changed(), insertions: s.insertions(), deletions: s.deletions() },
    ).map_err(|e| StoreFailure::new(e.raw_code(), e.message().to_string()))
}

/// `git2::Repository::revwalk`: a traversal that has been asked for
/// nothing yet.
#[verifier::external_body]
pub(crate) fn revwalk<'repo>(repo: &'repo git2::Repository) -> (r: Result<
    RevisionWalk<'repo>,
    StoreFailure,
>)
    ensures
        r matches Ok(w) ==> walk_requests(w) == Seq::<WalkRequest>::empty() && walk_handed_out(w)
            == Seq::<Seq<u8>>::empty(),
{
    repo.revwalk().map(|walk| RevisionWalk { walk }).map_err(
        |e| StoreFailure::new(e.raw_code(), e.message().to_string()),
    )
}

/// `git2::Revwalk::push`: the traversal starts at this commit too. Where
/// the request is accepted it is the last of the requests.
#[verifier::external_body]
pub(crate) fn revwalk_push(walk: &mut RevisionWalk, id: &ObjectId) -> (r: Result<
    (),
    StoreFailure,
>)
    ensures
        r is Ok ==> walk_requests(*final(walk)) == walk_requests(*old(walk)).push(
            WalkRequest::Start(id@),
        ),
        walk_handed_out(*final(walk)) == walk_handed_out(*old(walk)),
{
    let oid = git2::Oid::from_bytes(id.as_bytes()).unwrap();
    walk.walk.push(oid).map_err(|e| StoreFailure::new(e.raw_code(), e.message().to_string()))
}

/// `git2::Revwalk::push_head`: the traversal starts at HEAD too. Where
/// the request is accepted it is the last of the requests.
#[verifier::external_body]
pub(crate) fn revwalk_push_head(walk: &mut RevisionWalk) -> (r: Result<(), StoreFailure>)
    ensures
        r is Ok ==> walk_requests(*final(walk)) == walk_requests(*old(walk)).push(
            WalkRequest::StartAtHead,
        ),
        walk_handed_out(*final(walk)) == walk_handed_out(*old(walk)),
{
    walk.walk.push_head().map_err(|e| StoreFailure::new(e.raw_code(), e.message().to_string()))
}

/// `git2::Revwalk::push_range` on `<base>..<head>`: the traversal starts
/// at the commit that `head` names too, and the commit that `base` names
/// is left out together with its ancestors. Where the request is accepted
/// it is the last of the requests.
#[verifier::external_body]
pub(crate) fn revwalk_push_range(walk: &mut RevisionWalk, range: &str) -> (r: Result<
    (),
    StoreFailure,
>)
    ensures
        r is Ok ==> walk_requests(*final(walk)) == walk_requests(*old(walk)).push(
            WalkRequest::Range(range@),
        ),
        walk_handed_out(*final(walk)) == walk_handed_out(*old(walk)),
{
    walk.walk.push_range(range).map_err(
        |e| StoreFailure::new(e.raw_code(), e.message().to_string()),
    )
}

/// `Iterator::next` of `git2::Revwalk`: the next commit of the traversal,
/// the failure to read it, or nothing when the traversal is over. A
/// commit that is handed out is the last of those handed out. As long as
/// the traversal is not over, what it was asked for stays; once it is
/// over the store forgets that, and nothing is said of it here.
#[verifier::external_body]
pub(crate) fn revwalk_next(walk: &mut RevisionWalk) -> (r: Option<Result<ObjectId, StoreFailure>>)
    ensures
        r is Some ==> walk_requests(*final(walk)) == walk_requests(*old(walk)),
        match r {
            Some(Ok(id)) => walk_handed_out(*final(walk)) == walk_handed_out(*old(walk)).push(id@),
            _ => walk_handed_out(*final(walk)) == walk_handed_out(*old(walk)),
        },
{
    walk.walk.next().map(
        |r| r.map(|oid| ObjectId::from_bytes(oid.as_bytes()).unwrap()).map_err(
            |e| StoreFailure::new(e.raw_code(), e.message().to_string()),
        ),
    )
}

/// `git2::Revwalk::set_sorting` with the sorting flags of `mode`: the
/// order in which the commits are handed out. On a traversal that has
/// been asked for nothing yet it is the first request.
#[verifier::external_body]
pub(crate) fn revwalk_set_sorting(walk: &mut RevisionWalk, mode: u32) -> (r: Result<
    (),
    StoreFailure,
>)
    requires
        mode < 8,
    ensures
        r is Ok && walk_requests(*old(walk)) == Seq::<WalkRequest>::empty() ==> walk_requests(
            *final(walk),
        ) == Seq::<WalkRequest>::empty().push(WalkRequest::Order(mode)),
        walk_handed_out(*final(walk)) == walk_handed_out(*old(walk)),
{
    walk.walk.set_sorting(git2::Sort::from_bits_truncate(mode)).map_err(
        |e| StoreFailure::new(e.raw_code(), e.message().to_string()),
    )
}

/// `git2::Index`: the staging area of a repository.
#[verifier::external_type_specification]
#[verifier::external_body]
pub struct ExIndex(git2::Index);

/// `git2::Repository::index`.
#[verifier::external_body]
pub(crate) fn index(repo: &git2::Repository) -> Result<git2::Index, StoreFailure> {
    repo.index().map_err(|e| StoreFailure::new(e.raw_code(), e.message().to_string()))
}

/// `git2::Index::add_all` with the default options and no callback: adds
/// the files of the working tree that match the patterns.
#[verifier::external_body]
pub(crate) fn index_add_all(index: &mut git2::Index, pathspecs: &Vec<String>) -> Result<
    (),
    StoreFailure,
> {
    index.add_all(pathspecs.iter(), git2::IndexAddOption::DEFAULT, None).map_err(
        |e| StoreFailure::new(e.raw_code(), e.message().to_string()),
    )
}

/// `git2::Index::write`: writes the index back to disk.
#[verifier::external_body]
pub(crate) fn index_write(index: &mut git2::Index) -> Result<(), StoreFailure> {
    index.write().map_err(|e| StoreFailure::new(e.raw_code(), e.message().to_string()))
}

} // verus!
