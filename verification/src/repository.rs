//! The repository: the operations of the library on one open repository.

use vstd::prelude::*;
use vstd::string::StringExecFns;
use crate::branch::Branch;
use crate::commit::{CommitProperties, CommitWithReferences};
use crate::diff::{changed_paths, Diff};
use crate::error::{Error, ErrorKind, StoreFailure};
use crate::filter::{
    branches_among, filter_references, reference_passes, tags_among, targets_full,
    ReferenceKindFilter,
};
use crate::oid::{hex_of, is_full_hash, ObjectId};
use crate::reference::{
    lemma_resolved_targets_full, resolved_among, resolved_view, RawReference, ReferenceRead,
    ResolvedReference,
};
use crate::status::{branch_name_of, current_branch_of, option_text, Status, StatusQuery};
use crate::store::{
    checkout_paths_forced, checkout_tree, comparison_has_base, comparison_searches, create_branch,
    diff_find_similar, diff_old_sides, diff_tree_to_tree, head, head_detached, index,
    object_peel_to_commit, object_peel_to_tree, revparse_single,
    index_add_all, index_write, init_repository, list_references, object_id, open_repository,
    reference_facts, revparse_ext, set_head, set_head_detached, statuses, tag_lightweight,
    TreeComparison,
};
use crate::tag::TaggedCommit;
use crate::text::framed;
use crate::utils::{
    get_commit_for_oid, get_commit_for_revision, get_object_for_revision, get_references_map,
    get_tree_for_revision, plans_range, resolve_to_commit, revwalk_for_range,
};
use crate::walk::CommitWalk;

verus! {

/// Where HEAD is pointed after a checkout.
#[derive(Debug, PartialEq, Eq)]
pub enum HeadTarget {
    /// To the reference of this full name: HEAD stays on a branch.
    Reference(String),
    /// To the commit itself: HEAD is detached.
    Detached(ObjectId),
}

/// Decides where HEAD is pointed when a revision is checked out: to the
/// reference, if the revision named one, and else to the commit that it
/// resolved to. A reference whose name cannot be decoded is refused, so
/// that nothing is changed for a revision that HEAD cannot be pointed to.
pub fn checked_head_target(reference: Option<RawReference>, id: ObjectId) -> (r: Result<
    HeadTarget,
    Error,
>)
    ensures
        match reference {
            Some(raw) => match raw.name {
                Some(n) => r matches Ok(HeadTarget::Reference(t)) && t@ == n@,
                None => r is Err && r->Err_0.spec_kind() == ErrorKind::Invalid
                    && r->Err_0.follows_code(),
            },
            None => r == Ok::<HeadTarget, Error>(HeadTarget::Detached(id)),
        },
{
    match reference {
        Some(raw) => match raw.name {
            Some(n) => Ok(HeadTarget::Reference(n)),
            None => Err(Error::invalid("Invalid UTF-8 in reference name")),
        },
        None => Ok(HeadTarget::Detached(id)),
    }
}

/// Whether there is something to put back when HEAD cannot be moved
/// after the tree was checked out: HEAD stood on a commit before, and the
/// checkout touched some path.
pub fn needs_restore(head_known: bool, touched: &Vec<String>) -> (r: bool)
    ensures
        r == (head_known && touched@.len() > 0),
{
    head_known && touched.len() > 0
}

/// The context of the failure of a checkout that could not move HEAD and
/// could not put the working tree back either.
pub open spec fn unrestored_context(rev: Seq<char>) -> Seq<char> {
    "Failed to set head to revision '"@ + rev
        + "', and the working tree could not be put back"@
}

/// The failure of a checkout that could not move HEAD, given how the
/// attempt to put the touched paths back ended, if there was any. Where
/// that attempt failed too, its failure is the one reported, and the
/// context says that the working tree was not put back. Otherwise the
/// failure to move HEAD is reported.
pub fn failed_move(rev: &str, moved: StoreFailure, restored: Option<Result<(), StoreFailure>>) -> (r:
    Error)
    ensures
        r.follows_code(),
        match restored {
            Some(Err(f)) => r.spec_context().err == f && r.spec_context().ctx@
                == unrestored_context(rev@),
            _ => r.spec_context().err == moved && r.spec_context().ctx@
                == "Failed to set head to revision '"@ + rev@ + "'"@,
        },
{
    match restored {
        Some(Err(f)) => Error::from_ctx_and_error(
            framed(
                "Failed to set head to revision '",
                rev,
                "', and the working tree could not be put back",
            ),
            f,
        ),
        _ => Error::from_ctx_and_error(framed("Failed to set head to revision '", rev, "'"), moved),
    }
}

/// An open repository.
pub struct GitRepository {
    repo: git2::Repository,
}

impl GitRepository {
    /// Opens the repository that exists at `path`.
    pub fn try_open(path: &str) -> (r: Result<GitRepository, Error>)
        ensures
            r matches Err(e) ==> e.follows_code() && e.spec_context().ctx@
                == "Failed to open repository"@,
    {
        match open_repository(path) {
            Ok(repo) => Ok(GitRepository { repo }),
            Err(e) => Err(
                Error::from_ctx_and_error(String::from_str("Failed to open repository"), e),
            ),
        }
    }

    /// Creates a repository at `path`.
    pub fn try_init(path: &str) -> (r: Result<GitRepository, Error>)
        ensures
            r matches Err(e) ==> e.follows_code() && e.spec_context().ctx@
                == "Failed to initialize repository"@,
    {
        match init_repository(path) {
            Ok(repo) => Ok(GitRepository { repo }),
            Err(e) => Err(
                Error::from_ctx_and_error(String::from_str("Failed to initialize repository"), e),
            ),
        }
    }

    /// The handle on the store that this repository holds.
    pub fn repo(&self) -> (r: &git2::Repository)
        ensures
            *r == self.handle(),
    {
        &self.repo
    }

    /// The name of the current branch; none where HEAD is detached, does
    /// not resolve, or stands on a branch whose name cannot be decoded.
    /// Which reference HEAD resolves to is the store's answer, so any name
    /// can come back: the clause says no more than that the rule of
    /// `current_branch_of` was applied to what the store answered.
    pub fn current_branch_name(&self) -> (r: Option<String>)
        ensures
            exists|head: Option<RawReference>| option_text(r) == #[trigger] branch_name_of(head),
    {
        let facts = match head(&self.repo) {
            Ok(reference) => Some(reference_facts(&reference)),
            Err(_) => None,
        };
        let name = current_branch_of(facts);
        assert(option_text(name) == branch_name_of(facts));
        name
    }

    /// The commits that can be reached from `head_rev` (from HEAD where it
    /// is `None`) and not from `base_rev` (down to the root where it is
    /// `None`), newest first, each with the references that point to it. A
    /// revision that does not resolve fails the call; no commit is read
    /// before the traversal is asked for one.
    pub fn iter_commits(&self, base_rev: Option<&str>, head_rev: Option<&str>) -> (r: Result<
        CommitWalk<'_>,
        Error,
    >)
        ensures
            r matches Ok(w) ==> w.wf() && plans_range(w.requests(), base_rev, head_rev)
                && w.handed_out() == Seq::<Seq<u8>>::empty(),
            r matches Err(e) ==> e.follows_code(),
    {
        let walk = match revwalk_for_range(&self.repo, base_rev, head_rev) {
            Ok(w) => w,
            Err(e) => {
                return Err(e);
            },
        };
        match get_references_map(&self.repo) {
            Ok(references) => Ok(CommitWalk::new(&self.repo, walk, references)),
            Err(e) => Err(e),
        }
    }

    /// The commit that a revision names, with the references that point
    /// to it. The revision can be a short or full hash, a tag, a branch,
    /// `HEAD`, or any other revision expression.
    pub fn get_commit_for_revision(&self, rev: &str) -> (r: Result<CommitWithReferences, Error>)
        ensures
            r matches Ok(c) ==> is_full_hash(c@.commit.id),
            r matches Err(e) ==> e.follows_code(),
    {
        let references = match get_references_map(&self.repo) {
            Ok(m) => m,
            Err(e) => {
                return Err(e);
            },
        };
        let commit = match get_commit_for_revision(&self.repo, rev) {
            Ok(c) => c,
            Err(e) => {
                return Err(e);
            },
        };
        Ok(
            CommitWithReferences::from_commit_and_references(
                &commit,
                references.get_references_for_commit_id(commit.id()),
            ),
        )
    }

    /// Checks a revision out: index and working tree are made to match
    /// its tree, and HEAD is pointed to the reference that the revision
    /// named, or to the commit itself where it named none. Everything that
    /// can fail without a change is done first: the revision is resolved,
    /// peeled to the commit that HEAD will stand on, and decorated. If
    /// HEAD cannot be moved after the tree was checked out, the paths that
    /// the checkout touched are put back as HEAD has them.
    pub fn checkout_revision(&self, rev: &str) -> (r: Result<CommitWithReferences, Error>)
        ensures
            r matches Ok(c) ==> is_full_hash(c@.commit.id),
            r matches Err(e) ==> e.follows_code(),
    {
        let (object, reference) = match revparse_ext(&self.repo, rev) {
            Ok(pair) => pair,
            Err(e) => {
                return Err(
                    Error::from_ctx_and_error(framed("Failed to parse revision '", rev, "'"), e),
                );
            },
        };
        match object_peel_to_commit(&object) {
            Ok(_) => {},
            Err(e) => {
                return Err(
                    Error::from_ctx_and_error(
                        framed("Failed to checkout revision '", rev, "'"),
                        e,
                    ),
                );
            },
        }
        let facts = match &reference {
            Some(r) => Some(reference_facts(r)),
            None => None,
        };
        let target = match checked_head_target(facts, object_id(&object)) {
            Ok(t) => t,
            Err(e) => {
                return Err(e);
            },
        };
        let checked_out = match self.get_commit_for_revision(rev) {
            Ok(c) => c,
            Err(e) => {
                return Err(e);
            },
        };
        let previous = match revparse_single(&self.repo, "HEAD") {
            Ok(o) => Some(o),
            Err(_) => None,
        };
        let touched = match &previous {
            Some(from) => match self.paths_between(from, &object) {
                Ok(paths) => paths,
                Err(e) => {
                    return Err(e);
                },
            },
            None => Vec::new(),
        };
        match checkout_tree(&self.repo, &object) {
            Ok(()) => {},
            Err(e) => {
                return Err(
                    Error::from_ctx_and_error(
                        framed("Failed to checkout revision '", rev, "'"),
                        e,
                    ),
                );
            },
        }
        let moved = match target {
            HeadTarget::Reference(name) => set_head(&self.repo, name.as_str()),
            HeadTarget::Detached(id) => set_head_detached(&self.repo, &id),
        };
        match moved {
            Ok(()) => Ok(checked_out),
            Err(e) => {
                let restored = match &previous {
                    Some(from) => if needs_restore(true, &touched) {
                        Some(checkout_paths_forced(&self.repo, from, &touched))
                    } else {
                        None
                    },
                    None => None,
                };
                Err(failed_move(rev, e, restored))
            },
        }
    }

    /// The paths that differ between the trees of two objects.
    fn paths_between(&self, from: &git2::Object, to: &git2::Object) -> (r: Result<
        Vec<String>,
        Error,
    >)
        ensures
            r matches Ok(paths) ==> forall|i: int|
                0 <= i < paths@.len() ==> !(#[trigger] paths@[i])@.contains('\0'),
            r matches Err(e) ==> e.follows_code(),
    {
        let old_tree = match object_peel_to_tree(from) {
            Ok(t) => t,
            Err(e) => {
                return Err(
                    Error::from_ctx_and_error(String::from_str("Failed to read the tree of HEAD"), e),
                );
            },
        };
        let new_tree = match object_peel_to_tree(to) {
            Ok(t) => t,
            Err(e) => {
                return Err(
                    Error::from_ctx_and_error(
                        String::from_str("Failed to read the tree to check out"),
                        e,
                    ),
                );
            },
        };
        let comparison = match diff_tree_to_tree(&self.repo, Some(&old_tree), &new_tree) {
            Ok(c) => c,
            Err(e) => {
                return Err(
                    Error::from_ctx_and_error(
                        String::from_str("Failed to compare HEAD to the tree to check out"),
                        e,
                    ),
                );
            },
        };
        match diff_old_sides(&comparison) {
            Ok(sides) => Ok(changed_paths(&sides)),
            Err(e) => Err(
                Error::from_ctx_and_error(
                    String::from_str("Failed to compare HEAD to the tree to check out"),
                    e,
                ),
            ),
        }
    }

    fn comparison_for_revisions(&self, base_rev: Option<&str>, head_rev: Option<&str>) -> (r:
        Result<TreeComparison<'_>, Error>)
        ensures
            r matches Ok(c) ==> comparison_has_base(c) == (base_rev is Some) && comparison_searches(
                c,
            ) == Seq::<bool>::empty().push(true),
            r matches Err(e) ==> e.follows_code(),
    {
        let head = match head_rev {
            Some(h) => h,
            None => "HEAD",
        };
        let tree = match get_tree_for_revision(&self.repo, head) {
            Ok(t) => t,
            Err(e) => {
                return Err(e);
            },
        };
        let base_tree = match base_rev {
            Some(rev) => match get_tree_for_revision(&self.repo, rev) {
                Ok(t) => Some(t),
                Err(e) => {
                    return Err(e);
                },
            },
            None => None,
        };
        let mut comparison = match diff_tree_to_tree(&self.repo, base_tree.as_ref(), &tree) {
            Ok(c) => c,
            Err(e) => {
                return Err(
                    Error::from_ctx_and_error(framed("Failed to diff tree to '", head, "'"), e),
                );
            },
        };
        match diff_find_similar(&mut comparison, true) {
            Ok(()) => Ok(comparison),
            Err(e) => Err(
                Error::from_ctx_and_error(
                    String::from_str("Failed to find similar files in diff"),
                    e,
                ),
            ),
        }
    }

    /// The difference between the trees of two revisions: from the tree
    /// of `base_rev` (from the empty tree where it is `None`) to the tree
    /// of `head_rev` (of HEAD where it is `None`), with a deleted and an
    /// added file of similar content reported as one renamed file. Any
    /// failure fails the whole call.
    pub fn diff(&self, base_rev: Option<&str>, head_rev: Option<&str>) -> (r: Result<Diff, Error>)
        ensures
            r matches Ok(d) ==> d@.consistent() && exists|c: TreeComparison|
                #[trigger] d@.reads(c) && comparison_has_base(c) == (base_rev is Some)
                    && comparison_searches(c) == Seq::<bool>::empty().push(true),
            r matches Err(e) ==> e.follows_code(),
    {
        let comparison = match self.comparison_for_revisions(base_rev, head_rev) {
            Ok(c) => c,
            Err(e) => {
                return Err(e);
            },
        };
        match Diff::try_from_repo_and_diff(&self.repo, &comparison) {
            Ok(d) => {
                assert(d@.reads(comparison));
                Ok(d)
            },
            Err(e) => Err(e),
        }
    }

    /// Every reference of the repository with the commit it points to, in
    /// the order in which the store enumerates them. A reference that
    /// cannot be read, peeled or classified is left out. Every commit
    /// carries its id written out in full.
    pub fn iter_references(&self) -> (r: Result<Vec<ResolvedReference>, Error>)
        ensures
            r matches Ok(v) ==> targets_full(v@),
            r matches Err(e) ==> e.follows_code(),
    {
        let references = match list_references(&self.repo) {
            Ok(v) => v,
            Err(e) => {
                return Err(
                    Error::from_ctx_and_error(String::from_str("Failed to get references"), e),
                );
            },
        };
        let mut items: Vec<ReferenceRead> = Vec::new();
        let mut i: usize = 0;
        while i < references.len()
            invariant
                i <= references@.len(),
                forall|k: int|
                    0 <= k < items@.len() ==> ((#[trigger] items@[k]).target matches Ok(c)
                        ==> is_full_hash(c@.id)),
            decreases references@.len() - i,
        {
            match &references[i] {
                Ok(reference) => {
                    items.push(ReferenceRead::read(&self.repo, reference));
                },
                Err(_) => {},
            }
            i += 1;
        }
        let resolved = resolved_among(&items);
        proof {
            lemma_resolved_targets_full(items@);
            assert forall|j: int| 0 <= j < resolved@.len() implies is_full_hash(
                (#[trigger] resolved@[j])@.target.id,
            ) by {
                assert(resolved_view(resolved@)[j] == resolved@[j]@);
            }
        }
        Ok(resolved)
    }

    /// The references whose short name holds `filter`, letter for letter,
    /// and whose kind passes `kinds`. An empty filter holds back no name.
    pub fn list_references(&self, filter: &str, kinds: Option<&ReferenceKindFilter>) -> (r: Result<
        Vec<ResolvedReference>,
        Error,
    >)
        ensures
            r matches Ok(v) ==> forall|i: int|
                0 <= i < v@.len() ==> reference_passes((#[trigger] v@[i])@, filter@, kinds),
            r matches Err(e) ==> e.follows_code(),
    {
        match self.iter_references() {
            Ok(all) => {
                let shown = filter_references(&all, filter, kinds);
                proof {
                    crate::filter::lemma_shown_pass(all@, filter@, kinds);
                    assert forall|i: int| 0 <= i < shown@.len() implies reference_passes(
                        (#[trigger] shown@[i])@,
                        filter@,
                        kinds,
                    ) by {
                        assert(crate::reference::resolved_view(shown@)[i] == shown@[i]@);
                    }
                }
                Ok(shown)
            },
            Err(e) => Err(e),
        }
    }

    /// The tags of the repository.
    pub fn iter_tags(&self) -> (r: Result<Vec<TaggedCommit>, Error>)
        ensures
            r matches Ok(v) ==> forall|i: int|
                0 <= i < v@.len() ==> is_full_hash((#[trigger] v@[i])@.commit.id),
            r matches Err(e) ==> e.follows_code(),
    {
        match self.iter_references() {
            Ok(all) => Ok(tags_among(all)),
            Err(e) => Err(e),
        }
    }

    /// The local branches of the repository.
    pub fn iter_branches(&self) -> (r: Result<Vec<Branch>, Error>)
        ensures
            r matches Ok(v) ==> forall|i: int|
                0 <= i < v@.len() ==> is_full_hash((#[trigger] v@[i])@.head.id),
            r matches Err(e) ==> e.follows_code(),
    {
        match self.iter_references() {
            Ok(all) => Ok(branches_among(all)),
            Err(e) => Err(e),
        }
    }

    /// Creates a lightweight tag `name` on `revision`. Where a tag of
    /// that name exists it is replaced if `force` is given; if it is not,
    /// the call fails and the store answers that the name is taken, which
    /// is a `Conflict`.
    pub fn create_lightweight_tag(&self, name: &str, revision: &str, force: bool) -> (r: Result<
        TaggedCommit,
        Error,
    >)
        ensures
            r matches Ok(t) ==> t@.tag == name@ && is_full_hash(t@.commit.id),
            r matches Err(e) ==> e.follows_code(),
    {
        let object = match get_object_for_revision(&self.repo, revision) {
            Ok(o) => o,
            Err(e) => {
                return Err(e);
            },
        };
        match tag_lightweight(&self.repo, name, object.object(), force) {
            Ok(_) => {},
            Err(e) => {
                return Err(Error::from_ctx_and_error(framed("Failed to create tag '", name, "'"), e));
            },
        }
        TaggedCommit::try_from_repo_and_tag_name(&self.repo, name)
    }

    /// Creates a branch `name` on `revision`. Where a branch of that name
    /// exists it is moved if `force` is given; if it is not, the call
    /// fails and the store answers that the name is taken, which is a
    /// `Conflict`. The head of the branch that comes back is the commit
    /// of the id that the revision resolved to.
    pub fn create_branch(&self, name: &str, revision: &str, force: bool) -> (r: Result<
        Branch,
        Error,
    >)
        ensures
            r matches Ok(b) ==> b@.name == name@ && is_full_hash(b@.head.id),
            r matches Err(e) ==> e.follows_code(),
    {
        match resolve_to_commit(&self.repo, revision) {
            Ok(id) => self.create_branch_at(name, &id, force),
            Err(e) => Err(e),
        }
    }

    /// Creates a branch `name` on the commit of the given id. The branch
    /// that comes back has that name, and its head is the commit of that
    /// id as the store holds it.
    pub fn create_branch_at(&self, name: &str, id: &ObjectId, force: bool) -> (r: Result<
        Branch,
        Error,
    >)
        ensures
            r matches Ok(b) ==> b@.name == name@ && b@.head.id == hex_of(id@) && is_full_hash(
                b@.head.id,
            ),
            r matches Err(e) ==> e.follows_code(),
    {
        let commit = match get_commit_for_oid(&self.repo, id) {
            Ok(c) => c,
            Err(e) => {
                return Err(e);
            },
        };
        match create_branch(&self.repo, name, id, force) {
            Ok(()) => Ok(Branch::from_name_and_commit(name, &commit)),
            Err(e) => Err(
                Error::from_ctx_and_error(framed("Failed to create branch '", name, "'"), e),
            ),
        }
    }

    /// The status of the repository: HEAD, and every path that differs
    /// between HEAD, the index and the working tree.
    pub fn status(&self) -> (r: Result<Status, Error>)
        ensures
            r matches Ok(s) ==> s@.consistent(),
            r matches Err(e) ==> e.follows_code(),
    {
        let head_commit = match self.get_commit_for_revision("HEAD") {
            Ok(c) => c,
            Err(e) => {
                return Err(e);
            },
        };
        let query = StatusQuery::full();
        let entries = match statuses(&self.repo, &query) {
            Ok(v) => v,
            Err(e) => {
                return Err(
                    Error::from_ctx_and_error(String::from_str("Failed to create statuses"), e),
                );
            },
        };
        let current_branch = self.current_branch_name();
        let detached = match head_detached(&self.repo) {
            Ok(d) => d,
            Err(e) => {
                return Err(
                    Error::from_ctx_and_error(
                        String::from_str("Failed to determined if head is detached"),
                        e,
                    ),
                );
            },
        };
        Ok(Status::from_entries(current_branch, head_commit, detached, &entries))
    }

    /// Adds to the index every file of the working tree that matches one
    /// of the patterns, and writes the index.
    pub fn add_all(&self, pathspecs: &Vec<String>) -> (r: Result<(), Error>)
        ensures
            r matches Err(e) ==> e.follows_code(),
    {
        let mut index = match index(&self.repo) {
            Ok(i) => i,
            Err(e) => {
                return Err(
                    Error::from_ctx_and_error(String::from_str("Failed getting the index"), e),
                );
            },
        };
        match index_add_all(&mut index, pathspecs) {
            Ok(()) => {},
            Err(e) => {
                return Err(
                    Error::from_ctx_and_error(String::from_str("Failed adding path to index"), e),
                );
            },
        }
        match index_write(&mut index) {
            Ok(()) => Ok(()),
            Err(e) => Err(
                Error::from_ctx_and_error(
                    String::from_str("Failed writing index path to index"),
                    e,
                ),
            ),
        }
    }

    /// The handle on the store that this repository holds.
    pub closed spec fn handle(&self) -> git2::Repository {
        self.repo
    }
}

} // verus!
