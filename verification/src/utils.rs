//! Revisions: from what a person types to the object, commit or tree that
//! it names, and to the range of commits between two of them.

use vstd::prelude::*;
use vstd::string::StringExecFns;
use crate::commit::{Commit, CommitProperties};
use crate::error::{Error, ErrorKind, StoreFailure, CODE_NOT_FOUND};
use crate::oid::{bytes_of_hex, hex_of, is_full_hash, lemma_hex_round_trip, ObjectId};
use crate::reference::{ReferenceResolution, ReferencesMap};
use crate::store::{
    find_commit, list_references, object_id, object_peel_to_commit, object_peel_to_tree,
    reference_facts, reference_peel_to_commit, revparse_single, revwalk, revwalk_push,
    revwalk_push_head, revwalk_push_range, revwalk_set_sorting, walk_handed_out, walk_requests,
    RevisionWalk, WalkRequest,
};
use crate::text::framed;

verus! {

pub use crate::text::to_safe_glob;

/// What a revision resolves to when the store finds the object `found`
/// for it: that object, unless the revision is an id written out in full
/// and the store found another object. A full id names the object of that
/// id and no other.
pub open spec fn confirmed(rev: Seq<char>, found: ObjectId) -> Option<ObjectId> {
    if is_full_hash(rev) && found@ != bytes_of_hex(rev) {
        None
    } else {
        Some(found)
    }
}

/// Confirms what the store found for a revision. An object that a full
/// id does not name is refused as `NotFound`.
pub fn confirm_resolution(rev: &str, found: ObjectId) -> (r: Result<ObjectId, Error>)
    ensures
        match confirmed(rev@, found) {
            Some(id) => r == Ok::<ObjectId, Error>(id),
            None => r is Err && r->Err_0.spec_kind() == ErrorKind::NotFound
                && r->Err_0.follows_code() && r->Err_0.spec_context().ctx@ == "Revision '"@
                + rev@ + "'"@,
        },
{
    match ObjectId::from_full_hex(rev) {
        Some(named) => {
            if named.same(&found) {
                Ok(found)
            } else {
                Err(
                    Error::from_ctx_and_error(
                        framed("Revision '", rev, "'"),
                        StoreFailure::new(
                            CODE_NOT_FOUND,
                            String::from_str("the id names no object"),
                        ),
                    ),
                )
            }
        },
        None => Ok(found),
    }
}

/// An object of the store together with the id that the store gives for
/// it.
pub struct NamedObject<'repo> {
    object: git2::Object<'repo>,
    id: ObjectId,
}

impl<'repo> NamedObject<'repo> {
    /// The id of the object.
    pub closed spec fn spec_id(&self) -> ObjectId {
        self.id
    }

    /// The handle on the object.
    pub closed spec fn handle(&self) -> git2::Object<'repo> {
        self.object
    }

    /// The id of the object.
    pub fn id(&self) -> (r: ObjectId)
        ensures
            r == self.spec_id(),
    {
        self.id
    }

    /// The handle on the object, for the calls into the store that take
    /// one.
    pub fn object(&self) -> (r: &git2::Object<'repo>)
        ensures
            *r == self.handle(),
    {
        &self.object
    }
}

/// The object that a revision expression names, with its id. An id
/// written out in full names the object of that id or nothing: where the
/// store finds another object for it, that is refused as `NotFound`. A
/// failure of the store is reported with the expression; its kind follows
/// the store's code, so an expression that names nothing is `NotFound`
/// and a malformed one is `Invalid`.
pub fn get_object_for_revision<'repo>(repo: &'repo git2::Repository, rev: &str) -> (r: Result<
    NamedObject<'repo>,
    Error,
>)
    ensures
        r matches Ok(o) ==> (is_full_hash(rev@) ==> o.spec_id()@ == bytes_of_hex(rev@)),
        r matches Err(e) ==> e.follows_code() && e.spec_context().ctx@ == "Revision '"@ + rev@
            + "'"@,
{
    match revparse_single(repo, rev) {
        Ok(object) => {
            let found = object_id(&object);
            match confirm_resolution(rev, found) {
                Ok(id) => Ok(NamedObject { object, id }),
                Err(e) => Err(e),
            }
        },
        Err(e) => Err(Error::from_ctx_and_error(framed("Revision '", rev, "'"), e)),
    }
}

/// The id of the object that a revision expression names. An id written
/// out in full resolves to itself or not at all.
pub fn resolve(repo: &git2::Repository, rev: &str) -> (r: Result<ObjectId, Error>)
    ensures
        r matches Ok(id) ==> (is_full_hash(rev@) ==> id@ == bytes_of_hex(rev@)),
        r matches Err(e) ==> e.follows_code() && e.spec_context().ctx@ == "Revision '"@ + rev@
            + "'"@,
{
    match get_object_for_revision(repo, rev) {
        Ok(named) => Ok(named.id()),
        Err(e) => Err(e),
    }
}

/// The commit with the given id. The commit that comes back has that id;
/// a failure of the store is reported with the id.
pub fn get_commit_for_oid(repo: &git2::Repository, oid: &ObjectId) -> (r: Result<Commit, Error>)
    ensures
        r matches Ok(c) ==> c@.id == hex_of(oid@) && is_full_hash(c@.id),
        r matches Err(e) ==> e.follows_code() && e.spec_context().ctx@ == "Commit '"@ + hex_of(
            oid@,
        ) + "'"@,
{
    proof {
        lemma_hex_round_trip(*oid);
    }
    match find_commit(repo, oid) {
        Ok(raw) => Ok(Commit::from_raw(raw)),
        Err(e) => {
            let hex = oid.to_hex();
            Err(Error::from_ctx_and_error(framed("Commit '", hex.as_str(), "'"), e))
        },
    }
}

/// The id of the commit that a revision expression names: the object it
/// names, peeled down to a commit where it is an annotated tag.
pub fn resolve_to_commit(repo: &git2::Repository, rev: &str) -> (r: Result<ObjectId, Error>)
    ensures
        r matches Err(e) ==> e.follows_code(),
{
    let named = match get_object_for_revision(repo, rev) {
        Ok(named) => named,
        Err(e) => {
            return Err(e);
        },
    };
    match object_peel_to_commit(named.object()) {
        Ok(id) => Ok(id),
        Err(e) => Err(Error::from_ctx_and_error(framed("Commit for revision '", rev, "'"), e)),
    }
}

/// The commit that a revision expression names. It carries its id
/// written out in full.
pub fn get_commit_for_revision(repo: &git2::Repository, rev: &str) -> (r: Result<Commit, Error>)
    ensures
        r matches Ok(c) ==> is_full_hash(c@.id),
        r matches Err(e) ==> e.follows_code(),
{
    match resolve_to_commit(repo, rev) {
        Ok(id) => get_commit_for_oid(repo, &id),
        Err(e) => Err(e),
    }
}

/// The tree of the commit that a revision expression names.
pub fn get_tree_for_revision<'repo>(repo: &'repo git2::Repository, rev: &str) -> (r: Result<
    git2::Tree<'repo>,
    Error,
>)
    ensures
        r matches Err(e) ==> e.follows_code(),
{
    let named = match get_object_for_revision(repo, rev) {
        Ok(named) => named,
        Err(e) => {
            return Err(e);
        },
    };
    match object_peel_to_tree(named.object()) {
        Ok(tree) => Ok(tree),
        Err(e) => Err(Error::from_ctx_and_error(framed("Tree for revision'", rev, "'"), e)),
    }
}

/// The range that a traversal is given where it has a lower bound: from
/// the id that the base resolved to, to the id that the head resolved to,
/// or to `HEAD` where no head is named. Ids written out in full hold no
/// `..` of their own.
pub open spec fn range_of(base_id: Seq<u8>, head_id: Option<Seq<u8>>) -> Seq<char> {
    match head_id {
        Some(h) => hex_of(base_id) + ".."@ + hex_of(h),
        None => hex_of(base_id) + ".."@ + "HEAD"@,
    }
}

/// The id of an optional object id.
pub open spec fn id_of(id: Option<&ObjectId>) -> Option<Seq<u8>> {
    match id {
        Some(i) => Some(i@),
        None => None,
    }
}

/// Writes the range from `base` to `head`, or to `HEAD`.
pub fn range_text(base: &ObjectId, head: Option<&ObjectId>) -> (r: String)
    ensures
        r@ == range_of(base@, id_of(head)),
{
    let from = base.to_hex();
    match head {
        Some(h) => {
            let to = h.to_hex();
            framed(from.as_str(), "..", to.as_str())
        },
        None => framed(from.as_str(), "..", "HEAD"),
    }
}

/// Sorting flag of the store: no commit before all of its children.
pub const SORT_TOPOLOGICAL: u32 = 1;

/// Sorting flag of the store: by commit time, the newest first.
pub const SORT_TIME: u32 = 2;

/// The order in which a traversal hands the commits out: the newest
/// first, and no commit before all of its children, so that commits of
/// the same time come in the order of the graph.
pub const SORT_NEWEST_FIRST: u32 = 3;

/// What the traversal of a range is asked for: first the order, the
/// newest first; then to start at the commit that the head resolved to,
/// or at HEAD where no head is named; and, where a base is named, to
/// leave out what can be reached from it, by the range from the base to
/// the head.
pub open spec fn planned_requests(
    base_id: Option<Seq<u8>>,
    head_id: Option<Seq<u8>>,
) -> Seq<WalkRequest> {
    let order = Seq::<WalkRequest>::empty().push(WalkRequest::Order(SORT_NEWEST_FIRST));
    let start = match head_id {
        Some(h) => order.push(WalkRequest::Start(h)),
        None => order.push(WalkRequest::StartAtHead),
    };
    match base_id {
        Some(b) => start.push(WalkRequest::Range(range_of(b, head_id))),
        None => start,
    }
}

/// Whether `id` can be what an optional revision resolved to: there is an
/// id exactly if there is a revision, and a revision that is an id
/// written out in full resolves to that id.
pub open spec fn resolution_of(rev: Option<&str>, id: Option<Seq<u8>>) -> bool {
    match rev {
        Some(r) => id is Some && (is_full_hash(r@) ==> id->0 == bytes_of_hex(r@)),
        None => id is None,
    }
}

/// Whether the requests are those of the range between the two
/// revisions, for what the revisions resolved to.
pub open spec fn plans_range(
    requests: Seq<WalkRequest>,
    base_rev: Option<&str>,
    head_rev: Option<&str>,
) -> bool {
    exists|base_id: Option<Seq<u8>>, head_id: Option<Seq<u8>>|
        requests == #[trigger] planned_requests(base_id, head_id) && resolution_of(
            base_rev,
            base_id,
        ) && resolution_of(head_rev, head_id)
}

/// Sets up the traversal of the commits that can be reached from `head`
/// (from HEAD where none is named) and not from `base` (down to the root
/// where none is named). Both revisions are resolved before the traversal
/// hands out anything: if one of them fails to resolve there is no
/// traversal, and the failure is reported with the revision. The
/// traversal that comes back has been asked for exactly what the range
/// plans, with the ids that the revisions resolved to.
pub fn revwalk_for_range<'repo>(
    repo: &'repo git2::Repository,
    base_rev: Option<&str>,
    head_rev: Option<&str>,
) -> (r: Result<RevisionWalk<'repo>, Error>)
    ensures
        r matches Ok(w) ==> plans_range(walk_requests(w), base_rev, head_rev) && walk_handed_out(w)
            == Seq::<Seq<u8>>::empty(),
        r matches Err(e) ==> e.follows_code(),
{
    let mut walk = match revwalk(repo) {
        Ok(w) => w,
        Err(e) => {
            return Err(
                Error::from_ctx_and_error(String::from_str("Failed to create revwalk object"), e),
            );
        },
    };
    match revwalk_set_sorting(&mut walk, SORT_NEWEST_FIRST) {
        Ok(()) => {},
        Err(e) => {
            return Err(
                Error::from_ctx_and_error(
                    String::from_str("Failed to set the order of the revwalk"),
                    e,
                ),
            );
        },
    }
    let head_oid: Option<ObjectId> = match head_rev {
        Some(head) => {
            let oid = match resolve(repo, head) {
                Ok(id) => id,
                Err(e) => {
                    return Err(e);
                },
            };
            match revwalk_push(&mut walk, &oid) {
                Ok(()) => {},
                Err(e) => {
                    return Err(
                        Error::from_ctx_and_error(
                            framed("Failed to push head revision '", head, "' to revwalk"),
                            e,
                        ),
                    );
                },
            }
            Some(oid)
        },
        None => {
            match revwalk_push_head(&mut walk) {
                Ok(()) => {},
                Err(e) => {
                    return Err(
                        Error::from_ctx_and_error(
                            String::from_str("Failed to push head to revwalk"),
                            e,
                        ),
                    );
                },
            }
            None
        },
    };
    let ghost head_id: Option<Seq<u8>> = match head_oid {
        Some(i) => Some(i@),
        None => None,
    };
    let ghost mut base_id: Option<Seq<u8>> = None;
    match base_rev {
        Some(base) => {
            let base_oid = match resolve(repo, base) {
                Ok(id) => id,
                Err(e) => {
                    return Err(e);
                },
            };
            proof {
                base_id = Some(base_oid@);
            }
            let range = range_text(&base_oid, head_oid.as_ref());
            match revwalk_push_range(&mut walk, range.as_str()) {
                Ok(()) => {},
                Err(e) => {
                    return Err(
                        Error::from_ctx_and_error(
                            framed("Failed to leave out base revision '", base, "'"),
                            e,
                        ),
                    );
                },
            }
        },
        None => {},
    }
    assert(walk_requests(walk) == planned_requests(base_id, head_id));
    assert(resolution_of(base_rev, base_id));
    assert(resolution_of(head_rev, head_id));
    assert(plans_range(walk_requests(walk), base_rev, head_rev));
    Ok(walk)
}

/// Builds the index from commits to the references that point to them.
/// Every reference of the repository is enumerated and peeled to its
/// commit; one that cannot be indexed is skipped. Only a failure to
/// enumerate fails the build.
pub fn get_references_map(repo: &git2::Repository) -> (r: Result<ReferencesMap, Error>)
    ensures
        r matches Ok(m) ==> m.wf(),
        r matches Err(e) ==> e.follows_code(),
{
    let references = match list_references(repo) {
        Ok(v) => v,
        Err(e) => {
            return Err(
                Error::from_ctx_and_error(String::from_str("Failed to get references"), e),
            );
        },
    };
    let mut items: Vec<ReferenceResolution> = Vec::new();
    let mut i: usize = 0;
    while i < references.len()
        invariant
            i <= references@.len(),
        decreases references@.len() - i,
    {
        match &references[i] {
            Ok(reference) => {
                items.push(
                    ReferenceResolution {
                        raw: reference_facts(reference),
                        target: reference_peel_to_commit(reference),
                    },
                );
            },
            Err(e) => {
                return Err(
                    Error::from_ctx_and_error(
                        String::from_str("Failed to get reference"),
                        e.clone(),
                    ),
                );
            },
        }
        i += 1;
    }
    Ok(ReferencesMap::from_resolutions(&items))
}

/// The hexadecimal form of an id resolves to that id or to nothing,
/// whatever the store finds for it.
pub proof fn lemma_full_hash_resolves_to_itself(id: ObjectId, found: ObjectId)
    ensures
        confirmed(hex_of(id@), found) == if found@ == id@ {
            Some(found)
        } else {
            None
        },
{
    lemma_hex_round_trip(id);
}

} // verus!
