//! The commit graph walker: the commits between two revisions, newest
//! first, handed out one at a time.

use vstd::prelude::*;
use vstd::string::StringExecFns;
use crate::commit::{commit_of, CommitWithReferences, RawCommit};
use crate::error::Error;
use crate::oid::{bytes_of_hex, is_full_hash, lemma_hex_round_trip};
use crate::commit::CommitProperties;
use crate::filter::{commits_view, matching_commits, matching_of};
use crate::reference::{refs_at, ReferenceMetadataView, ReferencesMap, SkippedReference};
use crate::store::{
    find_commit, revwalk_next, timestamp_in_range, walk_handed_out, walk_requests, RevisionWalk,
    WalkRequest,
};
use crate::text::framed;

verus! {

/// The commit that the store holds, decorated with the references that the
/// index lists for it; with none where the index does not know the
/// commit.
pub fn decorate(raw: RawCommit, references: &ReferencesMap) -> (r: CommitWithReferences)
    requires
        references.wf(),
    ensures
        r@.commit == commit_of(
            raw,
            if timestamp_in_range(raw.seconds) {
                raw.seconds
            } else {
                0
            },
        ),
        r@.references == refs_at(references@, raw.id@),
{
    let found = references.get_references_for_commit_oid(&raw.id);
    CommitWithReferences::from_raw_commit_and_references(raw, found)
}

/// The ids that a list of commits carries, in order.
pub open spec fn ids_of(commits: Seq<CommitWithReferences>) -> Seq<Seq<u8>> {
    commits.map_values(|c: CommitWithReferences| bytes_of_hex(c@.commit.id))
}

/// A traversal of the commit graph under way. Nothing is read from the
/// store before a commit is asked for.
pub struct CommitWalk<'repo> {
    repo: &'repo git2::Repository,
    walk: RevisionWalk<'repo>,
    references: ReferencesMap,
}

impl<'repo> CommitWalk<'repo> {
    /// What every traversal that this library hands out satisfies.
    pub closed spec fn wf(&self) -> bool {
        self.references.wf()
    }

    /// The index of references that the commits are decorated from: the
    /// references as they were when the traversal was set up.
    pub closed spec fn references(&self) -> Map<Seq<u8>, Seq<ReferenceMetadataView>> {
        self.references@
    }

    /// What the traversal was asked for when it was set up: the order,
    /// where it starts and what it leaves out.
    pub closed spec fn requests(&self) -> Seq<WalkRequest> {
        walk_requests(self.walk)
    }

    /// The ids of the commits that the store has handed out to this
    /// traversal so far, in the order in which it handed them out.
    pub closed spec fn handed_out(&self) -> Seq<Seq<u8>> {
        walk_handed_out(self.walk)
    }

    /// The references that the index leaves out.
    pub closed spec fn spec_skipped(&self) -> Seq<SkippedReference> {
        self.references.spec_skipped()
    }

    /// Whether the commit is one of this traversal: it carries its id
    /// written out in full, and the references that the index lists
    /// under that id.
    pub open spec fn decorated(&self, commit: CommitWithReferences) -> bool {
        is_full_hash(commit@.commit.id) && commit@.references == refs_at(
            self.references(),
            bytes_of_hex(commit@.commit.id),
        )
    }

    /// A traversal over what `walk` hands out, decorated from `references`.
    pub fn new(
        repo: &'repo git2::Repository,
        walk: RevisionWalk<'repo>,
        references: ReferencesMap,
    ) -> (r: CommitWalk<'repo>)
        requires
            references.wf(),
        ensures
            r.wf(),
            r.references() == references@,
            r.requests() == walk_requests(walk),
            r.handed_out() == walk_handed_out(walk),
            r.spec_skipped() == references.spec_skipped(),
    {
        CommitWalk { repo, walk, references }
    }

    /// The next commit of the traversal with the references that point to
    /// it, or the failure to read it; nothing when the traversal is over.
    /// A commit that comes back is the last that the store handed out,
    /// and its references are those that the index lists under its id.
    /// As long as something comes back, the traversal is still asked for
    /// what it was asked for.
    pub fn next_commit(&mut self) -> (r: Option<Result<CommitWithReferences, Error>>)
        requires
            old(self).wf(),
        ensures
            final(self).wf(),
            final(self).references() == old(self).references(),
            final(self).spec_skipped() == old(self).spec_skipped(),
            r is Some ==> final(self).requests() == old(self).requests(),
            match r {
                None => final(self).handed_out() == old(self).handed_out(),
                Some(Ok(c)) => old(self).decorated(c) && final(self).handed_out() == old(
                    self,
                ).handed_out().push(bytes_of_hex(c@.commit.id)),
                Some(Err(e)) => e.follows_code() && final(self).handed_out().len() <= old(
                    self,
                ).handed_out().len() + 1 && old(self).handed_out().is_prefix_of(
                    final(self).handed_out(),
                ),
            },
    {
        let oid = match revwalk_next(&mut self.walk) {
            None => {
                return None;
            },
            Some(Err(e)) => {
                return Some(
                    Err(Error::from_ctx_and_error(String::from_str("Failed to get oid object"), e)),
                );
            },
            Some(Ok(oid)) => oid,
        };
        match find_commit(self.repo, &oid) {
            Ok(raw) => {
                proof {
                    lemma_hex_round_trip(raw.id);
                }
                Some(Ok(decorate(raw, &self.references)))
            },
            Err(e) => {
                let hex = oid.to_hex();
                Some(Err(Error::from_ctx_and_error(framed("Commit '", hex.as_str(), "'"), e)))
            },
        }
    }

    /// The next commits of the traversal, at most `limit` of them: what
    /// the store hands out during the call, up to the limit, the end of
    /// the traversal, or the first failure, which is returned in place of
    /// the commits. With a limit of zero the store is not asked and
    /// nothing is returned.
    pub fn take(&mut self, limit: usize) -> (r: Result<Vec<CommitWithReferences>, Error>)
        requires
            old(self).wf(),
        ensures
            final(self).wf(),
            final(self).references() == old(self).references(),
            final(self).spec_skipped() == old(self).spec_skipped(),
            limit == 0 ==> r is Ok && final(self).requests() == old(self).requests(),
            r matches Ok(v) ==> v@.len() <= limit && final(self).handed_out() == old(
                self,
            ).handed_out() + ids_of(v@) && (v@.len() == limit ==> final(self).requests() == old(
                self,
            ).requests()) && forall|i: int|
                0 <= i < v@.len() ==> old(self).decorated(#[trigger] v@[i]),
            r matches Err(e) ==> e.follows_code() && final(self).requests() == old(
                self,
            ).requests(),
    {
        let mut out: Vec<CommitWithReferences> = Vec::new();
        assert(old(self).handed_out() + ids_of(out@) =~= old(self).handed_out());
        while out.len() < limit
            invariant
                self.wf(),
                self.references() == old(self).references(),
                self.requests() == old(self).requests(),
                self.spec_skipped() == old(self).spec_skipped(),
                self.handed_out() == old(self).handed_out() + ids_of(out@),
                out@.len() <= limit,
                forall|i: int| 0 <= i < out@.len() ==> old(self).decorated(#[trigger] out@[i]),
            decreases limit - out@.len(),
        {
            match self.next_commit() {
                None => {
                    return Ok(out);
                },
                Some(Err(e)) => {
                    return Err(e);
                },
                Some(Ok(c)) => {
                    let ghost before = out@;
                    out.push(c);
                    assert(ids_of(out@) =~= ids_of(before).push(bytes_of_hex(c@.commit.id)));
                    assert(old(self).handed_out() + ids_of(out@) =~= (old(self).handed_out()
                        + ids_of(before)).push(bytes_of_hex(c@.commit.id)));
                },
            }
        }
        Ok(out)
    }

    /// The commits of the rest of the traversal that pass the filter, in
    /// the order of the traversal: the traversal is drawn to its end, and
    /// of the commits drawn those are kept that pass: every commit where
    /// the filter is empty, and otherwise those whose id or summary holds
    /// it, the case of letters left out of account. The first failure
    /// ends the traversal and is returned in place of the commits.
    pub fn collect_matching(&mut self, filter: &str) -> (r: Result<
        Vec<CommitWithReferences>,
        Error,
    >)
        requires
            old(self).wf(),
        ensures
            final(self).wf(),
            final(self).references() == old(self).references(),
            final(self).spec_skipped() == old(self).spec_skipped(),
            r matches Ok(v) ==> old(self).keeps(*final(self), v@, filter@) && forall|i: int|
                0 <= i < v@.len() ==> old(self).decorated(#[trigger] v@[i]),
            r matches Err(e) ==> e.follows_code(),
    {
        let drawn = match self.take(usize::MAX) {
            Ok(d) => d,
            Err(e) => {
                return Err(e);
            },
        };
        let kept = matching_commits(&drawn, filter);
        proof {
            assert(old(self).drew(*self, drawn@, kept@, filter@));
            assert forall|i: int| 0 <= i < kept@.len() implies old(self).decorated(
                #[trigger] kept@[i],
            ) by {
                let j = choose|j: int| 0 <= j < drawn@.len() && kept@[i]@ == drawn@[j]@;
                assert(old(self).decorated(drawn@[j]));
            }
        }
        Ok(kept)
    }

    /// Whether `kept` is what passes the filter among the commits
    /// `drawn`, and `drawn` is what the store handed out between this
    /// traversal and the traversal `after`.
    pub open spec fn drew(
        &self,
        after: CommitWalk<'repo>,
        drawn: Seq<CommitWithReferences>,
        kept: Seq<CommitWithReferences>,
        filter: Seq<char>,
    ) -> bool {
        after.handed_out() == self.handed_out() + ids_of(drawn) && commits_view(kept)
            == matching_of(drawn, filter)
    }

    /// Whether `kept` is what passes the filter among the commits that
    /// the store handed out between this traversal and the traversal
    /// `after`.
    pub open spec fn keeps(
        &self,
        after: CommitWalk<'repo>,
        kept: Seq<CommitWithReferences>,
        filter: Seq<char>,
    ) -> bool {
        exists|drawn: Seq<CommitWithReferences>| #[trigger] self.drew(after, drawn, kept, filter)
    }

    /// The references that the index leaves out, each with the reason,
    /// for the caller to report.
    pub fn skipped(&self) -> (r: &Vec<SkippedReference>)
        ensures
            r@ == self.spec_skipped(),
    {
        self.references.skipped()
    }
}

} // verus!
