//! Filters: which references and which commits a listing shows.

use vstd::prelude::*;
use crate::branch::{Branch, BranchView};
use crate::commit::{CommitProperties, CommitWithReferences, CommitWithReferencesView};
use crate::error::{Error, ErrorKind};
use crate::oid::is_full_hash;
use crate::reference::{resolved_view, ReferenceKind, ResolvedReference, ResolvedReferenceView};
use crate::tag::{TaggedCommit, TaggedCommitView};
use crate::text::{contains_text, lowercase_of, text_contains, text_contains_ignoring_case};

verus! {

/// The kinds of reference to show, given as those to show or as those to
/// leave out.
#[derive(Debug, PartialEq, Eq)]
pub enum ReferenceKindFilter {
    /// Only references of these kinds pass.
    Include { kinds: Vec<ReferenceKind> },
    /// References of these kinds do not pass.
    Exclude { kinds: Vec<ReferenceKind> },
}

impl ReferenceKindFilter {
    /// The filter that lets only the given kinds pass.
    pub fn including(kinds: Vec<ReferenceKind>) -> (r: ReferenceKindFilter)
        ensures
            r == (ReferenceKindFilter::Include { kinds }),
    {
        ReferenceKindFilter::Include { kinds }
    }

    /// The filter that lets every kind pass but the given ones.
    pub fn exclude(kinds: Vec<ReferenceKind>) -> (r: ReferenceKindFilter)
        ensures
            r == (ReferenceKindFilter::Exclude { kinds }),
    {
        ReferenceKindFilter::Exclude { kinds }
    }

    /// Whether a reference of the given kind passes the filter.
    pub open spec fn spec_accepts(&self, kind: ReferenceKind) -> bool {
        match self {
            ReferenceKindFilter::Include { kinds } => kinds@.contains(kind),
            ReferenceKindFilter::Exclude { kinds } => !kinds@.contains(kind),
        }
    }

    #[verifier::when_used_as_spec(spec_accepts)]
    pub fn accepts(&self, kind: ReferenceKind) -> (r: bool)
        ensures
            r == self.spec_accepts(kind),
    {
        match self {
            ReferenceKindFilter::Include { kinds } => kind.is_in(kinds),
            ReferenceKindFilter::Exclude { kinds } => !kind.is_in(kinds),
        }
    }

    /// Reads a filter from a request that may name kinds to show and
    /// kinds to leave out. Naming both is a contradiction and is refused as
    /// `Invalid`; naming neither is no filter.
    pub fn from_options(
        shown: Option<Vec<ReferenceKind>>,
        left_out: Option<Vec<ReferenceKind>>,
    ) -> (r: Result<Option<ReferenceKindFilter>, Error>)
        ensures
            match (shown, left_out) {
                (Some(_), Some(_)) => r is Err && r->Err_0.spec_kind() == ErrorKind::Invalid,
                (Some(i), None) => r == Ok::<Option<ReferenceKindFilter>, Error>(
                    Some(ReferenceKindFilter::Include { kinds: i }),
                ),
                (None, Some(e)) => r == Ok::<Option<ReferenceKindFilter>, Error>(
                    Some(ReferenceKindFilter::Exclude { kinds: e }),
                ),
                (None, None) => r == Ok::<Option<ReferenceKindFilter>, Error>(None),
            },
    {
        match (shown, left_out) {
            (Some(_), Some(_)) => Err(
                Error::invalid("Include and exclude filters are mutually exclusive"),
            ),
            (Some(i), None) => Ok(Some(ReferenceKindFilter::including(i))),
            (None, Some(e)) => Ok(Some(ReferenceKindFilter::exclude(e))),
            (None, None) => Ok(None),
        }
    }
}

/// Whether a kind passes an optional filter: every kind passes where there
/// is no filter.
pub open spec fn kind_passes(kinds: Option<&ReferenceKindFilter>, kind: ReferenceKind) -> bool {
    match kinds {
        Some(f) => f.spec_accepts(kind),
        None => true,
    }
}

/// Whether a reference is shown: its kind passes the filter of kinds and
/// its short name holds the text, letter for letter.
pub open spec fn reference_passes(
    reference: ResolvedReferenceView,
    filter: Seq<char>,
    kinds: Option<&ReferenceKindFilter>,
) -> bool {
    kind_passes(kinds, reference.reference.kind) && contains_text(reference.reference.name, filter)
}

/// The references among `references` that are shown, in their order.
pub open spec fn shown_references(
    references: Seq<ResolvedReference>,
    filter: Seq<char>,
    kinds: Option<&ReferenceKindFilter>,
) -> Seq<ResolvedReferenceView>
    decreases references.len(),
{
    if references.len() == 0 {
        Seq::empty()
    } else {
        let before = shown_references(references.drop_last(), filter, kinds);
        if reference_passes(references.last()@, filter, kinds) {
            before.push(references.last()@)
        } else {
            before
        }
    }
}

/// Decides whether one reference is shown.
pub fn passes(reference: &ResolvedReference, filter: &str, kinds: Option<&ReferenceKindFilter>) -> (r:
    bool)
    ensures
        r == reference_passes(reference@, filter@, kinds),
{
    let kind_ok = match kinds {
        Some(f) => f.accepts(reference.kind()),
        None => true,
    };
    if !kind_ok {
        return false;
    }
    text_contains(reference.name(), filter)
}

/// Keeps the references whose short name holds `filter` and whose kind
/// passes `kinds`, in their order.
pub fn filter_references(
    references: &Vec<ResolvedReference>,
    filter: &str,
    kinds: Option<&ReferenceKindFilter>,
) -> (r: Vec<ResolvedReference>)
    ensures
        resolved_view(r@) == shown_references(references@, filter@, kinds),
{
    let mut out: Vec<ResolvedReference> = Vec::new();
    let mut i: usize = 0;
    assert(references@.take(0) =~= Seq::<ResolvedReference>::empty());
    assert(resolved_view(out@) =~= shown_references(references@.take(0), filter@, kinds));
    while i < references.len()
        invariant
            i <= references@.len(),
            resolved_view(out@) == shown_references(references@.take(i as int), filter@, kinds),
        decreases references@.len() - i,
    {
        proof {
            assert(references@.take(i as int + 1).drop_last() =~= references@.take(i as int));
        }
        let ghost before = resolved_view(out@);
        if passes(&references[i], filter, kinds) {
            out.push(references[i].clone());
            assert(resolved_view(out@) =~= before.push(references@[i as int]@));
        }
        i += 1;
    }
    assert(references@.take(i as int) =~= references@);
    out
}

/// Every reference that is shown passes the filter.
pub proof fn lemma_shown_pass(
    references: Seq<ResolvedReference>,
    filter: Seq<char>,
    kinds: Option<&ReferenceKindFilter>,
)
    ensures
        forall|i: int|
            0 <= i < shown_references(references, filter, kinds).len() ==> reference_passes(
                #[trigger] shown_references(references, filter, kinds)[i],
                filter,
                kinds,
            ),
    decreases references.len(),
{
    if references.len() > 0 {
        lemma_shown_pass(references.drop_last(), filter, kinds);
        let before = shown_references(references.drop_last(), filter, kinds);
        let all = shown_references(references, filter, kinds);
        assert forall|i: int| 0 <= i < all.len() implies reference_passes(
            #[trigger] all[i],
            filter,
            kinds,
        ) by {
            if i < before.len() {
                assert(all[i] == before[i]);
            }
        }
    }
}

/// The text that stands in every text is the empty one: an empty filter
/// shows every reference whose kind passes.
pub proof fn lemma_empty_filter_matches_all(name: Seq<char>)
    ensures
        contains_text(name, Seq::empty()),
{
    assert(name.subrange(0, 0) =~= Seq::<char>::empty());
    assert(crate::text::occurs_at(name, Seq::empty(), 0));
}

/// Whether every reference points to a commit that carries its id
/// written out in full.
pub open spec fn targets_full(references: Seq<ResolvedReference>) -> bool {
    forall|j: int|
        0 <= j < references.len() ==> is_full_hash((#[trigger] references[j])@.target.id)
}

/// The branches among the references, in their order.
pub open spec fn branches_of(references: Seq<ResolvedReference>) -> Seq<BranchView>
    decreases references.len(),
{
    if references.len() == 0 {
        Seq::empty()
    } else {
        let before = branches_of(references.drop_last());
        let last = references.last()@;
        if last.reference.kind == ReferenceKind::Branch {
            before.push(BranchView { name: last.reference.name, head: last.target })
        } else {
            before
        }
    }
}

/// The views of a list of branches, in order.
pub open spec fn branches_view(s: Seq<Branch>) -> Seq<BranchView> {
    s.map_values(|b: Branch| b@)
}

/// The references that are branches, as branches; the others are dropped.
pub fn branches_among(references: Vec<ResolvedReference>) -> (r: Vec<Branch>)
    ensures
        branches_view(r@) == branches_of(references@),
        targets_full(references@) ==> forall|i: int|
            0 <= i < r@.len() ==> is_full_hash((#[trigger] r@[i])@.head.id),
{
    let mut out: Vec<Branch> = Vec::new();
    let mut i: usize = 0;
    assert(references@.take(0) =~= Seq::<ResolvedReference>::empty());
    assert(branches_view(out@) =~= branches_of(references@.take(0)));
    while i < references.len()
        invariant
            i <= references@.len(),
            branches_view(out@) == branches_of(references@.take(i as int)),
            targets_full(references@) ==> forall|k: int|
                0 <= k < out@.len() ==> is_full_hash((#[trigger] out@[k])@.head.id),
        decreases references@.len() - i,
    {
        proof {
            assert(references@.take(i as int + 1).drop_last() =~= references@.take(i as int));
        }
        let ghost before = branches_view(out@);
        if references[i].kind() == ReferenceKind::Branch {
            match Branch::try_from(references[i].clone()) {
                Ok(b) => {
                    out.push(b);
                    assert(branches_view(out@) =~= before.push(
                        BranchView {
                            name: references@[i as int]@.reference.name,
                            head: references@[i as int]@.target,
                        },
                    ));
                },
                Err(_) => {},
            }
        }
        i += 1;
    }
    assert(references@.take(i as int) =~= references@);
    out
}

/// The tags among the references, in their order.
pub open spec fn tags_of(references: Seq<ResolvedReference>) -> Seq<TaggedCommitView>
    decreases references.len(),
{
    if references.len() == 0 {
        Seq::empty()
    } else {
        let before = tags_of(references.drop_last());
        let last = references.last()@;
        if last.reference.kind == ReferenceKind::Tag {
            before.push(TaggedCommitView { tag: last.reference.name, commit: last.target })
        } else {
            before
        }
    }
}

/// The views of a list of tags, in order.
pub open spec fn tags_view(s: Seq<TaggedCommit>) -> Seq<TaggedCommitView> {
    s.map_values(|t: TaggedCommit| t@)
}

/// The references that are tags, as tags; the others are dropped.
pub fn tags_among(references: Vec<ResolvedReference>) -> (r: Vec<TaggedCommit>)
    ensures
        tags_view(r@) == tags_of(references@),
        targets_full(references@) ==> forall|i: int|
            0 <= i < r@.len() ==> is_full_hash((#[trigger] r@[i])@.commit.id),
{
    let mut out: Vec<TaggedCommit> = Vec::new();
    let mut i: usize = 0;
    assert(references@.take(0) =~= Seq::<ResolvedReference>::empty());
    assert(tags_view(out@) =~= tags_of(references@.take(0)));
    while i < references.len()
        invariant
            i <= references@.len(),
            tags_view(out@) == tags_of(references@.take(i as int)),
            targets_full(references@) ==> forall|k: int|
                0 <= k < out@.len() ==> is_full_hash((#[trigger] out@[k])@.commit.id),
        decreases references@.len() - i,
    {
        proof {
            assert(references@.take(i as int + 1).drop_last() =~= references@.take(i as int));
        }
        let ghost before = tags_view(out@);
        if references[i].kind() == ReferenceKind::Tag {
            match TaggedCommit::try_from(references[i].clone()) {
                Ok(t) => {
                    out.push(t);
                    assert(tags_view(out@) =~= before.push(
                        TaggedCommitView {
                            tag: references@[i as int]@.reference.name,
                            commit: references@[i as int]@.target,
                        },
                    ));
                },
                Err(_) => {},
            }
        }
        i += 1;
    }
    assert(references@.take(i as int) =~= references@);
    out
}

/// Whether a commit matches a filter text: its id or its summary holds
/// the text, the case of letters left out of account.
pub open spec fn commit_matches(filter: Seq<char>, id: Seq<char>, summary: Seq<char>) -> bool {
    contains_text(lowercase_of(id), lowercase_of(filter)) || contains_text(
        lowercase_of(summary),
        lowercase_of(filter),
    )
}

/// Decides whether a commit matches a filter text by its id and its
/// summary.
pub fn filter_commit<C: CommitProperties>(filter: &str, commit: &C) -> (r: bool)
    ensures
        r == commit_matches(filter@, commit.spec_id(), commit.spec_summary()),
{
    let id_matches = text_contains_ignoring_case(commit.id(), filter);
    let summary_matches = text_contains_ignoring_case(commit.summary(), filter);
    id_matches || summary_matches
}

/// Decides whether a commit is listed: every commit is where the filter is
/// empty, and otherwise those that match it.
pub fn commit_passes<C: CommitProperties>(filter: &str, commit: &C) -> (r: bool)
    ensures
        r == (filter@.len() == 0 || commit_matches(
            filter@,
            commit.spec_id(),
            commit.spec_summary(),
        )),
{
    if filter.is_empty() {
        return true;
    }
    filter_commit(filter, commit)
}

/// The views of a list of commits, in order.
pub open spec fn commits_view(s: Seq<CommitWithReferences>) -> Seq<CommitWithReferencesView> {
    s.map_values(|c: CommitWithReferences| c@)
}

/// Whether a commit is listed under a filter: every commit is where the
/// filter is empty, and otherwise those that match it.
pub open spec fn commit_listed(filter: Seq<char>, commit: CommitWithReferencesView) -> bool {
    filter.len() == 0 || commit_matches(filter, commit.commit.id, commit.commit.summary)
}

/// The commits among `commits` that are listed under the filter, in
/// their order.
pub open spec fn matching_of(commits: Seq<CommitWithReferences>, filter: Seq<char>) -> Seq<
    CommitWithReferencesView,
>
    decreases commits.len(),
{
    if commits.len() == 0 {
        Seq::empty()
    } else {
        let before = matching_of(commits.drop_last(), filter);
        if commit_listed(filter, commits.last()@) {
            before.push(commits.last()@)
        } else {
            before
        }
    }
}

/// Keeps the commits that are listed under the filter, in their order.
/// Every commit kept is one of the commits given.
pub fn matching_commits(commits: &Vec<CommitWithReferences>, filter: &str) -> (r: Vec<
    CommitWithReferences,
>)
    ensures
        commits_view(r@) == matching_of(commits@, filter@),
        forall|i: int|
            0 <= i < r@.len() ==> exists|j: int|
                0 <= j < commits@.len() && (#[trigger] r@[i])@ == commits@[j]@,
{
    let mut out: Vec<CommitWithReferences> = Vec::new();
    let mut i: usize = 0;
    assert(commits@.take(0) =~= Seq::<CommitWithReferences>::empty());
    assert(commits_view(out@) =~= matching_of(commits@.take(0), filter@));
    while i < commits.len()
        invariant
            i <= commits@.len(),
            commits_view(out@) == matching_of(commits@.take(i as int), filter@),
            forall|k: int|
                0 <= k < out@.len() ==> exists|j: int|
                    0 <= j < commits@.len() && (#[trigger] out@[k])@ == commits@[j]@,
        decreases commits@.len() - i,
    {
        proof {
            assert(commits@.take(i as int + 1).drop_last() =~= commits@.take(i as int));
        }
        let ghost before = commits_view(out@);
        let ghost kept = out@;
        if commit_passes(filter, &commits[i]) {
            let copy = commits[i].clone();
            out.push(copy);
            assert(commits_view(out@) =~= before.push(commits@[i as int]@));
            assert forall|k: int| 0 <= k < out@.len() implies exists|j: int|
                0 <= j < commits@.len() && (#[trigger] out@[k])@ == commits@[j]@ by {
                if k < kept.len() {
                    assert(out@[k] == kept[k]);
                } else {
                    assert(out@[k]@ == commits@[i as int]@);
                }
            }
        }
        i += 1;
    }
    assert(commits@.take(i as int) =~= commits@);
    out
}

/// Decides whether a branch or a tag of the given name is listed: its
/// name holds the filter text, the case of letters left out of account.
pub fn name_matches(name: &str, filter: &str) -> (r: bool)
    ensures
        r == contains_text(lowercase_of(name@), lowercase_of(filter@)),
{
    text_contains_ignoring_case(name, filter)
}

} // verus!
