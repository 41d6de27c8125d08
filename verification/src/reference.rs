//! References: named pointers to commits, their kinds, and the index from a
//! commit to the references that point to it.

use vstd::prelude::*;
use vstd::string::StringExecFns;
use crate::commit::{Commit, CommitView};
use crate::error::{Error, ErrorKind, StoreFailure};
use crate::oid::{bytes_of_hex, is_full_hash, is_hex_id, ObjectId};

verus! {

/// What a reference is, by the namespace its name stands in.
#[derive(Copy, Clone, Debug, PartialEq, Eq, Structural)]
pub enum ReferenceKind {
    Tag,
    Branch,
    Note,
    RemoteBranch,
}

/// A reference as the store holds it: its names, absent where they are not
/// valid UTF-8, and the namespaces that the store finds its name in.
#[derive(Debug)]
pub struct RawReference {
    /// The full name, such as `refs/heads/main`.
    pub name: Option<String>,
    /// The name without its namespace, such as `main`.
    pub shorthand: Option<String>,
    pub is_tag: bool,
    pub is_branch: bool,
    pub is_remote: bool,
    pub is_note: bool,
}

/// The kind of a reference: the first of tag, branch, remote branch and
/// note whose namespace holds it, and none outside all four.
pub open spec fn kind_of(raw: RawReference) -> Option<ReferenceKind> {
    if raw.is_tag {
        Some(ReferenceKind::Tag)
    } else if raw.is_branch {
        Some(ReferenceKind::Branch)
    } else if raw.is_remote {
        Some(ReferenceKind::RemoteBranch)
    } else if raw.is_note {
        Some(ReferenceKind::Note)
    } else {
        None
    }
}

impl ReferenceKind {
    /// Classifies a reference by the namespace of its name. A reference
    /// outside the four namespaces has no kind: that is a `Generic` error.
    pub fn from_raw(raw: &RawReference) -> (r: Result<ReferenceKind, Error>)
        ensures
            match kind_of(*raw) {
                Some(k) => r == Ok::<ReferenceKind, Error>(k),
                None => r is Err && r->Err_0.spec_kind() == ErrorKind::Generic
                    && r->Err_0.spec_context().ctx@ == "Unknown reference type"@,
            },
            r matches Err(e) ==> e.follows_code(),
    {
        if raw.is_tag {
            return Ok(ReferenceKind::Tag);
        }
        if raw.is_branch {
            return Ok(ReferenceKind::Branch);
        }
        if raw.is_remote {
            return Ok(ReferenceKind::RemoteBranch);
        }
        if raw.is_note {
            Ok(ReferenceKind::Note)
        } else {
            Err(Error::from_ctx("Unknown reference type"))
        }
    }

    /// Whether `kinds` holds this kind.
    pub fn is_in(&self, kinds: &Vec<ReferenceKind>) -> (r: bool)
        ensures
            r == kinds@.contains(*self),
    {
        let mut i: usize = 0;
        while i < kinds.len()
            invariant
                i <= kinds@.len(),
                forall|k: int| 0 <= k < i ==> kinds@[k] != *self,
            decreases kinds@.len() - i,
        {
            if kinds[i] == *self {
                return true;
            }
            i += 1;
        }
        false
    }
}

/// The short name of a reference and its kind.
#[derive(Debug, PartialEq, Eq)]
pub struct ReferenceMetadata {
    name: String,
    kind: ReferenceKind,
}

pub struct ReferenceMetadataView {
    pub name: Seq<char>,
    pub kind: ReferenceKind,
}

impl View for ReferenceMetadata {
    type V = ReferenceMetadataView;

    closed spec fn view(&self) -> ReferenceMetadataView {
        ReferenceMetadataView { name: self.name@, kind: self.kind }
    }
}

/// The metadata of a reference: its short name and its kind, where it has
/// both.
pub open spec fn metadata_of(raw: RawReference) -> Option<ReferenceMetadataView> {
    match (raw.shorthand, kind_of(raw)) {
        (Some(n), Some(k)) => Some(ReferenceMetadataView { name: n@, kind: k }),
        _ => None,
    }
}

impl ReferenceMetadata {
    pub fn new(name: &str, kind: ReferenceKind) -> (r: ReferenceMetadata)
        ensures
            r@.name == name@,
            r@.kind == kind,
    {
        ReferenceMetadata { name: String::from_str(name), kind }
    }

    pub fn name(&self) -> (r: &str)
        ensures
            r@ == self@.name,
    {
        self.name.as_str()
    }

    pub fn kind(&self) -> (r: ReferenceKind)
        ensures
            r == self@.kind,
    {
        self.kind
    }

    /// The metadata of a reference as the store holds it. A short name that
    /// is not valid UTF-8 is an `Invalid` error and is found first; a
    /// reference without a kind is a `Generic` error.
    pub fn from_raw(raw: &RawReference) -> (r: Result<ReferenceMetadata, Error>)
        ensures
            match metadata_of(*raw) {
                Some(m) => r is Ok && r->Ok_0@ == m,
                None => r is Err,
            },
            raw.shorthand is None ==> r is Err && r->Err_0.spec_kind() == ErrorKind::Invalid,
            raw.shorthand is Some && kind_of(*raw) is None ==> r is Err && r->Err_0.spec_kind()
                == ErrorKind::Generic,
            r matches Err(e) ==> e.follows_code(),
    {
        let name = match &raw.shorthand {
            Some(n) => n.clone(),
            None => {
                return Err(Error::invalid("Invalid UTF-8 in reference name"));
            },
        };
        match ReferenceKind::from_raw(raw) {
            Ok(kind) => Ok(ReferenceMetadata { name, kind }),
            Err(e) => Err(e),
        }
    }
}

impl Clone for ReferenceMetadata {
    fn clone(&self) -> (r: ReferenceMetadata)
        ensures
            r@ == self@,
    {
        ReferenceMetadata { name: self.name.clone(), kind: self.kind }
    }
}

/// The views of a list of references, in order.
pub open spec fn refs_view(s: Seq<ReferenceMetadata>) -> Seq<ReferenceMetadataView> {
    s.map_values(|r: ReferenceMetadata| r@)
}

/// A copy of a list of references.
pub fn clone_refs(v: &Vec<ReferenceMetadata>) -> (r: Vec<ReferenceMetadata>)
    ensures
        refs_view(r@) == refs_view(v@),
{
    let mut out: Vec<ReferenceMetadata> = Vec::new();
    let mut i: usize = 0;
    while i < v.len()
        invariant
            i <= v@.len(),
            out@.len() == i,
            forall|k: int| 0 <= k < i ==> out@[k]@ == v@[k]@,
        decreases v@.len() - i,
    {
        out.push(v[i].clone());
        i += 1;
    }
    assert(refs_view(out@) =~= refs_view(v@));
    out
}

/// A reference together with the commit it points to.
#[derive(Debug, PartialEq, Eq)]
pub struct ResolvedReference {
    reference: ReferenceMetadata,
    target: Commit,
}

pub struct ResolvedReferenceView {
    pub reference: ReferenceMetadataView,
    pub target: CommitView,
}

impl View for ResolvedReference {
    type V = ResolvedReferenceView;

    closed spec fn view(&self) -> ResolvedReferenceView {
        ResolvedReferenceView { reference: self.reference@, target: self.target@ }
    }
}

impl ResolvedReference {
    pub fn new(reference: ReferenceMetadata, target: Commit) -> (r: ResolvedReference)
        ensures
            r@.reference == reference@,
            r@.target == target@,
    {
        ResolvedReference { reference, target }
    }

    /// A reference of the store with the commit it points to. Its
    /// metadata is read first; then it is peeled to its commit.
    pub fn try_from(repo: &git2::Repository, reference: &git2::Reference) -> (r: Result<
        ResolvedReference,
        Error,
    >)
        ensures
            r matches Ok(x) ==> is_full_hash(x@.target.id),
            r matches Err(e) ==> e.follows_code(),
    {
        ResolvedReference::from_read(ReferenceRead::read(repo, reference))
    }

    /// The resolved reference that a reference read from the store is: its
    /// metadata with the commit it points to. A reference without a name
    /// or a kind is refused with the failure of its metadata, which is
    /// found first; one whose commit could not be read is refused with
    /// that failure.
    pub fn from_read(read: ReferenceRead) -> (r: Result<ResolvedReference, Error>)
        ensures
            match resolved_one(read) {
                Some(v) => r is Ok && r->Ok_0@ == v,
                None => r is Err,
            },
            metadata_of(read.raw) is None ==> r is Err && r->Err_0.follows_code() && (
            read.raw.shorthand is None ==> r->Err_0.spec_kind() == ErrorKind::Invalid),
            metadata_of(read.raw) is Some ==> (read.target matches Err(e) ==> r == Err::<
                ResolvedReference,
                Error,
            >(e)),
    {
        let metadata = match ReferenceMetadata::from_raw(&read.raw) {
            Ok(m) => m,
            Err(e) => {
                return Err(e);
            },
        };
        match read.target {
            Ok(target) => Ok(ResolvedReference::new(metadata, target)),
            Err(e) => Err(e),
        }
    }

    pub fn reference(&self) -> (r: &ReferenceMetadata)
        ensures
            r@ == self@.reference,
    {
        &self.reference
    }

    pub fn kind(&self) -> (r: ReferenceKind)
        ensures
            r == self@.reference.kind,
    {
        self.reference.kind()
    }

    pub fn name(&self) -> (r: &str)
        ensures
            r@ == self@.reference.name,
    {
        self.reference.name()
    }

    pub fn target(&self) -> (r: &Commit)
        ensures
            r@ == self@.target,
    {
        &self.target
    }
}

impl Clone for ResolvedReference {
    fn clone(&self) -> (r: ResolvedReference)
        ensures
            r@ == self@,
    {
        ResolvedReference { reference: self.reference.clone(), target: self.target.clone() }
    }
}

/// A reference as read from the store: what the store holds of it, and
/// the commit it points to or the failure to read that.
#[derive(Debug)]
pub struct ReferenceRead {
    pub raw: RawReference,
    pub target: Result<Commit, Error>,
}

impl ReferenceRead {
    /// Reads a reference from the store. The commit is asked for only
    /// where the reference has a name and a kind; where it has not, the
    /// failure of its metadata stands in the commit's place.
    pub fn read(repo: &git2::Repository, reference: &git2::Reference) -> (r: ReferenceRead)
        ensures
            r.target matches Ok(c) ==> is_full_hash(c@.id),
            r.target matches Err(e) ==> e.follows_code(),
    {
        let raw = crate::store::reference_facts(reference);
        let target = match ReferenceMetadata::from_raw(&raw) {
            Err(e) => Err(e),
            Ok(_) => match crate::store::reference_peel_to_commit(reference) {
                Ok(id) => crate::utils::get_commit_for_oid(repo, &id),
                Err(e) => Err(
                    Error::from_ctx_and_error(
                        String::from_str("Failed peeling reference to commit"),
                        e,
                    ),
                ),
            },
        };
        ReferenceRead { raw, target }
    }
}

/// The resolved reference that a reference read from the store is, if it
/// is one: it has a name and a kind, and its commit could be read.
pub open spec fn resolved_one(read: ReferenceRead) -> Option<ResolvedReferenceView> {
    match (metadata_of(read.raw), read.target) {
        (Some(m), Ok(c)) => Some(ResolvedReferenceView { reference: m, target: c@ }),
        _ => None,
    }
}

/// The resolved references among the references read from the store, in
/// their order; those that are none are left out.
pub open spec fn resolved_of(items: Seq<ReferenceRead>) -> Seq<ResolvedReferenceView>
    decreases items.len(),
{
    if items.len() == 0 {
        Seq::empty()
    } else {
        let before = resolved_of(items.drop_last());
        match resolved_one(items.last()) {
            Some(v) => before.push(v),
            None => before,
        }
    }
}

/// The views of a list of resolved references, in order.
pub open spec fn resolved_view(s: Seq<ResolvedReference>) -> Seq<ResolvedReferenceView> {
    s.map_values(|r: ResolvedReference| r@)
}

/// Keeps, in their order, the references that have a name, a kind and a
/// commit; the others are dropped.
pub fn resolved_among(items: &Vec<ReferenceRead>) -> (r: Vec<ResolvedReference>)
    ensures
        resolved_view(r@) == resolved_of(items@),
{
    let mut out: Vec<ResolvedReference> = Vec::new();
    let mut i: usize = 0;
    assert(items@.take(0) =~= Seq::<ReferenceRead>::empty());
    assert(resolved_view(out@) =~= resolved_of(items@.take(0)));
    while i < items.len()
        invariant
            i <= items@.len(),
            resolved_view(out@) == resolved_of(items@.take(i as int)),
        decreases items@.len() - i,
    {
        proof {
            assert(items@.take(i as int + 1).drop_last() =~= items@.take(i as int));
        }
        let ghost before = resolved_view(out@);
        match ReferenceMetadata::from_raw(&items[i].raw) {
            Ok(metadata) => match &items[i].target {
                Ok(target) => {
                    let resolved = ResolvedReference::new(metadata, target.clone());
                    out.push(resolved);
                    assert(resolved_view(out@) =~= before.push(resolved@));
                },
                Err(_) => {},
            },
            Err(_) => {},
        }
        i += 1;
    }
    assert(items@.take(i as int) =~= items@);
    out
}

/// The commit of every resolved reference is the commit of one of the
/// references read: if those all carry full ids, so do these.
pub proof fn lemma_resolved_targets_full(items: Seq<ReferenceRead>)
    requires
        forall|k: int|
            0 <= k < items.len() ==> ((#[trigger] items[k]).target matches Ok(c) ==> is_full_hash(
                c@.id,
            )),
    ensures
        forall|i: int|
            0 <= i < resolved_of(items).len() ==> is_full_hash(
                (#[trigger] resolved_of(items)[i]).target.id,
            ),
    decreases items.len(),
{
    if items.len() > 0 {
        let front = items.drop_last();
        assert forall|k: int| 0 <= k < front.len() implies ((#[trigger] front[k]).target matches Ok(
            c,
        ) ==> is_full_hash(c@.id)) by {
            assert(front[k] == items[k]);
        }
        lemma_resolved_targets_full(front);
        let all = resolved_of(items);
        let before = resolved_of(front);
        assert forall|i: int| 0 <= i < all.len() implies is_full_hash(
            (#[trigger] all[i]).target.id,
        ) by {
            if i < before.len() {
                assert(all[i] == before[i]);
            } else {
                assert(items[items.len() - 1] == items.last());
            }
        }
    }
}

/// A reference that the index leaves out, with the reason.
#[derive(Debug)]
pub struct SkippedReference {
    /// The full name of the reference, `unknown reference` where it cannot
    /// be decoded.
    pub name: String,
    /// Why the reference is not listed.
    pub error: Error,
}

/// A reference as enumerated from the store, with the outcome of peeling it
/// to the commit it points to.
#[derive(Debug)]
pub struct ReferenceResolution {
    pub raw: RawReference,
    pub target: Result<ObjectId, StoreFailure>,
}

/// The references listed under `key` in `m`, none if `m` has no such key.
pub open spec fn refs_at(
    m: Map<Seq<u8>, Seq<ReferenceMetadataView>>,
    key: Seq<u8>,
) -> Seq<ReferenceMetadataView> {
    if m.contains_key(key) {
        m[key]
    } else {
        Seq::empty()
    }
}

/// The index with one more reference listed last under the commit `key`.
pub open spec fn with_reference(
    m: Map<Seq<u8>, Seq<ReferenceMetadataView>>,
    key: Seq<u8>,
    reference: ReferenceMetadataView,
) -> Map<Seq<u8>, Seq<ReferenceMetadataView>> {
    m.insert(key, refs_at(m, key).push(reference))
}

/// The index with the commit `key` in it: as it is where it has the
/// commit, and with no reference listed under it where it has not.
pub open spec fn with_key(
    m: Map<Seq<u8>, Seq<ReferenceMetadataView>>,
    key: Seq<u8>,
) -> Map<Seq<u8>, Seq<ReferenceMetadataView>> {
    if m.contains_key(key) {
        m
    } else {
        m.insert(key, Seq::empty())
    }
}

/// The index after one more reference. A reference that peels to a
/// commit puts that commit into the index; it is listed under it if it
/// has a name and a kind. A reference that does not peel changes nothing.
pub open spec fn index_step(
    m: Map<Seq<u8>, Seq<ReferenceMetadataView>>,
    res: ReferenceResolution,
) -> Map<Seq<u8>, Seq<ReferenceMetadataView>> {
    match res.target {
        Ok(id) => match metadata_of(res.raw) {
            Some(reference) => with_reference(m, id@, reference),
            None => with_key(m, id@),
        },
        Err(_) => m,
    }
}

/// The index of a list of references: its commits are those that some
/// reference peels to, and under each stand the references with a name
/// and a kind that peel to it, in the order of the list.
pub open spec fn index_of(items: Seq<ReferenceResolution>) -> Map<
    Seq<u8>,
    Seq<ReferenceMetadataView>,
>
    decreases items.len(),
{
    if items.len() == 0 {
        Map::empty()
    } else {
        index_step(index_of(items.drop_last()), items.last())
    }
}

/// Whether a reference is left out of the lists of the index: it does not
/// peel to a commit, or it has no name or no kind.
pub open spec fn is_skipped(res: ReferenceResolution) -> bool {
    res.target is Err || metadata_of(res.raw) is None
}

/// The name under which a reference that is left out is reported.
pub open spec fn skipped_name(res: ReferenceResolution) -> Seq<char> {
    match res.raw.name {
        Some(n) => n@,
        None => "unknown reference"@,
    }
}

/// The names of the references that are left out, in the order of the
/// list.
pub open spec fn skipped_of(items: Seq<ReferenceResolution>) -> Seq<Seq<char>>
    decreases items.len(),
{
    if items.len() == 0 {
        Seq::empty()
    } else if is_skipped(items.last()) {
        skipped_of(items.drop_last()).push(skipped_name(items.last()))
    } else {
        skipped_of(items.drop_last())
    }
}

/// The names of a list of references that were left out, in order.
pub open spec fn skipped_names(s: Seq<SkippedReference>) -> Seq<Seq<char>> {
    s.map_values(|x: SkippedReference| x.name@)
}

struct RefEntry {
    target: ObjectId,
    references: Vec<ReferenceMetadata>,
}

spec fn entries_map(s: Seq<RefEntry>) -> Map<Seq<u8>, Seq<ReferenceMetadataView>>
    decreases s.len(),
{
    if s.len() == 0 {
        Map::empty()
    } else {
        entries_map(s.drop_last()).insert(s.last().target@, refs_view(s.last().references@))
    }
}

spec fn distinct_targets(s: Seq<RefEntry>) -> bool {
    forall|i: int, j: int| 0 <= i < j < s.len() ==> s[i].target@ != s[j].target@
}

proof fn lemma_entries_absent(s: Seq<RefEntry>, key: Seq<u8>)
    requires
        forall|i: int| 0 <= i < s.len() ==> s[i].target@ != key,
    ensures
        !entries_map(s).contains_key(key),
    decreases s.len(),
{
    if s.len() > 0 {
        lemma_entries_absent(s.drop_last(), key);
    }
}

proof fn lemma_entries_present(s: Seq<RefEntry>, i: int)
    requires
        distinct_targets(s),
        0 <= i < s.len(),
    ensures
        entries_map(s).contains_key(s[i].target@),
        entries_map(s)[s[i].target@] == refs_view(s[i].references@),
    decreases s.len(),
{
    if i < s.len() - 1 {
        lemma_entries_present(s.drop_last(), i);
    }
}

proof fn lemma_entries_update(s: Seq<RefEntry>, i: int, e: RefEntry)
    requires
        distinct_targets(s),
        0 <= i < s.len(),
        e.target@ == s[i].target@,
    ensures
        entries_map(s.update(i, e)) == entries_map(s).insert(
            e.target@,
            refs_view(e.references@),
        ),
    decreases s.len(),
{
    let t = s.update(i, e);
    if i == s.len() - 1 {
        assert(t.drop_last() =~= s.drop_last());
        assert(entries_map(t) =~= entries_map(s).insert(e.target@, refs_view(e.references@)));
    } else {
        lemma_entries_update(s.drop_last(), i, e);
        assert(t.drop_last() =~= s.drop_last().update(i, e));
        assert(t.last() == s.last());
        assert(s.last().target@ != e.target@);
        assert(entries_map(t) =~= entries_map(s).insert(e.target@, refs_view(e.references@)));
    }
}

/// The index from a commit to the references that point to it. It is built
/// for one query and holds what the references were when it was built.
pub struct ReferencesMap {
    entries: Vec<RefEntry>,
    skipped: Vec<SkippedReference>,
}

/// The view of an index is the index proper: the references listed under
/// each commit. The references that were left out when it was built are
/// no part of it; they are `spec_skipped`.
impl View for ReferencesMap {
    type V = Map<Seq<u8>, Seq<ReferenceMetadataView>>;

    closed spec fn view(&self) -> Map<Seq<u8>, Seq<ReferenceMetadataView>> {
        entries_map(self.entries@)
    }
}

impl ReferencesMap {
    /// No commit has two lists: what every index that this module hands out
    /// satisfies, and what its methods keep.
    pub closed spec fn wf(&self) -> bool {
        distinct_targets(self.entries@)
    }

    /// The references that were left out when the index was built, in
    /// the order in which they were met.
    pub closed spec fn spec_skipped(&self) -> Seq<SkippedReference> {
        self.skipped@
    }

    /// The empty index.
    pub fn new() -> (r: ReferencesMap)
        ensures
            r.wf(),
            r@ == Map::<Seq<u8>, Seq<ReferenceMetadataView>>::empty(),
            r.spec_skipped() == Seq::<SkippedReference>::empty(),
    {
        ReferencesMap { entries: Vec::new(), skipped: Vec::new() }
    }

    /// The references that were left out when the index was built, each
    /// with the reason, for the caller to report.
    pub fn skipped(&self) -> (r: &Vec<SkippedReference>)
        ensures
            r@ == self.spec_skipped(),
    {
        &self.skipped
    }

    /// Puts the commit `target` into the index, with no reference listed
    /// under it unless it is there already.
    pub fn touch(&mut self, target: ObjectId)
        requires
            old(self).wf(),
        ensures
            final(self).wf(),
            final(self)@ == with_key(old(self)@, target@),
            final(self).spec_skipped() == old(self).spec_skipped(),
    {
        let ghost before = self.entries@;
        match self.position(&target) {
            Some(i) => {
                proof {
                    lemma_entries_present(before, i as int);
                }
            },
            None => {
                let entry = RefEntry { target, references: Vec::new() };
                proof {
                    lemma_entries_absent(before, target@);
                    assert(refs_view(entry.references@) =~= Seq::<ReferenceMetadataView>::empty());
                    assert(before.push(entry).drop_last() =~= before);
                }
                self.entries.push(entry);
            },
        }
    }

    fn position(&self, commit_id: &ObjectId) -> (r: Option<usize>)
        ensures
            match r {
                Some(i) => i < self.entries@.len() && self.entries@[i as int].target@
                    == commit_id@,
                None => forall|i: int|
                    0 <= i < self.entries@.len() ==> self.entries@[i].target@ != commit_id@,
            },
    {
        let mut i: usize = 0;
        while i < self.entries.len()
            invariant
                i <= self.entries@.len(),
                forall|k: int| 0 <= k < i ==> self.entries@[k].target@ != commit_id@,
            decreases self.entries@.len() - i,
        {
            if self.entries[i].target.same(commit_id) {
                return Some(i);
            }
            i += 1;
        }
        None
    }

    /// The references that point to the commit with the given id, in the
    /// order in which they were indexed; `None` if no reference does.
    pub fn get_references_for_commit_oid(&self, commit_id: &ObjectId) -> (r: Option<
        &Vec<ReferenceMetadata>,
    >)
        requires
            self.wf(),
        ensures
            match r {
                Some(v) => self@.contains_key(commit_id@) && refs_view(v@) == self@[commit_id@],
                None => !self@.contains_key(commit_id@),
            },
    {
        match self.position(commit_id) {
            Some(i) => {
                proof {
                    lemma_entries_present(self.entries@, i as int);
                }
                Some(&self.entries[i].references)
            },
            None => {
                proof {
                    lemma_entries_absent(self.entries@, commit_id@);
                }
                None
            },
        }
    }

    /// The references that point to the commit whose id is written in
    /// hexadecimal in `commit_id`. A text that is no id finds nothing,
    /// whatever the index holds.
    pub fn get_references_for_commit_id(&self, commit_id: &str) -> (r: Option<
        &Vec<ReferenceMetadata>,
    >)
        requires
            self.wf(),
        ensures
            match r {
                Some(v) => is_hex_id(commit_id@) && self@.contains_key(bytes_of_hex(commit_id@))
                    && refs_view(v@) == self@[bytes_of_hex(commit_id@)],
                None => !is_hex_id(commit_id@) || !self@.contains_key(bytes_of_hex(commit_id@)),
            },
    {
        match ObjectId::from_hex(commit_id) {
            Some(id) => self.get_references_for_commit_oid(&id),
            None => None,
        }
    }

    /// Lists `reference` last among the references of the commit `target`.
    pub fn insert(&mut self, target: ObjectId, reference: ReferenceMetadata)
        requires
            old(self).wf(),
        ensures
            final(self).wf(),
            final(self)@ == with_reference(old(self)@, target@, reference@),
            final(self).spec_skipped() == old(self).spec_skipped(),
    {
        let ghost before = self.entries@;
        match self.position(&target) {
            Some(i) => {
                let mut entry = self.entries.remove(i);
                proof {
                    lemma_entries_present(before, i as int);
                }
                let ghost old_refs = refs_view(entry.references@);
                entry.references.push(reference);
                assert(refs_view(entry.references@) =~= old_refs.push(reference@));
                let ghost updated = entry;
                self.entries.insert(i, entry);
                proof {
                    assert(self.entries@ =~= before.update(i as int, updated));
                    lemma_entries_update(before, i as int, updated);
                    assert forall|a: int, b: int| 0 <= a < b < self.entries@.len() implies self.entries@[a].target@
                        != self.entries@[b].target@ by {
                        assert(self.entries@[a].target@ == before[a].target@);
                        assert(self.entries@[b].target@ == before[b].target@);
                    }
                }
            },
            None => {
                let mut references: Vec<ReferenceMetadata> = Vec::new();
                references.push(reference);
                let entry = RefEntry { target, references };
                proof {
                    lemma_entries_absent(before, target@);
                    assert(refs_view(entry.references@) =~= Seq::<ReferenceMetadataView>::empty().push(
                        reference@,
                    ));
                    assert(before.push(entry).drop_last() =~= before);
                }
                self.entries.push(entry);
            },
        }
    }

    /// Adds a reference to the index. A reference that could not be peeled
    /// to a commit is refused and the index stays as it was. One that
    /// peels puts its commit into the index; if it has no name or no kind
    /// it is refused all the same and is not listed under the commit.
    pub fn try_insert_reference(&mut self, resolution: &ReferenceResolution) -> (r: Result<
        (),
        Error,
    >)
        requires
            old(self).wf(),
        ensures
            final(self).wf(),
            final(self)@ == index_step(old(self)@, *resolution),
            final(self).spec_skipped() == old(self).spec_skipped(),
            r is Err <==> is_skipped(*resolution),
            resolution.target matches Err(e) ==> r is Err && r->Err_0.spec_context().err == e
                && r->Err_0.follows_code(),
            r matches Err(e) ==> e.follows_code(),
    {
        let target = match &resolution.target {
            Ok(id) => *id,
            Err(e) => {
                return Err(
                    Error::from_ctx_and_error(
                        String::from_str("Failed to peel reference to commit"),
                        e.clone(),
                    ),
                );
            },
        };
        match ReferenceMetadata::from_raw(&resolution.raw) {
            Ok(reference) => {
                self.insert(target, reference);
                Ok(())
            },
            Err(e) => {
                self.touch(target);
                Err(e)
            },
        }
    }

    /// Builds the index of the references of a repository. A reference
    /// that cannot be indexed is skipped; only a failure to enumerate the
    /// references fails the build.
    pub fn try_from(repo: &git2::Repository) -> (r: Result<ReferencesMap, Error>)
        ensures
            r matches Ok(m) ==> m.wf(),
            r matches Err(e) ==> e.follows_code(),
    {
        crate::utils::get_references_map(repo)
    }

    /// Builds the index of the given references. A reference that cannot be
    /// listed is skipped; it does not fail the build, and is kept with
    /// its name and the reason for the caller to report.
    pub fn from_resolutions(items: &Vec<ReferenceResolution>) -> (r: ReferencesMap)
        ensures
            r.wf(),
            r@ == index_of(items@),
            skipped_names(r.spec_skipped()) == skipped_of(items@),
    {
        let mut map = ReferencesMap::new();
        let mut i: usize = 0;
        assert(items@.take(0) =~= Seq::<ReferenceResolution>::empty());
        assert(skipped_names(map.spec_skipped()) =~= skipped_of(items@.take(0)));
        while i < items.len()
            invariant
                i <= items@.len(),
                map.wf(),
                map@ == index_of(items@.take(i as int)),
                skipped_names(map.spec_skipped()) == skipped_of(items@.take(i as int)),
            decreases items@.len() - i,
        {
            proof {
                assert(items@.take(i as int + 1).drop_last() =~= items@.take(i as int));
            }
            let ghost before = skipped_names(map.spec_skipped());
            match map.try_insert_reference(&items[i]) {
                Ok(()) => {},
                Err(error) => {
                    let name = match &items[i].raw.name {
                        Some(n) => n.clone(),
                        None => String::from_str("unknown reference"),
                    };
                    map.skipped.push(SkippedReference { name, error });
                    assert(skipped_names(map.spec_skipped()) =~= before.push(
                        skipped_name(items@[i as int]),
                    ));
                },
            }
            i += 1;
        }
        proof {
            assert(items@.take(i as int) =~= items@);
        }
        map
    }
}

/// Whether a reference peels to the commit `key`.
pub open spec fn peels_to(res: ReferenceResolution, key: Seq<u8>) -> bool {
    match res.target {
        Ok(id) => id@ == key,
        Err(_) => false,
    }
}

/// The commits in the index are exactly the commits that some reference
/// peels to.
pub proof fn lemma_index_keys(items: Seq<ReferenceResolution>, key: Seq<u8>)
    ensures
        index_of(items).contains_key(key) <==> exists|i: int|
            0 <= i < items.len() && #[trigger] peels_to(items[i], key),
    decreases items.len(),
{
    if items.len() > 0 {
        let front = items.drop_last();
        lemma_index_keys(front, key);
        if index_of(items).contains_key(key) {
            if index_of(front).contains_key(key) {
                let i = choose|i: int| 0 <= i < front.len() && #[trigger] peels_to(front[i], key);
                assert(items[i] == front[i]);
            } else {
                assert(peels_to(items[items.len() - 1], key));
            }
        }
        if exists|i: int| 0 <= i < items.len() && #[trigger] peels_to(items[i], key) {
            let i = choose|i: int| 0 <= i < items.len() && #[trigger] peels_to(items[i], key);
            if i < items.len() - 1 {
                assert(front[i] == items[i]);
            }
        }
    }
}

} // verus!
