//! Commits as owned values: what the store knows of a commit, taken out of
//! the store once and kept.

use vstd::prelude::*;
use vstd::string::StringExecFns;
use crate::error::Error;
use crate::oid::{hex_of, ObjectId};
use crate::reference::{refs_view, ReferenceMetadata, ReferenceMetadataView};
use crate::store::checked_timestamp;
use crate::store::timestamp_in_range;

verus! {

/// What a commit and a commit with its references have in common.
pub trait CommitProperties {
    /// The id of the commit in hexadecimal.
    spec fn spec_id(&self) -> Seq<char>;

    /// The first paragraph of the commit message.
    spec fn spec_summary(&self) -> Seq<char>;

    /// The id of the commit in hexadecimal.
    fn id(&self) -> (r: &str)
        ensures
            r@ == self.spec_id(),
    ;

    /// The first paragraph of the commit message.
    fn summary(&self) -> (r: &str)
        ensures
            r@ == self.spec_summary(),
    ;
}

/// A name and an e-mail address as the store holds them: either may not be
/// valid UTF-8, and is then absent.
#[derive(Debug)]
pub struct RawSignature {
    pub name: Option<String>,
    pub email: Option<String>,
}

/// A commit as the store holds it.
#[derive(Debug)]
pub struct RawCommit {
    pub id: ObjectId,
    /// The first paragraph of the message, absent if there is none or it is
    /// not valid UTF-8.
    pub summary: Option<String>,
    /// The message after its first paragraph, absent likewise.
    pub body: Option<String>,
    /// Seconds since the epoch at which the commit was made.
    pub seconds: i64,
    pub committer: RawSignature,
    pub author: RawSignature,
}

/// The text, owned, where there is one.
pub fn owned_text(s: Option<&str>) -> (r: Option<String>)
    ensures
        match s {
            Some(t) => r is Some && r->0@ == t@,
            None => r is None,
        },
{
    match s {
        Some(t) => Some(String::from_str(t)),
        None => None,
    }
}

impl RawSignature {
    pub fn new(name: Option<&str>, email: Option<&str>) -> (r: RawSignature)
        ensures
            text_or_empty(r.name) == match name {
                Some(t) => t@,
                None => Seq::empty(),
            },
            text_or_empty(r.email) == match email {
                Some(t) => t@,
                None => Seq::empty(),
            },
    {
        RawSignature { name: owned_text(name), email: owned_text(email) }
    }
}

impl RawCommit {
    pub fn new(
        id: ObjectId,
        summary: Option<&str>,
        body: Option<&str>,
        seconds: i64,
        committer: RawSignature,
        author: RawSignature,
    ) -> (r: RawCommit)
        ensures
            r.id == id,
            r.seconds == seconds,
            r.committer == committer,
            r.author == author,
            text_or_empty(r.summary) == match summary {
                Some(t) => t@,
                None => Seq::empty(),
            },
            text_or_empty(r.body) == match body {
                Some(t) => t@,
                None => Seq::empty(),
            },
    {
        RawCommit {
            id,
            summary: owned_text(summary),
            body: owned_text(body),
            seconds,
            committer,
            author,
        }
    }
}

/// Who wrote or committed a change.
#[derive(Debug, PartialEq, Eq)]
pub struct Signature {
    name: String,
    email: String,
}

pub struct SignatureView {
    pub name: Seq<char>,
    pub email: Seq<char>,
}

impl View for Signature {
    type V = SignatureView;

    closed spec fn view(&self) -> SignatureView {
        SignatureView { name: self.name@, email: self.email@ }
    }
}

/// The text of an optional string, empty where there is none.
pub open spec fn text_or_empty(s: Option<String>) -> Seq<char> {
    match s {
        Some(t) => t@,
        None => Seq::empty(),
    }
}

fn unwrap_or_empty(s: Option<String>) -> (r: String)
    ensures
        r@ == text_or_empty(s),
{
    match s {
        Some(t) => t,
        None => String::new(),
    }
}

impl Signature {
    /// The signature with the given name and address; what is absent
    /// becomes empty.
    pub fn from_raw(raw: RawSignature) -> (s: Signature)
        ensures
            s@.name == text_or_empty(raw.name),
            s@.email == text_or_empty(raw.email),
    {
        Signature { name: unwrap_or_empty(raw.name), email: unwrap_or_empty(raw.email) }
    }

    pub fn name(&self) -> (r: &str)
        ensures
            r@ == self@.name,
    {
        self.name.as_str()
    }

    pub fn email(&self) -> (r: &str)
        ensures
            r@ == self@.email,
    {
        self.email.as_str()
    }
}

impl Clone for Signature {
    fn clone(&self) -> (r: Signature)
        ensures
            r@ == self@,
    {
        Signature { name: self.name.clone(), email: self.email.clone() }
    }
}

/// A commit: a snapshot that is never updated in place.
#[derive(Debug, PartialEq, Eq)]
pub struct Commit {
    id: String,
    summary: String,
    body: String,
    time: i64,
    committer: Signature,
    author: Signature,
}

pub struct CommitView {
    /// The id in hexadecimal.
    pub id: Seq<char>,
    pub summary: Seq<char>,
    pub body: Seq<char>,
    /// Seconds since the epoch.
    pub time: i64,
    pub committer: SignatureView,
    pub author: SignatureView,
}

impl View for Commit {
    type V = CommitView;

    closed spec fn view(&self) -> CommitView {
        CommitView {
            id: self.id@,
            summary: self.summary@,
            body: self.body@,
            time: self.time,
            committer: self.committer@,
            author: self.author@,
        }
    }
}

/// The time a commit is given: its own where the calendar can hold it, the
/// epoch where it cannot.
pub open spec fn time_or_epoch(checked: Option<i64>) -> i64 {
    match checked {
        Some(t) => t,
        None => 0,
    }
}

/// The commit that a raw commit with the given time becomes.
pub open spec fn commit_of(raw: RawCommit, time: i64) -> CommitView {
    CommitView {
        id: hex_of(raw.id@),
        summary: text_or_empty(raw.summary),
        body: text_or_empty(raw.body),
        time,
        committer: SignatureView {
            name: text_or_empty(raw.committer.name),
            email: text_or_empty(raw.committer.email),
        },
        author: SignatureView {
            name: text_or_empty(raw.author.name),
            email: text_or_empty(raw.author.email),
        },
    }
}

impl Commit {
    /// Makes a commit of what the store holds and of its time as the
    /// calendar accepted it. Text that is absent becomes empty; a time that
    /// the calendar refused becomes the epoch.
    pub fn from_raw_and_time(raw: RawCommit, checked: Option<i64>) -> (c: Commit)
        ensures
            c@ == commit_of(raw, time_or_epoch(checked)),
    {
        let time: i64 = match checked {
            Some(t) => t,
            None => 0,
        };
        Commit {
            id: raw.id.to_hex(),
            summary: unwrap_or_empty(raw.summary),
            body: unwrap_or_empty(raw.body),
            time,
            committer: Signature::from_raw(raw.committer),
            author: Signature::from_raw(raw.author),
        }
    }

    /// Makes a commit of what the store holds.
    pub fn from_raw(raw: RawCommit) -> (c: Commit)
        ensures
            c@ == commit_of(
                raw,
                if timestamp_in_range(raw.seconds) {
                    raw.seconds
                } else {
                    0
                },
            ),
    {
        let checked = checked_timestamp(raw.seconds);
        Commit::from_raw_and_time(raw, checked)
    }

    /// The commit that a revision expression names.
    pub fn try_from_revision(repo: &git2::Repository, rev: &str) -> (r: Result<Commit, Error>)
        ensures
            r matches Ok(c) ==> crate::oid::is_full_hash(c@.id),
            r matches Err(e) ==> e.follows_code(),
    {
        crate::utils::get_commit_for_revision(repo, rev)
    }

    /// The commit with the given id.
    pub fn try_from_oid(repo: &git2::Repository, oid: &ObjectId) -> (r: Result<Commit, Error>)
        ensures
            r matches Ok(c) ==> c@.id == hex_of(oid@),
            r matches Err(e) ==> e.follows_code(),
    {
        crate::utils::get_commit_for_oid(repo, oid)
    }

    pub fn body(&self) -> (r: &str)
        ensures
            r@ == self@.body,
    {
        self.body.as_str()
    }

    /// Seconds since the epoch at which the commit was made.
    pub fn time(&self) -> (r: i64)
        ensures
            r == self@.time,
    {
        self.time
    }

    pub fn committer(&self) -> (r: &Signature)
        ensures
            r@ == self@.committer,
    {
        &self.committer
    }

    pub fn author(&self) -> (r: &Signature)
        ensures
            r@ == self@.author,
    {
        &self.author
    }
}

impl CommitProperties for Commit {
    open spec fn spec_id(&self) -> Seq<char> {
        self@.id
    }

    open spec fn spec_summary(&self) -> Seq<char> {
        self@.summary
    }

    fn id(&self) -> (r: &str) {
        self.id.as_str()
    }

    fn summary(&self) -> (r: &str) {
        self.summary.as_str()
    }
}

impl Clone for Commit {
    fn clone(&self) -> (r: Commit)
        ensures
            r@ == self@,
    {
        Commit {
            id: self.id.clone(),
            summary: self.summary.clone(),
            body: self.body.clone(),
            time: self.time,
            committer: self.committer.clone(),
            author: self.author.clone(),
        }
    }
}

/// A commit together with the references that point to it.
#[derive(Debug, PartialEq, Eq)]
pub struct CommitWithReferences {
    commit: Commit,
    references: Vec<ReferenceMetadata>,
}

pub struct CommitWithReferencesView {
    pub commit: CommitView,
    pub references: Seq<ReferenceMetadataView>,
}

impl View for CommitWithReferences {
    type V = CommitWithReferencesView;

    closed spec fn view(&self) -> CommitWithReferencesView {
        CommitWithReferencesView { commit: self.commit@, references: refs_view(self.references@) }
    }
}

/// The references in an optional list, none where there is no list.
pub open spec fn refs_or_none(references: Option<&Vec<ReferenceMetadata>>) -> Seq<
    ReferenceMetadataView,
> {
    match references {
        Some(v) => refs_view(v@),
        None => Seq::empty(),
    }
}

impl CommitWithReferences {
    /// The commit decorated with the given references, in their order; with
    /// no references where none are given.
    pub fn from_commit_and_references(
        commit: &Commit,
        references: Option<&Vec<ReferenceMetadata>>,
    ) -> (r: CommitWithReferences)
        ensures
            r@.commit == commit@,
            r@.references == refs_or_none(references),
    {
        let refs = match references {
            Some(v) => crate::reference::clone_refs(v),
            None => Vec::new(),
        };
        CommitWithReferences { commit: commit.clone(), references: refs }
    }

    /// The commit that the store holds, decorated with the given
    /// references.
    pub fn from_raw_commit_and_references(
        raw: RawCommit,
        references: Option<&Vec<ReferenceMetadata>>,
    ) -> (r: CommitWithReferences)
        ensures
            r@.commit == commit_of(
                raw,
                if timestamp_in_range(raw.seconds) {
                    raw.seconds
                } else {
                    0
                },
            ),
            r@.references == refs_or_none(references),
    {
        let commit = Commit::from_raw(raw);
        CommitWithReferences::from_commit_and_references(&commit, references)
    }

    /// The commit with the given id, decorated with the given references.
    pub fn try_from_oid_and_references(
        repo: &git2::Repository,
        oid: &ObjectId,
        references: Option<&Vec<ReferenceMetadata>>,
    ) -> (r: Result<CommitWithReferences, Error>)
        ensures
            r matches Ok(c) ==> c@.commit.id == hex_of(oid@) && c@.references == refs_or_none(
                references,
            ),
            r matches Err(e) ==> e.follows_code(),
    {
        match Commit::try_from_oid(repo, oid) {
            Ok(commit) => Ok(
                CommitWithReferences::from_commit_and_references(&commit, references),
            ),
            Err(e) => Err(e),
        }
    }

    pub fn commit(&self) -> (r: &Commit)
        ensures
            r@ == self@.commit,
    {
        &self.commit
    }

    pub fn references(&self) -> (r: &Vec<ReferenceMetadata>)
        ensures
            refs_view(r@) == self@.references,
    {
        &self.references
    }
}

impl CommitProperties for CommitWithReferences {
    open spec fn spec_id(&self) -> Seq<char> {
        self@.commit.id
    }

    open spec fn spec_summary(&self) -> Seq<char> {
        self@.commit.summary
    }

    fn id(&self) -> (r: &str) {
        self.commit.id()
    }

    fn summary(&self) -> (r: &str) {
        self.commit.summary()
    }
}

impl Clone for CommitWithReferences {
    fn clone(&self) -> (r: CommitWithReferences)
        ensures
            r@ == self@,
    {
        CommitWithReferences {
            commit: self.commit.clone(),
            references: crate::reference::clone_refs(&self.references),
        }
    }
}

} // verus!
