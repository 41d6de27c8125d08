//! Tags: references of kind tag, with the commit they are on.

use vstd::prelude::*;
use vstd::string::StringExecFns;
use crate::commit::{Commit, CommitView};
use crate::error::{Error, ErrorKind};
use crate::reference::{ReferenceKind, ResolvedReference};

verus! {

/// A tag and the commit it is on.
#[derive(Debug, PartialEq, Eq)]
pub struct TaggedCommit {
    tag: String,
    commit: Commit,
}

pub struct TaggedCommitView {
    pub tag: Seq<char>,
    pub commit: CommitView,
}

impl View for TaggedCommit {
    type V = TaggedCommitView;

    closed spec fn view(&self) -> TaggedCommitView {
        TaggedCommitView { tag: self.tag@, commit: self.commit@ }
    }
}

impl TaggedCommit {
    pub fn new(tag: &str, commit: &Commit) -> (r: TaggedCommit)
        ensures
            r@.tag == tag@,
            r@.commit == commit@,
    {
        TaggedCommit { tag: String::from_str(tag), commit: commit.clone() }
    }

    /// The tag of the given name with the commit it is on.
    pub fn try_from_repo_and_tag_name(repo: &git2::Repository, tag_name: &str) -> (r: Result<
        TaggedCommit,
        Error,
    >)
        ensures
            r matches Ok(t) ==> t@.tag == tag_name@ && crate::oid::is_full_hash(t@.commit.id),
            r matches Err(e) ==> e.follows_code(),
    {
        match Commit::try_from_revision(repo, tag_name) {
            Ok(commit) => Ok(TaggedCommit::new(tag_name, &commit)),
            Err(e) => Err(e),
        }
    }

    /// The name of the tag.
    pub fn name(&self) -> (r: &str)
        ensures
            r@ == self@.tag,
    {
        self.tag.as_str()
    }

    /// The commit the tag is on.
    pub fn commit(&self) -> (r: &Commit)
        ensures
            r@ == self@.commit,
    {
        &self.commit
    }

    /// The tag that a resolved reference is, if it is one: a reference of
    /// any other kind is refused.
    pub fn try_from(value: ResolvedReference) -> (r: Result<TaggedCommit, Error>)
        ensures
            value@.reference.kind == ReferenceKind::Tag ==> r is Ok && r->Ok_0@.tag
                == value@.reference.name && r->Ok_0@.commit == value@.target,
            value@.reference.kind != ReferenceKind::Tag ==> r is Err && r->Err_0.spec_kind()
                == ErrorKind::Generic,
    {
        if value.kind() == ReferenceKind::Tag {
            Ok(TaggedCommit { tag: String::from_str(value.name()), commit: value.target().clone() })
        } else {
            Err(Error::from_ctx("Reference is not a tag"))
        }
    }
}

impl Clone for TaggedCommit {
    fn clone(&self) -> (r: TaggedCommit)
        ensures
            r@ == self@,
    {
        TaggedCommit { tag: self.tag.clone(), commit: self.commit.clone() }
    }
}

} // verus!
