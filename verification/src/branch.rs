//! Branches: references of kind branch, with the commit at their head.

use vstd::prelude::*;
use vstd::string::StringExecFns;
use crate::commit::{Commit, CommitView};
use crate::error::{Error, ErrorKind};
use crate::reference::{ReferenceKind, ResolvedReference};

verus! {

/// A branch and the commit at its head when the branch was read.
#[derive(Debug, PartialEq, Eq)]
pub struct Branch {
    name: String,
    head: Commit,
}

pub struct BranchView {
    pub name: Seq<char>,
    pub head: CommitView,
}

impl View for Branch {
    type V = BranchView;

    closed spec fn view(&self) -> BranchView {
        BranchView { name: self.name@, head: self.head@ }
    }
}

impl Branch {
    /// The name of the branch.
    pub fn name(&self) -> (r: &str)
        ensures
            r@ == self@.name,
    {
        self.name.as_str()
    }

    /// The head commit of the branch at the time the branch was read.
    pub fn head(&self) -> (r: &Commit)
        ensures
            r@ == self@.head,
    {
        &self.head
    }

    pub fn from_name_and_commit(name: &str, head: &Commit) -> (r: Branch)
        ensures
            r@.name == name@,
            r@.head == head@,
    {
        Branch { name: String::from_str(name), head: head.clone() }
    }

    /// The branch that a resolved reference is, if it is one: a reference
    /// of any other kind is refused.
    pub fn try_from(value: ResolvedReference) -> (r: Result<Branch, Error>)
        ensures
            value@.reference.kind == ReferenceKind::Branch ==> r is Ok && r->Ok_0@.name
                == value@.reference.name && r->Ok_0@.head == value@.target,
            value@.reference.kind != ReferenceKind::Branch ==> r is Err && r->Err_0.spec_kind()
                == ErrorKind::Generic,
    {
        if value.kind() == ReferenceKind::Branch {
            Ok(Branch { name: String::from_str(value.name()), head: value.target().clone() })
        } else {
            Err(Error::from_ctx("Reference is not a branch"))
        }
    }
}

impl Clone for Branch {
    fn clone(&self) -> (r: Branch)
        ensures
            r@ == self@,
    {
        Branch { name: self.name.clone(), head: self.head.clone() }
    }
}

} // verus!
