//! The status of a repository: every path that differs between HEAD, the
//! index and the working tree, sorted into one bucket.

use vstd::prelude::*;
use vstd::string::StringExecFns;
use crate::commit::{CommitWithReferences, CommitWithReferencesView};
use crate::reference::RawReference;

verus! {

/// The path is new in the index.
pub const STATUS_INDEX_NEW: u32 = 0x1;

/// The path is modified in the index.
pub const STATUS_INDEX_MODIFIED: u32 = 0x2;

/// The path is deleted from the index.
pub const STATUS_INDEX_DELETED: u32 = 0x4;

/// The path is renamed in the index.
pub const STATUS_INDEX_RENAMED: u32 = 0x8;

/// The path is new in the working tree.
pub const STATUS_WT_NEW: u32 = 0x80;

/// The path is modified in the working tree.
pub const STATUS_WT_MODIFIED: u32 = 0x100;

/// The path is deleted from the working tree.
pub const STATUS_WT_DELETED: u32 = 0x200;

/// The path is renamed in the working tree.
pub const STATUS_WT_RENAMED: u32 = 0x800;

/// The path has a conflict that is not resolved.
pub const STATUS_CONFLICTED: u32 = 0x8000;

/// What the store is asked to report when the status is taken.
#[derive(Clone, Copy, Debug, PartialEq, Eq, Structural)]
pub struct StatusQuery {
    pub include_untracked: bool,
    pub recurse_untracked_dirs: bool,
    pub include_ignored: bool,
    pub renames_head_to_index: bool,
    pub renames_index_to_workdir: bool,
}

impl StatusQuery {
    /// The query of the status report: untracked files are listed, also
    /// those inside untracked directories; ignored files are not; renames
    /// are looked for between HEAD and index and between index and working
    /// tree.
    pub fn full() -> (q: StatusQuery)
        ensures
            q == (StatusQuery {
                include_untracked: true,
                recurse_untracked_dirs: true,
                include_ignored: false,
                renames_head_to_index: true,
                renames_index_to_workdir: true,
            }),
    {
        StatusQuery {
            include_untracked: true,
            recurse_untracked_dirs: true,
            include_ignored: false,
            renames_head_to_index: true,
            renames_index_to_workdir: true,
        }
    }
}

/// One path of the status as the store reports it: the path, absent where
/// it is not valid UTF-8, and the store's status flags.
#[derive(Debug)]
pub struct StatusEntry {
    pub path: Option<String>,
    pub flags: u32,
}

/// The bucket that a changed path is reported in.
#[derive(Clone, Copy, Debug, PartialEq, Eq, Structural)]
pub enum Change {
    IndexNew,
    IndexRenamed,
    IndexModified,
    IndexDeleted,
    WorktreeNew,
    WorktreeRenamed,
    WorktreeModified,
    WorktreeDeleted,
    Conflicted,
}

impl Change {
    /// Whether the change is one of the index.
    pub open spec fn in_index(self) -> bool {
        self == Change::IndexNew || self == Change::IndexRenamed || self == Change::IndexModified
            || self == Change::IndexDeleted
    }

    /// Whether the change is one of the working tree.
    pub open spec fn in_worktree(self) -> bool {
        self == Change::WorktreeNew || self == Change::WorktreeRenamed || self
            == Change::WorktreeModified || self == Change::WorktreeDeleted
    }
}

/// Whether `flags` has the bit `flag`.
pub open spec fn has_flag(flags: u32, flag: u32) -> bool {
    flags & flag != 0
}

/// The one bucket of a path with the given flags: the first that applies
/// of new, renamed, modified and deleted in the index, then the same four
/// in the working tree, then conflicted. A path that none applies to is in
/// no bucket.
pub open spec fn change_of(flags: u32) -> Option<Change> {
    if has_flag(flags, STATUS_INDEX_NEW) {
        Some(Change::IndexNew)
    } else if has_flag(flags, STATUS_INDEX_RENAMED) {
        Some(Change::IndexRenamed)
    } else if has_flag(flags, STATUS_INDEX_MODIFIED) {
        Some(Change::IndexModified)
    } else if has_flag(flags, STATUS_INDEX_DELETED) {
        Some(Change::IndexDeleted)
    } else if has_flag(flags, STATUS_WT_NEW) {
        Some(Change::WorktreeNew)
    } else if has_flag(flags, STATUS_WT_RENAMED) {
        Some(Change::WorktreeRenamed)
    } else if has_flag(flags, STATUS_WT_MODIFIED) {
        Some(Change::WorktreeModified)
    } else if has_flag(flags, STATUS_WT_DELETED) {
        Some(Change::WorktreeDeleted)
    } else if has_flag(flags, STATUS_CONFLICTED) {
        Some(Change::Conflicted)
    } else {
        None
    }
}

/// Sorts a path into its bucket by its status flags.
pub fn classify(flags: u32) -> (r: Option<Change>)
    ensures
        r == change_of(flags),
{
    if flags & STATUS_INDEX_NEW != 0 {
        Some(Change::IndexNew)
    } else if flags & STATUS_INDEX_RENAMED != 0 {
        Some(Change::IndexRenamed)
    } else if flags & STATUS_INDEX_MODIFIED != 0 {
        Some(Change::IndexModified)
    } else if flags & STATUS_INDEX_DELETED != 0 {
        Some(Change::IndexDeleted)
    } else if flags & STATUS_WT_NEW != 0 {
        Some(Change::WorktreeNew)
    } else if flags & STATUS_WT_RENAMED != 0 {
        Some(Change::WorktreeRenamed)
    } else if flags & STATUS_WT_MODIFIED != 0 {
        Some(Change::WorktreeModified)
    } else if flags & STATUS_WT_DELETED != 0 {
        Some(Change::WorktreeDeleted)
    } else if flags & STATUS_CONFLICTED != 0 {
        Some(Change::Conflicted)
    } else {
        None
    }
}

/// The path of an entry as it is listed: a path that cannot be decoded is
/// listed as `<invalid utf-8>`.
pub open spec fn listed_path(entry: StatusEntry) -> Seq<char> {
    match entry.path {
        Some(p) => p@,
        None => "<invalid utf-8>"@,
    }
}

/// The paths of the entries that fall into the bucket `change`, in the
/// order of the entries.
pub open spec fn paths_with(entries: Seq<StatusEntry>, change: Change) -> Seq<Seq<char>>
    decreases entries.len(),
{
    if entries.len() == 0 {
        Seq::empty()
    } else {
        let before = paths_with(entries.drop_last(), change);
        if change_of(entries.last().flags) == Some(change) {
            before.push(listed_path(entries.last()))
        } else {
            before
        }
    }
}

/// The texts of a list of strings, in order.
pub open spec fn strings_view(s: Seq<String>) -> Seq<Seq<char>> {
    s.map_values(|t: String| t@)
}

/// A copy of a list of strings.
pub fn clone_strings(v: &Vec<String>) -> (r: Vec<String>)
    ensures
        strings_view(r@) == strings_view(v@),
{
    let mut out: Vec<String> = Vec::new();
    let mut i: usize = 0;
    while i < v.len()
        invariant
            i <= v@.len(),
            out@.len() == i,
            forall|k: int| 0 <= k < i ==> out@[k]@ == v@[k]@,
        decreases v@.len() - i,
    {
        out.push(v[i].clone());
        i += 1;
    }
    assert(strings_view(out@) =~= strings_view(v@));
    out
}

/// The changed paths of the index, or of the working tree.
#[derive(Debug, PartialEq, Eq)]
pub struct TreeStatus {
    new_files: Vec<String>,
    modified_files: Vec<String>,
    deleted_files: Vec<String>,
    renamed_files: Vec<String>,
}

pub struct TreeStatusView {
    pub new_files: Seq<Seq<char>>,
    pub modified_files: Seq<Seq<char>>,
    pub deleted_files: Seq<Seq<char>>,
    pub renamed_files: Seq<Seq<char>>,
}

impl TreeStatusView {
    /// Whether no path is listed.
    pub open spec fn is_clean(self) -> bool {
        self.new_files.len() == 0 && self.modified_files.len() == 0 && self.deleted_files.len()
            == 0 && self.renamed_files.len() == 0
    }
}

impl View for TreeStatus {
    type V = TreeStatusView;

    closed spec fn view(&self) -> TreeStatusView {
        TreeStatusView {
            new_files: strings_view(self.new_files@),
            modified_files: strings_view(self.modified_files@),
            deleted_files: strings_view(self.deleted_files@),
            renamed_files: strings_view(self.renamed_files@),
        }
    }
}

impl TreeStatus {
    /// The status in which no path is listed.
    pub fn new() -> (r: TreeStatus)
        ensures
            r@.is_clean(),
            r@ == (TreeStatusView {
                new_files: Seq::empty(),
                modified_files: Seq::empty(),
                deleted_files: Seq::empty(),
                renamed_files: Seq::empty(),
            }),
    {
        let r = TreeStatus {
            new_files: Vec::new(),
            modified_files: Vec::new(),
            deleted_files: Vec::new(),
            renamed_files: Vec::new(),
        };
        assert(strings_view(r.new_files@) =~= Seq::<Seq<char>>::empty());
        assert(strings_view(r.modified_files@) =~= Seq::<Seq<char>>::empty());
        assert(strings_view(r.deleted_files@) =~= Seq::<Seq<char>>::empty());
        assert(strings_view(r.renamed_files@) =~= Seq::<Seq<char>>::empty());
        r
    }

    /// Files that were added.
    pub fn new_files(&self) -> (r: &Vec<String>)
        ensures
            strings_view(r@) == self@.new_files,
    {
        &self.new_files
    }

    /// Files that were modified.
    pub fn modified_files(&self) -> (r: &Vec<String>)
        ensures
            strings_view(r@) == self@.modified_files,
    {
        &self.modified_files
    }

    /// Files that were deleted.
    pub fn deleted_files(&self) -> (r: &Vec<String>)
        ensures
            strings_view(r@) == self@.deleted_files,
    {
        &self.deleted_files
    }

    /// Files that were renamed.
    pub fn renamed_files(&self) -> (r: &Vec<String>)
        ensures
            strings_view(r@) == self@.renamed_files,
    {
        &self.renamed_files
    }

    fn is_clean(&self) -> (r: bool)
        ensures
            r == self@.is_clean(),
    {
        self.new_files.len() == 0 && self.modified_files.len() == 0 && self.deleted_files.len()
            == 0 && self.renamed_files.len() == 0
    }
}

impl Clone for TreeStatus {
    fn clone(&self) -> (r: TreeStatus)
        ensures
            r@ == self@,
    {
        TreeStatus {
            new_files: clone_strings(&self.new_files),
            modified_files: clone_strings(&self.modified_files),
            deleted_files: clone_strings(&self.deleted_files),
            renamed_files: clone_strings(&self.renamed_files),
        }
    }
}

/// The changed paths of the index among the entries.
pub open spec fn index_status_of(entries: Seq<StatusEntry>) -> TreeStatusView {
    TreeStatusView {
        new_files: paths_with(entries, Change::IndexNew),
        modified_files: paths_with(entries, Change::IndexModified),
        deleted_files: paths_with(entries, Change::IndexDeleted),
        renamed_files: paths_with(entries, Change::IndexRenamed),
    }
}

/// The changed paths of the working tree among the entries.
pub open spec fn worktree_status_of(entries: Seq<StatusEntry>) -> TreeStatusView {
    TreeStatusView {
        new_files: paths_with(entries, Change::WorktreeNew),
        modified_files: paths_with(entries, Change::WorktreeModified),
        deleted_files: paths_with(entries, Change::WorktreeDeleted),
        renamed_files: paths_with(entries, Change::WorktreeRenamed),
    }
}

/// The name of the branch that HEAD stands on: the short name of HEAD's
/// reference if that is a branch and its name can be decoded.
pub open spec fn branch_name_of(head: Option<RawReference>) -> Option<Seq<char>> {
    match head {
        Some(r) => if r.is_branch {
            match r.shorthand {
                Some(n) => Some(n@),
                None => None,
            }
        } else {
            None
        },
        None => None,
    }
}

/// The name of the current branch, given the reference that HEAD resolves
/// to, if it resolves.
pub fn current_branch_of(head: Option<RawReference>) -> (r: Option<String>)
    ensures
        match branch_name_of(head) {
            Some(n) => r is Some && r->0@ == n,
            None => r is None,
        },
{
    match head {
        Some(r) => if r.is_branch {
            r.shorthand
        } else {
            None
        },
        None => None,
    }
}

/// The state of a repository at one moment.
#[derive(Debug, PartialEq, Eq)]
pub struct Status {
    current_branch: Option<String>,
    head: CommitWithReferences,
    is_detached_head: bool,
    is_dirty: bool,
    index: TreeStatus,
    worktree: TreeStatus,
    conflicts: Vec<String>,
}

pub struct StatusView {
    /// The branch that HEAD stands on, if it stands on one.
    pub current_branch: Option<Seq<char>>,
    /// The commit that HEAD points to.
    pub head: CommitWithReferencesView,
    pub is_detached_head: bool,
    pub is_dirty: bool,
    pub index: TreeStatusView,
    pub worktree: TreeStatusView,
    pub conflicts: Seq<Seq<char>>,
}

impl StatusView {
    /// Whether some path is listed as changed or conflicted.
    pub open spec fn lists_a_path(self) -> bool {
        !self.index.is_clean() || !self.worktree.is_clean() || self.conflicts.len() > 0
    }

    /// Whether the buckets are those of the given entries: each entry
    /// listed once, in the bucket that its flags put it in, or not at all.
    pub open spec fn reconciles(self, entries: Seq<StatusEntry>) -> bool {
        &&& self.index == index_status_of(entries)
        &&& self.worktree == worktree_status_of(entries)
        &&& self.conflicts == paths_with(entries, Change::Conflicted)
    }

    /// What holds of every status: it is dirty exactly if it lists a path,
    /// and a detached HEAD stands on no branch.
    pub open spec fn consistent(self) -> bool {
        &&& self.is_dirty == self.lists_a_path()
        &&& self.is_detached_head ==> self.current_branch is None
    }
}

/// The text of an optional string.
pub open spec fn option_text(s: Option<String>) -> Option<Seq<char>> {
    match s {
        Some(t) => Some(t@),
        None => None,
    }
}

impl View for Status {
    type V = StatusView;

    closed spec fn view(&self) -> StatusView {
        StatusView {
            current_branch: option_text(self.current_branch),
            head: self.head@,
            is_detached_head: self.is_detached_head,
            is_dirty: self.is_dirty,
            index: self.index@,
            worktree: self.worktree@,
            conflicts: strings_view(self.conflicts@),
        }
    }
}

impl Clone for Status {
    fn clone(&self) -> (r: Status)
        ensures
            r@ == self@,
    {
        Status {
            current_branch: match &self.current_branch {
                Some(n) => Some(n.clone()),
                None => None,
            },
            head: self.head.clone(),
            is_detached_head: self.is_detached_head,
            is_dirty: self.is_dirty,
            index: self.index.clone(),
            worktree: self.worktree.clone(),
            conflicts: clone_strings(&self.conflicts),
        }
    }
}

fn listed_path_of(entry: &StatusEntry) -> (r: String)
    ensures
        r@ == listed_path(*entry),
{
    match &entry.path {
        Some(p) => p.clone(),
        None => String::from_str("<invalid utf-8>"),
    }
}

proof fn lemma_paths_with_step(entries: Seq<StatusEntry>, i: int, change: Change)
    requires
        0 <= i < entries.len(),
    ensures
        paths_with(entries.take(i + 1), change) == if change_of(entries[i].flags) == Some(change) {
            paths_with(entries.take(i), change).push(listed_path(entries[i]))
        } else {
            paths_with(entries.take(i), change)
        },
{
    assert(entries.take(i + 1).drop_last() =~= entries.take(i));
}

impl Status {
    /// Reconciles what the store reports into one status. Each entry is
    /// listed once, in the bucket that its flags put it in, or not at all;
    /// the buckets keep the order of the entries. The status is dirty
    /// exactly if some path is listed. A detached HEAD has no current
    /// branch, whatever name is given.
    pub fn from_entries(
        current_branch: Option<String>,
        head: CommitWithReferences,
        is_detached_head: bool,
        entries: &Vec<StatusEntry>,
    ) -> (s: Status)
        ensures
            s@.current_branch == if is_detached_head {
                None
            } else {
                option_text(current_branch)
            },
            s@.head == head@,
            s@.is_detached_head == is_detached_head,
            s@.index == index_status_of(entries@),
            s@.worktree == worktree_status_of(entries@),
            s@.conflicts == paths_with(entries@, Change::Conflicted),
            s@.reconciles(entries@),
            s@.consistent(),
    {
        let mut index = TreeStatus::new();
        let mut worktree = TreeStatus::new();
        let mut conflicts: Vec<String> = Vec::new();
        let mut i: usize = 0;
        assert(entries@.take(0) =~= Seq::<StatusEntry>::empty());
        assert(strings_view(conflicts@) =~= Seq::<Seq<char>>::empty());
        while i < entries.len()
            invariant
                i <= entries@.len(),
                index@ == index_status_of(entries@.take(i as int)),
                worktree@ == worktree_status_of(entries@.take(i as int)),
                strings_view(conflicts@) == paths_with(entries@.take(i as int), Change::Conflicted),
            decreases entries@.len() - i,
        {
            let entry = &entries[i];
            proof {
                lemma_paths_with_step(entries@, i as int, Change::IndexNew);
                lemma_paths_with_step(entries@, i as int, Change::IndexRenamed);
                lemma_paths_with_step(entries@, i as int, Change::IndexModified);
                lemma_paths_with_step(entries@, i as int, Change::IndexDeleted);
                lemma_paths_with_step(entries@, i as int, Change::WorktreeNew);
                lemma_paths_with_step(entries@, i as int, Change::WorktreeRenamed);
                lemma_paths_with_step(entries@, i as int, Change::WorktreeModified);
                lemma_paths_with_step(entries@, i as int, Change::WorktreeDeleted);
                lemma_paths_with_step(entries@, i as int, Change::Conflicted);
            }
            let ghost old_index = index@;
            let ghost old_worktree = worktree@;
            let ghost old_conflicts = strings_view(conflicts@);
            match classify(entry.flags) {
                Some(Change::IndexNew) => {
                    index.new_files.push(listed_path_of(entry));
                    assert(index@.new_files =~= old_index.new_files.push(listed_path(*entry)));
                },
                Some(Change::IndexRenamed) => {
                    index.renamed_files.push(listed_path_of(entry));
                    assert(index@.renamed_files =~= old_index.renamed_files.push(
                        listed_path(*entry),
                    ));
                },
                Some(Change::IndexModified) => {
                    index.modified_files.push(listed_path_of(entry));
                    assert(index@.modified_files =~= old_index.modified_files.push(
                        listed_path(*entry),
                    ));
                },
                Some(Change::IndexDeleted) => {
                    index.deleted_files.push(listed_path_of(entry));
                    assert(index@.deleted_files =~= old_index.deleted_files.push(
                        listed_path(*entry),
                    ));
                },
                Some(Change::WorktreeNew) => {
                    worktree.new_files.push(listed_path_of(entry));
                    assert(worktree@.new_files =~= old_worktree.new_files.push(
                        listed_path(*entry),
                    ));
                },
                Some(Change::WorktreeRenamed) => {
                    worktree.renamed_files.push(listed_path_of(entry));
                    assert(worktree@.renamed_files =~= old_worktree.renamed_files.push(
                        listed_path(*entry),
                    ));
                },
                Some(Change::WorktreeModified) => {
                    worktree.modified_files.push(listed_path_of(entry));
                    assert(worktree@.modified_files =~= old_worktree.modified_files.push(
                        listed_path(*entry),
                    ));
                },
                Some(Change::WorktreeDeleted) => {
                    worktree.deleted_files.push(listed_path_of(entry));
                    assert(worktree@.deleted_files =~= old_worktree.deleted_files.push(
                        listed_path(*entry),
                    ));
                },
                Some(Change::Conflicted) => {
                    conflicts.push(listed_path_of(entry));
                    assert(strings_view(conflicts@) =~= old_conflicts.push(listed_path(*entry)));
                },
                None => {},
            }
            i += 1;
        }
        assert(entries@.take(i as int) =~= entries@);
        let is_dirty = !index.is_clean() || !worktree.is_clean() || conflicts.len() > 0;
        let current_branch = if is_detached_head {
            None
        } else {
            current_branch
        };
        Status { current_branch, head, is_detached_head, is_dirty, index, worktree, conflicts }
    }

    /// The status of a repository.
    pub fn try_from(repo: &crate::repository::GitRepository) -> (r: Result<Status, crate::error::Error>)
        ensures
            r matches Ok(s) ==> s@.consistent(),
            r matches Err(e) ==> e.follows_code(),
    {
        repo.status()
    }

    /// The name of the current branch; none if HEAD is detached.
    pub fn current_branch(&self) -> (r: Option<&str>)
        ensures
            match r {
                Some(n) => self@.current_branch == Some(n@),
                None => self@.current_branch is None,
            },
    {
        match &self.current_branch {
            Some(n) => Some(n.as_str()),
            None => None,
        }
    }

    /// The commit that HEAD points to.
    pub fn head(&self) -> (r: &CommitWithReferences)
        ensures
            r@ == self@.head,
    {
        &self.head
    }

    /// Whether HEAD points to a commit and not to the tip of a branch.
    pub fn is_detached_head(&self) -> (r: bool)
        ensures
            r == self@.is_detached_head,
    {
        self.is_detached_head
    }

    /// Whether the index or the working tree has changes.
    pub fn is_dirty(&self) -> (r: bool)
        ensures
            r == self@.is_dirty,
    {
        self.is_dirty
    }

    /// The changed paths of the index.
    pub fn index(&self) -> (r: &TreeStatus)
        ensures
            r@ == self@.index,
    {
        &self.index
    }

    /// The changed paths of the working tree.
    pub fn worktree(&self) -> (r: &TreeStatus)
        ensures
            r@ == self@.worktree,
    {
        &self.worktree
    }

    /// The paths with conflicts.
    pub fn conflicted(&self) -> (r: &Vec<String>)
        ensures
            strings_view(r@) == self@.conflicts,
    {
        &self.conflicts
    }
}

/// A path is listed in the bucket `change` exactly if some entry falls into
/// that bucket.
pub proof fn lemma_bucket_nonempty(entries: Seq<StatusEntry>, change: Change)
    ensures
        paths_with(entries, change).len() > 0 <==> exists|i: int|
            0 <= i < entries.len() && #[trigger] change_of(entries[i].flags) == Some(change),
    decreases entries.len(),
{
    if entries.len() > 0 {
        let front = entries.drop_last();
        lemma_bucket_nonempty(front, change);
        if paths_with(entries, change).len() > 0 {
            if change_of(entries.last().flags) == Some(change) {
                assert(change_of(entries[entries.len() - 1].flags) == Some(change));
            } else {
                let i = choose|i: int|
                    0 <= i < front.len() && #[trigger] change_of(front[i].flags) == Some(change);
                assert(entries[i] == front[i]);
            }
        }
        if exists|i: int|
            0 <= i < entries.len() && #[trigger] change_of(entries[i].flags) == Some(change) {
            let i = choose|i: int|
                0 <= i < entries.len() && #[trigger] change_of(entries[i].flags) == Some(change);
            if i < entries.len() - 1 {
                assert(front[i] == entries[i]);
            }
        }
    }
}

/// The number of paths listed over all nine buckets.
pub open spec fn listed_count(entries: Seq<StatusEntry>) -> nat {
    paths_with(entries, Change::IndexNew).len() + paths_with(entries, Change::IndexRenamed).len()
        + paths_with(entries, Change::IndexModified).len() + paths_with(
        entries,
        Change::IndexDeleted,
    ).len() + paths_with(entries, Change::WorktreeNew).len() + paths_with(
        entries,
        Change::WorktreeRenamed,
    ).len() + paths_with(entries, Change::WorktreeModified).len() + paths_with(
        entries,
        Change::WorktreeDeleted,
    ).len() + paths_with(entries, Change::Conflicted).len()
}

/// The number of entries that fall into some bucket.
pub open spec fn classified_count(entries: Seq<StatusEntry>) -> nat
    decreases entries.len(),
{
    if entries.len() == 0 {
        0
    } else if change_of(entries.last().flags) is Some {
        classified_count(entries.drop_last()) + 1
    } else {
        classified_count(entries.drop_last())
    }
}

/// Every entry is listed at most once: the buckets together hold as many
/// paths as there are entries that fall into a bucket.
pub proof fn lemma_each_entry_listed_once(entries: Seq<StatusEntry>)
    ensures
        listed_count(entries) == classified_count(entries),
        listed_count(entries) <= entries.len(),
    decreases entries.len(),
{
    if entries.len() > 0 {
        lemma_each_entry_listed_once(entries.drop_last());
    }
}

/// A path that changed in the index is reported there and nowhere else,
/// whatever happened to it in the working tree.
pub proof fn lemma_index_change_wins(flags: u32)
    requires
        has_flag(flags, STATUS_INDEX_NEW) || has_flag(flags, STATUS_INDEX_RENAMED) || has_flag(
            flags,
            STATUS_INDEX_MODIFIED,
        ) || has_flag(flags, STATUS_INDEX_DELETED),
    ensures
        change_of(flags) is Some,
        change_of(flags)->0.in_index(),
        !change_of(flags)->0.in_worktree(),
{
}

} // verus!
