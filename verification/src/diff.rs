//! The difference between two trees: one patch text over all changed
//! files, its statistics, and the old content of the files it touches.

use vstd::prelude::*;
use vstd::string::StringExecFns;
use vstd::utf8::{decode_utf8, valid_utf8};
use crate::error::{Error, StoreFailure};
use crate::oid::ObjectId;
use crate::store::{
    comparison_lines, comparison_old_sides, comparison_stats, diff_old_sides, diff_patch_lines,
    diff_stats, find_blob, TreeComparison,
};
use crate::text::{count_lines, line_count, utf8_text};

verus! {

/// The old side of one changed file as the store reports it.
#[derive(Debug)]
pub struct OldSide {
    /// The id of the old content; all zero where the file is new.
    pub id: ObjectId,
    /// The old path, absent where the store gives none.
    pub path: Option<String>,
}

/// The old side of one changed file together with its content, as far as
/// the store was asked for it and had it.
#[derive(Debug)]
pub struct OldBlob {
    pub side: OldSide,
    pub content: Option<Vec<u8>>,
}

/// One line of a patch as the store prints it: the kind of line and its
/// bytes.
#[derive(Debug)]
pub struct PatchLine {
    pub origin: char,
    pub content: Vec<u8>,
}

/// The statistics of a diff as the store counts them.
#[derive(Clone, Copy, Debug, PartialEq, Eq, Structural)]
pub struct RawDiffStats {
    pub files_changed: usize,
    pub insertions: usize,
    pub deletions: usize,
}

/// The statistics of a diff.
#[derive(Clone, Copy, Debug, PartialEq, Eq, Structural)]
pub struct DiffStats {
    files_changed: usize,
    insertions: usize,
    deletions: usize,
    total_old_num_lines: usize,
}

impl DiffStats {
    pub fn from_stats_and_total_old_num_lines(stats: RawDiffStats, total_old_num_lines: usize) -> (r:
        DiffStats)
        ensures
            r.spec_files_changed() == stats.files_changed,
            r.spec_insertions() == stats.insertions,
            r.spec_deletions() == stats.deletions,
            r.spec_total_old_num_lines() == total_old_num_lines,
    {
        DiffStats {
            files_changed: stats.files_changed,
            insertions: stats.insertions,
            deletions: stats.deletions,
            total_old_num_lines,
        }
    }

    pub closed spec fn spec_files_changed(&self) -> usize {
        self.files_changed
    }

    pub closed spec fn spec_insertions(&self) -> usize {
        self.insertions
    }

    pub closed spec fn spec_deletions(&self) -> usize {
        self.deletions
    }

    pub closed spec fn spec_total_old_num_lines(&self) -> usize {
        self.total_old_num_lines
    }

    /// Number of files changed.
    #[verifier::when_used_as_spec(spec_files_changed)]
    pub fn files_changed(&self) -> (r: usize)
        ensures
            r == self.spec_files_changed(),
    {
        self.files_changed
    }

    /// Number of inserted lines.
    #[verifier::when_used_as_spec(spec_insertions)]
    pub fn insertions(&self) -> (r: usize)
        ensures
            r == self.spec_insertions(),
    {
        self.insertions
    }

    /// Number of deleted lines.
    #[verifier::when_used_as_spec(spec_deletions)]
    pub fn deletions(&self) -> (r: usize)
        ensures
            r == self.spec_deletions(),
    {
        self.deletions
    }

    /// Number of lines in the old versions of all files whose old text was
    /// recovered.
    #[verifier::when_used_as_spec(spec_total_old_num_lines)]
    pub fn total_old_num_lines(&self) -> (r: usize)
        ensures
            r == self.spec_total_old_num_lines(),
    {
        self.total_old_num_lines
    }
}

/// The old version of a file that a diff touches.
#[derive(Debug, PartialEq, Eq)]
pub struct DiffFile {
    path: String,
    content: String,
    is_binary: bool,
}

pub struct DiffFileView {
    pub path: Seq<char>,
    /// The old text; a placeholder where the file is binary.
    pub content: Seq<char>,
    pub is_binary: bool,
}

impl View for DiffFile {
    type V = DiffFileView;

    closed spec fn view(&self) -> DiffFileView {
        DiffFileView { path: self.path@, content: self.content@, is_binary: self.is_binary }
    }
}

impl Clone for DiffFile {
    fn clone(&self) -> (r: DiffFile)
        ensures
            r@ == self@,
    {
        DiffFile {
            path: self.path.clone(),
            content: self.content.clone(),
            is_binary: self.is_binary,
        }
    }
}

impl DiffFile {
    pub fn path(&self) -> (r: &str)
        ensures
            r@ == self@.path,
    {
        self.path.as_str()
    }

    pub fn content(&self) -> (r: &str)
        ensures
            r@ == self@.content,
    {
        self.content.as_str()
    }

    pub fn is_binary(&self) -> (r: bool)
        ensures
            r == self@.is_binary,
    {
        self.is_binary
    }
}

/// Whether a line of this origin is printed with its origin in front:
/// added, deleted and context lines are, and so is a line marked `@`;
/// file and hunk headers are complete as they come.
pub open spec fn has_prefix(origin: char) -> bool {
    origin == '+' || origin == '-' || origin == ' ' || origin == '@'
}

/// The text of the bytes of a line: what they encode, or a placeholder
/// where they are not valid UTF-8.
pub open spec fn line_text(content: Seq<u8>) -> Seq<char> {
    if valid_utf8(content) {
        decode_utf8(content)
    } else {
        "<invalid utf8>"@
    }
}

/// One line of the patch as it is rendered.
pub open spec fn rendered_line(line: PatchLine) -> Seq<char> {
    if has_prefix(line.origin) {
        seq![line.origin] + line_text(line.content@)
    } else {
        line_text(line.content@)
    }
}

/// The patch: the rendered lines one after the other.
pub open spec fn patch_of(lines: Seq<PatchLine>) -> Seq<char>
    decreases lines.len(),
{
    if lines.len() == 0 {
        Seq::empty()
    } else {
        patch_of(lines.drop_last()) + rendered_line(lines.last())
    }
}

/// The old path as it is listed: `<unknown>` where the store gives none.
pub open spec fn listed_old_path(side: OldSide) -> Seq<char> {
    match side.path {
        Some(p) => p@,
        None => "<unknown>"@,
    }
}

/// The old version of a changed file, if there is one to show: none for a
/// file that is new (its old id is zero) and none where the store does not
/// have the old content. Content that is not valid UTF-8 is flagged as
/// binary and replaced by a placeholder.
pub open spec fn old_file_of(blob: OldBlob) -> Option<DiffFileView> {
    if blob.side.id.spec_is_zero() {
        None
    } else {
        match blob.content {
            None => None,
            Some(bytes) => Some(
                if valid_utf8(bytes@) {
                    DiffFileView {
                        path: listed_old_path(blob.side),
                        content: decode_utf8(bytes@),
                        is_binary: false,
                    }
                } else {
                    DiffFileView {
                        path: listed_old_path(blob.side),
                        content: "<binary or invalid utf8>"@,
                        is_binary: true,
                    }
                },
            ),
        }
    }
}

/// The old versions of the changed files that have one, in the order of
/// the changes.
pub open spec fn old_files_of(blobs: Seq<OldBlob>) -> Seq<DiffFileView>
    decreases blobs.len(),
{
    if blobs.len() == 0 {
        Seq::empty()
    } else {
        let before = old_files_of(blobs.drop_last());
        match old_file_of(blobs.last()) {
            Some(f) => before.push(f),
            None => before,
        }
    }
}

/// The lines of all old texts together; a binary file has none.
pub open spec fn old_lines_of(files: Seq<DiffFileView>) -> nat
    decreases files.len(),
{
    if files.len() == 0 {
        0
    } else if files.last().is_binary {
        old_lines_of(files.drop_last())
    } else {
        old_lines_of(files.drop_last()) + line_count(files.last().content)
    }
}

/// The old content by path: where two changes have the same old path, the
/// later one counts.
pub open spec fn old_sources_of(files: Seq<DiffFileView>) -> Map<Seq<char>, Seq<char>>
    decreases files.len(),
{
    if files.len() == 0 {
        Map::empty()
    } else {
        old_sources_of(files.drop_last()).insert(files.last().path, files.last().content)
    }
}

/// The old sides of a list of old sides with their content, in order.
pub open spec fn sides_of(blobs: Seq<OldBlob>) -> Seq<OldSide> {
    blobs.map_values(|b: OldBlob| b.side)
}

/// The views of a list of old files, in order.
pub open spec fn files_view(s: Seq<DiffFile>) -> Seq<DiffFileView> {
    s.map_values(|f: DiffFile| f@)
}

/// A number of lines as far as the machine can count: the number itself,
/// or the largest number there is.
pub open spec fn counted(n: nat) -> usize {
    if n <= usize::MAX {
        n as usize
    } else {
        usize::MAX
    }
}

/// The difference between two trees.
#[derive(Debug, PartialEq, Eq)]
pub struct Diff {
    patch: String,
    stats: DiffStats,
    old_files: Vec<DiffFile>,
}

pub struct DiffView {
    pub patch: Seq<char>,
    pub stats: DiffStats,
    pub old_files: Seq<DiffFileView>,
}

impl DiffView {
    /// The old content of the files by their old path.
    pub open spec fn old_sources(self) -> Map<Seq<char>, Seq<char>> {
        old_sources_of(self.old_files)
    }

    /// Whether the diff is that of the comparison: its patch is the lines
    /// of the comparison as rendered, its counts are those of the
    /// comparison, and its old files are those of the old sides of the
    /// comparison, each with the content that the store has of it or with
    /// none.
    pub open spec fn reads(self, comparison: TreeComparison) -> bool {
        &&& self.patch == patch_of(comparison_lines(comparison))
        &&& self.stats.spec_files_changed() == comparison_stats(comparison).files_changed
        &&& self.stats.spec_insertions() == comparison_stats(comparison).insertions
        &&& self.stats.spec_deletions() == comparison_stats(comparison).deletions
        &&& exists|blobs: Seq<OldBlob>|
            sides_of(blobs) == comparison_old_sides(comparison) && self.old_files
                == #[trigger] old_files_of(blobs)
    }

    /// What holds of every diff: the number of old lines is that of the
    /// old texts it carries, as far as the machine can count.
    pub open spec fn consistent(self) -> bool {
        self.stats.spec_total_old_num_lines() == counted(old_lines_of(self.old_files))
    }
}

impl View for Diff {
    type V = DiffView;

    closed spec fn view(&self) -> DiffView {
        DiffView { patch: self.patch@, stats: self.stats, old_files: files_view(self.old_files@) }
    }
}

fn render_line(out: &mut String, line: &PatchLine)
    ensures
        final(out)@ == old(out)@ + rendered_line(*line),
{
    let ghost before = out@;
    let origin = line.origin;
    proof {
        reveal_strlit("+");
        reveal_strlit("-");
        reveal_strlit(" ");
        reveal_strlit("@");
    }
    if origin == '+' {
        out.append("+");
        assert("+"@ =~= seq![origin]);
    } else if origin == '-' {
        out.append("-");
        assert("-"@ =~= seq![origin]);
    } else if origin == ' ' {
        out.append(" ");
        assert(" "@ =~= seq![origin]);
    } else if origin == '@' {
        out.append("@");
        assert("@"@ =~= seq![origin]);
    }
    match utf8_text(line.content.as_slice()) {
        Some(text) => out.append(text.as_str()),
        None => out.append("<invalid utf8>"),
    }
    assert(out@ =~= before + rendered_line(*line));
}

fn old_file(blob: &OldBlob) -> (r: Option<DiffFile>)
    ensures
        match old_file_of(*blob) {
            Some(f) => r is Some && r->0@ == f,
            None => r is None,
        },
{
    if blob.side.id.is_zero() {
        return None;
    }
    let bytes = match &blob.content {
        Some(b) => b,
        None => {
            return None;
        },
    };
    let path = match &blob.side.path {
        Some(p) => p.clone(),
        None => String::from_str("<unknown>"),
    };
    match utf8_text(bytes.as_slice()) {
        Some(content) => Some(DiffFile { path, content, is_binary: false }),
        None => Some(
            DiffFile { path, content: String::from_str("<binary or invalid utf8>"), is_binary: true },
        ),
    }
}

/// The path of an old side that can be handed back to the store: the
/// path that the store gives, unless it holds a NUL character.
pub open spec fn path_to_hand_back(side: OldSide) -> Option<Seq<char>> {
    match side.path {
        Some(p) => if p@.contains('\0') {
            None
        } else {
            Some(p@)
        },
        None => None,
    }
}

/// The paths of the old sides that can be handed back to the store, in
/// their order.
pub open spec fn paths_of_sides(sides: Seq<OldSide>) -> Seq<Seq<char>>
    decreases sides.len(),
{
    if sides.len() == 0 {
        Seq::empty()
    } else {
        let before = paths_of_sides(sides.drop_last());
        match path_to_hand_back(sides.last()) {
            Some(p) => before.push(p),
            None => before,
        }
    }
}

/// The paths that a comparison touches: those of its old sides, as far as
/// the store gives one. A path that holds a NUL character is dropped: it
/// cannot be handed back to the store.
pub fn changed_paths(sides: &Vec<OldSide>) -> (r: Vec<String>)
    ensures
        crate::status::strings_view(r@) == paths_of_sides(sides@),
        forall|i: int| 0 <= i < r@.len() ==> !(#[trigger] r@[i])@.contains('\0'),
{
    let mut out: Vec<String> = Vec::new();
    let mut i: usize = 0;
    assert(sides@.take(0) =~= Seq::<OldSide>::empty());
    assert(crate::status::strings_view(out@) =~= paths_of_sides(sides@.take(0)));
    while i < sides.len()
        invariant
            i <= sides@.len(),
            crate::status::strings_view(out@) == paths_of_sides(sides@.take(i as int)),
            forall|k: int| 0 <= k < out@.len() ==> !(#[trigger] out@[k])@.contains('\0'),
        decreases sides@.len() - i,
    {
        proof {
            assert(sides@.take(i as int + 1).drop_last() =~= sides@.take(i as int));
        }
        let ghost before = crate::status::strings_view(out@);
        match &sides[i].path {
            Some(p) => {
                if !crate::text::holds_nul(p.as_str()) {
                    out.push(p.clone());
                    assert(crate::status::strings_view(out@) =~= before.push(p@));
                }
            },
            None => {},
        }
        i += 1;
    }
    assert(sides@.take(i as int) =~= sides@);
    out
}

/// Whether the store is asked for the old content of a changed file: it
/// is not for a file that is new, whose old id is zero.
pub fn asks_for_content(side: &OldSide) -> (r: bool)
    ensures
        r == !side.id.spec_is_zero(),
{
    !side.id.is_zero()
}

/// The old content that is kept, given what the store answered where it
/// was asked: the bytes that it gave, and none where it was not asked or
/// failed.
pub fn kept_content(read: Option<Result<Vec<u8>, StoreFailure>>) -> (r: Option<Vec<u8>>)
    ensures
        match read {
            Some(Ok(bytes)) => r == Some(bytes),
            _ => r is None,
        },
{
    match read {
        Some(Ok(bytes)) => Some(bytes),
        _ => None,
    }
}

/// The old sides with their content: the store is asked for the content
/// of every old side that has one, and a content that it does not have is
/// left absent.
fn old_blobs(repo: &git2::Repository, sides: &Vec<OldSide>) -> (r: Vec<OldBlob>)
    ensures
        r@.len() == sides@.len(),
        forall|i: int|
            0 <= i < r@.len() ==> (#[trigger] r@[i]).side == sides@[i] && (
            sides@[i].id.spec_is_zero() ==> r@[i].content is None),
{
    let mut blobs: Vec<OldBlob> = Vec::new();
    let mut i: usize = 0;
    while i < sides.len()
        invariant
            i <= sides@.len(),
            blobs@.len() == i,
            forall|k: int|
                0 <= k < i ==> (#[trigger] blobs@[k]).side == sides@[k] && (
                sides@[k].id.spec_is_zero() ==> blobs@[k].content is None),
        decreases sides@.len() - i,
    {
        let id = sides[i].id;
        let path = match &sides[i].path {
            Some(p) => Some(p.clone()),
            None => None,
        };
        let side = OldSide { id, path };
        let read = if asks_for_content(&side) {
            Some(find_blob(repo, &id))
        } else {
            None
        };
        blobs.push(OldBlob { side, content: kept_content(read) });
        i += 1;
    }
    blobs
}

impl Diff {
    /// The diff that a comparison of two trees amounts to: its patch, its
    /// statistics and the old content of the files it touches. A failure
    /// to read the changes, to print the patch or to count fails the
    /// whole call: there is no partial diff.
    pub fn try_from_repo_and_diff(repo: &git2::Repository, comparison: &TreeComparison) -> (r:
        Result<Diff, Error>)
        ensures
            r matches Ok(d) ==> d@.consistent() && d@.reads(*comparison),
            r matches Err(e) ==> e.follows_code(),
    {
        let sides = match diff_old_sides(comparison) {
            Ok(s) => s,
            Err(e) => {
                return Err(
                    Error::from_ctx_and_error(
                        String::from_str("Error getting old file contents"),
                        e,
                    ),
                );
            },
        };
        let blobs = old_blobs(repo, &sides);
        let lines = match diff_patch_lines(comparison) {
            Ok(l) => l,
            Err(e) => {
                return Err(Error::from_ctx_and_error(String::from_str("Error creating patch"), e));
            },
        };
        let stats = match diff_stats(comparison) {
            Ok(s) => s,
            Err(e) => {
                return Err(
                    Error::from_ctx_and_error(String::from_str("Error getting diff stats"), e),
                );
            },
        };
        let diff = Diff::from_parts(&blobs, &lines, stats);
        assert(sides_of(blobs@) =~= comparison_old_sides(*comparison));
        assert(diff@.old_files == old_files_of(blobs@));
        assert(diff@.reads(*comparison));
        Ok(diff)
    }

    /// Assembles a diff from what the store reports: the old sides of the
    /// changed files with their content, the lines of the patch, and the
    /// statistics. The patch is every line as rendered, in order. The old
    /// files are those that have an old version to show. The number of old
    /// lines is that of all old texts together, as far as the machine can
    /// count.
    pub fn from_parts(blobs: &Vec<OldBlob>, lines: &Vec<PatchLine>, stats: RawDiffStats) -> (d:
        Diff)
        ensures
            d@.patch == patch_of(lines@),
            d@.old_files == old_files_of(blobs@),
            d@.stats.spec_files_changed() == stats.files_changed,
            d@.stats.spec_insertions() == stats.insertions,
            d@.stats.spec_deletions() == stats.deletions,
            d@.stats.spec_total_old_num_lines() == counted(old_lines_of(old_files_of(blobs@))),
            d@.consistent(),
    {
        let mut old_files: Vec<DiffFile> = Vec::new();
        let mut total: usize = 0;
        let mut i: usize = 0;
        assert(files_view(old_files@) =~= old_files_of(blobs@.take(0)));
        while i < blobs.len()
            invariant
                i <= blobs@.len(),
                files_view(old_files@) == old_files_of(blobs@.take(i as int)),
                total == counted(old_lines_of(old_files_of(blobs@.take(i as int)))),
            decreases blobs@.len() - i,
        {
            proof {
                assert(blobs@.take(i as int + 1).drop_last() =~= blobs@.take(i as int));
            }
            let ghost before = files_view(old_files@);
            match old_file(&blobs[i]) {
                Some(f) => {
                    if !f.is_binary {
                        total = total.saturating_add(count_lines(f.content.as_str()));
                    }
                    proof {
                        assert(before.push(f@).drop_last() =~= before);
                    }
                    old_files.push(f);
                    assert(files_view(old_files@) =~= before.push(f@));
                },
                None => {},
            }
            i += 1;
        }
        assert(blobs@.take(i as int) =~= blobs@);
        let mut patch = String::new();
        let mut j: usize = 0;
        assert(lines@.take(0) =~= Seq::<PatchLine>::empty());
        while j < lines.len()
            invariant
                j <= lines@.len(),
                patch@ == patch_of(lines@.take(j as int)),
            decreases lines@.len() - j,
        {
            proof {
                assert(lines@.take(j as int + 1).drop_last() =~= lines@.take(j as int));
            }
            render_line(&mut patch, &lines[j]);
            j += 1;
        }
        assert(lines@.take(j as int) =~= lines@);
        Diff {
            patch,
            stats: DiffStats::from_stats_and_total_old_num_lines(stats, total),
            old_files,
        }
    }

    /// The patch between old and new.
    pub fn patch(&self) -> (r: &str)
        ensures
            r@ == self@.patch,
    {
        self.patch.as_str()
    }

    /// The statistics of the diff.
    pub fn stats(&self) -> (r: DiffStats)
        ensures
            r == self@.stats,
    {
        self.stats
    }

    /// The old versions of the changed files, in the order of the changes.
    pub fn old_files(&self) -> (r: &Vec<DiffFile>)
        ensures
            files_view(r@) == self@.old_files,
    {
        &self.old_files
    }

    /// The old content of the file that had the given path, if the diff
    /// holds it.
    pub fn old_source(&self, path: &str) -> (r: Option<&str>)
        ensures
            match r {
                Some(text) => self@.old_sources().contains_key(path@) && self@.old_sources()[path@]
                    == text@,
                None => !self@.old_sources().contains_key(path@),
            },
    {
        let mut i: usize = self.old_files.len();
        let ghost files = files_view(self.old_files@);
        while i > 0
            invariant
                i <= self.old_files@.len(),
                files == files_view(self.old_files@),
                forall|k: int| i <= k < files.len() ==> files[k].path != path@,
            decreases i,
        {
            i -= 1;
            if crate::text::same_text(self.old_files[i].path.as_str(), path) {
                proof {
                    lemma_old_sources_last(files, i as int);
                }
                return Some(self.old_files[i].content.as_str());
            }
        }
        proof {
            lemma_old_sources_absent(files, path@);
        }
        None
    }
}

proof fn lemma_old_sources_absent(files: Seq<DiffFileView>, path: Seq<char>)
    requires
        forall|k: int| 0 <= k < files.len() ==> files[k].path != path,
    ensures
        !old_sources_of(files).contains_key(path),
    decreases files.len(),
{
    if files.len() > 0 {
        lemma_old_sources_absent(files.drop_last(), path);
    }
}

proof fn lemma_old_sources_last(files: Seq<DiffFileView>, i: int)
    requires
        0 <= i < files.len(),
        forall|k: int| i < k < files.len() ==> files[k].path != files[i].path,
    ensures
        old_sources_of(files).contains_key(files[i].path),
        old_sources_of(files)[files[i].path] == files[i].content,
    decreases files.len(),
{
    if i < files.len() - 1 {
        lemma_old_sources_last(files.drop_last(), i);
    }
}

} // verus!
