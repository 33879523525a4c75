//! Status codes of files, and how they are counted.
use vstd::prelude::*;
use crate::git::order::ascending;
use crate::git::repository::{entries_view, sort_by_path, RepoPath};

verus! {

broadcast use vstd::string::group_string_axioms;

/// The status of one file.
#[derive(Clone, Copy, Debug, PartialEq, Eq, Hash, Structural)]
pub enum FileStatus {
    Untracked,
    Ignored,
    Unmerged(UnmergedStatus),
    TrackedFile(TrackedStatus),
}

/// What the two sides of a merge did to a file that is in conflict.
#[derive(Clone, Copy, Debug, PartialEq, Eq, Hash, Structural)]
pub struct UnmergedStatus {
    pub first_head: UnmergedStatusCode,
    pub second_head: UnmergedStatusCode,
}

/// What one side of a merge did to a file.
#[derive(Clone, Copy, Debug, PartialEq, Eq, Hash, Structural)]
pub enum UnmergedStatusCode {
    Added,
    Deleted,
    Updated,
}

/// The status of a tracked file in the index and in the working tree.
#[derive(Clone, Copy, Debug, PartialEq, Eq, Hash, Structural)]
pub struct TrackedStatus {
    pub index_status: StatusCode,
    pub worktree_status: StatusCode,
}

/// What happened to a tracked file on one side.
#[derive(Clone, Copy, Debug, PartialEq, Eq, Hash, Structural)]
pub enum StatusCode {
    Modified,
    TypeChanged,
    Added,
    Deleted,
    Renamed,
    Copied,
    Unmodified,
}

/// A byte that is no status code.
#[derive(Clone, Copy, Debug, PartialEq, Eq, Hash, Structural)]
pub enum StatusError {
    /// The byte is no code of a tracked file.
    InvalidStatusCode(u8),
    /// The byte is no code of a side of a merge.
    InvalidUnmergedStatusCode(u8),
}

/// How many files are in each state.
#[derive(Clone, Copy, Debug, PartialEq, Eq, Structural)]
pub struct GitSummary {
    pub added: usize,
    pub modified: usize,
    pub conflict: usize,
    pub untracked: usize,
}

impl StatusCode {
    /// The code that a byte of the short format stands for: `M`, `T`, `A`,
    /// `D`, `R`, `C`, or a space for a file that is unchanged.
    pub open spec fn spec_from_byte(byte: u8) -> Result<StatusCode, StatusError> {
        if byte == 77 {
            Ok(StatusCode::Modified)
        } else if byte == 84 {
            Ok(StatusCode::TypeChanged)
        } else if byte == 65 {
            Ok(StatusCode::Added)
        } else if byte == 68 {
            Ok(StatusCode::Deleted)
        } else if byte == 82 {
            Ok(StatusCode::Renamed)
        } else if byte == 67 {
            Ok(StatusCode::Copied)
        } else if byte == 32 {
            Ok(StatusCode::Unmodified)
        } else {
            Err(StatusError::InvalidStatusCode(byte))
        }
    }

    /// Reads one status code of a tracked file.
    pub fn from_byte(byte: u8) -> (r: Result<StatusCode, StatusError>)
        ensures
            r == Self::spec_from_byte(byte),
    {
        match byte {
            77u8 => Ok(StatusCode::Modified),
            84u8 => Ok(StatusCode::TypeChanged),
            65u8 => Ok(StatusCode::Added),
            68u8 => Ok(StatusCode::Deleted),
            82u8 => Ok(StatusCode::Renamed),
            67u8 => Ok(StatusCode::Copied),
            32u8 => Ok(StatusCode::Unmodified),
            _ => Err(StatusError::InvalidStatusCode(byte)),
        }
    }
}

impl UnmergedStatusCode {
    /// The code that a byte of the short format stands for: `A`, `D` or
    /// `U`.
    pub open spec fn spec_from_byte(byte: u8) -> Result<UnmergedStatusCode, StatusError> {
        if byte == 65 {
            Ok(UnmergedStatusCode::Added)
        } else if byte == 68 {
            Ok(UnmergedStatusCode::Deleted)
        } else if byte == 85 {
            Ok(UnmergedStatusCode::Updated)
        } else {
            Err(StatusError::InvalidUnmergedStatusCode(byte))
        }
    }

    /// Reads the status code of one side of a merge.
    pub fn from_byte(byte: u8) -> (r: Result<UnmergedStatusCode, StatusError>)
        ensures
            r == Self::spec_from_byte(byte),
    {
        match byte {
            65u8 => Ok(UnmergedStatusCode::Added),
            68u8 => Ok(UnmergedStatusCode::Deleted),
            85u8 => Ok(UnmergedStatusCode::Updated),
            _ => Err(StatusError::InvalidUnmergedStatusCode(byte)),
        }
    }
}

impl FileStatus {
    /// The status that a pair of bytes of the short format stands for.
    ///
    /// `??` is an untracked file and `!!` an ignored one. `AA` and `DD` are
    /// conflicts in which both sides count as having added the file. A pair
    /// with a `U` is a conflict: the `U` side has updated the file and the
    /// other byte says what the other side did. Every other pair is the
    /// status of a tracked file in the index and in the working tree.
    pub open spec fn spec_from_bytes(x: u8, y: u8) -> Result<FileStatus, StatusError> {
        if x == 63 && y == 63 {
            Ok(FileStatus::Untracked)
        } else if x == 33 && y == 33 {
            Ok(FileStatus::Ignored)
        } else if (x == 65 && y == 65) || (x == 68 && y == 68) {
            Ok(
                FileStatus::Unmerged(
                    UnmergedStatus {
                        first_head: UnmergedStatusCode::Added,
                        second_head: UnmergedStatusCode::Added,
                    },
                ),
            )
        } else if y == 85 {
            match UnmergedStatusCode::spec_from_byte(x) {
                Ok(first_head) => Ok(
                    FileStatus::Unmerged(
                        UnmergedStatus { first_head, second_head: UnmergedStatusCode::Updated },
                    ),
                ),
                Err(e) => Err(e),
            }
        } else if x == 85 {
            match UnmergedStatusCode::spec_from_byte(y) {
                Ok(second_head) => Ok(
                    FileStatus::Unmerged(
                        UnmergedStatus { first_head: UnmergedStatusCode::Updated, second_head },
                    ),
                ),
                Err(e) => Err(e),
            }
        } else {
            match StatusCode::spec_from_byte(x) {
                Ok(index_status) => match StatusCode::spec_from_byte(y) {
                    Ok(worktree_status) => Ok(
                        FileStatus::TrackedFile(TrackedStatus { index_status, worktree_status }),
                    ),
                    Err(e) => Err(e),
                },
                Err(e) => Err(e),
            }
        }
    }

    /// Reads the status of a file from its two bytes in the short format.
    /// A space stands for "unchanged".
    pub fn from_bytes(bytes: [u8; 2]) -> (r: Result<FileStatus, StatusError>)
        ensures
            r == Self::spec_from_bytes(bytes[0], bytes[1]),
    {
        let x = bytes[0];
        let y = bytes[1];
        if x == 63u8 && y == 63u8 {
            Ok(FileStatus::Untracked)
        } else if x == 33u8 && y == 33u8 {
            Ok(FileStatus::Ignored)
        } else if (x == 65u8 && y == 65u8) || (x == 68u8 && y == 68u8) {
            Ok(
                FileStatus::Unmerged(
                    UnmergedStatus {
                        first_head: UnmergedStatusCode::Added,
                        second_head: UnmergedStatusCode::Added,
                    },
                ),
            )
        } else if y == 85u8 {
            match UnmergedStatusCode::from_byte(x) {
                Ok(first_head) => Ok(
                    FileStatus::Unmerged(
                        UnmergedStatus { first_head, second_head: UnmergedStatusCode::Updated },
                    ),
                ),
                Err(e) => Err(e),
            }
        } else if x == 85u8 {
            match UnmergedStatusCode::from_byte(y) {
                Ok(second_head) => Ok(
                    FileStatus::Unmerged(
                        UnmergedStatus { first_head: UnmergedStatusCode::Updated, second_head },
                    ),
                ),
                Err(e) => Err(e),
            }
        } else {
            match StatusCode::from_byte(x) {
                Ok(index_status) => match StatusCode::from_byte(y) {
                    Ok(worktree_status) => Ok(
                        FileStatus::TrackedFile(TrackedStatus { index_status, worktree_status }),
                    ),
                    Err(e) => Err(e),
                },
                Err(e) => Err(e),
            }
        }
    }

    /// Whether a tracked file has the code `code` in the index or in the
    /// working tree.
    pub open spec fn has_code(self, code: StatusCode) -> bool {
        match self {
            FileStatus::TrackedFile(t) => t.index_status == code || t.worktree_status == code,
            _ => false,
        }
    }

    /// Whether the file is staged: `Some(false)` where the index holds no
    /// change, `Some(true)` where only the index holds one, and `None` where
    /// both the index and the working tree hold changes.
    pub fn is_staged(self) -> (r: Option<bool>)
        ensures
            r == match self {
                FileStatus::TrackedFile(t) => if t.index_status == StatusCode::Unmodified {
                    Some(false)
                } else if t.worktree_status == StatusCode::Unmodified {
                    Some(true)
                } else {
                    None
                },
                _ => Some(false),
            },
    {
        match self {
            FileStatus::Untracked | FileStatus::Ignored | FileStatus::Unmerged(_) => Some(false),
            FileStatus::TrackedFile(t) => match (t.index_status, t.worktree_status) {
                (StatusCode::Unmodified, _) => Some(false),
                (_, StatusCode::Unmodified) => Some(true),
                _ => None,
            },
        }
    }

    /// Whether the file is in conflict.
    pub fn is_conflicted(self) -> (r: bool)
        ensures
            r == (self is Unmerged),
    {
        match self {
            FileStatus::Unmerged(_) => true,
            _ => false,
        }
    }

    /// Whether the file is ignored.
    pub fn is_ignored(self) -> (r: bool)
        ensures
            r == (self is Ignored),
    {
        match self {
            FileStatus::Ignored => true,
            _ => false,
        }
    }

    /// Whether the file is tracked and modified on either side.
    pub fn is_modified(self) -> (r: bool)
        ensures
            r == self.has_code(StatusCode::Modified),
    {
        match self {
            FileStatus::TrackedFile(t) => match (t.index_status, t.worktree_status) {
                (StatusCode::Modified, _) | (_, StatusCode::Modified) => true,
                _ => false,
            },
            _ => false,
        }
    }

    /// Whether the file is tracked and added on either side.
    pub fn is_created(self) -> (r: bool)
        ensures
            r == self.has_code(StatusCode::Added),
    {
        match self {
            FileStatus::TrackedFile(t) => match (t.index_status, t.worktree_status) {
                (StatusCode::Added, _) | (_, StatusCode::Added) => true,
                _ => false,
            },
            _ => false,
        }
    }

    /// Whether the file is tracked and deleted on either side.
    pub fn is_deleted(self) -> (r: bool)
        ensures
            r == self.has_code(StatusCode::Deleted),
    {
        match self {
            FileStatus::TrackedFile(t) => match (t.index_status, t.worktree_status) {
                (StatusCode::Deleted, _) | (_, StatusCode::Deleted) => true,
                _ => false,
            },
            _ => false,
        }
    }

    /// Whether the file is untracked.
    pub fn is_untracked(self) -> (r: bool)
        ensures
            r == (self is Untracked),
    {
        match self {
            FileStatus::Untracked => true,
            _ => false,
        }
    }

    /// The count that this one file adds to a summary: one conflict, or one
    /// untracked file, or one modified file, or one added file, in that
    /// order of precedence, or nothing.
    pub open spec fn spec_summary(self) -> GitSummary {
        if self is Unmerged {
            GitSummary { added: 0, modified: 0, conflict: 1, untracked: 0 }
        } else if self is Untracked {
            GitSummary { added: 0, modified: 0, conflict: 0, untracked: 1 }
        } else if self.has_code(StatusCode::Modified) {
            GitSummary { added: 0, modified: 1, conflict: 0, untracked: 0 }
        } else if self.has_code(StatusCode::Added) {
            GitSummary { added: 1, modified: 0, conflict: 0, untracked: 0 }
        } else {
            GitSummary::spec_zero()
        }
    }

    /// The summary of this one file.
    pub fn summary(self) -> (r: GitSummary)
        ensures
            r == self.spec_summary(),
    {
        if self.is_conflicted() {
            GitSummary { added: 0, modified: 0, conflict: 1, untracked: 0 }
        } else if self.is_untracked() {
            GitSummary { added: 0, modified: 0, conflict: 0, untracked: 1 }
        } else if self.is_modified() {
            GitSummary { added: 0, modified: 1, conflict: 0, untracked: 0 }
        } else if self.is_created() {
            GitSummary { added: 1, modified: 0, conflict: 0, untracked: 0 }
        } else {
            GitSummary::zero()
        }
    }
}

impl GitSummary {
    /// The summary of no files.
    pub open spec fn spec_zero() -> GitSummary {
        GitSummary { added: 0, modified: 0, conflict: 0, untracked: 0 }
    }

    /// Whether the sum of two summaries fits the counters.
    pub open spec fn can_add(self, rhs: GitSummary) -> bool {
        &&& self.added + rhs.added <= usize::MAX
        &&& self.modified + rhs.modified <= usize::MAX
        &&& self.conflict + rhs.conflict <= usize::MAX
        &&& self.untracked + rhs.untracked <= usize::MAX
    }

    /// The sum of two summaries, counter by counter.
    pub open spec fn plus(self, rhs: GitSummary) -> GitSummary {
        GitSummary {
            added: (self.added + rhs.added) as usize,
            modified: (self.modified + rhs.modified) as usize,
            conflict: (self.conflict + rhs.conflict) as usize,
            untracked: (self.untracked + rhs.untracked) as usize,
        }
    }

    /// Whether `rhs` counts no more than `self` in any state.
    pub open spec fn can_sub(self, rhs: GitSummary) -> bool {
        &&& rhs.added <= self.added
        &&& rhs.modified <= self.modified
        &&& rhs.conflict <= self.conflict
        &&& rhs.untracked <= self.untracked
    }

    /// The difference of two summaries, counter by counter.
    pub open spec fn minus(self, rhs: GitSummary) -> GitSummary {
        GitSummary {
            added: (self.added - rhs.added) as usize,
            modified: (self.modified - rhs.modified) as usize,
            conflict: (self.conflict - rhs.conflict) as usize,
            untracked: (self.untracked - rhs.untracked) as usize,
        }
    }

    /// Whether any file is modified.
    pub fn is_modified(self) -> (r: bool)
        ensures
            r == (self.modified > 0),
    {
        self.modified > 0
    }

    /// The summary of no files.
    pub fn zero() -> (r: GitSummary)
        ensures
            r == GitSummary::spec_zero(),
    {
        GitSummary { added: 0, modified: 0, conflict: 0, untracked: 0 }
    }

    /// Adds the counts of `rhs` to this summary.
    pub fn add_summary(&mut self, rhs: &GitSummary)
        requires
            old(self).can_add(*rhs),
        ensures
            *final(self) == old(self).plus(*rhs),
    {
        self.added = self.added + rhs.added;
        self.modified = self.modified + rhs.modified;
        self.conflict = self.conflict + rhs.conflict;
        self.untracked = self.untracked + rhs.untracked;
    }
}

impl From<UnmergedStatus> for FileStatus {
    /// The status of a file that is in conflict.
    fn from(value: UnmergedStatus) -> (r: FileStatus)
        ensures
            r == FileStatus::Unmerged(value),
    {
        FileStatus::Unmerged(value)
    }
}

impl vstd::std_specs::convert::FromSpecImpl<UnmergedStatus> for FileStatus {
    open spec fn obeys_from_spec() -> bool {
        true
    }

    open spec fn from_spec(value: UnmergedStatus) -> FileStatus {
        FileStatus::Unmerged(value)
    }
}

impl From<TrackedStatus> for FileStatus {
    /// The status of a file that git keeps track of.
    fn from(value: TrackedStatus) -> (r: FileStatus)
        ensures
            r == FileStatus::TrackedFile(value),
    {
        FileStatus::TrackedFile(value)
    }
}

impl vstd::std_specs::convert::FromSpecImpl<TrackedStatus> for FileStatus {
    open spec fn obeys_from_spec() -> bool {
        true
    }

    open spec fn from_spec(value: TrackedStatus) -> FileStatus {
        FileStatus::TrackedFile(value)
    }
}

impl From<FileStatus> for GitSummary {
    /// The summary of one file.
    fn from(status: FileStatus) -> (r: GitSummary)
        ensures
            r == status.spec_summary(),
    {
        status.summary()
    }
}

impl vstd::std_specs::convert::FromSpecImpl<FileStatus> for GitSummary {
    open spec fn obeys_from_spec() -> bool {
        true
    }

    open spec fn from_spec(status: FileStatus) -> GitSummary {
        status.spec_summary()
    }
}

impl Default for GitSummary {
    fn default() -> (r: GitSummary)
        ensures
            r == GitSummary::spec_zero(),
    {
        GitSummary { added: 0, modified: 0, conflict: 0, untracked: 0 }
    }
}

impl vstd::std_specs::ops::AddSpecImpl for GitSummary {
    open spec fn obeys_add_spec() -> bool {
        true
    }

    open spec fn add_req(self, rhs: GitSummary) -> bool {
        self.can_add(rhs)
    }

    open spec fn add_spec(self, rhs: GitSummary) -> GitSummary {
        self.plus(rhs)
    }
}

impl core::ops::Add for GitSummary {
    type Output = GitSummary;

    /// The sum of two summaries. The counters must not overflow.
    fn add(self, rhs: GitSummary) -> (r: GitSummary)
        ensures
            r == self.plus(rhs),
    {
        GitSummary {
            added: self.added + rhs.added,
            modified: self.modified + rhs.modified,
            conflict: self.conflict + rhs.conflict,
            untracked: self.untracked + rhs.untracked,
        }
    }
}

impl vstd::std_specs::ops::SubSpecImpl for GitSummary {
    open spec fn obeys_sub_spec() -> bool {
        true
    }

    open spec fn sub_req(self, rhs: GitSummary) -> bool {
        self.can_sub(rhs)
    }

    open spec fn sub_spec(self, rhs: GitSummary) -> GitSummary {
        self.minus(rhs)
    }
}

impl core::ops::Sub for GitSummary {
    type Output = GitSummary;

    /// The difference of two summaries. No counter may go below zero.
    fn sub(self, rhs: GitSummary) -> (r: GitSummary)
        ensures
            r == self.minus(rhs),
    {
        GitSummary {
            added: self.added - rhs.added,
            modified: self.modified - rhs.modified,
            conflict: self.conflict - rhs.conflict,
            untracked: self.untracked - rhs.untracked,
        }
    }
}

impl core::ops::AddAssign for GitSummary {
    /// Adds the counts of `rhs` to this summary. The counters must not
    /// overflow.
    fn add_assign(&mut self, rhs: GitSummary)
        requires
            old(self).can_add(rhs),
        ensures
            *final(self) == old(self).plus(rhs),
    {
        self.added = self.added + rhs.added;
        self.modified = self.modified + rhs.modified;
        self.conflict = self.conflict + rhs.conflict;
        self.untracked = self.untracked + rhs.untracked;
    }
}

/// The status of every file that `git status` reported.
#[derive(Clone, Debug)]
pub struct GitStatus {
    /// One entry for each file, in the order of paths.
    pub entries: Vec<(RepoPath, FileStatus)>,
}

/// The index of the first NUL of `text` at or after `from`, or the length
/// of `text` where there is none.
pub open spec fn entry_end(text: Seq<char>, from: int) -> int
    decreases text.len() - from,
{
    if from < 0 || from >= text.len() {
        text.len() as int
    } else if text[from] == '\0' {
        from
    } else {
        entry_end(text, from + 1)
    }
}

/// The byte of a character that is one byte long.
pub open spec fn ascii_byte(c: char) -> Option<u8> {
    if (c as u32) < 128 {
        Some(c as u8)
    } else {
        None
    }
}

/// What one entry of the output says: two status bytes, a space and the
/// path. An entry of another form, or with status bytes that mean nothing,
/// says nothing.
pub open spec fn parse_entry(entry: Seq<char>) -> Option<(Seq<char>, FileStatus)> {
    if entry.len() >= 3 && entry[2] == ' ' {
        match (ascii_byte(entry[0]), ascii_byte(entry[1])) {
            (Some(x), Some(y)) => match FileStatus::spec_from_bytes(x, y) {
                Ok(status) => Some((entry.subrange(3, entry.len() as int), status)),
                Err(_) => None,
            },
            _ => None,
        }
    } else {
        None
    }
}

/// What the entries of `text` from index `from` on say, in their order.
/// Entries end in NUL.
pub open spec fn parse_entries(text: Seq<char>, from: int) -> Seq<(Seq<char>, FileStatus)>
    decreases text.len() + 1 - from,
    via parse_entries_terminates
{
    if from < 0 || from > text.len() {
        Seq::empty()
    } else {
        let end = entry_end(text, from);
        let rest = parse_entries(text, end + 1);
        match parse_entry(text.subrange(from, end)) {
            Some(e) => seq![e] + rest,
            None => rest,
        }
    }
}

#[via_fn]
proof fn parse_entries_terminates(text: Seq<char>, from: int) {
    if 0 <= from <= text.len() {
        lemma_entry_end_bounds(text, from);
    }
}

/// An entry ends at or after its start and within the text.
pub proof fn lemma_entry_end_bounds(text: Seq<char>, from: int)
    requires
        0 <= from <= text.len(),
    ensures
        from <= entry_end(text, from) <= text.len(),
    decreases text.len() - from,
{
    if from < text.len() && text[from] != '\0' {
        lemma_entry_end_bounds(text, from + 1);
    }
}

/// The characters of a string, one by one.
fn characters(text: &str) -> (r: Vec<char>)
    ensures
        r@ == text@,
{
    let mut out: Vec<char> = Vec::new();
    for c in iter: text.chars()
        invariant
            iter.seq() == text@,
            out@ == iter.seq().take(iter.index()),
    {
        out.push(c);
    }
    out
}

/// The string of the characters `chars[from..to]`.
fn string_of(chars: &Vec<char>, from: usize, to: usize) -> (r: String)
    requires
        from <= to <= chars.len(),
    ensures
        r@ == chars@.subrange(from as int, to as int),
{
    let mut out = String::new();
    let mut i: usize = from;
    while i < to
        invariant
            from <= i <= to <= chars.len(),
            out@ == chars@.subrange(from as int, i as int),
        decreases to - i,
    {
        out.push(chars[i]);
        i = i + 1;
    }
    out
}

/// The byte of a character that is one byte long.
fn byte_of(c: char) -> (r: Option<u8>)
    ensures
        r == ascii_byte(c),
{
    let code = c as u32;
    if code < 128 {
        Some(code as u8)
    } else {
        None
    }
}

/// What the entry `chars[from..to]` says.
fn read_entry(chars: &Vec<char>, from: usize, to: usize) -> (r: Option<(RepoPath, FileStatus)>)
    requires
        from <= to <= chars.len(),
    ensures
        match r {
            Some(e) => parse_entry(chars@.subrange(from as int, to as int)) == Some((e.0.0@, e.1)),
            None => parse_entry(chars@.subrange(from as int, to as int)) is None,
        },
{
    if to - from < 3 || chars[from + 2] != ' ' {
        return None;
    }
    let status = match (byte_of(chars[from]), byte_of(chars[from + 1])) {
        (Some(x), Some(y)) => match FileStatus::from_bytes([x, y]) {
            Ok(status) => status,
            Err(_) => {
                return None;
            },
        },
        _ => {
            return None;
        },
    };
    let path = string_of(chars, from + 3, to);
    Some((RepoPath(path), status))
}

/// Reads the output of `git status --porcelain=v1 -z`: one entry for each
/// file that the output names with a status, in the order of the output.
pub fn parse_status(stdout: &str) -> (r: Vec<(RepoPath, FileStatus)>)
    ensures
        entries_view(r@) == parse_entries(stdout@, 0),
{
    let chars = characters(stdout);
    let mut entries: Vec<(RepoPath, FileStatus)> = Vec::new();
    let mut from: usize = 0;
    loop
        invariant_except_break
            parse_entries(stdout@, 0) == entries_view(entries@) + parse_entries(
                stdout@,
                from as int,
            ),
        invariant
            chars@ == stdout@,
            from <= chars.len(),
        ensures
            entries_view(entries@) == parse_entries(stdout@, 0),
        decreases chars.len() - from,
    {
        let mut end: usize = from;
        while end < chars.len() && chars[end] != '\0'
            invariant
                from <= end <= chars.len(),
                entry_end(chars@, from as int) == entry_end(chars@, end as int),
            decreases chars.len() - end,
        {
            end = end + 1;
        }
        let ghost before = entries_view(entries@);
        let ghost rest = parse_entries(stdout@, end + 1);
        match read_entry(&chars, from, end) {
            Some(e) => {
                entries.push(e);
                assert(entries_view(entries@) =~= before + seq![(e.0.0@, e.1)]);
            },
            None => {},
        }
        assert(parse_entries(stdout@, 0) =~= entries_view(entries@) + rest);
        if end == chars.len() {
            assert(rest =~= Seq::empty());
            break ;
        }
        from = end + 1;
    }
    entries
}

/// The options with which `git status` is run: no optional locks, the
/// short format in its first version, every untracked file, no detection of
/// renames, and NUL between entries.
pub open spec fn status_options() -> Seq<Seq<char>> {
    seq![
        "--no-optional-locks"@,
        "status"@,
        "--porcelain=v1"@,
        "--untracked-files=all"@,
        "--no-renames"@,
        "-z"@,
    ]
}

/// The argument that limits the report to the files under `prefix`: the
/// prefix itself, or `.` for the root of the repository.
pub open spec fn prefix_argument(prefix: Seq<char>) -> Seq<char> {
    if prefix.len() == 0 {
        "."@
    } else {
        prefix
    }
}

/// The characters of each of a list of strings.
pub open spec fn arguments_view(arguments: Seq<String>) -> Seq<Seq<char>> {
    Seq::new(arguments.len(), |i: int| arguments[i]@)
}

impl GitStatus {
    /// The arguments with which `git` is run to report the status of the
    /// files under the given prefixes: the options, then one argument for
    /// each prefix.
    pub fn arguments(path_prefixes: &Vec<RepoPath>) -> (r: Vec<String>)
        ensures
            arguments_view(r@) == status_options() + Seq::new(
                path_prefixes@.len(),
                |i: int| prefix_argument(path_prefixes@[i].0@),
            ),
    {
        let mut out: Vec<String> = Vec::new();
        out.push("--no-optional-locks".to_owned());
        out.push("status".to_owned());
        out.push("--porcelain=v1".to_owned());
        out.push("--untracked-files=all".to_owned());
        out.push("--no-renames".to_owned());
        out.push("-z".to_owned());
        let mut i: usize = 0;
        while i < path_prefixes.len()
            invariant
                i <= path_prefixes.len(),
                arguments_view(out@) == status_options() + Seq::new(
                    i as nat,
                    |k: int| prefix_argument(path_prefixes@[k].0@),
                ),
            decreases path_prefixes.len() - i,
        {
            let ghost before = arguments_view(out@);
            let prefix = path_prefixes[i].0.as_str();
            let argument = if prefix.is_empty() {
                ".".to_owned()
            } else {
                prefix.to_owned()
            };
            out.push(argument);
            assert(arguments_view(out@) =~= before.push(prefix_argument(path_prefixes@[i as int].0@)));
            i = i + 1;
        }
        out
    }

    /// The status that the output of `git status --porcelain=v1 -z` reports:
    /// the entries of [`parse_status`], none added and none lost, with their
    /// paths in ascending order.
    pub fn new(stdout: &str) -> (r: GitStatus)
        ensures
            entries_view(r.entries@).to_multiset() == parse_entries(stdout@, 0).to_multiset(),
            r.entries@.len() == parse_entries(stdout@, 0).len(),
            ascending(entries_view(r.entries@)),
    {
        let mut entries = parse_status(stdout);
        sort_by_path(&mut entries);
        GitStatus { entries }
    }
}

impl Default for GitStatus {
    /// The status of a repository without files.
    fn default() -> (r: GitStatus)
        ensures
            r.entries@.len() == 0,
    {
        GitStatus { entries: Vec::new() }
    }
}

} // verus!
