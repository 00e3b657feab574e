//! Paths inside a user's workspace: every file operation resolves to a path
//! under the workspace directory, never above it.
use vstd::prelude::*;
use vstd::string::{StrSliceExecFns, StringSliceAdditionalSpecFns};
use vstd::utf8::encode_utf8;

use crate::executor::visible_entry;
use crate::models::FileType;
use crate::text::{chars_of, concat3, contains_str, has_substring, is_prefix, starts_with, string_from_chars};

verus! {

/// Number of leading `/` characters of `s`, from position `i` on.
pub open spec fn leading_slashes_from(s: Seq<char>, i: int) -> int
    decreases s.len() - i,
{
    if i < 0 || i >= s.len() || s[i] != '/' {
        i
    } else {
        leading_slashes_from(s, i + 1)
    }
}

/// `s` without its leading slashes.
pub open spec fn relative_part(s: Seq<char>) -> Seq<char> {
    s.skip(leading_slashes_from(s, 0))
}

/// The path names no parent directory.
pub open spec fn no_parent_step(path: &str) -> bool {
    !has_substring(path.spec_bytes(), "..".spec_bytes())
}

/// Why a workspace path was refused.
#[derive(Clone, Copy, Debug, PartialEq, Eq, Structural)]
pub enum PathError {
    /// The path climbs out with `..`.
    Traversal,
    /// The file name is empty or holds `..` or `/`.
    InvalidFilename,
}

/// Resolves a path given relative to the workspace root (leading slashes
/// ignored). A path holding `..` is refused.
pub fn resolve_in_workspace(workspace: &str, path: &str) -> (r: Result<String, PathError>)
    ensures
        no_parent_step(path) ==> (r matches Ok(p) && p@ == workspace@ + "/"@ + relative_part(path@)),
        !no_parent_step(path) ==> r == Err::<String, PathError>(PathError::Traversal),
{
    if contains_str(path, "..") {
        return Err(PathError::Traversal);
    }
    let n = path.unicode_len();
    let mut i: usize = 0;
    while i < n && path.get_char(i) == '/'
        invariant
            n == path@.len(),
            i <= n,
            leading_slashes_from(path@, 0) == leading_slashes_from(path@, i as int),
        decreases n - i,
    {
        i = i + 1;
    }
    let rest = path.substring_char(i, n);
    assert(rest@ =~= relative_part(path@));
    Ok(concat3(workspace, "/", rest))
}

/// A file name for an upload: not empty, no `..`, no `/`.
pub open spec fn valid_filename(name: &str) -> bool {
    &&& name@.len() > 0
    &&& !has_substring(name.spec_bytes(), "..".spec_bytes())
    &&& !has_substring(name.spec_bytes(), "/".spec_bytes())
}

pub fn check_filename(name: &str) -> (r: Result<(), PathError>)
    ensures
        r is Ok <==> valid_filename(name),
        r is Err ==> r == Err::<(), PathError>(PathError::InvalidFilename),
{
    if name.is_empty() || contains_str(name, "..") || contains_str(name, "/") {
        Err(PathError::InvalidFilename)
    } else {
        Ok(())
    }
}

/// Every resolved path extends the workspace directory followed by `/`,
/// and what follows comes from a path without `..`.
pub proof fn lemma_workspace_containment(workspace: &str, path: &str, resolved: Seq<char>)
    requires
        no_parent_step(path),
        resolved == workspace@ + "/"@ + relative_part(path@),
    ensures
        is_prefix(workspace@ + "/"@, resolved),
{
    assert(resolved.take((workspace@ + "/"@).len() as int) =~= workspace@ + "/"@);
}

/// A directory entry as read from the host.
#[derive(Clone, Debug)]
pub struct DirEntry {
    pub name: String,
    pub size_bytes: u64,
    pub is_dir: bool,
    /// Modification time, milliseconds since the Unix epoch.
    pub modified_at_ms: u64,
}

/// A listed workspace entry.
#[derive(Clone, Debug)]
pub struct FileInfo {
    pub name: String,
    /// Path of the entry relative to the workspace root.
    pub path: String,
    pub file_type: FileType,
    pub size_bytes: u64,
    pub modified_at_ms: u64,
    pub permissions: Option<String>,
}

/// A workspace directory listing.
#[derive(Clone, Debug)]
pub struct FileListResponse {
    pub path: String,
    pub files: Vec<FileInfo>,
    pub total_size_bytes: u64,
}

/// Strict byte order of names.
pub open spec fn name_lt(a: Seq<u8>, b: Seq<u8>) -> bool
    decreases a.len(),
{
    if a.len() == 0 {
        b.len() > 0
    } else if b.len() == 0 {
        false
    } else if a[0] != b[0] {
        a[0] < b[0]
    } else {
        name_lt(a.drop_first(), b.drop_first())
    }
}

proof fn lemma_name_lt_trans(a: Seq<u8>, b: Seq<u8>, c: Seq<u8>)
    requires
        name_lt(a, b) || a == b,
        name_lt(b, c) || b == c,
    ensures
        name_lt(a, c) || a == c,
    decreases a.len(),
{
    if a.len() > 0 && b.len() > 0 && c.len() > 0 && a[0] == b[0] && b[0] == c[0] {
        if a != b {
            assert(name_lt(a.drop_first(), b.drop_first()));
        } else {
            assert(a.drop_first() == b.drop_first());
        }
        if b != c {
            assert(name_lt(b.drop_first(), c.drop_first()));
        } else {
            assert(b.drop_first() == c.drop_first());
        }
        lemma_name_lt_trans(a.drop_first(), b.drop_first(), c.drop_first());
        if a.drop_first() == c.drop_first() {
            assert forall|i: int| 0 <= i < a.len() implies a[i] == c[i] by {
                if i > 0 {
                    assert(a[i] == a.drop_first()[i - 1]);
                    assert(c[i] == c.drop_first()[i - 1]);
                }
            }
            assert(a =~= c);
        }
    }
}

proof fn lemma_name_lt_total(a: Seq<u8>, b: Seq<u8>)
    ensures
        name_lt(a, b) || name_lt(b, a) || a == b,
    decreases a.len(),
{
    if a.len() > 0 && b.len() > 0 && a[0] == b[0] {
        lemma_name_lt_total(a.drop_first(), b.drop_first());
        if a.drop_first() == b.drop_first() {
            assert forall|i: int| 0 <= i < a.len() implies a[i] == b[i] by {
                if i > 0 {
                    assert(a[i] == a.drop_first()[i - 1]);
                    assert(b[i] == b.drop_first()[i - 1]);
                }
            }
            assert(a =~= b);
        }
    } else if a.len() == 0 && b.len() == 0 {
        assert(a =~= b);
    }
}

fn bytes_lt(a: &[u8], b: &[u8]) -> (r: bool)
    ensures
        r == name_lt(a@, b@),
{
    let mut i: usize = 0;
    assert(a@.skip(0) =~= a@);
    assert(b@.skip(0) =~= b@);
    while i < a.len() && i < b.len() && a[i] == b[i]
        invariant
            i <= a@.len(),
            i <= b@.len(),
            name_lt(a@, b@) == name_lt(a@.skip(i as int), b@.skip(i as int)),
        decreases a@.len() - i,
    {
        assert(a@.skip(i as int).drop_first() =~= a@.skip(i + 1));
        assert(b@.skip(i as int).drop_first() =~= b@.skip(i + 1));
        i = i + 1;
    }
    if i == a.len() {
        i < b.len()
    } else if i == b.len() {
        false
    } else {
        a[i] < b[i]
    }
}

/// The entries listed: not hidden and not scratch files.
pub open spec fn listed(e: DirEntry) -> bool {
    visible_entry(e.name@)
}

/// Names in non-decreasing byte order.
pub open spec fn by_name(v: Seq<FileInfo>) -> bool {
    forall|i: int, j: int|
        0 <= i < j < v.len() ==> name_lt(
            encode_utf8((#[trigger] v[i]).name@),
            encode_utf8((#[trigger] v[j]).name@),
        ) || v[i].name@ == v[j].name@
}

/// Sum of the sizes of the listed entries, capped at the largest value.
pub open spec fn listed_size(entries: Seq<DirEntry>) -> nat
    decreases entries.len(),
{
    if entries.len() == 0 {
        0
    } else {
        let rest = listed_size(entries.drop_last());
        let add: nat = if listed(entries.last()) {
            entries.last().size_bytes as nat
        } else {
            0
        };
        if rest + add > u64::MAX {
            u64::MAX as nat
        } else {
            rest + add
        }
    }
}

/// Number of listed entries.
pub open spec fn listed_count(entries: Seq<DirEntry>) -> nat
    decreases entries.len(),
{
    if entries.len() == 0 {
        0
    } else {
        listed_count(entries.drop_last()) + if listed(entries.last()) {
            1nat
        } else {
            0nat
        }
    }
}

/// `s` without its trailing slashes.
pub open spec fn without_trailing_slashes(s: Seq<char>) -> Seq<char>
    decreases s.len(),
{
    if s.len() > 0 && s.last() == '/' {
        without_trailing_slashes(s.drop_last())
    } else {
        s
    }
}

fn trim_trailing_slashes(s: &str) -> (r: String)
    ensures
        r@ == without_trailing_slashes(s@),
{
    let mut n = s.unicode_len();
    assert(s@.take(n as int) =~= s@);
    while n > 0 && s.get_char(n - 1) == '/'
        invariant
            n <= s@.len(),
            without_trailing_slashes(s@) == without_trailing_slashes(s@.take(n as int)),
        decreases n,
    {
        assert(s@.take(n as int).drop_last() =~= s@.take(n - 1));
        n = n - 1;
    }
    let t = s.substring_char(0, n);
    assert(t@ =~= s@.take(n as int));
    t.to_string()
}

proof fn lemma_encode_injective(a: Seq<char>, b: Seq<char>)
    requires
        encode_utf8(a) == encode_utf8(b),
    ensures
        a == b,
{
    vstd::utf8::encode_utf8_decode_utf8(a);
    vstd::utf8::encode_utf8_decode_utf8(b);
}

proof fn lemma_insert_sorted(v: Seq<FileInfo>, k: int, e: FileInfo)
    requires
        by_name(v),
        0 <= k <= v.len(),
        forall|j: int| 0 <= j < k ==> !name_lt(encode_utf8(e.name@), encode_utf8(#[trigger] v[j].name@)),
        k < v.len() ==> name_lt(encode_utf8(e.name@), encode_utf8(v[k].name@)),
    ensures
        by_name(v.insert(k, e)),
{
    let t = v.insert(k, e);
    assert forall|i: int, j: int| 0 <= i < j < t.len() implies name_lt(
        encode_utf8((#[trigger] t[i]).name@),
        encode_utf8((#[trigger] t[j]).name@),
    ) || t[i].name@ == t[j].name@ by {
        let en = encode_utf8(e.name@);
        if i < k && j < k {
            assert(t[i] == v[i] && t[j] == v[j]);
        } else if i < k && j == k {
            assert(t[i] == v[i]);
            lemma_name_lt_total(en, encode_utf8(v[i].name@));
            if encode_utf8(v[i].name@) == en {
                lemma_encode_injective(v[i].name@, e.name@);
            }
        } else if i < k && j > k {
            assert(t[i] == v[i] && t[j] == v[j - 1]);
        } else if i == k {
            assert(t[j] == v[j - 1]);
            if k < v.len() {
                lemma_name_lt_trans(en, encode_utf8(v[k].name@), encode_utf8(v[j - 1].name@));
                if en == encode_utf8(v[j - 1].name@) {
                    lemma_encode_injective(e.name@, v[j - 1].name@);
                }
            }
        } else {
            assert(t[i] == v[i - 1] && t[j] == v[j - 1]);
        }
    }
}

/// The listing of a workspace directory requested as `path`, from its
/// entries: scratch files and hidden entries left out, the others sorted by
/// name, with their sizes summed.
/// Inserts `info` where the name order puts it; returns the position.
fn insert_by_name(files: &mut Vec<FileInfo>, info: FileInfo) -> (k: usize)
    requires
        by_name(old(files)@),
    ensures
        by_name(final(files)@),
        k <= old(files)@.len(),
        final(files)@ == old(files)@.insert(k as int, info),
{
    let mut k: usize = 0;
    while k < files.len() && !bytes_lt(info.name.as_str().as_bytes(), files[k].name.as_str().as_bytes())
        invariant
            files@ == old(files)@,
            k <= files@.len(),
            forall|j: int| 0 <= j < k ==> !name_lt(encode_utf8(info.name@), encode_utf8(#[trigger] files@[j].name@)),
        decreases files@.len() - k,
    {
        k = k + 1;
    }
    let ghost before = files@;
    proof {
        lemma_insert_sorted(before, k as int, info);
    }
    files.insert(k, info);
    assert(files@ =~= before.insert(k as int, info));
    k
}

pub fn list_files(path: &str, entries: &Vec<DirEntry>) -> (r: FileListResponse)
    ensures
        r.path@ == path@,
        by_name(r.files@),
        r.total_size_bytes == listed_size(entries@),
        forall|i: int| 0 <= i < r.files@.len() ==> exists|j: int|
            0 <= j < entries@.len() && listed(entries@[j]) && (#[trigger] r.files@[i]).name@
                == entries@[j].name@ && r.files@[i].size_bytes == entries@[j].size_bytes
                && r.files@[i].path@ == without_trailing_slashes(path@) + "/"@ + entries@[j].name@,
        r.files@.len() == listed_count(entries@),
        forall|j: int|
            0 <= j < entries@.len() && listed(#[trigger] entries@[j]) ==> exists|a: int|
                0 <= a < r.files@.len() && r.files@[a].name@ == entries@[j].name@
                    && r.files@[a].size_bytes == entries@[j].size_bytes,
{
    let base = trim_trailing_slashes(path);
    let mut files: Vec<FileInfo> = Vec::new();
    let mut total: u64 = 0;
    let mut i: usize = 0;
    // src[a]: the entry file a comes from; pos[j]: where entry j is listed
    let ghost mut src: Seq<int> = Seq::empty();
    let ghost mut pos: Seq<int> = Seq::empty();
    while i < entries.len()
        invariant
            i <= entries@.len(),
            base@ == without_trailing_slashes(path@),
            by_name(files@),
            total == listed_size(entries@.take(i as int)),
            files@.len() == listed_count(entries@.take(i as int)),
            src.len() == files@.len(),
            pos.len() == i,
            forall|a: int| 0 <= a < files@.len() ==> 0 <= #[trigger] src[a] < i && listed(entries@[src[a]])
                && files@[a].name@ == entries@[src[a]].name@
                && files@[a].size_bytes == entries@[src[a]].size_bytes
                && files@[a].path@ == base@ + "/"@ + entries@[src[a]].name@,
            forall|j: int| 0 <= j < i && listed(entries@[j]) ==> 0 <= #[trigger] pos[j] < files@.len()
                && files@[pos[j]].name@ == entries@[j].name@
                && files@[pos[j]].size_bytes == entries@[j].size_bytes,
        decreases entries@.len() - i,
    {
        proof {
            assert(entries@.take(i + 1).drop_last() =~= entries@.take(i as int));
        }
        let e = &entries[i];
        if !starts_with(e.name.as_str(), "exec_") && !starts_with(e.name.as_str(), ".") {
            if total > u64::MAX - e.size_bytes {
                total = u64::MAX;
            } else {
                total = total + e.size_bytes;
            }
            let info = FileInfo {
                name: e.name.clone(),
                path: concat3(base.as_str(), "/", e.name.as_str()),
                file_type: if e.is_dir {
                    FileType::Directory
                } else {
                    FileType::File
                },
                size_bytes: e.size_bytes,
                modified_at_ms: e.modified_at_ms,
                permissions: None,
            };
            let ghost before = files@;
            let k = insert_by_name(&mut files, info);
            proof {
                assert(entries@[i as int] == *e);
                let old_src = src;
                let old_pos = pos;
                src = old_src.insert(k as int, i as int);
                pos = Seq::new((i + 1) as nat, |j: int| if j == i {
                    k as int
                } else if old_pos[j] >= k {
                    old_pos[j] + 1
                } else {
                    old_pos[j]
                });
                assert forall|a: int| 0 <= a < files@.len() implies 0 <= #[trigger] src[a] < i + 1
                    && listed(entries@[src[a]]) && files@[a].name@ == entries@[src[a]].name@
                    && files@[a].size_bytes == entries@[src[a]].size_bytes
                    && files@[a].path@ == base@ + "/"@ + entries@[src[a]].name@ by {
                    if a < k {
                        assert(files@[a] == before[a] && src[a] == old_src[a]);
                    } else if a > k {
                        assert(files@[a] == before[a - 1] && src[a] == old_src[a - 1]);
                    }
                }
                assert forall|j: int| 0 <= j < i + 1 && listed(entries@[j]) implies 0
                    <= #[trigger] pos[j] < files@.len() && files@[pos[j]].name@ == entries@[j].name@
                    && files@[pos[j]].size_bytes == entries@[j].size_bytes by {
                    if j < i {
                        if old_pos[j] >= k {
                            assert(files@[old_pos[j] + 1] == before[old_pos[j]]);
                        } else {
                            assert(files@[old_pos[j]] == before[old_pos[j]]);
                        }
                    }
                }
            }
        } else {
            proof {
                pos = pos.push(-1);
                assert(!listed(entries@[i as int]));
            }
        }
        i = i + 1;
    }
    assert(entries@.take(entries@.len() as int) =~= entries@);
    proof {
        assert forall|a: int| 0 <= a < files@.len() implies exists|j: int|
            0 <= j < entries@.len() && listed(entries@[j]) && (#[trigger] files@[a]).name@
                == entries@[j].name@ && files@[a].size_bytes == entries@[j].size_bytes
                && files@[a].path@ == without_trailing_slashes(path@) + "/"@ + entries@[j].name@ by {
            let j = src[a];
        }
        assert forall|j: int| 0 <= j < entries@.len() && listed(#[trigger] entries@[j]) implies exists|a: int|
            0 <= a < files@.len() && files@[a].name@ == entries@[j].name@
                && files@[a].size_bytes == entries@[j].size_bytes by {
            let a = pos[j];
        }
    }
    FileListResponse { path: path.to_string(), files, total_size_bytes: total }
}

/// A character a written path may hold: an ASCII letter or digit, `_`, `-`,
/// `.` or `/`.
pub open spec fn path_char(c: char) -> bool {
    ('a' <= c && c <= 'z') || ('A' <= c && c <= 'Z') || ('0' <= c && c <= '9') || c == '_' || c
        == '-' || c == '.' || c == '/'
}

/// `s` with every `..` removed, scanning left to right.
pub open spec fn without_parent_steps(s: Seq<char>) -> Seq<char>
    decreases s.len(),
{
    if s.len() >= 2 && s[0] == '.' && s[1] == '.' {
        without_parent_steps(s.skip(2))
    } else if s.len() == 0 {
        s
    } else {
        seq![s[0]] + without_parent_steps(s.skip(1))
    }
}

/// `s` with every `//` replaced by `/`, scanning left to right.
pub open spec fn single_slashes(s: Seq<char>) -> Seq<char>
    decreases s.len(),
{
    if s.len() >= 2 && s[0] == '/' && s[1] == '/' {
        seq!['/'] + single_slashes(s.skip(2))
    } else if s.len() == 0 {
        s
    } else {
        seq![s[0]] + single_slashes(s.skip(1))
    }
}

/// The cleaned form of a path to write: leading slashes dropped, `..`
/// removed, then `//` made `/`.
pub open spec fn sanitized(path: Seq<char>) -> Seq<char> {
    single_slashes(without_parent_steps(relative_part(path)))
}

proof fn lemma_parent_steps_keep(s: Seq<char>, c: char)
    requires
        c != '.',
    ensures
        without_parent_steps(s).contains(c) <==> s.contains(c),
    decreases s.len(),
{
    if s.len() == 0 {
    } else if s.len() >= 2 && s[0] == '.' && s[1] == '.' {
        lemma_parent_steps_keep(s.skip(2), c);
        if s.contains(c) {
            let k = choose|k: int| 0 <= k < s.len() && s[k] == c;
            assert(s.skip(2)[k - 2] == c);
        }
        if s.skip(2).contains(c) {
            let k = choose|k: int| 0 <= k < s.skip(2).len() && s.skip(2)[k] == c;
            assert(s[k + 2] == c);
        }
    } else {
        lemma_parent_steps_keep(s.skip(1), c);
        let t = seq![s[0]] + without_parent_steps(s.skip(1));
        if s.contains(c) {
            let k = choose|k: int| 0 <= k < s.len() && s[k] == c;
            if k == 0 {
                assert(t[0] == c);
            } else {
                assert(s.skip(1)[k - 1] == c);
                let m = choose|m: int| 0 <= m < without_parent_steps(s.skip(1)).len()
                    && without_parent_steps(s.skip(1))[m] == c;
                assert(t[m + 1] == c);
            }
        }
        if t.contains(c) {
            let m = choose|m: int| 0 <= m < t.len() && t[m] == c;
            if m == 0 {
                assert(s[0] == c);
            } else {
                assert(without_parent_steps(s.skip(1))[m - 1] == c);
                let k = choose|k: int| 0 <= k < s.skip(1).len() && s.skip(1)[k] == c;
                assert(s[k + 1] == c);
            }
        }
    }
}

proof fn lemma_single_slashes_keep(s: Seq<char>, c: char)
    requires
        c != '/',
    ensures
        single_slashes(s).contains(c) <==> s.contains(c),
    decreases s.len(),
{
    if s.len() == 0 {
    } else {
        let n: int = if s.len() >= 2 && s[0] == '/' && s[1] == '/' { 2 } else { 1 };
        lemma_single_slashes_keep(s.skip(n), c);
        let head = if n == 2 { seq!['/'] } else { seq![s[0]] };
        let t = head + single_slashes(s.skip(n));
        assert(single_slashes(s) == t);
        if s.contains(c) {
            let k = choose|k: int| 0 <= k < s.len() && s[k] == c;
            if k < n {
                assert(n == 1 && k == 0);
                assert(t[0] == c);
            } else {
                assert(s.skip(n)[k - n] == c);
                let m = choose|m: int| 0 <= m < single_slashes(s.skip(n)).len()
                    && single_slashes(s.skip(n))[m] == c;
                assert(t[m + 1] == c);
            }
        }
        if t.contains(c) {
            let m = choose|m: int| 0 <= m < t.len() && t[m] == c;
            if m == 0 {
                assert(n == 1);
                assert(s[0] == c);
            } else {
                assert(single_slashes(s.skip(n))[m - 1] == c);
                let k = choose|k: int| 0 <= k < s.skip(n).len() && s.skip(n)[k] == c;
                assert(s[k + n] == c);
            }
        }
    }
}

/// The cleaned path holds a refused character iff the given path does:
/// cleaning removes only `.` and `/`, which are allowed.
pub proof fn lemma_sanitized_chars(path: Seq<char>)
    ensures
        (forall|i: int| 0 <= i < sanitized(path).len() ==> path_char(#[trigger] sanitized(path)[i]))
            <==> (forall|i: int| 0 <= i < relative_part(path).len() ==> path_char(
            #[trigger] relative_part(path)[i],
        )),
{
    let r = relative_part(path);
    let m = without_parent_steps(r);
    let z = sanitized(path);
    if forall|i: int| 0 <= i < r.len() ==> path_char(#[trigger] r[i]) {
        assert forall|i: int| 0 <= i < z.len() implies path_char(#[trigger] z[i]) by {
            let c = z[i];
            if !path_char(c) {
                assert(z.contains(c));
                lemma_single_slashes_keep(m, c);
                lemma_parent_steps_keep(r, c);
                let k = choose|k: int| 0 <= k < r.len() && r[k] == c;
            }
        }
    }
    if forall|i: int| 0 <= i < z.len() ==> path_char(#[trigger] z[i]) {
        assert forall|i: int| 0 <= i < r.len() implies path_char(#[trigger] r[i]) by {
            let c = r[i];
            if !path_char(c) {
                assert(r.contains(c));
                lemma_parent_steps_keep(r, c);
                lemma_single_slashes_keep(m, c);
                let k = choose|k: int| 0 <= k < z.len() && z[k] == c;
            }
        }
    }
}

fn drop_parent_steps(s: &Vec<char>) -> (r: Vec<char>)
    ensures
        r@ == without_parent_steps(s@),
{
    let mut out: Vec<char> = Vec::new();
    let mut i: usize = 0;
    assert(s@.skip(0) =~= s@);
    while i < s.len()
        invariant
            i <= s@.len(),
            out@ + without_parent_steps(s@.skip(i as int)) == without_parent_steps(s@),
        decreases s@.len() - i,
    {
        let ghost t = s@.skip(i as int);
        if i + 1 < s.len() && s[i] == '.' && s[i + 1] == '.' {
            assert(t.skip(2) =~= s@.skip(i + 2));
            i = i + 2;
        } else {
            assert(t.skip(1) =~= s@.skip(i + 1));
            let ghost before = out@;
            out.push(s[i]);
            assert(out@ + without_parent_steps(s@.skip(i + 1)) =~= before + without_parent_steps(t));
            i = i + 1;
        }
    }
    assert(s@.skip(i as int) =~= Seq::<char>::empty());
    assert(out@ + without_parent_steps(s@.skip(i as int)) =~= out@);
    out
}

fn merge_slashes(s: &Vec<char>) -> (r: Vec<char>)
    ensures
        r@ == single_slashes(s@),
{
    let mut out: Vec<char> = Vec::new();
    let mut i: usize = 0;
    assert(s@.skip(0) =~= s@);
    while i < s.len()
        invariant
            i <= s@.len(),
            out@ + single_slashes(s@.skip(i as int)) == single_slashes(s@),
        decreases s@.len() - i,
    {
        let ghost t = s@.skip(i as int);
        let ghost before = out@;
        if i + 1 < s.len() && s[i] == '/' && s[i + 1] == '/' {
            assert(t.skip(2) =~= s@.skip(i + 2));
            out.push('/');
            assert(out@ + single_slashes(s@.skip(i + 2)) =~= before + single_slashes(t));
            i = i + 2;
        } else {
            assert(t.skip(1) =~= s@.skip(i + 1));
            out.push(s[i]);
            assert(out@ + single_slashes(s@.skip(i + 1)) =~= before + single_slashes(t));
            i = i + 1;
        }
    }
    assert(s@.skip(i as int) =~= Seq::<char>::empty());
    assert(out@ + single_slashes(s@.skip(i as int)) =~= out@);
    out
}

/// Where a file written as `path` lands in the workspace: the path is
/// cleaned (leading slashes dropped, `..` removed, `//` made `/`); a path with
/// a character other than ASCII letters, digits, `_`, `-`, `.` and `/` is
/// refused.
pub fn resolve_write_path(workspace: &str, path: &str) -> (r: Result<String, PathError>)
    ensures
        (forall|i: int| 0 <= i < relative_part(path@).len() ==> path_char(
            #[trigger] relative_part(path@)[i],
        )) ==> (r matches Ok(p) && p@ == workspace@ + "/"@ + sanitized(path@)),
        !(forall|i: int| 0 <= i < relative_part(path@).len() ==> path_char(
            #[trigger] relative_part(path@)[i],
        )) ==> r == Err::<String, PathError>(PathError::InvalidFilename),
        r is Ok <==> (forall|i: int| 0 <= i < sanitized(path@).len() ==> path_char(
            #[trigger] sanitized(path@)[i],
        )),
{
    proof {
        lemma_sanitized_chars(path@);
    }
    let chars = chars_of(path);
    let mut k: usize = 0;
    while k < chars.len() && chars[k] == '/'
        invariant
            chars@ == path@,
            k <= chars@.len(),
            leading_slashes_from(path@, 0) == leading_slashes_from(path@, k as int),
        decreases chars@.len() - k,
    {
        k = k + 1;
    }
    let ghost rel = relative_part(path@);
    let mut rest: Vec<char> = Vec::new();
    let mut i: usize = k;
    while i < chars.len()
        invariant
            chars@ == path@,
            k <= i <= chars@.len(),
            rel == relative_part(path@),
            rel == chars@.skip(k as int),
            rest@ == chars@.subrange(k as int, i as int),
            forall|j: int| 0 <= j < rest@.len() ==> path_char(#[trigger] rest@[j]),
        decreases chars@.len() - i,
    {
        let c = chars[i];
        if !(('a' <= c && c <= 'z') || ('A' <= c && c <= 'Z') || ('0' <= c && c <= '9') || c == '_'
            || c == '-' || c == '.' || c == '/') {
            assert(rel[i - k] == c);
            assert(!path_char(rel[i - k]));
            proof {
                lemma_sanitized_chars(path@);
            }
            return Err(PathError::InvalidFilename);
        }
        rest.push(c);
        assert(rest@ =~= chars@.subrange(k as int, i + 1));
        i = i + 1;
    }
    assert(rest@ =~= rel);
    let cleaned = merge_slashes(&drop_parent_steps(&rest));
    let text = string_from_chars(&cleaned);
    Ok(concat3(workspace, "/", text.as_str()))
}

} // verus!
