//! The filesystem tool: operation dispatch and the sandbox rule that rejects
//! any path whose lexical resolution escapes the sandbox root.
//!
//! The storage itself sits behind the `FileSystemBackend` trait; the
//! built-in remote backends are stubs that refuse every operation.

use vstd::prelude::*;

use crate::text::{chars_string, find_chars, find_seq, str_chars, str_eq, sub_chars, u64_to_dec};
use crate::tools::{json_escaped, Tool, ToolError, ToolInput, ToolOutput, ToolTimer};

verus! {

/// The pieces of `s` between slashes.
pub open spec fn split_slash(s: Seq<char>) -> Seq<Seq<char>>
    decreases s.len(),
{
    match find_seq(s, seq!['/']) {
        None => seq![s],
        Some(i) => if 0 <= i < s.len() {
            seq![s.take(i)] + split_slash(s.skip(i + 1))
        } else {
            seq![s]
        },
    }
}

/// One path segment's effect on depth: staying (empty or `.`), rising (`..`)
/// or descending (a name).
pub open spec fn seg_step(depth: int, seg: Seq<char>) -> int {
    if seg.len() == 0 || seg == seq!['.'] {
        depth
    } else if seg == seq!['.', '.'] {
        depth - 1
    } else {
        depth + 1
    }
}

/// Walking the segments never rises above the starting depth.
pub open spec fn depth_stays_in(segs: Seq<Seq<char>>, depth: int) -> bool
    decreases segs.len(),
{
    if segs.len() == 0 {
        true
    } else {
        let next = seg_step(depth, segs[0]);
        next >= 0 && depth_stays_in(segs.drop_first(), next)
    }
}

/// A relative path stays inside the directory it is resolved against: no
/// prefix of its segments climbs above the start.
pub open spec fn path_stays_within(p: Seq<char>) -> bool {
    depth_stays_in(split_slash(p), 0)
}

fn split_slash_chars(v: &Vec<char>) -> (r: Vec<Vec<char>>)
    ensures
        r@.len() == split_slash(v@).len(),
        forall|i: int| 0 <= i < r@.len() ==> r@[i]@ == split_slash(v@)[i],
    decreases v@.len(),
{
    let slash: Vec<char> = vec!['/'];
    proof {
        assert(slash@ =~= seq!['/']);
    }
    match find_chars(v, &slash, 0) {
        None => {
            let n = v.len();
            let whole = sub_chars(v, 0, n);
            proof {
                assert(whole@ =~= v@);
            }
            let mut r: Vec<Vec<char>> = Vec::new();
            r.push(whole);
            r
        },
        Some(i) => {
            let n = v.len();
            proof {
                crate::text::lemma_find_from_some(v@, slash@, 0, i as int);
            }
            let head = sub_chars(v, 0, i);
            let rest = sub_chars(v, i + 1, n);
            proof {
                assert(rest@ =~= v@.skip(i + 1));
                assert(head@ =~= v@.take(i as int));
            }
            let tail = split_slash_chars(&rest);
            let mut r: Vec<Vec<char>> = Vec::new();
            r.push(head);
            let mut k: usize = 0;
            while k < tail.len()
                invariant
                    k <= tail@.len(),
                    r@.len() == 1 + k,
                    r@[0]@ == v@.take(i as int),
                    forall|m: int| 0 <= m < k ==> r@[m + 1]@ == tail@[m]@,
                decreases tail@.len() - k,
            {
                let n2 = tail[k].len();
                r.push(sub_chars(&tail[k], 0, n2));
                proof {
                    assert(tail@[k as int]@.subrange(0, tail@[k as int]@.len() as int) =~= tail@[
                        k as int
                    ]@);
                }
                k = k + 1;
            }
            proof {
                assert(split_slash(v@) =~= seq![v@.take(i as int)] + split_slash(v@.skip(i + 1)));
            }
            r
        },
    }
}

fn segments_stay_in(segs: &Vec<Vec<char>>) -> (r: bool)
    ensures
        r == depth_stays_in(segs@.map(|_i: int, s: Vec<char>| s@), 0),
{
    let ghost view_segs = segs@.map(|_i: int, s: Vec<char>| s@);
    proof {
        assert(view_segs.skip(0) =~= view_segs);
    }
    let mut depth: u64 = 0;
    let mut k: usize = 0;
    let mut ok = true;
    while k < segs.len()
        invariant
            k <= segs@.len(),
            depth <= k,
            view_segs == segs@.map(|_i: int, s: Vec<char>| s@),
            view_segs.len() == segs@.len(),
            ok ==> depth_stays_in(view_segs, 0) == depth_stays_in(
                view_segs.skip(k as int),
                depth as int,
            ),
            !ok ==> !depth_stays_in(view_segs, 0),
        decreases segs@.len() - k,
    {
        proof {
            assert(view_segs.skip(k as int)[0] == view_segs[k as int]);
            assert(view_segs.skip(k as int).drop_first() =~= view_segs.skip(k + 1));
            assert(view_segs[k as int] == segs@[k as int]@);
        }
        let ghost rest = view_segs.skip(k as int);
        let seg = &segs[k];
        let is_dot = seg.len() == 1 && seg[0] == '.';
        let is_dotdot = seg.len() == 2 && seg[0] == '.' && seg[1] == '.';
        proof {
            if is_dot {
                assert(segs@[k as int]@ =~= seq!['.']);
            }
            if is_dotdot {
                assert(segs@[k as int]@ =~= seq!['.', '.']);
            }
            if segs@[k as int]@ == seq!['.'] {
                assert(segs@[k as int]@.len() == 1 && segs@[k as int]@[0] == '.');
            }
            if segs@[k as int]@ == seq!['.', '.'] {
                assert(segs@[k as int]@.len() == 2 && segs@[k as int]@[0] == '.' && segs@[
                    k as int
                ]@[1] == '.');
            }
        }
        if ok {
            if seg.len() == 0 || is_dot {
                proof {
                    assert(seg_step(depth as int, rest[0]) == depth as int);
                    assert(depth_stays_in(rest, depth as int) == depth_stays_in(
                        view_segs.skip(k + 1),
                        depth as int,
                    ));
                }
            } else if is_dotdot {
                if depth == 0 {
                    proof {
                        assert(seg_step(0, rest[0]) == -1);
                        assert(!depth_stays_in(rest, 0));
                    }
                    ok = false;
                } else {
                    proof {
                        assert(seg_step(depth as int, rest[0]) == depth - 1);
                        assert(depth_stays_in(rest, depth as int) == depth_stays_in(
                            view_segs.skip(k + 1),
                            depth - 1,
                        ));
                    }
                    depth = depth - 1;
                }
            } else {
                proof {
                    assert(seg_step(depth as int, rest[0]) == depth + 1);
                    assert(depth_stays_in(rest, depth as int) == depth_stays_in(
                        view_segs.skip(k + 1),
                        depth + 1,
                    ));
                }
                depth = depth + 1;
            }
        }
        k = k + 1;
    }
    proof {
        assert(view_segs.skip(view_segs.len() as int).len() == 0);
    }
    ok
}

/// Whether a relative path's lexical resolution stays inside the directory
/// it is resolved against.
pub fn relative_path_stays_within(path: &str) -> (r: bool)
    ensures
        r == path_stays_within(path@),
{
    let chars = str_chars(path);
    let segs = split_slash_chars(&chars);
    proof {
        assert(segs@.map(|_i: int, s: Vec<char>| s@) =~= split_slash(chars@));
    }
    segments_stay_in(&segs)
}

/// What resolving `path` in a sandbox rooted at `base` must give: an
/// absolute path is accepted exactly when it starts at the root *at a
/// component boundary* — the root itself, or the root followed by a slash —
/// and its remainder stays inside; a sibling whose name merely extends the
/// root's (`/ab` under root `/a`) is rejected. A relative path is accepted
/// exactly when its own resolution stays inside, and is then joined under
/// the root.
pub open spec fn spec_resolved(base: Seq<char>, path: Seq<char>, r: Result<
    String,
    ToolError,
>) -> bool {
    if path.len() > 0 && path[0] == '/' {
        if base.is_prefix_of(path) && (path.len() == base.len() || path[base.len() as int] == '/')
            && path_stays_within(path.skip(base.len() as int)) {
            r matches Ok(p) && p@ == path
        } else {
            r matches Err(ToolError::PermissionDenied(m)) && m@
                == "Path outside allowed directory"@
        }
    } else {
        if path_stays_within(path) {
            r matches Ok(p) && p@ == base + seq!['/'] + path
        } else {
            r matches Err(ToolError::PermissionDenied(m)) && m@
                == "Path outside allowed directory"@
        }
    }
}

/// Local filesystem sandbox policy: an optional root that every path must
/// resolve under, and an optional read-only mode.
#[derive(Debug, Clone, PartialEq)]
pub struct LocalBackend {
    /// The sandbox root, when sandboxing is on.
    pub base_dir: Option<String>,
    /// Whether mutating operations are refused.
    pub read_only: bool,
}

impl Default for LocalBackend {
    /// A local policy without sandboxing.
    fn default() -> (r: LocalBackend)
        ensures
            r.base_dir is None,
            r.read_only == false,
    {
        LocalBackend { base_dir: None, read_only: false }
    }
}

impl LocalBackend {
    /// A local policy without sandboxing.
    pub fn new() -> (r: LocalBackend)
        ensures
            r.base_dir is None,
            r.read_only == false,
    {
        LocalBackend { base_dir: None, read_only: false }
    }

    /// A sandboxed local policy. The root is taken as given; a caller that
    /// wants symlinks resolved canonicalizes it first.
    pub fn with_sandbox(base_dir: String, read_only: bool) -> (r: LocalBackend)
        ensures
            r.base_dir matches Some(b) && b@ == base_dir@,
            r.read_only == read_only,
    {
        LocalBackend { base_dir: Some(base_dir), read_only }
    }

    /// Resolves `path` under the sandbox: without a root the path passes
    /// through; with one, any resolution that would escape the root is
    /// rejected with a permission error and nothing outside is ever named.
    /// The rule is lexical — a collaborator that wants symlinks below the
    /// root resolved canonicalizes before it asks.
    pub fn resolve_path(&self, path: &str) -> (r: Result<String, ToolError>)
        ensures
            match self.base_dir {
                None => r matches Ok(p) && p@ == path@,
                Some(base) => spec_resolved(base@, path@, r),
            },
    {
        let base = match &self.base_dir {
            None => {
                return Ok(String::from_str(path));
            },
            Some(b) => b,
        };
        let chars = str_chars(path);
        if chars.len() > 0 && chars[0] == '/' {
            let base_chars = str_chars(base.as_str());
            let within = if base_chars.len() <= chars.len() {
                let prefix = sub_chars(&chars, 0, base_chars.len());
                let mut eq = true;
                let mut k: usize = 0;
                while k < base_chars.len()
                    invariant
                        k <= base_chars@.len() <= chars@.len(),
                        prefix@ == chars@.take(base_chars@.len() as int),
                        eq == (prefix@.take(k as int) =~= base_chars@.take(k as int)),
                    decreases base_chars@.len() - k,
                {
                    if prefix[k] != base_chars[k] {
                        proof {
                            assert(prefix@.take(k + 1)[k as int] != base_chars@.take(k + 1)[
                                k as int
                            ]);
                        }
                        eq = false;
                        k = base_chars.len();
                    } else {
                        k = k + 1;
                        proof {
                            assert(prefix@.take(k as int) =~= prefix@.take(k - 1).push(
                                prefix@[k - 1],
                            ));
                            assert(base_chars@.take(k as int) =~= base_chars@.take(k - 1).push(
                                base_chars@[k - 1],
                            ));
                        }
                    }
                }
                proof {
                    if eq && k == base_chars@.len() {
                        assert(prefix@.take(k as int) =~= prefix@);
                        assert(base_chars@.take(k as int) =~= base_chars@);
                    }
                }
                if eq {
                    let n = chars.len();
                    let on_boundary = n == base_chars.len() || chars[base_chars.len()] == '/';
                    let remainder = chars_string(&sub_chars(&chars, base_chars.len(), n));
                    proof {
                        assert(base_chars@.is_prefix_of(chars@));
                    }
                    on_boundary && relative_path_stays_within(remainder.as_str())
                } else {
                    proof {
                        if base_chars@.is_prefix_of(chars@) {
                            assert(prefix@ =~= base_chars@);
                        }
                    }
                    false
                }
            } else {
                proof {
                    if base_chars@.is_prefix_of(chars@) {
                        assert(base_chars@.len() <= chars@.len());
                    }
                }
                false
            };
            if within {
                Ok(String::from_str(path))
            } else {
                Err(ToolError::PermissionDenied(String::from_str("Path outside allowed directory")))
            }
        } else {
            if relative_path_stays_within(path) {
                let mut joined = base.clone();
                joined.append("/");
                joined.append(path);
                proof {
                    assert(("/")@ =~= seq!['/']) by {
                        reveal_strlit("/");
                    }
                }
                Ok(joined)
            } else {
                Err(ToolError::PermissionDenied(String::from_str("Path outside allowed directory")))
            }
        }
    }

    /// Whether mutating operations are refused.
    pub fn is_read_only(&self) -> (r: bool)
        ensures
            r == self.read_only,
    {
        self.read_only
    }

    /// The policy's backend label.
    pub fn backend_type(&self) -> (r: String)
        ensures
            r@ == "local"@,
    {
        String::from_str("local")
    }
}

/// A directory entry a backend reports.
#[derive(Debug, Clone, PartialEq)]
pub struct FileEntry {
    pub name: String,
    pub path: String,
    pub is_directory: bool,
    pub size: Option<u64>,
    /// Modification time in milliseconds since the Unix epoch, if known.
    pub modified_ms: Option<i64>,
}

/// Metadata a backend reports for one path.
#[derive(Debug, Clone, PartialEq)]
pub struct FileMetadata {
    pub size: u64,
    pub is_directory: bool,
    pub created_ms: Option<i64>,
    pub modified_ms: Option<i64>,
    pub accessed_ms: Option<i64>,
}

/// Storage behind the filesystem tool. The library's stubs refuse every
/// operation; a real local or remote backend is a collaborator outside the
/// library, which enforces the `LocalBackend` sandbox policy before it
/// touches storage.
pub trait FileSystemBackend {
    /// Reads a file as text.
    fn read(&self, path: &str) -> Result<String, ToolError>;

    /// Writes text to a file.
    fn write(&self, path: &str, content: &str) -> Result<(), ToolError>;

    /// Lists a directory.
    fn list(&self, path: &str) -> Result<Vec<FileEntry>, ToolError>;

    /// Deletes a file or directory.
    fn delete(&self, path: &str) -> Result<(), ToolError>;

    /// Whether the path exists.
    fn path_exists(&self, path: &str) -> Result<bool, ToolError>;

    /// Metadata for one path.
    fn metadata(&self, path: &str) -> Result<FileMetadata, ToolError>;

    /// The backend's label.
    fn backend_type(&self) -> String;

    /// Whether mutating operations are refused.
    fn is_read_only(&self) -> bool;
}

/// The filesystem tool: reads, writes, lists and deletes through a backend.
#[derive(Debug, Clone)]
pub struct FileSystemTool<B> {
    /// The name the tool answers to.
    pub name: String,
    /// The storage the tool works on.
    pub backend: B,
}

impl<B: FileSystemBackend> FileSystemTool<B> {
    /// A filesystem tool over the given backend.
    pub fn new(name: String, backend: B) -> (r: FileSystemTool<B>)
        ensures
            r.name@ == name@,
    {
        FileSystemTool { name, backend }
    }
}


/// How one directory entry shows in a listing: its name, with a trailing
/// slash for directories.
pub open spec fn spec_entry_label(e: FileEntry) -> Seq<char> {
    e.name@ + (if e.is_directory {
        ("/")@
    } else {
        Seq::<char>::empty()
    })
}

/// A directory listing: the entries' labels joined by newlines, in order.
pub open spec fn spec_list_text(entries: Seq<FileEntry>) -> Seq<char>
    decreases entries.len(),
{
    if entries.len() == 0 {
        Seq::empty()
    } else if entries.len() == 1 {
        spec_entry_label(entries[0])
    } else {
        spec_list_text(entries.drop_last()) + ("\n")@ + spec_entry_label(entries.last())
    }
}

fn entry_label(e: &FileEntry) -> (r: String)
    ensures
        r@ == spec_entry_label(*e),
{
    let mut label = e.name.clone();
    if e.is_directory {
        label.append("/");
    }
    label
}

proof fn lemma_list_text_step(entries: Seq<FileEntry>, j: int)
    requires
        1 <= j <= entries.len(),
    ensures
        j == 1 ==> spec_list_text(entries.take(1)) == spec_entry_label(entries[0]),
        j > 1 ==> spec_list_text(entries.take(j)) == spec_list_text(entries.take(j - 1)) + ("\n")@
            + spec_entry_label(entries[j - 1]),
{
    assert(entries.take(j).drop_last() =~= entries.take(j - 1));
    assert(entries.take(j).last() == entries[j - 1]);
    if j == 1 {
        assert(entries.take(1)[0] == entries[0]);
    }
}

/// Writes a directory listing as text, one labelled entry per line.
pub fn list_text(entries: &Vec<FileEntry>) -> (r: String)
    ensures
        r@ == spec_list_text(entries@),
{
    let mut out = String::new();
    let mut k: usize = 0;
    while k < entries.len()
        invariant
            k <= entries@.len(),
            out@ == spec_list_text(entries@.take(k as int)),
        decreases entries@.len() - k,
    {
        if k > 0 {
            out.append("\n");
        }
        let label = entry_label(&entries[k]);
        out.append(label.as_str());
        k = k + 1;
        proof {
            lemma_list_text_step(entries@, k as int);
        }
    }
    proof {
        assert(entries@.take(entries@.len() as int) =~= entries@);
    }
    out
}

/// The metadata of a read: operation, path, the content's byte size and the
/// backend's label.
pub open spec fn fs_read_metadata(path: Seq<char>, size: int, backend: Seq<char>) -> Seq<char> {
    let a = ("{\"operation\":\"read\",\"path\":\"")@ + json_escaped(path);
    let b = a + ("\",\"size\":")@ + crate::text::dec_str_of(size);
    b + (",\"backend\":\"")@ + json_escaped(backend) + ("\"}")@
}

/// The metadata of a write: operation, path, the written byte size and the
/// backend's label.
pub open spec fn fs_write_metadata(path: Seq<char>, size: int, backend: Seq<char>) -> Seq<char> {
    let a = ("{\"operation\":\"write\",\"path\":\"")@ + json_escaped(path);
    let b = a + ("\",\"size\":")@ + crate::text::dec_str_of(size);
    b + (",\"backend\":\"")@ + json_escaped(backend) + ("\"}")@
}

/// The metadata of a listing: operation, path, the entry count and the
/// backend's label.
pub open spec fn fs_list_metadata(path: Seq<char>, count: int, backend: Seq<char>) -> Seq<char> {
    let a = ("{\"operation\":\"list\",\"path\":\"")@ + json_escaped(path);
    let b = a + ("\",\"count\":")@ + crate::text::dec_str_of(count);
    b + (",\"backend\":\"")@ + json_escaped(backend) + ("\"}")@
}

/// The metadata of a delete: operation, path and the backend's label.
pub open spec fn fs_delete_metadata(path: Seq<char>, backend: Seq<char>) -> Seq<char> {
    let a = ("{\"operation\":\"delete\",\"path\":\"")@ + json_escaped(path);
    a + ("\",\"backend\":\"")@ + json_escaped(backend) + ("\"}")@
}

/// Read metadata carrying the given path and size, for the backend label the
/// run happened to use.
pub open spec fn fs_read_metadata_for(md: Seq<char>, path: Seq<char>, size: int) -> bool {
    exists|backend: Seq<char>| md == fs_read_metadata(path, size, backend)
}

/// Write metadata carrying the given path and size, for some backend label.
pub open spec fn fs_write_metadata_for(md: Seq<char>, path: Seq<char>, size: int) -> bool {
    exists|backend: Seq<char>| md == fs_write_metadata(path, size, backend)
}

/// Listing metadata carrying the given path, for some entry count and
/// backend label.
pub open spec fn fs_list_metadata_for(md: Seq<char>, path: Seq<char>) -> bool {
    exists|count: int, backend: Seq<char>| md == fs_list_metadata(path, count, backend)
}

/// Delete metadata carrying the given path, for some backend label.
pub open spec fn fs_delete_metadata_for(md: Seq<char>, path: Seq<char>) -> bool {
    exists|backend: Seq<char>| md == fs_delete_metadata(path, backend)
}

fn escaped_text(s: &str) -> (r: String)
    ensures
        r@ == json_escaped(s@),
{
    let mut buf: Vec<char> = Vec::new();
    crate::tools::append_json_escaped(&mut buf, &str_chars(s));
    chars_string(&buf)
}

fn tagged_metadata_text(prefix: &str, path: &str, number_label: &str, number: u64, backend: &str) -> (r: String)
    ensures
        r@ == prefix@ + json_escaped(path@) + number_label@ + crate::text::dec_str_of(
            number as int,
        ) + (",\"backend\":\"")@ + json_escaped(backend@) + ("\"}")@,
{
    let mut out = String::from_str(prefix);
    let escaped_path = escaped_text(path);
    out.append(escaped_path.as_str());
    out.append(number_label);
    let number_text = u64_to_dec(number);
    out.append(number_text.as_str());
    out.append(",\"backend\":\"");
    let escaped_backend = escaped_text(backend);
    out.append(escaped_backend.as_str());
    out.append("\"}");
    out
}

fn delete_metadata_text(path: &str, backend: &str) -> (r: String)
    ensures
        r@ == fs_delete_metadata(path@, backend@),
{
    let mut out = String::from_str("{\"operation\":\"delete\",\"path\":\"");
    let escaped_path = escaped_text(path);
    out.append(escaped_path.as_str());
    out.append("\",\"backend\":\"");
    let escaped_backend = escaped_text(backend);
    out.append(escaped_backend.as_str());
    out.append("\"}");
    out
}

impl<B: FileSystemBackend> Tool for FileSystemTool<B> {
    fn name(&self) -> (r: String)
        ensures
            r@ == self.name@,
    {
        self.name.clone()
    }

    fn description(&self) -> String {
        String::from_str("Read, write, list, and delete files. Supports operations: read, write, list, delete.")
    }

    fn parameters(&self) -> String {
        String::from_str(
            "{\"type\":\"object\",\"properties\":{\"operation\":{\"type\":\"string\",\"enum\":[\"read\",\"write\",\"list\",\"delete\"]},\"path\":{\"type\":\"string\"},\"content\":{\"type\":\"string\"}},\"required\":[\"operation\",\"path\"]}",
        )
    }

    /// Dispatches on the `operation` field. The library's own rejections —
    /// a missing operation, path or write content, and an unknown operation
    /// — are pinned exactly, before any backend call; on success the write
    /// and delete confirmations are pinned too, and a listing is written by
    /// `list_text`. What the backend itself returns is its implementor's
    /// business.
    fn execute(&self, input: &ToolInput) -> (r: Result<ToolOutput, ToolError>)
        ensures
            ({
                let op = input.spec_get_string("operation"@);
                let path = input.spec_get_string("path"@);
                let content = input.spec_get_string("content"@);
                match op {
                    None => r matches Err(ToolError::InvalidInput(m)) && m@
                        == "Missing operation"@,
                    Some(o) => match path {
                        None => r matches Err(ToolError::InvalidInput(m)) && m@
                            == "Missing path"@,
                        Some(p) => if o == "read"@ {
                            r matches Ok(out) ==> out.success == true && (out.metadata matches
                            Some(md) && fs_read_metadata_for(
                                md@,
                                p,
                                (vstd::utf8::encode_utf8(out.content@).len() as usize) as int,
                            ))
                        } else if o == "write"@ {
                            match content {
                                None => r matches Err(ToolError::InvalidInput(m)) && m@
                                    == "Missing content for write"@,
                                Some(c) => r matches Ok(out) ==> out.success == true
                                    && out.content@ == "Successfully wrote "@ + crate::text::dec_str_of(
                                    (vstd::utf8::encode_utf8(c).len() as usize) as int,
                                ) + " bytes to "@ + p && (out.metadata matches Some(md)
                                    && fs_write_metadata_for(
                                    md@,
                                    p,
                                    (vstd::utf8::encode_utf8(c).len() as usize) as int,
                                )),
                            }
                        } else if o == "list"@ {
                            r matches Ok(out) ==> out.success == true && (out.metadata matches
                            Some(md) && fs_list_metadata_for(md@, p))
                        } else if o == "delete"@ {
                            r matches Ok(out) ==> out.success == true && out.content@
                                == "Successfully deleted "@ + p && (out.metadata matches Some(md)
                                && fs_delete_metadata_for(md@, p))
                        } else {
                            r matches Err(ToolError::InvalidInput(m)) && m@
                                == "Unknown operation: "@ + o
                                + ". Use read, write, list, or delete."@
                        },
                    },
                }
            }),
    {
        let timer = ToolTimer::start();
        let operation = match input.get_string("operation") {
            Some(o) => o,
            None => {
                return Err(ToolError::InvalidInput(String::from_str("Missing operation")));
            },
        };
        let path = match input.get_string("path") {
            Some(p) => p,
            None => {
                return Err(ToolError::InvalidInput(String::from_str("Missing path")));
            },
        };
        let op = operation.as_str();
        if str_eq(op, "read") {
            match self.backend.read(path.as_str()) {
                Ok(content) => {
                    let backend_label = self.backend.backend_type();
                    let md = tagged_metadata_text(
                        "{\"operation\":\"read\",\"path\":\"",
                        path.as_str(),
                        "\",\"size\":",
                        content.as_str().len() as u64,
                        backend_label.as_str(),
                    );
                    proof {
                        assert(md@ == fs_read_metadata(
                            path@,
                            (vstd::utf8::encode_utf8(content@).len() as usize) as int,
                            backend_label@,
                        ));
                    }
                    Ok(ToolOutput::success_with_metadata(content, md, timer.elapsed_ms()))
                },
                Err(e) => Err(e),
            }
        } else if str_eq(op, "write") {
            let content = match input.get_string("content") {
                Some(c) => c,
                None => {
                    return Err(
                        ToolError::InvalidInput(String::from_str("Missing content for write")),
                    );
                },
            };
            match self.backend.write(path.as_str(), content.as_str()) {
                Ok(()) => {
                    let mut msg = String::from_str("Successfully wrote ");
                    let size = u64_to_dec(content.as_str().len() as u64);
                    msg.append(size.as_str());
                    msg.append(" bytes to ");
                    msg.append(path.as_str());
                    let backend_label = self.backend.backend_type();
                    let md = tagged_metadata_text(
                        "{\"operation\":\"write\",\"path\":\"",
                        path.as_str(),
                        "\",\"size\":",
                        content.as_str().len() as u64,
                        backend_label.as_str(),
                    );
                    proof {
                        assert(md@ == fs_write_metadata(
                            path@,
                            (vstd::utf8::encode_utf8(content@).len() as usize) as int,
                            backend_label@,
                        ));
                    }
                    Ok(ToolOutput::success_with_metadata(msg, md, timer.elapsed_ms()))
                },
                Err(e) => Err(e),
            }
        } else if str_eq(op, "list") {
            match self.backend.list(path.as_str()) {
                Ok(entries) => {
                    let backend_label = self.backend.backend_type();
                    let md = tagged_metadata_text(
                        "{\"operation\":\"list\",\"path\":\"",
                        path.as_str(),
                        "\",\"count\":",
                        entries.len() as u64,
                        backend_label.as_str(),
                    );
                    proof {
                        assert(md@ == fs_list_metadata(
                            path@,
                            entries@.len() as int,
                            backend_label@,
                        ));
                    }
                    Ok(
                        ToolOutput::success_with_metadata(
                            list_text(&entries),
                            md,
                            timer.elapsed_ms(),
                        ),
                    )
                },
                Err(e) => Err(e),
            }
        } else if str_eq(op, "delete") {
            match self.backend.delete(path.as_str()) {
                Ok(()) => {
                    let mut msg = String::from_str("Successfully deleted ");
                    msg.append(path.as_str());
                    let backend_label = self.backend.backend_type();
                    let md = delete_metadata_text(path.as_str(), backend_label.as_str());
                    Ok(ToolOutput::success_with_metadata(msg, md, timer.elapsed_ms()))
                },
                Err(e) => Err(e),
            }
        } else {
            let mut m = String::from_str("Unknown operation: ");
            m.append(op);
            m.append(". Use read, write, list, or delete.");
            Err(ToolError::InvalidInput(m))
        }
    }
}

/// Settings for the S3 stub backend.
#[derive(Debug, Clone, PartialEq)]
pub struct S3Config {
    pub bucket: String,
    pub region: String,
    pub prefix: Option<String>,
}

/// Settings for the GCS stub backend.
#[derive(Debug, Clone, PartialEq)]
pub struct GCSConfig {
    pub bucket: String,
    pub project: Option<String>,
    pub prefix: Option<String>,
}

/// Settings for the Azure stub backend.
#[derive(Debug, Clone, PartialEq)]
pub struct AzureConfig {
    pub container: String,
    pub account: String,
    pub prefix: Option<String>,
}

/// Settings for the SFTP stub backend.
#[derive(Debug, Clone, PartialEq)]
pub struct SFTPConfig {
    pub host: String,
    pub port: u16,
    pub username: String,
    pub base_path: Option<String>,
}

/// S3 backend stub: configured but refusing every operation.
#[derive(Debug, Clone, PartialEq)]
pub struct S3Backend {
    pub config: S3Config,
    pub read_only: bool,
}

impl S3Backend {
    /// An S3 stub over the given settings.
    pub fn new(config: S3Config, read_only: bool) -> (r: S3Backend)
        ensures
            r.config == config,
            r.read_only == read_only,
    {
        S3Backend { config, read_only }
    }
}

impl FileSystemBackend for S3Backend {
    fn read(&self, path: &str) -> (r: Result<String, ToolError>)
        ensures
            r matches Err(ToolError::NotImplemented(_)),
    {
        Err(ToolError::NotImplemented(String::from_str("S3 backend not implemented")))
    }

    fn write(&self, path: &str, content: &str) -> (r: Result<(), ToolError>)
        ensures
            r matches Err(ToolError::NotImplemented(_)),
    {
        Err(ToolError::NotImplemented(String::from_str("S3 backend not implemented")))
    }

    fn list(&self, path: &str) -> (r: Result<Vec<FileEntry>, ToolError>)
        ensures
            r matches Err(ToolError::NotImplemented(_)),
    {
        Err(ToolError::NotImplemented(String::from_str("S3 backend not implemented")))
    }

    fn delete(&self, path: &str) -> (r: Result<(), ToolError>)
        ensures
            r matches Err(ToolError::NotImplemented(_)),
    {
        Err(ToolError::NotImplemented(String::from_str("S3 backend not implemented")))
    }

    fn path_exists(&self, path: &str) -> (r: Result<bool, ToolError>)
        ensures
            r matches Err(ToolError::NotImplemented(_)),
    {
        Err(ToolError::NotImplemented(String::from_str("S3 backend not implemented")))
    }

    fn metadata(&self, path: &str) -> (r: Result<FileMetadata, ToolError>)
        ensures
            r matches Err(ToolError::NotImplemented(_)),
    {
        Err(ToolError::NotImplemented(String::from_str("S3 backend not implemented")))
    }

    fn backend_type(&self) -> (r: String)
        ensures
            r@ == "s3"@,
    {
        String::from_str("s3")
    }

    fn is_read_only(&self) -> (r: bool)
        ensures
            r == self.read_only,
    {
        self.read_only
    }
}

/// GCS backend stub: configured but refusing every operation.
#[derive(Debug, Clone, PartialEq)]
pub struct GCSBackend {
    pub config: GCSConfig,
    pub read_only: bool,
}

impl GCSBackend {
    /// A GCS stub over the given settings.
    pub fn new(config: GCSConfig, read_only: bool) -> (r: GCSBackend)
        ensures
            r.config == config,
            r.read_only == read_only,
    {
        GCSBackend { config, read_only }
    }
}

impl FileSystemBackend for GCSBackend {
    fn read(&self, path: &str) -> (r: Result<String, ToolError>)
        ensures
            r matches Err(ToolError::NotImplemented(_)),
    {
        Err(ToolError::NotImplemented(String::from_str("GCS backend not implemented")))
    }

    fn write(&self, path: &str, content: &str) -> (r: Result<(), ToolError>)
        ensures
            r matches Err(ToolError::NotImplemented(_)),
    {
        Err(ToolError::NotImplemented(String::from_str("GCS backend not implemented")))
    }

    fn list(&self, path: &str) -> (r: Result<Vec<FileEntry>, ToolError>)
        ensures
            r matches Err(ToolError::NotImplemented(_)),
    {
        Err(ToolError::NotImplemented(String::from_str("GCS backend not implemented")))
    }

    fn delete(&self, path: &str) -> (r: Result<(), ToolError>)
        ensures
            r matches Err(ToolError::NotImplemented(_)),
    {
        Err(ToolError::NotImplemented(String::from_str("GCS backend not implemented")))
    }

    fn path_exists(&self, path: &str) -> (r: Result<bool, ToolError>)
        ensures
            r matches Err(ToolError::NotImplemented(_)),
    {
        Err(ToolError::NotImplemented(String::from_str("GCS backend not implemented")))
    }

    fn metadata(&self, path: &str) -> (r: Result<FileMetadata, ToolError>)
        ensures
            r matches Err(ToolError::NotImplemented(_)),
    {
        Err(ToolError::NotImplemented(String::from_str("GCS backend not implemented")))
    }

    fn backend_type(&self) -> (r: String)
        ensures
            r@ == "gcs"@,
    {
        String::from_str("gcs")
    }

    fn is_read_only(&self) -> (r: bool)
        ensures
            r == self.read_only,
    {
        self.read_only
    }
}

/// Azure backend stub: configured but refusing every operation.
#[derive(Debug, Clone, PartialEq)]
pub struct AzureBackend {
    pub config: AzureConfig,
    pub read_only: bool,
}

impl AzureBackend {
    /// An Azure stub over the given settings.
    pub fn new(config: AzureConfig, read_only: bool) -> (r: AzureBackend)
        ensures
            r.config == config,
            r.read_only == read_only,
    {
        AzureBackend { config, read_only }
    }
}

impl FileSystemBackend for AzureBackend {
    fn read(&self, path: &str) -> (r: Result<String, ToolError>)
        ensures
            r matches Err(ToolError::NotImplemented(_)),
    {
        Err(ToolError::NotImplemented(String::from_str("Azure backend not implemented")))
    }

    fn write(&self, path: &str, content: &str) -> (r: Result<(), ToolError>)
        ensures
            r matches Err(ToolError::NotImplemented(_)),
    {
        Err(ToolError::NotImplemented(String::from_str("Azure backend not implemented")))
    }

    fn list(&self, path: &str) -> (r: Result<Vec<FileEntry>, ToolError>)
        ensures
            r matches Err(ToolError::NotImplemented(_)),
    {
        Err(ToolError::NotImplemented(String::from_str("Azure backend not implemented")))
    }

    fn delete(&self, path: &str) -> (r: Result<(), ToolError>)
        ensures
            r matches Err(ToolError::NotImplemented(_)),
    {
        Err(ToolError::NotImplemented(String::from_str("Azure backend not implemented")))
    }

    fn path_exists(&self, path: &str) -> (r: Result<bool, ToolError>)
        ensures
            r matches Err(ToolError::NotImplemented(_)),
    {
        Err(ToolError::NotImplemented(String::from_str("Azure backend not implemented")))
    }

    fn metadata(&self, path: &str) -> (r: Result<FileMetadata, ToolError>)
        ensures
            r matches Err(ToolError::NotImplemented(_)),
    {
        Err(ToolError::NotImplemented(String::from_str("Azure backend not implemented")))
    }

    fn backend_type(&self) -> (r: String)
        ensures
            r@ == "azure"@,
    {
        String::from_str("azure")
    }

    fn is_read_only(&self) -> (r: bool)
        ensures
            r == self.read_only,
    {
        self.read_only
    }
}

/// SFTP backend stub: configured but refusing every operation.
#[derive(Debug, Clone, PartialEq)]
pub struct SFTPBackend {
    pub config: SFTPConfig,
    pub read_only: bool,
}

impl SFTPBackend {
    /// An SFTP stub over the given settings.
    pub fn new(config: SFTPConfig, read_only: bool) -> (r: SFTPBackend)
        ensures
            r.config == config,
            r.read_only == read_only,
    {
        SFTPBackend { config, read_only }
    }
}

impl FileSystemBackend for SFTPBackend {
    fn read(&self, path: &str) -> (r: Result<String, ToolError>)
        ensures
            r matches Err(ToolError::NotImplemented(_)),
    {
        Err(ToolError::NotImplemented(String::from_str("SFTP backend not implemented")))
    }

    fn write(&self, path: &str, content: &str) -> (r: Result<(), ToolError>)
        ensures
            r matches Err(ToolError::NotImplemented(_)),
    {
        Err(ToolError::NotImplemented(String::from_str("SFTP backend not implemented")))
    }

    fn list(&self, path: &str) -> (r: Result<Vec<FileEntry>, ToolError>)
        ensures
            r matches Err(ToolError::NotImplemented(_)),
    {
        Err(ToolError::NotImplemented(String::from_str("SFTP backend not implemented")))
    }

    fn delete(&self, path: &str) -> (r: Result<(), ToolError>)
        ensures
            r matches Err(ToolError::NotImplemented(_)),
    {
        Err(ToolError::NotImplemented(String::from_str("SFTP backend not implemented")))
    }

    fn path_exists(&self, path: &str) -> (r: Result<bool, ToolError>)
        ensures
            r matches Err(ToolError::NotImplemented(_)),
    {
        Err(ToolError::NotImplemented(String::from_str("SFTP backend not implemented")))
    }

    fn metadata(&self, path: &str) -> (r: Result<FileMetadata, ToolError>)
        ensures
            r matches Err(ToolError::NotImplemented(_)),
    {
        Err(ToolError::NotImplemented(String::from_str("SFTP backend not implemented")))
    }

    fn backend_type(&self) -> (r: String)
        ensures
            r@ == "sftp"@,
    {
        String::from_str("sftp")
    }

    fn is_read_only(&self) -> (r: bool)
        ensures
            r == self.read_only,
    {
        self.read_only
    }
}

} // verus!
