//! The built-in code tools: the sandbox that confines every path to the
//! workspace root, the rules a repository scan follows, and the small text
//! measures the tools report.
//!
//! Walking directories and reading files is left to the caller, who hands
//! each decision here the values it read.

use vstd::prelude::*;
use vstd::string::{StringExecFns, StringSliceAdditionalSpecFns, StrSliceExecFns};

use crate::config::{join_path, path_join, CodeToolsConfig};
use crate::error::Error;
use crate::model::opt_view;
use crate::text::{decimal, u64_to_decimal};
use crate::wire::{lossy_string, utf8_lossy};
use vstd::utf8::{decode_utf8, valid_utf8};
use vstd::utf8::encode_utf8;

verus! {

// ── Result types ─────────────────────────────────────────────────────────────

/// Metadata for a single file discovered during a repository scan.
#[derive(Debug)]
pub struct FileEntry {
    /// Path to the file, relative to the scan root.
    pub path: String,
    /// Detected language name (title-cased), or `None` for unknown
    /// extensions.
    pub language: Option<String>,
    /// File size in bytes.
    pub size_bytes: u64,
    /// Number of newline-delimited lines in the file.
    pub line_count: usize,
}

/// The view of a [`FileEntry`].
pub struct FileEntryView {
    pub path: Seq<char>,
    pub language: Option<Seq<char>>,
    pub size_bytes: u64,
    pub line_count: usize,
}

impl View for FileEntry {
    type V = FileEntryView;

    open spec fn view(&self) -> FileEntryView {
        FileEntryView {
            path: self.path@,
            language: opt_view(self.language),
            size_bytes: self.size_bytes,
            line_count: self.line_count,
        }
    }
}

/// Result of a repository directory scan.
#[derive(Debug)]
pub struct ScanResult {
    /// Files found, up to `max_files_per_page`.
    pub files: Vec<FileEntry>,
    /// Total number of eligible files discovered (may exceed `files.len()`).
    pub total_found: usize,
    /// `true` when `total_found` exceeds the page limit.
    pub truncated: bool,
}

/// Result of reading a single file.
#[derive(Debug)]
pub struct ReadResult {
    /// Path used to open the file.
    pub path: String,
    /// Detected language name (title-cased), or `None` for unknown
    /// extensions.
    pub language: Option<String>,
    /// Content of the file.
    pub content: String,
    /// Number of newline-delimited lines.
    pub line_count: usize,
}

/// Result of parsing a single source file.
#[derive(Debug)]
pub struct ParseResult {
    /// Path used to open the file.
    pub path: String,
    /// Detected language name (title-cased), or `None` for unknown
    /// extensions.
    pub language: Option<String>,
    /// The extracted code structure as JSON text (`null` when no language
    /// was detected or parsing failed).
    pub items: String,
}

// ── Text measures ────────────────────────────────────────────────────────────

/// The upper-case form of a character (possibly several characters, as
/// for `ß`).
pub uninterp spec fn char_upper(c: char) -> Seq<char>;

/// `char::to_uppercase`, collected into a string.
///
/// The Unicode case tables are std's; the contract names the result and
/// states what std documents for ASCII: letters `a`–`z` map to `A`–`Z`,
/// every other ASCII character to itself.
#[verifier::external_body]
fn upper(c: char) -> (r: String)
    ensures
        r@ == char_upper(c),
        'a' <= c <= 'z' ==> r@ == seq![((c as u32) - 32) as char],
        (c as u32) < 128 && !('a' <= c <= 'z') ==> r@ == seq![c],
{
    c.to_uppercase().collect::<String>()
}

/// The title-cased form of a language name: the first character upper-cased,
/// the rest unchanged.
pub open spec fn spec_title_case(s: Seq<char>) -> Seq<char> {
    if s.len() == 0 {
        s
    } else {
        char_upper(s[0]) + s.drop_first()
    }
}

/// Title-case a language name (e.g. `"rust"` becomes `"Rust"`).
pub fn title_case(s: &str) -> (r: String)
    ensures
        r@ == spec_title_case(s@),
{
    let n = s.unicode_len();
    if n == 0 {
        return String::new();
    }
    let mut r = upper(s.get_char(0));
    let rest = s.substring_char(1, n);
    r.append(rest);
    r
}

/// The prefix of `data` inspected for binary content: its first 512 bytes.
pub open spec fn binary_probe(data: Seq<u8>) -> Seq<u8> {
    if data.len() > 512 { data.subrange(0, 512) } else { data }
}

/// Whether `data` looks binary: a zero byte in its first 512 bytes.
pub open spec fn spec_is_binary(data: Seq<u8>) -> bool {
    binary_probe(data).contains(0u8)
}

/// Whether the first 512 bytes of `data` contain a zero byte.
pub fn is_binary(data: &[u8]) -> (r: bool)
    ensures
        r == spec_is_binary(data@),
{
    let n: usize = if data.len() > 512 { 512 } else { data.len() };
    let ghost probe = binary_probe(data@);
    assert(probe.len() == n);
    let mut i: usize = 0;
    while i < n
        invariant
            n <= data@.len(),
            probe == binary_probe(data@),
            probe.len() == n,
            i <= n,
            forall|j: int| 0 <= j < i ==> probe[j] != 0u8,
        decreases n - i,
    {
        assert(probe[i as int] == data@[i as int]);
        if data[i] == 0u8 {
            assert(probe[i as int] == 0u8);
            return true;
        }
        i = i + 1;
    }
    false
}

/// The number of newline bytes in `b`.
pub open spec fn newline_count(b: Seq<u8>) -> nat
    decreases b.len(),
{
    if b.len() == 0 {
        0
    } else {
        newline_count(b.drop_last()) + if b.last() == 10 { 1nat } else { 0nat }
    }
}

/// The number of lines of a text, by its bytes: none when empty; one per
/// newline, plus one for a final line without a newline.
pub open spec fn spec_line_count(b: Seq<u8>) -> nat {
    if b.len() == 0 {
        0
    } else if b.last() == 10 {
        newline_count(b)
    } else {
        newline_count(b) + 1
    }
}

/// Counts the lines of `content`: none when empty, and a final line
/// without a trailing newline still counts.
pub fn count_lines(content: &str) -> (r: usize)
    ensures
        r == spec_line_count(content.spec_bytes()),
{
    let b = content.as_bytes();
    let _n = b.len();
    let mut counter = LineCounter::new();
    assert(newline_count(Seq::<u8>::empty()) == 0);
    counter.feed(b);
    assert(Seq::<u8>::empty() + b@ =~= b@);
    proof {
        if b@.len() > 0 {
            lemma_newline_count_bound(b@.drop_last());
        }
    }
    counter.finish()
}

/// A line counter fed a text in chunks, so that the text never has to be
/// held whole.
pub struct LineCounter {
    newlines: usize,
    last_byte: Option<u8>,
    seen: Ghost<Seq<u8>>,
}

impl LineCounter {
    /// The bytes fed so far, in order.
    pub closed spec fn fed(&self) -> Seq<u8> {
        self.seen@
    }

    /// The counter's state agrees with what it was fed.
    pub closed spec fn wf(&self) -> bool {
        &&& self.newlines == newline_count(self.seen@)
        &&& match self.last_byte {
            None => self.seen@.len() == 0,
            Some(b) => self.seen@.len() > 0 && b == self.seen@.last(),
        }
    }

    /// A counter that has been fed nothing.
    pub fn new() -> (r: Self)
        ensures
            r.wf(),
            r.fed() == Seq::<u8>::empty(),
    {
        LineCounter { newlines: 0, last_byte: None, seen: Ghost(Seq::empty()) }
    }

    /// The newlines fed so far.
    pub fn newlines(&self) -> (r: usize)
        requires
            self.wf(),
        ensures
            r == newline_count(self.fed()),
    {
        self.newlines
    }

    /// Feed the next chunk of the text.
    pub fn feed(&mut self, chunk: &[u8])
        requires
            old(self).wf(),
            newline_count(old(self).fed()) + chunk@.len() <= usize::MAX,
        ensures
            final(self).wf(),
            final(self).fed() == old(self).fed() + chunk@,
    {
        let ghost start = self.seen@;
        let mut i: usize = 0;
        while i < chunk.len()
            invariant
                i <= chunk@.len(),
                self.wf(),
                self.seen@ == start + chunk@.subrange(0, i as int),
                newline_count(start) + chunk@.len() <= usize::MAX,
                self.newlines <= newline_count(start) + i,
            decreases chunk.len() - i,
        {
            let b = chunk[i];
            let ghost before = self.seen@;
            proof {
                assert((before.push(b)).drop_last() =~= before);
            }
            if b == 10u8 {
                self.newlines = self.newlines + 1;
            }
            self.last_byte = Some(b);
            self.seen = Ghost(before.push(b));
            assert(start + chunk@.subrange(0, i + 1) =~= before.push(b));
            i = i + 1;
        }
        assert(chunk@.subrange(0, chunk@.len() as int) =~= chunk@);
    }

    /// The number of lines of everything fed so far.
    pub fn finish(&self) -> (r: usize)
        requires
            self.wf(),
            spec_line_count(self.fed()) <= usize::MAX,
        ensures
            r == spec_line_count(self.fed()),
    {
        match self.last_byte {
            None => 0,
            Some(b) => if b == 10u8 {
                self.newlines
            } else {
                self.newlines + 1
            },
        }
    }
}

proof fn lemma_newline_count_bound(b: Seq<u8>)
    ensures
        newline_count(b) <= b.len(),
    decreases b.len(),
{
    if b.len() > 0 {
        lemma_newline_count_bound(b.drop_last());
    }
}

/// Newlines of a concatenation are the newlines of its parts.
pub proof fn lemma_newline_count_concat(a: Seq<u8>, b: Seq<u8>)
    ensures
        newline_count(a + b) == newline_count(a) + newline_count(b),
    decreases b.len(),
{
    if b.len() == 0 {
        assert(a + b =~= a);
    } else {
        lemma_newline_count_concat(a, b.drop_last());
        assert((a + b).drop_last() =~= a + b.drop_last());
    }
}

/// Counting lines chunk by chunk gives the count of the whole text: feeding
/// `a` and then `b` leaves a counter whose result is the line count of
/// `a + b`, however the text is split.
pub proof fn lemma_streaming_matches_whole(a: Seq<u8>, b: Seq<u8>)
    ensures
        spec_line_count(a + b) == if b.len() == 0 { spec_line_count(a) } else {
            newline_count(a) + spec_line_count(b)
        },
{
    lemma_newline_count_concat(a, b);
    if b.len() == 0 {
        assert(a + b =~= a);
    } else {
        assert((a + b).last() == b.last());
    }
}

// ── Scanning ─────────────────────────────────────────────────────────────────

/// Whether a scan descends into the directory named `name`: hidden
/// directories (name starting with a dot) and the configured deny list are
/// skipped.
pub open spec fn spec_should_descend(name: Seq<char>, skip: Seq<Seq<char>>) -> bool {
    !(name.len() > 0 && name[0] == '.') && !skip.contains(name)
}

/// Whether a scan descends into the directory named `name`.
pub fn should_descend(name: &str, skip_dirs: &Vec<String>) -> (r: bool)
    ensures
        r == spec_should_descend(name@, skip_dirs@.map_values(|s: String| s@)),
{
    let ghost skip = skip_dirs@.map_values(|s: String| s@);
    if name.unicode_len() > 0 && name.get_char(0) == '.' {
        return false;
    }
    let wanted = name.to_owned();
    let mut i: usize = 0;
    while i < skip_dirs.len()
        invariant
            i <= skip_dirs@.len(),
            skip == skip_dirs@.map_values(|s: String| s@),
            wanted@ == name@,
            forall|j: int| 0 <= j < i ==> skip[j] != name@,
        decreases skip_dirs.len() - i,
    {
        if skip_dirs[i] == wanted {
            assert(skip[i as int] == name@);
            return false;
        }
        i = i + 1;
    }
    true
}

/// A scan never enters a hidden directory, nor one whose name is any
/// entry of the deny list (first, last or in between); it enters every
/// other directory.
pub proof fn lemma_descend_rules(name: Seq<char>, skip: Seq<Seq<char>>)
    ensures
        forall|j: int| 0 <= j < skip.len() && #[trigger] skip[j] == name ==> !spec_should_descend(name, skip),
        name.len() > 0 && name[0] == '.' ==> !spec_should_descend(name, skip),
        !(name.len() > 0 && name[0] == '.') && (forall|j: int| 0 <= j < skip.len() ==> #[trigger] skip[j] != name)
            ==> spec_should_descend(name, skip),
{
    assert forall|j: int| 0 <= j < skip.len() && #[trigger] skip[j] == name implies !spec_should_descend(name, skip) by {
        assert(skip.contains(name));
    }
}

/// Whether a regular file of `size` bytes whose first bytes are `probe`
/// is counted by a scan: not larger than the limit and not binary.
pub open spec fn spec_file_eligible(size: u64, max_size: u64, probe: Seq<u8>) -> bool {
    size <= max_size && !spec_is_binary(probe)
}

/// Whether a scanned file is counted.
pub fn file_eligible(size: u64, max_size: u64, probe: &[u8]) -> (r: bool)
    ensures
        r == spec_file_eligible(size, max_size, probe@),
{
    size <= max_size && !is_binary(probe)
}

/// The prefix every path under `root` starts with: the root followed by
/// a separator.
pub open spec fn root_prefix(root: Seq<char>) -> Seq<char> {
    if root.len() > 0 && root.last() == '/' {
        root
    } else {
        root.push('/')
    }
}

/// A path as a scan reports it: relative to the scan root when it lies
/// under the root, otherwise as it is.
pub open spec fn spec_relative_to_root(root: Seq<char>, path: Seq<char>) -> Seq<char> {
    if root_prefix(root).is_prefix_of(path) {
        path.skip(root_prefix(root).len() as int)
    } else {
        path
    }
}

/// The path of a scanned file relative to the scan root.
pub fn relative_to_root(root: &str, path: &str) -> (r: String)
    ensures
        r@ == spec_relative_to_root(root@, path@),
{
    let mut prefix: Vec<char> = Vec::new();
    let rn = root.unicode_len();
    let mut i: usize = 0;
    while i < rn
        invariant
            rn == root@.len(),
            i <= rn,
            prefix@ == root@.subrange(0, i as int),
        decreases rn - i,
    {
        prefix.push(root.get_char(i));
        i = i + 1;
        assert(prefix@ =~= root@.subrange(0, i as int));
    }
    assert(prefix@ =~= root@);
    if !(rn > 0 && root.get_char(rn - 1) == '/') {
        prefix.push('/');
    }
    assert(prefix@ == root_prefix(root@));
    let m = prefix.len();
    let n = path.unicode_len();
    if m > n {
        return path.to_owned();
    }
    let mut j: usize = 0;
    while j < m
        invariant
            m == prefix@.len(),
            prefix@ == root_prefix(root@),
            n == path@.len(),
            m <= n,
            j <= m,
            forall|k: int| 0 <= k < j ==> prefix@[k] == path@[k],
        decreases m - j,
    {
        if prefix[j] != path.get_char(j) {
            proof {
                if prefix@.is_prefix_of(path@) {
                    assert(path@.subrange(0, m as int)[j as int] == path@[j as int]);
                }
            }
            return path.to_owned();
        }
        j = j + 1;
    }
    assert(prefix@.is_prefix_of(path@));
    let rest = path.substring_char(m, n);
    assert(rest@ =~= path@.skip(m as int));
    rest.to_owned()
}

/// What a scan collects: the files kept (at most the page size), and how
/// many eligible files it met in all.
pub struct ScanAccumulator {
    files: Vec<FileEntry>,
    total_found: usize,
    max_files: usize,
}

impl ScanAccumulator {
    /// The files kept, in the order they were met.
    pub closed spec fn kept(&self) -> Seq<FileEntryView> {
        self.files@.map_values(|f: FileEntry| f@)
    }

    /// How many eligible files were met.
    pub closed spec fn total(&self) -> nat {
        self.total_found as nat
    }

    /// The page size.
    pub closed spec fn limit(&self) -> nat {
        self.max_files as nat
    }

    /// An empty accumulator for pages of `max_files` files.
    pub fn new(max_files: usize) -> (r: Self)
        ensures
            r.kept() == Seq::<FileEntryView>::empty(),
            r.total() == 0,
            r.limit() == max_files,
    {
        let r = ScanAccumulator { files: Vec::new(), total_found: 0, max_files };
        assert(r.kept() =~= Seq::<FileEntryView>::empty());
        r
    }

    /// How many eligible files were met so far.
    pub fn total_found(&self) -> (r: usize)
        ensures
            r == self.total(),
    {
        self.total_found
    }

    /// Record one more eligible file: it is counted, and kept while the
    /// page has room.
    pub fn add(&mut self, entry: FileEntry)
        requires
            old(self).total() < usize::MAX,
        ensures
            final(self).total() == old(self).total() + 1,
            final(self).limit() == old(self).limit(),
            final(self).kept() == if old(self).kept().len() < old(self).limit() {
                old(self).kept().push(entry@)
            } else {
                old(self).kept()
            },
    {
        self.total_found = self.total_found + 1;
        if self.files.len() < self.max_files {
            let ghost before = self.files@;
            self.files.push(entry);
            assert(self.files@.map_values(|f: FileEntry| f@) =~= before.map_values(|f: FileEntry| f@).push(entry@));
        }
    }

    /// The scan's result: the kept files, the total met, and whether the
    /// total exceeds the page size.
    pub fn finish(self) -> (r: ScanResult)
        ensures
            r.files@.map_values(|f: FileEntry| f@) == self.kept(),
            r.total_found == self.total(),
            r.truncated == (self.total() > self.limit()),
    {
        let truncated = self.total_found > self.max_files;
        ScanResult { files: self.files, total_found: self.total_found, truncated }
    }
}

/// The kept files never exceed the page size, whatever the order of
/// additions; a page is truncated exactly when more files were met than
/// kept.
pub proof fn lemma_scan_page_bounds(kept_len: nat, total: nat, limit: nat)
    requires
        kept_len == if total <= limit { total } else { limit },
    ensures
        kept_len <= limit,
        (total > limit) <==> (total > kept_len),
{
}

// ── File reading ─────────────────────────────────────────────────────────────

/// The complaint about a file larger than the limit.
pub open spec fn oversize_reason(path: Seq<char>, size: u64, max_size: u64) -> Seq<char> {
    "file '"@ + path + "' exceeds max_file_size_bytes ("@ + decimal(size as nat) + " > "@ + decimal(
        max_size as nat,
    ) + ")"@
}

/// Refuses a file larger than the limit, as reading and parsing do.
pub fn check_file_size(path: &str, size: u64, max_size: u64) -> (r: Result<(), Error>)
    ensures
        size <= max_size ==> r is Ok,
        size > max_size ==> (r matches Err(Error::InternalUnexpected { reason })
            && reason@ == oversize_reason(path@, size, max_size)),
{
    if size > max_size {
        let mut s = String::from_str("file '");
        s.append(path);
        s.append("' exceeds max_file_size_bytes (");
        let a = u64_to_decimal(size);
        s.append(a.as_str());
        s.append(" > ");
        let b = u64_to_decimal(max_size);
        s.append(b.as_str());
        s.append(")");
        return Err(Error::InternalUnexpected { reason: s });
    }
    Ok(())
}

/// The title-cased form of an optional language name.
pub open spec fn spec_language(raw: Option<Seq<char>>) -> Option<Seq<char>> {
    match raw {
        Some(l) => Some(spec_title_case(l)),
        None => None,
    }
}

/// The text of a file's bytes, as the code tools read it: UTF-8, with
/// each invalid sequence replaced by U+FFFD.
pub fn source_text(bytes: &[u8]) -> (r: String)
    ensures
        r@ == utf8_lossy(bytes@),
        valid_utf8(bytes@) ==> r@ == decode_utf8(bytes@),
{
    lossy_string(bytes)
}

/// The result of reading a file: its path, its language title-cased, its
/// content (its bytes read as text) and its line count.
pub fn read_result(path: String, language: Option<&str>, bytes: &[u8]) -> (r: ReadResult)
    ensures
        r.path@ == path@,
        r.content@ == utf8_lossy(bytes@),
        valid_utf8(bytes@) ==> r.content@ == decode_utf8(bytes@),
        r.line_count == spec_line_count(encode_utf8(r.content@)),
        r.language matches Some(l) ==> language matches Some(raw) && l@ == spec_title_case(raw@),
        r.language is None ==> language is None,
{
    let content = source_text(bytes);
    let line_count = count_lines(content.as_str());
    let language = match language {
        Some(l) => Some(title_case(l)),
        None => None,
    };
    ReadResult { path, language, content, line_count }
}

// ── Sandbox ──────────────────────────────────────────────────────────────────

/// Whether the canonical path `p` lies inside the canonical directory
/// `root`, component by component: `p` is `root` itself or lies below it.
pub open spec fn is_within(root: Seq<char>, p: Seq<char>) -> bool {
    if root.len() > 0 && root.last() == '/' {
        root.is_prefix_of(p)
    } else {
        p == root || (root + "/"@).is_prefix_of(p)
    }
}

/// Whether the canonical path `p` lies inside the canonical directory
/// `root`.
pub fn path_within(root: &str, p: &str) -> (r: bool)
    ensures
        r == is_within(root@, p@),
{
    proof {
        reveal_strlit("/");
    }
    let n = root.unicode_len();
    let m = p.unicode_len();
    let ends_with_slash = n > 0 && root.get_char(n - 1) == '/';
    if m < n || (!ends_with_slash && m == n) {
        if m == n {
            let mut i: usize = 0;
            while i < n
                invariant
                    n == root@.len(),
                    m == p@.len(),
                    n == m,
                    i <= n,
                    forall|j: int| 0 <= j < i ==> root@[j] == p@[j],
                decreases n - i,
            {
                if root.get_char(i) != p.get_char(i) {
                    assert(p@ != root@);
                    assert(!(root@ + "/"@).is_prefix_of(p@));
                    assert(!root@.is_prefix_of(p@));
                    return false;
                }
                i = i + 1;
            }
            assert(p@ =~= root@);
            return true;
        }
        assert(!(root@ + "/"@).is_prefix_of(p@));
        assert(!root@.is_prefix_of(p@));
        return false;
    }
    let mut i: usize = 0;
    while i < n
        invariant
            n == root@.len(),
            m == p@.len(),
            n <= m,
            ends_with_slash == (n > 0 && root@.last() == '/'),
            !ends_with_slash ==> n < m,
            i <= n,
            forall|j: int| 0 <= j < i ==> root@[j] == p@[j],
        decreases n - i,
    {
        if root.get_char(i) != p.get_char(i) {
            assert((root@ + "/"@)[i as int] == root@[i as int]);
            return false;
        }
        i = i + 1;
    }
    if ends_with_slash {
        assert(root@.is_prefix_of(p@));
        true
    } else {
        let c = p.get_char(n);
        if c == '/' {
            assert((root@ + "/"@).is_prefix_of(p@)) by {
                assert forall|j: int| 0 <= j < (root@ + "/"@).len() implies (root@ + "/"@)[j] == p@[j] by {
                    if j < n {
                        assert(root@[j] == p@[j]);
                    }
                }
            }
            true
        } else {
            assert(p@ != root@);
            assert((root@ + "/"@)[n as int] == '/');
            false
        }
    }
}

/// Built-in code tools, confined to a workspace root.
pub struct CodeTools {
    config: CodeToolsConfig,
    workspace_root: String,
}

impl CodeTools {
    /// The canonical sandbox root.
    pub closed spec fn root(&self) -> Seq<char> {
        self.workspace_root@
    }

    /// The configuration the tools were built with.
    pub closed spec fn spec_config(&self) -> CodeToolsConfig {
        self.config
    }

    /// The configuration the tools were built with.
    pub fn config(&self) -> (r: &CodeToolsConfig)
        ensures
            *r == self.spec_config(),
    {
        &self.config
    }

    /// Create the tools for a configuration, canonicalising its workspace
    /// root with `canonicalize` (which gives the canonical path, or the
    /// text of the error that prevented it).
    ///
    /// # Errors
    ///
    /// - [`Error::ConfigValidationFailed`]: the configuration has no
    ///   workspace root, or the root cannot be canonicalised.
    pub fn new<F: Fn(&str) -> Result<String, String>>(config: CodeToolsConfig, canonicalize: F) -> (r: Result<
        CodeTools,
        Error,
    >)
        requires
            forall|p: &str| #[trigger] canonicalize.requires((p,)),
        ensures
            match config.workspace_root {
                None => r matches Err(Error::ConfigValidationFailed { reason })
                    && reason@ == "code_tools.workspace_root is required"@,
                Some(raw) => match r {
                    Ok(t) => exists|x: &str, out: Result<String, String>|
                        {
                            &&& #[trigger] canonicalize.ensures((x,), out)
                            &&& x@ == raw@
                            &&& out matches Ok(c) && t.root() == c@
                            &&& t.spec_config() == config
                        },
                    Err(e) => exists|x: &str, out: Result<String, String>|
                        {
                            &&& #[trigger] canonicalize.ensures((x,), out)
                            &&& x@ == raw@
                            &&& out matches Err(m)
                            &&& e matches Error::ConfigValidationFailed { reason }
                            &&& reason@ == "code_tools.workspace_root '"@ + raw@ + "' is not a valid directory: "@ + m@
                        },
                },
            },
    {
        let raw = match &config.workspace_root {
            None => {
                return Err(Error::ConfigValidationFailed {
                    reason: String::from_str("code_tools.workspace_root is required"),
                });
            },
            Some(raw) => raw.clone(),
        };
        match canonicalize(raw.as_str()) {
            Ok(root) => Ok(CodeTools { config, workspace_root: root }),
            Err(m) => {
                let mut s = String::from_str("code_tools.workspace_root '");
                s.append(raw.as_str());
                s.append("' is not a valid directory: ");
                s.append(m.as_str());
                Err(Error::ConfigValidationFailed { reason: s })
            },
        }
    }
    /// The path a caller-supplied path names before symlinks are resolved:
    /// an absolute path as it is, a relative one joined onto the root.
    pub open spec fn candidate(&self, raw: Seq<char>) -> Seq<char> {
        if raw.len() > 0 && raw[0] == '/' {
            raw
        } else {
            path_join(self.root(), raw)
        }
    }

    /// Resolve a caller-supplied path against the workspace sandbox:
    /// canonicalise the candidate path with `canonicalize` (resolving
    /// symlinks) and accept it only if it lies inside the root.
    ///
    /// # Errors
    ///
    /// - [`Error::ToolInvocationFailed`]: the path cannot be canonicalised,
    ///   or it resolves outside the root.
    pub fn resolve_safe_path<F: Fn(&str) -> Result<String, String>>(
        &self,
        tool_name: &str,
        raw: &str,
        canonicalize: F,
    ) -> (r: Result<String, Error>)
        requires
            forall|p: &str| #[trigger] canonicalize.requires((p,)),
        ensures
            exists|x: &str, out: Result<String, String>|
                {
                    &&& #[trigger] canonicalize.ensures((x,), out)
                    &&& x@ == self.candidate(raw@)
                    &&& match out {
                        Err(m) => r matches Err(Error::ToolInvocationFailed { name, reason })
                            && name@ == tool_name@
                            && reason@ == "path '"@ + raw@ + "' could not be resolved: "@ + m@,
                        Ok(c) => if is_within(self.root(), c@) {
                            r matches Ok(p) && p@ == c@
                        } else {
                            r matches Err(Error::ToolInvocationFailed { name, reason })
                                && name@ == tool_name@
                                && reason@ == "path '"@ + raw@ + "' resolves outside the workspace sandbox '"@
                                    + self.root() + "'"@
                        },
                    }
                },
    {
        let absolute = raw.unicode_len() > 0 && raw.get_char(0) == '/';
        let candidate = if absolute {
            raw.to_owned()
        } else {
            join_path(self.workspace_root.as_str(), raw)
        };
        let out = canonicalize(candidate.as_str());
        match out {
            Err(m) => {
                let mut s = String::from_str("path '");
                s.append(raw);
                s.append("' could not be resolved: ");
                s.append(m.as_str());
                Err(Error::ToolInvocationFailed { name: tool_name.to_owned(), reason: s })
            },
            Ok(c) => {
                if path_within(self.workspace_root.as_str(), c.as_str()) {
                    Ok(c)
                } else {
                    let mut s = String::from_str("path '");
                    s.append(raw);
                    s.append("' resolves outside the workspace sandbox '");
                    s.append(self.workspace_root.as_str());
                    s.append("'");
                    Err(Error::ToolInvocationFailed { name: tool_name.to_owned(), reason: s })
                }
            },
        }
    }
}

/// The code tools a dispatch can route to.
#[derive(Clone, Copy, Debug, PartialEq, Eq, Structural)]
pub enum CodeToolKind {
    /// `code.scan_repo`
    ScanRepo,
    /// `code.read_file`
    ReadFile,
    /// `code.parse_file`
    ParseFile,
}

/// Where a dispatch of tool `name` goes, given the `path` argument found
/// in its input (if any): a missing path is refused first, then an unknown
/// tool name.
pub fn route_code_tool(name: &str, path: Option<&str>) -> (r: Result<CodeToolKind, Error>)
    ensures
        path is None ==> (r matches Err(Error::ToolInvocationFailed { name: n, reason })
            && n@ == name@ && reason@ == "missing required 'path' parameter"@),
        path is Some ==> match r {
            Ok(k) => (k == CodeToolKind::ScanRepo && name@ == "code.scan_repo"@)
                || (k == CodeToolKind::ReadFile && name@ == "code.read_file"@)
                || (k == CodeToolKind::ParseFile && name@ == "code.parse_file"@),
            Err(e) => e matches Error::ToolNotFound { name: n } && n@ == name@
                && name@ != "code.scan_repo"@ && name@ != "code.read_file"@ && name@ != "code.parse_file"@,
        },
{
    if path.is_none() {
        return Err(Error::ToolInvocationFailed {
            name: name.to_owned(),
            reason: String::from_str("missing required 'path' parameter"),
        });
    }
    let n = name.to_owned();
    if n == String::from_str("code.scan_repo") {
        Ok(CodeToolKind::ScanRepo)
    } else if n == String::from_str("code.read_file") {
        Ok(CodeToolKind::ReadFile)
    } else if n == String::from_str("code.parse_file") {
        Ok(CodeToolKind::ParseFile)
    } else {
        Err(Error::ToolNotFound { name: n })
    }
}

} // verus!
