//! A registry of files to embed in a program: a base directory, and the
//! files to embed, each filed under its path relative to the base.
use vstd::prelude::*;

verus! {

/// This machine's separator of path components. Only
/// `this_machine_separator` makes one, so every value holds the separator of
/// the machine the program runs on.
pub struct PathSeparator {
    c: char,
}

impl PathSeparator {
    /// Whether the separator is a backslash: paths are read the Windows way.
    pub closed spec fn backslash(&self) -> bool {
        self.c == '\\'
    }

    /// Whether the separator is a backslash.
    pub fn is_backslash(&self) -> (b: bool)
        ensures
            b == self.backslash(),
    {
        self.c == '\\'
    }
}

/// The separator of path components on this machine: reads the standard
/// library's `std::path::MAIN_SEPARATOR` (`/` on Unix, `\\` on Windows).
/// Nothing is stated of it: it depends on the machine.
#[verifier::external_body]
fn this_machine_separator() -> (s: PathSeparator) {
    PathSeparator { c: std::path::MAIN_SEPARATOR }
}

/// The path `path` relative to the directory `base`, component by
/// component, as the standard library's path prefix stripping gives it on
/// a machine that reads paths the Windows way (`backslashed`) or the Unix
/// way; `None` when `base` is not a leading part of `path`.
pub uninterp spec fn path_relative_to(path: Seq<char>, base: Seq<char>, backslashed: bool) -> Option<Seq<char>>;

/// Strip the leading directory `base` off `path`: calls the standard
/// library's `Path::strip_prefix` and renders the remainder as a string.
/// The result is tied to `path_relative_to` of the two paths and of the way
/// this machine reads paths, which `sep` holds (it can only be this
/// machine's separator); how components are compared is left to the
/// standard library.
#[verifier::external_body]
fn strip_base(path: &str, base: &str, sep: &PathSeparator) -> (r: Option<String>)
    ensures
        match r {
            Some(s) => path_relative_to(path@, base@, sep.backslash()) == Some(s@),
            None => path_relative_to(path@, base@, sep.backslash()) is None,
        },
{
    let _ = sep;
    std::path::Path::new(path).strip_prefix(base).ok().map(|p| p.to_string_lossy().into_owned())
}

/// A path with each backslash turned into a slash: calls the standard
/// library's `str::replace`, whose result, for a one-character pattern and
/// a one-character replacement, is the input with each occurrence of the
/// pattern replaced.
#[verifier::external_body]
fn replace_backslashes(path: &str) -> (r: String)
    ensures
        r@ == path@.map_values(|c: char| if c == '\\' { '/' } else { c }),
{
    path.replace("\\", "/")
}

/// The gzip stream, at the fastest compression level, of `data`.
pub uninterp spec fn gzip_fast(data: Seq<u8>) -> Seq<u8>;

/// Compress `data` into a gzip stream at the fastest level: calls
/// `flate2::write::GzEncoder` over a vector with `Compression::fast()`, writes
/// `data` and finishes. The stream is a function of `data` alone (no time
/// stamp, a fixed system byte), and begins with the gzip magic bytes
/// `0x1f 0x8b` and the deflate method byte 8, as flate2 writes its header;
/// writing to a vector does not fail. The compressed body is not described.
#[verifier::external_body]
fn gzip_fast_bytes(data: &[u8]) -> (out: Vec<u8>)
    ensures
        out@ == gzip_fast(data@),
        out@.len() >= 10,
        out@[0] == 0x1f,
        out@[1] == 0x8b,
        out@[2] == 8,
{
    let mut e = flate2::write::GzEncoder::new(Vec::new(), flate2::Compression::fast());
    std::io::Write::write_all(&mut e, data).unwrap();
    e.finish().unwrap()
}

/// The key of a file at relative path `rel`: the path itself where paths
/// use slashes, the path with slashes for backslashes where they use
/// backslashes.
pub open spec fn key_of(rel: Seq<char>, backslashed: bool) -> Seq<char> {
    if backslashed {
        rel.map_values(|c: char| if c == '\\' { '/' } else { c })
    } else {
        rel
    }
}

/// The key a file is filed under, from its relative path, where paths use
/// slashes: the path itself.
pub fn as_key(path: &str) -> (key: String)
    ensures
        key@ == path@,
{
    path.to_owned()
}

/// The key a file is filed under, from its relative path, where paths use
/// backslashes: the path with slashes in place of backslashes.
pub fn as_key_backslashed(path: &str) -> (key: String)
    ensures
        key@ == path@.map_values(|c: char| if c == '\\' { '/' } else { c }),
{
    replace_backslashes(path)
}

/// The files to embed, the base directory, the name of the embedded
/// collection, and whether files are read at run time (passthrough) or
/// compressed when embedded.
pub struct IncludeDir {
    files: Vec<(String, String)>,
    base: String,
    name: String,
    passthrough: bool,
    compress: bool,
    sep: PathSeparator,
}

/// No two entries share a key.
pub open spec fn keys_unique(s: Seq<(String, String)>) -> bool {
    forall|i: int, j: int| 0 <= i < s.len() && 0 <= j < s.len() && i != j ==> s[i].0@ != s[j].0@
}

/// The entries as a map from key to path.
pub open spec fn entries_map(s: Seq<(String, String)>) -> Map<Seq<char>, Seq<char>> {
    Map::new(
        |k: Seq<char>| exists|i: int| 0 <= i < s.len() && s[i].0@ == k,
        |k: Seq<char>| s[choose|i: int| 0 <= i < s.len() && s[i].0@ == k].1@,
    )
}

/// Start a registry of files under `base_path`: no file, no name, neither
/// passthrough nor compression. Keys follow this machine's path separator.
pub fn start(base_path: &str) -> (d: IncludeDir)
    ensures
        d.wf(),
        d.files() == Map::<Seq<char>, Seq<char>>::empty(),
        d.base_path() == base_path@,
        d.collection_name() == Seq::<char>::empty(),
        !d.is_passthrough(),
        !d.is_compressed(),
{
    let d = IncludeDir {
        files: Vec::new(),
        name: String::new(),
        base: base_path.to_owned(),
        passthrough: false,
        compress: false,
        sep: this_machine_separator(),
    };
    assert(entries_map(d.files@) =~= Map::<Seq<char>, Seq<char>>::empty());
    d
}

impl IncludeDir {
    /// No two files share a key.
    pub closed spec fn wf(&self) -> bool {
        keys_unique(self.files@)
    }

    /// The files, from key to path.
    pub closed spec fn files(&self) -> Map<Seq<char>, Seq<char>> {
        entries_map(self.files@)
    }

    /// The base directory.
    pub closed spec fn base_path(&self) -> Seq<char> {
        self.base@
    }

    /// The name of the embedded collection.
    pub closed spec fn collection_name(&self) -> Seq<char> {
        self.name@
    }

    /// Whether files are read at run time rather than embedded.
    pub closed spec fn is_passthrough(&self) -> bool {
        self.passthrough
    }

    /// Whether embedded files are compressed.
    pub closed spec fn is_compressed(&self) -> bool {
        self.compress
    }

    /// Whether paths on this machine separate components by backslashes,
    /// which keys turn into slashes.
    pub closed spec fn uses_backslashes(&self) -> bool {
        self.sep.backslash()
    }

    /// Name the embedded collection.
    pub fn name(&mut self, name: &str) -> (r: &mut IncludeDir)
        ensures
            r.collection_name() == name@,
            r.files() == old(self).files(),
            r.wf() == old(self).wf(),
            r.base_path() == old(self).base_path(),
            r.is_passthrough() == old(self).is_passthrough(),
            r.is_compressed() == old(self).is_compressed(),
            r.uses_backslashes() == old(self).uses_backslashes(),
            *final(self) == *final(r),
    {
        self.name = name.to_owned();
        self
    }

    /// Choose whether files are read at run time rather than embedded.
    pub fn passthrough(&mut self, pass: bool) -> (r: &mut IncludeDir)
        ensures
            r.is_passthrough() == pass,
            r.files() == old(self).files(),
            r.wf() == old(self).wf(),
            r.base_path() == old(self).base_path(),
            r.collection_name() == old(self).collection_name(),
            r.is_compressed() == old(self).is_compressed(),
            r.uses_backslashes() == old(self).uses_backslashes(),
            *final(self) == *final(r),
    {
        self.passthrough = pass;
        self
    }

    /// Choose whether embedded files are compressed.
    pub fn compress(&mut self, compress: bool) -> (r: &mut IncludeDir)
        ensures
            r.is_compressed() == compress,
            r.files() == old(self).files(),
            r.wf() == old(self).wf(),
            r.base_path() == old(self).base_path(),
            r.collection_name() == old(self).collection_name(),
            r.is_passthrough() == old(self).is_passthrough(),
            r.uses_backslashes() == old(self).uses_backslashes(),
            *final(self) == *final(r),
    {
        self.compress = compress;
        self
    }

    /// The key `path` would be filed under: its path relative to the base,
    /// with slashes for backslashes where paths use backslashes, or `None`
    /// when it is not under the base.
    pub fn relative_key(&self, path: &str) -> (k: Option<String>)
        ensures
            match k {
                Some(k) => path_relative_to(path@, self.base_path(), self.uses_backslashes()) is Some && k@ == key_of(
                    path_relative_to(path@, self.base_path(), self.uses_backslashes())->0,
                    self.uses_backslashes(),
                ),
                None => path_relative_to(path@, self.base_path(), self.uses_backslashes()) is None,
            },
    {
        match strip_base(path, self.base.as_str(), &self.sep) {
            Some(rel) => if self.sep.is_backslash() {
                Some(as_key_backslashed(rel.as_str()))
            } else {
                Some(as_key(rel.as_str()))
            },
            None => None,
        }
    }

    /// Add one file under the base: it is filed under its key (see
    /// `relative_key`), replacing any file filed under the same key. The
    /// file must lie under the base (a file elsewhere is refused by a panic;
    /// `try_file` tests first); that the file exists is for the caller, who
    /// reads the file system, to check first.
    pub fn file(&mut self, path: &str) -> (r: &mut IncludeDir)
        requires
            old(self).wf(),
            path_relative_to(path@, old(self).base_path(), old(self).uses_backslashes()) is Some,
        ensures
            r.wf(),
            r.files() == old(self).files().insert(key_of(path_relative_to(path@, old(self).base_path(), old(self).uses_backslashes())->0, old(self).uses_backslashes()), path@),
            r.base_path() == old(self).base_path(),
            r.collection_name() == old(self).collection_name(),
            r.is_passthrough() == old(self).is_passthrough(),
            r.is_compressed() == old(self).is_compressed(),
            r.uses_backslashes() == old(self).uses_backslashes(),
            *final(self) == *final(r),
    {
        let key = match self.relative_key(path) {
            Some(k) => k,
            None => {
                return self;
            },
        };
        let value = path.to_owned();
        let ghost old_files = self.files@;
        let mut i: usize = 0;
        let mut found = false;
        while i < self.files.len()
            invariant_except_break
                !found,
            invariant
                i <= self.files@.len(),
                self.files@ == old_files,
                forall|j: int| 0 <= j < i ==> self.files@[j].0@ != key@,
            ensures
                i <= self.files@.len(),
                self.files@ == old_files,
                forall|j: int| 0 <= j < i ==> self.files@[j].0@ != key@,
                found ==> i < self.files@.len() && self.files@[i as int].0@ == key@,
                !found ==> i == self.files@.len(),
            decreases self.files@.len() - i,
        {
            if self.files[i].0 == key {
                found = true;
                break;
            }
            i = i + 1;
        }
        if found {
            assert(old_files[i as int].0@ == key@);
            self.files.set(i, (key, value));
            proof {
                let new_files = self.files@;
                assert forall|a: int, b: int| 0 <= a < new_files.len() && 0 <= b < new_files.len() && a != b
                    implies new_files[a].0@ != new_files[b].0@ by {
                    assert(new_files[a].0@ == old_files[a].0@);
                    assert(new_files[b].0@ == old_files[b].0@);
                }
                let k = key_of(path_relative_to(path@, old(self).base_path(), old(self).uses_backslashes())->0, old(self).uses_backslashes());
                assert forall|kk: Seq<char>| #![auto] entries_map(new_files).contains_key(kk) == entries_map(old_files).insert(k, path@).contains_key(kk) by {
                    if kk == k {
                        assert(new_files[i as int].0@ == kk);
                    } else if entries_map(old_files).contains_key(kk) {
                        let w = choose|w: int| 0 <= w < old_files.len() && old_files[w].0@ == kk;
                        assert(new_files[w].0@ == kk);
                    } else if entries_map(new_files).contains_key(kk) {
                        let w = choose|w: int| 0 <= w < new_files.len() && new_files[w].0@ == kk;
                        assert(old_files[w].0@ == kk);
                    }
                }
                assert forall|kk: Seq<char>| #[trigger] entries_map(new_files).contains_key(kk) implies entries_map(new_files)[kk] == entries_map(old_files).insert(k, path@)[kk] by {
                    let w = choose|w: int| 0 <= w < new_files.len() && new_files[w].0@ == kk;
                    if kk == k {
                        assert(w == i);
                    } else {
                        let w2 = choose|w2: int| 0 <= w2 < old_files.len() && old_files[w2].0@ == kk;
                        assert(new_files[w2].0@ == kk);
                        assert(w == w2);
                    }
                }
                assert(entries_map(new_files) =~= entries_map(old_files).insert(k, path@));
            }
        } else {
            self.files.push((key, value));
            proof {
                let new_files = self.files@;
                let n = old_files.len();
                let k = key_of(path_relative_to(path@, old(self).base_path(), old(self).uses_backslashes())->0, old(self).uses_backslashes());
                assert forall|kk: Seq<char>| #![auto] entries_map(new_files).contains_key(kk) == entries_map(old_files).insert(k, path@).contains_key(kk) by {
                    if kk == k {
                        assert(new_files[n as int].0@ == kk);
                    } else if entries_map(old_files).contains_key(kk) {
                        let w = choose|w: int| 0 <= w < old_files.len() && old_files[w].0@ == kk;
                        assert(new_files[w].0@ == kk);
                    } else if entries_map(new_files).contains_key(kk) {
                        let w = choose|w: int| 0 <= w < new_files.len() && new_files[w].0@ == kk;
                        assert(old_files[w].0@ == kk);
                    }
                }
                assert forall|kk: Seq<char>| #[trigger] entries_map(new_files).contains_key(kk) implies entries_map(new_files)[kk] == entries_map(old_files).insert(k, path@)[kk] by {
                    let w = choose|w: int| 0 <= w < new_files.len() && new_files[w].0@ == kk;
                    if kk == k {
                        assert(w == n);
                    } else {
                        let w2 = choose|w2: int| 0 <= w2 < old_files.len() && old_files[w2].0@ == kk;
                        assert(new_files[w2].0@ == kk);
                        assert(w == w2);
                    }
                }
                assert(entries_map(new_files) =~= entries_map(old_files).insert(k, path@));
            }
        }
        self
    }

    /// Add one file if it lies under the base (as `file` does) and say so;
    /// a file elsewhere leaves the registry unchanged.
    pub fn try_file(&mut self, path: &str) -> (added: bool)
        requires
            old(self).wf(),
        ensures
            final(self).wf(),
            added == path_relative_to(path@, old(self).base_path(), old(self).uses_backslashes()) is Some,
            added ==> final(self).files() == old(self).files().insert(
                key_of(path_relative_to(path@, old(self).base_path(), old(self).uses_backslashes())->0, old(self).uses_backslashes()),
                path@,
            ),
            !added ==> final(self).files() == old(self).files(),
            final(self).base_path() == old(self).base_path(),
            final(self).collection_name() == old(self).collection_name(),
            final(self).is_passthrough() == old(self).is_passthrough(),
            final(self).is_compressed() == old(self).is_compressed(),
            final(self).uses_backslashes() == old(self).uses_backslashes(),
    {
        match self.relative_key(path) {
            Some(_) => {
                self.file(path);
                true
            },
            None => false,
        }
    }

    /// The bytes embedded for a file whose contents are `data`: their gzip
    /// stream when the registry compresses, the contents themselves otherwise.
    pub fn embedded_bytes(&self, data: &[u8]) -> (out: Vec<u8>)
        ensures
            self.is_compressed() ==> out@ == gzip_fast(data@),
            !self.is_compressed() ==> out@ == data@,
    {
        if self.compress {
            gzip_fast_bytes(data)
        } else {
            let mut out: Vec<u8> = Vec::new();
            let mut i: usize = 0;
            while i < data.len()
                invariant
                    i <= data@.len(),
                    out@ == data@.subrange(0, i as int),
                decreases data@.len() - i,
            {
                out.push(data[i]);
                i = i + 1;
                assert(out@ =~= data@.subrange(0, i as int));
            }
            assert(data@.subrange(0, data@.len() as int) =~= data@);
            out
        }
    }

    /// The files, as (key, path) pairs, each key once.
    pub fn entries(&self) -> (v: Vec<(String, String)>)
        requires
            self.wf(),
        ensures
            keys_unique(v@),
            entries_map(v@) == self.files(),
    {
        let mut v: Vec<(String, String)> = Vec::new();
        let mut i: usize = 0;
        while i < self.files.len()
            invariant
                i <= self.files@.len(),
                v@ == self.files@.subrange(0, i as int),
            decreases self.files@.len() - i,
        {
            let k = self.files[i].0.clone();
            let p = self.files[i].1.clone();
            v.push((k, p));
            i = i + 1;
            assert(v@ =~= self.files@.subrange(0, i as int));
        }
        assert(v@ =~= self.files@);
        v
    }

    /// The base directory.
    pub fn base(&self) -> (b: &str)
        ensures
            b@ == self.base_path(),
    {
        self.base.as_str()
    }

    /// The name of the embedded collection.
    pub fn collection(&self) -> (n: &str)
        ensures
            n@ == self.collection_name(),
    {
        self.name.as_str()
    }

    /// Whether files are read at run time rather than embedded.
    pub fn reads_at_run_time(&self) -> (b: bool)
        ensures
            b == self.is_passthrough(),
    {
        self.passthrough
    }

    /// Whether embedded files are compressed.
    pub fn compresses(&self) -> (b: bool)
        ensures
            b == self.is_compressed(),
    {
        self.compress
    }
}

/// A file added to the registry is listed, under its relative key, with
/// the path it was added from: the lookup generated from the listing finds
/// it under that key.
pub proof fn law_added_file_is_listed(
    before: Map<Seq<char>, Seq<char>>,
    listed: Seq<(String, String)>,
    key: Seq<char>,
    path: Seq<char>,
)
    requires
        keys_unique(listed),
        entries_map(listed) == before.insert(key, path),
    ensures
        exists|i: int| 0 <= i < listed.len() && #[trigger] listed[i].0@ == key && listed[i].1@ == path,
{
    let m = entries_map(listed);
    assert(m.contains_key(key));
    assert(exists|j: int| 0 <= j < listed.len() && listed[j].0@ == key);
    let i = choose|i: int| 0 <= i < listed.len() && listed[i].0@ == key;
    assert(m[key] == listed[i].1@);
}

/// Keys use slashes: where this machine separates paths by backslashes, a
/// file's key is its relative path with every backslash turned into a
/// slash, so no key holds a backslash; elsewhere the key is the relative
/// path itself. Either way the key has the path's length and keeps every
/// character that is not a backslash.
pub proof fn law_keys_use_slashes(rel: Seq<char>, backslashed: bool)
    ensures
        key_of(rel, backslashed).len() == rel.len(),
        forall|i: int| 0 <= i < rel.len() && rel[i] != '\\' ==> #[trigger] key_of(rel, backslashed)[i] == rel[i],
        backslashed ==> !key_of(rel, backslashed).contains('\\'),
        backslashed ==> forall|i: int| 0 <= i < rel.len() && rel[i] == '\\' ==> #[trigger] key_of(rel, backslashed)[i] == '/',
        !backslashed ==> key_of(rel, backslashed) == rel,
{
    if backslashed {
        let k = key_of(rel, backslashed);
        assert forall|i: int| 0 <= i < k.len() implies k[i] != '\\' by {}
    }
}

} // verus!
