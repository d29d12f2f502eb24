//! Path rules of the gzip tools: the file name and extension of a path, and the
//! output name derived from an input name.
//!
//! Paths are `/`-separated text. As in `std::path`, separators repeat freely,
//! `.` segments after the first are ignored, a path ending in `..` has no file
//! name, and a leading dot does not start an extension.

use crate::gzip::config::OperationMode;
use crate::gzip::error::Error;
use crate::text::concat;
use vstd::prelude::*;

verus! {

/// The path without what follows its last component: trailing separators,
/// trailing `.` segments, and a lone `.`.
pub open spec fn spec_strip_tail(s: Seq<char>) -> Seq<char>
    decreases s.len(),
{
    if s.len() == 0 {
        s
    } else if s.last() == '/' {
        spec_strip_tail(s.drop_last())
    } else if s.len() == 1 && s[0] == '.' {
        Seq::<char>::empty()
    } else if s.len() >= 2 && s.last() == '.' && s[s.len() - 2] == '/' {
        spec_strip_tail(s.drop_last())
    } else {
        s
    }
}

/// The position just after the last separator of `t` (`0` when it has none).
pub open spec fn spec_name_start(t: Seq<char>) -> int
    decreases t.len(),
{
    if t.len() == 0 {
        0
    } else if t.last() == '/' {
        t.len() as int
    } else {
        spec_name_start(t.drop_last())
    }
}

/// The final component of a path, if it is a name (`Path::file_name`).
pub open spec fn spec_file_name(s: Seq<char>) -> Option<Seq<char>> {
    let t = spec_strip_tail(s);
    let name = t.subrange(spec_name_start(t), t.len() as int);
    if name.len() == 0 || name == seq!['.', '.'] {
        None
    } else {
        Some(name)
    }
}

/// The position of the last `.` of `name` (`-1` when it has none).
pub open spec fn spec_last_dot(name: Seq<char>) -> int
    decreases name.len(),
{
    if name.len() == 0 {
        -1
    } else if name.last() == '.' {
        name.len() - 1
    } else {
        spec_last_dot(name.drop_last())
    }
}

/// The extension of a path (`Path::extension`): what follows the last `.` of the
/// file name, unless that `.` opens the name.
pub open spec fn spec_extension(s: Seq<char>) -> Option<Seq<char>> {
    match spec_file_name(s) {
        None => None,
        Some(name) => {
            let d = spec_last_dot(name);
            if d <= 0 {
                None
            } else {
                Some(name.subrange(d + 1, name.len() as int))
            }
        },
    }
}

/// Whether a path's extension is `gz`, in any letter case.
pub open spec fn spec_has_gz_extension(s: Seq<char>) -> bool {
    match spec_extension(s) {
        Some(e) => e.len() == 2 && (e[0] == 'g' || e[0] == 'G') && (e[1] == 'z' || e[1] == 'Z'),
        None => false,
    }
}

/// Remove every repetition of `suffix` from the end of `s` (`str::trim_end_matches`).
pub open spec fn spec_trim_suffix(s: Seq<char>, suffix: Seq<char>) -> Seq<char>
    decreases s.len(),
{
    if suffix.len() > 0 && s.len() >= suffix.len() && s.subrange(
        s.len() - suffix.len(),
        s.len() as int,
    ) == suffix {
        spec_trim_suffix(s.subrange(0, s.len() - suffix.len()), suffix)
    } else {
        s
    }
}

/// The directory part before a file name, as `Path::parent` gives it: the text
/// before the name without trailing separators and `.` segments, keeping a root
/// `/` and a leading `.`.
pub open spec fn spec_trim_parent(s: Seq<char>) -> Seq<char>
    decreases s.len(),
{
    if s.len() > 1 && s.last() == '/' {
        spec_trim_parent(s.drop_last())
    } else if s.len() >= 2 && s.last() == '.' && s[s.len() - 2] == '/' {
        spec_trim_parent(s.drop_last())
    } else {
        s
    }
}

/// `parent` joined with `name` (`Path::join`), adding a separator when needed.
pub open spec fn spec_join(parent: Seq<char>, name: Seq<char>) -> Seq<char> {
    if parent.len() == 0 || parent.last() == '/' {
        parent + name
    } else {
        parent + seq!['/'] + name
    }
}

/// The output name for compressing `s`: `.gz` appended after the file name (a
/// file name that ends in `.` loses that dot); a path without a file name is
/// kept as it is.
pub open spec fn spec_compress_name(s: Seq<char>) -> Seq<char> {
    match spec_file_name(s) {
        None => s,
        Some(_) => {
            let t = spec_strip_tail(s);
            let base = if spec_extension(s) == Some(Seq::<char>::empty()) {
                t.drop_last()
            } else {
                t
            };
            base + seq!['.', 'g', 'z']
        },
    }
}

/// The file name with its gzip suffixes removed (`.gz`, `.GZ`, `.gzip`, `.GZIP`,
/// each repeated, in that order); the whole name when nothing would remain.
pub open spec fn spec_decompressed_stem(name: Seq<char>) -> Seq<char> {
    let a = spec_trim_suffix(name, seq!['.', 'g', 'z']);
    let b = spec_trim_suffix(a, seq!['.', 'G', 'Z']);
    let c = spec_trim_suffix(b, seq!['.', 'g', 'z', 'i', 'p']);
    let d = spec_trim_suffix(c, seq!['.', 'G', 'Z', 'I', 'P']);
    if d.len() == 0 {
        name
    } else {
        d
    }
}

/// The output name for decompressing `s` (which has a file name): the stem of
/// the file name in the same directory.
pub open spec fn spec_decompress_name(s: Seq<char>) -> Seq<char> {
    let t = spec_strip_tail(s);
    let k = spec_name_start(t);
    let name = t.subrange(k, t.len() as int);
    spec_join(spec_trim_parent(t.subrange(0, k)), spec_decompressed_stem(name))
}

/// What `generate_output_filename` gives for a path and a mode.
pub open spec fn spec_output_name(s: Seq<char>, mode: OperationMode) -> core::result::Result<
    Seq<char>,
    (),
> {
    match mode {
        OperationMode::Compress => Ok(spec_compress_name(s)),
        OperationMode::Test => Ok(Seq::<char>::empty()),
        _ => if !spec_has_gz_extension(s) {
            Err(())
        } else {
            Ok(spec_decompress_name(s))
        },
    }
}

proof fn lemma_subrange_drop_last(s: Seq<char>, e: int)
    requires
        0 < e <= s.len(),
    ensures
        s.subrange(0, e).drop_last() == s.subrange(0, e - 1),
        s.subrange(0, e).last() == s[e - 1],
{
    assert(s.subrange(0, e).drop_last() =~= s.subrange(0, e - 1));
}

/// The length of the path once what follows its last component is dropped.
fn strip_tail_len(s: &str) -> (e: usize)
    ensures
        e <= s@.len(),
        spec_strip_tail(s@) == s@.subrange(0, e as int),
{
    let n = s.unicode_len();
    let mut e: usize = n;
    proof {
        assert(s@.subrange(0, n as int) =~= s@);
    }
    loop
        invariant
            e <= n,
            n == s@.len(),
            spec_strip_tail(s@) == spec_strip_tail(s@.subrange(0, e as int)),
        decreases e,
    {
        let ghost cur = s@.subrange(0, e as int);
        if e == 0 {
            return e;
        }
        proof {
            lemma_subrange_drop_last(s@, e as int);
        }
        let last = s.get_char(e - 1);
        if last == '/' {
            e = e - 1;
        } else if e == 1 && last == '.' {
            proof {
                assert(spec_strip_tail(cur) == Seq::<char>::empty());
                assert(s@.subrange(0, 0) =~= Seq::<char>::empty());
            }
            return 0;
        } else if e >= 2 && last == '.' && s.get_char(e - 2) == '/' {
            e = e - 1;
        } else {
            return e;
        }
    }
}

/// The position just after the last separator before `e`.
fn name_start(s: &str, e: usize) -> (k: usize)
    requires
        e <= s@.len(),
    ensures
        k <= e,
        k == spec_name_start(s@.subrange(0, e as int)),
{
    let mut k: usize = e;
    loop
        invariant
            k <= e,
            e <= s@.len(),
            spec_name_start(s@.subrange(0, e as int)) == spec_name_start(s@.subrange(0, k as int)),
            forall|j: int| k <= j < e ==> s@[j] != '/',
        decreases k,
    {
        if k == 0 {
            return 0;
        }
        proof {
            lemma_subrange_drop_last(s@, k as int);
        }
        if s.get_char(k - 1) == '/' {
            return k;
        }
        k = k - 1;
    }
}

/// Where the file name of a path lies: `Some((k, e))` when it is the text
/// between positions `k` and `e`.
pub fn file_name_range(s: &str) -> (r: Option<(usize, usize)>)
    ensures
        r matches Some((k, e)) ==> k <= e <= s@.len() && spec_file_name(s@) == Some(
            s@.subrange(k as int, e as int),
        ) && spec_strip_tail(s@) == s@.subrange(0, e as int) && k == spec_name_start(
            spec_strip_tail(s@),
        ),
        r is None <==> spec_file_name(s@) is None,
{
    let e = strip_tail_len(s);
    let k = name_start(s, e);
    proof {
        let t = s@.subrange(0, e as int);
        assert(t.subrange(k as int, e as int) =~= s@.subrange(k as int, e as int));
    }
    if k == e {
        return None;
    }
    if e - k == 2 && s.get_char(k) == '.' && s.get_char(k + 1) == '.' {
        proof {
            assert(s@.subrange(k as int, e as int) =~= seq!['.', '.']);
        }
        return None;
    }
    proof {
        let name = s@.subrange(k as int, e as int);
        if name == seq!['.', '.'] {
            assert(name[0] == s@[k as int]);
            assert(name[1] == s@[k + 1]);
        }
    }
    Some((k, e))
}

/// The position of the last `.` between `k` and `e`, relative to `k`.
fn last_dot(s: &str, k: usize, e: usize) -> (d: Option<usize>)
    requires
        k <= e <= s@.len(),
    ensures
        d matches Some(i) ==> i < e - k && spec_last_dot(s@.subrange(k as int, e as int)) == i,
        d is None ==> spec_last_dot(s@.subrange(k as int, e as int)) == -1,
{
    let mut j: usize = e;
    loop
        invariant
            k <= j <= e,
            e <= s@.len(),
            spec_last_dot(s@.subrange(k as int, e as int)) == spec_last_dot(
                s@.subrange(k as int, j as int),
            ),
        decreases j,
    {
        if j == k {
            return None;
        }
        proof {
            let cur = s@.subrange(k as int, j as int);
            assert(cur.drop_last() =~= s@.subrange(k as int, j - 1));
            assert(cur.last() == s@[j - 1]);
        }
        if s.get_char(j - 1) == '.' {
            return Some(j - 1 - k);
        }
        j = j - 1;
    }
}

/// Checks if a file path has a gzip extension (`gz` in any letter case).
pub fn has_compression_extension(path: &str) -> (b: bool)
    ensures
        b == spec_has_gz_extension(path@),
{
    match file_name_range(path) {
        None => false,
        Some((k, e)) => match last_dot(path, k, e) {
            None => false,
            Some(d) => {
                if d == 0 {
                    return false;
                }
                let start = k + d + 1;
                proof {
                    let name = path@.subrange(k as int, e as int);
                    let ext = name.subrange(d + 1, name.len() as int);
                    assert(ext =~= path@.subrange(start as int, e as int));
                }
                if e - start != 2 {
                    return false;
                }
                let c0 = path.get_char(start);
                let c1 = path.get_char(start + 1);
                (c0 == 'g' || c0 == 'G') && (c1 == 'z' || c1 == 'Z')
            },
        },
    }
}

/// The length of `s[..e]` once every repetition of `suffix` is removed from its end.
fn trim_suffix_len(s: &str, e: usize, suffix: &str) -> (r: usize)
    requires
        e <= s@.len(),
        suffix@.len() > 0,
    ensures
        r <= e,
        spec_trim_suffix(s@.subrange(0, e as int), suffix@) == s@.subrange(0, r as int),
{
    let m = suffix.unicode_len();
    let mut r: usize = e;
    loop
        invariant
            r <= e,
            e <= s@.len(),
            m == suffix@.len(),
            m > 0,
            spec_trim_suffix(s@.subrange(0, e as int), suffix@) == spec_trim_suffix(
                s@.subrange(0, r as int),
                suffix@,
            ),
        decreases r,
    {
        let ghost cur = s@.subrange(0, r as int);
        if r < m {
            return r;
        }
        let mut i: usize = 0;
        let mut same = true;
        while i < m
            invariant
                i <= m,
                m <= r,
                r <= s@.len(),
                m == suffix@.len(),
                same ==> forall|j: int| 0 <= j < i ==> s@[r - m + j] == suffix@[j],
                !same ==> exists|j: int| 0 <= j < m && s@[r - m + j] != suffix@[j],
            decreases m - i,
        {
            if s.get_char(r - m + i) != suffix.get_char(i) {
                same = false;
            }
            i = i + 1;
        }
        proof {
            let tail = cur.subrange(r - m, r as int);
            if same {
                assert(tail =~= suffix@);
            } else {
                let j = choose|j: int| 0 <= j < m && s@[r - m + j] != suffix@[j];
                assert(tail[j] == s@[r - m + j]);
            }
        }
        if !same {
            return r;
        }
        proof {
            assert(cur.subrange(0, r - m) =~= s@.subrange(0, r - m));
        }
        r = r - m;
    }
}

/// The length of the directory part of `s[..k]`, as `Path::parent` keeps it.
fn trim_parent_len(s: &str, k: usize) -> (r: usize)
    requires
        k <= s@.len(),
    ensures
        r <= k,
        spec_trim_parent(s@.subrange(0, k as int)) == s@.subrange(0, r as int),
{
    let mut r: usize = k;
    loop
        invariant
            r <= k,
            k <= s@.len(),
            spec_trim_parent(s@.subrange(0, k as int)) == spec_trim_parent(
                s@.subrange(0, r as int),
            ),
        decreases r,
    {
        if r == 0 {
            return r;
        }
        proof {
            lemma_subrange_drop_last(s@, r as int);
        }
        let last = s.get_char(r - 1);
        if r > 1 && last == '/' {
            r = r - 1;
        } else if r >= 2 && last == '.' && s.get_char(r - 2) == '/' {
            r = r - 1;
        } else {
            return r;
        }
    }
}

/// The output name for compressing `input`.
fn compress_name(input: &str) -> (out: String)
    ensures
        out@ == spec_compress_name(input@),
{
    match file_name_range(input) {
        None => String::from_str(input),
        Some((k, e)) => {
            let ghost name = input@.subrange(k as int, e as int);
            let dot = last_dot(input, k, e);
            let empty_ext = match dot {
                Some(d) => d > 0 && k + d + 1 == e,
                None => false,
            };
            proof {
                assert(spec_file_name(input@) == Some(name));
                if empty_ext {
                    let d = dot.unwrap();
                    assert(name.subrange(d + 1, name.len() as int) =~= Seq::<char>::empty());
                    assert(spec_extension(input@) == Some(Seq::<char>::empty()));
                } else {
                    match dot {
                        Some(d) => {
                            if d > 0 {
                                assert(name.subrange(d + 1, name.len() as int).len() > 0);
                            }
                        },
                        None => {},
                    }
                    assert(spec_extension(input@) != Some(Seq::<char>::empty()));
                }
            }
            let end = if empty_ext {
                e - 1
            } else {
                e
            };
            proof {
                if empty_ext {
                    lemma_subrange_drop_last(input@, e as int);
                }
            }
            let base = input.substring_char(0, end);
            proof {
                reveal_strlit(".gz");
                assert(".gz"@ =~= seq!['.', 'g', 'z']);
            }
            concat(base, ".gz")
        },
    }
}

/// The output name for decompressing `input`, whose file name lies between `k` and `e`.
fn decompress_name(input: &str, k: usize, e: usize) -> (out: String)
    requires
        k <= e <= input@.len(),
        spec_strip_tail(input@) == input@.subrange(0, e as int),
        k == spec_name_start(spec_strip_tail(input@)),
    ensures
        out@ == spec_decompress_name(input@),
{
    proof {
        reveal_strlit(".gz");
        reveal_strlit(".GZ");
        reveal_strlit(".gzip");
        reveal_strlit(".GZIP");
        reveal_strlit("/");
        assert(".gz"@ =~= seq!['.', 'g', 'z']);
        assert(".GZ"@ =~= seq!['.', 'G', 'Z']);
        assert(".gzip"@ =~= seq!['.', 'g', 'z', 'i', 'p']);
        assert(".GZIP"@ =~= seq!['.', 'G', 'Z', 'I', 'P']);
        assert("/"@ =~= seq!['/']);
    }
    let name = input.substring_char(k, e);
    proof {
        assert(name@.subrange(0, (e - k) as int) =~= name@);
    }
    let a = trim_suffix_len(name, e - k, ".gz");
    let b = trim_suffix_len(name, a, ".GZ");
    let c = trim_suffix_len(name, b, ".gzip");
    let d = trim_suffix_len(name, c, ".GZIP");
    let stem = if d == 0 {
        name
    } else {
        name.substring_char(0, d)
    };
    assert(stem@ == spec_decompressed_stem(name@));
    let p = trim_parent_len(input, k);
    proof {
        let t = input@.subrange(0, e as int);
        assert(t.subrange(0, k as int) =~= input@.subrange(0, k as int));
        assert(t.subrange(k as int, e as int) =~= name@);
    }
    let parent = input.substring_char(0, p);
    if p == 0 || parent.get_char(p - 1) == '/' {
        concat(parent, stem)
    } else {
        let with_sep = concat(parent, "/");
        concat(with_sep.as_str(), stem)
    }
}

/// Generates an output filename based on input path and operation mode.
///
/// Compressing appends `.gz` to the file name; decompressing and `cat` need a
/// `gz` extension and strip the gzip suffixes; testing needs no output name.
pub fn generate_output_filename(input: &str, mode: OperationMode) -> (r: core::result::Result<
    String,
    Error,
>)
    ensures
        r matches Ok(out) ==> spec_output_name(input@, mode) == Ok::<Seq<char>, ()>(out@),
        r matches Err(e) ==> (spec_output_name(input@, mode) is Err && (e matches Error::InvalidExtension {
            path,
        } && path@ == input@)),
        spec_output_name(input@, mode) is Err ==> r is Err,
{
    match mode {
        OperationMode::Compress => Ok(compress_name(input)),
        OperationMode::Test => Ok(String::new()),
        _ => {
            if !has_compression_extension(input) {
                return Err(Error::InvalidExtension { path: String::from_str(input) });
            }
            match file_name_range(input) {
                Some((k, e)) => Ok(decompress_name(input, k, e)),
                None => Err(Error::InvalidOutputFilename { path: String::from_str(input) }),
            }
        },
    }
}

/// Whether `s` ends with `suffix`.
pub open spec fn spec_ends_with(s: Seq<char>, suffix: Seq<char>) -> bool {
    s.len() >= suffix.len() && s.subrange(s.len() - suffix.len(), s.len() as int) == suffix
}

/// A plain file name: not empty, no separator, not ending in `.`, and without
/// any of the gzip suffixes that decompression strips.
pub open spec fn spec_is_plain_name(s: Seq<char>) -> bool {
    &&& s.len() > 0
    &&& forall|i: int| 0 <= i < s.len() ==> s[i] != '/'
    &&& s.last() != '.'
    &&& !spec_ends_with(s, seq!['.', 'g', 'z'])
    &&& !spec_ends_with(s, seq!['.', 'G', 'Z'])
    &&& !spec_ends_with(s, seq!['.', 'g', 'z', 'i', 'p'])
    &&& !spec_ends_with(s, seq!['.', 'G', 'Z', 'I', 'P'])
}

proof fn lemma_name_start_no_separator(t: Seq<char>)
    requires
        forall|i: int| 0 <= i < t.len() ==> t[i] != '/',
    ensures
        spec_name_start(t) == 0,
    decreases t.len(),
{
    if t.len() > 0 {
        lemma_name_start_no_separator(t.drop_last());
    }
}

proof fn lemma_last_dot_bounds(name: Seq<char>)
    ensures
        -1 <= spec_last_dot(name) < name.len(),
        spec_last_dot(name) >= 0 ==> name[spec_last_dot(name)] == '.',
    decreases name.len(),
{
    if name.len() > 0 && name.last() != '.' {
        lemma_last_dot_bounds(name.drop_last());
    }
}

proof fn lemma_trim_suffix_absent(s: Seq<char>, suffix: Seq<char>)
    requires
        !spec_ends_with(s, suffix),
    ensures
        spec_trim_suffix(s, suffix) == s,
{
}

/// A plain directory part: empty, the root `/`, or a directory written with a
/// single trailing separator and not ending in a `.` segment (`dir/`, `a/b/`,
/// `./`, `../`, `/abs/`).
pub open spec fn spec_is_plain_dir(d: Seq<char>) -> bool {
    ||| d.len() == 0
    ||| d == seq!['/']
    ||| {
        let e = d.drop_last();
        &&& d.len() >= 2
        &&& d.last() == '/'
        &&& e.last() != '/'
        &&& !(e.len() >= 2 && e.last() == '.' && e[e.len() - 2] == '/')
    }
}

/// Decompressing the name that compressing a path gives yields that path
/// again, in `gunzip` and in `zcat` alike, for a plain file name in a plain
/// directory.
#[verifier::spinoff_prover]
pub proof fn lemma_compressed_name_decompresses_back(
    dir: Seq<char>,
    name: Seq<char>,
    mode: OperationMode,
)
    requires
        spec_is_plain_dir(dir),
        spec_is_plain_name(name),
        mode == OperationMode::Decompress || mode == OperationMode::Cat,
    ensures
        spec_output_name(spec_compress_name(dir + name), mode) == Ok::<Seq<char>, ()>(dir + name),
{
    let s = dir + name;
    let k = dir.len() as int;
    // The last component of `s` is `name`, starting right after `dir`.
    assert(s.last() == name.last());
    assert(spec_strip_tail(s) == s);
    assert forall|i: int| k <= i < s.len() implies s[i] != '/' by {
        assert(s[i] == name[i - k]);
    }
    if k > 0 {
        assert(s[k - 1] == dir.last());
    }
    lemma_name_start_unique(s, k);
    assert(s.subrange(k, s.len() as int) =~= name);
    assert(name != seq!['.', '.']) by {
        assert(name.last() != '.');
    }
    assert(spec_file_name(s) == Some(name));
    assert(spec_extension(s) != Some(Seq::<char>::empty())) by {
        lemma_last_dot_bounds(name);
        let d = spec_last_dot(name);
        if d > 0 {
            assert(d != name.len() - 1);
            assert(name.subrange(d + 1, name.len() as int).len() > 0);
        }
    }
    let c = s + seq!['.', 'g', 'z'];
    assert(spec_compress_name(s) == c);
    // The compressed name is `dir` followed by `name.gz`.
    let cn = name + seq!['.', 'g', 'z'];
    assert(c =~= dir + cn);
    assert(c.last() == 'z');
    assert(spec_strip_tail(c) == c);
    assert forall|i: int| k <= i < c.len() implies c[i] != '/' by {
        if i < s.len() {
            assert(c[i] == s[i]);
        }
    }
    if k > 0 {
        assert(c[k - 1] == dir.last());
    }
    lemma_name_start_unique(c, k);
    assert(c.subrange(k, c.len() as int) =~= cn);
    lemma_last_dot_before_gz(name);
    assert(cn != seq!['.', '.']) by {
        assert(cn.last() == 'z');
    }
    assert(spec_file_name(c) == Some(cn));
    assert(cn.subrange(name.len() as int + 1, cn.len() as int) =~= seq!['g', 'z']);
    assert(spec_extension(c) == Some(seq!['g', 'z']));
    assert(spec_has_gz_extension(c));
    // The suffix comes off, and nothing more.
    assert(spec_ends_with(cn, seq!['.', 'g', 'z'])) by {
        assert(cn.subrange(cn.len() - 3, cn.len() as int) =~= seq!['.', 'g', 'z']);
    }
    assert(cn.subrange(0, cn.len() - 3) =~= name);
    lemma_trim_suffix_absent(name, seq!['.', 'g', 'z']);
    assert(spec_trim_suffix(cn, seq!['.', 'g', 'z']) == name);
    lemma_trim_suffix_absent(name, seq!['.', 'G', 'Z']);
    lemma_trim_suffix_absent(name, seq!['.', 'g', 'z', 'i', 'p']);
    lemma_trim_suffix_absent(name, seq!['.', 'G', 'Z', 'I', 'P']);
    assert(spec_decompressed_stem(cn) == name);
    // The directory part comes back as it was.
    assert(c.subrange(0, k) =~= dir);
    if dir.len() == 0 {
        assert(spec_join(spec_trim_parent(dir), name) =~= s);
    } else if dir == seq!['/'] {
        assert(spec_trim_parent(dir) == dir);
        assert(spec_join(dir, name) =~= s);
    } else {
        let e = dir.drop_last();
        assert(spec_trim_parent(e) == e);
        assert(spec_trim_parent(dir) == e);
        assert(e + seq!['/'] =~= dir);
        assert(spec_join(e, name) =~= s);
    }
}

proof fn lemma_name_start_props(t: Seq<char>)
    ensures
        0 <= spec_name_start(t) <= t.len(),
        spec_name_start(t) > 0 ==> t[spec_name_start(t) - 1] == '/',
        forall|i: int| spec_name_start(t) <= i < t.len() ==> t[i] != '/',
    decreases t.len(),
{
    if t.len() > 0 && t.last() != '/' {
        let u = t.drop_last();
        lemma_name_start_props(u);
        assert forall|i: int| spec_name_start(t) <= i < t.len() implies t[i] != '/' by {
            if i < u.len() {
                assert(t[i] == u[i]);
            }
        }
    }
}

/// The start of the last component is the one position that follows a
/// separator (or opens the text) and is followed by no separator.
proof fn lemma_name_start_unique(t: Seq<char>, k: int)
    requires
        0 <= k <= t.len(),
        k > 0 ==> t[k - 1] == '/',
        forall|i: int| k <= i < t.len() ==> t[i] != '/',
    ensures
        spec_name_start(t) == k,
{
    lemma_name_start_props(t);
    let k0 = spec_name_start(t);
    if k0 > k {
        assert(t[k0 - 1] == '/');
    } else if k0 < k {
        assert(t[k - 1] == '/');
    }
}

proof fn lemma_last_dot_before_gz(n: Seq<char>)
    ensures
        spec_last_dot(n + seq!['.', 'g', 'z']) == n.len(),
{
    let c = n + seq!['.', 'g', 'z'];
    assert(c.drop_last() =~= n + seq!['.', 'g']);
    assert((n + seq!['.', 'g']).drop_last() =~= n + seq!['.']);
    assert(spec_last_dot(n + seq!['.']) == n.len());
    assert(spec_last_dot(n + seq!['.', 'g']) == n.len());
}

/// The name that compressing gives to a path with a file name has the `gz`
/// extension, so decompression accepts it.
#[verifier::spinoff_prover]
pub proof fn lemma_compressed_name_has_gz_extension(s: Seq<char>)
    requires
        spec_file_name(s) is Some,
    ensures
        spec_has_gz_extension(spec_compress_name(s)),
        spec_output_name(spec_compress_name(s), OperationMode::Decompress) is Ok,
{
    let t = spec_strip_tail(s);
    let k = spec_name_start(t);
    lemma_name_start_props(t);
    let name = t.subrange(k, t.len() as int);
    assert(name.len() > 0);
    lemma_last_dot_bounds(name);
    let ext_empty = spec_extension(s) == Some(Seq::<char>::empty());
    let base = if ext_empty {
        t.drop_last()
    } else {
        t
    };
    if ext_empty {
        // The name ends in its last dot, which does not open it.
        let d = spec_last_dot(name);
        assert(d > 0);
        assert(name.subrange(d + 1, name.len() as int).len() == 0);
        assert(d == name.len() - 1);
        assert(k <= t.len() - 2);
    }
    // `base` still has its last component starting at `k`, now not empty.
    assert(k < base.len());
    assert forall|i: int| k <= i < base.len() implies base[i] != '/' by {
        assert(base[i] == t[i]);
    }
    if k > 0 {
        assert(base[k - 1] == t[k - 1]);
    }
    let c = base + seq!['.', 'g', 'z'];
    assert(spec_compress_name(s) == c);
    assert(c.last() == 'z');
    assert(spec_strip_tail(c) == c);
    assert forall|i: int| k <= i < c.len() implies c[i] != '/' by {
        if i < base.len() {
            assert(c[i] == base[i]);
        }
    }
    if k > 0 {
        assert(c[k - 1] == base[k - 1]);
    }
    lemma_name_start_unique(c, k);
    let n2 = base.subrange(k, base.len() as int);
    assert(c.subrange(k, c.len() as int) =~= n2 + seq!['.', 'g', 'z']);
    lemma_last_dot_before_gz(n2);
    assert(n2.len() > 0);
    let cname = n2 + seq!['.', 'g', 'z'];
    assert(cname != seq!['.', '.']) by {
        assert(cname.last() == 'z');
    }
    assert(spec_file_name(c) == Some(cname));
    assert(cname.subrange(n2.len() as int + 1, cname.len() as int) =~= seq!['g', 'z']);
    assert(spec_extension(c) == Some(seq!['g', 'z']));
}

/// Whether a character is the letter `c` in either case (`c` lower case).
pub open spec fn spec_is_letter(ch: char, lower: char, upper: char) -> bool {
    ch == lower || ch == upper
}

/// A path has the gzip extension exactly when its file name ends in a dot and
/// the two letters `g` and `z` (in any case), with something before that dot:
/// `a.gz` and `b.GZ` have it; `backup.tgz`, `a.gzip`, `.gz` and `a.gz/..` do not.
pub proof fn lemma_gz_extension_is_dot_gz_suffix(s: Seq<char>)
    ensures
        spec_has_gz_extension(s) <==> (spec_file_name(s) matches Some(n) && n.len() >= 4
            && n[n.len() - 3] == '.' && spec_is_letter(n[n.len() - 2], 'g', 'G')
            && spec_is_letter(n[n.len() - 1], 'z', 'Z')),
{
    match spec_file_name(s) {
        None => {},
        Some(n) => {
            lemma_last_dot_bounds(n);
            let d = spec_last_dot(n);
            if spec_has_gz_extension(s) {
                // The extension is the two letters after the last dot.
                assert(d > 0);
                assert(n.subrange(d + 1, n.len() as int).len() == 2);
                assert(d == n.len() - 3);
                assert(n.subrange(d + 1, n.len() as int)[0] == n[n.len() - 2]);
                assert(n.subrange(d + 1, n.len() as int)[1] == n[n.len() - 1]);
            }
            if n.len() >= 4 && n[n.len() - 3] == '.' && spec_is_letter(n[n.len() - 2], 'g', 'G')
                && spec_is_letter(n[n.len() - 1], 'z', 'Z') {
                // The last dot of the name is the one before `gz`.
                let n1 = n.drop_last();
                let n2 = n1.drop_last();
                assert(n.last() != '.');
                assert(n1.last() == n[n.len() - 2]);
                assert(n2.last() == '.');
                assert(spec_last_dot(n2) == n2.len() - 1);
                assert(spec_last_dot(n1) == n2.len() - 1);
                assert(d == n.len() - 3);
                assert(n.subrange(d + 1, n.len() as int) =~= seq![n[n.len() - 2], n[n.len() - 1]]);
            }
        },
    }
}

} // verus!
