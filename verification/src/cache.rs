//! Cache path resolution for melody references.
//!
//! A melody reference is a registry id, an http(s) URL, or a local file
//! path. Every remote file lives in a cache directory under a name derived
//! deterministically from its URL: the last `/`-delimited segment when that
//! segment is non-empty and contains a `.`, otherwise a hash of the whole
//! URL suffixed `.mp3`.
//!
//! The functions here only decide: they take the set of files that exist as
//! a plain list of paths and return either the local path to use or the
//! download that has to happen first. The caller performs the download and
//! the directory listing.

use std::collections::hash_map::DefaultHasher;
use std::hash::{Hash, Hasher};

use vstd::prelude::*;

use crate::melodies::{base_url, spec_lookup, MelodyRegistry, MelodyView};
use crate::strutil::{
    find_char, find_last_char, first_index_of, last_index_of, seq_contains, str_starts_with,
    str_views, vec_contains_str,
};

verus! {

/// What the standard sip-hash of a string's text is. Its exact value is
/// never relied on: only that equal strings hash equally.
pub uninterp spec fn url_hash64(s: Seq<char>) -> u64;

/// Relies on std::collections::hash_map::DefaultHasher: hashers created
/// through `new` all compute one fixed function of the bytes fed to them,
/// so the result depends on the string's characters alone.
#[verifier::external_body]
fn hash_str(s: &str) -> (r: u64)
    ensures
        r == url_hash64(s@),
{
    let mut hasher = DefaultHasher::new();
    s.hash(&mut hasher);
    hasher.finish()
}

/// The lowercase hexadecimal digit for `n` in 0..16.
pub open spec fn hex_digit(n: int) -> char {
    if n == 0 {
        '0'
    } else if n == 1 {
        '1'
    } else if n == 2 {
        '2'
    } else if n == 3 {
        '3'
    } else if n == 4 {
        '4'
    } else if n == 5 {
        '5'
    } else if n == 6 {
        '6'
    } else if n == 7 {
        '7'
    } else if n == 8 {
        '8'
    } else if n == 9 {
        '9'
    } else if n == 10 {
        'a'
    } else if n == 11 {
        'b'
    } else if n == 12 {
        'c'
    } else if n == 13 {
        'd'
    } else if n == 14 {
        'e'
    } else {
        'f'
    }
}

/// `n` written in lowercase hexadecimal, without leading zeros (`0` for 0).
pub open spec fn spec_hex(n: nat) -> Seq<char>
    decreases n,
{
    if n < 16 {
        seq![hex_digit(n as int)]
    } else {
        spec_hex(n / 16) + seq![hex_digit((n % 16) as int)]
    }
}

/// The one-character string for hexadecimal digit `d`.
fn hex_digit_str(d: u64) -> (r: &'static str)
    requires
        d < 16,
    ensures
        r@ == seq![hex_digit(d as int)],
{
    let s: &'static str = match d {
        0 => "0",
        1 => "1",
        2 => "2",
        3 => "3",
        4 => "4",
        5 => "5",
        6 => "6",
        7 => "7",
        8 => "8",
        9 => "9",
        10 => "a",
        11 => "b",
        12 => "c",
        13 => "d",
        14 => "e",
        _ => "f",
    };
    proof {
        reveal_strlit("0");
        reveal_strlit("1");
        reveal_strlit("2");
        reveal_strlit("3");
        reveal_strlit("4");
        reveal_strlit("5");
        reveal_strlit("6");
        reveal_strlit("7");
        reveal_strlit("8");
        reveal_strlit("9");
        reveal_strlit("a");
        reveal_strlit("b");
        reveal_strlit("c");
        reveal_strlit("d");
        reveal_strlit("e");
        reveal_strlit("f");
        assert(s@ =~= seq![hex_digit(d as int)]);
    }
    s
}

/// `n` written in lowercase hexadecimal.
pub fn u64_to_hex(n: u64) -> (r: String)
    ensures
        r@ == spec_hex(n as nat),
{
    let mut acc = String::new();
    let mut m = n;
    proof {
        assert(spec_hex(n as nat) + acc@ =~= spec_hex(n as nat));
    }
    loop
        invariant
            spec_hex(n as nat) == spec_hex(m as nat) + acc@,
        decreases m,
    {
        let ghost acc0 = acc@;
        let d = m % 16;
        let t = String::from_str(hex_digit_str(d));
        acc = t.concat(acc.as_str());
        if m < 16 {
            proof {
                assert(spec_hex(m as nat) =~= seq![hex_digit(d as int)]);
                assert(spec_hex(m as nat) + acc0 =~= acc@);
            }
            return acc;
        }
        proof {
            assert(spec_hex(m as nat) =~= spec_hex((m as nat) / 16) + seq![
                hex_digit(((m as nat) % 16) as int),
            ]);
            assert((spec_hex((m as nat) / 16) + seq![hex_digit(((m as nat) % 16) as int)]) + acc0
                =~= spec_hex((m as nat) / 16) + acc@);
            assert((m / 16) as nat == (m as nat) / 16);
        }
        m = m / 16;
    }
}

/// The part of `url` after the last `/`, or all of `url` when it has none.
pub open spec fn url_segment(url: Seq<char>) -> Seq<char> {
    let i = last_index_of(url, '/');
    if i >= 0 {
        url.skip(i + 1)
    } else {
        url
    }
}

/// Whether a segment looks like a file name: non-empty with a `.` in it.
pub open spec fn good_segment(seg: Seq<char>) -> bool {
    seg.len() > 0 && first_index_of(seg, '.') >= 0
}

/// The cache file name for `url`: its last segment when that looks like a
/// file name, otherwise the hash of the whole URL suffixed `.mp3`.
pub open spec fn cache_filename(url: Seq<char>, h: u64) -> Seq<char> {
    if good_segment(url_segment(url)) {
        url_segment(url)
    } else {
        spec_hex(h as nat) + ".mp3"@
    }
}

/// The full cache path for `url` under `cache_dir` (no trailing slash).
pub open spec fn spec_cache_path(cache_dir: Seq<char>, url: Seq<char>) -> Seq<char> {
    cache_dir + "/"@ + cache_filename(url, url_hash64(url))
}

/// The local path a download of `url` is stored at: `cache_dir` joined with
/// a name derived deterministically from the URL.
pub fn cache_path_for_url(url: &str, cache_dir: &str) -> (r: String)
    ensures
        r@ == spec_cache_path(cache_dir@, url@),
{
    let n = url.unicode_len();
    let seg: &str = match find_last_char(url, '/') {
        Some(i) => url.substring_char(i + 1, n),
        None => url,
    };
    assert(seg@ == url_segment(url@));
    let good = seg.unicode_len() > 0 && find_char(seg, '.').is_some();
    assert(good == good_segment(seg@));
    let filename: String = if good {
        String::from_str(seg)
    } else {
        let hx = u64_to_hex(hash_str(url));
        hx.concat(".mp3")
    };
    assert(filename@ == cache_filename(url@, url_hash64(url@)));
    let mut out = cache_dir.to_owned();
    out.append("/");
    out.append(filename.as_str());
    proof {
        assert(out@ =~= spec_cache_path(cache_dir@, url@));
    }
    out
}

/// The cache path for `url` when a file already exists there, given the
/// paths in `existing`.
pub fn get_cached(url: &str, cache_dir: &str, existing: &Vec<String>) -> (r: Option<String>)
    ensures
        match r {
            Some(p) => p@ == spec_cache_path(cache_dir@, url@) && seq_contains(
                str_views(existing@),
                p@,
            ),
            None => !seq_contains(str_views(existing@), spec_cache_path(cache_dir@, url@)),
        },
{
    let p = cache_path_for_url(url, cache_dir);
    if vec_contains_str(existing, p.as_str()) {
        Some(p)
    } else {
        None
    }
}

/// How a melody reference resolves to a local file: an existing path, a
/// download that must happen first, or nothing.
pub enum ResolveOutcome {
    /// The reference names a file that already exists: play this path.
    Resolved(String),
    /// Fetch `url` and store the body at `cache_path`, then play it.
    Download { url: String, cache_path: String },
    /// The reference is no melody id, no http(s) URL and no existing path.
    NotFound,
}

/// The mathematical image of a `ResolveOutcome`.
pub enum ResolvePlan {
    Resolved(Seq<char>),
    Download { url: Seq<char>, cache_path: Seq<char> },
    NotFound,
}

impl View for ResolveOutcome {
    type V = ResolvePlan;

    open spec fn view(&self) -> ResolvePlan {
        match self {
            ResolveOutcome::Resolved(p) => ResolvePlan::Resolved(p@),
            ResolveOutcome::Download { url, cache_path } => ResolvePlan::Download {
                url: url@,
                cache_path: cache_path@,
            },
            ResolveOutcome::NotFound => ResolvePlan::NotFound,
        }
    }
}

/// Whether `source` is an http or https URL.
pub open spec fn is_http_url(source: Seq<char>) -> bool {
    "http://"@.is_prefix_of(source) || "https://"@.is_prefix_of(source)
}

/// Fetch `url` unless its cache file is among `files`.
pub open spec fn spec_cache_or_fetch(url: Seq<char>, cache_dir: Seq<char>, files: Seq<Seq<char>>) -> ResolvePlan {
    let cp = spec_cache_path(cache_dir, url);
    if seq_contains(files, cp) {
        ResolvePlan::Resolved(cp)
    } else {
        ResolvePlan::Download { url, cache_path: cp }
    }
}

/// How a melody reference resolves, in order: a registry id is fetched from
/// its melody's URL; an http(s) reference is fetched from itself; anything
/// else is a local path, used when it exists among `files` and refused
/// otherwise.
pub open spec fn spec_resolve(
    registry: Seq<MelodyView>,
    source: Seq<char>,
    cache_dir: Seq<char>,
    files: Seq<Seq<char>>,
) -> ResolvePlan {
    match spec_lookup(registry, source) {
        Some(m) => spec_cache_or_fetch(base_url() + m.filename, cache_dir, files),
        None => {
            if is_http_url(source) {
                spec_cache_or_fetch(source, cache_dir, files)
            } else if seq_contains(files, source) {
                ResolvePlan::Resolved(source)
            } else {
                ResolvePlan::NotFound
            }
        },
    }
}

/// Resolve a melody reference to a local file: a registry id or an http(s)
/// URL resolves to its cache path, already present or to be downloaded; any
/// other reference is a local path that must exist among `existing`.
pub fn resolve_melody_path(
    source: &str,
    cache_dir: &str,
    registry: &MelodyRegistry,
    existing: &Vec<String>,
) -> (r: ResolveOutcome)
    ensures
        r@ == spec_resolve(registry@, source@, cache_dir@, str_views(existing@)),
{
    match registry.get(source) {
        Some(m) => {
            let url = m.url();
            let cp = cache_path_for_url(url.as_str(), cache_dir);
            if vec_contains_str(existing, cp.as_str()) {
                ResolveOutcome::Resolved(cp)
            } else {
                ResolveOutcome::Download { url, cache_path: cp }
            }
        },
        None => {
            if str_starts_with(source, "http://") || str_starts_with(source, "https://") {
                let cp = cache_path_for_url(source, cache_dir);
                if vec_contains_str(existing, cp.as_str()) {
                    ResolveOutcome::Resolved(cp)
                } else {
                    ResolveOutcome::Download { url: String::from_str(source), cache_path: cp }
                }
            } else if vec_contains_str(existing, source) {
                ResolveOutcome::Resolved(String::from_str(source))
            } else {
                ResolveOutcome::NotFound
            }
        },
    }
}

/// Resolving is idempotent through the cache: when a resolution asks for a
/// download, resolving the same reference again after exactly that file was
/// stored returns the stored path, with no further download.
pub proof fn lemma_resolve_idempotent(
    registry: Seq<MelodyView>,
    source: Seq<char>,
    cache_dir: Seq<char>,
    files: Seq<Seq<char>>,
    url: Seq<char>,
    cache_path: Seq<char>,
)
    requires
        spec_resolve(registry, source, cache_dir, files) == (ResolvePlan::Download {
            url,
            cache_path,
        }),
    ensures
        spec_resolve(registry, source, cache_dir, files.push(cache_path))
            == ResolvePlan::Resolved(cache_path),
{
    let files2 = files.push(cache_path);
    assert(files2[files.len() as int] == cache_path);
    assert(seq_contains(files2, cache_path));
}

/// What the cache directory holds: its location and the count and total
/// size of the files in it.
pub struct CacheStats {
    pub location: String,
    pub file_count: usize,
    pub total_size: u64,
}

/// The fetch plan for every melody of the registry, in table order: each
/// entry's id with its cache path, already present or to be downloaded.
pub fn prefetch_all(registry: &MelodyRegistry, cache_dir: &str, existing: &Vec<String>) -> (r: Vec<
    (String, ResolveOutcome),
>)
    ensures
        r@.len() == registry@.len(),
        forall|i: int|
            0 <= i < r@.len() ==> r@[i].0@ == registry@[i].id && r@[i].1@ == spec_cache_or_fetch(
                base_url() + registry@[i].filename,
                cache_dir@,
                str_views(existing@),
            ),
{
    let melodies = registry.all();
    let n = melodies.len();
    let mut out: Vec<(String, ResolveOutcome)> = Vec::new();
    let mut i: usize = 0;
    while i < n
        invariant
            n == melodies@.len(),
            crate::melodies::views_of(melodies@) == registry@,
            i <= n,
            out@.len() == i,
            forall|j: int|
                0 <= j < i ==> out@[j].0@ == registry@[j].id && out@[j].1@ == spec_cache_or_fetch(
                    base_url() + registry@[j].filename,
                    cache_dir@,
                    str_views(existing@),
                ),
        decreases n - i,
    {
        let m = &melodies[i];
        let url = m.url();
        let cp = cache_path_for_url(url.as_str(), cache_dir);
        let outcome = if vec_contains_str(existing, cp.as_str()) {
            ResolveOutcome::Resolved(cp)
        } else {
            ResolveOutcome::Download { url, cache_path: cp }
        };
        out.push((m.id.clone(), outcome));
        i += 1;
    }
    out
}

} // verus!
