//! Lexical handling of request paths: trimming, joining onto a root and
//! the containment rule that keeps every resolved path under that root.

use vstd::prelude::*;
use vstd::string::*;
use crate::outside::push_char;

verus! {

/// `s` without its leading `/` characters.
pub open spec fn trim_slashes(s: Seq<char>) -> Seq<char>
    decreases s.len(),
{
    if s.len() > 0 && s[0] == '/' {
        trim_slashes(s.drop_first())
    } else {
        s
    }
}

proof fn lemma_trim_step(s: Seq<char>, i: int)
    requires
        0 <= i < s.len(),
        s[i] == '/',
    ensures
        trim_slashes(s.subrange(i, s.len() as int)) == trim_slashes(s.subrange(i + 1, s.len() as int)),
{
    assert(s.subrange(i, s.len() as int).drop_first() =~= s.subrange(i + 1, s.len() as int));
}

/// Removes every leading `/` of a request path, leaving a relative path.
pub fn trim_leading_slashes(path: &str) -> (r: String)
    ensures
        r@ == trim_slashes(path@),
{
    let n = path.unicode_len();
    let mut i: usize = 0;
    assert(path@.subrange(0, n as int) =~= path@);
    while i < n && path.get_char(i) == '/'
        invariant
            n == path@.len(),
            i <= n,
            trim_slashes(path@.subrange(i as int, n as int)) == trim_slashes(path@),
        decreases n - i,
    {
        proof {
            lemma_trim_step(path@, i as int);
        }
        i = i + 1;
    }
    let rest = path.substring_char(i, n);
    String::from_str(rest)
}

/// Whether some `/`-separated segment of `s` is exactly `..`.
pub open spec fn has_parent_segment(s: Seq<char>) -> bool {
    exists|i: int|
        0 <= i && i + 2 <= s.len() && #[trigger] s[i] == '.' && s[i + 1] == '.' && (i == 0 || s[i
            - 1] == '/') && (i + 2 == s.len() || s[i + 2] == '/')
}

/// Whether joining `rel` onto a root could name a path outside that root:
/// it is absolute, and so would replace the root, or it climbs with `..`.
pub open spec fn escapes_root(rel: Seq<char>) -> bool {
    (rel.len() > 0 && rel[0] == '/') || has_parent_segment(rel)
}

/// The containment check applied before any file under the root is touched.
pub fn is_contained(rel: &str) -> (r: bool)
    ensures
        r == !escapes_root(rel@),
{
    let n = rel.unicode_len();
    if n > 0 && rel.get_char(0) == '/' {
        return false;
    }
    let mut i: usize = 0;
    while n > 0 && i < n - 1
        invariant
            n == rel@.len(),
            i <= n,
            forall|j: int|
                0 <= j < i && j + 2 <= n ==> !(#[trigger] rel@[j] == '.' && rel@[j + 1] == '.' && (j
                    == 0 || rel@[j - 1] == '/') && (j + 2 == n || rel@[j + 2] == '/')),
        decreases n - i,
    {
        if rel.get_char(i) == '.' && rel.get_char(i + 1) == '.' {
            let starts = i == 0 || rel.get_char(i - 1) == '/';
            let ends = i + 2 == n || rel.get_char(i + 2) == '/';
            if starts && ends {
                return false;
            }
        }
        i = i + 1;
    }
    true
}

/// `rel` appended to `root` with one separator between them.
pub open spec fn join_path(root: Seq<char>, rel: Seq<char>) -> Seq<char> {
    if root.len() == 0 {
        rel
    } else if root.last() == '/' {
        root + rel
    } else {
        root + seq!['/'] + rel
    }
}

/// Joins a relative path onto a directory.
pub fn join(root: &str, rel: &str) -> (r: String)
    ensures
        r@ == join_path(root@, rel@),
{
    let n = root.unicode_len();
    let mut s = String::from_str(root);
    if n > 0 && root.get_char(n - 1) != '/' {
        push_char(&mut s, '/');
    }
    s.append(rel);
    s
}

/// The part of `s` after its last `/`.
pub open spec fn last_segment(s: Seq<char>) -> Seq<char>
    decreases s.len(),
{
    if s.len() == 0 {
        s
    } else if s.last() == '/' {
        Seq::empty()
    } else {
        last_segment(s.drop_last()).push(s.last())
    }
}

/// The index of the first character of the last segment of `s`.
pub open spec fn last_segment_start(s: Seq<char>) -> int
    decreases s.len(),
{
    if s.len() == 0 {
        0
    } else if s.last() == '/' {
        s.len() as int
    } else {
        last_segment_start(s.drop_last())
    }
}

proof fn lemma_last_segment(s: Seq<char>)
    ensures
        0 <= last_segment_start(s) <= s.len(),
        last_segment(s) == s.subrange(last_segment_start(s), s.len() as int),
        forall|j: int| last_segment_start(s) <= j < s.len() ==> s[j] != '/',
        last_segment_start(s) > 0 ==> s[last_segment_start(s) - 1] == '/',
    decreases s.len(),
{
    if s.len() > 0 && s.last() != '/' {
        lemma_last_segment(s.drop_last());
        let k = last_segment_start(s.drop_last());
        assert forall|j: int| k <= j < s.len() implies s[j] != '/' by {
            if j < s.len() - 1 {
                assert(s.drop_last()[j] == s[j]);
            }
        }
        assert(s.drop_last().subrange(k, s.len() - 1).push(s.last()) =~= s.subrange(k, s.len() as int));
    } else if s.len() > 0 {
        assert(s.subrange(s.len() as int, s.len() as int) =~= Seq::<char>::empty());
    }
}

/// The last `/`-separated segment of a path.
pub fn file_name_of(path: &str) -> (r: String)
    ensures
        r@ == last_segment(path@),
{
    let n = path.unicode_len();
    let mut k: usize = n;
    proof {
        lemma_last_segment(path@);
    }
    while k > 0 && path.get_char(k - 1) != '/'
        invariant
            n == path@.len(),
            last_segment_start(path@) <= k <= n,
            last_segment_start(path@) > 0 ==> path@[last_segment_start(path@) - 1] == '/',
            forall|j: int| k <= j < n ==> path@[j] != '/',
        decreases k,
    {
        k = k - 1;
    }
    assert(k == last_segment_start(path@));
    let rest = path.substring_char(k, n);
    String::from_str(rest)
}

/// A request path that looks like a client-side application route rather
/// than a file: it is not empty and its last segment holds no `.`.
pub open spec fn spa_route(rel: Seq<char>) -> bool {
    rel.len() > 0 && !last_segment(rel).contains('.')
}

/// Whether a failed lookup of `path` should fall back to the index file.
pub fn is_spa_route(path: &str) -> (r: bool)
    ensures
        r == spa_route(path@),
{
    let n = path.unicode_len();
    if n == 0 {
        return false;
    }
    let name = file_name_of(path);
    !crate::text::contains_char(name.as_str(), '.')
}

/// The value of an ASCII hex digit byte.
pub open spec fn hex_value(b: u8) -> Option<u8> {
    if 48 <= b <= 57 {
        Some((b - 48) as u8)
    } else if 65 <= b <= 70 {
        Some((b - 55) as u8)
    } else if 97 <= b <= 102 {
        Some((b - 87) as u8)
    } else {
        None
    }
}

/// `b` with each `%` followed by two hex digits replaced by the byte they
/// denote; any other `%` stays as it is.
pub open spec fn percent_decoded(b: Seq<u8>) -> Seq<u8>
    decreases b.len(),
{
    if b.len() == 0 {
        Seq::empty()
    } else if b.len() >= 3 && b[0] == 37 && hex_value(b[1]) is Some && hex_value(b[2]) is Some {
        seq![(hex_value(b[1])->Some_0 * 16 + hex_value(b[2])->Some_0) as u8] + percent_decoded(
            b.subrange(3, b.len() as int),
        )
    } else {
        seq![b[0]] + percent_decoded(b.drop_first())
    }
}

fn hex_byte(b: u8) -> (r: Option<u8>)
    ensures
        r == hex_value(b),
{
    if 48 <= b && b <= 57 {
        Some(b - 48)
    } else if 65 <= b && b <= 70 {
        Some(b - 55)
    } else if 97 <= b && b <= 102 {
        Some(b - 87)
    } else {
        None
    }
}

/// Decodes the percent escapes of a request path segment.
pub fn percent_decode(b: &[u8]) -> (r: Vec<u8>)
    ensures
        r@ == percent_decoded(b@),
{
    let n = b.len();
    let mut out: Vec<u8> = Vec::new();
    let mut i: usize = 0;
    assert(b@.subrange(0, n as int) =~= b@);
    while i < n
        invariant
            n == b@.len(),
            i <= n,
            percent_decoded(b@) == out@ + percent_decoded(b@.subrange(i as int, n as int)),
        decreases n - i,
    {
        let rest = Ghost(b@.subrange(i as int, n as int));
        let mut step: usize = 1;
        let mut byte = b[i];
        if b[i] == 37 && n - i > 2 {
            match (hex_byte(b[i + 1]), hex_byte(b[i + 2])) {
                (Some(h), Some(l)) => {
                    byte = h * 16 + l;
                    step = 3;
                },
                _ => {},
            }
        }
        proof {
            assert(rest@[0] == b@[i as int]);
            if step == 3 {
                assert(rest@[1] == b@[i + 1]);
                assert(rest@[2] == b@[i + 2]);
                assert(rest@.subrange(3, rest@.len() as int) =~= b@.subrange(i + 3, n as int));
            } else {
                assert(rest@.drop_first() =~= b@.subrange(i + 1, n as int));
                if rest@.len() >= 3 {
                    assert(rest@[1] == b@[i + 1]);
                    assert(rest@[2] == b@[i + 2]);
                }
            }
        }
        let ghost before = out@;
        let ghost tail = b@.subrange(i + step, n as int);
        assert(percent_decoded(rest@) == seq![byte] + percent_decoded(tail));
        out.push(byte);
        assert(out@ + percent_decoded(tail) =~= before + (seq![byte] + percent_decoded(tail)));
        i = i + step;
    }
    out
}

} // verus!
