//! The preview's view of a host document, and the eligibility predicate that
//! gates every binding: the document must be a single flat buffer and its file
//! path must end in an `svg` extension, compared without regard to ASCII case.
//!
//! Paths are carried as bytes. Trailing separators are folded away; the
//! extension is then the part of the file name (what follows the last `/`)
//! after its last `.`, and is absent when the file name has no dot or only a
//! leading one.

use vstd::prelude::*;

verus! {

/// The path separator byte, `/`.
pub const SLASH: u8 = 47;

/// The extension separator byte, `.`.
pub const DOT: u8 = 46;

/// What the preview reads of one host document: a stable identity for
/// equality, whether the document is a single flat buffer rather than a
/// composite, and its file path when it has one.
#[derive(Clone, Debug)]
pub struct DocumentRef {
    pub id: u64,
    pub singleton: bool,
    pub path: Option<Vec<u8>>,
}

/// The byte with ASCII upper-case letters folded to lower case.
pub open spec fn ascii_lower(c: u8) -> u8 {
    if 65 <= c <= 90 {
        (c + 32) as u8
    } else {
        c
    }
}

/// Byte sequences equal once ASCII case is folded away.
pub open spec fn eq_ignore_ascii_case_seq(a: Seq<u8>, b: Seq<u8>) -> bool {
    &&& a.len() == b.len()
    &&& forall|i: int| 0 <= i < a.len() ==> #[trigger] ascii_lower(a[i]) == ascii_lower(b[i])
}

/// Folds one ASCII upper-case byte to lower case.
pub fn lower_byte(c: u8) -> (r: u8)
    ensures
        r == ascii_lower(c),
{
    if 65 <= c && c <= 90 {
        c + 32
    } else {
        c
    }
}

/// Compares two byte strings without regard to ASCII case.
pub fn eq_ignore_ascii_case(a: &Vec<u8>, b: &Vec<u8>) -> (r: bool)
    ensures
        r == eq_ignore_ascii_case_seq(a@, b@),
{
    if a.len() != b.len() {
        return false;
    }
    let mut i: usize = 0;
    while i < a.len()
        invariant
            a@.len() == b@.len(),
            i <= a@.len(),
            forall|j: int| 0 <= j < i ==> #[trigger] ascii_lower(a@[j]) == ascii_lower(b@[j]),
        decreases a@.len() - i,
    {
        if lower_byte(a[i]) != lower_byte(b[i]) {
            return false;
        }
        i = i + 1;
    }
    true
}

/// `i` is the position of the last occurrence of `c` in `s`.
pub open spec fn is_last_index_of(s: Seq<u8>, c: u8, i: int) -> bool {
    &&& 0 <= i < s.len()
    &&& s[i] == c
    &&& forall|j: int| i < j < s.len() ==> s[j] != c
}

/// A byte has at most one last occurrence.
pub proof fn lemma_last_index_unique(s: Seq<u8>, c: u8, i: int, j: int)
    requires
        is_last_index_of(s, c, i),
        is_last_index_of(s, c, j),
    ensures
        i == j,
{
    if i < j {
        assert(s[j] != c);
    } else if j < i {
        assert(s[i] != c);
    }
}

/// Position of the last occurrence of `c` in `v`, if any.
pub fn last_index_of(v: &Vec<u8>, c: u8) -> (r: Option<usize>)
    ensures
        match r {
            Some(i) => is_last_index_of(v@, c, i as int),
            None => forall|i: int| !is_last_index_of(v@, c, i),
        },
{
    let mut k: usize = v.len();
    while k > 0
        invariant
            k <= v@.len(),
            forall|j: int| k <= j < v@.len() ==> v@[j] != c,
        decreases k,
    {
        k = k - 1;
        if v[k] == c {
            return Some(k);
        }
    }
    assert forall|i: int| !is_last_index_of(v@, c, i) by {
        if 0 <= i < v@.len() {
            assert(v@[i] != c);
        }
    }
    None
}

/// The path with its trailing separators folded away, as a host path
/// library folds them before naming the final component.
pub open spec fn without_trailing_slashes(path: Seq<u8>) -> Seq<u8>
    decreases path.len(),
{
    if path.len() > 0 && path[path.len() - 1] == SLASH {
        without_trailing_slashes(path.drop_last())
    } else {
        path
    }
}

/// The file name within a path: everything after the last `/` once trailing
/// separators are folded away, or the whole trimmed path when none is left.
pub open spec fn file_name_of(path: Seq<u8>) -> Seq<u8> {
    let trimmed = without_trailing_slashes(path);
    if exists|i: int| is_last_index_of(trimmed, SLASH, i) {
        let i = choose|i: int| is_last_index_of(trimmed, SLASH, i);
        trimmed.subrange(i + 1, trimmed.len() as int)
    } else {
        trimmed
    }
}

/// Length of the path once trailing separators are folded away.
fn trimmed_len(v: &Vec<u8>) -> (r: usize)
    ensures
        r <= v@.len(),
        v@.subrange(0, r as int) == without_trailing_slashes(v@),
{
    proof {
        assert(v@.subrange(0, v@.len() as int) =~= v@);
    }
    let mut end: usize = v.len();
    while end > 0 && v[end - 1] == SLASH
        invariant
            end <= v@.len(),
            without_trailing_slashes(v@) == without_trailing_slashes(
                v@.subrange(0, end as int),
            ),
        decreases end,
    {
        proof {
            assert(v@.subrange(0, end as int).drop_last() =~= v@.subrange(0, end as int - 1));
        }
        end = end - 1;
    }
    end
}

/// The extension of a path: the part of its file name after the last `.`.
/// Absent when the file name has no dot, and when its only dot leads it, as
/// in a hidden file.
pub open spec fn extension_of(path: Seq<u8>) -> Option<Seq<u8>> {
    let name = file_name_of(path);
    if exists|i: int| is_last_index_of(name, DOT, i) {
        let i = choose|i: int| is_last_index_of(name, DOT, i);
        if i > 0 {
            Some(name.subrange(i + 1, name.len() as int))
        } else {
            None
        }
    } else {
        None
    }
}

/// Copies `v[start..end]` out.
pub(crate) fn copy_range(v: &Vec<u8>, start: usize, end: usize) -> (r: Vec<u8>)
    requires
        start <= end <= v@.len(),
    ensures
        r@ == v@.subrange(start as int, end as int),
{
    let mut out: Vec<u8> = Vec::new();
    proof {
        assert(out@ =~= v@.subrange(start as int, start as int));
    }
    let mut k: usize = start;
    while k < end
        invariant
            start <= k <= end <= v@.len(),
            out@ == v@.subrange(start as int, k as int),
        decreases end - k,
    {
        out.push(v[k]);
        proof {
            assert(out@ =~= v@.subrange(start as int, k as int + 1));
        }
        k = k + 1;
    }
    out
}

/// The file name of a path, as `file_name_of` states it.
pub fn file_name(path: &Vec<u8>) -> (r: Vec<u8>)
    ensures
        r@ == file_name_of(path@),
{
    let end = trimmed_len(path);
    let trimmed = copy_range(path, 0, end);
    match last_index_of(&trimmed, SLASH) {
        Some(i) => {
            proof {
                let picked = choose|j: int| is_last_index_of(trimmed@, SLASH, j);
                lemma_last_index_unique(trimmed@, SLASH, picked, i as int);
            }
            let n = trimmed.len();
            assert(i < n);
            let r = copy_range(&trimmed, i + 1, n);
            proof {
                assert(r@ =~= file_name_of(path@));
            }
            r
        },
        None => {
            proof {
                assert(trimmed@ =~= file_name_of(path@));
            }
            trimmed
        },
    }
}

/// The extension of a path, as `extension_of` states it.
pub fn path_extension(path: &Vec<u8>) -> (r: Option<Vec<u8>>)
    ensures
        match r {
            Some(e) => extension_of(path@) == Some(e@),
            None => extension_of(path@) is None,
        },
{
    let name = file_name(path);
    match last_index_of(&name, DOT) {
        Some(i) => {
            proof {
                let picked = choose|j: int| is_last_index_of(name@, DOT, j);
                lemma_last_index_unique(name@, DOT, picked, i as int);
            }
            if i > 0 {
                let n = name.len();
                assert(i < n);
                Some(copy_range(&name, i + 1, n))
            } else {
                None
            }
        },
        None => None,
    }
}

/// The byte string `svg`, the one extension the preview accepts.
pub open spec fn svg_extension() -> Seq<u8> {
    seq![115u8, 118u8, 103u8]
}

/// The path names an SVG file: its extension equals `svg` once ASCII case is
/// folded away.
pub open spec fn is_svg_path_spec(path: Seq<u8>) -> bool {
    match extension_of(path) {
        Some(e) => eq_ignore_ascii_case_seq(e, svg_extension()),
        None => false,
    }
}

/// A document may be bound to a preview: it is a single flat buffer and its
/// path names an SVG file.
pub open spec fn eligible(doc: DocumentRef) -> bool {
    &&& doc.singleton
    &&& match doc.path {
        Some(p) => is_svg_path_spec(p@),
        None => false,
    }
}

/// Decides whether a path names an SVG file.
pub fn is_svg_path(path: &Vec<u8>) -> (r: bool)
    ensures
        r == is_svg_path_spec(path@),
{
    match path_extension(path) {
        None => false,
        Some(e) => {
            let mut svg: Vec<u8> = Vec::new();
            svg.push(115);
            svg.push(118);
            svg.push(103);
            proof {
                assert(svg@ =~= svg_extension());
            }
            eq_ignore_ascii_case(&e, &svg)
        },
    }
}

/// Decides whether a document qualifies for binding.
pub fn is_svg_file(doc: &DocumentRef) -> (r: bool)
    ensures
        r == eligible(*doc),
{
    if !doc.singleton {
        return false;
    }
    match &doc.path {
        None => false,
        Some(p) => is_svg_path(p),
    }
}

/// A composite document is never eligible, whatever its path.
pub proof fn law_composite_never_eligible(doc: DocumentRef)
    requires
        !doc.singleton,
    ensures
        !eligible(doc),
{
}

} // verus!
