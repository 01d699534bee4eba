//! A model of `/`-separated paths held as strings: joining, the final named
//! component, its stem and extension, and replacing the extension.

use vstd::prelude::*;
use crate::text::{chars_of, has_prefix, has_suffix, str_eq};

verus! {

/// Scans backwards over `p` for the last named component; `p[i..e]` is the
/// part of the current segment scanned so far.  Empty and `.` segments are
/// skipped, a `..` segment means there is no file name.
pub open spec fn name_scan(p: Seq<char>, i: int, e: int) -> Option<(int, int)>
    decreases i,
{
    if i > 0 && p[i - 1] != '/' {
        name_scan(p, i - 1, e)
    } else {
        let seg = p.subrange(i, e);
        if seg.len() == 0 || seg == seq!['.'] {
            if i <= 0 {
                None
            } else {
                name_scan(p, i - 1, i - 1)
            }
        } else if seg == seq!['.', '.'] {
            None
        } else {
            Some((i, e))
        }
    }
}

/// Where the final named component of `p` lies, if it has one.
pub open spec fn file_name_bounds(p: Seq<char>) -> Option<(int, int)> {
    name_scan(p, p.len() as int, p.len() as int)
}

/// The final named component of `p`.
pub open spec fn file_name(p: Seq<char>) -> Option<Seq<char>> {
    match file_name_bounds(p) {
        Some((s, e)) => Some(p.subrange(s, e)),
        None => None,
    }
}

/// Index of the last `c` in `p[s..j]`, or `s - 1` when there is none.
pub open spec fn last_index_of(p: Seq<char>, c: char, s: int, j: int) -> int
    decreases j - s,
{
    if j <= s {
        s - 1
    } else if p[j - 1] == c {
        j - 1
    } else {
        last_index_of(p, c, s, j - 1)
    }
}

/// End of the stem of the name `p[s..e]`: the name cut before its last dot,
/// unless it has no dot or its only leading character is the last dot.
pub open spec fn stem_end(p: Seq<char>, s: int, e: int) -> int {
    let d = last_index_of(p, '.', s, e);
    if d <= s {
        e
    } else {
        d
    }
}

/// The stem of the final named component of `p`.
pub open spec fn file_stem(p: Seq<char>) -> Option<Seq<char>> {
    match file_name_bounds(p) {
        Some((s, e)) => Some(p.subrange(s, stem_end(p, s, e))),
        None => None,
    }
}

/// The extension of the final named component of `p`.
pub open spec fn extension(p: Seq<char>) -> Option<Seq<char>> {
    match file_name_bounds(p) {
        Some((s, e)) => {
            let d = stem_end(p, s, e);
            if d < e {
                Some(p.subrange(d + 1, e))
            } else {
                None
            }
        },
        None => None,
    }
}

/// `p` with the extension of its final component replaced by `ext`
/// (removed when `ext` is empty); unchanged when `p` has no file name.
pub open spec fn with_extension(p: Seq<char>, ext: Seq<char>) -> Seq<char> {
    match file_name_bounds(p) {
        Some((s, e)) => {
            let stem = p.subrange(0, stem_end(p, s, e));
            if ext.len() == 0 {
                stem
            } else {
                stem + seq!['.'] + ext
            }
        },
        None => p,
    }
}

/// `part` adjoined to `base`: an absolute `part` replaces `base`, an empty
/// `base` gives `part`, and otherwise one `/` separates them.
pub open spec fn join(base: Seq<char>, part: Seq<char>) -> Seq<char> {
    if part.len() > 0 && part[0] == '/' {
        part
    } else if base.len() == 0 {
        part
    } else if base.last() == '/' {
        base + part
    } else {
        base + seq!['/'] + part
    }
}

proof fn lemma_name_scan_bounds(p: Seq<char>, i: int, e: int)
    requires
        0 <= i <= e <= p.len(),
        forall|k: int| i <= k < e ==> p[k] != '/',
    ensures
        name_scan(p, i, e) matches Some((s, t)) ==> 0 <= s < t <= p.len() && (forall|k: int|
            s <= k < t ==> p[k] != '/') && (s == 0 || p[s - 1] == '/'),
    decreases i,
{
    if i > 0 && p[i - 1] != '/' {
        lemma_name_scan_bounds(p, i - 1, e);
        if name_scan(p, i - 1, e) is Some {
        }
    } else {
        let seg = p.subrange(i, e);
        if seg.len() == 0 || seg == seq!['.'] {
            if i > 0 {
                lemma_name_scan_bounds(p, i - 1, i - 1);
            }
        }
    }
}

/// The final named component of a path is a non-empty run of characters
/// without a separator, starting the path or following a separator.
pub proof fn lemma_file_name_bounds(p: Seq<char>)
    ensures
        file_name_bounds(p) matches Some((s, t)) ==> 0 <= s < t <= p.len() && (forall|k: int|
            s <= k < t ==> p[k] != '/') && (s == 0 || p[s - 1] == '/'),
{
    lemma_name_scan_bounds(p, p.len() as int, p.len() as int);
}

/// Adjoining a part that does not start with a separator keeps the base in
/// front and the part at the end, with exactly one separator put between
/// them unless the base is empty or already ends in one; a part that starts
/// with a separator replaces the base.
pub proof fn law_join(base: Seq<char>, part: Seq<char>)
    ensures
        part.len() > 0 && part[0] == '/' ==> join(base, part) == part,
        !(part.len() > 0 && part[0] == '/') ==> has_prefix(join(base, part), base) && has_suffix(
            join(base, part),
            part,
        ),
        !(part.len() > 0 && part[0] == '/') && base.len() > 0 && base.last() != '/' ==> join(
            base,
            part,
        ).len() == base.len() + part.len() + 1 && join(base, part)[base.len() as int] == '/',
        !(part.len() > 0 && part[0] == '/') && (base.len() == 0 || base.last() == '/') ==> join(
            base,
            part,
        ).len() == base.len() + part.len(),
{
    let j = join(base, part);
    if !(part.len() > 0 && part[0] == '/') {
        assert(j.subrange(0, base.len() as int) =~= base);
        assert(j.subrange(j.len() - part.len(), j.len() as int) =~= part);
    }
}

/// A plain name: non-empty, without a separator, and neither `.` nor `..`.
pub open spec fn is_plain_name(name: Seq<char>) -> bool {
    &&& name.len() > 0
    &&& forall|k: int| 0 <= k < name.len() ==> name[k] != '/'
    &&& name != seq!['.']
    &&& name != seq!['.', '.']
}

proof fn lemma_scan_skips_run(p: Seq<char>, i: int, j: int, e: int)
    requires
        0 < j <= i <= e <= p.len(),
        forall|k: int| j - 1 <= k < i ==> p[k] != '/',
    ensures
        name_scan(p, i, e) == name_scan(p, j - 1, e),
    decreases i - j,
{
    if i > j {
        lemma_scan_skips_run(p, i - 1, j, e);
    }
}

/// Adjoining a plain name to any path gives a path whose file name is that
/// name, at its end.
pub proof fn lemma_joined_name_bounds(base: Seq<char>, name: Seq<char>)
    requires
        is_plain_name(name),
    ensures
        join(base, name).len() >= name.len(),
        join(base, name).subrange(join(base, name).len() - name.len(), join(base, name).len() as int)
            == name,
        file_name_bounds(join(base, name)) == Some(
            (join(base, name).len() - name.len(), join(base, name).len() as int),
        ),
{
    let p = join(base, name);
    let l = p.len() as int;
    let s = l - name.len();
    assert(p.subrange(s, l) =~= name);
    assert(s == 0 || p[s - 1] == '/');
    if s + 1 < l {
        lemma_scan_skips_run(p, l, s + 2, l);
    }
    assert(name_scan(p, s + 1, l) == name_scan(p, s, l)) by {
        assert(p[s] != '/');
    }
    assert(name_scan(p, s, l) == Some((s, l)));
}

/// The file name of a path made by adjoining a plain name is that name.
pub proof fn law_file_name_of_joined_name(base: Seq<char>, name: Seq<char>)
    requires
        is_plain_name(name),
    ensures
        file_name(join(base, name)) == Some(name),
{
    lemma_joined_name_bounds(base, name);
}

proof fn lemma_last_index_shift(p: Seq<char>, q: Seq<char>, c: char, off: int, s: int, j: int)
    requires
        0 <= off,
        0 <= s <= j,
        off + j <= p.len(),
        j <= q.len(),
        forall|k: int| s <= k < j ==> p[off + k] == q[k],
    ensures
        last_index_of(p, c, off + s, off + j) == off + last_index_of(q, c, s, j),
    decreases j - s,
{
    if j > s && q[j - 1] != c {
        lemma_last_index_shift(p, q, c, off, s, j - 1);
    }
}

/// Replacing the extension of a path made by adjoining a plain name is
/// adjoining the name with its extension replaced.
pub proof fn law_with_extension_of_joined_name(base: Seq<char>, name: Seq<char>, ext: Seq<char>)
    requires
        is_plain_name(name),
    ensures
        with_extension(join(base, name), ext) == join(base, with_extension(name, ext)),
{
    let p = join(base, name);
    let l = p.len() as int;
    let n = name.len() as int;
    let off = l - n;
    lemma_joined_name_bounds(base, name);
    lemma_joined_name_bounds(Seq::<char>::empty(), name);
    assert(join(Seq::<char>::empty(), name) == name);
    lemma_last_index_shift(p, name, '.', off, 0, n);
    lemma_last_index_in_range(name, '.', 0, n);
    let se = stem_end(name, 0, n);
    assert(stem_end(p, off, l) == off + se);
    assert(1 <= se <= n);
    let renamed = with_extension(name, ext);
    let stem = name.subrange(0, se);
    assert(renamed == if ext.len() == 0 { stem } else { stem + seq!['.'] + ext });
    assert(renamed[0] == name[0]);
    let prefix = p.subrange(0, off);
    assert(p =~= prefix + name);
    assert(p.subrange(0, off + se) =~= prefix + stem);
    if base.len() == 0 {
        assert(prefix =~= Seq::<char>::empty());
    } else if base.last() == '/' {
        assert(prefix =~= base);
    } else {
        assert(prefix =~= base + seq!['/']);
    }
    if ext.len() == 0 {
        assert(with_extension(p, ext) =~= join(base, renamed));
    } else {
        assert(with_extension(p, ext) =~= join(base, renamed));
    }
}

proof fn lemma_last_index_found(p: Seq<char>, c: char, s: int, k: int, j: int)
    requires
        s <= k < j <= p.len(),
        p[k] == c,
        forall|m: int| k < m < j ==> p[m] != c,
    ensures
        last_index_of(p, c, s, j) == k,
    decreases j - k,
{
    if j - 1 > k {
        lemma_last_index_found(p, c, s, k, j - 1);
    }
}

proof fn lemma_last_index_absent(p: Seq<char>, c: char, s: int, j: int)
    requires
        s <= j <= p.len(),
        forall|m: int| s <= m < j ==> p[m] != c,
    ensures
        last_index_of(p, c, s, j) == s - 1,
    decreases j - s,
{
    if j > s {
        lemma_last_index_absent(p, c, s, j - 1);
    }
}

/// In a path ending in a file named by a non-empty stem, a dot and an
/// extension without dots, the stem is that stem and the extension is what
/// follows the dot, however long the extension is.
pub proof fn law_stem_and_extension_of_dotted_name(base: Seq<char>, stem: Seq<char>, ext: Seq<char>)
    requires
        stem.len() > 0,
        is_plain_name(stem + seq!['.'] + ext),
        forall|k: int| 0 <= k < ext.len() ==> ext[k] != '.',
    ensures
        file_name(join(base, stem + seq!['.'] + ext)) == Some(stem + seq!['.'] + ext),
        file_stem(join(base, stem + seq!['.'] + ext)) == Some(stem),
        extension(join(base, stem + seq!['.'] + ext)) == Some(ext),
{
    let n = stem + seq!['.'] + ext;
    let p = join(base, n);
    let l = p.len() as int;
    let off = l - n.len();
    lemma_joined_name_bounds(base, n);
    let k = off + stem.len();
    assert(p[k] == n[stem.len() as int]);
    assert forall|m: int| k < m < l implies p[m] != '.' by {
        assert(p[m] == n[m - off]);
        assert(n[m - off] == ext[m - off - stem.len() - 1]);
    }
    lemma_last_index_found(p, '.', off, k, l);
    assert(stem_end(p, off, l) == k);
    assert(p.subrange(off, k) =~= stem);
    assert(p.subrange(k + 1, l) =~= ext);
}

/// In a path ending in a file whose name has no dot, the stem is the whole
/// name and there is no extension.
pub proof fn law_stem_of_undotted_name(base: Seq<char>, name: Seq<char>)
    requires
        is_plain_name(name),
        forall|k: int| 0 <= k < name.len() ==> name[k] != '.',
    ensures
        file_stem(join(base, name)) == Some(name),
        extension(join(base, name)) is None,
{
    let p = join(base, name);
    let l = p.len() as int;
    let off = l - name.len();
    lemma_joined_name_bounds(base, name);
    assert forall|m: int| off <= m < l implies p[m] != '.' by {
        assert(p[m] == name[m - off]);
    }
    lemma_last_index_absent(p, '.', off, l);
    assert(stem_end(p, off, l) == l);
}

/// `part` adjoined to `base`.
pub fn join_path(base: &str, part: &str) -> (r: String)
    ensures
        r@ == join(base@, part@),
{
    let vb = chars_of(base);
    let vp = chars_of(part);
    if vp.len() > 0 && vp[0] == '/' {
        return String::from_str(part);
    }
    if vb.len() == 0 {
        return String::from_str(part);
    }
    let mut r = String::from_str(base);
    if vb[vb.len() - 1] != '/' {
        r.append("/");
        proof {
            reveal_strlit("/");
        }
    }
    r.append(part);
    r
}

/// The view of an optional string.
pub open spec fn opt_view(o: Option<String>) -> Option<Seq<char>> {
    match o {
        Some(x) => Some(x@),
        None => None,
    }
}

/// Where the final named component of the characters `v` lies.
fn name_bounds(v: &Vec<char>) -> (r: Option<(usize, usize)>)
    ensures
        match r {
            Some((s, e)) => file_name_bounds(v@) == Some((s as int, e as int)),
            None => file_name_bounds(v@) is None,
        },
        r matches Some((s, e)) ==> s < e <= v@.len(),
{
    proof {
        lemma_file_name_bounds(v@);
    }
    let mut i: usize = v.len();
    let mut e: usize = v.len();
    loop
        invariant
            i <= e <= v@.len(),
            name_scan(v@, i as int, e as int) == file_name_bounds(v@),
        decreases i,
    {
        if i > 0 && v[i - 1] != '/' {
            i = i - 1;
        } else {
            let len = e - i;
            let ghost seg = v@.subrange(i as int, e as int);
            if len == 0 || (len == 1 && v[i] == '.') {
                assert(seg.len() == 0 || seg =~= seq!['.']);
                if i == 0 {
                    return None;
                }
                i = i - 1;
                e = i;
            } else if len == 2 && v[i] == '.' && v[i + 1] == '.' {
                assert(seg =~= seq!['.', '.']);
                return None;
            } else {
                assert(seg.len() != 0);
                assert(seg != seq!['.']) by {
                    if seg.len() == 1 {
                        assert(seg[0] == v@[i as int]);
                    }
                }
                assert(seg != seq!['.', '.']) by {
                    if seg.len() == 2 {
                        assert(seg[0] == v@[i as int]);
                        assert(seg[1] == v@[i + 1]);
                    }
                }
                return Some((i, e));
            }
        }
    }
}

/// Index of the last `c` in `v[s..e]`, or `s - 1` when there is none.
fn last_index(v: &Vec<char>, c: char, s: usize, e: usize) -> (r: Option<usize>)
    requires
        s <= e <= v@.len(),
    ensures
        match r {
            Some(d) => last_index_of(v@, c, s as int, e as int) == d,
            None => last_index_of(v@, c, s as int, e as int) == s - 1,
        },
{
    let mut j: usize = e;
    while j > s
        invariant
            s <= j <= e <= v@.len(),
            last_index_of(v@, c, s as int, j as int) == last_index_of(v@, c, s as int, e as int),
        decreases j,
    {
        if v[j - 1] == c {
            return Some(j - 1);
        }
        j = j - 1;
    }
    None
}

/// End of the stem of the name `v[s..e]`.
fn stem_end_of(v: &Vec<char>, s: usize, e: usize) -> (r: usize)
    requires
        s <= e <= v@.len(),
    ensures
        r == stem_end(v@, s as int, e as int),
        s <= r <= e,
{
    match last_index(v, '.', s, e) {
        Some(d) => {
            if d <= s {
                e
            } else {
                proof {
                    lemma_last_index_in_range(v@, '.', s as int, e as int);
                }
                d
            }
        },
        None => e,
    }
}

proof fn lemma_last_index_in_range(p: Seq<char>, c: char, s: int, j: int)
    ensures
        s - 1 <= last_index_of(p, c, s, j) < if j > s { j } else { s },
    decreases j - s,
{
    if j > s && p[j - 1] != c {
        lemma_last_index_in_range(p, c, s, j - 1);
    }
}

/// The final named component of `p`.
pub fn file_name_of(p: &str) -> (r: Option<String>)
    ensures
        opt_view(r) == file_name(p@),
{
    let v = chars_of(p);
    match name_bounds(&v) {
        Some((s, e)) => Some(String::from_str(p.substring_char(s, e))),
        None => None,
    }
}

/// The stem of the final named component of `p`.
pub fn file_stem_of(p: &str) -> (r: Option<String>)
    ensures
        opt_view(r) == file_stem(p@),
{
    let v = chars_of(p);
    match name_bounds(&v) {
        Some((s, e)) => {
            let d = stem_end_of(&v, s, e);
            Some(String::from_str(p.substring_char(s, d)))
        },
        None => None,
    }
}

/// The extension of the final named component of `p`.
pub fn extension_of(p: &str) -> (r: Option<String>)
    ensures
        opt_view(r) == extension(p@),
{
    let v = chars_of(p);
    match name_bounds(&v) {
        Some((s, e)) => {
            let d = stem_end_of(&v, s, e);
            if d < e {
                Some(String::from_str(p.substring_char(d + 1, e)))
            } else {
                None
            }
        },
        None => None,
    }
}

/// `p` with the extension of its final component replaced by `ext`.
pub fn with_extension_of(p: &str, ext: &str) -> (r: String)
    ensures
        r@ == with_extension(p@, ext@),
{
    let v = chars_of(p);
    match name_bounds(&v) {
        Some((s, e)) => {
            let d = stem_end_of(&v, s, e);
            let mut r = String::from_str(p.substring_char(0, d));
            if ext.unicode_len() > 0 {
                r.append(".");
                proof {
                    reveal_strlit(".");
                }
                r.append(ext);
            }
            r
        },
        None => String::from_str(p),
    }
}

} // verus!
