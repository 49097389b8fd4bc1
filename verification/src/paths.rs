//! Path-string logic: extracting and replacing the extension of the final
//! path component, and mapping a source file to its destination under the
//! output root. Paths are modeled as character sequences with `/` as the
//! separator; only the final component is ever touched.

use vstd::prelude::*;
use vstd::string::*;
use crate::text;

verus! {

/// Index of the first character of the final path component: the position
/// right after the last `/`, or 0 when there is none.
pub open spec fn name_start(p: Seq<char>) -> int
    decreases p.len(),
{
    if p.len() == 0 {
        0
    } else if p[p.len() - 1] == '/' {
        p.len() as int
    } else {
        name_start(p.drop_last())
    }
}

/// Index of the last `.` inside the final component, or -1 when the
/// component has none.
pub open spec fn ext_dot(p: Seq<char>) -> int
    decreases p.len(),
{
    if p.len() == 0 {
        -1
    } else if p[p.len() - 1] == '/' {
        -1
    } else if p[p.len() - 1] == '.' {
        p.len() - 1
    } else {
        ext_dot(p.drop_last())
    }
}

/// The component markers stay within the path: the name starts inside the
/// path and the extension dot, when present, lies before its end.
pub proof fn lemma_marker_bounds(p: Seq<char>)
    ensures
        0 <= name_start(p) <= p.len(),
        -1 <= ext_dot(p) < p.len(),
    decreases p.len(),
{
    if p.len() > 0 {
        lemma_marker_bounds(p.drop_last());
    }
}

/// Whether the final component carries an extension: it has a `.` that is
/// not its first character (a name that only starts with a dot has none).
pub open spec fn has_extension(p: Seq<char>) -> bool {
    ext_dot(p) > name_start(p)
}

/// The extension: what follows the last `.` of the final component.
pub open spec fn extension_spec(p: Seq<char>) -> Seq<char> {
    p.subrange(ext_dot(p) + 1, p.len() as int)
}

/// The path with its extension replaced (or appended) by `.ext`.
pub open spec fn with_extension_spec(p: Seq<char>, ext: Seq<char>) -> Seq<char> {
    let stem_end = if has_extension(p) {
        ext_dot(p)
    } else {
        p.len() as int
    };
    p.subrange(0, stem_end) + seq!['.'] + ext
}

/// Scans the final component of `v`; returns its start index and the index
/// of its last dot (`n` when there is none).
fn scan_name(v: &Vec<char>) -> (r: (usize, usize))
    ensures
        r.0 == name_start(v@),
        ext_dot(v@) >= 0 ==> r.1 == ext_dot(v@),
        ext_dot(v@) < 0 ==> r.1 == v@.len(),
        r.0 <= v@.len(),
        r.1 <= v@.len(),
{
    let n = v.len();
    let mut i: usize = n;
    let mut dot: usize = n;
    proof {
        assert(v@.subrange(0, n as int) =~= v@);
    }
    while i > 0 && v[i - 1] != '/'
        invariant
            i <= n,
            n == v@.len(),
            name_start(v@) == name_start(v@.subrange(0, i as int)),
            dot == n || (i <= dot < n && v@[dot as int] == '.'),
            (if dot < n {
                ext_dot(v@) == dot
            } else {
                ext_dot(v@) == ext_dot(v@.subrange(0, i as int))
            }),
        decreases i,
    {
        proof {
            let s = v@.subrange(0, i as int);
            assert(s.drop_last() =~= v@.subrange(0, i - 1));
            assert(s.last() == v@[i - 1]);
        }
        if v[i - 1] == '.' && dot == n {
            dot = i - 1;
        }
        i -= 1;
    }
    proof {
        if i > 0 {
            let s = v@.subrange(0, i as int);
            assert(s.last() == v@[i - 1]);
        }
    }
    (i, dot)
}

/// The extension of the path's final component, per `Path::extension`:
/// what follows the last dot, provided that dot is not the component's
/// first character.
pub fn extension_of(path: &str) -> (r: Option<String>)
    ensures
        r is Some <==> has_extension(path@),
        r matches Some(e) ==> e@ == extension_spec(path@),
{
    let v = text::str_to_chars(path);
    let n = v.len();
    let (start, dot) = scan_name(&v);
    proof {
        lemma_marker_bounds(path@);
    }
    if dot < n && dot > start {
        let mut out: Vec<char> = Vec::new();
        let mut i: usize = dot + 1;
        while i < n
            invariant
                dot + 1 <= i <= n,
                n == v@.len(),
                v@ == path@,
                start == name_start(path@),
                dot == ext_dot(path@),
                start < dot < n,
                out@ == v@.subrange(dot + 1, i as int),
            decreases n - i,
        {
            out.push(v[i]);
            proof {
                assert(out@ =~= v@.subrange(dot + 1, i + 1));
            }
            i += 1;
        }
        Some(text::chars_to_string(&out))
    } else {
        None
    }
}

/// The path with its final component's extension replaced by `.ext`
/// (appended when it has none), per `Path::set_extension` with a nonempty
/// extension.
pub fn replace_extension(path: &str, ext: &str) -> (r: String)
    ensures
        r@ == with_extension_spec(path@, ext@),
{
    let v = text::str_to_chars(path);
    let n = v.len();
    let (start, dot) = scan_name(&v);
    proof {
        lemma_marker_bounds(path@);
    }
    let stem_end = if dot < n && dot > start {
        dot
    } else {
        n
    };
    let ghost send = stem_end as int;
    proof {
        assert(send == (if has_extension(path@) {
            ext_dot(path@)
        } else {
            path@.len() as int
        }));
    }
    let mut out: Vec<char> = Vec::new();
    let mut i: usize = 0;
    while i < stem_end
        invariant
            i <= stem_end <= n,
            n == v@.len(),
            v@ == path@,
            stem_end == send,
            send == (if has_extension(path@) {
                ext_dot(path@)
            } else {
                path@.len() as int
            }),
            out@ == v@.subrange(0, i as int),
        decreases stem_end - i,
    {
        out.push(v[i]);
        proof {
            assert(out@ =~= v@.subrange(0, i + 1));
        }
        i += 1;
    }
    out.push('.');
    let e = text::str_to_chars(ext);
    let m = e.len();
    let mut j: usize = 0;
    while j < m
        invariant
            j <= m,
            m == e@.len(),
            e@ == ext@,
            v@ == path@,
            stem_end == send,
            send == (if has_extension(path@) {
                ext_dot(path@)
            } else {
                path@.len() as int
            }),
            stem_end <= v@.len(),
            out@ == v@.subrange(0, stem_end as int) + seq!['.'] + ext@.subrange(0, j as int),
        decreases m - j,
    {
        out.push(e[j]);
        proof {
            assert(out@ =~= v@.subrange(0, stem_end as int) + seq!['.'] + ext@.subrange(
                0,
                j + 1,
            ));
        }
        j += 1;
    }
    proof {
        assert(ext@.subrange(0, m as int) =~= ext@);
        assert(out@ =~= with_extension_spec(path@, ext@));
    }
    text::chars_to_string(&out)
}

/// `base` and `rel` joined with a single separator, per `Path::join` with
/// a relative right-hand side.
pub open spec fn join_spec(base: Seq<char>, rel: Seq<char>) -> Seq<char> {
    if base.len() == 0 || base[base.len() - 1] == '/' {
        base + rel
    } else {
        base + seq!['/'] + rel
    }
}

pub fn join_path(base: &str, rel: &str) -> (r: String)
    ensures
        r@ == join_spec(base@, rel@),
{
    let b = text::str_to_chars(base);
    let mut out = text::str_to_chars(base);
    proof {
        assert(out@ == base@);
    }
    let n = b.len();
    if !(n == 0 || b[n - 1] == '/') {
        out.push('/');
    }
    let e = text::str_to_chars(rel);
    let m = e.len();
    let ghost pre = out@;
    let mut j: usize = 0;
    while j < m
        invariant
            j <= m,
            m == e@.len(),
            e@ == rel@,
            out@ == pre + rel@.subrange(0, j as int),
        decreases m - j,
    {
        out.push(e[j]);
        proof {
            assert(out@ =~= pre + rel@.subrange(0, j + 1));
        }
        j += 1;
    }
    proof {
        assert(rel@.subrange(0, m as int) =~= rel@);
        assert(out@ =~= join_spec(base@, rel@));
    }
    text::chars_to_string(&out)
}

/// Where a source file's output goes: its path relative to the input root,
/// re-rooted under the output directory, with the extension replaced by
/// the batch target extension.
pub fn map_destination(output_dir: &str, relative: &str, ext: &str) -> (r: String)
    ensures
        r@ == with_extension_spec(join_spec(output_dir@, relative@), ext@),
{
    let joined = join_path(output_dir, relative);
    replace_extension(joined.as_str(), ext)
}

} // verus!
