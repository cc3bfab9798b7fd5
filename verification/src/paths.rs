//! Unix path joining and comparison, as `std::path` does them.
use vstd::prelude::*;
use crate::text::{append_chars, from_chars, to_chars, views_of};

verus! {

/// `base.join(rel)` on Unix: an absolute `rel` replaces `base`; otherwise a
/// separator is put between them unless `base` is empty or already ends in one.
pub open spec fn join_spec(base: Seq<char>, rel: Seq<char>) -> Seq<char> {
    if rel.len() > 0 && rel[0] == '/' {
        rel
    } else if base.len() == 0 || base.last() == '/' {
        base + rel
    } else {
        base + seq!['/'] + rel
    }
}

/// `PathBuf::join` on character sequences.
pub fn join(base: &[char], rel: &[char]) -> (r: Vec<char>)
    ensures
        r@ == join_spec(base@, rel@),
{
    let mut r: Vec<char> = Vec::new();
    if rel.len() > 0 && rel[0] == '/' {
        append_chars(&mut r, rel);
        assert(r@ =~= rel@);
        return r;
    }
    append_chars(&mut r, base);
    if !(base.len() == 0 || base[base.len() - 1] == '/') {
        r.push('/');
    }
    append_chars(&mut r, rel);
    r
}

/// `Path::join` on strings.
pub fn join_str(base: &str, rel: &str) -> (r: String)
    ensures
        r@ == join_spec(base@, rel@),
{
    let b = to_chars(base);
    let l = to_chars(rel);
    let j = join(b.as_slice(), l.as_slice());
    from_chars(j.as_slice())
}

/// `Path::is_relative` on Unix: the path does not begin with `/`.
pub open spec fn is_relative_spec(p: Seq<char>) -> bool {
    !(p.len() > 0 && p[0] == '/')
}

/// The component that a finished part contributes: none for an empty part or `.`.
pub open spec fn part_component(cur: Seq<char>) -> Seq<Seq<char>> {
    if cur.len() > 0 && cur != seq!['.'] {
        seq![cur]
    } else {
        seq![]
    }
}

/// The normal components of the parts of `s` after the pending part `cur`.
pub open spec fn parts_from(s: Seq<char>, cur: Seq<char>) -> Seq<Seq<char>>
    decreases s.len(),
{
    if s.len() == 0 {
        part_component(cur)
    } else if s[0] == '/' {
        part_component(cur) + parts_from(s.drop_first(), seq![])
    } else {
        parts_from(s.drop_first(), cur.push(s[0]))
    }
}

/// The leading component of `p`: the root (`/`) for an absolute path, the
/// current directory (`.`) for a path that is `.` or begins with `./`.
pub open spec fn lead_component(p: Seq<char>) -> Seq<Seq<char>> {
    if p.len() > 0 && p[0] == '/' {
        seq![seq!['/']]
    } else if p == seq!['.'] || (p.len() >= 2 && p[0] == '.' && p[1] == '/') {
        seq![seq!['.']]
    } else {
        seq![]
    }
}

/// `Path::components` on Unix, with the root written `/` and the current
/// directory written `.`.
pub open spec fn components_spec(p: Seq<char>) -> Seq<Seq<char>> {
    lead_component(p) + parts_from(p, seq![])
}

/// Two paths are equal as `Path` values: they have the same components.
pub open spec fn same_path_spec(a: Seq<char>, b: Seq<char>) -> bool {
    components_spec(a) == components_spec(b)
}

fn push_part(r: &mut Vec<Vec<char>>, cur: Vec<char>)
    ensures
        views_of(final(r)@) == views_of(old(r)@) + part_component(cur@),
{
    let ghost before = views_of(r@);
    if cur.len() > 0 && !(cur.len() == 1 && cur[0] == '.') {
        proof {
            if cur@ == seq!['.'] {
                assert(cur@[0] == '.');
            }
        }
        let ghost w = cur@;
        r.push(cur);
        assert(views_of(r@) =~= before + seq![w]);
    } else {
        proof {
            if cur@.len() == 1 {
                assert(cur@ =~= seq!['.']);
            }
        }
        assert(before + part_component(cur@) =~= before);
    }
}

/// `Path::components` on Unix.
pub fn components(p: &[char]) -> (r: Vec<Vec<char>>)
    ensures
        views_of(r@) == components_spec(p@),
{
    let mut r: Vec<Vec<char>> = Vec::new();
    if p.len() > 0 && p[0] == '/' {
        let mut root: Vec<char> = Vec::new();
        root.push('/');
        r.push(root);
    } else if (p.len() == 1 && p[0] == '.') || (p.len() >= 2 && p[0] == '.' && p[1] == '/') {
        let mut dot: Vec<char> = Vec::new();
        dot.push('.');
        r.push(dot);
        proof {
            if p.len() == 1 {
                assert(p@ =~= seq!['.']);
            }
        }
    } else {
        proof {
            if p@ == seq!['.'] {
                assert(p@[0] == '.');
            }
        }
    }
    assert(views_of(r@) =~= lead_component(p@));
    let mut cur: Vec<char> = Vec::new();
    let mut i: usize = 0;
    assert(p@.skip(0) =~= p@);
    while i < p.len()
        invariant
            i <= p.len(),
            views_of(r@) + parts_from(p@.skip(i as int), cur@) == components_spec(p@),
        decreases p.len() - i,
    {
        let ghost rest = p@.skip(i as int);
        assert(rest.drop_first() =~= p@.skip(i + 1));
        assert(rest[0] == p@[i as int]);
        if p[i] == '/' {
            let ghost before = views_of(r@);
            let ghost c = cur@;
            push_part(&mut r, cur);
            cur = Vec::new();
            assert(before + (part_component(c) + parts_from(rest.drop_first(), seq![]))
                =~= views_of(r@) + parts_from(rest.drop_first(), seq![]));
            assert(cur@ =~= seq![]);
        } else {
            cur.push(p[i]);
        }
        i += 1;
    }
    assert(p@.skip(i as int) =~= Seq::<char>::empty());
    push_part(&mut r, cur);
    r
}

/// Whether two component lists are equal.
fn same_components(a: &Vec<Vec<char>>, b: &Vec<Vec<char>>) -> (r: bool)
    ensures
        r == (views_of(a@) == views_of(b@)),
{
    if a.len() != b.len() {
        assert(views_of(a@).len() != views_of(b@).len());
        return false;
    }
    let mut i: usize = 0;
    while i < a.len()
        invariant
            i <= a.len() == b.len(),
            forall|j: int| 0 <= j < i ==> a@[j]@ == b@[j]@,
        decreases a.len() - i,
    {
        let x = &a[i];
        let y = &b[i];
        let mut eq = x.len() == y.len();
        if eq {
            let mut k: usize = 0;
            while k < x.len()
                invariant
                    k <= x.len() == y.len(),
                    i < a.len() == b.len(),
                    x@ == a@[i as int]@,
                    y@ == b@[i as int]@,
                    forall|j: int| 0 <= j < k ==> x@[j] == y@[j],
                decreases x.len() - k,
            {
                if x[k] != y[k] {
                    assert(views_of(a@)[i as int][k as int] != views_of(b@)[i as int][k as int]);
                    return false;
                }
                k += 1;
            }
            assert(x@ =~= y@);
        } else {
            assert(views_of(a@)[i as int].len() != views_of(b@)[i as int].len());
            return false;
        }
        i += 1;
    }
    assert(views_of(a@) =~= views_of(b@));
    true
}

/// `a == b` for paths: component-wise equality.
pub fn same_path(a: &str, b: &str) -> (r: bool)
    ensures
        r == same_path_spec(a@, b@),
{
    let ca = to_chars(a);
    let cb = to_chars(b);
    let xa = components(ca.as_slice());
    let xb = components(cb.as_slice());
    same_components(&xa, &xb)
}

/// `p` with a leading `~` (alone, or before a `/`) replaced by the home
/// directory `home`, when it is known; any other path is left as it is.
pub open spec fn expand_home_spec(p: Seq<char>, home: Option<Seq<char>>) -> Seq<char> {
    match home {
        Some(h) => if p.len() > 0 && p[0] == '~' && (p.len() == 1 || p[1] == '/') {
            h + p.skip(1)
        } else {
            p
        },
        None => p,
    }
}

/// Expands a leading `~` in `p` to the home directory `home`.
pub fn expand_home(p: &str, home: Option<&str>) -> (r: String)
    ensures
        r@ == expand_home_spec(p@, crate::nix::str_option_view(home)),
{
    match home {
        Some(h) => {
            let cs = to_chars(p);
            if cs.len() > 0 && cs[0] == '~' && (cs.len() == 1 || cs[1] == '/') {
                let mut r = to_chars(h);
                let rest = crate::text::slice_chars(cs.as_slice(), 1, cs.len());
                append_chars(&mut r, rest.as_slice());
                assert(rest@ =~= p@.skip(1));
                from_chars(r.as_slice())
            } else {
                p.to_string()
            }
        },
        None => p.to_string(),
    }
}

} // verus!
