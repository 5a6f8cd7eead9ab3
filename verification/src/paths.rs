//! Path arithmetic: splitting on a separator, joining a directory with a
//! file name, removing a path's last component, and resolving a dotted
//! relative argument against a current directory.

use vstd::prelude::*;
use crate::strutil::{push_char, str_eq};

verus! {

/// The split of `s` on `sep` carried from position `i`, with the field
/// being accumulated and the fields already emitted.
pub open spec fn split_from(
    s: Seq<char>,
    sep: char,
    i: int,
    cur: Seq<char>,
    acc: Seq<Seq<char>>,
) -> Seq<Seq<char>>
    decreases s.len() - i,
{
    if i < 0 || i >= s.len() {
        acc.push(cur)
    } else if s[i] == sep {
        split_from(s, sep, i + 1, Seq::empty(), acc.push(cur))
    } else {
        split_from(s, sep, i + 1, cur.push(s[i]), acc)
    }
}

/// The fields of `s` between occurrences of `sep`, in order. The empty
/// string yields one empty field, and adjacent separators yield empty
/// fields, as `str::split` with a character pattern does.
pub open spec fn split_spec(s: Seq<char>, sep: char) -> Seq<Seq<char>> {
    split_from(s, sep, 0, Seq::empty(), Seq::empty())
}

/// Splits a string on a separator character.
pub fn split_on(s: &str, sep: char) -> (fields: Vec<String>)
    ensures
        fields.deep_view() == split_spec(s@, sep),
{
    let n = s.unicode_len();
    let mut cur = String::new();
    let mut acc: Vec<String> = Vec::new();
    proof {
        assert(acc.deep_view() =~= Seq::<Seq<char>>::empty());
    }
    let mut i: usize = 0;
    while i < n
        invariant
            n == s@.len(),
            i <= n,
            split_spec(s@, sep) == split_from(s@, sep, i as int, cur@, acc.deep_view()),
        decreases n - i,
    {
        let ghost cur_pre = cur@;
        let ghost acc_pre = acc.deep_view();
        let c = s.get_char(i);
        if c == sep {
            acc.push(cur);
            cur = String::new();
            proof {
                assert(acc.deep_view() =~= acc_pre.push(cur_pre));
            }
        } else {
            push_char(&mut cur, c);
            proof {
                assert(cur@ =~= cur_pre.push(c));
            }
        }
        i = i + 1;
    }
    let ghost cur_pre = cur@;
    let ghost acc_pre = acc.deep_view();
    acc.push(cur);
    proof {
        assert(acc.deep_view() =~= acc_pre.push(cur_pre));
    }
    acc
}

/// How a directory and a file name combine into one path: an absolute name
/// stands alone, an empty directory contributes nothing, and otherwise a
/// separator is inserted unless the directory already ends with one.
pub open spec fn join_spec(dir: Seq<char>, name: Seq<char>) -> Seq<char> {
    if name.len() > 0 && name[0] == '/' {
        name
    } else if dir.len() == 0 {
        name
    } else if dir[dir.len() - 1] == '/' {
        dir + name
    } else {
        dir + seq!['/'] + name
    }
}

/// Joins a directory with a file name.
pub fn join_path(dir: &str, name: &str) -> (r: String)
    ensures
        r@ == join_spec(dir@, name@),
{
    proof {
        reveal_strlit("/");
    }
    let nl = name.unicode_len();
    if nl > 0 && name.get_char(0) == '/' {
        return String::from_str(name);
    }
    let dl = dir.unicode_len();
    if dl == 0 {
        return String::from_str(name);
    }
    let mut r = String::from_str(dir);
    if dir.get_char(dl - 1) != '/' {
        r.append("/");
        proof {
            assert(r@ =~= dir@ + seq!['/']);
        }
    }
    r.append(name);
    r
}

/// The sequence with every trailing `/` removed.
pub open spec fn rstrip_slashes(s: Seq<char>) -> Seq<char>
    decreases s.len(),
{
    if s.len() > 0 && s[s.len() - 1] == '/' {
        rstrip_slashes(s.drop_last())
    } else {
        s
    }
}

/// The sequence with its trailing run of non-`/` characters removed.
pub open spec fn drop_last_component(s: Seq<char>) -> Seq<char>
    decreases s.len(),
{
    if s.len() > 0 && s[s.len() - 1] != '/' {
        drop_last_component(s.drop_last())
    } else {
        s
    }
}

/// The parent of a path: the path with its last component (and the
/// separator before it) removed. The root and any run of slashes stay at
/// the root, a single relative component becomes the empty path, and the
/// empty path stays empty.
pub open spec fn pop_spec(s: Seq<char>) -> Seq<char> {
    let t = rstrip_slashes(s);
    if t.len() == 0 {
        if s.len() > 0 {
            seq!['/']
        } else {
            Seq::empty()
        }
    } else {
        let u = drop_last_component(t);
        if u.len() == 0 {
            Seq::empty()
        } else {
            let v = rstrip_slashes(u);
            if v.len() == 0 {
                seq!['/']
            } else {
                v
            }
        }
    }
}

/// Removes the last component of a path.
pub fn pop_path(s: &str) -> (r: String)
    ensures
        r@ == pop_spec(s@),
{
    proof {
        reveal_strlit("/");
    }
    let n = s.unicode_len();
    proof {
        assert(s@.take(n as int) =~= s@);
    }
    let mut j = n;
    while j > 0 && s.get_char(j - 1) == '/'
        invariant
            j <= n,
            n == s@.len(),
            rstrip_slashes(s@) == rstrip_slashes(s@.take(j as int)),
        decreases j,
    {
        proof {
            assert(s@.take(j as int).drop_last() =~= s@.take(j as int - 1));
        }
        j = j - 1;
    }
    proof {
        assert(rstrip_slashes(s@.take(j as int)) == s@.take(j as int));
    }
    if j == 0 {
        if n > 0 {
            let r = String::from_str("/");
            proof {
                assert(r@ =~= seq!['/']);
            }
            return r;
        } else {
            return String::new();
        }
    }
    let mut k = j;
    while k > 0 && s.get_char(k - 1) != '/'
        invariant
            k <= j,
            j <= n,
            n == s@.len(),
            drop_last_component(s@.take(j as int)) == drop_last_component(s@.take(k as int)),
        decreases k,
    {
        proof {
            assert(s@.take(k as int).drop_last() =~= s@.take(k as int - 1));
        }
        k = k - 1;
    }
    proof {
        assert(drop_last_component(s@.take(k as int)) == s@.take(k as int));
    }
    if k == 0 {
        return String::new();
    }
    let mut m = k;
    while m > 0 && s.get_char(m - 1) == '/'
        invariant
            m <= k,
            k <= n,
            n == s@.len(),
            rstrip_slashes(s@.take(k as int)) == rstrip_slashes(s@.take(m as int)),
        decreases m,
    {
        proof {
            assert(s@.take(m as int).drop_last() =~= s@.take(m as int - 1));
        }
        m = m - 1;
    }
    proof {
        assert(rstrip_slashes(s@.take(m as int)) == s@.take(m as int));
    }
    if m == 0 {
        let r = String::from_str("/");
        proof {
            assert(r@ =~= seq!['/']);
        }
        return r;
    }
    let sub = s.substring_char(0, m);
    proof {
        assert(sub@ =~= s@.take(m as int));
    }
    String::from_str(sub)
}

/// How one segment of a dotted argument moves the current directory:
/// `.` and the empty segment stay, `..` goes to the parent, and any other
/// segment descends into that child.
pub open spec fn apply_segment(cur: Seq<char>, seg: Seq<char>) -> Seq<char> {
    if seg.len() == 0 || seg == seq!['.'] {
        cur
    } else if seg == seq!['.', '.'] {
        pop_spec(cur)
    } else {
        join_spec(cur, seg)
    }
}

/// The segments applied to the current directory left to right, from
/// position `i` on.
pub open spec fn apply_segments(cur: Seq<char>, segs: Seq<Seq<char>>, i: int) -> Seq<char>
    decreases segs.len() - i,
{
    if i < 0 || i >= segs.len() {
        cur
    } else {
        apply_segments(apply_segment(cur, segs[i]), segs, i + 1)
    }
}

/// Where a dotted relative argument leads from `cur`: the argument's
/// slash-separated segments applied left to right.
pub open spec fn resolve_dotted_spec(cur: Seq<char>, arg: Seq<char>) -> Seq<char> {
    apply_segments(cur, split_spec(arg, '/'), 0)
}

/// Resolves a relative argument such as `..`, `./x`, or `../a/b` against
/// the current directory.
pub fn resolve_dotted(cur: &str, arg: &str) -> (r: String)
    ensures
        r@ == resolve_dotted_spec(cur@, arg@),
{
    proof {
        reveal_strlit(".");
        reveal_strlit("..");
    }
    let segs = split_on(arg, '/');
    let mut r = String::from_str(cur);
    let mut i: usize = 0;
    while i < segs.len()
        invariant
            i <= segs.len(),
            segs.deep_view() == split_spec(arg@, '/'),
            resolve_dotted_spec(cur@, arg@) == apply_segments(r@, segs.deep_view(), i as int),
        decreases segs.len() - i,
    {
        let ghost r_pre = r@;
        let ghost seg_g = segs.deep_view()[i as int];
        let seg = &segs[i];
        proof {
            reveal_strlit(".");
            reveal_strlit("..");
            assert(seg_g == seg@);
        }
        if seg.as_str().is_empty() {
        } else if str_eq(seg.as_str(), ".") {
            proof {
                assert(seg_g =~= seq!['.']);
            }
        } else if str_eq(seg.as_str(), "..") {
            proof {
                assert(seg_g =~= seq!['.', '.']);
            }
            r = pop_path(r.as_str());
        } else {
            proof {
                if seg_g == seq!['.'] {
                    assert(seg_g =~= "."@);
                }
                if seg_g == seq!['.', '.'] {
                    assert(seg_g =~= ".."@);
                }
            }
            r = join_path(r.as_str(), seg.as_str());
        }
        proof {
            assert(r@ == apply_segment(r_pre, seg_g));
        }
        i = i + 1;
    }
    r
}

/// A joined search-path candidate always ends with the file name it was
/// built from; so the path that name resolution reports for a name ends
/// with that name.
pub proof fn lemma_join_ends_with_name(dir: Seq<char>, name: Seq<char>)
    ensures
        join_spec(dir, name).len() >= name.len(),
        join_spec(dir, name).skip(join_spec(dir, name).len() - name.len()) == name,
{
    let j = join_spec(dir, name);
    if name.len() > 0 && name[0] == '/' {
        assert(j.skip(j.len() - name.len()) =~= name);
    } else if dir.len() == 0 {
        assert(j.skip(j.len() - name.len()) =~= name);
    } else if dir[dir.len() - 1] == '/' {
        assert(j.skip(j.len() - name.len()) =~= name);
    } else {
        assert(j.skip(j.len() - name.len()) =~= name);
    }
}

} // verus!
