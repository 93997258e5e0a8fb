//! Path text manipulation: joining a directory path with an entry name, and
//! extracting a path's base name.
//!
//! Paths are plain strings whose components are separated by `/`.  These
//! helpers never touch the filesystem; they only compute the path texts that
//! the interpreter's filesystem actions mention.

use vstd::prelude::*;

verus! {

/// The path naming `name` inside the directory `dir`: the two joined with a
/// single `/`, unless `dir` is empty or already ends in one.
pub open spec fn spec_join_path(dir: Seq<char>, name: Seq<char>) -> Seq<char> {
    if dir.len() == 0 || dir.last() == '/' {
        dir + name
    } else {
        dir + seq!['/'] + name
    }
}

/// `p` with every trailing `/` removed.
pub open spec fn strip_trailing_slashes(p: Seq<char>) -> Seq<char>
    decreases p.len(),
{
    if p.len() > 0 && p.last() == '/' {
        strip_trailing_slashes(p.drop_last())
    } else {
        p
    }
}

/// The suffix of `q` after its last `/`; all of `q` when it has none.
pub open spec fn after_last_slash(q: Seq<char>) -> Seq<char>
    decreases q.len(),
{
    if q.len() == 0 {
        Seq::empty()
    } else if q.last() == '/' {
        Seq::empty()
    } else {
        after_last_slash(q.drop_last()).push(q.last())
    }
}

/// The base name of a path: the final component once trailing slashes are
/// dropped.  A path with no final component (empty, all slashes) or whose
/// final component is `.` or `..` has none.
pub open spec fn spec_base_name(p: Seq<char>) -> Option<Seq<char>> {
    let b = after_last_slash(strip_trailing_slashes(p));
    if b.len() == 0 || b == "."@ || b == ".."@ {
        Option::None
    } else {
        Option::Some(b)
    }
}

/// Joins `dir` and `name` as [`spec_join_path`] describes.
pub fn join_path(dir: &str, name: &str) -> (r: String)
    ensures
        r@ == spec_join_path(dir@, name@),
{
    let dlen = dir.unicode_len();
    let mut r = dir.to_owned();
    if dlen > 0 && dir.get_char(dlen - 1) != '/' {
        r.append("/");
        proof {
            reveal_strlit("/");
            assert("/"@ =~= seq!['/']);
        }
    }
    r.append(name);
    r
}

/// The base name of `p`, as [`spec_base_name`] describes.
pub fn base_name(p: &str) -> (r: Option<String>)
    ensures
        match r {
            Option::Some(b) => spec_base_name(p@) == Option::Some(b@),
            Option::None => spec_base_name(p@) == Option::None::<Seq<char>>,
        },
{
    let len = p.unicode_len();
    let mut e: usize = len;
    proof {
        assert(p@.take(len as int) =~= p@);
    }
    while e > 0 && p.get_char(e - 1) == '/'
        invariant
            e <= len,
            len == p@.len(),
            strip_trailing_slashes(p@) == strip_trailing_slashes(p@.take(e as int)),
        decreases e,
    {
        proof {
            assert(p@.take(e as int).drop_last() =~= p@.take(e as int - 1));
        }
        e -= 1;
    }
    proof {
        assert(strip_trailing_slashes(p@.take(e as int)) == p@.take(e as int));
    }
    let ghost q = p@.take(e as int);
    let mut s: usize = e;
    proof {
        assert(q.take(e as int) =~= q);
        assert(after_last_slash(q) + q.skip(e as int) =~= after_last_slash(q.take(e as int))
            + q.skip(e as int));
        assert(after_last_slash(q) + q.skip(e as int) =~= after_last_slash(q));
    }
    while s > 0 && p.get_char(s - 1) != '/'
        invariant
            s <= e <= len,
            len == p@.len(),
            q == p@.take(e as int),
            after_last_slash(q) =~= after_last_slash(q.take(s as int)) + q.skip(s as int),
        decreases s,
    {
        proof {
            assert(q.take(s as int).last() == p@[s as int - 1]);
            assert(q.take(s as int).drop_last() =~= q.take(s as int - 1));
            assert(after_last_slash(q.take(s as int)) == after_last_slash(
                q.take(s as int - 1),
            ).push(q[s as int - 1]));
            assert(after_last_slash(q.take(s as int - 1)).push(q[s as int - 1]) + q.skip(s as int)
                =~= after_last_slash(q.take(s as int - 1)) + q.skip(s as int - 1));
        }
        s -= 1;
    }
    proof {
        if s > 0 {
            assert(q.take(s as int).last() == '/');
            assert(after_last_slash(q.take(s as int)) == Seq::<char>::empty());
        } else {
            assert(q.take(0) =~= Seq::<char>::empty());
            assert(after_last_slash(q.take(0)) == Seq::<char>::empty());
        }
        assert(Seq::<char>::empty() + q.skip(s as int) =~= q.skip(s as int));
        assert(after_last_slash(q) =~= q.skip(s as int));
        assert(q.skip(s as int) =~= p@.subrange(s as int, e as int));
    }
    let b = p.substring_char(s, e);
    if b.unicode_len() == 0 {
        return Option::None;
    }
    if crate::text::str_eq(b, ".") || crate::text::str_eq(b, "..") {
        return Option::None;
    }
    Option::Some(b.to_owned())
}

} // verus!
