//! Splitting an input line into whitespace-separated tokens, and joining
//! strings back together for output.

use vstd::prelude::*;

verus! {

/// The whitespace characters the tokenizer recognises: the ASCII blank
/// characters.
pub open spec fn is_shell_ws(c: char) -> bool {
    c == ' ' || c == '\t' || c == '\n' || c == '\r' || c == '\u{b}' || c == '\u{c}'
}

/// The tokens of `s`, accumulating a current token `cur` that has been read
/// so far.  Whitespace ends the current token; a token is emitted only when
/// non-empty.
pub open spec fn toks_acc(s: Seq<char>, cur: Seq<char>) -> Seq<Seq<char>>
    decreases s.len(),
{
    if s.len() == 0 {
        if cur.len() == 0 {
            Seq::empty()
        } else {
            seq![cur]
        }
    } else if is_shell_ws(s[0]) {
        if cur.len() == 0 {
            toks_acc(s.drop_first(), Seq::empty())
        } else {
            seq![cur] + toks_acc(s.drop_first(), Seq::empty())
        }
    } else {
        toks_acc(s.drop_first(), cur.push(s[0]))
    }
}

/// The whitespace-separated tokens of a line.  Leading and trailing
/// whitespace contribute nothing, and no token is empty.
pub open spec fn tokens_of(s: Seq<char>) -> Seq<Seq<char>> {
    toks_acc(s, Seq::empty())
}

/// `", " + args[0] + ", " + args[1] + ...` with a single space in place of
/// each `", "`: the tail of a space-joined rendering.
pub open spec fn tail_join(args: Seq<Seq<char>>) -> Seq<char>
    decreases args.len(),
{
    if args.len() == 0 {
        Seq::empty()
    } else {
        seq![' '] + args[0] + tail_join(args.drop_first())
    }
}

/// The arguments joined by single spaces: what `echo` prints before its
/// newline.
pub open spec fn joined(args: Seq<Seq<char>>) -> Seq<char> {
    if args.len() == 0 {
        Seq::empty()
    } else {
        args[0] + tail_join(args.drop_first())
    }
}

/// Each name followed by a newline, concatenated: what a directory listing
/// prints.
pub open spec fn lines_of(names: Seq<Seq<char>>) -> Seq<char>
    decreases names.len(),
{
    if names.len() == 0 {
        Seq::empty()
    } else {
        names[0] + seq!['\n'] + lines_of(names.drop_first())
    }
}

/// Dropping the first element of the suffix `s.skip(i)` gives the suffix from
/// `i + 1`.
proof fn lemma_skip_succ<A>(s: Seq<A>, i: int)
    requires
        0 <= i < s.len(),
    ensures
        s.skip(i).drop_first() =~= s.skip(i + 1),
        s.skip(i)[0] == s[i],
{
}

/// Character-by-character string equality, decided against the abstract
/// character sequences.
pub fn str_eq(a: &str, b: &str) -> (r: bool)
    ensures
        r == (a@ == b@),
{
    let alen = a.unicode_len();
    let blen = b.unicode_len();
    if alen != blen {
        return false;
    }
    let mut i: usize = 0;
    while i < alen
        invariant
            alen == a@.len(),
            alen == b@.len(),
            i <= alen,
            forall|j: int| 0 <= j < i ==> a@[j] == b@[j],
        decreases alen - i,
    {
        if a.get_char(i) != b.get_char(i) {
            return false;
        }
        i += 1;
    }
    proof {
        assert(a@ =~= b@);
    }
    true
}

/// The whitespace-separated tokens of `line`, as owned strings.
pub fn tokenize(line: &str) -> (r: Vec<String>)
    ensures
        r.deep_view() == tokens_of(line@),
{
    let len = line.unicode_len();
    let mut toks: Vec<String> = Vec::new();
    let mut i: usize = 0;
    let mut start: usize = 0;
    let mut in_tok: bool = false;
    proof {
        assert(line@.skip(0) =~= line@);
        assert(toks.deep_view() =~= Seq::<Seq<char>>::empty());
        assert(Seq::<Seq<char>>::empty() + toks_acc(line@, Seq::empty()) =~= toks_acc(
            line@,
            Seq::empty(),
        ));
    }
    while i < len
        invariant
            len == line@.len(),
            i <= len,
            in_tok ==> start < i,
            !in_tok ==> tokens_of(line@) == toks.deep_view() + toks_acc(
                line@.skip(i as int),
                Seq::empty(),
            ),
            in_tok ==> tokens_of(line@) == toks.deep_view() + toks_acc(
                line@.skip(i as int),
                line@.subrange(start as int, i as int),
            ),
        decreases len - i,
    {
        let c = line.get_char(i);
        proof {
            lemma_skip_succ(line@, i as int);
        }
        if c == ' ' || c == '\t' || c == '\n' || c == '\r' || c == '\u{b}' || c == '\u{c}' {
            if in_tok {
                let t = line.substring_char(start, i).to_owned();
                let ghost pre = toks.deep_view();
                toks.push(t);
                proof {
                    assert(toks.deep_view() =~= pre.push(t@));
                    assert(toks.deep_view() + toks_acc(line@.skip(i as int + 1), Seq::empty())
                        =~= pre + (seq![line@.subrange(start as int, i as int)] + toks_acc(
                        line@.skip(i as int + 1),
                        Seq::empty(),
                    )));
                }
                in_tok = false;
            }
        } else {
            if !in_tok {
                start = i;
                in_tok = true;
                proof {
                    assert(Seq::<char>::empty().push(line@[i as int]) =~= line@.subrange(
                        start as int,
                        i as int + 1,
                    ));
                }
            } else {
                proof {
                    assert(line@.subrange(start as int, i as int).push(line@[i as int])
                        =~= line@.subrange(start as int, i as int + 1));
                }
            }
        }
        i += 1;
    }
    proof {
        assert(line@.skip(len as int) =~= Seq::<char>::empty());
    }
    if in_tok {
        let t = line.substring_char(start, len).to_owned();
        let ghost pre = toks.deep_view();
        toks.push(t);
        proof {
            assert(toks.deep_view() =~= pre.push(t@));
            assert(toks.deep_view() =~= pre + seq![line@.subrange(start as int, len as int)]);
        }
    } else {
        proof {
            assert(toks.deep_view() + Seq::<Seq<char>>::empty() =~= toks.deep_view());
        }
    }
    toks
}

/// The elements of `v` from position `from` on, as fresh strings.
pub fn suffix_strings(v: &Vec<String>, from: usize) -> (r: Vec<String>)
    requires
        from <= v.len(),
    ensures
        r.deep_view() == v.deep_view().skip(from as int),
{
    let mut r: Vec<String> = Vec::new();
    let mut i: usize = from;
    while i < v.len()
        invariant
            from <= i <= v.len(),
            r.deep_view() =~= v.deep_view().subrange(from as int, i as int),
        decreases v.len() - i,
    {
        let ghost pre = r.deep_view();
        r.push(v[i].clone());
        proof {
            assert(r.deep_view() =~= pre.push(v@[i as int]@));
            assert(pre.push(v@[i as int]@) =~= v.deep_view().subrange(from as int, i as int + 1));
        }
        i += 1;
    }
    proof {
        assert(v.deep_view().subrange(from as int, v.deep_view().len() as int) =~= v.deep_view()
            .skip(from as int));
    }
    r
}

/// The arguments joined by single spaces, as [`joined`] describes.
pub fn join_spaces(args: &Vec<String>) -> (r: String)
    ensures
        r@ == joined(args.deep_view()),
{
    if args.len() == 0 {
        let r = String::new();
        proof {
            assert(r@ =~= joined(args.deep_view()));
        }
        return r;
    }
    let mut r = args[0].clone();
    let mut i: usize = 1;
    proof {
        assert(args.deep_view().skip(1) =~= args.deep_view().drop_first());
    }
    while i < args.len()
        invariant
            1 <= i <= args.len(),
            args.len() == args.deep_view().len(),
            joined(args.deep_view()) == r@ + tail_join(args.deep_view().skip(i as int)),
        decreases args.len() - i,
    {
        proof {
            lemma_skip_succ(args.deep_view(), i as int);
        }
        let ghost before = r@;
        r.append(" ");
        r.append(args[i].as_str());
        proof {
            reveal_strlit(" ");
            assert(" "@ =~= seq![' ']);
            assert(tail_join(args.deep_view().skip(i as int)) == seq![' ']
                + args.deep_view().skip(i as int)[0] + tail_join(
                args.deep_view().skip(i as int).drop_first(),
            ));
            assert(before + tail_join(args.deep_view().skip(i as int)) =~= r@ + tail_join(
                args.deep_view().skip(i as int + 1),
            ));
        }
        i += 1;
    }
    proof {
        assert(args.deep_view().skip(args.deep_view().len() as int) =~= Seq::<Seq<char>>::empty());
        assert(r@ + Seq::<char>::empty() =~= r@);
    }
    r
}

/// Each name followed by a newline, concatenated, as [`lines_of`] describes.
pub fn join_lines(names: &Vec<String>) -> (r: String)
    ensures
        r@ == lines_of(names.deep_view()),
{
    let mut r = String::new();
    let mut i: usize = 0;
    proof {
        assert(names.deep_view().skip(0) =~= names.deep_view());
        assert(r@ + lines_of(names.deep_view()) =~= lines_of(names.deep_view()));
    }
    while i < names.len()
        invariant
            i <= names.len(),
            names.len() == names.deep_view().len(),
            lines_of(names.deep_view()) == r@ + lines_of(names.deep_view().skip(i as int)),
        decreases names.len() - i,
    {
        proof {
            lemma_skip_succ(names.deep_view(), i as int);
        }
        let ghost before = r@;
        r.append(names[i].as_str());
        r.append("\n");
        proof {
            reveal_strlit("\n");
            assert("\n"@ =~= seq!['\n']);
            assert(lines_of(names.deep_view().skip(i as int)) == names.deep_view().skip(
                i as int,
            )[0] + seq!['\n'] + lines_of(names.deep_view().skip(i as int).drop_first()));
            assert(before + lines_of(names.deep_view().skip(i as int)) =~= r@ + lines_of(
                names.deep_view().skip(i as int + 1),
            ));
        }
        i += 1;
    }
    proof {
        assert(names.deep_view().skip(names.deep_view().len() as int) =~= Seq::<
            Seq<char>,
        >::empty());
        assert(r@ + Seq::<char>::empty() =~= r@);
    }
    r
}

} // verus!
