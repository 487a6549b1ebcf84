//! Small verified string utilities: character-exact equality of string
//! slices, decimal rendering of unsigned integers, and splitting a string on
//! the protocol's CRLF separator.

use vstd::prelude::*;

verus! {

/// The views of a sequence of strings, element by element.
pub open spec fn views_of(ss: Seq<String>) -> Seq<Seq<char>> {
    ss.map_values(|s: String| s@)
}

/// Character-exact equality of two string slices.
pub fn str_eq(a: &str, b: &str) -> (r: bool)
    ensures
        r == (a@ == b@),
{
    let an = a.unicode_len();
    let bn = b.unicode_len();
    if an != bn {
        return false;
    }
    let mut i: usize = 0;
    while i < an
        invariant
            i <= an,
            an == a@.len(),
            an == b@.len(),
            forall|j: int| 0 <= j < i ==> a@[j] == b@[j],
        decreases an - i,
    {
        if a.get_char(i) != b.get_char(i) {
            return false;
        }
        i += 1;
    }
    proof {
        assert(a@ =~= b@);
    }
    true
}

/// The character for a single decimal digit.
pub open spec fn digit_char(d: nat) -> char {
    if d == 0 {
        '0'
    } else if d == 1 {
        '1'
    } else if d == 2 {
        '2'
    } else if d == 3 {
        '3'
    } else if d == 4 {
        '4'
    } else if d == 5 {
        '5'
    } else if d == 6 {
        '6'
    } else if d == 7 {
        '7'
    } else if d == 8 {
        '8'
    } else {
        '9'
    }
}

/// The usual decimal rendering of `n`: most significant digit first, no
/// leading zeros except for `n == 0` itself.
pub open spec fn dec_digits(n: nat) -> Seq<char>
    decreases n,
{
    if n < 10 {
        seq![digit_char(n)]
    } else {
        dec_digits(n / 10) + seq![digit_char(n % 10)]
    }
}

fn digit_str(d: u64) -> (r: &'static str)
    requires
        d < 10,
    ensures
        r@ == seq![digit_char(d as nat)],
{
    proof {
        reveal_strlit("0");
        reveal_strlit("1");
        reveal_strlit("2");
        reveal_strlit("3");
        reveal_strlit("4");
        reveal_strlit("5");
        reveal_strlit("6");
        reveal_strlit("7");
        reveal_strlit("8");
        reveal_strlit("9");
    }
    let r = if d == 0 {
        "0"
    } else if d == 1 {
        "1"
    } else if d == 2 {
        "2"
    } else if d == 3 {
        "3"
    } else if d == 4 {
        "4"
    } else if d == 5 {
        "5"
    } else if d == 6 {
        "6"
    } else if d == 7 {
        "7"
    } else if d == 8 {
        "8"
    } else {
        "9"
    };
    proof {
        assert(r@ =~= seq![digit_char(d as nat)]);
    }
    r
}

/// Renders `n` in decimal.
pub fn dec_u64(n: u64) -> (s: String)
    ensures
        s@ == dec_digits(n as nat),
    decreases n,
{
    if n < 10 {
        digit_str(n).to_owned()
    } else {
        dec_u64(n / 10).concat(digit_str(n % 10))
    }
}

/// The pieces of `s` between occurrences of the two-character separator
/// `\r\n`, in order, as Rust's `str::split("\r\n")` yields them: always at
/// least one piece, empty pieces kept.
pub open spec fn split_crlf(s: Seq<char>) -> Seq<Seq<char>>
    decreases s.len(),
{
    if s.len() >= 2 && s[0] == '\r' && s[1] == '\n' {
        seq![Seq::<char>::empty()] + split_crlf(s.skip(2))
    } else if s.len() >= 1 {
        let rest = split_crlf(s.skip(1));
        seq![seq![s[0]] + rest[0]] + rest.skip(1)
    } else {
        seq![Seq::<char>::empty()]
    }
}

/// `ss` with `p` prefixed onto its first piece.
spec fn graft_first(p: Seq<char>, ss: Seq<Seq<char>>) -> Seq<Seq<char>>
    recommends
        ss.len() >= 1,
{
    seq![p + ss[0]] + ss.skip(1)
}

proof fn lemma_split_crlf_nonempty(s: Seq<char>)
    ensures
        split_crlf(s).len() >= 1,
    decreases s.len(),
{
    if s.len() >= 2 && s[0] == '\r' && s[1] == '\n' {
        lemma_split_crlf_nonempty(s.skip(2));
    } else if s.len() >= 1 {
        lemma_split_crlf_nonempty(s.skip(1));
    }
}

proof fn lemma_graft_empty(ss: Seq<Seq<char>>)
    requires
        ss.len() >= 1,
    ensures
        graft_first(Seq::<char>::empty(), ss) == ss,
{
    assert(Seq::<char>::empty() + ss[0] =~= ss[0]);
    assert(graft_first(Seq::<char>::empty(), ss) =~= ss);
}

proof fn lemma_graft_graft(p: Seq<char>, q: Seq<char>, ss: Seq<Seq<char>>)
    requires
        ss.len() >= 1,
    ensures
        graft_first(p, graft_first(q, ss)) == graft_first(p + q, ss),
{
    assert(p + (q + ss[0]) =~= (p + q) + ss[0]);
    assert(graft_first(p, graft_first(q, ss)) =~= graft_first(p + q, ss));
}

/// Stepping the split past a separator at the front.
proof fn lemma_split_sep(p: Seq<char>, s: Seq<char>)
    requires
        s.len() >= 2,
        s[0] == '\r',
        s[1] == '\n',
    ensures
        graft_first(p, split_crlf(s)) == seq![p] + split_crlf(s.skip(2)),
{
    lemma_split_crlf_nonempty(s.skip(2));
    assert(p + Seq::<char>::empty() =~= p);
    assert(graft_first(p, split_crlf(s)) =~= seq![p] + split_crlf(s.skip(2)));
}

/// Stepping the split past an ordinary character at the front.
proof fn lemma_split_char(p: Seq<char>, s: Seq<char>)
    requires
        s.len() >= 1,
        !(s.len() >= 2 && s[0] == '\r' && s[1] == '\n'),
    ensures
        graft_first(p, split_crlf(s)) == graft_first(p + seq![s[0]], split_crlf(s.skip(1))),
{
    let rest = split_crlf(s.skip(1));
    lemma_split_crlf_nonempty(s.skip(1));
    assert(split_crlf(s) == graft_first(seq![s[0]], rest));
    lemma_graft_graft(p, seq![s[0]], rest);
}

/// Splits `s` on the `\r\n` separator, keeping empty pieces.
pub fn split_crlf_exec(s: &str) -> (r: Vec<String>)
    ensures
        views_of(r@) == split_crlf(s@),
{
    let n = s.unicode_len();
    let mut out: Vec<String> = Vec::new();
    let mut start: usize = 0;
    let mut i: usize = 0;
    proof {
        assert(s@.skip(0) =~= s@);
        assert(s@.subrange(0, 0) =~= Seq::<char>::empty());
        lemma_split_crlf_nonempty(s@);
        lemma_graft_empty(split_crlf(s@));
        assert(views_of(out@) + graft_first(s@.subrange(0, 0), split_crlf(s@.skip(0)))
            =~~= split_crlf(s@));
    }
    while i < n
        invariant
            start <= i <= n,
            n == s@.len(),
            split_crlf(s@) == views_of(out@) + graft_first(
                s@.subrange(start as int, i as int),
                split_crlf(s@.skip(i as int)),
            ),
        decreases n - i,
    {
        let ghost tail = s@.skip(i as int);
        let ghost piece = s@.subrange(start as int, i as int);
        proof {
            assert(tail.len() == n - i);
            assert(tail[0] == s@[i as int]);
            if i + 1 < n {
                assert(tail[1] == s@[i + 1]);
            }
        }
        if i + 1 < n && s.get_char(i) == '\r' && s.get_char(i + 1) == '\n' {
            let word = s.substring_char(start, i).to_owned();
            let ghost done = out@;
            out.push(word);
            proof {
                lemma_split_sep(piece, tail);
                assert(tail.skip(2) =~= s@.skip(i + 2));
                lemma_split_crlf_nonempty(s@.skip(i + 2));
                lemma_graft_empty(split_crlf(s@.skip(i + 2)));
                assert(s@.subrange(i + 2, i + 2) =~= Seq::<char>::empty());
                assert(views_of(out@) =~~= views_of(done).push(word@));
                assert(split_crlf(s@) == views_of(out@) + graft_first(
                    s@.subrange(i + 2, i + 2),
                    split_crlf(s@.skip(i + 2)),
                ));
            }
            start = i + 2;
            i = i + 2;
        } else {
            proof {
                lemma_split_char(piece, tail);
                assert(tail.skip(1) =~= s@.skip(i + 1));
                assert(piece + seq![tail[0]] =~= s@.subrange(start as int, i + 1));
            }
            i = i + 1;
        }
    }
    let last = s.substring_char(start, n).to_owned();
    let ghost done = out@;
    out.push(last);
    proof {
        assert(s@.skip(n as int) =~= Seq::<char>::empty());
        assert(split_crlf(Seq::<char>::empty()) == seq![Seq::<char>::empty()]);
        assert(s@.subrange(start as int, n as int) + Seq::<char>::empty()
            =~= s@.subrange(start as int, n as int));
        assert(graft_first(s@.subrange(start as int, n as int), seq![Seq::<char>::empty()])
            =~~= seq![last@]);
        assert(views_of(out@) =~~= views_of(done).push(last@));
        assert(views_of(out@) =~~= split_crlf(s@));
    }
    out
}

} // verus!
