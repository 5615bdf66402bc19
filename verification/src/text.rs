//! Text primitives for the line protocol: splitting a line into
//! whitespace-separated tokens, trimming, and string comparison, each
//! specified over sequences of characters.

use vstd::prelude::*;

verus! {

/// The characters treated as token separators and trimmable padding.
pub open spec fn is_space_char(c: char) -> bool {
    c == ' ' || c == '\t' || c == '\r' || c == '\n'
}

/// A pending token becomes one element of the token list, unless it is empty.
pub open spec fn flush(cur: Seq<char>) -> Seq<Seq<char>> {
    if cur.len() > 0 {
        seq![cur]
    } else {
        Seq::empty()
    }
}

/// The tokens of `s` given a partial token `cur` already read: a single
/// left-to-right pass in which a separator ends the pending token and any
/// other character extends it.
pub open spec fn tokens_from(s: Seq<char>, cur: Seq<char>) -> Seq<Seq<char>>
    decreases s.len(),
{
    if s.len() == 0 {
        flush(cur)
    } else if is_space_char(s[0]) {
        flush(cur) + tokens_from(s.drop_first(), Seq::empty())
    } else {
        tokens_from(s.drop_first(), cur.push(s[0]))
    }
}

/// The whitespace-separated tokens of `s`, in order of appearance.
pub open spec fn tokens_of(s: Seq<char>) -> Seq<Seq<char>> {
    tokens_from(s, Seq::empty())
}

/// `s` with leading separators removed.
pub open spec fn trim_front(s: Seq<char>) -> Seq<char>
    decreases s.len(),
{
    if s.len() > 0 && is_space_char(s[0]) {
        trim_front(s.drop_first())
    } else {
        s
    }
}

/// `s` with trailing separators removed.
pub open spec fn trim_back(s: Seq<char>) -> Seq<char>
    decreases s.len(),
{
    if s.len() > 0 && is_space_char(s.last()) {
        trim_back(s.drop_last())
    } else {
        s
    }
}

/// `s` with leading and trailing separators removed.
pub open spec fn trimmed(s: Seq<char>) -> Seq<char> {
    trim_back(trim_front(s))
}

fn is_space(c: char) -> (r: bool)
    ensures
        r == is_space_char(c),
{
    c == ' ' || c == '\t' || c == '\r' || c == '\n'
}

/// Character-for-character string equality.
pub fn str_eq(a: &str, b: &str) -> (r: bool)
    ensures
        r == (a@ == b@),
{
    let n = a.unicode_len();
    if n != b.unicode_len() {
        return false;
    }
    let mut i: usize = 0;
    while i < n
        invariant
            n == a@.len(),
            n == b@.len(),
            i <= n,
            forall|k: int| 0 <= k < i ==> a@[k] == b@[k],
        decreases n - i,
    {
        if a.get_char(i) != b.get_char(i) {
            return false;
        }
        i = i + 1;
    }
    proof {
        assert(a@ =~= b@);
    }
    true
}

/// Splits `s` into its whitespace-separated tokens, in order.
pub fn tokenize(s: &str) -> (r: Vec<String>)
    ensures
        r.deep_view() == tokens_of(s@),
{
    let n = s.unicode_len();
    let mut out: Vec<String> = Vec::new();
    let mut i: usize = 0;
    let mut start: usize = 0;
    proof {
        assert(s@.subrange(0, 0) =~= Seq::<char>::empty());
        assert(s@.skip(0) =~= s@);
    }
    while i < n
        invariant
            n == s@.len(),
            start <= i <= n,
            forall|k: int| start <= k < i ==> !is_space_char(s@[k]),
            out.deep_view() + tokens_from(s@.skip(i as int), s@.subrange(start as int, i as int))
                == tokens_of(s@),
        decreases n - i,
    {
        let ghost rest = s@.skip(i as int);
        let ghost cur = s@.subrange(start as int, i as int);
        proof {
            assert(rest.len() > 0);
            assert(rest[0] == s@[i as int]);
            assert(rest.drop_first() =~= s@.skip(i as int + 1));
        }
        let c = s.get_char(i);
        if is_space(c) {
            if start < i {
                let ghost prev = out.deep_view();
                let tok = String::from_str(s.substring_char(start, i));
                out.push(tok);
                proof {
                    assert(out.deep_view() =~= prev.push(cur));
                }
            }
            proof {
                assert(tokens_from(rest, cur) == flush(cur) + tokens_from(
                    s@.skip(i as int + 1),
                    Seq::empty(),
                ));
                assert(s@.subrange(i as int + 1, i as int + 1) =~= Seq::<char>::empty());
            }
            i = i + 1;
            start = i;
        } else {
            proof {
                assert(cur.push(s@[i as int]) =~= s@.subrange(start as int, i as int + 1));
                assert(tokens_from(rest, cur) == tokens_from(
                    s@.skip(i as int + 1),
                    s@.subrange(start as int, i as int + 1),
                ));
            }
            i = i + 1;
        }
    }
    let ghost cur = s@.subrange(start as int, n as int);
    proof {
        assert(s@.skip(n as int) =~= Seq::<char>::empty());
        assert(tokens_from(s@.skip(n as int), cur) == flush(cur));
    }
    if start < n {
        let tok = String::from_str(s.substring_char(start, n));
        out.push(tok);
    }
    proof {
        assert(out.deep_view() =~= tokens_of(s@));
    }
    out
}

/// `s` without its trailing copies of `c`.
pub open spec fn strip_trailing(s: Seq<char>, c: char) -> Seq<char>
    decreases s.len(),
{
    if s.len() > 0 && s.last() == c {
        strip_trailing(s.drop_last(), c)
    } else {
        s
    }
}

/// `t` without its trailing copies of `c`.
pub fn strip_trailing_char<'a>(t: &'a str, c: char) -> (r: &'a str)
    ensures
        r@ == strip_trailing(t@, c),
{
    let n = t.unicode_len();
    let mut hi: usize = n;
    proof {
        assert(t@.take(n as int) =~= t@);
    }
    while hi > 0 && t.get_char(hi - 1) == c
        invariant
            n == t@.len(),
            hi <= n,
            strip_trailing(t@, c) == strip_trailing(t@.take(hi as int), c),
        decreases hi,
    {
        proof {
            let part = t@.take(hi as int);
            assert(part.last() == t@[hi as int - 1]);
            assert(part.drop_last() =~= t@.take(hi as int - 1));
        }
        hi = hi - 1;
    }
    proof {
        let part = t@.take(hi as int);
        if hi > 0 {
            assert(part.last() == t@[hi as int - 1]);
        }
        assert(strip_trailing(part, c) == part);
    }
    t.substring_char(0, hi)
}

/// `s` without leading or trailing whitespace.
pub fn trim(s: &str) -> (r: &str)
    ensures
        r@ == trimmed(s@),
{
    let n = s.unicode_len();
    let mut lo: usize = 0;
    proof {
        assert(s@.skip(0) =~= s@);
    }
    while lo < n && is_space(s.get_char(lo))
        invariant
            n == s@.len(),
            lo <= n,
            trim_front(s@) == trim_front(s@.skip(lo as int)),
        decreases n - lo,
    {
        proof {
            let rest = s@.skip(lo as int);
            assert(rest[0] == s@[lo as int]);
            assert(rest.drop_first() =~= s@.skip(lo as int + 1));
        }
        lo = lo + 1;
    }
    proof {
        let rest = s@.skip(lo as int);
        if lo < n {
            assert(rest[0] == s@[lo as int]);
        }
        assert(trim_front(rest) == rest);
        assert(rest =~= s@.subrange(lo as int, n as int));
    }
    let mut hi: usize = n;
    while hi > lo && is_space(s.get_char(hi - 1))
        invariant
            n == s@.len(),
            lo <= hi <= n,
            trim_front(s@) == s@.subrange(lo as int, n as int),
            trim_back(s@.subrange(lo as int, n as int)) == trim_back(
                s@.subrange(lo as int, hi as int),
            ),
        decreases hi,
    {
        proof {
            let part = s@.subrange(lo as int, hi as int);
            assert(part.last() == s@[hi as int - 1]);
            assert(part.drop_last() =~= s@.subrange(lo as int, hi as int - 1));
        }
        hi = hi - 1;
    }
    proof {
        let part = s@.subrange(lo as int, hi as int);
        if hi > lo {
            assert(part.last() == s@[hi as int - 1]);
        }
        assert(trim_back(part) == part);
    }
    s.substring_char(lo, hi)
}

} // verus!
