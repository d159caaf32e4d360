//! Placeholder substitution: the supplied arguments and the template's
//! default arguments written into the marked form of a body.

use vstd::prelude::*;
use crate::codec::{escape_text, escape_value, strip_quotes, trim_quotes, MARKER, PREFIX};
use crate::text::chars_of;

verus! {

/// `s` with every occurrence of `p` replaced by `r`, the occurrences taken
/// from left to right without overlap.
pub open spec fn replace_all(s: Seq<char>, p: Seq<char>, r: Seq<char>) -> Seq<char>
    decreases s.len(),
{
    if p.len() == 0 || s.len() < p.len() {
        s
    } else if s.subrange(0, p.len() as int) == p {
        r + replace_all(s.subrange(p.len() as int, s.len() as int), p, r)
    } else {
        seq![s[0]] + replace_all(s.drop_first(), p, r)
    }
}

/// Whether `p` occurs in `s`.
pub open spec fn occurs_in(s: Seq<char>, p: Seq<char>) -> bool {
    exists|i: int| 0 <= i <= s.len() - p.len() && #[trigger] s.subrange(i, i + p.len()) == p
}

/// The decimal digit for `d < 10`.
pub open spec fn digit_char(d: nat) -> char {
    if d == 0 {
        '0'
    } else if d == 1 {
        '1'
    } else if d == 2 {
        '2'
    } else if d == 3 {
        '3'
    } else if d == 4 {
        '4'
    } else if d == 5 {
        '5'
    } else if d == 6 {
        '6'
    } else if d == 7 {
        '7'
    } else if d == 8 {
        '8'
    } else {
        '9'
    }
}

/// The decimal writing of `n`.
pub open spec fn decimal(n: nat) -> Seq<char>
    decreases n,
{
    if n < 10 {
        seq![digit_char(n)]
    } else {
        decimal(n / 10) + seq![digit_char(n % 10)]
    }
}

/// The active placeholder for argument `i`: the marked prefix and the index.
pub open spec fn placeholder(i: nat) -> Seq<char> {
    seq![MARKER, PREFIX] + decimal(i)
}

/// The text that stands in a body for a supplied argument.
pub open spec fn argument_text(a: Seq<char>) -> Seq<char> {
    escape_text(strip_quotes(a))
}

/// The views of a list of strings.
pub open spec fn texts(v: Seq<String>) -> Seq<Seq<char>> {
    v.map_values(|a: String| a@)
}

/// The marked body `t` with the placeholders of the supplied arguments filled,
/// argument 0 first.
pub open spec fn fill_args(t: Seq<char>, args: Seq<Seq<char>>) -> Seq<char>
    decreases args.len(),
{
    if args.len() == 0 {
        t
    } else {
        replace_all(
            fill_args(t, args.drop_last()),
            placeholder((args.len() - 1) as nat),
            argument_text(args.last()),
        )
    }
}

/// The body `t` with the placeholders `from .. to` filled from the default
/// arguments `d`; an entry that is not a string fills nothing.
pub open spec fn fill_defaults(t: Seq<char>, d: Seq<Option<Seq<char>>>, from: int, to: int) -> Seq<
    char,
>
    decreases to - from,
{
    if to <= from {
        t
    } else {
        let prev = fill_defaults(t, d, from, to - 1);
        match d[to - 1] {
            Some(v) => replace_all(prev, placeholder((to - 1) as nat), escape_text(v)),
            None => prev,
        }
    }
}

/// The first default argument that is used when `n` arguments were supplied.
pub open spec fn first_default(n: int, len: int) -> int {
    if n < len {
        n
    } else {
        len
    }
}

/// Whether `p` stands in `s` at `i`.
fn matches_at(s: &Vec<char>, i: usize, p: &Vec<char>) -> (r: bool)
    requires
        i + p.len() <= s.len(),
    ensures
        r == (s@.subrange(i as int, i + p.len()) == p@),
{
    let mut k: usize = 0;
    while k < p.len()
        invariant
            k <= p.len(),
            i + p.len() <= s.len(),
            forall|j: int| 0 <= j < k ==> s@[i + j] == p@[j],
        decreases p.len() - k,
    {
        if s[i + k] != p[k] {
            assert(s@.subrange(i as int, i + p.len())[k as int] != p@[k as int]);
            return false;
        }
        k = k + 1;
    }
    assert(s@.subrange(i as int, i + p.len()) =~= p@);
    true
}

/// Whether `p` occurs in `s`.
pub fn contains_chars(s: &Vec<char>, p: &Vec<char>) -> (r: bool)
    ensures
        r == occurs_in(s@, p@),
{
    if p.len() > s.len() {
        return false;
    }
    let last = s.len() - p.len();
    let mut i: usize = 0;
    while i <= last
        invariant
            i <= last,
            last == s.len() - p.len(),
            forall|j: int| 0 <= j < i ==> #[trigger] s@.subrange(j, j + p.len()) != p@,
        decreases last + 1 - i,
    {
        if matches_at(s, i, p) {
            return true;
        }
        if i == last {
            return false;
        }
        i = i + 1;
    }
    false
}

/// `s` with every occurrence of `p` replaced by `r`, from left to right.
pub fn replace_chars(s: &Vec<char>, p: &Vec<char>, r: &Vec<char>) -> (out: Vec<char>)
    requires
        p.len() > 0,
    ensures
        out@ == replace_all(s@, p@, r@),
{
    let n = s.len();
    let mut out: Vec<char> = Vec::new();
    let mut i: usize = 0;
    proof {
        assert(s@.subrange(0, n as int) =~= s@);
        assert(out@ + replace_all(s@, p@, r@) =~= replace_all(s@, p@, r@));
    }
    while i < n
        invariant
            i <= n,
            n == s.len(),
            p.len() > 0,
            out@ + replace_all(s@.subrange(i as int, n as int), p@, r@) == replace_all(s@, p@, r@),
        decreases n - i,
    {
        let ghost rest = s@.subrange(i as int, n as int);
        if p.len() <= n - i && matches_at(s, i, p) {
            assert(rest.subrange(0, p.len() as int) =~= s@.subrange(i as int, i + p.len()));
            assert(rest.subrange(p.len() as int, rest.len() as int) =~= s@.subrange(
                i + p.len(),
                n as int,
            ));
            let mut k: usize = 0;
            let ghost before = out@;
            while k < r.len()
                invariant
                    k <= r.len(),
                    out@ == before + r@.subrange(0, k as int),
                decreases r.len() - k,
            {
                out.push(r[k]);
                k = k + 1;
            }
            assert(r@.subrange(0, r.len() as int) =~= r@);
            assert(out@ + replace_all(s@.subrange(i + p.len(), n as int), p@, r@) =~= before
                + replace_all(rest, p@, r@));
            i = i + p.len();
        } else {
            if p.len() <= n - i {
                assert(rest.subrange(0, p.len() as int) =~= s@.subrange(i as int, i + p.len()));
            }
            assert(rest.drop_first() =~= s@.subrange(i + 1, n as int));
            out.push(s[i]);
            i = i + 1;
        }
    }
    assert(s@.subrange(n as int, n as int) =~= Seq::<char>::empty());
    assert(out@ =~= out@ + Seq::<char>::empty());
    out
}

/// The decimal digit for `d < 10`.
fn digit(d: u64) -> (c: char)
    requires
        d < 10,
    ensures
        c == digit_char(d as nat),
{
    if d == 0 {
        '0'
    } else if d == 1 {
        '1'
    } else if d == 2 {
        '2'
    } else if d == 3 {
        '3'
    } else if d == 4 {
        '4'
    } else if d == 5 {
        '5'
    } else if d == 6 {
        '6'
    } else if d == 7 {
        '7'
    } else if d == 8 {
        '8'
    } else {
        '9'
    }
}

/// The decimal writing of `n`.
pub fn decimal_chars(n: u64) -> (r: Vec<char>)
    ensures
        r@ == decimal(n as nat),
{
    let mut r: Vec<char> = Vec::new();
    let mut q: u64 = n;
    loop
        invariant
            decimal(n as nat) == decimal(q as nat) + r@,
        decreases q,
    {
        let ghost old_r = r@;
        r.insert(0, digit(q % 10));
        if q < 10 {
            assert(r@ =~= seq![digit_char(q as nat)] + old_r);
            return r;
        }
        assert(r@ =~= seq![digit_char((q % 10) as nat)] + old_r);
        assert(decimal(q as nat) == decimal((q / 10) as nat) + seq![digit_char((q % 10) as nat)]);
        assert(decimal(n as nat) =~= decimal((q / 10) as nat) + r@);
        q = q / 10;
    }
}

/// The active placeholder for argument `i`.
pub fn placeholder_chars(i: usize) -> (r: Vec<char>)
    ensures
        r@ == placeholder(i as nat),
        r.len() > 0,
{
    let mut r: Vec<char> = Vec::new();
    r.push(MARKER);
    r.push(PREFIX);
    let d = decimal_chars(i as u64);
    let mut k: usize = 0;
    while k < d.len()
        invariant
            k <= d.len(),
            r@ == seq![MARKER, PREFIX] + d@.subrange(0, k as int),
        decreases d.len() - k,
    {
        r.push(d[k]);
        k = k + 1;
    }
    assert(d@.subrange(0, d.len() as int) =~= d@);
    r
}

/// The marked body `t` with the placeholders of the supplied arguments filled.
pub fn fill_arguments(t: &Vec<char>, args: &Vec<String>) -> (r: Vec<char>)
    ensures
        r@ == fill_args(t@, texts(args@)),
{
    let mut r: Vec<char> = t.clone();
    let mut i: usize = 0;
    proof {
        assert(texts(args@).subrange(0, 0) =~= Seq::<Seq<char>>::empty());
    }
    while i < args.len()
        invariant
            i <= args.len(),
            r@ == fill_args(t@, texts(args@).subrange(0, i as int)),
        decreases args.len() - i,
    {
        let value = escape_value(&trim_quotes(&chars_of(args[i].as_str())));
        r = replace_chars(&r, &placeholder_chars(i), &value);
        proof {
            let all = texts(args@);
            assert(all.subrange(0, i + 1).drop_last() =~= all.subrange(0, i as int));
            assert(all.subrange(0, i + 1).last() == args@[i as int]@);
        }
        i = i + 1;
    }
    assert(texts(args@).subrange(0, args.len() as int) =~= texts(args@));
    r
}

} // verus!
