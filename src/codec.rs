//! The escaping codec: the marked working form of a stored template body,
//! the escaping of values substituted into it, and the way back.

use vstd::prelude::*;

verus! {

/// The character that starts a placeholder.
pub const PREFIX: char = '$';

/// The invisible character that marks an active prefix (a zero-width space).
pub const MARKER: char = '\u{200B}';

/// The character that triggers a mention.
pub const MENTION: char = '@';

/// Whether the character at `i` is a prefix that the author did not escape
/// with a backslash: such a prefix is marked by `encode`.
pub open spec fn active_prefix_at(s: Seq<char>, i: int) -> bool {
    s[i] == PREFIX && !(i > 0 && s[i - 1] == '\\')
}

/// What `encode` makes of the character at `i`.
pub open spec fn encoded_at(s: Seq<char>, i: int) -> Seq<char> {
    if active_prefix_at(s, i) {
        seq![MARKER, PREFIX]
    } else {
        seq![s[i]]
    }
}

/// The marked form of a stored body: every prefix gets the marker in front of
/// it, except a prefix right after a backslash, whose mark is cancelled again.
pub open spec fn encode_text(s: Seq<char>) -> Seq<char>
    decreases s.len(),
{
    if s.len() == 0 {
        Seq::empty()
    } else {
        encode_text(s.drop_last()) + encoded_at(s, s.len() - 1)
    }
}

/// The plain form of an expanded body: from left to right, each
/// backslash-prefix pair becomes a bare prefix.
pub open spec fn decode_text(s: Seq<char>) -> Seq<char>
    decreases s.len(),
{
    if s.len() == 0 {
        Seq::empty()
    } else if s.len() >= 2 && s[0] == '\\' && s[1] == PREFIX {
        seq![PREFIX] + decode_text(s.subrange(2, s.len() as int))
    } else {
        seq![s[0]] + decode_text(s.drop_first())
    }
}

/// How one character of a substituted value is written into a body.
pub open spec fn escaped_char(c: char) -> Seq<char> {
    if c == PREFIX {
        seq!['\\', PREFIX]
    } else if c == MENTION {
        seq![MENTION, MARKER]
    } else if c == '\\' {
        seq!['\\', '\\']
    } else if c == '\n' {
        seq!['\\', 'n']
    } else if c == '"' {
        seq!['\\', '"']
    } else {
        seq![c]
    }
}

/// A value as it is written into a body: each character escaped on its own.
pub open spec fn escape_text(s: Seq<char>) -> Seq<char>
    decreases s.len(),
{
    if s.len() == 0 {
        Seq::empty()
    } else {
        escape_text(s.drop_last()) + escaped_char(s.last())
    }
}

/// `s` without the double quotes at its start.
pub open spec fn without_leading_quotes(s: Seq<char>) -> Seq<char>
    decreases s.len(),
{
    if s.len() > 0 && s[0] == '"' {
        without_leading_quotes(s.drop_first())
    } else {
        s
    }
}

/// `s` without the double quotes at its end.
pub open spec fn without_trailing_quotes(s: Seq<char>) -> Seq<char>
    decreases s.len(),
{
    if s.len() > 0 && s.last() == '"' {
        without_trailing_quotes(s.drop_last())
    } else {
        s
    }
}

/// `s` without the double quotes that surround it.
pub open spec fn strip_quotes(s: Seq<char>) -> Seq<char> {
    without_trailing_quotes(without_leading_quotes(s))
}

proof fn lemma_encode_step(s: Seq<char>, i: int)
    requires
        0 <= i < s.len(),
    ensures
        encode_text(s.subrange(0, i + 1)) == encode_text(s.subrange(0, i)) + encoded_at(s, i),
{
    let t = s.subrange(0, i + 1);
    assert(t.drop_last() =~= s.subrange(0, i));
    assert(encoded_at(t, i) == encoded_at(s, i));
}

proof fn lemma_escape_step(s: Seq<char>, i: int)
    requires
        0 <= i < s.len(),
    ensures
        escape_text(s.subrange(0, i + 1)) == escape_text(s.subrange(0, i)) + escaped_char(s[i]),
{
    let t = s.subrange(0, i + 1);
    assert(t.drop_last() =~= s.subrange(0, i));
}

/// The marked form of a stored body.
pub fn encode(body: &Vec<char>) -> (r: Vec<char>)
    ensures
        r@ == encode_text(body@),
{
    let mut r: Vec<char> = Vec::new();
    let mut i: usize = 0;
    while i < body.len()
        invariant
            i <= body.len(),
            r@ == encode_text(body@.subrange(0, i as int)),
        decreases body.len() - i,
    {
        proof {
            lemma_encode_step(body@, i as int);
        }
        let c = body[i];
        if c == PREFIX && !(i > 0 && body[i - 1] == '\\') {
            r.push(MARKER);
            r.push(PREFIX);
        } else {
            r.push(c);
        }
        i = i + 1;
    }
    assert(body@.subrange(0, body.len() as int) =~= body@);
    r
}

/// The plain form of an expanded body.
pub fn decode(text: &Vec<char>) -> (r: Vec<char>)
    ensures
        r@ == decode_text(text@),
{
    let mut r: Vec<char> = Vec::new();
    let mut i: usize = 0;
    let n = text.len();
    proof {
        assert(text@.subrange(0, n as int) =~= text@);
        assert(r@ + decode_text(text@) =~= decode_text(text@));
    }
    while i < n
        invariant
            i <= n,
            n == text.len(),
            r@ + decode_text(text@.subrange(i as int, n as int)) == decode_text(text@),
        decreases n - i,
    {
        let rest = Ghost(text@.subrange(i as int, n as int));
        if i + 1 < n && text[i] == '\\' && text[i + 1] == PREFIX {
            assert(rest@.subrange(2, rest@.len() as int) =~= text@.subrange(i + 2, n as int));
            r.push(PREFIX);
            i = i + 2;
        } else {
            assert(rest@.drop_first() =~= text@.subrange(i + 1, n as int));
            r.push(text[i]);
            i = i + 1;
        }
        assert(r@ + decode_text(text@.subrange(i as int, n as int)) =~= decode_text(text@));
    }
    assert(text@.subrange(n as int, n as int) =~= Seq::<char>::empty());
    assert(r@ =~= r@ + Seq::<char>::empty());
    r
}

/// A value escaped for substitution into a body.
pub fn escape_value(value: &Vec<char>) -> (r: Vec<char>)
    ensures
        r@ == escape_text(value@),
{
    let mut r: Vec<char> = Vec::new();
    let mut i: usize = 0;
    while i < value.len()
        invariant
            i <= value.len(),
            r@ == escape_text(value@.subrange(0, i as int)),
        decreases value.len() - i,
    {
        proof {
            lemma_escape_step(value@, i as int);
        }
        let c = value[i];
        if c == PREFIX {
            r.push('\\');
            r.push(PREFIX);
        } else if c == MENTION {
            r.push(MENTION);
            r.push(MARKER);
        } else if c == '\\' {
            r.push('\\');
            r.push('\\');
        } else if c == '\n' {
            r.push('\\');
            r.push('n');
        } else if c == '"' {
            r.push('\\');
            r.push('"');
        } else {
            r.push(c);
        }
        i = i + 1;
    }
    assert(value@.subrange(0, value.len() as int) =~= value@);
    r
}

/// A caller's argument without the double quotes that surround it.
pub fn trim_quotes(arg: &Vec<char>) -> (r: Vec<char>)
    ensures
        r@ == strip_quotes(arg@),
{
    let n = arg.len();
    let mut start: usize = 0;
    proof {
        assert(arg@.subrange(0, n as int) =~= arg@);
    }
    while start < n && arg[start] == '"'
        invariant
            start <= n,
            n == arg.len(),
            without_leading_quotes(arg@.subrange(start as int, n as int)) == without_leading_quotes(arg@),
        decreases n - start,
    {
        assert(arg@.subrange(start as int, n as int).drop_first() =~= arg@.subrange(start + 1, n as int));
        start = start + 1;
    }
    proof {
        assert(arg@.subrange(0, n as int) =~= arg@);
    }
    let mut end: usize = n;
    while end > start && arg[end - 1] == '"'
        invariant
            start <= end <= n,
            n == arg.len(),
            without_trailing_quotes(arg@.subrange(start as int, end as int)) == strip_quotes(arg@),
        decreases end,
    {
        assert(arg@.subrange(start as int, end as int).drop_last() =~= arg@.subrange(start as int, end - 1));
        end = end - 1;
    }
    let mut r: Vec<char> = Vec::new();
    let mut i: usize = start;
    while i < end
        invariant
            start <= i <= end <= n,
            n == arg.len(),
            r@ == arg@.subrange(start as int, i as int),
        decreases end - i,
    {
        r.push(arg[i]);
        i = i + 1;
    }
    proof {
        let s = arg@.subrange(start as int, end as int);
        assert(r@ =~= s);
        assert(!(s.len() > 0 && s[0] == '"') ==> without_leading_quotes(s) == s);
    }
    r
}

} // verus!
