//! Why a substituted value cannot break out of the JSON string it is
//! written into, nor be taken for a placeholder.

use vstd::prelude::*;
use crate::codec::{decode_text, escape_text, escaped_char, MARKER, MENTION, PREFIX};
use crate::template::{occurs_in, placeholder};

verus! {

/// The character a JSON escape `\e` stands for, for the escapes other than `\u`.
pub open spec fn json_escape_value(e: char) -> Option<char> {
    if e == '\\' {
        Some('\\')
    } else if e == '"' {
        Some('"')
    } else if e == '/' {
        Some('/')
    } else if e == 'n' {
        Some('\n')
    } else if e == 't' {
        Some('\t')
    } else if e == 'r' {
        Some('\r')
    } else if e == 'b' {
        Some('\u{8}')
    } else if e == 'f' {
        Some('\u{c}')
    } else {
        None
    }
}

/// The value of `t` read as the inside of a JSON string (without `\u`
/// escapes): `None` where a bare quote would end the string early, or where
/// an escape or a control character is not allowed.
pub open spec fn json_string_value(t: Seq<char>) -> Option<Seq<char>>
    decreases t.len(),
{
    if t.len() == 0 {
        Some(Seq::empty())
    } else if t[0] == '"' {
        None
    } else if t[0] == '\\' {
        if t.len() < 2 {
            None
        } else {
            match (json_escape_value(t[1]), json_string_value(t.subrange(2, t.len() as int))) {
                (Some(c), Some(rest)) => Some(seq![c] + rest),
                _ => None,
            }
        }
    } else if (t[0] as int) < 32 {
        None
    } else {
        match json_string_value(t.drop_first()) {
            Some(rest) => Some(seq![t[0]] + rest),
            None => None,
        }
    }
}

/// `s` with the zero-width separator after each mention trigger.
pub open spec fn guard_mentions(s: Seq<char>) -> Seq<char>
    decreases s.len(),
{
    if s.len() == 0 {
        Seq::empty()
    } else {
        (if s[0] == MENTION {
            seq![MENTION, MARKER]
        } else {
            seq![s[0]]
        }) + guard_mentions(s.drop_first())
    }
}

/// A value whose control characters are all newlines.
pub open spec fn printable(s: Seq<char>) -> bool {
    forall|i: int| 0 <= i < s.len() ==> s[i] == '\n' || (s[i] as int) >= 32
}

proof fn lemma_decode_concat(x: Seq<char>, y: Seq<char>)
    requires
        !(x.len() > 0 && x.last() == '\\' && y.len() > 0 && y[0] == PREFIX),
    ensures
        decode_text(x + y) == decode_text(x) + decode_text(y),
    decreases x.len(),
{
    if x.len() == 0 {
        assert(x + y =~= y);
    } else if x.len() >= 2 && x[0] == '\\' && x[1] == PREFIX {
        let rest = x.subrange(2, x.len() as int);
        lemma_decode_concat(rest, y);
        assert((x + y).subrange(2, (x + y).len() as int) =~= rest + y);
    } else {
        let rest = x.drop_first();
        lemma_decode_concat(rest, y);
        assert((x + y).drop_first() =~= rest + y);
        if x.len() == 1 {
            assert(rest =~= Seq::<char>::empty());
        }
    }
}

proof fn lemma_escape_front(s: Seq<char>)
    requires
        s.len() > 0,
    ensures
        escape_text(s) == escaped_char(s[0]) + escape_text(s.drop_first()),
    decreases s.len(),
{
    if s.len() == 1 {
        assert(s.drop_last() =~= Seq::<char>::empty());
        assert(s.drop_first() =~= Seq::<char>::empty());
    } else {
        lemma_escape_front(s.drop_last());
        assert(s.drop_last().drop_first() =~= s.drop_first().drop_last());
        assert(s.drop_first().last() == s.last());
    }
}

proof fn lemma_escape_start(s: Seq<char>)
    ensures
        escape_text(s).len() > 0 ==> escape_text(s)[0] != PREFIX,
        escape_text(s).len() == 0 <==> s.len() == 0,
{
    if s.len() > 0 {
        lemma_escape_front(s);
    }
}

/// Every prefix in an escaped value follows a backslash.
proof fn lemma_escape_prefixes(s: Seq<char>)
    ensures
        forall|i: int|
            0 <= i < escape_text(s).len() && #[trigger] escape_text(s)[i] == PREFIX ==> i > 0
                && escape_text(s)[i - 1] == '\\',
    decreases s.len(),
{
    if s.len() > 0 {
        lemma_escape_prefixes(s.drop_last());
        let a = escape_text(s.drop_last());
        let b = escaped_char(s.last());
        assert(escape_text(s) == a + b);
        assert forall|i: int|
            0 <= i < escape_text(s).len() && #[trigger] escape_text(s)[i] == PREFIX implies i > 0
                && escape_text(s)[i - 1] == '\\' by {
            if i < a.len() {
                assert(escape_text(s)[i] == a[i]);
                assert(escape_text(s)[i - 1] == a[i - 1]);
            } else {
                assert(escape_text(s)[i] == b[i - a.len()]);
            }
        }
    }
}

proof fn lemma_escaped_value(s: Seq<char>)
    requires
        printable(s),
    ensures
        json_string_value(decode_text(escape_text(s))) == Some(guard_mentions(s)),
    decreases s.len(),
{
    if s.len() == 0 {
        assert(escape_text(s) =~= Seq::<char>::empty());
    } else {
        let c = s[0];
        let rest = s.drop_first();
        assert(printable(rest)) by {
            assert forall|i: int| 0 <= i < rest.len() implies rest[i] == '\n' || (rest[i] as int)
                >= 32 by {
                assert(rest[i] == s[i + 1]);
            }
        }
        lemma_escaped_value(rest);
        lemma_escape_front(s);
        lemma_escape_start(rest);
        let p = escaped_char(c);
        let t = escape_text(rest);
        lemma_decode_concat(p, t);
        let dt = decode_text(t);
        let g = guard_mentions(rest);
        assert(json_string_value(dt) == Some(g));
        assert(decode_text(escape_text(s)) == decode_text(p) + dt);
        assert(decode_text(Seq::<char>::empty()) =~= Seq::<char>::empty());
        if c == MENTION {
            let q = seq![MARKER];
            assert(p.drop_first() =~= q);
            assert(q.drop_first() =~= Seq::<char>::empty());
            assert(decode_text(q) == seq![MARKER] + decode_text(q.drop_first()));
            assert(decode_text(q) =~= q);
            assert(decode_text(p) == seq![MENTION] + decode_text(p.drop_first()));
            assert(decode_text(p) =~= p);
            let d = p + dt;
            assert(d.drop_first() =~= q + dt);
            assert((q + dt).drop_first() =~= dt);
            assert(json_string_value(q + dt) == Some(seq![MARKER] + g));
            assert(json_string_value(d) == Some(seq![MENTION] + (seq![MARKER] + g)));
            assert(guard_mentions(s) =~= p + g);
            assert(seq![MENTION] + (seq![MARKER] + g) =~= p + g);
        } else {
            assert(guard_mentions(s) == seq![c] + g);
            if c == PREFIX {
                assert(p.subrange(2, 2) =~= Seq::<char>::empty());
                assert(decode_text(p) == seq![PREFIX] + decode_text(p.subrange(2, 2)));
                assert(decode_text(p) =~= seq![PREFIX]);
                let d = seq![PREFIX] + dt;
                assert(d.drop_first() =~= dt);
                assert(json_string_value(d) == Some(seq![PREFIX] + g));
            } else if c == '\\' || c == '\n' || c == '"' {
                assert(seq![p[1]].drop_first() =~= Seq::<char>::empty());
                assert(decode_text(seq![p[1]]) == seq![p[1]] + decode_text(seq![p[1]].drop_first()));
                assert(p.drop_first() =~= seq![p[1]]);
                assert(decode_text(p) == seq![p[0]] + decode_text(p.drop_first()));
                assert(decode_text(p) =~= p);
                let d = p + dt;
                assert(d.subrange(2, d.len() as int) =~= dt);
                assert(d[0] == '\\' && d[1] == p[1]);
                assert(json_escape_value(p[1]) == Some(c));
                assert(json_string_value(d) == Some(seq![c] + g));
            } else {
                assert(p =~= seq![c]);
                assert(p.drop_first() =~= Seq::<char>::empty());
                assert(decode_text(p) == seq![p[0]] + decode_text(p.drop_first()));
                assert(decode_text(p) =~= p);
                let d = p + dt;
                assert(d.drop_first() =~= dt);
                assert(s[0] == '\n' || (s[0] as int) >= 32);
                assert(json_string_value(d) == Some(seq![c] + g));
            }
        }
    }
}

/// An argument written into a body cannot escape its JSON string nor pose
/// as a placeholder: the escaped value holds no active placeholder; where
/// the text after it does not start with a bare prefix, the plain form of the
/// body is the plain form of what stands around it with the value's plain
/// form in between; and that plain form, read as the inside of a JSON
/// string, is the value's own text with its mentions guarded.
pub proof fn lemma_injection_safety(left: Seq<char>, value: Seq<char>, right: Seq<char>, i: nat)
    requires
        printable(value),
        right.len() > 0 ==> right[0] != PREFIX,
    ensures
        !occurs_in(escape_text(value), placeholder(i)),
        decode_text(left + escape_text(value) + right) == decode_text(left) + decode_text(
            escape_text(value),
        ) + decode_text(right),
        json_string_value(decode_text(escape_text(value))) == Some(guard_mentions(value)),
{
    let e = escape_text(value);
    lemma_escape_start(value);
    lemma_escape_prefixes(value);
    if occurs_in(e, placeholder(i)) {
        let k = choose|k: int|
            0 <= k <= e.len() - placeholder(i).len() && #[trigger] e.subrange(
                k,
                k + placeholder(i).len(),
            ) == placeholder(i);
        let w = e.subrange(k, k + placeholder(i).len());
        assert(w[1] == PREFIX && w[0] == MARKER);
        assert(e[k + 1] == PREFIX);
        assert(e[k] == MARKER);
    }
    if e.len() > 0 {
        assert((e + right).len() > 0 && (e + right)[0] == e[0]);
    } else {
        assert(e + right =~= right);
    }
    lemma_decode_concat(left, e + right);
    lemma_decode_concat(e, right);
    assert(left + e + right =~= left + (e + right));
    lemma_escaped_value(value);
}

} // verus!
