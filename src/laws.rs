//! Properties of the template engine and of authorization, proved over the
//! specifications the functions are verified against.

use vstd::prelude::*;
use crate::checks::blacklist_passes;
use crate::codec::{decode_text, encode_text, escape_text, PREFIX};
use crate::directive::{argument_source, expanded_source, json_list_member};
use crate::gate::{gate, privilege_of, BlacklistLookup, Denial, Standing};
use crate::store::{has_name, list_model, names_unique, position_of, put_model, remove_model, EntryModel};
use crate::template::{
    argument_text, fill_args, fill_defaults, first_default, occurs_in, placeholder, replace_all,
};

verus! {

proof fn lemma_encode_plain(s: Seq<char>)
    requires
        forall|i: int| 0 <= i < s.len() ==> s[i] != PREFIX,
    ensures
        encode_text(s) == s,
    decreases s.len(),
{
    if s.len() > 0 {
        lemma_encode_plain(s.drop_last());
        assert(s.drop_last() + seq![s.last()] =~= s);
    }
}

proof fn lemma_decode_plain(s: Seq<char>)
    requires
        forall|i: int| 0 <= i < s.len() ==> s[i] != PREFIX,
    ensures
        decode_text(s) == s,
    decreases s.len(),
{
    if s.len() > 0 {
        lemma_decode_plain(s.drop_first());
        assert(seq![s[0]] + s.drop_first() =~= s);
    }
}

/// A body without the prefix character comes back unchanged from marking
/// and unmarking.
pub proof fn lemma_round_trip(body: Seq<char>)
    requires
        forall|i: int| 0 <= i < body.len() ==> body[i] != PREFIX,
    ensures
        decode_text(encode_text(body)) == body,
{
    lemma_encode_plain(body);
    lemma_decode_plain(body);
}

/// With one argument `x` supplied and default arguments `[a, b, c]`, where
/// the body still holds the placeholder for argument 1: placeholder 0 takes
/// `x`, placeholders 1 and 2 take `b` and `c`, and no other placeholder is
/// filled.
pub proof fn lemma_default_fallback(
    body: Seq<char>,
    x: Seq<char>,
    a: Seq<char>,
    b: Seq<char>,
    c: Seq<char>,
)
    requires
        json_list_member(decode_text(argument_source(body, seq![x])), "default_args"@) == Some(
            seq![Some(a), Some(b), Some(c)],
        ),
        occurs_in(argument_source(body, seq![x]), placeholder(1)),
    ensures
        expanded_source(body, seq![x]) == replace_all(
            replace_all(
                replace_all(encode_text(body), placeholder(0), argument_text(x)),
                placeholder(1),
                escape_text(b),
            ),
            placeholder(2),
            escape_text(c),
        ),
{
    let args = seq![x];
    let e = encode_text(body);
    assert(args.drop_last() =~= Seq::<Seq<char>>::empty());
    assert(args.last() == x);
    let t = argument_source(body, args);
    assert(fill_args(e, args.drop_last()) == e);
    assert(t == replace_all(e, placeholder(0), argument_text(x)));
    let d = seq![Some(a), Some(b), Some(c)];
    assert(d.len() == 3);
    assert(first_default(1, 3) == 1);
    assert(fill_defaults(t, d, 1, 1) == t);
    assert(d[1] == Some(b));
    assert(d[2] == Some(c));
    assert(fill_defaults(t, d, 1, 2) == replace_all(t, placeholder(1), escape_text(b)));
    assert(fill_defaults(t, d, 1, 3) == replace_all(
        replace_all(t, placeholder(1), escape_text(b)),
        placeholder(2),
        escape_text(c),
    ));
}

/// An `admin` directive is denied to an invoker without privilege, whatever
/// the blacklist says, and rendered for a privileged one.
pub proof fn lemma_admin_gate(standing: Standing, lookup: Option<BlacklistLookup>)
    ensures
        !standing.spec_privileged() ==> gate(
            privilege_of(Some("admin"@)),
            standing.spec_privileged(),
            lookup,
        ) == Err::<(), Denial>(Denial::NotAdmin),
        standing.spec_privileged() ==> gate(
            privilege_of(Some("admin"@)),
            standing.spec_privileged(),
            lookup,
        ) == Ok::<(), Denial>(()),
{
}

/// A failed blacklist lookup denies a `meme` directive to an invoker without
/// privilege, as a lookup that found the invoker listed does; the same holds
/// of the blacklist check in front of commands.
pub proof fn lemma_blacklist_fail_closed(standing: Standing)
    requires
        !standing.spec_privileged(),
    ensures
        gate(privilege_of(Some("meme"@)), false, Some(BlacklistLookup::Failed)) == Err::<
            (),
            Denial,
        >(Denial::Blacklisted),
        gate(privilege_of(Some("meme"@)), false, None) == Err::<(), Denial>(Denial::Blacklisted),
        gate(privilege_of(Some("meme"@)), false, Some(BlacklistLookup::Listed)) == Err::<
            (),
            Denial,
        >(Denial::Blacklisted),
        !blacklist_passes(true, BlacklistLookup::Failed, standing),
{
    reveal_strlit("meme");
    reveal_strlit("admin");
    assert("meme"@ != "admin"@) by {
        assert("meme"@[0] != "admin"@[0]);
    }
}

/// Removing a name from a table whose names are unique leaves no entry of
/// that name, and the names stay unique.
pub proof fn lemma_remove_then_list(s: Seq<EntryModel>, name: Seq<char>)
    requires
        names_unique(s),
    ensures
        names_unique(remove_model(s, name)),
        forall|j: int|
            0 <= j < list_model(remove_model(s, name)).len() ==> #[trigger] list_model(
                remove_model(s, name),
            )[j].0 != name,
{
    if has_name(s, name) {
        let p = position_of(s, name);
        let r = s.remove(p);
        assert forall|j: int| 0 <= j < r.len() implies r[j].0 != name by {
            if j < p {
                assert(r[j] == s[j]);
            } else {
                assert(r[j] == s[j + 1]);
            }
        }
        assert forall|i: int, j: int|
            0 <= i < r.len() && 0 <= j < r.len() && i != j implies r[i].0 != r[j].0 by {
            let si = if i < p { i } else { i + 1 };
            let sj = if j < p { j } else { j + 1 };
            assert(r[i] == s[si] && r[j] == s[sj]);
        }
    } else {
        assert forall|j: int| 0 <= j < s.len() implies s[j].0 != name by {
            if s[j].0 == name {
                assert(has_name(s, name));
            }
        }
    }
}

/// Defining a command and then listing the table shows its name exactly
/// once; removing it again and then listing no longer shows it.
pub proof fn lemma_define_then_list(
    s: Seq<EntryModel>,
    name: Seq<char>,
    body: Seq<char>,
    description: Seq<char>,
)
    requires
        names_unique(s),
    ensures
        names_unique(put_model(s, name, body, description)),
        exists|i: int|
            0 <= i < list_model(put_model(s, name, body, description)).len()
                && #[trigger] list_model(put_model(s, name, body, description))[i].0 == name
                && forall|j: int|
                0 <= j < list_model(put_model(s, name, body, description)).len()
                    && #[trigger] list_model(put_model(s, name, body, description))[j].0 == name
                    ==> j == i,
        forall|j: int|
            0 <= j < list_model(remove_model(put_model(s, name, body, description), name)).len()
                ==> #[trigger] list_model(
                remove_model(put_model(s, name, body, description), name),
            )[j].0 != name,
{
    let t = put_model(s, name, body, description);
    let l = list_model(t);
    let p = if has_name(s, name) {
        position_of(s, name)
    } else {
        s.len() as int
    };
    if has_name(s, name) {
        assert(s[p].0 == name);
    }
    assert(t[p].0 == name);
    assert forall|j: int| 0 <= j < t.len() && j != p implies t[j] == s[j] && t[j].0 != name by {
        if has_name(s, name) {
            assert(s[j].0 != s[p].0);
        } else if s[j].0 == name {
            assert(has_name(s, name));
        }
    }
    assert(names_unique(t));
    assert(l[p].0 == name);
    assert forall|j: int| 0 <= j < l.len() && #[trigger] l[j].0 == name implies j == p by {
        if j != p {
            assert(t[j].0 != name);
        }
    }
    lemma_remove_then_list(t, name);
}

} // verus!
