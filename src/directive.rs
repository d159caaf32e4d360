//! Directives: the structured message a fully expanded body is read as, and
//! the expansion pipeline that leads from a stored body to one.

use vstd::prelude::*;
use crate::codec::{decode, decode_text, encode, encode_text, escape_value};
use crate::template::{
    contains_chars, fill_args, fill_arguments, fill_defaults, first_default, occurs_in,
    placeholder, placeholder_chars, replace_chars, texts,
};
use crate::text::{chars_of, string_of};

verus! {

/// serde_json's `Value`, carried through unread as the object to render.
#[verifier::external_type_specification]
#[verifier::external_body]
pub struct ExJsonValue(serde_json::Value);

/// serde_json's `Error`, carried through unread for the command's author.
#[verifier::external_type_specification]
#[verifier::external_body]
pub struct ExJsonError(serde_json::Error);

/// Whether serde_json reads `text` as one JSON object.
pub uninterp spec fn json_object_text(text: Seq<char>) -> bool;

/// The string member `key` of the JSON object written in `text`, if that
/// member is a string; `None` where `text` is not one JSON object.
pub uninterp spec fn json_text_member(text: Seq<char>, key: Seq<char>) -> Option<Seq<char>>;

/// The boolean member `key` of the JSON object written in `text`, if that
/// member is a boolean; `None` where `text` is not one JSON object.
pub uninterp spec fn json_flag_member(text: Seq<char>, key: Seq<char>) -> Option<bool>;

/// The array member `key` of the JSON object written in `text`, if that
/// member is an array: each element that is a string, and `None` for each
/// element that is not; `None` where `text` is not one JSON object.
pub uninterp spec fn json_list_member(text: Seq<char>, key: Seq<char>) -> Option<
    Seq<Option<Seq<char>>>,
>;

/// The JSON object written in `text`, as serde_json reads it, without its
/// member `key`.
pub uninterp spec fn json_object_without(text: Seq<char>, key: Seq<char>) -> serde_json::Value;

pub open spec fn opt_view(o: Option<String>) -> Option<Seq<char>> {
    match o {
        Some(s) => Some(s@),
        None => None,
    }
}

pub open spec fn list_view(v: Seq<Option<String>>) -> Seq<Option<Seq<char>>> {
    v.map_values(|o: Option<String>| opt_view(o))
}

pub open spec fn opt_list_view(o: Option<Vec<Option<String>>>) -> Option<Seq<Option<Seq<char>>>> {
    match o {
        Some(v) => Some(list_view(v@)),
        None => None,
    }
}

/// Relies on serde_json::from_str, which reads `text` as one JSON object
/// (a `serde_json::Map`) or fails, and on Map::remove, which takes the
/// member `key` out of it.
#[verifier::external_body]
fn read_object_without(text: &str, key: &str) -> (r: Result<serde_json::Value, serde_json::Error>)
    ensures
        r is Ok <==> json_object_text(text@),
        r matches Ok(v) ==> v == json_object_without(text@, key@),
{
    let mut o: serde_json::Map<String, serde_json::Value> = serde_json::from_str(text)?;
    o.remove(key);
    Ok(serde_json::Value::Object(o))
}

/// Relies on serde_json::from_str into a `serde_json::Map`, Map::get and
/// Value::as_str: the string member `key` of the object written in `text`.
#[verifier::external_body]
pub(crate) fn text_member(text: &str, key: &str) -> (r: Option<String>)
    ensures
        opt_view(r) == json_text_member(text@, key@),
{
    let o: serde_json::Map<String, serde_json::Value> = serde_json::from_str(text).ok()?;
    o.get(key).and_then(serde_json::Value::as_str).map(String::from)
}

/// Relies on serde_json::from_str into a `serde_json::Map`, Map::get and
/// Value::as_bool: the boolean member `key` of the object written in `text`.
#[verifier::external_body]
fn flag_member(text: &str, key: &str) -> (r: Option<bool>)
    ensures
        r == json_flag_member(text@, key@),
{
    let o: serde_json::Map<String, serde_json::Value> = serde_json::from_str(text).ok()?;
    o.get(key).and_then(serde_json::Value::as_bool)
}

/// Relies on serde_json::from_str into a `serde_json::Map`, Map::get,
/// Value::as_array and Value::as_str: the array member `key` of the object
/// written in `text`, each element as a string where it is one.
#[verifier::external_body]
fn list_member(text: &str, key: &str) -> (r: Option<Vec<Option<String>>>)
    ensures
        opt_list_view(r) == json_list_member(text@, key@),
{
    let o: serde_json::Map<String, serde_json::Value> = serde_json::from_str(text).ok()?;
    o.get(key).and_then(serde_json::Value::as_array).map(
        |a| a.iter().map(|m| m.as_str().map(String::from)).collect(),
    )
}

/// A body that does not read as a directive; the parser's error is kept for
/// the author of the command.
pub struct MalformedTemplate {
    pub cause: serde_json::Error,
}

/// A parsed directive: the plain text it was read from, the control members
/// the engine reads, and the object to render, from which `default_args` has
/// been taken out.
pub struct Directive {
    /// The privilege tag (`type`), if it is a string.
    pub kind: Option<String>,
    /// Whether the invoking message is deleted after rendering.
    pub self_delete: bool,
    /// The default arguments, if `default_args` is an array.
    pub default_args: Option<Vec<Option<String>>>,
    /// The object handed to the renderer.
    pub payload: serde_json::Value,
    /// The plain text the directive was read from.
    pub source: String,
}

/// Whether `d` was read from `text`: it holds the control members of the
/// object written there, and that object without `default_args` to render.
pub open spec fn read_from(d: Directive, text: Seq<char>) -> bool {
    &&& d.source@ == text
    &&& d.payload == json_object_without(text, "default_args"@)
    &&& opt_view(d.kind) == json_text_member(text, "type"@)
    &&& d.self_delete == (json_flag_member(text, "self_delete"@) == Some(true))
    &&& opt_list_view(d.default_args) == json_list_member(text, "default_args"@)
}

/// The marked body with the supplied arguments filled in.
pub open spec fn argument_source(body: Seq<char>, args: Seq<Seq<char>>) -> Seq<char> {
    fill_args(encode_text(body), args)
}

/// The marked body whose plain form becomes the final directive: the
/// default arguments are filled in only where the body still held the
/// placeholder for the first argument that was not supplied; otherwise the
/// directive read before the defaults stands.
pub open spec fn expanded_source(body: Seq<char>, args: Seq<Seq<char>>) -> Seq<char> {
    let filled = argument_source(body, args);
    match json_list_member(decode_text(filled), "default_args"@) {
        Some(d) => if occurs_in(filled, placeholder(args.len())) {
            fill_defaults(filled, d, first_default(args.len() as int, d.len() as int), d.len() as int)
        } else {
            filled
        },
        None => filled,
    }
}

/// Reads a plain body as a directive.
pub fn parse_directive(text: &str) -> (r: Result<Directive, MalformedTemplate>)
    ensures
        r is Ok <==> json_object_text(text@),
        r matches Ok(d) ==> read_from(d, text@),
{
    let payload = match read_object_without(text, "default_args") {
        Ok(v) => v,
        Err(cause) => return Err(MalformedTemplate { cause }),
    };
    let kind = text_member(text, "type");
    let self_delete = match flag_member(text, "self_delete") {
        Some(b) => b,
        None => false,
    };
    let default_args = list_member(text, "default_args");
    Ok(Directive { kind, self_delete, default_args, payload, source: String::from_str(text) })
}

/// The body `t` with the placeholders from the first unsupplied argument on
/// filled from the default arguments, when `n` arguments were supplied.
pub fn fill_default_arguments(t: &Vec<char>, defaults: &Vec<Option<String>>, n: usize) -> (r: Vec<
    char,
>)
    ensures
        r@ == fill_defaults(
            t@,
            list_view(defaults@),
            first_default(n as int, defaults.len() as int),
            defaults.len() as int,
        ),
{
    let from: usize = if n < defaults.len() {
        n
    } else {
        defaults.len()
    };
    let ghost d = list_view(defaults@);
    let mut r: Vec<char> = t.clone();
    let mut j: usize = from;
    while j < defaults.len()
        invariant
            from <= j <= defaults.len(),
            from == first_default(n as int, defaults.len() as int),
            d == list_view(defaults@),
            r@ == fill_defaults(t@, d, from as int, j as int),
        decreases defaults.len() - j,
    {
        match &defaults[j] {
            Some(v) => {
                let value = escape_value(&chars_of(v.as_str()));
                r = replace_chars(&r, &placeholder_chars(j), &value);
            },
            None => {},
        }
        j = j + 1;
    }
    r
}

/// Expands a stored body with the caller's arguments and reads the result as
/// a directive: the body is marked, the arguments are filled in, the plain
/// form is read; where that directive has default arguments and the body
/// still held the placeholder for the first unsupplied argument, the
/// defaults are filled in and the plain form is read again.
pub fn expand(body: &str, args: &Vec<String>) -> (r: Result<Directive, MalformedTemplate>)
    ensures
        r is Ok <==> (json_object_text(decode_text(argument_source(body@, texts(args@))))
            && json_object_text(decode_text(expanded_source(body@, texts(args@))))),
        r matches Ok(d) ==> read_from(d, decode_text(expanded_source(body@, texts(args@)))),
{
    let marked = encode(&chars_of(body));
    let filled = fill_arguments(&marked, args);
    let first = match parse_directive(string_of(&decode(&filled)).as_str()) {
        Ok(d) => d,
        Err(e) => return Err(e),
    };
    let completed = match &first.default_args {
        Some(defaults) => {
            if contains_chars(&filled, &placeholder_chars(args.len())) {
                Some(fill_default_arguments(&filled, defaults, args.len()))
            } else {
                None
            }
        },
        None => None,
    };
    match completed {
        Some(text) => parse_directive(string_of(&decode(&text)).as_str()),
        None => Ok(first),
    }
}

} // verus!
