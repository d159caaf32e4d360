use lotr_mod_bot::codec::{decode, encode, escape_value, trim_quotes};
use lotr_mod_bot::directive::{expand, parse_directive, Directive};
use lotr_mod_bot::gate::{respond, BlacklistLookup, Denial, Response, Standing};
use lotr_mod_bot::text::{chars_of, string_of};

fn chars(s: &str) -> Vec<char> {
    s.chars().collect()
}

fn text(v: &[char]) -> String {
    v.iter().collect()
}

fn args(v: &[&str]) -> Vec<String> {
    v.iter().map(|s| s.to_string()).collect()
}

fn content(d: &Directive) -> String {
    d.payload.get("content").and_then(|v| v.as_str()).unwrap().to_string()
}

const NOBODY: Standing = Standing { is_owner: false, is_bot_admin: false, can_manage: false };
const ADMIN: Standing = Standing { is_owner: false, is_bot_admin: true, can_manage: false };

#[test]
fn encode_marks_active_prefixes_only() {
    let e = encode(&chars("a $0 \\$1 b"));
    assert_eq!(text(&e), "a \u{200B}$0 \\$1 b");
}

#[test]
fn decode_unescapes_backslash_prefix() {
    let d = decode(&chars("x \\$ \\\\$ \u{200B}$2"));
    assert_eq!(text(&d), "x $ \\$ \u{200B}$2");
}

#[test]
fn round_trip_without_prefix() {
    for body in ["", "plain text", "{\"content\":\"a \\\\ b @ \u{200B} c\"}", "\\\\"] {
        assert_eq!(text(&decode(&encode(&chars(body)))), body);
    }
}

#[test]
fn escape_value_escapes_each_character() {
    let e = escape_value(&chars("$@\\\n\"x"));
    assert_eq!(text(&e), "\\$@\u{200B}\\\\\\n\\\"x");
}

#[test]
fn trim_quotes_strips_surrounding_quotes() {
    assert_eq!(text(&trim_quotes(&chars("\"\"hello \"world\"\""))), "hello \"world");
    assert_eq!(text(&trim_quotes(&chars("\"\"\""))), "");
    assert_eq!(text(&trim_quotes(&chars("plain"))), "plain");
}

#[test]
fn chars_and_string_round_trip() {
    let v = chars_of("héllo wörld");
    assert_eq!(v.len(), 11);
    assert_eq!(string_of(&v), "héllo wörld");
}

#[test]
fn end_to_end_greeting() {
    let d = expand("{\"content\":\"Hello $0, your score is $1\"}", &args(&["Frodo", "42"]))
        .ok()
        .unwrap();
    assert_eq!(content(&d), "Hello Frodo, your score is 42");
    assert_eq!(d.kind, None);
    assert!(!d.self_delete);
    match respond(d, &NOBODY, None) {
        Response::Render { payload, delete_trigger } => {
            assert_eq!(payload.get("content").and_then(|v| v.as_str()), Some("Hello Frodo, your score is 42"));
            assert!(!delete_trigger);
        }
        Response::Deny(_) => panic!("an untagged directive is rendered"),
    }
}

#[test]
fn end_to_end_admin_denied() {
    let d = expand("{\"type\":\"admin\",\"content\":\"wiped\"}", &args(&[])).ok().unwrap();
    assert_eq!(d.kind.as_deref(), Some("admin"));
    match respond(d, &NOBODY, None) {
        Response::Deny(e) => {
            assert_eq!(e, Denial::NotAdmin);
            assert_eq!(e.message(), "You are not an admin on this server!");
        }
        Response::Render { .. } => panic!("an admin directive was rendered for a non-admin"),
    }
}

#[test]
fn admin_directive_rendered_for_admin() {
    let d = expand("{\"type\":\"admin\",\"content\":\"wiped\",\"self_delete\":true}", &args(&[]))
        .ok()
        .unwrap();
    match respond(d, &ADMIN, None) {
        Response::Render { payload, delete_trigger } => {
            assert_eq!(payload.get("content").and_then(|v| v.as_str()), Some("wiped"));
            assert!(delete_trigger);
        }
        Response::Deny(_) => panic!("an admin was denied"),
    }
}

#[test]
fn meme_denied_when_lookup_fails() {
    for lookup in [Some(BlacklistLookup::Failed), Some(BlacklistLookup::Listed), None] {
        let d = expand("{\"type\":\"meme\",\"content\":\"lol\"}", &args(&[])).ok().unwrap();
        match respond(d, &NOBODY, lookup) {
            Response::Deny(e) => assert_eq!(e, Denial::Blacklisted),
            Response::Render { .. } => panic!("a meme was rendered without a clean lookup"),
        }
    }
    let d = expand("{\"type\":\"meme\",\"content\":\"lol\"}", &args(&[])).ok().unwrap();
    assert!(matches!(respond(d, &NOBODY, Some(BlacklistLookup::NotListed)), Response::Render { .. }));
    let d = expand("{\"type\":\"meme\",\"content\":\"lol\"}", &args(&[])).ok().unwrap();
    assert!(matches!(respond(d, &ADMIN, Some(BlacklistLookup::Failed)), Response::Render { .. }));
}

#[test]
fn unknown_tag_is_open() {
    let d = expand("{\"type\":\"party\",\"content\":\"yay\"}", &args(&[])).ok().unwrap();
    assert!(matches!(respond(d, &NOBODY, None), Response::Render { .. }));
}

#[test]
fn default_arguments_fill_from_the_first_unsupplied() {
    let body = "{\"content\":\"$0 $1 $2 $3\",\"default_args\":[\"a\",\"b\",\"c\"]}";
    let d = expand(body, &args(&["x"])).ok().unwrap();
    assert_eq!(content(&d), "x b c \u{200B}$3");
    assert_eq!(d.source, "{\"content\":\"x b c \u{200B}$3\",\"default_args\":[\"a\",\"b\",\"c\"]}");
    assert!(d.payload.get("default_args").is_none());
    assert_eq!(d.default_args, Some(vec![Some("a".to_string()), Some("b".to_string()), Some("c".to_string())]));
}

#[test]
fn defaults_ignored_without_boundary_placeholder() {
    let body = "{\"content\":\"$0 $2\",\"default_args\":[\"a\",\"b\",\"c\"]}";
    let d = expand(body, &args(&["x"])).ok().unwrap();
    assert_eq!(content(&d), "x \u{200B}$2");
}

#[test]
fn defaults_escaped_like_arguments() {
    let body = "{\"content\":\"$0\",\"default_args\":[\"say \\\"hi\\\" @all\"]}";
    let d = expand(body, &args(&[])).ok().unwrap();
    assert_eq!(content(&d), "say \"hi\" @\u{200B}all");
}

#[test]
fn injected_argument_stays_literal() {
    let body = "{\"content\":\"<$0>\",\"type\":\"note\"}";
    let value = "a$1@b\\c\"d\ne";
    let d = expand(body, &args(&[value, "SHOULD NOT APPEAR"])).ok().unwrap();
    assert_eq!(content(&d), "<a$1@\u{200B}b\\c\"d\ne>");
    assert_eq!(d.kind.as_deref(), Some("note"));
    let plain = expand(body, &args(&[])).ok().unwrap();
    assert_eq!(plain.kind, d.kind);
    assert_eq!(plain.self_delete, d.self_delete);
}

#[test]
fn argument_cannot_close_the_string() {
    let d = expand("{\"content\":\"$0\"}", &args(&["\", \"type\": \"admin"])).ok().unwrap();
    assert_eq!(d.kind, None);
    assert_eq!(content(&d), ", \"type\": \"admin");
}

#[test]
fn quoted_argument_is_unquoted() {
    let d = expand("{\"content\":\"[$0]\"}", &args(&["\"two words\""])).ok().unwrap();
    assert_eq!(content(&d), "[two words]");
}

#[test]
fn unresolved_placeholder_left_marked() {
    let d = expand("{\"content\":\"$0 and $1\"}", &args(&["one"])).ok().unwrap();
    assert_eq!(content(&d), "one and \u{200B}$1");
}

#[test]
fn authored_escape_survives() {
    let d = expand("{\"content\":\"costs \\$0 or $0\"}", &args(&["5"])).ok().unwrap();
    assert_eq!(content(&d), "costs $0 or 5");
}

#[test]
fn malformed_body_fails_closed() {
    assert!(expand("{\"content\": \"$0\"", &args(&["x"])).is_err());
    assert!(expand("[1, 2]", &args(&[])).is_err());
    assert!(expand("{\"content\":\"a\"} trailing", &args(&[])).is_err());
}

#[test]
fn malformed_after_defaults_fails() {
    let body = "{\"content\":\"$0\",\"default_args\":[\"a\"], \"n\": $0}";
    assert!(expand(body, &args(&[])).is_err());
}

#[test]
fn parse_reads_control_members() {
    let d = parse_directive("{\"type\":\"meme\",\"self_delete\":true,\"default_args\":[\"a\",2],\"x\":1}")
        .ok()
        .unwrap();
    assert_eq!(d.kind.as_deref(), Some("meme"));
    assert!(d.self_delete);
    assert_eq!(d.default_args, Some(vec![Some("a".to_string()), None]));
    assert!(d.payload.get("default_args").is_none());
    assert_eq!(d.payload.get("x").and_then(|v| v.as_i64()), Some(1));
    let e = parse_directive("{\"type\":3,\"self_delete\":\"yes\"}").ok().unwrap();
    assert_eq!(e.kind, None);
    assert!(!e.self_delete);
    assert_eq!(e.default_args, None);
}

#[test]
fn placeholder_prefix_overlap_follows_replacement_order() {
    let body = "{\"content\":\"$1 $10\"}";
    let d = expand(body, &args(&["a", "b"])).ok().unwrap();
    assert_eq!(content(&d), "b b0");
}
