//! The custom-command admin surface: checking a new command's name,
//! preparing its stored body, and the texts that document commands.

use vstd::prelude::*;
use crate::codec::MARKER;
use crate::directive::{json_object_text, json_text_member, opt_view, text_member, MalformedTemplate};
use crate::template::{replace_all, replace_chars};
use crate::text::{chars_of, lower_of, lowercase, same_text, string_of};

verus! {

/// The stored form of a definition: the object pretty-printed without its
/// `documentation` member.
pub uninterp spec fn json_pretty_without(text: Seq<char>, key: Seq<char>) -> Seq<char>;

/// Relies on serde_json::from_str, which reads `text` as one JSON object (a
/// `serde_json::Map`) or fails; on Map::remove, which takes the member `key`
/// out of it; and on serde_json::to_string_pretty, which cannot fail on an
/// object whose keys are strings.
#[verifier::external_body]
fn pretty_without(text: &str, key: &str) -> (r: Result<String, serde_json::Error>)
    ensures
        r is Ok <==> json_object_text(text@),
        r matches Ok(b) ==> b@ == json_pretty_without(text@, key@),
{
    let mut o: serde_json::Map<String, serde_json::Value> = serde_json::from_str(text)?;
    o.remove(key);
    serde_json::to_string_pretty(&serde_json::Value::Object(o))
}

/// A command as it is stored: its body, and its documentation if the
/// definition had a string `documentation` member.
pub struct Definition {
    pub body: String,
    pub documentation: Option<String>,
}

/// Reads a definition sent by an admin. A text that is not one JSON object
/// is refused with the parser's error, to be shown to the admin.
pub fn prepare_definition(text: &str) -> (r: Result<Definition, MalformedTemplate>)
    ensures
        r is Ok <==> json_object_text(text@),
        r matches Ok(d) ==> d.body@ == json_pretty_without(text@, "documentation"@) && opt_view(
            d.documentation,
        ) == json_text_member(text@, "documentation"@),
{
    match pretty_without(text, "documentation") {
        Ok(body) => Ok(Definition { body, documentation: text_member(text, "documentation") }),
        Err(cause) => Err(MalformedTemplate { cause }),
    }
}

/// Whether `name` is among the reserved names.
pub open spec fn is_reserved(name: Seq<char>, reserved: Seq<String>) -> bool {
    exists|i: int| 0 <= i < reserved.len() && reserved[i]@ == name
}

/// The refusal of a reserved name.
pub open spec fn reserved_refusal(name: Seq<char>) -> Seq<char> {
    "You cannot add a command with the reserved name `"@ + name + "`"@
}

/// Checks a lowercased name against the reserved names.
pub fn check_definable(lowered: String, reserved: &Vec<String>) -> (r: Result<String, String>)
    ensures
        r is Ok <==> !is_reserved(lowered@, reserved@),
        r matches Ok(n) ==> n@ == lowered@,
        r matches Err(m) ==> m@ == reserved_refusal(lowered@),
{
    let mut i: usize = 0;
    while i < reserved.len()
        invariant
            i <= reserved.len(),
            forall|j: int| 0 <= j < i ==> reserved@[j]@ != lowered@,
        decreases reserved.len() - i,
    {
        if same_text(reserved[i].as_str(), lowered.as_str()) {
            let mut m = String::from_str("You cannot add a command with the reserved name `");
            m.append(lowered.as_str());
            m.append("`");
            return Err(m);
        }
        i = i + 1;
    }
    Ok(lowered)
}

/// The name a command is defined under: names are compared in lowercase,
/// and the reserved names cannot be taken.
pub fn definable_name(name: &str, reserved: &Vec<String>) -> (r: Result<String, String>)
    ensures
        r is Ok <==> !is_reserved(lower_of(name@), reserved@),
        r matches Ok(n) ==> n@ == lower_of(name@),
        r matches Err(m) ==> m@ == reserved_refusal(lower_of(name@)),
{
    check_definable(lowercase(name), reserved)
}

/// The longest body, in bytes, that is shown in a command's documentation.
pub const DISPLAY_LIMIT: usize = 1012;

/// The field showing a command's body: in a code block, with each fence
/// broken by a zero-width space so that the body cannot close the block;
/// a note instead where the body is too long.
pub open spec fn body_field(body: &str) -> Seq<char> {
    if body.len() <= DISPLAY_LIMIT {
        "```json\n"@ + replace_all(body@, "```"@, seq!['`', MARKER, '`', '`']) + "```"@
    } else {
        "_Too long to display here_"@
    }
}

/// The field showing a command's body.
pub fn command_body_field(body: &str) -> (r: String)
    ensures
        r@ == body_field(body),
{
    if body.len() <= DISPLAY_LIMIT {
        proof {
            reveal_strlit("```");
        }
        let fence = chars_of("```");
        let mut broken: Vec<char> = Vec::new();
        broken.push('`');
        broken.push(MARKER);
        broken.push('`');
        broken.push('`');
        assert(broken@ =~= seq!['`', MARKER, '`', '`']);
        let shown = replace_chars(&chars_of(body), &fence, &broken);
        let mut s = String::from_str("```json\n");
        let inner = string_of(&shown);
        s.append(inner.as_str());
        s.append("```");
        s
    } else {
        String::from_str("_Too long to display here_")
    }
}

/// The title of a command's documentation.
pub fn command_title(name: &str) -> (r: String)
    ensures
        r@ == "Custom command: "@ + name@,
{
    let mut s = String::from_str("Custom command: ");
    s.append(name);
    s
}

/// One line of the list of commands: the name in code, then its description;
/// the first command without a description is set off by a blank line.
pub open spec fn list_line(name: Seq<char>, description: Seq<char>, first_bare: bool) -> Seq<char> {
    (if first_bare {
        "\n"@
    } else {
        Seq::empty()
    }) + "`"@ + name + "`  "@ + (if description.len() == 0 {
        "_No description_"@
    } else {
        description
    }) + "\n"@
}

/// The list of commands, the lines from `i` on, where `bare_seen` says
/// whether a command without a description came before.
pub open spec fn list_text_from(entries: Seq<(Seq<char>, Seq<char>)>, i: int, bare_seen: bool) -> Seq<
    char,
>
    decreases entries.len() - i,
{
    if i >= entries.len() || i < 0 {
        Seq::empty()
    } else {
        let bare = entries[i].1.len() == 0;
        list_line(entries[i].0, entries[i].1, bare && !bare_seen) + list_text_from(
            entries,
            i + 1,
            bare_seen || bare,
        )
    }
}

/// The list of a guild's commands, one line each.
pub fn command_list_text(entries: &Vec<(String, String)>) -> (r: String)
    ensures
        r@ == list_text_from(crate::store::pairs_view(entries@), 0, false),
{
    let ghost view = crate::store::pairs_view(entries@);
    let mut s = String::new();
    let mut bare_seen = false;
    let mut i: usize = 0;
    proof {
        reveal_strlit("");
    }
    while i < entries.len()
        invariant
            i <= entries.len(),
            view == crate::store::pairs_view(entries@),
            s@ + list_text_from(view, i as int, bare_seen) == list_text_from(view, 0, false),
        decreases entries.len() - i,
    {
        let (name, description) = (&entries[i].0, &entries[i].1);
        let bare = description.as_str().is_empty();
        let ghost before = s@;
        if bare && !bare_seen {
            s.append("\n");
        }
        s.append("`");
        s.append(name.as_str());
        s.append("`  ");
        if bare {
            s.append("_No description_");
        } else {
            s.append(description.as_str());
        }
        s.append("\n");
        proof {
            reveal_strlit("");
            assert(view[i as int] == (name@, description@));
            assert(s@ =~= before + list_line(name@, description@, bare && !bare_seen));
        }
        bare_seen = bare_seen || bare;
        i = i + 1;
    }
    assert(s@ =~= s@ + Seq::<char>::empty());
    s
}

} // verus!
