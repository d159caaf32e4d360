//! The texts of the general commands: download counts, the release named by
//! a mod file, the Forge notice and a member's description.

use vstd::prelude::*;
use crate::template::{decimal, decimal_chars, digit_char, replace_all, replace_chars};
use crate::text::{chars_of, lower_of, lowercase, same_text, string_of};

verus! {

/// Three decimal digits, with leading zeros, for `n < 1000`.
pub open spec fn three_digits(n: nat) -> Seq<char> {
    seq![digit_char(n / 100), digit_char((n / 10) % 10), digit_char(n % 10)]
}

/// `n` in decimal with a comma between each group of three digits.
pub open spec fn grouped(n: nat) -> Seq<char>
    decreases n,
{
    if n < 1000 {
        decimal(n)
    } else {
        grouped(n / 1000) + seq![','] + three_digits(n % 1000)
    }
}

fn digit_of(d: u64) -> (c: char)
    requires
        d < 10,
    ensures
        c == digit_char(d as nat),
{
    let v = decimal_chars(d);
    assert(decimal(d as nat) == seq![digit_char(d as nat)]);
    v[0]
}

/// `n` in decimal with a comma between each group of three digits.
pub fn pretty_large_int(x: u64) -> (r: String)
    ensures
        r@ == grouped(x as nat),
{
    let mut num: u64 = x;
    let mut tail: Vec<char> = Vec::new();
    while num / 1000 != 0
        invariant
            grouped(x as nat) == grouped(num as nat) + tail@,
        decreases num,
    {
        let group = num % 1000;
        let mut piece: Vec<char> = Vec::new();
        piece.push(',');
        piece.push(digit_of(group / 100));
        piece.push(digit_of((group / 10) % 10));
        piece.push(digit_of(group % 10));
        let ghost old_tail = tail@;
        piece.append(&mut tail);
        tail = piece;
        assert(tail@ =~= seq![','] + three_digits(group as nat) + old_tail);
        assert(grouped(num as nat) == grouped((num / 1000) as nat) + seq![','] + three_digits(
            (num % 1000) as nat,
        ));
        num = num / 1000;
        assert(grouped(x as nat) =~= grouped(num as nat) + tail@);
    }
    let mut head = decimal_chars(num % 1000);
    head.append(&mut tail);
    string_of(&head)
}

/// The footer of a project's card.
pub fn download_count_footer(count: u64) -> (r: String)
    ensures
        r@ == "Total download count: "@ + grouped(count as nat),
{
    let mut s = String::from_str("Total download count: ");
    let n = pretty_large_int(count);
    s.append(n.as_str());
    s
}

/// Whether a word asks for the renewed release, once lowercased.
pub fn is_renewed_word(lowered: &str) -> (r: bool)
    ensures
        r == (lowered@ == "renewed"@),
{
    same_text(lowered, "renewed")
}

/// Whether the first argument asks for the renewed release, in any case.
pub fn wants_renewed(word: &str) -> (r: bool)
    ensures
        r == (lower_of(word@) == "renewed"@),
{
    let lowered = lowercase(word);
    is_renewed_word(lowered.as_str())
}

/// The characters after which a mod file's name gives its version.
pub open spec fn version_separator(c: char) -> bool {
    c == ' ' || c == '-' || c == '_' || c == '+' || c == 'v'
}

/// The position of the last separator in `s`.
pub open spec fn last_separator(s: Seq<char>) -> Option<int>
    decreases s.len(),
{
    if s.len() == 0 {
        None
    } else if version_separator(s.last()) {
        Some(s.len() - 1)
    } else {
        last_separator(s.drop_last())
    }
}

/// `s` without the `.jar` endings at its end.
pub open spec fn without_jar(s: Seq<char>) -> Seq<char>
    decreases s.len(),
{
    if s.len() >= 4 && s.subrange(s.len() - 4, s.len() as int) == ".jar"@ {
        without_jar(s.subrange(0, s.len() - 4))
    } else {
        s
    }
}

/// The version a mod file's name gives: what follows its last separator,
/// without `.jar`; nothing where there is no separator.
pub open spec fn file_version(s: Seq<char>) -> Seq<char> {
    match last_separator(s) {
        Some(i) => without_jar(s.subrange(i + 1, s.len() as int)),
        None => Seq::empty(),
    }
}

/// The version a mod file's name gives.
pub fn release_version(file_name: &str) -> (r: String)
    ensures
        r@ == file_version(file_name@),
{
    proof {
        reveal_strlit(".jar");
    }
    let s = chars_of(file_name);
    let mut i: usize = s.len();
    assert(s@.subrange(0, s.len() as int) =~= s@);
    while i > 0 && !(s[i - 1] == ' ' || s[i - 1] == '-' || s[i - 1] == '_' || s[i - 1] == '+'
        || s[i - 1] == 'v')
        invariant
            i <= s.len(),
            last_separator(s@) == last_separator(s@.subrange(0, i as int)),
        decreases i,
    {
        assert(s@.subrange(0, i as int).drop_last() =~= s@.subrange(0, i - 1));
        i = i - 1;
    }
    if i == 0 {
        assert(s@.subrange(0, 0) =~= Seq::<char>::empty());
        return String::new();
    }
    assert(s@.subrange(0, s.len() as int) =~= s@);
    let mut end: usize = s.len();
    while end - i >= 4 && s[end - 4] == '.' && s[end - 3] == 'j' && s[end - 2] == 'a' && s[end - 1]
        == 'r'
        invariant
            i <= end <= s.len(),
            without_jar(s@.subrange(i as int, s.len() as int)) == without_jar(
                s@.subrange(i as int, end as int),
            ),
        decreases end,
    {
        let ghost t = s@.subrange(i as int, end as int);
        proof {
            reveal_strlit(".jar");
        }
        assert(t.subrange(t.len() - 4, t.len() as int) =~= ".jar"@);
        assert(t.subrange(0, t.len() - 4) =~= s@.subrange(i as int, end - 4));
        end = end - 4;
    }
    proof {
        let t = s@.subrange(i as int, end as int);
        if t.len() >= 4 {
            let w = t.subrange(t.len() - 4, t.len() as int);
            if w == ".jar"@ {
                assert(w[0] == '.' && w[1] == 'j' && w[2] == 'a' && w[3] == 'r');
                assert(s@[end - 4] == '.' && s@[end - 3] == 'j' && s@[end - 2] == 'a' && s@[end - 1]
                    == 'r');
            }
        }
    }
    let mut out: Vec<char> = Vec::new();
    let mut k: usize = i;
    while k < end
        invariant
            i <= k <= end <= s.len(),
            out@ == s@.subrange(i as int, k as int),
        decreases end - k,
    {
        out.push(s[k]);
        k = k + 1;
    }
    string_of(&out)
}

/// The label of a project's download button.
pub fn download_label(legacy: bool, file_name: &str) -> (r: String)
    ensures
        r@ == "Download "@ + (if legacy {
            "Legacy"@
        } else {
            "Renewed"@
        }) + " "@ + file_version(file_name@),
{
    let mut s = String::from_str("Download ");
    s.append(if legacy {
        "Legacy"
    } else {
        "Renewed"
    });
    s.append(" ");
    let v = release_version(file_name);
    s.append(v.as_str());
    s
}

/// `s` without the slashes at its end.
pub open spec fn without_trailing_slashes(s: Seq<char>) -> Seq<char>
    decreases s.len(),
{
    if s.len() > 0 && s.last() == '/' {
        without_trailing_slashes(s.drop_last())
    } else {
        s
    }
}

/// The address of a file of a project.
pub fn file_url(website: &str, file_id: u64) -> (r: String)
    ensures
        r@ == without_trailing_slashes(website@) + "/files/"@ + decimal(file_id as nat),
{
    let w = chars_of(website);
    let mut end: usize = w.len();
    proof {
        assert(w@.subrange(0, end as int) =~= w@);
    }
    while end > 0 && w[end - 1] == '/'
        invariant
            end <= w.len(),
            without_trailing_slashes(w@.subrange(0, end as int)) == without_trailing_slashes(
                website@,
            ),
        decreases end,
    {
        assert(w@.subrange(0, end as int).drop_last() =~= w@.subrange(0, end - 1));
        end = end - 1;
    }
    let mut out: Vec<char> = Vec::new();
    let mut k: usize = 0;
    while k < end
        invariant
            k <= end <= w.len(),
            out@ == w@.subrange(0, k as int),
        decreases end - k,
    {
        out.push(w[k]);
        k = k + 1;
    }
    let mut s = string_of(&out);
    s.append("/files/");
    let id = string_of(&decimal_chars(file_id));
    s.append(id.as_str());
    s
}

/// Relies on bytesize::to_string with decimal units, which is what
/// `ByteSize`'s `Display` writes. Below 1000 bytes it writes the count and
/// ` B`; above, the unit is chosen through floating point, so nothing more
/// is stated.
#[verifier::external_body]
fn byte_size(bytes: u64) -> (r: String)
    ensures
        bytes < 1000 ==> r@ == decimal(bytes as nat) + " B"@,
{
    bytesize::to_string(bytes, false)
}

/// The field naming a project's latest file: its name as a link, and its size.
pub fn latest_version_field(file_name: &str, url: &str, length: u64) -> (r: String)
    ensures
        exists|size: Seq<char>|
            r@ == "["@ + file_name@ + "]("@ + url@ + ") ("@ + size + ")"@ && (length < 1000 ==> size
                == decimal(length as nat) + " B"@),
{
    let mut s = String::from_str("[");
    s.append(file_name);
    s.append("](");
    s.append(url);
    s.append(") (");
    let size = byte_size(length);
    s.append(size.as_str());
    s.append(")");
    assert(s@ == "["@ + file_name@ + "]("@ + url@ + ") ("@ + size@ + ")"@);
    s
}

/// The Forge release and Minecraft version the mod needs: the legacy ones
/// where the first argument is `legacy`.
pub fn forge_release(arg: &str) -> (r: (&'static str, &'static str))
    ensures
        arg@ == "legacy"@ ==> r.0@ == "1614"@ && r.1@ == "1.7.10"@,
        arg@ != "legacy"@ ==> r.0@ == "36.2.0"@ && r.1@ == "1.16.5"@,
{
    if same_text(arg, "legacy") {
        ("1614", "1.7.10")
    } else {
        ("36.2.0", "1.16.5")
    }
}

/// The address of Forge's downloads for a Minecraft version, from a
/// template that writes the version as `{mc}`.
pub fn forge_link(template: &str, mc: &str) -> (r: String)
    ensures
        r@ == replace_all(template@, "{mc}"@, mc@),
{
    proof {
        reveal_strlit("{mc}");
    }
    let pattern = chars_of("{mc}");
    let out = replace_chars(&chars_of(template), &pattern, &chars_of(mc));
    string_of(&out)
}

/// The notice of the Forge release the mod needs.
pub fn forge_notice(version: &str, mc: &str) -> (r: String)
    ensures
        r@ == "To function properly, the mod needs to run with Forge "@ + version@
            + " or later for Minecraft "@ + mc@,
{
    let mut s = String::from_str("To function properly, the mod needs to run with Forge ");
    s.append(version);
    s.append(" or later for Minecraft ");
    s.append(mc);
    s
}

/// The description of a member's card: the user name where the card's
/// title is the nickname, and a note for bots.
pub fn member_description(username: &str, has_nick: bool, bot: bool) -> (r: Option<String>)
    ensures
        has_nick ==> (r matches Some(d) && d@ == "Username: **"@ + username@ + "**"@ + (if bot {
            "\n_This user is a bot_"@
        } else {
            ""@
        })),
        !has_nick && bot ==> (r matches Some(d) && d@ == "_This user is a bot_"@),
        !has_nick && !bot ==> r is None,
{
    if has_nick {
        let mut s = String::from_str("Username: **");
        s.append(username);
        s.append("**");
        s.append(if bot {
            "\n_This user is a bot_"
        } else {
            ""
        });
        Some(s)
    } else if bot {
        Some(String::from_str("_This user is a bot_"))
    } else {
        None
    }
}

} // verus!
