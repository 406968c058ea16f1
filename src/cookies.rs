//! Rewriting the session cookies stored in the client's private settings
//! file, in place and without touching the rest of its formatting.
use vstd::prelude::*;
use crate::shop::RiotCookies;
use crate::text::{chars_of, string_from_chars};

verus! {

/// Pattern text before the cookie name: a cookie entry's `name:` line.
pub const COOKIE_PATTERN_HEAD: &'static str = r#"(?m)(name:\s*"?"#;

/// Pattern text after the cookie name: the entry's other fields, then the
/// `value:` key, captured, followed by the quoted old value.
pub const COOKIE_PATTERN_TAIL: &'static str = r#""?\s*\n(?:\s+\w+:.*\n)*?\s+value:\s*)"[^"]*""#;

/// Pattern of the device id's value under `rso-authenticator` > `tdid`.
pub const TDID_PATTERN: &'static str =
    r#"(?m)(rso-authenticator:\s*\n\s+tdid:\s*\n(?:\s+\w+:.*\n)*?\s+value:\s*)"[^"]*""#;

/// Replacement text before the new value: the captured prefix and a quote.
pub const REPLACEMENT_HEAD: &'static str = "${1}\"";

pub const QUOTE: &'static str = "\"";

/// The characters that have a meaning in the pattern syntax.
pub open spec fn is_meta_character(c: char) -> bool {
    c == '\\' || c == '.' || c == '+' || c == '*' || c == '?' || c == '(' || c == ')' || c == '|'
        || c == '[' || c == ']' || c == '{' || c == '}' || c == '^' || c == '$' || c == '#'
        || c == '&' || c == '-' || c == '~'
}

/// `s` with a backslash put before each meta character.
pub open spec fn regex_escaped(s: Seq<char>) -> Seq<char>
    decreases s.len(),
{
    if s.len() == 0 {
        seq![]
    } else if is_meta_character(s.last()) {
        regex_escaped(s.drop_last()) + seq!['\\', s.last()]
    } else {
        regex_escaped(s.drop_last()).push(s.last())
    }
}

pub uninterp spec fn regex_compiles(pattern: Seq<char>) -> bool;

pub uninterp spec fn regex_replaced(pattern: Seq<char>, text: Seq<char>, rep: Seq<char>) -> Seq<char>;

/// Relies on `regex::escape`: a backslash before each meta character
/// (`regex_syntax::is_meta_character`), every other character as it is.
#[verifier::external_body]
fn regex_escape(s: &str) -> (r: String)
    ensures
        r@ == regex_escaped(s@),
{
    regex::escape(s)
}

/// Relies on `regex::Regex::new`, whose success depends on the pattern
/// alone, and on `Regex::replace`, which replaces the leftmost match, with
/// `$` references expanded, as a function of pattern, text and replacement.
#[verifier::external_body]
fn replace_first(pattern: &str, text: &str, rep: &str) -> (r: Option<String>)
    ensures
        r is Some <==> regex_compiles(pattern@),
        r matches Some(t) ==> t@ == regex_replaced(pattern@, text@, rep@),
{
    regex::Regex::new(pattern).ok().map(|re| re.replace(text, rep).into_owned())
}

/// `v` with every `$` doubled, so that a replacement writes it literally.
pub open spec fn dollars_escaped(v: Seq<char>) -> Seq<char>
    decreases v.len(),
{
    if v.len() == 0 {
        seq![]
    } else if v.last() == '$' {
        dollars_escaped(v.drop_last()) + seq!['$', '$']
    } else {
        dollars_escaped(v.drop_last()).push(v.last())
    }
}

/// The replacement that keeps the captured prefix and writes `value` quoted.
pub open spec fn replacement_for(value: Seq<char>) -> Seq<char> {
    REPLACEMENT_HEAD@ + dollars_escaped(value) + QUOTE@
}

/// The pattern of a cookie entry whose escaped name is `escaped_name`.
pub open spec fn pattern_for(escaped_name: Seq<char>) -> Seq<char> {
    COOKIE_PATTERN_HEAD@ + escaped_name + COOKIE_PATTERN_TAIL@
}

/// One replacement, skipped when the pattern does not compile.
pub open spec fn replaced_if_valid(text: Seq<char>, pattern: Seq<char>, rep: Seq<char>) -> Seq<char> {
    if regex_compiles(pattern) {
        regex_replaced(pattern, text, rep)
    } else {
        text
    }
}

/// Sets the value of the cookie named `name` when there is a new one.
pub open spec fn cookie_updated(text: Seq<char>, name: Seq<char>, value: Option<String>) -> Seq<char> {
    match value {
        None => text,
        Some(v) => replaced_if_valid(text, pattern_for(regex_escaped(name)), replacement_for(v@)),
    }
}

/// `content` with each session cookie that has a new value rewritten, in the
/// order ssid, asid, csid, ccid, clid, sub, and then the device id.
pub open spec fn cookies_updated(content: Seq<char>, c: RiotCookies) -> Seq<char> {
    let t1 = cookie_updated(content, "ssid"@, c.ssid);
    let t2 = cookie_updated(t1, "asid"@, c.asid);
    let t3 = cookie_updated(t2, "csid"@, c.csid);
    let t4 = cookie_updated(t3, "ccid"@, c.ccid);
    let t5 = cookie_updated(t4, "clid"@, c.clid);
    let t6 = cookie_updated(t5, "sub"@, c.sub);
    match c.tdid {
        None => t6,
        Some(v) => replaced_if_valid(t6, TDID_PATTERN@, replacement_for(v@)),
    }
}

/// The replacement text that writes `value` as the new quoted value.
pub fn cookie_replacement(value: &str) -> (r: String)
    ensures
        r@ == replacement_for(value@),
{
    let v = chars_of(value);
    let mut out: Vec<char> = Vec::new();
    let mut i: usize = 0;
    while i < v.len()
        invariant
            i <= v@.len(),
            out@ == dollars_escaped(v@.subrange(0, i as int)),
        decreases v@.len() - i,
    {
        let c = v[i];
        proof {
            let s = v@.subrange(0, i + 1);
            assert(s.drop_last() =~= v@.subrange(0, i as int));
            assert(s.last() == c);
        }
        if c == '$' {
            out.push('$');
            out.push('$');
            proof {
                assert(out@ =~= dollars_escaped(v@.subrange(0, i + 1)));
            }
        } else {
            out.push(c);
        }
        i = i + 1;
    }
    assert(v@.subrange(0, v@.len() as int) =~= v@);
    let mut r = String::from_str(REPLACEMENT_HEAD);
    let escaped = string_from_chars(&out);
    r.append(escaped.as_str());
    r.append(QUOTE);
    r
}

/// The pattern of the cookie entry whose name, already escaped for the
/// pattern syntax, is `escaped_name`.
pub fn cookie_pattern(escaped_name: &str) -> (r: String)
    ensures
        r@ == pattern_for(escaped_name@),
{
    let mut r = String::from_str(COOKIE_PATTERN_HEAD);
    r.append(escaped_name);
    r.append(COOKIE_PATTERN_TAIL);
    r
}

fn replace_if_valid(text: String, pattern: &str, rep: &str) -> (r: String)
    ensures
        r@ == replaced_if_valid(text@, pattern@, rep@),
{
    match replace_first(pattern, text.as_str(), rep) {
        Some(t) => t,
        None => text,
    }
}

fn update_cookie(text: String, name: &str, value: &Option<String>) -> (r: String)
    ensures
        r@ == cookie_updated(text@, name@, *value),
{
    match value {
        None => text,
        Some(v) => {
            let escaped = regex_escape(name);
            let pattern = cookie_pattern(escaped.as_str());
            let rep = cookie_replacement(v.as_str());
            replace_if_valid(text, pattern.as_str(), rep.as_str())
        },
    }
}

/// Writes the new cookie values into the settings file's text, leaving the
/// formatting of everything else as it was. A cookie without a new value,
/// or whose entry is not found, keeps its old value.
pub fn update_yaml_cookie_values(content: &str, cookies: &RiotCookies) -> (r: String)
    ensures
        r@ == cookies_updated(content@, *cookies),
{
    let mut text = content.to_string();
    text = update_cookie(text, "ssid", &cookies.ssid);
    text = update_cookie(text, "asid", &cookies.asid);
    text = update_cookie(text, "csid", &cookies.csid);
    text = update_cookie(text, "ccid", &cookies.ccid);
    text = update_cookie(text, "clid", &cookies.clid);
    text = update_cookie(text, "sub", &cookies.sub);
    match &cookies.tdid {
        None => text,
        Some(v) => {
            let rep = cookie_replacement(v.as_str());
            replace_if_valid(text, TDID_PATTERN, rep.as_str())
        },
    }
}

} // verus!
