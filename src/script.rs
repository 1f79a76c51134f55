//! The text handed to the chat window: the clipboard content, screened for
//! blank input, escaped for a single-quoted script literal, and framed in the
//! script that fills and submits the input form.
use vstd::prelude::*;

verus! {

/// Opening of the injected script, up to the opening quote of the literal
/// that receives the text.
pub const SCRIPT_HEAD: &'static str = "\nt = document.querySelector(\"textarea\");\nt.value='";

/// Closing of the injected script: it ends the literal and clicks the submit
/// control when the page is in one of its two ready configurations.
pub const SCRIPT_TAIL: &'static str = "';\nsize=document.getElementsByClassName('btn').length;\nif(size===0||size===5) {\n  t.nextSibling.disabled=false;\n  t.nextSibling.click();\n}";

/// The characters of Unicode's White_Space property.
pub open spec fn is_white_space(c: char) -> bool {
    let u = c as u32;
    (0x09 <= u && u <= 0x0d) || u == 0x20 || u == 0x85 || u == 0xa0 || u == 0x1680 || (0x2000
        <= u && u <= 0x200a) || u == 0x2028 || u == 0x2029 || u == 0x202f || u == 0x205f || u
        == 0x3000
}

/// Text is blank when it is empty or made of white space alone.
pub open spec fn is_blank_text(s: Seq<char>) -> bool {
    forall|i: int| 0 <= i < s.len() ==> is_white_space(#[trigger] s[i])
}

/// Each single quote of `s` preceded by a backslash, every other character
/// kept as it is.
pub open spec fn escape_quotes(s: Seq<char>) -> Seq<char>
    decreases s.len(),
{
    if s.len() == 0 {
        Seq::empty()
    } else {
        let c = s.last();
        escape_quotes(s.drop_last()) + if c == '\'' {
            seq!['\\', '\'']
        } else {
            seq![c]
        }
    }
}

/// The script that writes `text`, escaped, into the form and submits it.
pub open spec fn script_for(text: Seq<char>) -> Seq<char> {
    SCRIPT_HEAD@ + escape_quotes(text) + SCRIPT_TAIL@
}

/// In escaped text every single quote is preceded by a backslash, so none of
/// them can end the literal that holds the text.
pub proof fn lemma_escaped_quotes_are_preceded(s: Seq<char>)
    ensures
        forall|i: int|
            0 <= i < escape_quotes(s).len() && #[trigger] escape_quotes(s)[i] == '\'' ==> i > 0
                && escape_quotes(s)[i - 1] == '\\',
    decreases s.len(),
{
    if s.len() > 0 {
        let prev = escape_quotes(s.drop_last());
        let r = escape_quotes(s);
        lemma_escaped_quotes_are_preceded(s.drop_last());
        assert forall|i: int| 0 <= i < r.len() && #[trigger] r[i] == '\'' implies i > 0 && r[i - 1]
            == '\\' by {
            if i < prev.len() {
                assert(r[i] == prev[i]);
                assert(r[i - 1] == prev[i - 1]);
            }
        }
    }
}

/// Relies on String::push: the character is appended at the end.
#[verifier::external_body]
fn push_char(s: &mut String, c: char)
    ensures
        final(s)@ == old(s)@.push(c),
{
    s.push(c)
}

pub fn is_white_space_char(c: char) -> (r: bool)
    ensures
        r == is_white_space(c),
{
    let u = c as u32;
    (0x09 <= u && u <= 0x0d) || u == 0x20 || u == 0x85 || u == 0xa0 || u == 0x1680 || (0x2000
        <= u && u <= 0x200a) || u == 0x2028 || u == 0x2029 || u == 0x202f || u == 0x205f || u
        == 0x3000
}

/// Whether `s` is empty or holds white space only.
pub fn is_blank(s: &str) -> (r: bool)
    ensures
        r == is_blank_text(s@),
{
    let n = s.unicode_len();
    let mut i: usize = 0;
    while i < n
        invariant
            n == s@.len(),
            i <= n,
            forall|j: int| 0 <= j < i ==> is_white_space(#[trigger] s@[j]),
        decreases n - i,
    {
        let c = s.get_char(i);
        if !is_white_space_char(c) {
            return false;
        }
        i = i + 1;
    }
    true
}

/// `s` with each single quote escaped by a backslash.
pub fn escape_single_quotes(s: &str) -> (r: String)
    ensures
        r@ == escape_quotes(s@),
{
    let mut r = String::new();
    let n = s.unicode_len();
    let mut i: usize = 0;
    while i < n
        invariant
            n == s@.len(),
            i <= n,
            r@ == escape_quotes(s@.take(i as int)),
        decreases n - i,
    {
        let c = s.get_char(i);
        assert(s@.take(i + 1).drop_last() =~= s@.take(i as int));
        if c == '\'' {
            push_char(&mut r, '\\');
            push_char(&mut r, '\'');
        } else {
            push_char(&mut r, c);
        }
        i = i + 1;
    }
    assert(s@.take(n as int) =~= s@);
    r
}

/// The script to inject for clipboard text `content`, or `None` where the
/// text is blank and nothing is to be submitted.
pub fn submit_script(content: &str) -> (r: Option<String>)
    ensures
        r is None <==> is_blank_text(content@),
        r matches Some(script) ==> script@ == script_for(content@),
{
    if is_blank(content) {
        return None;
    }
    let escaped = escape_single_quotes(content);
    let mut script = String::from_str(SCRIPT_HEAD);
    script.append(escaped.as_str());
    script.append(SCRIPT_TAIL);
    Some(script)
}

} // verus!
