//! What the library takes from `serde_json`: its value and error types, its
//! parser, its serializer on a value and on a string, and two readers of a
//! parsed value.

use vstd::prelude::*;

verus! {

/// `serde_json::Value`, a parsed JSON value. Nothing of its content is known
/// to the proofs but what the names below say of it.
#[verifier::external_type_specification]
#[verifier::external_body]
pub struct ExValue(serde_json::Value);

/// `serde_json::Error`. Nothing of its content is known to the proofs.
#[verifier::external_type_specification]
#[verifier::external_body]
pub struct ExError(serde_json::Error);

/// The digit for `n` below 16 in lower-case hexadecimal.
pub open spec fn hex_digit(n: int) -> char {
    seq!['0', '1', '2', '3', '4', '5', '6', '7', '8', '9', 'a', 'b', 'c', 'd', 'e', 'f'][n]
}

/// How one character stands inside a JSON string literal: the double quote,
/// the backslash and the control characters are escaped, every other
/// character stands for itself.
pub open spec fn escaped(c: char) -> Seq<char> {
    if c == '"' {
        seq!['\\', '"']
    } else if c == '\\' {
        seq!['\\', '\\']
    } else if c == '\u{8}' {
        seq!['\\', 'b']
    } else if c == '\u{c}' {
        seq!['\\', 'f']
    } else if c == '\n' {
        seq!['\\', 'n']
    } else if c == '\r' {
        seq!['\\', 'r']
    } else if c == '\t' {
        seq!['\\', 't']
    } else if (c as u32) < 0x20 {
        seq!['\\', 'u', '0', '0', hex_digit(((c as u32) / 16) as int), hex_digit(((c as u32) % 16) as int)]
    } else {
        seq![c]
    }
}

/// The characters of `text`, each as it stands inside a JSON string literal.
pub open spec fn escaped_text(text: Seq<char>) -> Seq<char>
    decreases text.len(),
{
    if text.len() == 0 {
        Seq::empty()
    } else {
        escaped(text[0]) + escaped_text(text.drop_first())
    }
}

/// The JSON string literal for `text`: the escaped text between double quotes.
pub open spec fn json_string(text: Seq<char>) -> Seq<char> {
    seq!['"'] + escaped_text(text) + seq!['"']
}

/// A JSON string literal holds no line feed and no other control character.
pub proof fn lemma_json_string_has_no_control(text: Seq<char>)
    ensures
        forall|i: int| 0 <= i < json_string(text).len() ==> (#[trigger] json_string(text)[i]) as u32 >= 0x20,
{
    lemma_escaped_text_has_no_control(text);
    let inner = escaped_text(text);
    assert forall|i: int| 0 <= i < json_string(text).len() implies (#[trigger] json_string(
        text,
    )[i]) as u32 >= 0x20 by {
        if 1 <= i <= inner.len() {
            assert(json_string(text)[i] == inner[i - 1]);
        }
    }
}

/// Escaped text holds no control character.
proof fn lemma_escaped_text_has_no_control(text: Seq<char>)
    ensures
        forall|i: int|
            0 <= i < escaped_text(text).len() ==> (#[trigger] escaped_text(
                text,
            )[i]) as u32 >= 0x20,
    decreases text.len(),
{
    if text.len() > 0 {
        let first = escaped(text[0]);
        let rest = escaped_text(text.drop_first());
        lemma_escaped_text_has_no_control(text.drop_first());
        assert forall|j: int| 0 <= j < first.len() implies (#[trigger] first[j]) as u32 >= 0x20 by {
            let n = text[0] as u32;
            if n < 0x20 {
                assert(0 <= n / 16 < 2);
                assert(0 <= n % 16 < 16);
            }
        }
        assert forall|i: int| 0 <= i < escaped_text(text).len() implies (
        #[trigger] escaped_text(text)[i]) as u32 >= 0x20 by {
            if i < first.len() {
                assert(escaped_text(text)[i] == first[i]);
            } else {
                assert(escaped_text(text)[i] == rest[i - first.len()]);
            }
        }
    }
}

/// Where a string literal closes in `s` when its text starts at `from`, just
/// behind the opening double quote: at the first double quote that no
/// backslash escapes, a backslash escaping the one character behind it. It
/// is the length of `s` where the literal does not close.
pub open spec fn literal_end(s: Seq<char>, from: int) -> int
    decreases s.len() - from,
{
    if from < 0 || from >= s.len() {
        s.len() as int
    } else if s[from] == '"' {
        from
    } else if s[from] == '\\' {
        if from + 1 >= s.len() {
            s.len() as int
        } else {
            literal_end(s, from + 2)
        }
    } else {
        literal_end(s, from + 1)
    }
}

/// Reading a literal passes over escaped text: what stands behind it decides
/// where the literal closes.
proof fn lemma_literal_end_passes_escaped(s: Seq<char>, from: int, text: Seq<char>)
    requires
        0 <= from,
        from + escaped_text(text).len() <= s.len(),
        s.subrange(from, from + escaped_text(text).len()) == escaped_text(text),
    ensures
        literal_end(s, from) == literal_end(s, from + escaped_text(text).len()),
    decreases text.len(),
{
    if text.len() > 0 {
        let c = text[0];
        let first = escaped(c);
        let rest = escaped_text(text.drop_first());
        let all = escaped_text(text);
        let next = from + first.len();
        assert(all == first + rest);
        assert forall|k: int| 0 <= k < all.len() implies s[from + k] == #[trigger] all[k] by {
            assert(s.subrange(from, from + all.len())[k] == s[from + k]);
        }
        assert(s.subrange(next, next + rest.len()) =~= rest) by {
            assert forall|j: int| 0 <= j < rest.len() implies s[next + j] == rest[j] by {
                assert(all[first.len() + j] == rest[j]);
            }
        }
        lemma_literal_end_passes_escaped(s, next, text.drop_first());
        assert(s[from] == all[0]);
        if first.len() == 1 {
            assert(literal_end(s, from) == literal_end(s, from + 1));
        } else if first.len() == 2 {
            assert(literal_end(s, from) == literal_end(s, from + 2));
        } else {
            let n = c as u32;
            assert(0 <= n / 16 < 2);
            assert(0 <= n % 16 < 16);
            assert(s[from + 2] == all[2]);
            assert(s[from + 3] == all[3]);
            assert(s[from + 4] == all[4]);
            assert(s[from + 5] == all[5]);
            assert(literal_end(s, from) == literal_end(s, from + 2));
            assert(literal_end(s, from + 2) == literal_end(s, from + 3));
            assert(literal_end(s, from + 3) == literal_end(s, from + 4));
            assert(literal_end(s, from + 4) == literal_end(s, from + 5));
            assert(literal_end(s, from + 5) == literal_end(s, from + 6));
        }
    }
}

/// A JSON string literal closes at its own last character wherever it
/// stands: nothing of the text inside it ends it earlier, and nothing of the
/// text escapes its closing quote.
pub proof fn lemma_literal_closes_at_its_end(before: Seq<char>, text: Seq<char>, after: Seq<char>)
    ensures
        ({
            let s = before + json_string(text) + after;
            let open = before.len() as int;
            let close = open + json_string(text).len() - 1;
            &&& open < close < s.len()
            &&& s.subrange(open, close + 1) == json_string(text)
            &&& s[open] == '"'
            &&& s[close] == '"'
            &&& literal_end(s, open + 1) == close
        }),
{
    let s = before + json_string(text) + after;
    let open = before.len() as int;
    let inner = escaped_text(text);
    let close = open + json_string(text).len() - 1;
    assert(close == open + 1 + inner.len());
    assert(s.subrange(open, close + 1) =~= json_string(text));
    assert(s.subrange(open + 1, open + 1 + inner.len()) =~= inner);
    assert(s[open] == json_string(text)[0]);
    assert(s[close] == json_string(text)[close - open]);
    lemma_literal_end_passes_escaped(s, open + 1, text);
}

/// What `serde_json::from_str` makes of `payload`: the parsed value, or the
/// parser's error.
pub uninterp spec fn parsed_json(payload: Seq<char>) -> Result<serde_json::Value, serde_json::Error>;

/// What a `serde_json::Error` says when it is displayed.
pub uninterp spec fn error_text(error: serde_json::Error) -> Seq<char>;

/// The member of `value` under `key`, as `serde_json::Value::get` finds it:
/// there is none where `value` is no object or has no such key.
pub uninterp spec fn json_member(value: serde_json::Value, key: Seq<char>) -> Option<
    serde_json::Value,
>;

/// The text of `value`, as `serde_json::Value::as_str` gives it: there is
/// none where `value` is no string.
pub uninterp spec fn json_str(value: serde_json::Value) -> Option<Seq<char>>;

/// The compact JSON text that `serde_json::to_string` writes for `value`, if
/// it writes one.
pub uninterp spec fn json_text(value: serde_json::Value) -> Option<Seq<char>>;

/// Calls `serde_json::to_string` on a string slice. Taken on trust: the call
/// succeeds, since a string has nothing that the serializer refuses and the
/// text is written to memory; and what it returns is the JSON string literal
/// for `text`, with the serializer's escapes as `json_string` lists them.
#[verifier::external_body]
pub(crate) fn quote(text: &str) -> (quoted: Result<String, serde_json::Error>)
    ensures
        quoted is Ok,
        quoted matches Ok(literal) ==> literal@ == json_string(text@),
{
    serde_json::to_string(text)
}

/// Calls `serde_json::to_string` on a parsed value. Taken on trust: whether
/// it succeeds and what it writes depend on the value alone, which is what
/// `json_text` names.
#[verifier::external_body]
pub(crate) fn serialize(value: &serde_json::Value) -> (text: Result<String, serde_json::Error>)
    ensures
        match text {
            Ok(written) => json_text(*value) == Some(written@),
            Err(_) => json_text(*value) is None,
        },
{
    serde_json::to_string(value)
}

/// Calls `serde_json::from_str` for a `serde_json::Value`. Taken on trust:
/// what it returns depends on the characters of `payload` alone, which is
/// what `parsed_json` names.
#[verifier::external_body]
pub(crate) fn parse(payload: &str) -> (parsed: Result<serde_json::Value, serde_json::Error>)
    ensures
        parsed == parsed_json(payload@),
{
    serde_json::from_str(payload)
}

/// Renders a `serde_json::Error` through its `Display`. Taken on trust: the
/// text depends on the error alone, which is what `error_text` names.
#[verifier::external_body]
pub(crate) fn describe(error: &serde_json::Error) -> (text: String)
    ensures
        text@ == error_text(*error),
{
    error.to_string()
}

/// Calls `serde_json::Value::get` with a string key and copies what it
/// finds. Taken on trust: the result depends on the value and the key alone,
/// which is what `json_member` names.
#[verifier::external_body]
pub(crate) fn member(value: &serde_json::Value, key: &str) -> (found: Option<serde_json::Value>)
    ensures
        found == json_member(*value, key@),
{
    value.get(key).cloned()
}

/// Calls `serde_json::Value::as_str` and copies the text. Taken on trust: the
/// result depends on the value alone, which is what `json_str` names.
#[verifier::external_body]
pub(crate) fn text_of(value: &serde_json::Value) -> (text: Option<String>)
    ensures
        match text {
            Some(held) => json_str(*value) == Some(held@),
            None => json_str(*value) is None,
        },
{
    value.as_str().map(str::to_owned)
}

} // verus!
