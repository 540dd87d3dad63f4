//! The configuration file that the subprocess reads: a JSON object with the
//! three members `minDelay`, `maxDelay` and `errorRate`, each an unsigned
//! integer.
//!
//! This module says which bytes are such a file and which configuration they
//! hold, and reads them. The text of the file is written by `serde_json`;
//! before it is handed out it is read back, so that every text handed out
//! holds the configuration it was made for.

use vstd::prelude::*;
use vstd::string::StringSliceAdditionalSpecFns;
use vstd::utf8::is_ascii_chars;
use vstd::utf8::is_ascii_chars_encode_utf8;
use vstd::utf8::encode_utf8;
use crate::config::{ConfigError, TypeConfig, TypeConfigView};

verus! {

/// The members of the configuration object.
#[derive(Debug, Clone, Copy, PartialEq, Eq, Structural)]
pub enum Field {
    MinDelay,
    MaxDelay,
    ErrorRate,
}

impl Field {
    /// The member's name in the file.
    pub open spec fn spec_name(self) -> Seq<char> {
        match self {
            Field::MinDelay => "minDelay"@,
            Field::MaxDelay => "maxDelay"@,
            Field::ErrorRate => "errorRate"@,
        }
    }

    pub fn name(&self) -> (name: &'static str)
        ensures
            name@ == self.spec_name(),
    {
        match self {
            Field::MinDelay => "minDelay",
            Field::MaxDelay => "maxDelay",
            Field::ErrorRate => "errorRate",
        }
    }
}

/// Space, tab, line feed and carriage return.
pub open spec fn is_space(b: u8) -> bool {
    b == 0x20 || b == 0x09 || b == 0x0a || b == 0x0d
}

/// The ASCII digits.
pub open spec fn is_digit(b: u8) -> bool {
    0x30 <= b <= 0x39
}

/// The first position at or behind `i` that holds no white space.
pub open spec fn skip_spaces(s: Seq<u8>, i: int) -> int
    decreases s.len() - i,
{
    if 0 <= i < s.len() && is_space(s[i]) {
        skip_spaces(s, i + 1)
    } else {
        i
    }
}

/// The first position at or behind `i` that holds no digit.
pub open spec fn digits_end(s: Seq<u8>, i: int) -> int
    decreases s.len() - i,
{
    if 0 <= i < s.len() && is_digit(s[i]) {
        digits_end(s, i + 1)
    } else {
        i
    }
}

/// The number that the digits from `i` up to `j` write in base ten.
pub open spec fn decimal(s: Seq<u8>, i: int, j: int) -> nat
    decreases j - i,
{
    if j <= i {
        0
    } else {
        decimal(s, i, j - 1) * 10 + (s[j - 1] - 0x30) as nat
    }
}

/// The unsigned integer that starts at `i`, and where it ends: one digit or
/// more, no leading zero, and a value that fits 32 bits.
pub open spec fn number_at(s: Seq<u8>, i: int) -> Option<(u32, int)> {
    let j = digits_end(s, i);
    if 0 <= i < j && (s[i] != 0x30 || j == i + 1) && decimal(s, i, j) <= u32::MAX {
        Some((decimal(s, i, j) as u32, j))
    } else {
        None
    }
}

/// Position `i` holds the byte `b`.
pub open spec fn byte_at(s: Seq<u8>, i: int, b: u8) -> bool {
    0 <= i < s.len() && s[i] == b
}

/// The text stands at position `i`, one byte for each of its characters.
pub open spec fn text_at(s: Seq<u8>, i: int, text: Seq<char>) -> bool {
    &&& 0 <= i
    &&& i + text.len() <= s.len()
    &&& forall|k: int| 0 <= k < text.len() ==> s[i + k] == #[trigger] text[k] as u8
}

/// The member's name stands at position `i`, in double quotes.
pub open spec fn name_at(s: Seq<u8>, i: int, field: Field) -> bool {
    &&& byte_at(s, i, 0x22)
    &&& text_at(s, i + 1, field.spec_name())
    &&& byte_at(s, i + 1 + field.spec_name().len(), 0x22)
}

/// The member whose quoted name stands at `i`, and where the name ends.
pub open spec fn key_at(s: Seq<u8>, i: int) -> Option<(Field, int)> {
    if name_at(s, i, Field::MinDelay) {
        Some((Field::MinDelay, i + 2 + Field::MinDelay.spec_name().len()))
    } else if name_at(s, i, Field::MaxDelay) {
        Some((Field::MaxDelay, i + 2 + Field::MaxDelay.spec_name().len()))
    } else if name_at(s, i, Field::ErrorRate) {
        Some((Field::ErrorRate, i + 2 + Field::ErrorRate.spec_name().len()))
    } else {
        None
    }
}

/// A member as read: which one, its value, and where it ends.
pub struct Member {
    pub field: Field,
    pub value: u32,
    pub end: int,
}

/// The member that starts at `i`: a quoted name, a colon, a number, with
/// white space allowed around the colon.
pub open spec fn member_at(s: Seq<u8>, i: int) -> Option<Member> {
    match key_at(s, i) {
        Some((field, after_key)) => {
            let colon = skip_spaces(s, after_key);
            if byte_at(s, colon, 0x3a) {
                match number_at(s, skip_spaces(s, colon + 1)) {
                    Some((value, end)) => Some(Member { field, value, end }),
                    None => None,
                }
            } else {
                None
            }
        },
        None => None,
    }
}

/// The member that follows the byte `open` standing at the first position
/// at or behind `i` that is no white space.
pub open spec fn member_after(s: Seq<u8>, i: int, open: u8) -> Option<Member> {
    let at = skip_spaces(s, i);
    if byte_at(s, at, open) {
        member_at(s, skip_spaces(s, at + 1))
    } else {
        None
    }
}

/// The value that the three members give to a field.
pub open spec fn value_of(field: Field, a: Member, b: Member, c: Member) -> nat {
    if a.field == field {
        a.value as nat
    } else if b.field == field {
        b.value as nat
    } else {
        c.value as nat
    }
}

/// The configuration that a file holds: an object of exactly the three
/// members, each once and in any order, with white space allowed between
/// the tokens and nothing else around them.
pub open spec fn document(s: Seq<u8>) -> Option<TypeConfigView> {
    match member_after(s, 0, 0x7b) {
        Some(a) => match member_after(s, a.end, 0x2c) {
            Some(b) => match member_after(s, b.end, 0x2c) {
                Some(c) => {
                    let close = skip_spaces(s, c.end);
                    if byte_at(s, close, 0x7d) && skip_spaces(s, close + 1) == s.len()
                        && a.field != b.field && a.field != c.field && b.field != c.field {
                        Some(
                            TypeConfigView {
                                min_delay: value_of(Field::MinDelay, a, b, c),
                                max_delay: value_of(Field::MaxDelay, a, b, c),
                                error_rate: value_of(Field::ErrorRate, a, b, c),
                            },
                        )
                    } else {
                        None
                    }
                },
                None => None,
            },
            None => None,
        },
        None => None,
    }
}

/// More digits never write a smaller number.
proof fn lemma_decimal_grows(s: Seq<u8>, i: int, j: int, k: int)
    requires
        i <= j <= k,
    ensures
        decimal(s, i, j) <= decimal(s, i, k),
    decreases k - j,
{
    if j < k {
        lemma_decimal_grows(s, i, j, k - 1);
    }
}

/// Where a run of digits ends lies between its start and the end of the
/// bytes.
proof fn lemma_digits_end_bounds(s: Seq<u8>, i: int)
    requires
        0 <= i <= s.len(),
    ensures
        i <= digits_end(s, i) <= s.len(),
    decreases s.len() - i,
{
    if i < s.len() && is_digit(s[i]) {
        lemma_digits_end_bounds(s, i + 1);
    }
}

fn skip(bytes: &[u8], start: usize) -> (end: usize)
    requires
        start <= bytes.len(),
    ensures
        end == skip_spaces(bytes@, start as int),
        start <= end <= bytes.len(),
{
    let mut i: usize = start;
    while i < bytes.len() && (bytes[i] == 0x20 || bytes[i] == 0x09 || bytes[i] == 0x0a || bytes[i]
        == 0x0d)
        invariant
            start <= i <= bytes.len(),
            skip_spaces(bytes@, start as int) == skip_spaces(bytes@, i as int),
        decreases bytes.len() - i,
    {
        i = i + 1;
    }
    i
}

fn read_number(bytes: &[u8], start: usize) -> (res: Option<(u32, usize)>)
    requires
        start <= bytes.len(),
    ensures
        match res {
            Some((value, end)) => number_at(bytes@, start as int) == Some((value, end as int))
                && start < end <= bytes.len(),
            None => number_at(bytes@, start as int) is None,
        },
{
    let mut i: usize = start;
    let mut value: u64 = 0;
    while i < bytes.len() && 0x30 <= bytes[i] && bytes[i] <= 0x39
        invariant
            start <= i <= bytes.len(),
            digits_end(bytes@, start as int) == digits_end(bytes@, i as int),
            value == decimal(bytes@, start as int, i as int),
            value <= u32::MAX,
        decreases bytes.len() - i,
    {
        let digit: u64 = (bytes[i] - 0x30) as u64;
        let next: u64 = value * 10 + digit;
        if next > 0xffff_ffff {
            proof {
                let end = digits_end(bytes@, i as int);
                lemma_digits_end_bounds(bytes@, i + 1);
                lemma_decimal_grows(bytes@, start as int, i + 1, end);
            }
            return None;
        }
        value = next;
        i = i + 1;
    }
    if i == start {
        return None;
    }
    if bytes[start] == 0x30 && i > start + 1 {
        return None;
    }
    Some((value as u32, i))
}

fn has_text(bytes: &[u8], at: usize, text: &str) -> (found: bool)
    requires
        at <= bytes.len(),
        is_ascii_chars(text@),
    ensures
        found == text_at(bytes@, at as int, text@),
{
    let chars = text.as_bytes();
    proof {
        is_ascii_chars_encode_utf8(text@);
    }
    if chars.len() > bytes.len() - at {
        return false;
    }
    let mut k: usize = 0;
    while k < chars.len()
        invariant
            k <= chars.len(),
            at + chars.len() <= bytes.len(),
            chars@ == text.spec_bytes(),
            chars@.len() == text@.len(),
            forall|j: int| 0 <= j < text@.len() ==> #[trigger] text@[j] as u8 == chars@[j],
            forall|j: int| 0 <= j < k ==> bytes@[at + j] == #[trigger] text@[j] as u8,
        decreases chars.len() - k,
    {
        if bytes[at + k] != chars[k] {
            assert(bytes@[at + k] != text@[k as int] as u8);
            return false;
        }
        k = k + 1;
    }
    true
}

fn has_name(bytes: &[u8], at: usize, field: Field) -> (found: bool)
    requires
        at <= bytes.len(),
    ensures
        found == name_at(bytes@, at as int, field),
        found ==> at + 2 + field.spec_name().len() <= bytes.len(),
{
    let name = field.name();
    proof {
        reveal_strlit("minDelay");
        reveal_strlit("maxDelay");
        reveal_strlit("errorRate");
        assert(is_ascii_chars(name@));
        is_ascii_chars_encode_utf8(name@);
    }
    if at >= bytes.len() || bytes[at] != 0x22 {
        return false;
    }
    if !has_text(bytes, at + 1, name) {
        return false;
    }
    let close: usize = at + 1 + name.len();
    close < bytes.len() && bytes[close] == 0x22
}

fn read_key(bytes: &[u8], at: usize) -> (res: Option<(Field, usize)>)
    requires
        at <= bytes.len(),
    ensures
        match res {
            Some((field, end)) => key_at(bytes@, at as int) == Some((field, end as int)) && end
                <= bytes.len(),
            None => key_at(bytes@, at as int) is None,
        },
{
    proof {
        reveal_strlit("minDelay");
        reveal_strlit("maxDelay");
        reveal_strlit("errorRate");
    }
    if has_name(bytes, at, Field::MinDelay) {
        Some((Field::MinDelay, at + 10))
    } else if has_name(bytes, at, Field::MaxDelay) {
        Some((Field::MaxDelay, at + 10))
    } else if has_name(bytes, at, Field::ErrorRate) {
        Some((Field::ErrorRate, at + 11))
    } else {
        None
    }
}

/// A member as the reader returns it.
struct ReadMember {
    field: Field,
    value: u32,
    end: usize,
}

impl View for ReadMember {
    type V = Member;

    closed spec fn view(&self) -> Member {
        Member { field: self.field, value: self.value, end: self.end as int }
    }
}

fn read_member(bytes: &[u8], at: usize) -> (res: Option<ReadMember>)
    requires
        at <= bytes.len(),
    ensures
        match res {
            Some(member) => member_at(bytes@, at as int) == Some(member@) && member.end
                <= bytes.len(),
            None => member_at(bytes@, at as int) is None,
        },
{
    match read_key(bytes, at) {
        Some((field, after_key)) => {
            let colon: usize = skip(bytes, after_key);
            if colon < bytes.len() && bytes[colon] == 0x3a {
                let start: usize = skip(bytes, colon + 1);
                match read_number(bytes, start) {
                    Some((value, end)) => Some(ReadMember { field, value, end }),
                    None => None,
                }
            } else {
                None
            }
        },
        None => None,
    }
}

fn read_member_after(bytes: &[u8], from: usize, open: u8) -> (res: Option<ReadMember>)
    requires
        from <= bytes.len(),
    ensures
        match res {
            Some(member) => member_after(bytes@, from as int, open) == Some(member@)
                && member.end <= bytes.len(),
            None => member_after(bytes@, from as int, open) is None,
        },
{
    let at: usize = skip(bytes, from);
    if at < bytes.len() && bytes[at] == open {
        let start: usize = skip(bytes, at + 1);
        read_member(bytes, start)
    } else {
        None
    }
}

fn pick(field: Field, a: &ReadMember, b: &ReadMember, c: &ReadMember) -> (value: u32)
    ensures
        value == value_of(field, a@, b@, c@),
{
    if a.field == field {
        a.value
    } else if b.field == field {
        b.value
    } else {
        c.value
    }
}

/// Reads a configuration file. The bytes are refused unless they are a
/// configuration object whose delay bounds are ordered and within
/// `MAX_DELAY`.
pub fn parse_type_config(bytes: &[u8]) -> (parsed: Option<TypeConfig>)
    ensures
        parsed is Some <==> (document(bytes@) matches Some(held) && held.wf()),
        parsed matches Some(config) ==> document(bytes@) == Some(config@),
{
    let a = match read_member_after(bytes, 0, 0x7b) {
        Some(member) => member,
        None => {
            return None;
        },
    };
    let b = match read_member_after(bytes, a.end, 0x2c) {
        Some(member) => member,
        None => {
            return None;
        },
    };
    let c = match read_member_after(bytes, b.end, 0x2c) {
        Some(member) => member,
        None => {
            return None;
        },
    };
    let close: usize = skip(bytes, c.end);
    if close >= bytes.len() || bytes[close] != 0x7d {
        return None;
    }
    let end: usize = skip(bytes, close + 1);
    if end != bytes.len() {
        return None;
    }
    if a.field == b.field || a.field == c.field || b.field == c.field {
        return None;
    }
    TypeConfig::new(
        pick(Field::MinDelay, &a, &b, &c),
        pick(Field::MaxDelay, &a, &b, &c),
        pick(Field::ErrorRate, &a, &b, &c),
    )
}

/// `serde_json::Error`, the error of the serializer. Nothing is known of
/// what it holds.
#[verifier::external_type_specification]
#[verifier::external_body]
pub struct ExJsonError(serde_json::Error);

/// The text that `serde_json::to_string_pretty` gives for the JSON object
/// built by inserting the three members in the given order, each value an
/// unsigned integer; `None` where it reports an error.
pub uninterp spec fn pretty_json(
    k0: Seq<char>,
    v0: u32,
    k1: Seq<char>,
    v1: u32,
    k2: Seq<char>,
    v2: u32,
) -> Option<Seq<char>>;

/// Builds a `serde_json::Map` by three calls of `insert`, each value made by
/// `Value::from` of a `u32`, and serializes it with
/// `serde_json::to_string_pretty`. Nothing is claimed of the text but that
/// it is the one `pretty_json` names: the same members give the same text.
#[verifier::external_body]
fn to_string_pretty(k0: &str, v0: u32, k1: &str, v1: u32, k2: &str, v2: u32) -> (res: Result<
    String,
    serde_json::Error,
>)
    ensures
        match res {
            Ok(text) => pretty_json(k0@, v0, k1@, v1, k2@, v2) == Some(text@),
            Err(_) => pretty_json(k0@, v0, k1@, v1, k2@, v2) is None,
        },
{
    let mut object = serde_json::Map::new();
    object.insert(k0.to_string(), serde_json::Value::from(v0));
    object.insert(k1.to_string(), serde_json::Value::from(v1));
    object.insert(k2.to_string(), serde_json::Value::from(v2));
    serde_json::to_string_pretty(&serde_json::Value::Object(object))
}

/// The text that the serializer gives for a configuration.
pub open spec fn rendered(config: TypeConfigView) -> Option<Seq<char>> {
    pretty_json(
        Field::MinDelay.spec_name(),
        config.min_delay as u32,
        Field::MaxDelay.spec_name(),
        config.max_delay as u32,
        Field::ErrorRate.spec_name(),
        config.error_rate as u32,
    )
}

/// The text, written out as UTF-8, is a file that holds the configuration.
pub open spec fn holds(text: Seq<char>, config: TypeConfigView) -> bool {
    document(encode_utf8(text)) == Some(config)
}

/// Hands the text back if, read as a file, it holds the configuration.
pub fn accept_text(config: &TypeConfig, text: String) -> (res: Result<String, ConfigError>)
    ensures
        match res {
            Ok(accepted) => accepted@ == text@ && holds(text@, config@),
            Err(e) => e == ConfigError::Unserializable && !holds(text@, config@),
        },
{
    let min_delay: u32 = config.min_delay();
    let max_delay: u32 = config.max_delay();
    let error_rate: u32 = config.error_rate();
    let same = match parse_type_config(text.as_str().as_bytes()) {
        Some(held) => held.min_delay() == min_delay && held.max_delay() == max_delay
            && held.error_rate() == error_rate,
        None => false,
    };
    if same {
        Ok(text)
    } else {
        Err(ConfigError::Unserializable)
    }
}

/// The text of the file for a configuration: what the serializer writes,
/// provided that it reads back as the same configuration.
pub fn type_config_text(config: &TypeConfig) -> (res: Result<String, ConfigError>)
    ensures
        match res {
            Ok(text) => rendered(config@) == Some(text@) && holds(text@, config@),
            Err(e) => e == ConfigError::Unserializable && !(rendered(config@) matches Some(text)
                && holds(text, config@)),
        },
{
    let written = to_string_pretty(
        Field::MinDelay.name(),
        config.min_delay(),
        Field::MaxDelay.name(),
        config.max_delay(),
        Field::ErrorRate.name(),
        config.error_rate(),
    );
    match written {
        Ok(text) => accept_text(config, text),
        Err(_) => Err(ConfigError::Unserializable),
    }
}

} // verus!
