//! A model of JSON documents, as the exchanges send and receive them.

use vstd::prelude::*;
use crate::text::{push_char, push_str, str_eq, string_from};

verus! {

/// A JSON number: its text as the decoder prints it, its value as an unsigned and as a
/// signed 64-bit integer where it is such an integer, and, where a decoder read it, its
/// value as a 64-bit float printed as Rust prints a float.
#[derive(Clone, Debug)]
pub struct JsonNumber {
    pub text: String,
    pub as_u64: Option<u64>,
    pub as_i64: Option<i64>,
    pub float_text: Option<String>,
}

/// A JSON value. Objects keep their members in order; a lookup finds the
/// first member with the key.
#[derive(Debug)]
pub enum JsonValue {
    Null,
    Bool(bool),
    Number(JsonNumber),
    Str(String),
    Array(Vec<JsonValue>),
    Object(Vec<(String, JsonValue)>),
}

pub open spec fn entries_get(entries: Seq<(String, JsonValue)>, key: Seq<char>) -> Option<JsonValue>
    decreases entries.len(),
{
    if entries.len() == 0 {
        None
    } else if entries[0].0@ == key {
        Some(entries[0].1)
    } else {
        entries_get(entries.drop_first(), key)
    }
}

/// `value.get(key)`: the member of an object with the key.
pub open spec fn spec_get(v: JsonValue, key: Seq<char>) -> Option<JsonValue> {
    match v {
        JsonValue::Object(entries) => entries_get(entries@, key),
        _ => None,
    }
}

/// `value[key]`: the member of an object with the key, or null.
pub open spec fn spec_at(v: JsonValue, key: Seq<char>) -> JsonValue {
    match spec_get(v, key) {
        Some(m) => m,
        None => JsonValue::Null,
    }
}

pub open spec fn spec_as_str(v: JsonValue) -> Option<Seq<char>> {
    match v {
        JsonValue::Str(s) => Some(s@),
        _ => None,
    }
}

pub open spec fn spec_as_i64(v: JsonValue) -> Option<i64> {
    match v {
        JsonValue::Number(n) => n.as_i64,
        _ => None,
    }
}

pub open spec fn spec_as_u64(v: JsonValue) -> Option<u64> {
    match v {
        JsonValue::Number(n) => n.as_u64,
        _ => None,
    }
}

pub open spec fn spec_as_array(v: JsonValue) -> Option<Seq<JsonValue>> {
    match v {
        JsonValue::Array(items) => Some(items@),
        _ => None,
    }
}

/// `value.as_str().unwrap_or(default)`.
pub open spec fn str_or(v: JsonValue, default: Seq<char>) -> Seq<char> {
    match spec_as_str(v) {
        Some(s) => s,
        None => default,
    }
}

/// `value[key].as_str().unwrap_or("")`.
pub open spec fn field_str(v: JsonValue, key: Seq<char>) -> Seq<char> {
    str_or(spec_at(v, key), Seq::empty())
}

/// Whether `value[key]` is a string.
pub open spec fn has_str(v: JsonValue, key: Seq<char>) -> bool {
    spec_as_str(spec_at(v, key)) is Some
}

/// Lower-case hexadecimal digit.
pub open spec fn hex_digit_lower(d: nat) -> char {
    if d < 10 {
        (48 + d) as char
    } else {
        (87 + d) as char
    }
}

/// How the encoder writes one character inside a string literal.
pub open spec fn escape_char(c: char) -> Seq<char> {
    if c == '"' {
        seq!['\\', '"']
    } else if c == '\\' {
        seq!['\\', '\\']
    } else if c == '\n' {
        seq!['\\', 'n']
    } else if c == '\r' {
        seq!['\\', 'r']
    } else if c == '\t' {
        seq!['\\', 't']
    } else if (c as u32) == 8 {
        seq!['\\', 'b']
    } else if (c as u32) == 12 {
        seq!['\\', 'f']
    } else if (c as u32) < 32 {
        seq!['\\', 'u', '0', '0', hex_digit_lower((c as u32 / 16) as nat), hex_digit_lower((c as u32 % 16) as nat)]
    } else {
        seq![c]
    }
}

pub open spec fn escaped(s: Seq<char>) -> Seq<char>
    decreases s.len(),
{
    if s.len() == 0 {
        Seq::empty()
    } else {
        escaped(s.drop_last()) + escape_char(s.last())
    }
}

/// A string literal: the escaped text between double quotes.
pub open spec fn quoted(s: Seq<char>) -> Seq<char> {
    seq!['"'] + escaped(s) + seq!['"']
}

/// Compact JSON text of a value (`value.to_string()`).
pub open spec fn json_text(v: JsonValue) -> Seq<char>
    decreases v,
{
    match v {
        JsonValue::Null => "null"@,
        JsonValue::Bool(b) => if b { "true"@ } else { "false"@ },
        JsonValue::Number(n) => n.text@,
        JsonValue::Str(s) => quoted(s@),
        JsonValue::Array(items) => seq!['['] + items_text(items@) + seq![']'],
        JsonValue::Object(entries) => seq!['{'] + members_text(entries@) + seq!['}'],
    }
}

pub open spec fn items_text(items: Seq<JsonValue>) -> Seq<char>
    decreases items,
{
    if items.len() == 0 {
        Seq::empty()
    } else if items.len() == 1 {
        json_text(items[0])
    } else {
        items_text(items.drop_last()) + seq![','] + json_text(items.last())
    }
}

pub open spec fn member_text(m: (String, JsonValue)) -> Seq<char>
    decreases m,
{
    quoted(m.0@) + seq![':'] + json_text(m.1)
}

pub open spec fn members_text(entries: Seq<(String, JsonValue)>) -> Seq<char>
    decreases entries,
{
    if entries.len() == 0 {
        Seq::empty()
    } else if entries.len() == 1 {
        member_text(entries[0])
    } else {
        members_text(entries.drop_last()) + seq![','] + member_text(entries.last())
    }
}

/// `value.as_str().map(str::to_string).unwrap_or_else(|| value.to_string())`.
pub open spec fn text_of(v: JsonValue) -> Seq<char> {
    match v {
        JsonValue::Str(s) => s@,
        _ => json_text(v),
    }
}


pub proof fn lemma_entries_get_step(entries: Seq<(String, JsonValue)>, key: Seq<char>, i: int)
    requires
        0 <= i < entries.len(),
    ensures
        entries.skip(i)[0] == entries[i],
        entries[i].0@ != key ==> entries_get(entries.skip(i), key) == entries_get(entries.skip(i + 1), key),
        entries[i].0@ == key ==> entries_get(entries.skip(i), key) == Some(entries[i].1),
{
    assert(entries.skip(i).drop_first() =~= entries.skip(i + 1));
}

pub(crate) fn hex_digit(d: u32) -> (c: char)
    requires
        d < 16,
    ensures
        c == hex_digit_lower(d as nat),
{
    if d == 0 { '0' } else if d == 1 { '1' } else if d == 2 { '2' } else if d == 3 { '3' }
    else if d == 4 { '4' } else if d == 5 { '5' } else if d == 6 { '6' } else if d == 7 { '7' }
    else if d == 8 { '8' } else if d == 9 { '9' } else if d == 10 { 'a' } else if d == 11 { 'b' }
    else if d == 12 { 'c' } else if d == 13 { 'd' } else if d == 14 { 'e' } else { 'f' }
}

fn write_escaped_char(c: char, out: &mut String)
    ensures
        final(out)@ == old(out)@ + escape_char(c),
{
    let ghost start = out@;
    let code: u32 = c as u32;
    if c == '"' {
        push_char(out, '\\');
        push_char(out, '"');
    } else if c == '\\' {
        push_char(out, '\\');
        push_char(out, '\\');
    } else if c == '\n' {
        push_char(out, '\\');
        push_char(out, 'n');
    } else if c == '\r' {
        push_char(out, '\\');
        push_char(out, 'r');
    } else if c == '\t' {
        push_char(out, '\\');
        push_char(out, 't');
    } else if code == 8 {
        push_char(out, '\\');
        push_char(out, 'b');
    } else if code == 12 {
        push_char(out, '\\');
        push_char(out, 'f');
    } else if code < 32 {
        push_char(out, '\\');
        push_char(out, 'u');
        push_char(out, '0');
        push_char(out, '0');
        push_char(out, hex_digit(code / 16));
        push_char(out, hex_digit(code % 16));
    } else {
        push_char(out, c);
    }
    assert(out@ =~= start + escape_char(c));
}

/// Writes a string literal, quotes and escapes included.
pub fn write_quoted(s: &str, out: &mut String)
    ensures
        final(out)@ == old(out)@ + quoted(s@),
{
    let ghost start = out@;
    push_char(out, '"');
    let n: usize = s.unicode_len();
    let mut i: usize = 0;
    while i < n
        invariant
            n == s@.len(),
            i <= n,
            out@ == start + seq!['"'] + escaped(s@.subrange(0, i as int)),
        decreases n - i,
    {
        let c = s.get_char(i);
        write_escaped_char(c, out);
        assert(s@.subrange(0, i + 1).drop_last() =~= s@.subrange(0, i as int));
        i = i + 1;
    }
    assert(s@.subrange(0, n as int) =~= s@);
    push_char(out, '"');
    assert(out@ =~= start + quoted(s@));
}

impl JsonValue {
    /// `value.get(key)`.
    pub fn get(&self, key: &str) -> (r: Option<&JsonValue>)
        ensures
            match r {
                Some(m) => spec_get(*self, key@) == Some(*m),
                None => spec_get(*self, key@) is None,
            },
    {
        match self {
            JsonValue::Object(entries) => {
                let mut i: usize = 0;
                assert(entries@.skip(0) =~= entries@);
                while i < entries.len()
                    invariant
                        *self == JsonValue::Object(*entries),
                        i <= entries@.len(),
                        entries_get(entries@, key@) == entries_get(entries@.skip(i as int), key@),
                    decreases entries.len() - i,
                {
                    proof {
                        lemma_entries_get_step(entries@, key@, i as int);
                    }
                    if str_eq(entries[i].0.as_str(), key) {
                        assert(entries_get(entries@, key@) == Some(entries@[i as int].1));
                        assert(*self == JsonValue::Object(*entries));
                        return Some(&entries[i].1);
                    }
                    i = i + 1;
                }
                None
            },
            _ => None,
        }
    }

    /// `value.as_str()`.
    pub fn as_str(&self) -> (r: Option<&str>)
        ensures
            match r {
                Some(s) => spec_as_str(*self) == Some(s@),
                None => spec_as_str(*self) is None,
            },
    {
        match self {
            JsonValue::Str(s) => Some(s.as_str()),
            _ => None,
        }
    }

    /// `value.as_i64()`.
    pub fn as_i64(&self) -> (r: Option<i64>)
        ensures
            r == spec_as_i64(*self),
    {
        match self {
            JsonValue::Number(n) => n.as_i64,
            _ => None,
        }
    }

    /// `value.as_u64()`.
    pub fn as_u64(&self) -> (r: Option<u64>)
        ensures
            r == spec_as_u64(*self),
    {
        match self {
            JsonValue::Number(n) => n.as_u64,
            _ => None,
        }
    }

    /// `value.as_array()`.
    pub fn as_array(&self) -> (r: Option<&Vec<JsonValue>>)
        ensures
            match r {
                Some(items) => spec_as_array(*self) == Some(items@),
                None => spec_as_array(*self) is None,
            },
    {
        match self {
            JsonValue::Array(items) => Some(items),
            _ => None,
        }
    }

    /// `value.as_str().unwrap_or(default).to_string()`.
    pub fn str_or(&self, default: &str) -> (r: String)
        ensures
            r@ == str_or(*self, default@),
    {
        match self {
            JsonValue::Str(s) => s.clone(),
            _ => string_from(default),
        }
    }

    /// `value[key].as_str().unwrap_or(default).to_string()`.
    pub fn field_str_or(&self, key: &str, default: &str) -> (r: String)
        ensures
            r@ == str_or(spec_at(*self, key@), default@),
    {
        match self.get(key) {
            Some(m) => m.str_or(default),
            None => string_from(default),
        }
    }

    /// `value[key].as_str().unwrap_or("").to_string()`.
    pub fn field_str(&self, key: &str) -> (r: String)
        ensures
            r@ == field_str(*self, key@),
    {
        match self.get(key) {
            Some(m) => match m.as_str() {
                Some(s) => string_from(s),
                None => String::new(),
            },
            None => String::new(),
        }
    }

    /// Whether `value[key]` is a string.
    pub fn has_str(&self, key: &str) -> (r: bool)
        ensures
            r == has_str(*self, key@),
    {
        match self.at(key) {
            Some(m) => m.as_str().is_some(),
            None => false,
        }
    }

    /// `value[key].as_str().unwrap().to_string()`: the string member, which must exist.
    pub fn required_str(&self, key: &str) -> (r: String)
        requires
            has_str(*self, key@),
        ensures
            r@ == field_str(*self, key@),
    {
        self.field_str(key)
    }

    /// Appends the compact JSON text of the value.
    pub fn write_text(&self, out: &mut String)
        ensures
            final(out)@ == old(out)@ + json_text(*self),
        decreases self,
    {
        let ghost start = out@;
        match self {
            JsonValue::Null => push_str(out, "null"),
            JsonValue::Bool(b) => {
                if *b {
                    push_str(out, "true")
                } else {
                    push_str(out, "false")
                }
            },
            JsonValue::Number(n) => push_str(out, n.text.as_str()),
            JsonValue::Str(s) => write_quoted(s.as_str(), out),
            JsonValue::Array(items) => {
                push_char(out, '[');
                let mut i: usize = 0;
                while i < items.len()
                    invariant
                        *self == JsonValue::Array(*items),
                        i <= items@.len(),
                        out@ == start + seq!['['] + items_text(items@.subrange(0, i as int)),
                    decreases items.len() - i,
                {
                    if i > 0 {
                        push_char(out, ',');
                    }
                    proof {
                        assert(*self == JsonValue::Array(*items));
                        assert(decreases_to!(*self => (*self)->Array_0));
                        assert(decreases_to!(*items => items@));
                        assert(decreases_to!(items@ => items@[i as int]));
                        assert(decreases_to!(*self => items@[i as int]));
                    }
                    items[i].write_text(out);
                    assert(items@.subrange(0, i + 1).drop_last() =~= items@.subrange(0, i as int));
                    i = i + 1;
                }
                assert(items@.subrange(0, items@.len() as int) =~= items@);
                push_char(out, ']');
            },
            JsonValue::Object(entries) => {
                push_char(out, '{');
                let mut i: usize = 0;
                while i < entries.len()
                    invariant
                        *self == JsonValue::Object(*entries),
                        i <= entries@.len(),
                        out@ == start + seq!['{'] + members_text(entries@.subrange(0, i as int)),
                    decreases entries.len() - i,
                {
                    let ghost before = out@;
                    if i > 0 {
                        push_char(out, ',');
                    }
                    let ghost after_sep = out@;
                    write_quoted(entries[i].0.as_str(), out);
                    push_char(out, ':');
                    proof {
                        assert(*self == JsonValue::Object(*entries));
                        assert(decreases_to!(*self => (*self)->Object_0));
                        assert(decreases_to!(*entries => entries@));
                        assert(decreases_to!(entries@ => entries@[i as int]));
                        assert(decreases_to!(entries@[i as int] => entries@[i as int].1));
                        assert(decreases_to!(*self => entries@[i as int].1));
                    }
                    entries[i].1.write_text(out);
                    assert(out@ == after_sep + member_text(entries@[i as int]));
                    assert(entries@.subrange(0, i + 1).drop_last() =~= entries@.subrange(0, i as int));
                    assert(entries@.subrange(0, i + 1).last() == entries@[i as int]);
                    i = i + 1;
                }
                assert(entries@.subrange(0, entries@.len() as int) =~= entries@);
                push_char(out, '}');
            },
        }
    }

    /// `value.to_string()`.
    pub fn to_text(&self) -> (r: String)
        ensures
            r@ == json_text(*self),
    {
        let mut out = String::new();
        self.write_text(&mut out);
        assert(out@ =~= json_text(*self));
        out
    }

    /// `value.as_str().map(str::to_string).unwrap_or_else(|| value.to_string())`.
    pub fn text_of(&self) -> (r: String)
        ensures
            r@ == text_of(*self),
    {
        match self {
            JsonValue::Str(s) => s.clone(),
            _ => self.to_text(),
        }
    }
}

/// `value[key1].as_str().or_else(|| value[key2].as_str()).unwrap_or("")`.
pub open spec fn field_str_either(v: JsonValue, key1: Seq<char>, key2: Seq<char>) -> Seq<char> {
    match spec_as_str(spec_at(v, key1)) {
        Some(s) => s,
        None => field_str(v, key2),
    }
}

/// `value.as_str().map(str::to_string).unwrap_or_else(|| value.as_u64().map(|v| v.to_string()).unwrap_or_default())`.
pub open spec fn str_or_u64_text(v: JsonValue) -> Seq<char> {
    match spec_as_str(v) {
        Some(s) => s,
        None => match spec_as_u64(v) {
            Some(n) => crate::text::nat_digits(n as nat),
            None => Seq::empty(),
        },
    }
}

/// `value.get(key).map(text_of).unwrap_or_default()`.
pub open spec fn member_text_or_empty(v: JsonValue, key: Seq<char>) -> Seq<char> {
    match spec_get(v, key) {
        Some(m) => text_of(m),
        None => Seq::empty(),
    }
}

impl JsonValue {
    /// `value[key1].as_str().or_else(|| value[key2].as_str()).unwrap_or("").to_string()`.
    pub fn field_str_either(&self, key1: &str, key2: &str) -> (r: String)
        ensures
            r@ == field_str_either(*self, key1@, key2@),
    {
        match self.get(key1) {
            Some(m) => match m.as_str() {
                Some(s) => return string_from(s),
                None => {},
            },
            None => {},
        }
        self.field_str(key2)
    }

    /// A string, or the decimal text of an unsigned integer, or empty.
    pub fn str_or_u64_text(&self) -> (r: String)
        ensures
            r@ == str_or_u64_text(*self),
    {
        match self.as_str() {
            Some(s) => string_from(s),
            None => match self.as_u64() {
                Some(n) => crate::text::u64_to_string(n),
                None => String::new(),
            },
        }
    }

    /// The text of the member with the key, or empty where there is none.
    pub fn member_text_or_empty(&self, key: &str) -> (r: String)
        ensures
            r@ == member_text_or_empty(*self, key@),
    {
        match self.get(key) {
            Some(m) => m.text_of(),
            None => String::new(),
        }
    }

    /// `value[key]` where it is a member, `None` otherwise.
    pub fn at(&self, key: &str) -> (r: Option<&JsonValue>)
        ensures
            match r {
                Some(m) => spec_get(*self, key@) == Some(*m) && spec_at(*self, key@) == *m,
                None => spec_get(*self, key@) is None && spec_at(*self, key@) == JsonValue::Null,
            },
    {
        self.get(key)
    }
}

/// The members of an object whose values are all strings, as JSON text.
pub open spec fn str_members_text(pairs: Seq<(Seq<char>, Seq<char>)>) -> Seq<char>
    decreases pairs.len(),
{
    if pairs.len() == 0 {
        Seq::empty()
    } else if pairs.len() == 1 {
        quoted(pairs[0].0) + seq![':'] + quoted(pairs[0].1)
    } else {
        str_members_text(pairs.drop_last()) + seq![','] + quoted(pairs.last().0) + seq![':'] + quoted(
            pairs.last().1,
        )
    }
}

/// An object whose values are all strings, as JSON text.
pub open spec fn str_object_text(pairs: Seq<(Seq<char>, Seq<char>)>) -> Seq<char> {
    seq!['{'] + str_members_text(pairs) + seq!['}']
}

/// An object with the pairs as its string members, in order.
pub fn str_object(pairs: &Vec<(String, String)>) -> (r: JsonValue)
    ensures
        json_text(r) == str_object_text(crate::signing::pair_views(pairs@)),
{
    let mut entries: Vec<(String, JsonValue)> = Vec::new();
    let mut i: usize = 0;
    while i < pairs.len()
        invariant
            i <= pairs@.len(),
            entries@.len() == i,
            members_text(entries@) == str_members_text(crate::signing::pair_views(pairs@.subrange(0, i as int))),
        decreases pairs.len() - i,
    {
        let ghost old_entries = entries@;
        let e = (pairs[i].0.clone(), JsonValue::Str(pairs[i].1.clone()));
        entries.push(e);
        proof {
            let pv = crate::signing::pair_views(pairs@.subrange(0, i + 1));
            assert(pv.drop_last() =~= crate::signing::pair_views(pairs@.subrange(0, i as int)));
            assert(entries@.drop_last() =~= old_entries);
            assert(json_text(entries@.last().1) == quoted(pairs@[i as int].1@));
            assert(pv.last() == (pairs@[i as int].0@, pairs@[i as int].1@));
            assert(member_text(entries@.last()) == quoted(pv.last().0) + seq![':'] + quoted(pv.last().1));
            if i == 0 {
                assert(entries@.len() == 1);
                assert(pv.len() == 1);
            }
        }
        i = i + 1;
    }
    assert(pairs@.subrange(0, pairs@.len() as int) =~= pairs@);
    JsonValue::Object(entries)
}

pub open spec fn spec_as_bool(v: JsonValue) -> Option<bool> {
    match v {
        JsonValue::Bool(b) => Some(b),
        _ => None,
    }
}

/// The n-th item of an array (`value.get(n)`), where it has one.
pub open spec fn array_at(v: JsonValue, n: int) -> Option<JsonValue> {
    match spec_as_array(v) {
        Some(items) => if 0 <= n < items.len() { Some(items[n]) } else { None },
        None => None,
    }
}

impl JsonValue {
    /// `value.as_bool()`.
    pub fn as_bool(&self) -> (r: Option<bool>)
        ensures
            r == spec_as_bool(*self),
    {
        match self {
            JsonValue::Bool(b) => Some(*b),
            _ => None,
        }
    }

    /// `value.get(n)`: the n-th item of an array.
    pub fn at_index(&self, n: usize) -> (r: Option<&JsonValue>)
        ensures
            match r {
                Some(x) => array_at(*self, n as int) == Some(*x),
                None => array_at(*self, n as int) is None,
            },
    {
        match self {
            JsonValue::Array(items) => if n < items.len() { Some(&items[n]) } else { None },
            _ => None,
        }
    }
}

/// JSON strings of the prefix followed by each item, separated by commas.
pub open spec fn prefixed_strings_text(prefix: Seq<char>, items: Seq<String>) -> Seq<char>
    decreases items.len(),
{
    if items.len() == 0 {
        Seq::empty()
    } else if items.len() == 1 {
        quoted(prefix + items[0]@)
    } else {
        prefixed_strings_text(prefix, items.drop_last()) + ","@ + quoted(prefix + items.last()@)
    }
}

/// Appends the JSON strings of the prefix followed by each item, separated by commas.
pub fn write_prefixed_strings(out: &mut String, prefix: &str, items: &Vec<String>)
    ensures
        final(out)@ == old(out)@ + prefixed_strings_text(prefix@, items@),
{
    let ghost start = out@;
    let mut i: usize = 0;
    assert(items@.subrange(0, 0) =~= Seq::<String>::empty());
    assert(out@ =~= start + prefixed_strings_text(prefix@, items@.subrange(0, 0)));
    while i < items.len()
        invariant
            i <= items@.len(),
            out@ == start + prefixed_strings_text(prefix@, items@.subrange(0, i as int)),
        decreases items.len() - i,
    {
        assert(items@.subrange(0, i + 1).drop_last() =~= items@.subrange(0, i as int));
        let ghost before = out@;
        if i > 0 {
            crate::text::push_str(out, ",");
        }
        let mut item = string_from(prefix);
        crate::text::push_str(&mut item, items[i].as_str());
        write_quoted(item.as_str(), out);
        assert(out@ =~= start + prefixed_strings_text(prefix@, items@.subrange(0, i + 1)));
        i = i + 1;
    }
    assert(items@.subrange(0, items@.len() as int) =~= items@);
}

/// The members' text after one more member.
pub open spec fn joined_member_text(prev: Seq<(String, JsonValue)>, key: Seq<char>, value: JsonValue) -> Seq<char> {
    if prev.len() == 0 {
        quoted(key) + seq![':'] + json_text(value)
    } else {
        members_text(prev) + seq![','] + quoted(key) + seq![':'] + json_text(value)
    }
}

/// Appends a member to an object's members.
pub fn push_member(entries: &mut Vec<(String, JsonValue)>, key: &str, value: JsonValue)
    ensures
        final(entries)@.len() == old(entries)@.len() + 1,
        members_text(final(entries)@) == joined_member_text(old(entries)@, key@, value),
{
    let ghost before = entries@;
    let ghost v = value;
    let k = string_from(key);
    entries.push((k, value));
    assert(entries@.drop_last() =~= before);
    assert(entries@.last() == (k, v));
    assert(member_text(entries@.last()) == quoted(key@) + seq![':'] + json_text(v));
    proof {
        if before.len() == 0 {
            assert(entries@.len() == 1);
            assert(members_text(entries@) == member_text(entries@[0]));
        } else {
            assert(members_text(entries@) == members_text(entries@.drop_last()) + seq![','] + member_text(entries@.last()));
        }
    }
}

/// A JSON integer.
pub fn json_int(n: i64) -> (r: JsonValue)
    ensures
        json_text(r) == crate::text::int_text(n as int),
        spec_as_i64(r) == Some(n),
{
    let text = crate::text::i64_to_string(n);
    JsonValue::Number(JsonNumber { text, as_u64: if n >= 0 { Some(n as u64) } else { None }, as_i64: Some(n), float_text: None })
}

} // verus!
