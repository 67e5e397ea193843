//! Compact JSON text: what a value looks like on the wire, and writers that
//! append exactly that text to a `String`.

use vstd::prelude::*;

verus! {

/// `String::push` appends the character to the end of the string.
pub assume_specification[ String::push ](s: &mut String, c: char)
    ensures
        final(s)@ == old(s)@.push(c),
;

/// The character for a digit below ten.
pub open spec fn digit(d: int) -> char {
    (d + 48) as char
}

/// The decimal numeral of `n`, without leading zeros.
pub open spec fn decimal(n: nat) -> Seq<char>
    decreases n,
{
    if n < 10 {
        seq![digit(n as int)]
    } else {
        decimal(n / 10).push(digit((n % 10) as int))
    }
}

fn digit_char(d: u8) -> (c: char)
    requires
        d < 10,
    ensures
        c == digit(d as int),
{
    (d + 48) as char
}

/// Appends the decimal numeral of `n`.
pub fn write_decimal(out: &mut String, n: u8)
    ensures
        final(out)@ == old(out)@ + decimal(n as nat),
{
    proof {
        reveal_with_fuel(decimal, 3);
    }
    if n >= 100 {
        out.push(digit_char(n / 100));
    }
    if n >= 10 {
        out.push(digit_char((n / 10) % 10));
    }
    out.push(digit_char(n % 10));
}

/// The lower-case hexadecimal digit for a value below sixteen.
pub open spec fn hex_digit(d: int) -> char {
    if d < 10 {
        (d + 48) as char
    } else {
        (d + 87) as char
    }
}

/// How one character stands inside a JSON string: the quotation mark, the
/// reverse solidus and the control characters below U+0020 are escaped, the
/// latter by their short form where JSON has one and as `\u00XX` otherwise;
/// every other character stands for itself.
pub open spec fn escape(c: char) -> Seq<char> {
    if c == '"' {
        seq!['\\', '"']
    } else if c == '\\' {
        seq!['\\', '\\']
    } else if c == '\u{8}' {
        seq!['\\', 'b']
    } else if c == '\u{9}' {
        seq!['\\', 't']
    } else if c == '\u{a}' {
        seq!['\\', 'n']
    } else if c == '\u{c}' {
        seq!['\\', 'f']
    } else if c == '\u{d}' {
        seq!['\\', 'r']
    } else if (c as u32) < 0x20 {
        seq!['\\', 'u', '0', '0', hex_digit((c as u32 / 16) as int), hex_digit((c as u32 % 16) as int)]
    } else {
        seq![c]
    }
}

/// The characters of `s`, each escaped, in order.
pub open spec fn escaped(s: Seq<char>) -> Seq<char>
    decreases s.len(),
{
    if s.len() == 0 {
        Seq::empty()
    } else {
        escaped(s.drop_last()) + escape(s.last())
    }
}

/// The JSON string for `s`: its escaped characters between quotation marks.
pub open spec fn quoted(s: Seq<char>) -> Seq<char> {
    seq!['"'] + escaped(s) + seq!['"']
}

fn hex_char(d: u8) -> (c: char)
    requires
        d < 16,
    ensures
        c == hex_digit(d as int),
{
    if d < 10 {
        (d + 48) as char
    } else {
        (d + 87) as char
    }
}

/// Appends `c` as it stands inside a JSON string.
pub fn write_escape(out: &mut String, c: char)
    ensures
        final(out)@ == old(out)@ + escape(c),
{
    if c == '"' {
        out.push('\\');
        out.push('"');
    } else if c == '\\' {
        out.push('\\');
        out.push('\\');
    } else if c == '\u{8}' {
        out.push('\\');
        out.push('b');
    } else if c == '\u{9}' {
        out.push('\\');
        out.push('t');
    } else if c == '\u{a}' {
        out.push('\\');
        out.push('n');
    } else if c == '\u{c}' {
        out.push('\\');
        out.push('f');
    } else if c == '\u{d}' {
        out.push('\\');
        out.push('r');
    } else if (c as u32) < 0x20 {
        let code: u8 = c as u8;
        out.push('\\');
        out.push('u');
        out.push('0');
        out.push('0');
        out.push(hex_char(code / 16));
        out.push(hex_char(code % 16));
    } else {
        out.push(c);
    }
}

/// Appends the JSON string for `s`.
pub fn write_quoted(out: &mut String, s: &str)
    ensures
        final(out)@ == old(out)@ + quoted(s@),
{
    out.push('"');
    for c in it: s.chars()
        invariant
            it.seq() == s@,
            out@ == old(out)@ + seq!['"'] + escaped(s@.take(it.index())),
    {
        proof {
            let n = it.index();
            assert(s@.take(n + 1).drop_last() == s@.take(n));
            assert(s@.take(n + 1).last() == c);
        }
        write_escape(out, c);
    }
    proof {
        assert(s@.take(s@.len() as int) == s@);
    }
    out.push('"');
}

/// The texts of `items` with a comma between each two neighbours.
pub open spec fn joined(items: Seq<Seq<char>>) -> Seq<char>
    decreases items.len(),
{
    if items.len() == 0 {
        Seq::empty()
    } else if items.len() == 1 {
        items[0]
    } else {
        joined(items.drop_last()) + seq![','] + items.last()
    }
}

/// The JSON array whose elements have the texts `items`.
pub open spec fn array(items: Seq<Seq<char>>) -> Seq<char> {
    seq!['['] + joined(items) + seq![']']
}

/// One member of a JSON object: its name and the text of its value.
pub struct Member {
    pub key: Seq<char>,
    pub value: Seq<char>,
}

impl Member {
    /// The member as it stands in an object: quoted name, colon, value.
    pub open spec fn text(self) -> Seq<char> {
        quoted(self.key) + seq![':'] + self.value
    }
}

/// The names of `members`, in order.
pub open spec fn keys(members: Seq<Member>) -> Seq<Seq<char>> {
    members.map_values(|m: Member| m.key)
}

/// The JSON object that holds `members` in the order given.
pub open spec fn object(members: Seq<Member>) -> Seq<char> {
    seq!['{'] + joined(members.map_values(|m: Member| m.text())) + seq!['}']
}

/// The array elements for a run of bytes: each byte as a decimal number.
pub open spec fn numbers(bytes: Seq<u8>) -> Seq<Seq<char>> {
    bytes.map_values(|b: u8| decimal(b as nat))
}

/// The array elements for a list of texts: each as a JSON string.
pub open spec fn strings(items: Seq<Seq<char>>) -> Seq<Seq<char>> {
    items.map_values(|s: Seq<char>| quoted(s))
}

/// The characters of each string slice of `items`.
pub open spec fn views(items: Seq<&str>) -> Seq<Seq<char>> {
    items.map_values(|s: &str| s@)
}

/// Joining one more item puts a comma before it, unless it is the first.
pub proof fn lemma_joined_push(items: Seq<Seq<char>>, item: Seq<char>)
    ensures
        joined(items.push(item)) == if items.len() == 0 {
            item
        } else {
            joined(items) + seq![','] + item
        },
{
    assert(items.push(item).drop_last() == items);
}

/// Appends a comma unless the next item is the first of its list.
pub fn write_separator(out: &mut String, first: bool)
    ensures
        final(out)@ == old(out)@ + if first {
            Seq::<char>::empty()
        } else {
            seq![',']
        },
{
    if !first {
        out.push(',');
    }
}

/// Appends `bytes` as a JSON array of numbers.
pub fn write_numbers(out: &mut String, bytes: &Vec<u8>)
    ensures
        final(out)@ == old(out)@ + array(numbers(bytes@)),
{
    out.push('[');
    let n = bytes.len();
    for i in 0..n
        invariant
            n == bytes.len(),
            out@ == old(out)@ + seq!['['] + joined(numbers(bytes@).take(i as int)),
    {
        proof {
            let texts = numbers(bytes@);
            assert(texts.take(i + 1) == texts.take(i as int).push(texts[i as int]));
            lemma_joined_push(texts.take(i as int), texts[i as int]);
        }
        write_separator(out, i == 0);
        write_decimal(out, bytes[i]);
    }
    proof {
        assert(numbers(bytes@).take(n as int) == numbers(bytes@));
    }
    out.push(']');
}

/// Appends `items` as a JSON array of strings.
pub fn write_strings(out: &mut String, items: &Vec<&str>)
    ensures
        final(out)@ == old(out)@ + array(strings(views(items@))),
{
    out.push('[');
    let n = items.len();
    for i in 0..n
        invariant
            n == items.len(),
            out@ == old(out)@ + seq!['['] + joined(strings(views(items@)).take(i as int)),
    {
        proof {
            let texts = strings(views(items@));
            assert(texts.take(i + 1) == texts.take(i as int).push(texts[i as int]));
            lemma_joined_push(texts.take(i as int), texts[i as int]);
        }
        write_separator(out, i == 0);
        write_quoted(out, items[i]);
    }
    proof {
        assert(strings(views(items@)).take(n as int) == strings(views(items@)));
    }
    out.push(']');
}

/// Appends what opens a member of an object: a comma unless the member is
/// the first, its quoted name and a colon.
pub fn write_key(out: &mut String, first: bool, key: &str)
    ensures
        final(out)@ == old(out)@ + (if first {
            Seq::<char>::empty()
        } else {
            seq![',']
        }) + quoted(key@) + seq![':'],
{
    write_separator(out, first);
    write_quoted(out, key);
    out.push(':');
}

/// The characters of an optional string.
pub open spec fn optional_text(s: Option<String>) -> Option<Seq<char>> {
    match s {
        Some(s) => Some(s@),
        None => None,
    }
}

/// What a list of members holds: of each its name and, where its value is a
/// string, the characters of that string.
pub open spec fn member_views(members: Seq<(String, Option<String>)>) -> Seq<
    (Seq<char>, Option<Seq<char>>),
> {
    members.map_values(|m: (String, Option<String>)| (m.0@, optional_text(m.1)))
}

/// The members of the JSON object that `text` holds, as `serde_json` reads
/// them; `None` where `text` holds no JSON object.
pub uninterp spec fn object_members(text: Seq<char>) -> Option<
    Seq<(Seq<char>, Option<Seq<char>>)>,
>;

/// Reads `text` with `serde_json::from_str` as a `serde_json::Value`. Where
/// that is an object, its members are handed out in the order in which the
/// object yields them, each with its name and, where its value is a string,
/// with that string. The contract gives that result its name,
/// [`object_members`], and claims no more: which texts hold an object, and
/// what its members are, is decided by `serde_json` alone.
#[verifier::external_body]
pub(crate) fn read_object(text: &str) -> (members: Option<Vec<(String, Option<String>)>>)
    ensures
        match members {
            Some(list) => object_members(text@) == Some(member_views(list@)),
            None => object_members(text@) is None,
        },
{
    match serde_json::from_str::<serde_json::Value>(text) {
        Ok(serde_json::Value::Object(object)) => Some(
            object.into_iter().map(|(name, value)| match value {
                serde_json::Value::String(s) => (name, Some(s)),
                _ => (name, None),
            }).collect(),
        ),
        _ => None,
    }
}

/// The string that the member named `key` holds: of the first such member,
/// and `None` where there is none or its value is no string.
pub open spec fn member_text(members: Seq<(Seq<char>, Option<Seq<char>>)>, key: Seq<char>) -> Option<
    Seq<char>,
>
    decreases members.len(),
{
    if members.len() == 0 {
        None
    } else if members[0].0 == key {
        members[0].1
    } else {
        member_text(members.drop_first(), key)
    }
}

/// The string member named `key` of the JSON object that `text` holds, if
/// there is one.
pub open spec fn string_member(text: Seq<char>, key: Seq<char>) -> Option<Seq<char>> {
    match object_members(text) {
        Some(members) => member_text(members, key),
        None => None,
    }
}

/// Looks up the string that the member named `key` holds.
pub fn find_text(members: Vec<(String, Option<String>)>, key: &str) -> (text: Option<String>)
    ensures
        optional_text(text) == member_text(member_views(members@), key@),
{
    let ghost all = member_views(members@);
    let mut rest = members;
    let wanted = String::from_str(key);
    let n = rest.len();
    let mut i: usize = 0;
    proof {
        assert(all.skip(0) == all);
    }
    while i < n
        invariant
            n == rest.len(),
            i <= n,
            wanted@ == key@,
            all == member_views(members@),
            member_views(rest@) == all,
            member_text(all, key@) == member_text(all.skip(i as int), key@),
        decreases n - i,
    {
        proof {
            assert(all.skip(i as int).drop_first() == all.skip(i + 1));
        }
        if rest[i].0 == wanted {
            let found = rest.remove(i);
            return found.1;
        }
        i += 1;
    }
    None
}

/// Reads the string member named `key` from the JSON object that `text`
/// holds.
pub fn read_string_member(text: &str, key: &str) -> (member: Option<String>)
    ensures
        optional_text(member) == string_member(text@, key@),
{
    match read_object(text) {
        Some(members) => find_text(members, key),
        None => None,
    }
}

} // verus!
