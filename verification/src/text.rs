//! Strings as sequences of characters: numbers in decimal and hexadecimal,
//! ASCII case, splitting and comparing.

use vstd::prelude::*;
use vstd::string::*;

verus! {

/// [`String::push`] appends the given character to the end of the string.
pub assume_specification[ String::push ](s: &mut String, c: char)
    ensures
        final(s)@ == old(s)@.push(c),
;

/// The decimal digit of `d`, which is below ten.
pub open spec fn digit_char(d: nat) -> char {
    (('0' as u32) + d) as char
}

/// The decimal numeral of `n` without leading zeros.
pub open spec fn decimal(n: nat) -> Seq<char>
    decreases n,
{
    if n < 10 {
        seq![digit_char(n)]
    } else {
        decimal(n / 10).push(digit_char(n % 10))
    }
}

/// The decimal numeral of a signed number, with a leading `-` below zero.
pub open spec fn signed_decimal(n: int) -> Seq<char> {
    if n < 0 {
        seq!['-'] + decimal((-n) as nat)
    } else {
        decimal(n as nat)
    }
}

/// The lowercase hexadecimal digit of `d`, which is below sixteen.
pub open spec fn hex_char(d: nat) -> char {
    if d < 10 {
        (('0' as u32) + d) as char
    } else {
        (('a' as u32) + (d - 10)) as char
    }
}

/// The low `width` hexadecimal digits of `n`, most significant first.
pub open spec fn fixed_hex(n: nat, width: nat) -> Seq<char>
    decreases width,
{
    if width == 0 {
        seq![]
    } else {
        fixed_hex(n / 16, (width - 1) as nat).push(hex_char(n % 16))
    }
}

fn digit_to_char(d: u8) -> (c: char)
    requires
        d < 10,
    ensures
        c == digit_char(d as nat),
{
    match d {
        0 => '0',
        1 => '1',
        2 => '2',
        3 => '3',
        4 => '4',
        5 => '5',
        6 => '6',
        7 => '7',
        8 => '8',
        _ => '9',
    }
}

fn hex_to_char(d: u8) -> (c: char)
    requires
        d < 16,
    ensures
        c == hex_char(d as nat),
{
    match d {
        10 => 'a',
        11 => 'b',
        12 => 'c',
        13 => 'd',
        14 => 'e',
        15 => 'f',
        _ => digit_to_char(d),
    }
}

/// Appends the decimal numeral of `n`.
pub fn push_decimal(out: &mut String, n: u64)
    ensures
        final(out)@ == old(out)@ + decimal(n as nat),
    decreases n,
{
    if n >= 10 {
        push_decimal(out, n / 10);
    }
    out.push(digit_to_char((n % 10) as u8));
    assert(out@ =~= old(out)@ + decimal(n as nat));
}

/// Appends the decimal numeral of a signed number.
pub fn push_signed_decimal(out: &mut String, n: i64)
    ensures
        final(out)@ == old(out)@ + signed_decimal(n as int),
{
    if n < 0 {
        out.push('-');
        let magnitude: u64 = if n == i64::MIN {
            9_223_372_036_854_775_808
        } else {
            (-n) as u64
        };
        push_decimal(out, magnitude);
    } else {
        push_decimal(out, n as u64);
    }
    assert(out@ =~= old(out)@ + signed_decimal(n as int));
}

/// Appends the low `width` hexadecimal digits of `n`.
pub fn push_fixed_hex(out: &mut String, n: u128, width: u32)
    ensures
        final(out)@ == old(out)@ + fixed_hex(n as nat, width as nat),
    decreases width,
{
    if width > 0 {
        push_fixed_hex(out, n / 16, width - 1);
        out.push(hex_to_char((n % 16) as u8));
    }
    assert(out@ =~= old(out)@ + fixed_hex(n as nat, width as nat));
}

/// The low `width` hexadecimal digits of `n`.
pub fn fixed_hex_string(n: u128, width: u32) -> (s: String)
    ensures
        s@ == fixed_hex(n as nat, width as nat),
{
    let mut out = String::new();
    push_fixed_hex(&mut out, n, width);
    assert(out@ =~= fixed_hex(n as nat, width as nat));
    out
}

/// Whether two strings hold the same characters.
pub fn str_eq(left: &str, right: &str) -> (same: bool)
    ensures
        same == (left@ == right@),
{
    left.to_owned() == right.to_owned()
}

/// The concatenation of two strings.
pub fn concat(left: &str, right: &str) -> (s: String)
    ensures
        s@ == left@ + right@,
{
    let mut out = left.to_owned();
    out.append(right);
    out
}

/// The characters of a string.
pub fn chars_of(s: &str) -> (out: Vec<char>)
    ensures
        out@ == s@,
{
    let mut out: Vec<char> = Vec::new();
    for c in iter: s.chars()
        invariant
            out@ == s@.take(iter.index() as int),
            iter.seq() == s@,
    {
        out.push(c);
        assert(out@ =~= s@.take(iter.index() as int + 1));
    }
    assert(out@ =~= s@);
    out
}

/// The first `count` characters of a string.
pub fn text_prefix(s: &str, count: usize) -> (prefix: String)
    requires
        count <= s@.len(),
    ensures
        prefix@ == s@.take(count as int),
{
    let chars = chars_of(s);
    let mut out = String::new();
    assert(out@ =~= s@.take(0));
    for i in 0..count
        invariant
            count <= chars.len(),
            chars@ == s@,
            out@ == s@.take(i as int),
    {
        out.push(chars[i]);
        assert(out@ =~= s@.take(i as int + 1));
    }
    out
}

/// The string of the given characters.
pub fn string_of(chars: &[char]) -> (s: String)
    ensures
        s@ == chars@,
{
    let mut out = String::new();
    for i in 0..chars.len()
        invariant
            out@ == chars@.take(i as int),
    {
        out.push(chars[i]);
        assert(out@ =~= chars@.take(i as int + 1));
    }
    assert(out@ =~= chars@);
    out
}

/// The lowercase of an ASCII capital; any other character as it is.
pub open spec fn ascii_lower(c: char) -> char {
    if 'A' <= c <= 'Z' {
        ((c as u32) + 32) as char
    } else {
        c
    }
}

/// A text with its ASCII capitals lowered.
pub open spec fn ascii_lowered(text: Seq<char>) -> Seq<char> {
    text.map_values(|c: char| ascii_lower(c))
}

/// The lowercase of an ASCII capital; any other character as it is.
pub fn lower_char(c: char) -> (lower: char)
    ensures
        lower == ascii_lower(c),
{
    if c >= 'A' && c <= 'Z' {
        ((c as u32 + 32) as u8) as char
    } else {
        c
    }
}

/// A copy of a string with its ASCII capitals lowered.
pub fn lower_text(text: &str) -> (lower: Vec<char>)
    ensures
        lower@ == ascii_lowered(text@),
{
    let chars = chars_of(text);
    let mut lower: Vec<char> = Vec::new();
    for i in 0..chars.len()
        invariant
            chars@ == text@,
            lower@ == ascii_lowered(text@.take(i as int)),
    {
        lower.push(lower_char(chars[i]));
        assert(lower@ =~= ascii_lowered(text@.take(i as int + 1)));
    }
    assert(text@.take(text@.len() as int) =~= text@);
    lower
}

/// Whether two strings are the same but for the case of ASCII letters.
pub fn eq_ignore_ascii_case(left: &str, right: &str) -> (same: bool)
    ensures
        same == (ascii_lowered(left@) == ascii_lowered(right@)),
{
    let left = string_of(lower_text(left).as_slice());
    let right = string_of(lower_text(right).as_slice());
    left == right
}

/// The texts of a list of strings.
pub open spec fn texts(list: Seq<String>) -> Seq<Seq<char>> {
    list.map_values(|text: String| text@)
}

/// The texts one after another with a comma between each two.
pub open spec fn comma_joined(list: Seq<Seq<char>>) -> Seq<char>
    decreases list.len(),
{
    if list.len() == 0 {
        seq![]
    } else if list.len() == 1 {
        list[0]
    } else {
        comma_joined(list.drop_last()) + ","@ + list.last()
    }
}

/// The labels as owned strings.
pub fn owned_labels(labels: &[&'static str]) -> (list: Vec<String>)
    ensures
        texts(list@) == crate::classify::label_texts(labels@),
{
    let mut list: Vec<String> = Vec::new();
    for i in 0..labels.len()
        invariant
            texts(list@) == crate::classify::label_texts(labels@.take(i as int)),
    {
        let ghost before = texts(list@);
        let label: &'static str = labels[i];
        list.push(label.to_owned());
        assert(texts(list@) =~= before.push(label@));
        assert(crate::classify::label_texts(labels@.take(i as int + 1))
            =~= crate::classify::label_texts(labels@.take(i as int)).push(label@));
    }
    assert(labels@.take(labels@.len() as int) =~= labels@);
    list
}

/// The labels one after another with a comma between each two.
pub fn join_labels(labels: &[&'static str]) -> (text: String)
    ensures
        text@ == comma_joined(crate::classify::label_texts(labels@)),
{
    let mut text = String::new();
    let ghost all = crate::classify::label_texts(labels@);
    for i in 0..labels.len()
        invariant
            all == crate::classify::label_texts(labels@),
            all.len() == labels@.len(),
            text@ == comma_joined(all.take(i as int)),
    {
        let ghost before = all.take(i as int);
        let ghost after = all.take(i as int + 1);
        assert(after.drop_last() =~= before);
        assert(after.last() == labels@[i as int]@);
        if i > 0 {
            text.append(",");
        }
        text.append(labels[i]);
        assert(text@ =~= comma_joined(after));
    }
    assert(all.take(all.len() as int) =~= all);
    text
}

/// Whether a text comes strictly before another, character by character.
pub open spec fn text_before(left: Seq<char>, right: Seq<char>) -> bool
    decreases left.len(),
{
    if right.len() == 0 {
        false
    } else if left.len() == 0 {
        true
    } else if left[0] == right[0] {
        text_before(left.drop_first(), right.drop_first())
    } else {
        left[0] < right[0]
    }
}

/// Whether a text comes strictly before another, character by character.
pub fn text_less(left: &str, right: &str) -> (less: bool)
    ensures
        less == text_before(left@, right@),
{
    let one = chars_of(left);
    let two = chars_of(right);
    let mut at: usize = 0;
    assert(one@.skip(0) =~= one@ && two@.skip(0) =~= two@);
    while at < one.len() && at < two.len() && one[at] == two[at]
        invariant
            at <= one.len(),
            at <= two.len(),
            one@ == left@,
            two@ == right@,
            text_before(left@, right@) == text_before(one@.skip(at as int), two@.skip(at as int)),
        decreases one.len() - at,
    {
        assert(one@.skip(at as int).drop_first() =~= one@.skip(at as int + 1));
        assert(two@.skip(at as int).drop_first() =~= two@.skip(at as int + 1));
        at = at + 1;
    }
    if at >= two.len() {
        false
    } else if at >= one.len() {
        true
    } else {
        one[at] < two[at]
    }
}

/// No text comes before itself.
pub proof fn text_order_is_irreflexive(text: Seq<char>)
    ensures
        !text_before(text, text),
    decreases text.len(),
{
    if text.len() > 0 {
        text_order_is_irreflexive(text.drop_first());
    }
}

/// The order of texts is transitive.
pub proof fn text_order_is_transitive(one: Seq<char>, two: Seq<char>, three: Seq<char>)
    requires
        text_before(one, two),
        text_before(two, three),
    ensures
        text_before(one, three),
    decreases one.len(),
{
    if one.len() > 0 && two.len() > 0 && three.len() > 0 && one[0] == two[0] && two[0]
        == three[0] {
        text_order_is_transitive(one.drop_first(), two.drop_first(), three.drop_first());
    }
}

/// Of two different texts one comes before the other.
pub proof fn text_order_is_total(left: Seq<char>, right: Seq<char>)
    ensures
        text_before(left, right) || text_before(right, left) || left == right,
    decreases left.len(),
{
    if left.len() == 0 && right.len() == 0 {
        assert(left =~= right);
    } else if left.len() > 0 && right.len() > 0 && left[0] == right[0] {
        text_order_is_total(left.drop_first(), right.drop_first());
        if left.drop_first() == right.drop_first() {
            assert(left =~= seq![left[0]] + left.drop_first());
            assert(right =~= seq![right[0]] + right.drop_first());
        }
    }
}

} // verus!
