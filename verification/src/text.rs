//! Text that the model puts into messages: numbers in decimal, and pieces of
//! text joined into one.

use vstd::prelude::*;
use vstd::string::{StrSliceExecFns, StringExecFns};
use crate::errors::ModelError;
use crate::search::{first_index, lemma_first_absent, lemma_first_found};
use crate::types::Version;

verus! {

/// The character of a decimal digit.
pub open spec fn spec_digit(digit: nat) -> char {
    if digit == 0 {
        '0'
    } else if digit == 1 {
        '1'
    } else if digit == 2 {
        '2'
    } else if digit == 3 {
        '3'
    } else if digit == 4 {
        '4'
    } else if digit == 5 {
        '5'
    } else if digit == 6 {
        '6'
    } else if digit == 7 {
        '7'
    } else if digit == 8 {
        '8'
    } else {
        '9'
    }
}

/// A number in decimal, without leading zeros.
pub open spec fn spec_decimal(n: nat) -> Seq<char>
    decreases n,
{
    if n < 10 {
        seq![spec_digit(n)]
    } else {
        spec_decimal(n / 10).push(spec_digit(n % 10))
    }
}

/// A version as text: its three numbers with dots between them.
pub open spec fn spec_version_text(version: Version) -> Seq<char> {
    spec_decimal(version.major as nat) + seq!['.'] + spec_decimal(version.minor as nat) + seq!['.']
        + spec_decimal(version.patch as nat)
}

/// The text of one decimal digit.
fn digit_text(digit: u64) -> (text: &'static str)
    requires
        digit < 10,
    ensures
        text@ == seq![spec_digit(digit as nat)],
{
    proof {
        reveal_strlit("0");
        reveal_strlit("1");
        reveal_strlit("2");
        reveal_strlit("3");
        reveal_strlit("4");
        reveal_strlit("5");
        reveal_strlit("6");
        reveal_strlit("7");
        reveal_strlit("8");
        reveal_strlit("9");
    }
    let text = if digit == 0 {
        "0"
    } else if digit == 1 {
        "1"
    } else if digit == 2 {
        "2"
    } else if digit == 3 {
        "3"
    } else if digit == 4 {
        "4"
    } else if digit == 5 {
        "5"
    } else if digit == 6 {
        "6"
    } else if digit == 7 {
        "7"
    } else if digit == 8 {
        "8"
    } else {
        "9"
    };
    assert(text@ =~= seq![spec_digit(digit as nat)]);
    text
}

/// A number in decimal.
pub fn decimal(n: u64) -> (text: String)
    ensures
        text@ == spec_decimal(n as nat),
    decreases n,
{
    if n < 10 {
        digit_text(n).to_owned()
    } else {
        let mut text = decimal(n / 10);
        text.append(digit_text(n % 10));
        assert(text@ =~= spec_decimal((n / 10) as nat).push(spec_digit((n % 10) as nat)));
        text
    }
}

/// A version as text.
pub fn version_text(version: &Version) -> (text: String)
    ensures
        text@ == spec_version_text(*version),
{
    proof {
        reveal_strlit(".");
    }
    let mut text = decimal(version.major);
    text.append(".");
    text.append(decimal(version.minor).as_str());
    text.append(".");
    text.append(decimal(version.patch).as_str());
    assert(text@ =~= spec_version_text(*version));
    text
}

/// Two pieces of text joined.
pub fn join2(a: &str, b: &str) -> (text: String)
    ensures
        text@ == a@ + b@,
{
    let mut text = a.to_owned();
    text.append(b);
    text
}

/// Three pieces of text joined.
pub fn join3(a: &str, b: &str, c: &str) -> (text: String)
    ensures
        text@ == a@ + b@ + c@,
{
    let mut text = join2(a, b);
    text.append(c);
    text
}

/// Whether a text ends with `.js`.
pub open spec fn spec_has_js_suffix(text: Seq<char>) -> bool {
    text.len() >= 3 && text[text.len() - 3] == '.' && text[text.len() - 2] == 'j' && text[text.len()
        - 1] == 's'
}

/// A module path without its `.js` suffix, if it has one.
pub open spec fn spec_strip_js(text: Seq<char>) -> Seq<char> {
    if spec_has_js_suffix(text) {
        text.subrange(0, text.len() - 3)
    } else {
        text
    }
}

/// A module path without its `.js` suffix, if it has one.
pub fn strip_js(text: &String) -> (stripped: String)
    ensures
        stripped@ == spec_strip_js(text@),
{
    let slice = text.as_str();
    let len = slice.unicode_len();
    if len >= 3 && slice.get_char(len - 3) == '.' && slice.get_char(len - 2) == 'j'
        && slice.get_char(len - 1) == 's' {
        slice.substring_char(0, len - 3).to_owned()
    } else {
        text.clone()
    }
}

/// The number that a decimal digit stands for.
pub open spec fn spec_digit_value(c: char) -> Option<nat> {
    if c == '0' {
        Some(0)
    } else if c == '1' {
        Some(1)
    } else if c == '2' {
        Some(2)
    } else if c == '3' {
        Some(3)
    } else if c == '4' {
        Some(4)
    } else if c == '5' {
        Some(5)
    } else if c == '6' {
        Some(6)
    } else if c == '7' {
        Some(7)
    } else if c == '8' {
        Some(8)
    } else if c == '9' {
        Some(9)
    } else {
        None
    }
}

/// The number that a decimal text stands for: none for a text that is empty,
/// holds anything but digits, has a leading zero before other digits, or
/// stands for a number that does not fit.
pub open spec fn spec_parse_u64(text: Seq<char>) -> Option<u64>
    decreases text.len(),
{
    if text.len() == 0 {
        None
    } else {
        match spec_digit_value(text.last()) {
            None => None,
            Some(digit) => if text.len() == 1 {
                Some(digit as u64)
            } else {
                match spec_parse_u64(text.drop_last()) {
                    Some(above) => if above != 0 && above * 10 + digit <= u64::MAX {
                        Some((above * 10 + digit) as u64)
                    } else {
                        None
                    },
                    None => None,
                }
            },
        }
    }
}

/// A text of which a beginning stands for no number stands for no number.
pub proof fn lemma_parse_stops(text: Seq<char>, n: int)
    requires
        1 <= n <= text.len(),
        spec_parse_u64(text.take(n)) is None,
    ensures
        spec_parse_u64(text) is None,
    decreases text.len() - n,
{
    if n < text.len() {
        assert(text.take(n + 1).drop_last() =~= text.take(n));
        lemma_parse_stops(text, n + 1);
    } else {
        assert(text.take(n) =~= text);
    }
}

/// The number that a decimal digit stands for.
pub fn digit_value(c: char) -> (value: Option<u64>)
    ensures
        match value {
            Some(digit) => spec_digit_value(c) == Some(digit as nat) && digit < 10,
            None => spec_digit_value(c) is None,
        },
{
    if c == '0' {
        Some(0)
    } else if c == '1' {
        Some(1)
    } else if c == '2' {
        Some(2)
    } else if c == '3' {
        Some(3)
    } else if c == '4' {
        Some(4)
    } else if c == '5' {
        Some(5)
    } else if c == '6' {
        Some(6)
    } else if c == '7' {
        Some(7)
    } else if c == '8' {
        Some(8)
    } else if c == '9' {
        Some(9)
    } else {
        None
    }
}

/// The number that a decimal text stands for.
pub fn parse_u64(text: &str) -> (value: Option<u64>)
    ensures
        value == spec_parse_u64(text@),
{
    let len = text.unicode_len();
    if len == 0 {
        return None;
    }
    let mut value: u64 = 0;
    let mut i: usize = 0;
    while i < len
        invariant
            i <= len,
            len == text@.len(),
            i >= 1 ==> spec_parse_u64(text@.take(i as int)) == Some(value),
        decreases len - i,
    {
        proof {
            assert(text@.take(i + 1).drop_last() =~= text@.take(i as int));
            assert(text@.take(i + 1).last() == text@[i as int]);
        }
        let digit = match digit_value(text.get_char(i)) {
            Some(digit) => digit,
            None => {
                proof {
                    lemma_parse_stops(text@, i + 1);
                }
                return None;
            },
        };
        if i == 0 {
            value = digit;
        } else {
            if value == 0 || value > (u64::MAX - digit) / 10 {
                proof {
                    lemma_parse_stops(text@, i + 1);
                }
                return None;
            }
            value = value * 10 + digit;
        }
        i = i + 1;
    }
    assert(text@.take(len as int) =~= text@);
    Some(value)
}

/// Whether a character is `c`.
pub open spec fn is_char(c: char) -> spec_fn(char) -> bool {
    |x: char| x == c
}

/// The place of the first character `c` in a text.
pub open spec fn spec_find_char(text: Seq<char>, c: char) -> Option<int> {
    first_index(text, is_char(c))
}

/// The place of the first character `c` in a text.
pub fn find_char(text: &str, c: char) -> (found: Option<usize>)
    ensures
        match found {
            Some(i) => spec_find_char(text@, c) == Some(i as int) && i < text@.len(),
            None => spec_find_char(text@, c) is None,
        },
{
    let ghost p = is_char(c);
    let len = text.unicode_len();
    let mut i: usize = 0;
    while i < len
        invariant
            i <= len,
            len == text@.len(),
            p == is_char(c),
            forall|j: int| 0 <= j < i ==> !p(#[trigger] text@[j]),
        decreases len - i,
    {
        if text.get_char(i) == c {
            proof {
                assert(p(text@[i as int]));
                lemma_first_found(text@, p, i as int);
            }
            return Some(i);
        }
        assert(!p(text@[i as int]));
        i = i + 1;
    }
    proof {
        lemma_first_absent(text@, p);
    }
    None
}

/// The version that a text stands for: three decimal numbers with a dot
/// after the first and a dot after the second.
pub open spec fn spec_parse_version(text: Seq<char>) -> Option<Version> {
    match spec_find_char(text, '.') {
        None => None,
        Some(first) => {
            let rest = text.skip(first + 1);
            match spec_find_char(rest, '.') {
                None => None,
                Some(second) => match (
                    spec_parse_u64(text.take(first)),
                    spec_parse_u64(rest.take(second)),
                    spec_parse_u64(rest.skip(second + 1)),
                ) {
                    (Some(major), Some(minor), Some(patch)) => Some(Version { major, minor, patch }),
                    _ => None,
                },
            }
        },
    }
}

/// The version that a text stands for, or an error for a text that stands
/// for none.
pub fn parse_version(text: &str) -> (result: Result<Version, ModelError>)
    ensures
        result == match spec_parse_version(text@) {
            Some(version) => Ok::<Version, ModelError>(version),
            None => Err::<Version, ModelError>(ModelError::InvalidVersion),
        },
{
    let len = text.unicode_len();
    let first = match find_char(text, '.') {
        Some(first) => first,
        None => { return Err(ModelError::InvalidVersion); },
    };
    let rest = text.substring_char(first + 1, len);
    assert(rest@ =~= text@.skip(first + 1));
    let rest_len = rest.unicode_len();
    let second = match find_char(rest, '.') {
        Some(second) => second,
        None => { return Err(ModelError::InvalidVersion); },
    };
    let major_text = text.substring_char(0, first);
    let minor_text = rest.substring_char(0, second);
    let patch_text = rest.substring_char(second + 1, rest_len);
    proof {
        assert(major_text@ =~= text@.take(first as int));
        assert(minor_text@ =~= rest@.take(second as int));
        assert(patch_text@ =~= rest@.skip(second + 1));
    }
    match (parse_u64(major_text), parse_u64(minor_text), parse_u64(patch_text)) {
        (Some(major), Some(minor), Some(patch)) => Ok(Version { major, minor, patch }),
        _ => Err(ModelError::InvalidVersion),
    }
}

/// A digit stands for the number that it was written for.
pub proof fn lemma_digit_value(digit: nat)
    requires
        digit < 10,
    ensures
        spec_digit_value(spec_digit(digit)) == Some(digit),
        spec_digit(digit) != '.',
{
}

/// A number in decimal holds digits only, and stands for the number.
pub proof fn lemma_decimal_parses(n: nat)
    requires
        n <= u64::MAX,
    ensures
        spec_parse_u64(spec_decimal(n)) == Some(n as u64),
        spec_decimal(n).len() >= 1,
        forall|i: int| 0 <= i < spec_decimal(n).len() ==> #[trigger] spec_decimal(n)[i] != '.',
    decreases n,
{
    if n < 10 {
        lemma_digit_value(n);
        assert(spec_decimal(n) =~= seq![spec_digit(n)]);
    } else {
        lemma_decimal_parses(n / 10);
        lemma_digit_value(n % 10);
        let text = spec_decimal(n);
        assert(text.drop_last() =~= spec_decimal(n / 10));
        assert(text.last() == spec_digit(n % 10));
        assert forall|i: int| 0 <= i < text.len() implies #[trigger] text[i] != '.' by {
            if i < text.len() - 1 {
                assert(text[i] == spec_decimal(n / 10)[i]);
            }
        }
    }
}

/// The text of a version stands for the version.
pub proof fn law_version_round_trip(version: Version)
    ensures
        spec_parse_version(spec_version_text(version)) == Some(version),
{
    let major = spec_decimal(version.major as nat);
    let minor = spec_decimal(version.minor as nat);
    let patch = spec_decimal(version.patch as nat);
    lemma_decimal_parses(version.major as nat);
    lemma_decimal_parses(version.minor as nat);
    lemma_decimal_parses(version.patch as nat);
    let text = spec_version_text(version);
    let is_dot = is_char('.');
    assert(text =~= major + seq!['.'] + (minor + seq!['.'] + patch));
    assert forall|j: int| 0 <= j < major.len() implies !is_dot(#[trigger] text[j]) by {
        assert(text[j] == major[j]);
    }
    assert(text[major.len() as int] == '.');
    assert(is_dot(text[major.len() as int]));
    lemma_first_found(text, is_dot, major.len() as int);
    let rest = text.skip(major.len() as int + 1);
    assert(rest =~= minor + seq!['.'] + patch);
    assert forall|j: int| 0 <= j < minor.len() implies !is_dot(#[trigger] rest[j]) by {
        assert(rest[j] == minor[j]);
    }
    assert(rest[minor.len() as int] == '.');
    assert(is_dot(rest[minor.len() as int]));
    lemma_first_found(rest, is_dot, minor.len() as int);
    assert(text.take(major.len() as int) =~= major);
    assert(rest.take(minor.len() as int) =~= minor);
    assert(rest.skip(minor.len() as int + 1) =~= patch);
}

} // verus!
