//! Formatting helpers consumed by the view layer: rendering a
//! time-to-empty as a coarse duration phrase, and turning a kebab-case
//! wire string into a title-case label.

use vstd::prelude::*;
use vstd::string::StrSliceExecFns;
use vstd::string::StringExecFns;

verus! {

/// The decimal digit characters, by value.
pub open spec fn digit_char(d: nat) -> char {
    if d == 0 {
        '0'
    } else if d == 1 {
        '1'
    } else if d == 2 {
        '2'
    } else if d == 3 {
        '3'
    } else if d == 4 {
        '4'
    } else if d == 5 {
        '5'
    } else if d == 6 {
        '6'
    } else if d == 7 {
        '7'
    } else if d == 8 {
        '8'
    } else {
        '9'
    }
}

/// The usual decimal representation of `n`: most significant digit
/// first, no leading zeros (except for `n == 0` itself).
pub open spec fn spec_decimal(n: nat) -> Seq<char>
    decreases n,
{
    if n < 10 {
        seq![digit_char(n)]
    } else {
        spec_decimal(n / 10).push(digit_char(n % 10))
    }
}

/// Returns the one-character string for a decimal digit value.
fn digit_str(d: u64) -> (r: &'static str)
    requires
        d < 10,
    ensures
        r@ =~= seq![digit_char(d as nat)],
{
    proof {
        reveal_strlit("0");
        reveal_strlit("1");
        reveal_strlit("2");
        reveal_strlit("3");
        reveal_strlit("4");
        reveal_strlit("5");
        reveal_strlit("6");
        reveal_strlit("7");
        reveal_strlit("8");
        reveal_strlit("9");
    }
    if d == 0 {
        "0"
    } else if d == 1 {
        "1"
    } else if d == 2 {
        "2"
    } else if d == 3 {
        "3"
    } else if d == 4 {
        "4"
    } else if d == 5 {
        "5"
    } else if d == 6 {
        "6"
    } else if d == 7 {
        "7"
    } else if d == 8 {
        "8"
    } else {
        "9"
    }
}

/// Renders `n` in decimal.
pub fn u64_to_decimal(n: u64) -> (r: String)
    ensures
        r@ == spec_decimal(n as nat),
    decreases n,
{
    if n < 10 {
        digit_str(n).to_owned()
    } else {
        let mut prefix = u64_to_decimal(n / 10);
        prefix.append(digit_str(n % 10));
        proof {
            assert(prefix@ =~= spec_decimal(n as nat));
        }
        prefix
    }
}

/// The duration phrase shown beside the battery gauge: whole hours when
/// at least two, else whole minutes when at least two, else the two
/// singular phrases, else a catch-all.  Negative or sub-minute inputs
/// all fall to the catch-all.
pub open spec fn spec_hour_minute(seconds: int) -> Seq<char> {
    if seconds < 0 {
        "Less than a minute"@
    } else {
        let h: int = seconds / 3600;
        let m: int = (seconds % 3600) / 60;
        if h > 1 {
            spec_decimal(h as nat) + " hours"@
        } else if m > 1 {
            spec_decimal(m as nat) + " minutes"@
        } else if h == 1 {
            "1 hour"@
        } else if m == 1 {
            "1 minute"@
        } else {
            "Less than a minute"@
        }
    }
}

/// Renders a time-to-empty, given in seconds, as a coarse phrase.
pub fn seconds_to_hour_minute(seconds: i64) -> (r: String)
    ensures
        r@ == spec_hour_minute(seconds as int),
{
    if seconds < 0 {
        return "Less than a minute".to_owned();
    }
    let s: u64 = seconds as u64;
    let hours: u64 = s / 3600;
    let minutes: u64 = (s % 3600) / 60;
    if hours > 1 {
        u64_to_decimal(hours).concat(" hours")
    } else if minutes > 1 {
        u64_to_decimal(minutes).concat(" minutes")
    } else if hours == 1 {
        "1 hour".to_owned()
    } else if minutes == 1 {
        "1 minute".to_owned()
    } else {
        "Less than a minute".to_owned()
    }
}

/// The uppercase mapping of one character.  It can be several characters
/// long; it depends on the character alone.
pub uninterp spec fn char_upper(c: char) -> Seq<char>;

/// Relies on `char::to_uppercase`: yields the character's full uppercase
/// mapping, at least one character, from the character alone.
#[verifier::external_body]
fn char_to_uppercase(c: char) -> (r: String)
    ensures
        r@ == char_upper(c),
        r@.len() >= 1,
{
    c.to_uppercase().collect()
}

/// Relies on `String::push`: appends exactly the given character.
#[verifier::external_body]
fn push_char(s: &mut String, c: char)
    ensures
        final(s)@ == old(s)@.push(c),
{
    s.push(c);
}

/// What one character of a kebab-case string contributes to its
/// title-case form: a separator becomes a space, the first character of
/// each word is uppercased, every other character is kept.
pub open spec fn title_piece(s: Seq<char>, i: int) -> Seq<char> {
    if s[i] == '-' {
        seq![' ']
    } else if i == 0 || s[i - 1] == '-' {
        char_upper(s[i])
    } else {
        seq![s[i]]
    }
}

/// The title-case form of the first `n` characters of `s`.
pub open spec fn spec_title_case_prefix(s: Seq<char>, n: int) -> Seq<char>
    decreases n,
{
    if n <= 0 {
        Seq::<char>::empty()
    } else {
        spec_title_case_prefix(s, n - 1) + title_piece(s, n - 1)
    }
}

/// The title-case form of a kebab-case string: words are split on `-`,
/// each word's first character is uppercased, and the words are joined
/// with single spaces.
pub open spec fn spec_title_case(s: Seq<char>) -> Seq<char> {
    spec_title_case_prefix(s, s.len() as int)
}

/// Turns a kebab-case string into a title-case label.
pub fn kebab_to_title_case(string: &str) -> (r: String)
    ensures
        r@ == spec_title_case(string@),
{
    let len: usize = string.unicode_len();
    let mut result = String::new();
    let mut i: usize = 0;
    while i < len
        invariant
            i <= len,
            len == string@.len(),
            result@ == spec_title_case_prefix(string@, i as int),
        decreases len - i,
    {
        let c = string.get_char(i);
        if c == '-' {
            push_char(&mut result, ' ');
        } else if i == 0 || string.get_char(i - 1) == '-' {
            let upper = char_to_uppercase(c);
            result.append(upper.as_str());
        } else {
            push_char(&mut result, c);
        }
        proof {
            assert(result@ =~= spec_title_case_prefix(string@, i + 1));
        }
        i = i + 1;
    }
    result
}

} // verus!
