//! Text operations shared by the line store and the state machine.
use vstd::prelude::*;
use vstd::string::StrSliceExecFns;
use vstd::string::StringExecFns;

verus! {

/// The texts of a sequence of strings.
pub open spec fn names_view(names: Seq<String>) -> Seq<Seq<char>> {
    names.map_values(|s: String| s@)
}

/// Whether `name` is one of `names`.
pub fn contains_name(names: &Vec<String>, name: &String) -> (r: bool)
    ensures
        r == names_view(names@).contains(name@),
{
    let mut i: usize = 0;
    while i < names.len()
        invariant
            i <= names@.len(),
            forall|j: int| 0 <= j < i ==> names@[j]@ != name@,
        decreases names@.len() - i,
    {
        if names[i] == *name {
            assert(names_view(names@)[i as int] == name@);
            return true;
        }
        i += 1;
    }
    proof {
        if names_view(names@).contains(name@) {
            let j = choose|j: int| 0 <= j < names_view(names@).len() && names_view(names@)[j] == name@;
            assert(names@[j]@ == name@);
        }
    }
    false
}

/// `needle` occurs as a contiguous run of characters inside `hay`.
pub open spec fn occurs_in(needle: Seq<char>, hay: Seq<char>) -> bool {
    exists|i: int|
        0 <= i && i + needle.len() <= hay.len() && #[trigger] hay.subrange(i, i + needle.len())
            == needle
}

/// Relies on `str::contains` with a `&str` pattern: true exactly when the
/// pattern matches a sub-slice of the text.
#[verifier::external_body]
pub(crate) fn contains_text(hay: &str, needle: &str) -> (r: bool)
    ensures
        r == occurs_in(needle@, hay@),
{
    hay.contains(needle)
}

/// Relies on `String::push`: appends one character at the end.
#[verifier::external_body]
pub(crate) fn push_char(s: &mut String, c: char)
    ensures
        final(s)@ == old(s)@.push(c),
{
    s.push(c)
}

/// Relies on `String::pop`: removes the last character, if there is one.
#[verifier::external_body]
pub(crate) fn pop_char(s: &mut String)
    ensures
        old(s)@.len() == 0 ==> final(s)@ == old(s)@,
        old(s)@.len() > 0 ==> final(s)@ == old(s)@.drop_last(),
{
    s.pop();
}

/// The character of a decimal digit.
pub open spec fn digit_char(d: nat) -> char {
    if d == 0 { '0' }
    else if d == 1 { '1' }
    else if d == 2 { '2' }
    else if d == 3 { '3' }
    else if d == 4 { '4' }
    else if d == 5 { '5' }
    else if d == 6 { '6' }
    else if d == 7 { '7' }
    else if d == 8 { '8' }
    else { '9' }
}

/// The decimal notation of `n`, without sign or leading zeros.
pub open spec fn decimal(n: nat) -> Seq<char>
    decreases n,
{
    if n < 10 {
        seq![digit_char(n)]
    } else {
        decimal(n / 10).push(digit_char(n % 10))
    }
}

fn digit_str(d: usize) -> (r: &'static str)
    requires
        d < 10,
    ensures
        r@ == seq![digit_char(d as nat)],
{
    proof {
        reveal_strlit("0");
        reveal_strlit("1");
        reveal_strlit("2");
        reveal_strlit("3");
        reveal_strlit("4");
        reveal_strlit("5");
        reveal_strlit("6");
        reveal_strlit("7");
        reveal_strlit("8");
        reveal_strlit("9");
    }
    let r = if d == 0 { "0" }
    else if d == 1 { "1" }
    else if d == 2 { "2" }
    else if d == 3 { "3" }
    else if d == 4 { "4" }
    else if d == 5 { "5" }
    else if d == 6 { "6" }
    else if d == 7 { "7" }
    else if d == 8 { "8" }
    else { "9" };
    assert(r@ =~= seq![digit_char(d as nat)]);
    r
}

/// Writes `n` in decimal notation.
pub fn decimal_text(n: usize) -> (r: String)
    ensures
        r@ == decimal(n as nat),
    decreases n,
{
    if n < 10 {
        String::from_str(digit_str(n))
    } else {
        let mut s = decimal_text(n / 10);
        s.append(digit_str(n % 10));
        s
    }
}

/// `c` is the letter `lower` in either case.
pub open spec fn letter_either_case(c: char, lower: char, upper: char) -> bool {
    c == lower || c == upper
}

/// `name` ends in `.json`, letters compared without regard to case.
pub open spec fn has_json_suffix(name: Seq<char>) -> bool {
    &&& name.len() >= 5
    &&& name[name.len() - 5] == '.'
    &&& letter_either_case(name[name.len() - 4], 'j', 'J')
    &&& letter_either_case(name[name.len() - 3], 's', 'S')
    &&& letter_either_case(name[name.len() - 2], 'o', 'O')
    &&& letter_either_case(name[name.len() - 1], 'n', 'N')
}

/// Whether a file name ends in `.json`, in any mix of letter case.
pub fn is_json_file_name(name: &str) -> (r: bool)
    ensures
        r == has_json_suffix(name@),
{
    let n = name.unicode_len();
    if n < 5 {
        return false;
    }
    let dot = name.get_char(n - 5);
    let j = name.get_char(n - 4);
    let s = name.get_char(n - 3);
    let o = name.get_char(n - 2);
    let last = name.get_char(n - 1);
    dot == '.' && (j == 'j' || j == 'J') && (s == 's' || s == 'S') && (o == 'o' || o == 'O') && (
    last == 'n' || last == 'N')
}

/// `name` ends in `.zip`, letters compared without regard to case.
pub open spec fn has_zip_suffix(name: Seq<char>) -> bool {
    &&& name.len() >= 4
    &&& name[name.len() - 4] == '.'
    &&& letter_either_case(name[name.len() - 3], 'z', 'Z')
    &&& letter_either_case(name[name.len() - 2], 'i', 'I')
    &&& letter_either_case(name[name.len() - 1], 'p', 'P')
}

/// Whether a file name ends in `.zip`, in any mix of letter case.
pub fn is_zip_file_name(name: &str) -> (r: bool)
    ensures
        r == has_zip_suffix(name@),
{
    let n = name.unicode_len();
    if n < 4 {
        return false;
    }
    let dot = name.get_char(n - 4);
    let z = name.get_char(n - 3);
    let i = name.get_char(n - 2);
    let p = name.get_char(n - 1);
    dot == '.' && (z == 'z' || z == 'Z') && (i == 'i' || i == 'I') && (p == 'p' || p == 'P')
}

/// A file name whose extension is `json` in any letter case: it ends in
/// `.json` and has a stem before the dot.
pub open spec fn has_json_extension(name: Seq<char>) -> bool {
    name.len() > 5 && has_json_suffix(name)
}

/// A file name whose extension is `zip` in any letter case: it ends in
/// `.zip` and has a stem before the dot.
pub open spec fn has_zip_extension(name: Seq<char>) -> bool {
    name.len() > 4 && has_zip_suffix(name)
}

/// Whether a file name has the extension `json`, in any letter case.
pub fn is_json_extension(name: &str) -> (r: bool)
    ensures
        r == has_json_extension(name@),
{
    name.unicode_len() > 5 && is_json_file_name(name)
}

/// Whether a file name has the extension `zip`, in any letter case.
pub fn is_zip_extension(name: &str) -> (r: bool)
    ensures
        r == has_zip_extension(name@),
{
    name.unicode_len() > 4 && is_zip_file_name(name)
}

} // verus!
