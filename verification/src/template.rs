//! Path-template resolution.
//!
//! A destination path is a user template with four placeholders substituted
//! left to right, each independently: the zero-padded capture year, month
//! and day, and the original file name.  Unrecognized text passes through
//! verbatim.

use crate::datetime::{digit_val, is_digit, Date};
use vstd::prelude::*;

verus! {

/// The year placeholder.
pub open spec fn token_yyyy() -> Seq<char> {
    "{CREATED_YYYY}"@
}

/// The month placeholder.
pub open spec fn token_mm() -> Seq<char> {
    "{CREATED_MM}"@
}

/// The day placeholder.
pub open spec fn token_dd() -> Seq<char> {
    "{CREATED_DD}"@
}

/// The file-name placeholder.
pub open spec fn token_file_name() -> Seq<char> {
    "{FILE_NAME}"@
}

/// Every occurrence of `pat` in `s` replaced by `to`, scanning left to
/// right without rescanning what was substituted.
pub open spec fn spec_replace(s: Seq<char>, pat: Seq<char>, to: Seq<char>) -> Seq<char>
    decreases s.len(),
        when pat.len() > 0
{
    if s.len() < pat.len() {
        s
    } else if s.subrange(0, pat.len() as int) == pat {
        to + spec_replace(s.skip(pat.len() as int), pat, to)
    } else {
        s.subrange(0, 1) + spec_replace(s.skip(1), pat, to)
    }
}

/// `pat` occurs somewhere in `s`.
pub open spec fn contains_seq(s: Seq<char>, pat: Seq<char>) -> bool {
    exists|i: int| 0 <= i <= s.len() - pat.len() && #[trigger] s.subrange(i, i + pat.len()) == pat
}

/// The decimal digits of `n`, most significant first.
pub open spec fn spec_digits(n: int) -> Seq<char>
    decreases n,
        when n >= 0
{
    if n < 10 {
        seq![char_of_digit(n)]
    } else {
        spec_digits(n / 10) + seq![char_of_digit(n % 10)]
    }
}

/// The character of one decimal digit.
pub open spec fn char_of_digit(n: int) -> char {
    if n == 0 {
        '0'
    } else if n == 1 {
        '1'
    } else if n == 2 {
        '2'
    } else if n == 3 {
        '3'
    } else if n == 4 {
        '4'
    } else if n == 5 {
        '5'
    } else if n == 6 {
        '6'
    } else if n == 7 {
        '7'
    } else if n == 8 {
        '8'
    } else {
        '9'
    }
}

/// The decimal digits of `n`, left-padded with zeros to at least `w`
/// characters.
pub open spec fn spec_zero_pad(n: int, w: int) -> Seq<char> {
    if spec_digits(n).len() >= w {
        spec_digits(n)
    } else {
        Seq::new((w - spec_digits(n).len()) as nat, |i: int| '0') + spec_digits(n)
    }
}

/// The number that a run of decimal digits denotes.
pub open spec fn digits_val(s: Seq<char>) -> int
    decreases s.len(),
{
    if s.len() == 0 {
        0
    } else {
        digits_val(s.drop_last()) * 10 + digit_val(s.last())
    }
}

/// A template with the four placeholders substituted left to right, in the
/// order year, month, day, file name.
pub open spec fn spec_resolve_template(pattern: Seq<char>, d: Date, filename: Seq<char>) -> Seq<
    char,
> {
    let a = spec_replace(pattern, token_yyyy(), spec_zero_pad(d.year as int, 4));
    let b = spec_replace(a, token_mm(), spec_zero_pad(d.month as int, 2));
    let c = spec_replace(b, token_dd(), spec_zero_pad(d.day as int, 2));
    spec_replace(c, token_file_name(), filename)
}

/// The characters of a string, in order.
pub fn chars_of_str(s: &str) -> (r: Vec<char>)
    ensures
        r@ == s@,
{
    let n = s.unicode_len();
    let mut out: Vec<char> = Vec::new();
    let mut i: usize = 0;
    while i < n
        invariant
            n == s@.len(),
            i <= n,
            out@ == s@.subrange(0, i as int),
        decreases n - i,
    {
        out.push(s.get_char(i));
        proof {
            assert(out@ =~= s@.subrange(0, i + 1));
        }
        i = i + 1;
    }
    proof {
        assert(out@ =~= s@);
    }
    out
}

/// Relies on `String`'s `FromIterator` over characters: the collected
/// string holds exactly the given characters in order.
#[verifier::external_body]
pub fn string_from_chars(v: &Vec<char>) -> (r: String)
    ensures
        r@ == v@,
{
    v.iter().collect()
}

/// `pat` starts at position `i` of `s`.
#[verifier::loop_isolation(false)]
fn matches_at(s: &Vec<char>, pat: &Vec<char>, i: usize) -> (r: bool)
    requires
        i <= s@.len(),
    ensures
        r == (i + pat@.len() <= s@.len() && s@.subrange(i as int, i + pat@.len()) == pat@),
{
    if pat.len() > s.len() - i {
        return false;
    }
    let mut k: usize = 0;
    while k < pat.len()
        invariant
            i + pat@.len() <= s@.len(),
            k <= pat@.len(),
            forall|t: int| 0 <= t < k ==> s@[i + t] == pat@[t],
        decreases pat@.len() - k,
    {
        if s[i + k] != pat[k] {
            proof {
                assert(s@.subrange(i as int, i + pat@.len())[k as int] != pat@[k as int]);
            }
            return false;
        }
        k = k + 1;
    }
    proof {
        assert(s@.subrange(i as int, i + pat@.len()) =~= pat@);
    }
    true
}

/// Appends every character of `src` to `out`.
#[verifier::loop_isolation(false)]
pub(crate) fn push_all(out: &mut Vec<char>, src: &Vec<char>)
    ensures
        final(out)@ == old(out)@ + src@,
{
    let mut k: usize = 0;
    while k < src.len()
        invariant
            k <= src@.len(),
            out@ == old(out)@ + src@.subrange(0, k as int),
        decreases src@.len() - k,
    {
        out.push(src[k]);
        proof {
            assert(out@ =~= old(out)@ + src@.subrange(0, k + 1));
        }
        k = k + 1;
    }
    proof {
        assert(old(out)@ + src@.subrange(0, src@.len() as int) =~= old(out)@ + src@);
    }
}

/// Every occurrence of `pat` in `s` replaced by `to`, scanning left to
/// right.
#[verifier::loop_isolation(false)]
pub fn replace_chars(s: &Vec<char>, pat: &Vec<char>, to: &Vec<char>) -> (r: Vec<char>)
    requires
        pat@.len() > 0,
    ensures
        r@ == spec_replace(s@, pat@, to@),
{
    let mut out: Vec<char> = Vec::new();
    let mut i: usize = 0;
    proof {
        assert(s@.skip(0) =~= s@);
        assert(Seq::<char>::empty() + spec_replace(s@, pat@, to@) =~= spec_replace(s@, pat@, to@));
    }
    while i < s.len()
        invariant
            i <= s@.len(),
            out@ + spec_replace(s@.skip(i as int), pat@, to@) == spec_replace(s@, pat@, to@),
        decreases s@.len() - i,
    {
        if matches_at(s, pat, i) {
            proof {
                assert(s@.skip(i as int).subrange(0, pat@.len() as int) =~= s@.subrange(
                    i as int,
                    i + pat@.len(),
                ));
                assert(s@.skip(i as int).skip(pat@.len() as int) =~= s@.skip(i + pat@.len()));
            }
            push_all(&mut out, to);
            i = i + pat.len();
        } else {
            proof {
                if i + pat@.len() <= s@.len() {
                    assert(s@.skip(i as int).subrange(0, pat@.len() as int) =~= s@.subrange(
                        i as int,
                        i + pat@.len(),
                    ));
                }
                assert(s@.skip(i as int).subrange(0, 1) =~= seq![s@[i as int]]);
                assert(s@.skip(i as int).skip(1) =~= s@.skip(i + 1));
            }
            let c = s[i];
            out.push(c);
            i = i + 1;
        }
    }
    proof {
        assert(s@.skip(s@.len() as int) =~= Seq::<char>::empty());
        assert(out@ + Seq::<char>::empty() =~= out@);
    }
    out
}

/// The decimal digits of `n` appended to `out`, most significant first.
fn push_digits(n: u32, out: &mut Vec<char>)
    ensures
        final(out)@ == old(out)@ + spec_digits(n as int),
    decreases n,
{
    if n < 10 {
        out.push(digit_char(n));
    } else {
        push_digits(n / 10, out);
        out.push(digit_char(n % 10));
        proof {
            assert(old(out)@ + spec_digits((n / 10) as int) + seq![
                char_of_digit((n % 10) as int),
            ] =~= old(out)@ + spec_digits(n as int));
        }
    }
}

/// The character of one decimal digit.
fn digit_char(n: u32) -> (r: char)
    requires
        n < 10,
    ensures
        r == char_of_digit(n as int),
{
    if n == 0 {
        '0'
    } else if n == 1 {
        '1'
    } else if n == 2 {
        '2'
    } else if n == 3 {
        '3'
    } else if n == 4 {
        '4'
    } else if n == 5 {
        '5'
    } else if n == 6 {
        '6'
    } else if n == 7 {
        '7'
    } else if n == 8 {
        '8'
    } else {
        '9'
    }
}

/// The decimal digits of `n`, left-padded with zeros to at least `w`
/// characters.
pub fn zero_pad(n: u32, w: usize) -> (r: Vec<char>)
    ensures
        r@ == spec_zero_pad(n as int, w as int),
{
    let mut digs: Vec<char> = Vec::new();
    push_digits(n, &mut digs);
    let mut out: Vec<char> = Vec::new();
    let mut k: usize = digs.len();
    while k < w
        invariant
            digs@ == spec_digits(n as int),
            digs@.len() <= k <= vstd::math::max(w as int, digs@.len() as int),
            out@.len() == k - digs@.len(),
            forall|t: int| 0 <= t < out@.len() ==> out@[t] == '0',
        decreases w - k,
    {
        out.push('0');
        k = k + 1;
    }
    proof {
        if digs@.len() >= w {
            assert(out@ =~= Seq::<char>::empty());
        } else {
            assert(out@ =~= Seq::new((w - spec_digits(n as int).len()) as nat, |i: int| '0'));
        }
    }
    push_all(&mut out, &digs);
    proof {
        if digs@.len() >= w {
            assert(Seq::<char>::empty() + digs@ =~= spec_zero_pad(n as int, w as int));
        }
    }
    out
}

/// Substitutes the four placeholders of `pattern`, left to right: the
/// zero-padded year to four digits, month and day to two, and the file
/// name verbatim.
pub fn resolve_template(pattern: &str, date: &Date, filename: &str) -> (r: String)
    ensures
        r@ == spec_resolve_template(pattern@, *date, filename@),
{
    proof {
        reveal_strlit("{CREATED_YYYY}");
        reveal_strlit("{CREATED_MM}");
        reveal_strlit("{CREATED_DD}");
        reveal_strlit("{FILE_NAME}");
    }
    let p = chars_of_str(pattern);
    let tok_y = chars_of_str("{CREATED_YYYY}");
    let tok_m = chars_of_str("{CREATED_MM}");
    let tok_d = chars_of_str("{CREATED_DD}");
    let tok_f = chars_of_str("{FILE_NAME}");
    let fname = chars_of_str(filename);
    let a = replace_chars(&p, &tok_y, &zero_pad(date.year, 4));
    let b = replace_chars(&a, &tok_m, &zero_pad(date.month, 2));
    let c = replace_chars(&b, &tok_d, &zero_pad(date.day, 2));
    let d = replace_chars(&c, &tok_f, &fname);
    string_from_chars(&d)
}

/// A pattern absent from `s` leaves `s` unchanged: unrecognized text
/// passes through substitution verbatim.
pub proof fn lemma_replace_absent(s: Seq<char>, pat: Seq<char>, to: Seq<char>)
    requires
        pat.len() > 0,
        !contains_seq(s, pat),
    ensures
        spec_replace(s, pat, to) == s,
    decreases s.len(),
{
    if s.len() < pat.len() {
    } else if s.subrange(0, pat.len() as int) == pat {
        assert(s.subrange(0, 0 + pat.len() as int) == pat);
        assert(contains_seq(s, pat));
        assert(false);
    } else {
        assert forall|i: int|
            !(0 <= i <= s.skip(1).len() - pat.len() && #[trigger] s.skip(1).subrange(
                i,
                i + pat.len(),
            ) == pat) by {
            if 0 <= i <= s.skip(1).len() - pat.len() {
                assert(s.skip(1).subrange(i, i + pat.len()) =~= s.subrange(
                    i + 1,
                    i + 1 + pat.len(),
                ));
                if s.skip(1).subrange(i, i + pat.len()) == pat {
                    assert(contains_seq(s, pat));
                    assert(false);
                }
            }
        }
        lemma_replace_absent(s.skip(1), pat, to);
        assert(s.subrange(0, 1) + s.skip(1) =~= s);
    }
}

/// A text that is exactly the pattern resolves to the replacement alone.
pub proof fn lemma_replace_token_alone(pat: Seq<char>, to: Seq<char>)
    requires
        pat.len() > 0,
    ensures
        spec_replace(pat, pat, to) == to,
{
    assert(pat.subrange(0, pat.len() as int) =~= pat);
    assert(pat.skip(pat.len() as int) =~= Seq::<char>::empty());
    assert(spec_replace(Seq::<char>::empty(), pat, to) == Seq::<char>::empty());
    assert(to + Seq::<char>::empty() =~= to);
}

/// A pattern longer than the text cannot occur in it.
pub proof fn lemma_no_contains_shorter(s: Seq<char>, pat: Seq<char>)
    requires
        s.len() < pat.len(),
    ensures
        !contains_seq(s, pat),
{
    assert forall|i: int|
        !(0 <= i <= s.len() - pat.len() && #[trigger] s.subrange(i, i + pat.len()) == pat) by {
        assert(s.len() - pat.len() < 0);
    }
}

/// Every character that `spec_digits` emits is a decimal digit.
pub proof fn lemma_digits_are_digits(n: int)
    requires
        n >= 0,
    ensures
        forall|t: int| 0 <= t < spec_digits(n).len() ==> is_digit(#[trigger] spec_digits(n)[t]),
    decreases n,
{
    if n < 10 {
        assert(spec_digits(n) == seq![char_of_digit(n)]);
        assert(spec_digits(n)[0] == char_of_digit(n));
        assert(is_digit(char_of_digit(n)));
    } else {
        lemma_digits_are_digits(n / 10);
        let a = spec_digits(n / 10);
        let x = char_of_digit(n % 10);
        assert(spec_digits(n) == a + seq![x]);
        assert(is_digit(x));
        assert forall|t: int| 0 <= t < spec_digits(n).len() implies is_digit(
            #[trigger] spec_digits(n)[t],
        ) by {
            if t < a.len() {
                assert(spec_digits(n)[t] == a[t]);
            } else {
                assert(spec_digits(n)[t] == x);
            }
        }
    }
}

/// Reading the decimal digits of `n` back recovers `n`.
pub proof fn lemma_digits_roundtrip(n: int)
    requires
        n >= 0,
    ensures
        digits_val(spec_digits(n)) == n,
    decreases n,
{
    if n < 10 {
        let s = spec_digits(n);
        assert(s == seq![char_of_digit(n)]);
        assert(s.drop_last() =~= Seq::<char>::empty());
        assert(digits_val(Seq::<char>::empty()) == 0);
        assert(s.last() == char_of_digit(n));
        assert(digits_val(s) == 0 * 10 + digit_val(char_of_digit(n)));
    } else {
        lemma_digits_roundtrip(n / 10);
        let s = spec_digits(n);
        assert(s == spec_digits(n / 10) + seq![char_of_digit(n % 10)]);
        assert(s.drop_last() =~= spec_digits(n / 10));
        assert(s.last() == char_of_digit(n % 10));
        assert(digits_val(s) == digits_val(spec_digits(n / 10)) * 10 + digit_val(
            char_of_digit(n % 10),
        ));
        vstd::arithmetic::div_mod::lemma_fundamental_div_mod(n, 10);
    }
}

/// A run of zero characters denotes zero.
proof fn lemma_digits_val_zeros(z: nat)
    ensures
        digits_val(Seq::new(z, |i: int| '0')) == 0,
    decreases z,
{
    let s = Seq::new(z, |i: int| '0');
    if z > 0 {
        lemma_digits_val_zeros((z - 1) as nat);
        assert(s.drop_last() =~= Seq::new((z - 1) as nat, |i: int| '0'));
        assert(s.last() == '0');
    }
}

/// Leading zeros do not change the number a digit run denotes.
proof fn lemma_digits_val_leading_zeros(z: nat, s: Seq<char>)
    ensures
        digits_val(Seq::new(z, |i: int| '0') + s) == digits_val(s),
    decreases s.len(),
{
    let zs = Seq::new(z, |i: int| '0');
    if s.len() == 0 {
        assert(zs + s =~= zs);
        lemma_digits_val_zeros(z);
    } else {
        lemma_digits_val_leading_zeros(z, s.drop_last());
        assert((zs + s).drop_last() =~= zs + s.drop_last());
        assert((zs + s).last() == s.last());
    }
}

/// Reading a zero-padded number back recovers the number exactly.
pub proof fn lemma_pad_roundtrip(n: int, w: int)
    requires
        n >= 0,
    ensures
        digits_val(spec_zero_pad(n, w)) == n,
{
    lemma_digits_roundtrip(n);
    if spec_digits(n).len() < w {
        lemma_digits_val_leading_zeros((w - spec_digits(n).len()) as nat, spec_digits(n));
    }
}

/// Every character of a zero-padded number is a decimal digit.
pub proof fn lemma_pad_chars(n: int, w: int)
    requires
        n >= 0,
    ensures
        forall|t: int|
            0 <= t < spec_zero_pad(n, w).len() ==> is_digit(#[trigger] spec_zero_pad(n, w)[t]),
{
    lemma_digits_are_digits(n);
}

/// A pattern that opens with a non-digit cannot occur in a run of digits.
pub proof fn lemma_no_token_in_digit_seq(s: Seq<char>, pat: Seq<char>)
    requires
        pat.len() > 0,
        !is_digit(pat[0]),
        forall|t: int| 0 <= t < s.len() ==> is_digit(#[trigger] s[t]),
    ensures
        !contains_seq(s, pat),
{
    assert forall|i: int|
        !(0 <= i <= s.len() - pat.len() && #[trigger] s.subrange(i, i + pat.len()) == pat) by {
        if 0 <= i <= s.len() - pat.len() && s.subrange(i, i + pat.len()) == pat {
            assert(s.subrange(i, i + pat.len())[0] == s[i]);
            assert(is_digit(s[i]));
            assert(false);
        }
    }
}

/// Substitution law for the year: a template that is exactly the year
/// placeholder resolves to the four-digit zero-padded year, and reading
/// the digits back recovers it.
pub proof fn lemma_template_year_recovers(d: Date, filename: Seq<char>)
    ensures
        spec_resolve_template(token_yyyy(), d, filename) == spec_zero_pad(d.year as int, 4),
        digits_val(spec_resolve_template(token_yyyy(), d, filename)) == d.year as int,
{
    reveal_strlit("{CREATED_YYYY}");
    reveal_strlit("{CREATED_MM}");
    reveal_strlit("{CREATED_DD}");
    reveal_strlit("{FILE_NAME}");
    let pad = spec_zero_pad(d.year as int, 4);
    lemma_replace_token_alone(token_yyyy(), pad);
    lemma_pad_chars(d.year as int, 4);
    assert(!is_digit(token_mm()[0]));
    assert(!is_digit(token_dd()[0]));
    assert(!is_digit(token_file_name()[0]));
    lemma_no_token_in_digit_seq(pad, token_mm());
    lemma_no_token_in_digit_seq(pad, token_dd());
    lemma_no_token_in_digit_seq(pad, token_file_name());
    lemma_replace_absent(pad, token_mm(), spec_zero_pad(d.month as int, 2));
    lemma_replace_absent(pad, token_dd(), spec_zero_pad(d.day as int, 2));
    lemma_replace_absent(pad, token_file_name(), filename);
    lemma_pad_roundtrip(d.year as int, 4);
}

/// Substitution law for the month: a template that is exactly the month
/// placeholder resolves to the two-digit zero-padded month, and reading
/// the digits back recovers it.
pub proof fn lemma_template_month_recovers(d: Date, filename: Seq<char>)
    ensures
        spec_resolve_template(token_mm(), d, filename) == spec_zero_pad(d.month as int, 2),
        digits_val(spec_resolve_template(token_mm(), d, filename)) == d.month as int,
{
    reveal_strlit("{CREATED_YYYY}");
    reveal_strlit("{CREATED_MM}");
    reveal_strlit("{CREATED_DD}");
    reveal_strlit("{FILE_NAME}");
    let pad = spec_zero_pad(d.month as int, 2);
    lemma_no_contains_shorter(token_mm(), token_yyyy());
    lemma_replace_absent(token_mm(), token_yyyy(), spec_zero_pad(d.year as int, 4));
    lemma_replace_token_alone(token_mm(), pad);
    lemma_pad_chars(d.month as int, 2);
    assert(!is_digit(token_dd()[0]));
    assert(!is_digit(token_file_name()[0]));
    lemma_no_token_in_digit_seq(pad, token_dd());
    lemma_no_token_in_digit_seq(pad, token_file_name());
    lemma_replace_absent(pad, token_dd(), spec_zero_pad(d.day as int, 2));
    lemma_replace_absent(pad, token_file_name(), filename);
    lemma_pad_roundtrip(d.month as int, 2);
}

/// Substitution law for the day: a template that is exactly the day
/// placeholder resolves to the two-digit zero-padded day, and reading the
/// digits back recovers it.
pub proof fn lemma_template_day_recovers(d: Date, filename: Seq<char>)
    ensures
        spec_resolve_template(token_dd(), d, filename) == spec_zero_pad(d.day as int, 2),
        digits_val(spec_resolve_template(token_dd(), d, filename)) == d.day as int,
{
    reveal_strlit("{CREATED_YYYY}");
    reveal_strlit("{CREATED_MM}");
    reveal_strlit("{CREATED_DD}");
    reveal_strlit("{FILE_NAME}");
    let pad = spec_zero_pad(d.day as int, 2);
    lemma_no_contains_shorter(token_dd(), token_yyyy());
    lemma_replace_absent(token_dd(), token_yyyy(), spec_zero_pad(d.year as int, 4));
    assert forall|i: int|
        !(0 <= i <= token_dd().len() - token_mm().len() && #[trigger] token_dd().subrange(
            i,
            i + token_mm().len(),
        ) == token_mm()) by {
        if 0 <= i <= token_dd().len() - token_mm().len() {
            assert(i == 0);
            assert(token_dd().subrange(0, token_mm().len() as int) =~= token_dd());
            assert(token_dd()[9] != token_mm()[9]);
        }
    }
    lemma_replace_absent(token_dd(), token_mm(), spec_zero_pad(d.month as int, 2));
    lemma_replace_token_alone(token_dd(), pad);
    lemma_pad_chars(d.day as int, 2);
    assert(!is_digit(token_file_name()[0]));
    lemma_no_token_in_digit_seq(pad, token_file_name());
    lemma_replace_absent(pad, token_file_name(), filename);
    lemma_pad_roundtrip(d.day as int, 2);
}

/// Substitution law for the file name: a template that is exactly the
/// file-name placeholder resolves to the file name verbatim.
pub proof fn lemma_template_file_name_verbatim(d: Date, filename: Seq<char>)
    ensures
        spec_resolve_template(token_file_name(), d, filename) == filename,
{
    reveal_strlit("{CREATED_YYYY}");
    reveal_strlit("{CREATED_MM}");
    reveal_strlit("{CREATED_DD}");
    reveal_strlit("{FILE_NAME}");
    lemma_no_contains_shorter(token_file_name(), token_yyyy());
    lemma_no_contains_shorter(token_file_name(), token_mm());
    lemma_no_contains_shorter(token_file_name(), token_dd());
    lemma_replace_absent(token_file_name(), token_yyyy(), spec_zero_pad(d.year as int, 4));
    lemma_replace_absent(token_file_name(), token_mm(), spec_zero_pad(d.month as int, 2));
    lemma_replace_absent(token_file_name(), token_dd(), spec_zero_pad(d.day as int, 2));
    lemma_replace_token_alone(token_file_name(), filename);
}

/// Substitution law for unknown text: a template holding none of the four
/// placeholders resolves to itself.
pub proof fn lemma_template_unknown_passthrough(pattern: Seq<char>, d: Date, filename: Seq<char>)
    requires
        !contains_seq(pattern, token_yyyy()),
        !contains_seq(pattern, token_mm()),
        !contains_seq(pattern, token_dd()),
        !contains_seq(pattern, token_file_name()),
    ensures
        spec_resolve_template(pattern, d, filename) == pattern,
{
    reveal_strlit("{CREATED_YYYY}");
    reveal_strlit("{CREATED_MM}");
    reveal_strlit("{CREATED_DD}");
    reveal_strlit("{FILE_NAME}");
    lemma_replace_absent(pattern, token_yyyy(), spec_zero_pad(d.year as int, 4));
    lemma_replace_absent(pattern, token_mm(), spec_zero_pad(d.month as int, 2));
    lemma_replace_absent(pattern, token_dd(), spec_zero_pad(d.day as int, 2));
    lemma_replace_absent(pattern, token_file_name(), filename);
}

} // verus!
