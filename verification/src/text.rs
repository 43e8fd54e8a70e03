//! Plain text utilities: comparisons, number parsing, splitting and
//! trimming of the fields that cross the station's boundaries.

use vstd::prelude::*;
use vstd::string::StrSliceExecFns;

verus! {

/// Two strings are equal character for character.
pub fn str_eq(a: &str, b: &str) -> (r: bool)
    ensures
        r == (a@ == b@),
{
    let na = a.unicode_len();
    let nb = b.unicode_len();
    if na != nb {
        return false;
    }
    let mut i: usize = 0;
    while i < na
        invariant
            na == a@.len(),
            nb == b@.len(),
            na == nb,
            0 <= i <= na,
            forall|j: int| 0 <= j < i ==> a@[j] == b@[j],
        decreases na - i,
    {
        if a.get_char(i) != b.get_char(i) {
            return false;
        }
        i = i + 1;
    }
    proof {
        assert(a@ =~= b@);
    }
    true
}

/// A character folded to lower case if it is an ASCII capital, as a code
/// point.
pub open spec fn lower_code(c: char) -> int {
    if 'A' <= c && c <= 'Z' {
        c as int + 32
    } else {
        c as int
    }
}

/// Two strings are equal ignoring ASCII case.
pub open spec fn eq_ignore_ascii_case_spec(a: Seq<char>, b: Seq<char>) -> bool {
    a.len() == b.len() && forall|j: int| 0 <= j < a.len() ==> lower_code(a[j]) == lower_code(#[trigger] b[j])
}

/// Compare two strings ignoring ASCII case.
pub fn str_eq_ignore_ascii_case(a: &str, b: &str) -> (r: bool)
    ensures
        r == eq_ignore_ascii_case_spec(a@, b@),
{
    let na = a.unicode_len();
    let nb = b.unicode_len();
    if na != nb {
        return false;
    }
    let mut i: usize = 0;
    while i < na
        invariant
            na == a@.len(),
            nb == b@.len(),
            na == nb,
            0 <= i <= na,
            forall|j: int| 0 <= j < i ==> lower_code(a@[j]) == lower_code(#[trigger] b@[j]),
        decreases na - i,
    {
        let ca = a.get_char(i);
        let cb = b.get_char(i);
        let la: u32 = if 'A' <= ca && ca <= 'Z' {
            ca as u32 + 32
        } else {
            ca as u32
        };
        let lb: u32 = if 'A' <= cb && cb <= 'Z' {
            cb as u32 + 32
        } else {
            cb as u32
        };
        if la != lb {
            return false;
        }
        i = i + 1;
    }
    true
}

/// Whether a character is a decimal digit.
pub open spec fn spec_is_digit(c: char) -> bool {
    '0' <= c && c <= '9'
}

/// A digit character's value.
pub open spec fn spec_digit_val(c: char) -> int {
    c as int - 48
}

/// The value of a digit string, most significant digit first.
pub open spec fn spec_digits_val(s: Seq<char>) -> int
    decreases s.len(),
{
    if s.len() == 0 {
        0
    } else {
        spec_digits_val(s.drop_last()) * 10 + spec_digit_val(s.last())
    }
}

/// Whether every character of the sequence is a decimal digit.
pub open spec fn spec_all_digits(s: Seq<char>) -> bool {
    forall|i: int| 0 <= i < s.len() ==> spec_is_digit(#[trigger] s[i])
}

/// What parsing a signed decimal integer yields: the signed value of the
/// digits after an optional sign, or nothing if any character is not a
/// digit, no digit is present, or the value leaves the signed 64-bit
/// range.
pub open spec fn spec_parse_i64(s: Seq<char>) -> Option<i64> {
    let negative = s.len() > 0 && s[0] == '-';
    let digits = if s.len() > 0 && (s[0] == '-' || s[0] == '+') {
        s.drop_first()
    } else {
        s
    };
    if digits.len() == 0 || !spec_all_digits(digits) {
        Option::None
    } else {
        let magnitude = spec_digits_val(digits);
        let value = if negative {
            -magnitude
        } else {
            magnitude
        };
        if i64::MIN <= value <= i64::MAX {
            Option::Some(value as i64)
        } else {
            Option::None
        }
    }
}

/// The value of a digit string never shrinks as digits are appended.
proof fn lemma_digits_val_nonneg(s: Seq<char>)
    requires
        spec_all_digits(s),
    ensures
        spec_digits_val(s) >= 0,
    decreases s.len(),
{
    if s.len() > 0 {
        assert(spec_all_digits(s.drop_last()));
        lemma_digits_val_nonneg(s.drop_last());
    }
}

/// Extending a digit string never shrinks its value.
proof fn lemma_digits_val_prefix_le(s: Seq<char>, i: int)
    requires
        spec_all_digits(s),
        0 <= i <= s.len(),
    ensures
        spec_digits_val(s.take(i)) <= spec_digits_val(s),
    decreases s.len() - i,
{
    if i == s.len() {
        assert(s.take(i) =~= s);
    } else {
        assert(s.take(i + 1).drop_last() =~= s.take(i));
        assert(s.take(i + 1).last() == s[i]);
        assert(spec_all_digits(s.take(i))) by {
            assert(forall|j: int| 0 <= j < i ==> s.take(i)[j] == s[j]);
        }
        lemma_digits_val_nonneg(s.take(i));
        lemma_digits_val_prefix_le(s, i + 1);
    }
}

/// Parse the digits of a non-negative decimal number, exactly as
/// `spec_digits_val` counts them; `None` when a character is not a digit
/// or the value exceeds the unsigned 64-bit range.
fn parse_digits(s: &str) -> (r: Option<u64>)
    ensures
        match r {
            Option::Some(v) => spec_all_digits(s@) && v == spec_digits_val(s@) && s@.len() > 0,
            Option::None => s@.len() == 0 || !spec_all_digits(s@) || spec_digits_val(s@)
                > u64::MAX,
        },
{
    let n = s.unicode_len();
    if n == 0 {
        return Option::None;
    }
    let mut acc: u64 = 0;
    let mut i: usize = 0;
    proof {
        assert(s@.take(0) =~= Seq::<char>::empty());
    }
    while i < n
        invariant
            n == s@.len(),
            0 <= i <= n,
            spec_all_digits(s@.take(i as int)),
            acc == spec_digits_val(s@.take(i as int)),
        decreases n - i,
    {
        let c = s.get_char(i);
        if !('0' <= c && c <= '9') {
            return Option::None;
        }
        let d: u64 = (c as u32 - 48) as u64;
        proof {
            assert(s@.take(i + 1).drop_last() =~= s@.take(i as int));
            assert(s@.take(i + 1).last() == s@[i as int]);
            assert(spec_all_digits(s@.take(i + 1)));
        }
        if acc > (u64::MAX - d) / 10 {
            proof {
                assert(spec_digits_val(s@.take(i + 1)) == acc * 10 + d);
                if spec_all_digits(s@) {
                    lemma_digits_val_prefix_le(s@, i + 1);
                    assert(spec_digits_val(s@) > u64::MAX);
                }
            }
            return Option::None;
        }
        acc = acc * 10 + d;
        i = i + 1;
    }
    proof {
        assert(s@.take(n as int) =~= s@);
    }
    Option::Some(acc)
}

/// Parse a signed decimal integer, exactly as `spec_parse_i64` reads it.
pub fn parse_i64(s: &str) -> (r: Option<i64>)
    ensures
        r == spec_parse_i64(s@),
{
    let n = s.unicode_len();
    let (negative, digits) = if n > 0 && (s.get_char(0) == '-' || s.get_char(0) == '+') {
        (s.get_char(0) == '-', s.substring_char(1, n))
    } else {
        (false, s.substring_char(0, n))
    };
    proof {
        if n > 0 && (s@[0] == '-' || s@[0] == '+') {
            assert(digits@ =~= s@.drop_first());
        } else {
            assert(digits@ =~= s@);
        }
    }
    let magnitude = match parse_digits(digits) {
        Option::Some(v) => v,
        Option::None => {
            proof {
                if digits@.len() > 0 && spec_all_digits(digits@) {
                    lemma_digits_val_nonneg(digits@);
                }
            }
            return Option::None;
        },
    };
    if negative {
        if magnitude > 9_223_372_036_854_775_808u64 {
            return Option::None;
        }
        Option::Some((-(magnitude as i128)) as i64)
    } else {
        if magnitude > 9_223_372_036_854_775_807u64 {
            return Option::None;
        }
        Option::Some(magnitude as i64)
    }
}

/// The pieces rejoined with commas between them.
pub open spec fn spec_join_commas(parts: Seq<Seq<char>>) -> Seq<char>
    decreases parts.len(),
{
    if parts.len() == 0 {
        Seq::<char>::empty()
    } else if parts.len() == 1 {
        parts[0]
    } else {
        spec_join_commas(parts.drop_last()) + seq![','] + parts.last()
    }
}

/// The pieces of a character sequence between its commas, in order; a
/// sequence without commas is one piece, and every comma separates two.
pub open spec fn spec_split_commas(s: Seq<char>) -> Seq<Seq<char>>
    decreases s.len(),
{
    if s.len() == 0 {
        seq![s]
    } else if s.last() == ',' {
        spec_split_commas(s.drop_last()).push(Seq::<char>::empty())
    } else {
        let r = spec_split_commas(s.drop_last());
        r.update(r.len() - 1, r.last().push(s.last()))
    }
}

/// Split a string at commas. Besides being exactly `spec_split_commas`,
/// the result rejoins with commas to the input, and no piece contains a
/// comma.
pub fn split_commas(s: &str) -> (r: Vec<String>)
    ensures
        r@.len() >= 1,
        r@.map_values(|p: String| p@) == spec_split_commas(s@),
        spec_join_commas(r@.map_values(|p: String| p@)) == s@,
        forall|k: int| 0 <= k < r@.len() ==> !(#[trigger] r@[k])@.contains(','),
{
    let n = s.unicode_len();
    let mut done: Vec<String> = Vec::new();
    let mut cur: Vec<char> = Vec::new();
    let mut i: usize = 0;
    proof {
        assert(s@.take(0) =~= Seq::<char>::empty());
        assert(done@.map_values(|p: String| p@).push(cur@) =~= seq![cur@]);
        assert(seq![cur@] =~= spec_split_commas(s@.take(0)));
    }
    while i < n
        invariant
            n == s@.len(),
            0 <= i <= n,
            done@.map_values(|p: String| p@).push(cur@) == spec_split_commas(s@.take(i as int)),
            spec_join_commas(done@.map_values(|p: String| p@).push(cur@)) == s@.take(i as int),
            forall|k: int| 0 <= k < done@.len() ==> !(#[trigger] done@[k])@.contains(','),
            !cur@.contains(','),
        decreases n - i,
    {
        let ghost dv = done@.map_values(|p: String| p@);
        let ghost oc = cur@;
        let c = s.get_char(i);
        if c == ',' {
            let piece = string_from_chars(&cur);
            done.push(piece);
            cur = Vec::new();
            proof {
                let dv2 = done@.map_values(|p: String| p@);
                assert(dv2 =~= dv.push(oc));
                assert(dv2.push(cur@).drop_last() =~= dv2);
                assert(dv2.push(cur@).last() == cur@);
                assert(spec_join_commas(dv2.push(cur@)) == spec_join_commas(dv2) + seq![',']
                    + cur@);
                assert(spec_join_commas(dv2) == s@.take(i as int));
                assert(spec_join_commas(dv2.push(cur@)) =~= s@.take(i as int).push(','));
                assert(s@.take(i + 1) =~= s@.take(i as int).push(s@[i as int]));
                assert(s@.take(i + 1).drop_last() =~= s@.take(i as int));
                assert(spec_split_commas(s@.take(i + 1)) == spec_split_commas(s@.take(i as int))
                    .push(Seq::<char>::empty()));
                assert(dv2.push(cur@) =~= spec_split_commas(s@.take(i as int)).push(
                    Seq::<char>::empty()));
            }
        } else {
            cur.push(c);
            proof {
                assert(dv.push(cur@).drop_last() =~= dv);
                assert(dv.push(oc).drop_last() =~= dv);
                if dv.len() == 0 {
                    assert(spec_join_commas(dv.push(cur@)) == cur@);
                    assert(spec_join_commas(dv.push(oc)) == oc);
                } else {
                    assert(spec_join_commas(dv.push(cur@)) == spec_join_commas(dv) + seq![',']
                        + cur@);
                    assert(spec_join_commas(dv.push(oc)) == spec_join_commas(dv) + seq![','] + oc);
                }
                assert(spec_join_commas(dv.push(cur@)) =~= spec_join_commas(dv.push(oc)).push(c));
                assert(s@.take(i + 1) =~= s@.take(i as int).push(s@[i as int]));
                assert(s@.take(i + 1).drop_last() =~= s@.take(i as int));
                let r0 = spec_split_commas(s@.take(i as int));
                assert(spec_split_commas(s@.take(i + 1)) == r0.update(
                    r0.len() - 1,
                    r0.last().push(c),
                ));
                assert(r0 == dv.push(oc));
                assert(r0.update(r0.len() - 1, r0.last().push(c)) =~= dv.push(oc.push(c)));
                assert(dv.push(cur@) =~= dv.push(oc.push(c)));
                assert(forall|j: int| 0 <= j < cur@.len() ==> cur@[j] != ',');
            }
        }
        i = i + 1;
    }
    let ghost dv = done@.map_values(|p: String| p@);
    let ghost oc = cur@;
    let piece = string_from_chars(&cur);
    done.push(piece);
    proof {
        assert(s@.take(n as int) =~= s@);
        assert(done@.map_values(|p: String| p@) =~= dv.push(oc));
    }
    done
}

/// The ids named in a comma-separated list: each piece trimmed and read as
/// a signed decimal, keeping those that parse, in order.
pub open spec fn spec_collect_ids(parts: Seq<Seq<char>>) -> Seq<i64>
    decreases parts.len(),
{
    if parts.len() == 0 {
        Seq::<i64>::empty()
    } else {
        let rest = spec_collect_ids(parts.drop_last());
        match spec_parse_i64(spec_trim(parts.last())) {
            Option::Some(v) => rest.push(v),
            Option::None => rest,
        }
    }
}

/// Collect the ids named in a comma-separated list.
pub fn ids_from_text(text: &str) -> (r: Vec<i64>)
    ensures
        r@ == spec_collect_ids(spec_split_commas(text@)),
{
    let parts = split_commas(text);
    let ghost pv = parts@.map_values(|p: String| p@);
    let n = parts.len();
    let mut out: Vec<i64> = Vec::new();
    let mut i: usize = 0;
    proof {
        assert(pv.take(0) =~= Seq::<Seq<char>>::empty());
    }
    while i < n
        invariant
            n == pv.len(),
            n == parts@.len(),
            pv == parts@.map_values(|p: String| p@),
            0 <= i <= n,
            out@ == spec_collect_ids(pv.take(i as int)),
        decreases n - i,
    {
        proof {
            assert(pv.take(i + 1).drop_last() =~= pv.take(i as int));
            assert(pv.take(i + 1).last() == pv[i as int]);
            assert(pv[i as int] == parts@[i as int]@);
        }
        let trimmed = trim_spaces(parts[i].as_str());
        match parse_i64(trimmed) {
            Option::Some(v) => {
                out.push(v);
            },
            Option::None => {},
        }
        i = i + 1;
    }
    proof {
        assert(pv.take(n as int) =~= pv);
    }
    out
}

/// Whether a character counts as blank space at the edge of a field.
pub open spec fn spec_is_space(c: char) -> bool {
    c == ' ' || c == '\t' || c == '\n' || c == '\r'
}

/// The sequence with its leading blank space removed.
pub open spec fn spec_trim_start(s: Seq<char>) -> Seq<char>
    decreases s.len(),
{
    if s.len() > 0 && spec_is_space(s[0]) {
        spec_trim_start(s.drop_first())
    } else {
        s
    }
}

/// The sequence with its trailing blank space removed.
pub open spec fn spec_trim_end(s: Seq<char>) -> Seq<char>
    decreases s.len(),
{
    if s.len() > 0 && spec_is_space(s.last()) {
        spec_trim_end(s.drop_last())
    } else {
        s
    }
}

/// The sequence with blank space removed from both ends.
pub open spec fn spec_trim(s: Seq<char>) -> Seq<char> {
    spec_trim_end(spec_trim_start(s))
}

/// Remove blank space from both ends of a string.
pub fn trim_spaces(s: &str) -> (r: &str)
    ensures
        r@ == spec_trim(s@),
{
    let n = s.unicode_len();
    let mut a: usize = 0;
    proof {
        assert(s@.skip(0) =~= s@);
    }
    loop
        invariant
            n == s@.len(),
            0 <= a <= n,
            spec_trim_start(s@) == spec_trim_start(s@.skip(a as int)),
        ensures
            n == s@.len(),
            0 <= a <= n,
            spec_trim_start(s@) == spec_trim_start(s@.skip(a as int)),
            a == n || !spec_is_space(s@[a as int]),
        decreases n - a,
    {
        if a >= n {
            break;
        }
        let c = s.get_char(a);
        if !(c == ' ' || c == '\t' || c == '\n' || c == '\r') {
            break;
        }
        proof {
            assert(s@.skip(a as int).drop_first() =~= s@.skip(a + 1));
        }
        a = a + 1;
    }
    proof {
        assert(spec_trim_start(s@.skip(a as int)) == s@.skip(a as int));
    }
    let mut b: usize = n;
    proof {
        assert(s@.skip(a as int).take(n - a) =~= s@.skip(a as int));
    }
    loop
        invariant
            n == s@.len(),
            a <= b <= n,
            a <= n == s@.len(),
            spec_trim_start(s@) == s@.skip(a as int),
            spec_trim_end(s@.skip(a as int)) == spec_trim_end(s@.skip(a as int).take(b - a)),
        ensures
            n == s@.len(),
            a <= b <= n,
            spec_trim_start(s@) == s@.skip(a as int),
            spec_trim_end(s@.skip(a as int)) == spec_trim_end(s@.skip(a as int).take(b - a)),
            b == a || !spec_is_space(s@[b - 1]),
        decreases b,
    {
        if b <= a {
            break;
        }
        let c = s.get_char(b - 1);
        if !(c == ' ' || c == '\t' || c == '\n' || c == '\r') {
            break;
        }
        proof {
            assert(s@.skip(a as int).take(b - a).drop_last() =~= s@.skip(a as int).take(
                b - 1 - a,
            ));
            assert(s@.skip(a as int).take(b - a).last() == s@[b - 1]);
        }
        b = b - 1;
    }
    proof {
        let mid = s@.skip(a as int).take(b - a);
        if b > a {
            assert(mid.last() == s@[b - 1]);
        }
        assert(spec_trim_end(mid) == mid);
        assert(mid =~= s@.subrange(a as int, b as int));
    }
    s.substring_char(a, b)
}

/// Relies on String's `FromIterator` over `char`: the collected string
/// holds exactly the iterated characters, in order.
#[verifier::external_body]
pub fn string_from_chars(chars: &Vec<char>) -> (r: String)
    ensures
        r@ == chars@,
{
    chars.iter().collect()
}

} // verus!
