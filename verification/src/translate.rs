//! Decoding of client-supplied key material: a hex public key with an
//! optional `0x` prefix, and a comma-separated list of byte values.

use vstd::prelude::*;

use crate::hexcodec::{bytes_of_hex, hex_decode, is_valid_hex};

verus! {

/// The hex body of a public-key string: the part after an `0x`
/// prefix, or the whole string when it has none.
pub open spec fn stripped_spec(s: Seq<char>) -> Seq<char> {
    if s.len() >= 2 && s[0] == '0' && s[1] == 'x' {
        s.skip(2)
    } else {
        s
    }
}

/// The message returned for a public key that is not valid hex.
pub open spec fn bad_pubkey_message(s: Seq<char>) -> Seq<char> {
    "Wrong input `"@ + s + "`"@
}

/// Decodes a hex public key, stripping an optional `0x` prefix. The
/// bytes come back exactly when the remaining string is valid hex;
/// otherwise the error names the input.
pub fn pubkey_to_bytes(pubkey: &str) -> (r: Result<Vec<u8>, String>)
    ensures
        is_valid_hex(stripped_spec(pubkey@)) ==> (r matches Ok(b) && b@ == bytes_of_hex(
            stripped_spec(pubkey@),
        )),
        !is_valid_hex(stripped_spec(pubkey@)) ==> (r matches Err(m) && m@ == bad_pubkey_message(
            stripped_spec(pubkey@),
        )),
{
    let n = pubkey.unicode_len();
    let body: &str = if n >= 2 && pubkey.get_char(0) == '0' && pubkey.get_char(1) == 'x' {
        pubkey.substring_char(2, n)
    } else {
        pubkey
    };
    proof {
        assert(body@ =~= stripped_spec(pubkey@));
    }
    match hex_decode(body) {
        Some(b) => Ok(b),
        None => Err(String::from_str("Wrong input `").concat(body).concat("`")),
    }
}

/// An ASCII whitespace character, as trimmed from a list field.
pub open spec fn is_space(c: char) -> bool {
    c == ' ' || c == '\t' || c == '\n' || c == '\r'
}

/// The sequence with its leading whitespace dropped.
pub open spec fn trim_front(s: Seq<char>) -> Seq<char>
    decreases s.len(),
{
    if s.len() > 0 && is_space(s[0]) {
        trim_front(s.drop_first())
    } else {
        s
    }
}

/// The sequence with its trailing whitespace dropped.
pub open spec fn trim_back(s: Seq<char>) -> Seq<char>
    decreases s.len(),
{
    if s.len() > 0 && is_space(s.last()) {
        trim_back(s.drop_last())
    } else {
        s
    }
}

/// The sequence with whitespace dropped from both ends.
pub open spec fn trim_spec(s: Seq<char>) -> Seq<char> {
    trim_back(trim_front(s))
}

/// A decimal digit.
pub open spec fn is_digit(c: char) -> bool {
    48 <= c as u32 && c as u32 <= 57
}

/// The value of one decimal digit.
pub open spec fn digit_val(c: char) -> int {
    c as u32 - 48
}

/// The value of a digit string read in base ten.
pub open spec fn digits_val(s: Seq<char>) -> int
    decreases s.len(),
{
    if s.len() == 0 {
        0
    } else {
        digits_val(s.drop_last()) * 10 + digit_val(s.last())
    }
}

/// Whether every character is a decimal digit.
pub open spec fn all_digits(s: Seq<char>) -> bool {
    forall|i: int| 0 <= i < s.len() ==> is_digit(#[trigger] s[i])
}

/// How a field parses as a byte: an optional `+` sign, then at least
/// one digit, with a value of at most 255.
pub open spec fn parse_u8_spec(s: Seq<char>) -> Option<u8> {
    let body = if s.len() > 0 && s[0] == '+' {
        s.drop_first()
    } else {
        s
    };
    if body.len() > 0 && all_digits(body) && digits_val(body) <= 255 {
        Some(digits_val(body) as u8)
    } else {
        None
    }
}

/// The index of the first comma, or the length when there is none.
pub open spec fn find_comma(s: Seq<char>) -> nat
    decreases s.len(),
{
    if s.len() == 0 {
        0
    } else if s[0] == ',' {
        0
    } else {
        1 + find_comma(s.drop_first())
    }
}

/// The fields of a comma-separated list: splitting on every comma,
/// one more field than there are commas.
pub open spec fn split_fields(s: Seq<char>) -> Seq<Seq<char>>
    decreases s.len(),
{
    let k = find_comma(s);
    if k >= s.len() {
        seq![s]
    } else {
        seq![s.take(k as int)] + split_fields(s.skip(k as int + 1))
    }
}

/// How a comma-separated list parses as bytes: every trimmed field
/// must parse as a byte.
pub open spec fn parse_csv_spec(s: Seq<char>) -> Option<Seq<u8>> {
    let fields = split_fields(s);
    if forall|i: int|
        0 <= i < fields.len() ==> parse_u8_spec(trim_spec(#[trigger] fields[i])) is Some {
        Some(Seq::new(fields.len(), |i: int| parse_u8_spec(trim_spec(fields[i])).unwrap()))
    } else {
        None
    }
}

/// Dropping exactly the leading whitespace is what `trim_front` does.
proof fn lemma_trim_front(s: Seq<char>, lo: int)
    requires
        0 <= lo <= s.len(),
        forall|k: int| 0 <= k < lo ==> is_space(#[trigger] s[k]),
        lo == s.len() || !is_space(s[lo]),
    ensures
        trim_front(s) == s.skip(lo),
    decreases lo,
{
    if lo == 0 {
        assert(s.skip(0) =~= s);
    } else {
        lemma_trim_front(s.drop_first(), lo - 1);
        assert(s.drop_first().skip(lo - 1) =~= s.skip(lo));
    }
}

/// Dropping exactly the trailing whitespace is what `trim_back` does.
proof fn lemma_trim_back(s: Seq<char>, hi: int)
    requires
        0 <= hi <= s.len(),
        forall|k: int| hi <= k < s.len() ==> is_space(#[trigger] s[k]),
        hi == 0 || !is_space(s[hi - 1]),
    ensures
        trim_back(s) == s.take(hi),
    decreases s.len() - hi,
{
    if hi == s.len() {
        assert(s.take(hi) =~= s);
    } else {
        lemma_trim_back(s.drop_last(), hi);
        assert(s.drop_last().take(hi) =~= s.take(hi));
    }
}

/// A subrange that sheds only whitespace on each side is the trimmed
/// sequence.
proof fn lemma_trim_subrange(s: Seq<char>, lo: int, hi: int)
    requires
        0 <= lo <= hi <= s.len(),
        forall|k: int| 0 <= k < lo ==> is_space(#[trigger] s[k]),
        forall|k: int| hi <= k < s.len() ==> is_space(#[trigger] s[k]),
        lo < hi ==> !is_space(s[lo]) && !is_space(s[hi - 1]),
    ensures
        trim_spec(s) == s.subrange(lo, hi),
{
    if lo == hi {
        lemma_trim_front(s, s.len() as int);
        assert(s.skip(s.len() as int) =~= Seq::<char>::empty());
        lemma_trim_back(Seq::<char>::empty(), 0);
        assert(s.subrange(lo, hi) =~= Seq::<char>::empty());
    } else {
        lemma_trim_front(s, lo);
        let t = s.skip(lo);
        assert(forall|k: int| hi - lo <= k < t.len() ==> is_space(#[trigger] t[k]));
        lemma_trim_back(t, hi - lo);
        assert(t.take(hi - lo) =~= s.subrange(lo, hi));
    }
}

/// A digit string's value is never negative.
proof fn lemma_digits_val_nonneg(s: Seq<char>)
    requires
        forall|i: int| 0 <= i < s.len() ==> is_digit(#[trigger] s[i]),
    ensures
        digits_val(s) >= 0,
    decreases s.len(),
{
    if s.len() > 0 {
        lemma_digits_val_nonneg(s.drop_last());
    }
}

/// A digit string's value only grows as digits are appended.
proof fn lemma_digits_val_mono(s: Seq<char>, k: int)
    requires
        0 <= k <= s.len(),
        forall|i: int| 0 <= i < s.len() ==> is_digit(#[trigger] s[i]),
    ensures
        digits_val(s) >= digits_val(s.take(k)),
    decreases s.len() - k,
{
    if k == s.len() {
        assert(s.take(k) =~= s);
    } else {
        lemma_digits_val_mono(s, k + 1);
        let t = s.take(k + 1);
        assert(t.drop_last() =~= s.take(k));
        assert(t.last() == s[k]);
        assert(forall|i: int| 0 <= i < s.take(k).len() ==> is_digit(#[trigger] s.take(k)[i]));
        lemma_digits_val_nonneg(s.take(k));
        assert(digits_val(t) == digits_val(s.take(k)) * 10 + digit_val(s[k]));
    }
}

/// A position with no comma before it, holding a comma or past the
/// end, is where `find_comma` points.
proof fn lemma_find_comma(s: Seq<char>, d: int)
    requires
        0 <= d <= s.len(),
        forall|k: int| 0 <= k < d ==> s[k] != ',',
        d < s.len() ==> s[d] == ',',
    ensures
        find_comma(s) == d,
    decreases d,
{
    if s.len() == 0 {
    } else if d == 0 {
    } else {
        lemma_find_comma(s.drop_first(), d - 1);
    }
}

/// Whether a character is trimmed from a field.
fn is_space_char(c: char) -> (b: bool)
    ensures
        b == is_space(c),
{
    c == ' ' || c == '\t' || c == '\n' || c == '\r'
}

/// The position of the next comma at or after `from`, or the end.
fn scan_comma(s: &str, from: usize, n: usize) -> (j: usize)
    requires
        from <= n,
        n == s@.len(),
    ensures
        from <= j <= n,
        forall|k: int| from <= k < j ==> s@[k] != ',',
        j < n ==> s@[j as int] == ',',
{
    let mut j = from;
    while j < n
        invariant
            from <= j <= n == s@.len(),
            forall|k: int| from <= k < j ==> s@[k] != ',',
        decreases n - j,
    {
        if s.get_char(j) == ',' {
            return j;
        }
        j += 1;
    }
    j
}

/// The position of the first non-whitespace character in `[from, to)`,
/// or `to` when there is none.
fn scan_non_space(s: &str, from: usize, to: usize) -> (lo: usize)
    requires
        from <= to <= s@.len(),
    ensures
        from <= lo <= to,
        forall|k: int| from <= k < lo ==> is_space(#[trigger] s@[k]),
        lo < to ==> !is_space(s@[lo as int]),
{
    let mut lo = from;
    while lo < to
        invariant
            from <= lo <= to <= s@.len(),
            forall|k: int| from <= k < lo ==> is_space(#[trigger] s@[k]),
        decreases to - lo,
    {
        if !is_space_char(s.get_char(lo)) {
            return lo;
        }
        lo += 1;
    }
    lo
}

/// The position after the last non-whitespace character in
/// `[from, to)`, or `from` when there is none.
fn scan_non_space_back(s: &str, from: usize, to: usize) -> (hi: usize)
    requires
        from <= to <= s@.len(),
    ensures
        from <= hi <= to,
        forall|k: int| hi <= k < to ==> is_space(#[trigger] s@[k]),
        hi > from ==> !is_space(s@[hi - 1]),
{
    let mut hi = to;
    while hi > from
        invariant
            from <= hi <= to <= s@.len(),
            forall|k: int| hi <= k < to ==> is_space(#[trigger] s@[k]),
        decreases hi,
    {
        if !is_space_char(s.get_char(hi - 1)) {
            return hi;
        }
        hi -= 1;
    }
    hi
}

/// Parses `s[lo..hi]` as a byte value: an optional `+` sign, then at
/// least one digit, at most 255.
#[verifier::rlimit(100)]
fn parse_u8_range(s: &str, lo: usize, hi: usize) -> (r: Option<u8>)
    requires
        lo <= hi <= s@.len(),
    ensures
        r == parse_u8_spec(s@.subrange(lo as int, hi as int)),
{
    let ghost t = s@.subrange(lo as int, hi as int);
    let start: usize = if lo < hi && s.get_char(lo) == '+' {
        lo + 1
    } else {
        lo
    };
    let ghost body = s@.subrange(start as int, hi as int);
    proof {
        if t.len() > 0 && t[0] == '+' {
            assert(t.drop_first() =~= body);
        } else {
            assert(t =~= body);
        }
    }
    if start == hi {
        proof {
            assert(body.len() == 0);
            assert(parse_u8_spec(t) is None);
        }
        return None;
    }
    let mut acc: u32 = 0;
    let mut i: usize = start;
    while i < hi
        invariant
            lo <= start <= i <= hi <= s@.len(),
            start < hi,
            t == s@.subrange(lo as int, hi as int),
            body == s@.subrange(start as int, hi as int),
            body == (if t.len() > 0 && t[0] == '+' {
                t.drop_first()
            } else {
                t
            }),
            acc <= 255,
            forall|k: int| 0 <= k < i - start ==> is_digit(#[trigger] body[k]),
            acc == digits_val(body.take(i - start)),
        decreases hi - i,
    {
        let c = s.get_char(i);
        let cv = c as u32;
        proof {
            assert(body[i - start] == s@[i as int]);
        }
        if cv < 48 || cv > 57 {
            proof {
                assert(!is_digit(body[i - start]));
                assert(!all_digits(body));
                if t.len() > 0 && t[0] == '+' {
                    assert(t.drop_first() == body);
                } else {
                    assert(t == body);
                }
                assert(parse_u8_spec(t) is None);
            }
            return None;
        }
        let d = cv - 48;
        let acc2 = acc * 10 + d;
        proof {
            let k = i - start;
            assert(body.take(k + 1).drop_last() =~= body.take(k));
            assert(body.take(k + 1).last() == body[k]);
            assert(digits_val(body.take(k + 1)) == acc * 10 + d);
        }
        if acc2 > 255 {
            proof {
                if all_digits(body) {
                    lemma_digits_val_mono(body, i - start + 1);
                    assert(digits_val(body) > 255);
                }
                assert(parse_u8_spec(t) is None);
            }
            return None;
        }
        acc = acc2;
        i += 1;
    }
    proof {
        assert(body.take(hi - start) =~= body);
    }
    Some(acc as u8)
}

/// Converts a string of comma-separated integers to a fixed-size
/// array of bytes: every field, trimmed of surrounding whitespace,
/// must parse as a byte, and there must be exactly 32 of them.
#[verifier::rlimit(100)]
pub fn str_to_bytes(input: &str) -> (r: Result<[u8; 32], &'static str>)
    ensures
        parse_csv_spec(input@) is None ==> (r matches Err(m) && m@ == "Invalid integer in input"@),
        parse_csv_spec(input@) matches Some(bytes) ==> (bytes.len() != 32 ==> (r matches Err(m)
            && m@ == "Vector length is not 32"@)),
        parse_csv_spec(input@) matches Some(bytes) ==> (bytes.len() == 32 ==> (r matches Ok(arr)
            && arr@ == bytes)),
{
    let ghost s = input@;
    let ghost fields = split_fields(s);
    let n = input.unicode_len();
    let mut vals: Vec<u8> = Vec::new();
    let mut i: usize = 0;
    proof {
        assert(s.skip(0) =~= s);
    }
    loop
        invariant
            i <= n == s.len(),
            s == input@,
            fields == split_fields(s),
            split_fields(s.skip(i as int)) == fields.skip(vals@.len() as int),
            vals@.len() <= fields.len(),
            forall|k: int|
                0 <= k < vals@.len() ==> parse_u8_spec(trim_spec(#[trigger] fields[k])) == Some(
                    vals@[k],
                ),
        decreases n - i,
    {
        let j = scan_comma(input, i, n);
        let lo = scan_non_space(input, i, j);
        let hi = scan_non_space_back(input, lo, j);
        let ghost f = vals@.len() as int;
        let ghost t = s.skip(i as int);
        let ghost field = s.subrange(i as int, j as int);
        proof {
            // the suffix starting at i splits into this field and the rest
            let d = j - i;
            assert forall|k: int| 0 <= k < d implies t[k] != ',' by {
                assert(t[k] == s[i + k]);
            }
            if d < t.len() {
                assert(t[d as int] == s[j as int]);
            }
            lemma_find_comma(t, d as int);
            assert(t.take(d as int) =~= field);
            // this field is the next unprocessed one
            assert(split_fields(t).len() >= 1);
            assert(fields.skip(f) == split_fields(t));
            assert(f < fields.len());
            assert(fields.skip(f)[0] == fields[f]);
            if j < n {
                assert(split_fields(t) == seq![t.take(d as int)] + split_fields(
                    t.skip(d as int + 1),
                ));
                assert(split_fields(t)[0] == t.take(d as int));
            } else {
                assert(t =~= field);
                assert(split_fields(t) == seq![t]);
                assert(split_fields(t)[0] == t);
            }
            assert(fields[f] == field);
            // the scanned bounds shed exactly the field's whitespace
            assert forall|k: int| 0 <= k < lo - i implies is_space(#[trigger] field[k]) by {
                assert(field[k] == s[i + k]);
            }
            assert forall|k: int| hi - i <= k < field.len() implies is_space(
                #[trigger] field[k],
            ) by {
                assert(field[k] == s[i + k]);
            }
            if lo < hi {
                assert(field[lo - i] == s[lo as int]);
                assert(field[hi - i - 1] == s[hi - 1]);
            }
            lemma_trim_subrange(field, lo - i, hi - i);
            assert(field.subrange(lo - i, hi - i) =~= s.subrange(lo as int, hi as int));
        }
        match parse_u8_range(input, lo, hi) {
            None => {
                proof {
                    assert(parse_u8_spec(trim_spec(fields[f])) is None);
                }
                return Err("Invalid integer in input");
            },
            Some(v) => {
                vals.push(v);
            },
        }
        if j == n {
            proof {
                // the processed fields are all of them
                assert(split_fields(t) =~= seq![field]);
                assert(fields.skip(f) =~= seq![field]);
                assert(fields.len() == f + 1);
                assert(vals@.len() == fields.len());
                let bytes = parse_csv_spec(s).unwrap();
                assert(bytes =~= vals@);
            }
            if vals.len() != 32 {
                return Err("Vector length is not 32");
            }
            let mut arr = [0u8; 32];
            let mut k: usize = 0;
            while k < 32
                invariant
                    k <= 32,
                    vals@.len() == 32,
                    arr@.len() == 32,
                    forall|m: int| 0 <= m < k ==> arr@[m] == vals@[m],
                decreases 32 - k,
            {
                arr[k] = vals[k];
                k += 1;
            }
            proof {
                assert(arr@ =~= vals@);
            }
            return Ok(arr);
        }
        let ghost i0 = i as int;
        i = j + 1;
        proof {
            // the remaining suffix is the remaining fields
            let d = j - i0;
            assert(t.skip(d + 1) =~= s.skip(i as int));
            assert(split_fields(t) == seq![t.take(d)] + split_fields(t.skip(d + 1)));
            assert((seq![t.take(d)] + split_fields(t.skip(d + 1))).skip(1) =~= split_fields(
                t.skip(d + 1),
            ));
            assert(fields.skip(f).skip(1) =~= fields.skip(f + 1));
            assert(split_fields(s.skip(i as int)) == fields.skip(vals@.len() as int));
        }
    }
}

} // verus!
