//! Text helpers: decimal rendering of integers and decoding of C strings.
use vstd::prelude::*;
use vstd::utf8::{decode_utf8, encode_utf8, valid_utf8};

verus! {

/// The ASCII digit for `d` (0 <= d < 10).
pub open spec fn digit_char(d: nat) -> char {
    if d == 0 { '0' }
    else if d == 1 { '1' }
    else if d == 2 { '2' }
    else if d == 3 { '3' }
    else if d == 4 { '4' }
    else if d == 5 { '5' }
    else if d == 6 { '6' }
    else if d == 7 { '7' }
    else if d == 8 { '8' }
    else { '9' }
}

/// Decimal digits of a natural number, most significant first, no leading zeros.
pub open spec fn digits(n: nat) -> Seq<char>
    decreases n,
{
    if n < 10 {
        seq![digit_char(n)]
    } else {
        digits(n / 10).push(digit_char(n % 10))
    }
}

/// The text that Rust's `{}` formatting gives for an integer.
pub open spec fn decimal(n: int) -> Seq<char> {
    if n < 0 {
        seq!['-'] + digits((-n) as nat)
    } else {
        digits(n as nat)
    }
}

/// `String::push`: the string afterwards is the string before with the character
/// appended, as its documentation says.
#[verifier::external_body]
fn push_char(s: &mut String, c: char)
    ensures
        final(s)@ == old(s)@.push(c),
{
    s.push(c);
}

fn digit(d: u64) -> (c: char)
    requires
        d < 10,
    ensures
        c == digit_char(d as nat),
{
    match d {
        0 => '0',
        1 => '1',
        2 => '2',
        3 => '3',
        4 => '4',
        5 => '5',
        6 => '6',
        7 => '7',
        8 => '8',
        _ => '9',
    }
}

fn push_digits(s: &mut String, n: u64)
    ensures
        final(s)@ == old(s)@ + digits(n as nat),
    decreases n,
{
    if n >= 10 {
        push_digits(s, n / 10);
    }
    push_char(s, digit(n % 10));
    proof {
        if n >= 10 {
            assert(digits(n as nat) == digits((n / 10) as nat).push(digit_char((n % 10) as nat)));
        }
    }
}

/// Whether a character is an ASCII decimal digit.
pub open spec fn is_digit(c: char) -> bool {
    48 <= (c as u32) && (c as u32) <= 57
}

/// The number that a decimal digit stands for.
pub open spec fn digit_value(c: char) -> int {
    (c as u32) as int - 48
}

/// The number that a string of decimal digits reads as, most significant first.
pub open spec fn digits_value(s: Seq<char>) -> int
    decreases s.len(),
{
    if s.len() == 0 {
        0
    } else {
        digits_value(s.drop_last()) * 10 + digit_value(s.last())
    }
}

/// A non-empty string of decimal digits.
pub open spec fn all_digits(s: Seq<char>) -> bool {
    s.len() > 0 && forall|i: int| 0 <= i < s.len() ==> is_digit(#[trigger] s[i])
}

/// The number that a decimal text (digits, with an optional leading minus) reads as.
pub open spec fn decimal_value(s: Seq<char>) -> int {
    if s.len() > 0 && s[0] == '-' {
        -digits_value(s.drop_first())
    } else {
        digits_value(s)
    }
}

proof fn lemma_digit_char(d: nat)
    requires
        d < 10,
    ensures
        is_digit(digit_char(d)),
        digit_value(digit_char(d)) == d,
{
}

/// The digits of a natural number are decimal digits that read back as the number.
pub proof fn lemma_digits_read_back(n: nat)
    ensures
        all_digits(digits(n)),
        digits_value(digits(n)) == n,
    decreases n,
{
    lemma_digit_char(n % 10);
    if n < 10 {
        let d = digits(n);
        assert(d.drop_last() =~= Seq::<char>::empty());
        assert(digits_value(d.drop_last()) == 0);
        assert(digits_value(d) == digits_value(d.drop_last()) * 10 + digit_value(d.last()));
    } else {
        lemma_digits_read_back(n / 10);
        assert((n / 10) * 10 + n % 10 == n);
        let d = digits(n);
        assert(d.drop_last() == digits(n / 10));
        assert(d.last() == digit_char(n % 10));
        assert(digits_value(d) == digits_value(d.drop_last()) * 10 + digit_value(d.last()));
        assert forall|i: int| 0 <= i < d.len() implies is_digit(#[trigger] d[i]) by {
            if i < d.len() - 1 {
                assert(d[i] == digits(n / 10)[i]);
            }
        }
    }
}

/// The decimal text of an integer reads back as that integer; it is its digits,
/// preceded by a minus exactly when the integer is negative.
pub proof fn lemma_decimal_read_back(n: int)
    ensures
        decimal_value(decimal(n)) == n,
        n >= 0 ==> all_digits(decimal(n)),
        n < 0 ==> decimal(n)[0] == '-' && all_digits(decimal(n).drop_first()),
{
    if n < 0 {
        lemma_digits_read_back((-n) as nat);
        assert(decimal(n).drop_first() == digits((-n) as nat));
    } else {
        lemma_digits_read_back(n as nat);
        let d = digits(n as nat);
        assert(is_digit(d[0]));
    }
}

/// Appends the decimal text of `n` to `s`.
pub fn push_decimal(s: &mut String, n: i64)
    ensures
        final(s)@ == old(s)@ + decimal(n as int),
{
    if n < 0 {
        push_char(s, '-');
        let magnitude: u64 = (-(n + 1)) as u64 + 1;
        push_digits(s, magnitude);
    } else {
        push_digits(s, n as u64);
    }
}

/// The decimal text of `n`, as `n.to_string()` gives it.
pub fn decimal_string(n: i64) -> (r: String)
    ensures
        r@ == decimal(n as int),
        decimal_value(r@) == n as int,
{
    proof {
        lemma_decimal_read_back(n as int);
    }
    let mut s = String::new();
    push_decimal(&mut s, n);
    s
}

/// `str::from_utf8`: the bytes read as UTF-8 text, or `None` where they are not
/// valid UTF-8. The text's encoding is exactly the given bytes.
#[verifier::external_body]
fn utf8_str(bytes: &[u8]) -> (r: Option<&str>)
    ensures
        r is Some <==> valid_utf8(bytes@),
        r matches Some(t) ==> encode_utf8(t@) == bytes@,
{
    std::str::from_utf8(bytes).ok()
}

/// What `String::from_utf8_lossy` makes of a byte sequence.
pub uninterp spec fn utf8_lossy(bytes: Seq<u8>) -> Seq<char>;

/// `String::from_utf8_lossy`: the bytes as text, each invalid sequence replaced by
/// U+FFFD. Valid UTF-8 comes out decoded as it is; what the replacement makes of
/// invalid input is named by `utf8_lossy` and not stated further.
#[verifier::external_body]
fn lossy_string(bytes: &[u8]) -> (r: String)
    ensures
        r@ == utf8_lossy(bytes@),
        valid_utf8(bytes@) ==> r@ == decode_utf8(bytes@),
{
    String::from_utf8_lossy(bytes).into_owned()
}

/// The text of valid UTF-8 bytes, `None` for invalid ones.
pub fn utf8_text(bytes: &Vec<u8>) -> (r: Option<String>)
    ensures
        r is Some <==> valid_utf8(bytes@),
        r matches Some(t) ==> t@ == decode_utf8(bytes@),
{
    match utf8_str(bytes.as_slice()) {
        Some(t) => {
            proof {
                vstd::utf8::encode_utf8_decode_utf8(t@);
            }
            Some(t.to_string())
        },
        None => None,
    }
}

/// The text read from a C string: `fallback` where there is none (a null
/// pointer), otherwise its bytes with invalid UTF-8 replaced.
pub open spec fn text_or_spec(bytes: Option<Seq<u8>>, fallback: Seq<char>) -> Seq<char> {
    match bytes {
        Some(b) => utf8_lossy(b),
        None => fallback,
    }
}

/// The text of a C string given by its bytes (`None` for a null pointer), or
/// `fallback` where there is no string.
pub fn text_or(bytes: &Option<Vec<u8>>, fallback: &str) -> (r: String)
    ensures
        r@ == text_or_spec(match bytes { Some(b) => Some(b@), None => None }, fallback@),
        bytes matches Some(b) ==> (valid_utf8(b@) ==> r@ == decode_utf8(b@)),
        bytes is None ==> r@ == fallback@,
        bytes matches Some(b) ==> r@ == utf8_lossy(b@),
{
    match bytes {
        Some(b) => lossy_string(b.as_slice()),
        None => fallback.to_string(),
    }
}

/// The text of a C string that may be absent: empty where there is none.
pub fn c_text(bytes: &Option<Vec<u8>>) -> (r: String)
    ensures
        r@ == text_or_spec(match bytes { Some(b) => Some(b@), None => None }, Seq::empty()),
        bytes matches Some(b) ==> (valid_utf8(b@) ==> r@ == decode_utf8(b@)),
        bytes is None ==> r@.len() == 0,
        bytes matches Some(b) ==> r@ == utf8_lossy(b@),
{
    let r = text_or(bytes, "");
    proof {
        reveal_strlit("");
    }
    r
}

/// How many elements can be read from a C buffer given by a pointer and a
/// signed size: none when the pointer is null or the size is not positive.
pub open spec fn readable_spec(is_null: bool, size: i32) -> int {
    if !is_null && size > 0 { size as int } else { 0 }
}

/// A non-null buffer with a positive size is read in full; a null pointer or a
/// size that is not positive gives nothing to read.
pub proof fn lemma_readable(is_null: bool, size: i32)
    ensures
        !is_null && size > 0 ==> readable_spec(is_null, size) == size as int,
        is_null || size <= 0 ==> readable_spec(is_null, size) == 0,
{
}

/// The number of elements of a C buffer that may be read.
pub fn readable_count(is_null: bool, size: i32) -> (n: usize)
    ensures
        n == readable_spec(is_null, size),
        !is_null && size > 0 ==> n == size,
        is_null || size <= 0 ==> n == 0,
{
    proof {
        lemma_readable(is_null, size);
    }
    if !is_null && size > 0 { size as usize } else { 0 }
}

/// The texts of a C array of strings, skipping null entries.
pub open spec fn texts_spec(entries: Seq<Option<Seq<u8>>>) -> Seq<Seq<char>>
    decreases entries.len(),
{
    if entries.len() == 0 {
        Seq::empty()
    } else {
        let rest = texts_spec(entries.drop_last());
        match entries.last() {
            Some(b) => rest.push(utf8_lossy(b)),
            None => rest,
        }
    }
}

/// The bytes of each entry, `None` for a null entry.
pub open spec fn entries_view(entries: Seq<Option<Vec<u8>>>) -> Seq<Option<Seq<u8>>> {
    entries.map_values(|e: Option<Vec<u8>>| match e { Some(b) => Some(b@), None => None })
}

/// The non-null entries of a C array of strings, in order.
pub open spec fn present(entries: Seq<Option<Seq<u8>>>) -> Seq<Option<Seq<u8>>> {
    entries.filter(|e: Option<Seq<u8>>| e is Some)
}

/// The bytes of an entry (none for a null entry).
pub open spec fn bytes_of(e: Option<Seq<u8>>) -> Seq<u8> {
    match e {
        Some(b) => b,
        None => Seq::empty(),
    }
}

/// The texts of a C array of strings are one text per non-null entry, in order:
/// the k-th text is the decoding of the k-th non-null entry. An array without
/// null entries gives exactly one text per entry.
pub proof fn lemma_texts_present(entries: Seq<Option<Seq<u8>>>)
    ensures
        texts_spec(entries).len() == present(entries).len(),
        forall|k: int| 0 <= k < present(entries).len() ==>
            #[trigger] texts_spec(entries)[k] == utf8_lossy(bytes_of(present(entries)[k])),
        (forall|i: int| 0 <= i < entries.len() ==> (#[trigger] entries[i]) is Some) ==> {
            &&& texts_spec(entries).len() == entries.len()
            &&& forall|k: int| 0 <= k < entries.len() ==>
                #[trigger] texts_spec(entries)[k] == utf8_lossy(bytes_of(entries[k]))
        },
    decreases entries.len(),
{
    reveal(Seq::filter);
    if entries.len() > 0 {
        let init = entries.drop_last();
        lemma_texts_present(init);
        assert(present(entries) == if entries.last() is Some {
            present(init).push(entries.last())
        } else {
            present(init)
        });
        if forall|i: int| 0 <= i < entries.len() ==> (#[trigger] entries[i]) is Some {
            assert forall|i: int| 0 <= i < init.len() implies (#[trigger] init[i]) is Some by {
                assert(init[i] == entries[i]);
            }
            assert(entries[entries.len() - 1] is Some);
            assert forall|k: int| 0 <= k < entries.len() implies
                #[trigger] texts_spec(entries)[k] == utf8_lossy(bytes_of(entries[k])) by {
                if k < init.len() {
                    assert(texts_spec(init)[k] == utf8_lossy(bytes_of(init[k])));
                }
            }
        }
    }
}

/// The texts of the non-null entries of a C array of strings, in order.
pub fn texts_of(entries: &Vec<Option<Vec<u8>>>) -> (r: Vec<String>)
    ensures
        r@.map_values(|s: String| s@) == texts_spec(entries_view(entries@)),
        r.len() == present(entries_view(entries@)).len(),
        forall|k: int| 0 <= k < r.len() ==>
            #[trigger] r[k]@ == utf8_lossy(bytes_of(present(entries_view(entries@))[k])),
{
    proof {
        lemma_texts_present(entries_view(entries@));
    }
    let mut r: Vec<String> = Vec::new();
    for i in 0..entries.len()
        invariant
            r@.map_values(|s: String| s@) == texts_spec(entries_view(entries@.take(i as int))),
    {
        let ghost before = r@;
        assert(entries@.take(i + 1).drop_last() == entries@.take(i as int));
        assert(entries_view(entries@.take(i + 1)).drop_last() == entries_view(entries@.take(i as int)));
        match &entries[i] {
            Some(b) => {
                let t = lossy_string(b.as_slice());
                r.push(t);
                assert(r@.map_values(|s: String| s@) == before.map_values(|s: String| s@).push(t@));
            },
            None => {},
        }
    }
    assert(entries@.take(entries.len() as int) == entries@);
    assert forall|k: int| 0 <= k < r.len() implies
        #[trigger] r[k]@ == utf8_lossy(bytes_of(present(entries_view(entries@))[k])) by {
        assert(r@.map_values(|s: String| s@)[k] == r[k]@);
    }
    r
}

} // verus!
