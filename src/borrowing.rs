//! Functions over shared and exclusive borrows: a character count, a slice
//! sum, zeroing a mutable slice, and the longer of two strings.
use vstd::prelude::*;
use vstd::string::{StrSliceExecFns, StringExecFns, StringSliceAdditionalSpecFns};
use vstd::utf8::{encode_utf8_valid_utf8, is_char_boundary_iff_not_is_continuation_byte};

verus! {

/// Number of characters (not bytes) in `string`.
pub fn string_chars_len(string: &String) -> (r: usize)
    ensures
        r == string@.len(),
{
    string.as_str().unicode_len()
}

/// `c` with an ASCII lower-case letter mapped to its upper-case form; every
/// other character unchanged.
pub open spec fn ascii_upper(c: char) -> char {
    if 'a' <= c <= 'z' {
        ((c as u32) - 32) as char
    } else {
        c
    }
}

/// Relies on `String::make_ascii_uppercase`: maps 'a'..='z' to 'A'..='Z'
/// in place and leaves every other character as it is.
#[verifier::external_body]
fn make_ascii_uppercase(string: &mut String)
    ensures
        final(string)@ == old(string)@.map_values(|c: char| ascii_upper(c)),
{
    string.make_ascii_uppercase();
}

/// Upper-cases the ASCII letters of `string` and appends "!!!".
pub fn emphasize(string: &mut String)
    ensures
        final(string)@ == old(string)@.map_values(|c: char| ascii_upper(c)) + "!!!"@,
{
    make_ascii_uppercase(string);
    string.append("!!!");
}

/// Sum of the elements of `s`, taken from the front.
pub open spec fn seq_sum(s: Seq<i32>) -> int
    decreases s.len(),
{
    if s.len() == 0 {
        0
    } else {
        seq_sum(s.drop_last()) + s.last()
    }
}

/// Sum of the elements of `slice`. Every partial sum, taken from the front,
/// must fit in an `i32`.
pub fn sum(slice: &[i32]) -> (r: i32)
    requires
        forall|k: int|
            0 <= k <= slice@.len() ==> i32::MIN <= #[trigger] seq_sum(slice@.subrange(0, k))
                <= i32::MAX,
    ensures
        r == seq_sum(slice@),
{
    let mut total: i32 = 0;
    let mut i: usize = 0;
    while i < slice.len()
        invariant
            0 <= i <= slice@.len(),
            total == seq_sum(slice@.subrange(0, i as int)),
            forall|k: int|
                0 <= k <= slice@.len() ==> i32::MIN <= #[trigger] seq_sum(slice@.subrange(0, k))
                    <= i32::MAX,
        decreases slice@.len() - i,
    {
        assert(slice@.subrange(0, i + 1).drop_last() =~= slice@.subrange(0, i as int));
        assert(seq_sum(slice@.subrange(0, i + 1)) == total + slice@[i as int]);
        total = total + slice[i];
        i = i + 1;
    }
    assert(slice@.subrange(0, i as int) =~= slice@);
    total
}

/// Sets every element of `slice` to zero.
pub fn zero_out(slice: &mut [i32])
    ensures
        final(slice)@ == Seq::new(old(slice)@.len(), |i: int| 0i32),
{
    let n = slice.len();
    let mut i: usize = 0;
    while i < n
        invariant
            n == old(slice)@.len(),
            slice@.len() == n,
            0 <= i <= n,
            forall|j: int| 0 <= j < i ==> #[trigger] slice@[j] == 0,
        decreases n - i,
    {
        slice[i] = 0;
        i = i + 1;
    }
    assert(slice@ =~= Seq::new(old(slice)@.len(), |i: int| 0i32));
}

/// The string with more bytes; `y` when they are equally long.
pub fn longest<'a>(x: &'a str, y: &'a str) -> (r: &'a str)
    ensures
        r == if x.len() > y.len() {
            x
        } else {
            y
        },
{
    if x.len() > y.len() {
        x
    } else {
        y
    }
}

/// The text of `s` up to its first space, or all of `s` when it has none.
/// Stated over the UTF-8 bytes: the result's bytes are a prefix of those of
/// `s` that holds no space, and the byte after it, if any, is a space.
pub fn first_word(s: &str) -> (r: &str)
    ensures
        r.spec_bytes() == s.spec_bytes().subrange(0, r.spec_bytes().len() as int),
        forall|k: int| 0 <= k < r.spec_bytes().len() ==> #[trigger] s.spec_bytes()[k] != 32u8,
        r.spec_bytes().len() < s.spec_bytes().len() ==> s.spec_bytes()[r.spec_bytes().len() as int]
            == 32u8,
{
    let bytes = s.as_bytes();
    let mut i: usize = 0;
    while i < bytes.len()
        invariant
            bytes@ == s.spec_bytes(),
            0 <= i <= bytes@.len(),
            forall|k: int| 0 <= k < i ==> #[trigger] bytes@[k] != 32u8,
        decreases bytes@.len() - i,
    {
        if bytes[i] == 32u8 {
            proof {
                encode_utf8_valid_utf8(s@);
                is_char_boundary_iff_not_is_continuation_byte(s.spec_bytes(), i as int);
            }
            let (word, _) = s.split_at(i);
            assert(word.spec_bytes() =~= s.spec_bytes().subrange(0, i as int));
            return word;
        }
        i = i + 1;
    }
    assert(s.spec_bytes().subrange(0, s.spec_bytes().len() as int) =~= s.spec_bytes());
    s
}

} // verus!
