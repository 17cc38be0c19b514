//! Numbers and byte strings as text.

use crate::primitives::{Address, PeerId, B256};
use num_format::ToFormattedString;
use vstd::prelude::*;

verus! {

/// The digit that stands for `d`, in lower case where `d` is above nine.
pub open spec fn digit(d: nat) -> char {
    seq!['0', '1', '2', '3', '4', '5', '6', '7', '8', '9', 'a', 'b', 'c', 'd', 'e', 'f'][d as int]
}

/// `n` in decimal, without leading zeros.
pub open spec fn decimal(n: nat) -> Seq<char>
    decreases n,
{
    if n < 10 {
        seq![digit(n)]
    } else {
        decimal(n / 10).push(digit(n % 10))
    }
}

/// `n` in decimal, with a comma before each group of three digits but the first.
pub open spec fn grouped(n: nat) -> Seq<char>
    decreases n,
{
    if n < 1000 {
        decimal(n)
    } else {
        grouped(n / 1000) + seq![
            ',',
            digit(n / 100 % 10),
            digit(n / 10 % 10),
            digit(n % 10),
        ]
    }
}

/// Two hexadecimal digits for each byte, the high one first.
pub open spec fn hex(bytes: Seq<u8>) -> Seq<char> {
    Seq::new(
        2 * bytes.len(),
        |i: int|
            if i % 2 == 0 {
                digit(bytes[i / 2] as nat / 16)
            } else {
                digit(bytes[i / 2] as nat % 16)
            },
    )
}

/// The hexadecimal digits of `bytes` behind `0x`.
pub open spec fn prefixed_hex(bytes: Seq<u8>) -> Seq<char> {
    seq!['0', 'x'] + hex(bytes)
}

/// The first and the last two bytes of `bytes` in hexadecimal, behind `0x`, with an ellipsis
/// between them.
pub open spec fn middle_out_hex(bytes: Seq<u8>) -> Seq<char> {
    seq!['0', 'x'] + hex(bytes.take(2)) + seq!['\u{2026}'] + hex(bytes.skip(bytes.len() - 2))
}

/// The first `n` items of `s`, or all of them where `s` has fewer.
pub open spec fn at_most<T>(s: Seq<T>, n: nat) -> Seq<T> {
    if n < s.len() {
        s.take(n as int)
    } else {
        s
    }
}

/// The first `n` characters of `s`, or all of them where `s` has fewer.
pub fn first_chars(s: &str, n: usize) -> (r: String)
    ensures
        r@ == at_most(s@, n as nat),
{
    if n < s.unicode_len() {
        s.substring_char(0, n).to_owned()
    } else {
        s.to_owned()
    }
}

/// Calls `to_formatted_string` of `num_format` with `Locale::en`, which has a comma as its
/// separator and groups digits by threes. The impls for the unsigned integers wider than a byte
/// widen the number to `u128` first, so this one serves them all.
#[verifier::external_body]
pub(crate) fn format_grouped(n: u128) -> (s: String)
    ensures
        s@ == grouped(n as nat),
{
    n.to_formatted_string(&num_format::Locale::en)
}

/// Calls `LowerHex` of `alloy_primitives::B256` in its alternate form, which writes `0x` and then
/// two lower-case digits for each byte.
#[verifier::external_body]
pub(crate) fn hash_hex(hash: &B256) -> (s: String)
    ensures
        s@ == prefixed_hex(hash@),
{
    format!("{:#x}", alloy_primitives::B256::from(*hash))
}

/// Calls `LowerHex` of `alloy_primitives::Address` in its alternate form, which writes `0x` and
/// then two lower-case digits for each byte.
#[verifier::external_body]
pub(crate) fn address_hex(address: &Address) -> (s: String)
    ensures
        s@ == prefixed_hex(address@),
{
    format!("{:#x}", alloy_primitives::Address::from(*address))
}

/// Calls `Display` of `alloy_primitives::B512` in its alternate form, which keeps the first and
/// the last two bytes only and puts an ellipsis in the place of the others.
#[verifier::external_body]
pub(crate) fn peer_id_abbreviated(id: &PeerId) -> (s: String)
    ensures
        s@ == middle_out_hex(id@),
{
    format!("{:#}", alloy_primitives::B512::from(*id))
}

/// Calls `to_string` of `usize`, which writes the number in decimal without leading zeros.
#[verifier::external_body]
pub(crate) fn usize_to_string(n: usize) -> (s: String)
    ensures
        s@ == decimal(n as nat),
{
    n.to_string()
}

/// Three digits on top of a number's leading ones make its decimal form.
proof fn lemma_decimal_ends_in_three_digits(n: nat)
    requires
        n >= 1000,
    ensures
        decimal(n) == decimal(n / 1000) + seq![
            digit(n / 100 % 10),
            digit(n / 10 % 10),
            digit(n % 10),
        ],
{
    assert(decimal(n) == decimal(n / 10).push(digit(n % 10)));
    assert(n / 10 / 10 == n / 100);
    assert(decimal(n / 10) == decimal(n / 100).push(digit(n / 10 % 10)));
    assert(n / 100 / 10 == n / 1000);
    assert(decimal(n / 100) == decimal(n / 1000).push(digit(n / 100 % 10)));
    assert(decimal(n) =~= decimal(n / 1000) + seq![
        digit(n / 100 % 10),
        digit(n / 10 % 10),
        digit(n % 10),
    ]);
}

/// No digit is a comma.
proof fn lemma_decimal_has_no_comma(n: nat)
    ensures
        forall|i: int| 0 <= i < decimal(n).len() ==> #[trigger] decimal(n)[i] != ',',
        decimal(n).len() >= 1,
        n < 1000 ==> decimal(n).len() <= 3,
    decreases n,
{
    if n >= 10 {
        lemma_decimal_has_no_comma(n / 10);
        if n < 1000 {
            if n / 10 >= 10 {
                assert(decimal(n / 10) == decimal(n / 100).push(digit(n / 10 % 10)));
                assert(decimal(n / 100) == seq![digit(n / 100)]);
            }
        }
    }
}

/// Leaving the commas out of a text without commas changes nothing.
proof fn lemma_filter_keeps(s: Seq<char>)
    requires
        forall|i: int| 0 <= i < s.len() ==> #[trigger] s[i] != ',',
    ensures
        s.filter(|c: char| c != ',') == s,
    decreases s.len(),
{
    reveal(Seq::filter);
    if s.len() > 0 {
        assert forall|i: int| 0 <= i < s.drop_last().len() implies #[trigger] s.drop_last()[i]
            != ',' by {
            assert(s[i] != ',');
        }
        lemma_filter_keeps(s.drop_last());
        assert(s.last() != ',');
        assert(s.drop_last().push(s.last()) =~= s);
    }
}

/// Grouping adds commas and nothing else: without them, the decimal form is left.
pub proof fn law_grouping_keeps_the_digits(n: nat)
    ensures
        grouped(n).filter(|c: char| c != ',') == decimal(n),
    decreases n,
{
    let keep = |c: char| c != ',';
    lemma_decimal_has_no_comma(n);
    if n < 1000 {
        lemma_filter_keeps(decimal(n));
    } else {
        law_grouping_keeps_the_digits(n / 1000);
        lemma_decimal_ends_in_three_digits(n);
        let digits = seq![digit(n / 100 % 10), digit(n / 10 % 10), digit(n % 10)];
        lemma_filter_keeps(digits);
        let comma = seq![','];
        assert(comma.filter(keep) =~= Seq::<char>::empty()) by {
            reveal_with_fuel(Seq::filter, 2);
            assert(comma.drop_last() =~= Seq::<char>::empty());
        }
        assert(grouped(n) =~= grouped(n / 1000) + comma + digits);
        Seq::filter_distributes_over_add(grouped(n / 1000) + comma, digits, keep);
        Seq::filter_distributes_over_add(grouped(n / 1000), comma, keep);
        assert(grouped(n).filter(keep) =~= decimal(n));
    }
}

/// The commas stand before each group of three digits, counted from the end, and nowhere else;
/// none stands in front.
pub proof fn law_commas_stand_between_groups_of_three(n: nat)
    ensures
        forall|i: int|
            0 <= i < grouped(n).len() ==> (#[trigger] grouped(n)[i] == ',' <==> (grouped(n).len()
                - 1 - i) % 4 == 3),
        grouped(n).len() >= 1,
        grouped(n)[0] != ',',
    decreases n,
{
    lemma_decimal_has_no_comma(n);
    if n >= 1000 {
        let leading = grouped(n / 1000);
        law_commas_stand_between_groups_of_three(n / 1000);
        let len = grouped(n).len();
        assert(len == leading.len() + 4);
        assert forall|i: int| 0 <= i < len implies (#[trigger] grouped(n)[i] == ',' <==> (len - 1
            - i) % 4 == 3) by {
            if i < leading.len() {
                assert(grouped(n)[i] == leading[i]);
                assert((len - 1 - i) % 4 == (leading.len() - 1 - i) % 4);
            }
        }
        assert(grouped(n)[0] == leading[0]);
    }
}

/// The number that a text of decimal digits stands for.
pub open spec fn read_decimal(s: Seq<char>) -> nat
    decreases s.len(),
{
    if s.len() == 0 {
        0
    } else {
        (10 * read_decimal(s.drop_last()) + (s.last() as int - '0' as int)) as nat
    }
}

/// The number that a hexadecimal digit in lower case stands for.
pub open spec fn read_hex_digit(c: char) -> int {
    if c <= '9' {
        c as int - '0' as int
    } else {
        c as int - 'a' as int + 10
    }
}

/// What is cut is cut at the end: the text keeps its beginning, and it is no longer than allowed
/// and no shorter than it has to be.
pub proof fn law_cutting_keeps_the_beginning<T>(s: Seq<T>, n: nat)
    ensures
        at_most(s, n).len() == (if s.len() <= n {
            s.len()
        } else {
            n
        }),
        forall|i: int| 0 <= i < at_most(s, n).len() ==> #[trigger] at_most(s, n)[i] == s[i],
{
}

/// The text that is left of `s` is the beginning of `s`.
pub proof fn law_first_chars_are_the_beginning(s: &str, n: usize, r: String)
    requires
        call_ensures(first_chars, (s, n), r),
    ensures
        r@.len() <= n,
        r@.len() <= s@.len(),
        r@.len() == n || r@.len() == s@.len(),
        forall|i: int| 0 <= i < r@.len() ==> #[trigger] r@[i] == s@[i],
{
    law_cutting_keeps_the_beginning(s@, n as nat);
}

/// The decimal form of a number reads back as the number. It has digits only, at least one, and
/// no zero in front of others.
pub proof fn law_decimal_reads_back(n: nat)
    ensures
        read_decimal(decimal(n)) == n,
        decimal(n).len() >= 1,
        decimal(n)[0] == '0' ==> decimal(n).len() == 1,
        forall|i: int| 0 <= i < decimal(n).len() ==> '0' <= #[trigger] decimal(n)[i] <= '9',
    decreases n,
{
    if n < 10 {
        assert(decimal(n).drop_last() =~= Seq::<char>::empty());
        assert(read_decimal(Seq::<char>::empty()) == 0);
    } else {
        law_decimal_reads_back(n / 10);
        assert(decimal(n).drop_last() =~= decimal(n / 10));
        assert(decimal(n)[0] == decimal(n / 10)[0]);
        if n / 10 < 10 {
            assert(decimal(n / 10)[0] != '0');
        } else {
            assert(decimal(n / 10) == decimal(n / 10 / 10).push(digit(n / 10 % 10)));
            law_decimal_reads_back(n / 10 / 10);
        }
    }
}

/// A hexadecimal digit reads back as what it stands for.
proof fn lemma_hex_digit_reads_back(d: nat)
    requires
        d < 16,
    ensures
        read_hex_digit(digit(d)) == d,
        '0' <= digit(d) <= '9' || 'a' <= digit(d) <= 'f',
{
}

/// Two digits stand for each byte, the high one first, and they read back as the byte.
pub proof fn law_hex_reads_back(bytes: Seq<u8>, i: int)
    requires
        0 <= i < bytes.len(),
    ensures
        hex(bytes).len() == 2 * bytes.len(),
        bytes[i] == 16 * read_hex_digit(hex(bytes)[2 * i]) + read_hex_digit(hex(bytes)[2 * i + 1]),
        forall|j: int|
            2 * i <= j <= 2 * i + 1 ==> ('0' <= #[trigger] hex(bytes)[j] <= '9' || 'a' <= hex(
                bytes,
            )[j] <= 'f'),
{
    assert((2 * i) / 2 == i && (2 * i) % 2 == 0);
    assert((2 * i + 1) / 2 == i && (2 * i + 1) % 2 == 1);
    let high = bytes[i] as nat / 16;
    let low = bytes[i] as nat % 16;
    assert(hex(bytes)[2 * i] == digit(high));
    assert(hex(bytes)[2 * i + 1] == digit(low));
    lemma_hex_digit_reads_back(high);
    lemma_hex_digit_reads_back(low);
}

/// The prefixed form is `0x` and then the digits of all bytes.
pub proof fn law_prefix_stands_in_front(bytes: Seq<u8>)
    ensures
        prefixed_hex(bytes).len() == 2 + 2 * bytes.len(),
        prefixed_hex(bytes)[0] == '0',
        prefixed_hex(bytes)[1] == 'x',
        prefixed_hex(bytes).skip(2) == hex(bytes),
{
    assert(prefixed_hex(bytes).skip(2) =~= hex(bytes));
}

/// The abbreviated form of two bytes or more has eleven characters: `0x`, the digits of the first
/// two bytes, an ellipsis, and the digits of the last two.
pub proof fn law_abbreviation_keeps_the_ends(bytes: Seq<u8>)
    requires
        bytes.len() >= 2,
    ensures
        middle_out_hex(bytes).len() == 11,
        middle_out_hex(bytes).take(6) == prefixed_hex(bytes).take(6),
        middle_out_hex(bytes)[6] == '\u{2026}',
        middle_out_hex(bytes).skip(7) == hex(bytes).skip(2 * bytes.len() - 4),
{
    let last = bytes.skip(bytes.len() - 2);
    assert(middle_out_hex(bytes).take(6) =~= prefixed_hex(bytes).take(6));
    assert forall|i: int| 0 <= i < 4 implies hex(last)[i] == hex(bytes)[2 * bytes.len() - 4 + i] by {
        assert((2 * bytes.len() - 4 + i) / 2 == bytes.len() - 2 + i / 2);
        assert((2 * bytes.len() - 4 + i) % 2 == i % 2);
    }
    assert(middle_out_hex(bytes).skip(7) =~= hex(bytes).skip(2 * bytes.len() - 4));
}

} // verus!
