//! The Android SDK version, as read from the system property that holds it.

use vstd::prelude::*;
use vstd::string::StringSliceAdditionalSpecFns;

verus! {

/// Whether `byte` is an ASCII decimal digit.
pub open spec fn is_digit(byte: u8) -> bool {
    48 <= byte <= 57
}

/// The digit that `byte` stands for; zero where it is no digit.
pub open spec fn digit_value(byte: u8) -> nat {
    if is_digit(byte) {
        (byte - 48) as nat
    } else {
        0
    }
}

/// The number that a sequence of decimal digits denotes, most significant
/// digit first.
pub open spec fn digits_value(digits: Seq<u8>) -> nat
    decreases digits.len(),
{
    if digits.len() == 0 {
        0
    } else {
        digits_value(digits.drop_last()) * 10 + digit_value(digits.last())
    }
}

/// `text` without a plus sign in front.
pub open spec fn unsigned_part(text: Seq<u8>) -> Seq<u8> {
    if text.len() > 0 && text[0] == 43 {
        text.subrange(1, text.len() as int)
    } else {
        text
    }
}

/// The number that `text` denotes: an optional plus sign and then one or
/// more decimal digits, and nothing else, whose value fits in 32 bits.
pub open spec fn parsed_number(text: Seq<u8>) -> Option<u32> {
    let digits = unsigned_part(text);
    if digits.len() > 0 && (forall|i: int| 0 <= i < digits.len() ==> is_digit(#[trigger] digits[i]))
        && digits_value(digits) <= u32::MAX {
        Some(digits_value(digits) as u32)
    } else {
        None
    }
}

/// The SDK version for the value of the version property: the number that
/// it denotes, and zero where the property is missing or denotes none.
pub open spec fn sdk_version_of(property: Option<Seq<u8>>) -> u32 {
    match property {
        Some(text) => match parsed_number(text) {
            Some(version) => version,
            None => 0,
        },
        None => 0,
    }
}

/// The value of the first digits is at most the value of them all.
pub proof fn lemma_prefix_value(digits: Seq<u8>, upto: int)
    requires
        0 <= upto <= digits.len(),
    ensures
        digits_value(digits.take(upto)) <= digits_value(digits),
    decreases digits.len(),
{
    if upto == digits.len() {
        assert(digits.take(upto) =~= digits);
    } else {
        lemma_prefix_value(digits.drop_last(), upto);
        assert(digits.drop_last().take(upto) =~= digits.take(upto));
    }
}

/// Reads a decimal number: an optional plus sign, then digits only.
pub fn parse_decimal(text: &str) -> (number: Option<u32>)
    ensures
        number == parsed_number(text.spec_bytes()),
{
    let bytes = text.as_bytes();
    let start: usize = if bytes.len() > 0 && bytes[0] == 43 {
        1
    } else {
        0
    };
    if start == bytes.len() {
        return None;
    }
    let ghost digits = unsigned_part(bytes@);
    let mut value: u32 = 0;
    let mut i: usize = start;
    while i < bytes.len()
        invariant
            start <= i <= bytes.len(),
            start <= 1,
            bytes@ == text.spec_bytes(),
            digits == unsigned_part(bytes@),
            digits.len() == bytes.len() - start,
            forall|j: int| 0 <= j < digits.len() ==> digits[j] == bytes@[j + start],
            forall|j: int| 0 <= j < i - start ==> is_digit(#[trigger] digits[j]),
            value == digits_value(digits.take(i - start)),
        decreases bytes.len() - i,
    {
        let byte = bytes[i];
        if byte < 48 || byte > 57 {
            assert(!is_digit(digits[i - start]));
            return None;
        }
        proof {
            let upto = i - start + 1;
            lemma_prefix_value(digits, upto);
            assert(digits.take(upto).drop_last() =~= digits.take(i - start));
        }
        let wide: u64 = (value as u64) * 10 + ((byte - 48) as u64);
        if wide > 0xffff_ffff {
            return None;
        }
        value = wide as u32;
        i += 1;
    }
    assert(digits.take(digits.len() as int) =~= digits);
    Some(value)
}

/// The Android SDK version, given the value of the system property
/// `ro.build.version.sdk` where it is set: zero where it is not set or is
/// no number.
pub fn android_sdk_version(property: Option<&str>) -> (version: u32)
    ensures
        version == sdk_version_of(
            match property {
                Some(text) => Some(text.spec_bytes()),
                None => None,
            },
        ),
{
    match property {
        Some(text) => match parse_decimal(text) {
            Some(version) => version,
            None => 0,
        },
        None => 0,
    }
}

} // verus!
