//! Exchange rates, as the books are ordered by them.
use vstd::prelude::*;
use crate::amount::{Amount, AmountError};
use crate::submit::flags::Read;
use crate::ter::Ter;

verus! {

/// How many digits of a rate count where no issuer says otherwise.
pub const MAX_TICK_SIZE: u8 = 16;

/// An exponent and a mantissa in one word: the exponent above the lower 56 bits.
pub open spec fn packed(exponent: u64, mantissa: u64) -> u64 {
    (exponent << 56u64) | mantissa
}

pub open spec fn exponent_bits(quality: u64) -> u64 {
    quality >> 56u64
}

pub open spec fn mantissa_bits(quality: u64) -> u64 {
    quality & 0x00ff_ffff_ffff_ffffu64
}

/// The step that is left when so many digits of a sixteen digit mantissa count.
pub open spec fn tick(digits: u8) -> u64 {
    if digits == 0 {
        10_000_000_000_000_000
    } else if digits == 1 {
        1_000_000_000_000_000
    } else if digits == 2 {
        100_000_000_000_000
    } else if digits == 3 {
        10_000_000_000_000
    } else if digits == 4 {
        1_000_000_000_000
    } else if digits == 5 {
        100_000_000_000
    } else if digits == 6 {
        10_000_000_000
    } else if digits == 7 {
        1_000_000_000
    } else if digits == 8 {
        100_000_000
    } else if digits == 9 {
        10_000_000
    } else if digits == 10 {
        1_000_000
    } else if digits == 11 {
        100_000
    } else if digits == 12 {
        10_000
    } else if digits == 13 {
        1_000
    } else if digits == 14 {
        100
    } else if digits == 15 {
        10
    } else {
        1
    }
}

fn tick_modulus(digits: u8) -> (r: u64)
    ensures
        r == tick(digits),
        1 <= r <= 10_000_000_000_000_000,
{
    match digits {
        0 => 10_000_000_000_000_000,
        1 => 1_000_000_000_000_000,
        2 => 100_000_000_000_000,
        3 => 10_000_000_000_000,
        4 => 1_000_000_000_000,
        5 => 100_000_000_000,
        6 => 10_000_000_000,
        7 => 1_000_000_000,
        8 => 100_000_000,
        9 => 10_000_000,
        10 => 1_000_000,
        11 => 100_000,
        12 => 10_000,
        13 => 1_000,
        14 => 100,
        15 => 10,
        _ => 1,
    }
}

/// The least multiple of a step that is not below a number.
pub open spec fn rounded_up(value: int, step: int) -> int
    recommends
        step > 0,
{
    ((value + step - 1) / step) * step
}

pub open spec fn spec_round_quality(quality: u64, digits: u8) -> u64 {
    if quality == 0 || digits >= 16 {
        quality
    } else {
        packed(
            exponent_bits(quality),
            rounded_up(mantissa_bits(quality) as int, tick(digits) as int) as u64,
        )
    }
}

/// A rate with only so many digits: its mantissa is rounded up.
pub fn round_quality(quality: u64, digits: u8) -> (r: u64)
    ensures
        r == spec_round_quality(quality, digits),
{
    if quality == 0 || digits >= 16 {
        return quality;
    }
    let exponent: u64 = quality >> 56u64;
    let mantissa: u64 = quality & 0x00ff_ffff_ffff_ffffu64;
    assert(mantissa <= 0x00ff_ffff_ffff_ffff) by (bit_vector)
        requires
            mantissa == quality & 0x00ff_ffff_ffff_ffffu64,
    ;
    let modulus: u64 = tick_modulus(digits);
    let raised: u64 = mantissa + (modulus - 1);
    let rest: u64 = raised % modulus;
    proof {
        vstd::arithmetic::div_mod::lemma_fundamental_div_mod(raised as int, modulus as int);
        assert(modulus * (raised as int / modulus as int) == (raised as int / modulus as int) * modulus)
            by (nonlinear_arith);
    }
    let rounded: u64 = raised - rest;
    (exponent << 56u64) | rounded
}

/// The rate that a word stands for is zero as an amount: so is every rate with an encoded exponent of
/// zero, which is -100, below what an issued amount can have. `answer` is what reading the amount
/// says.
pub open spec fn spec_rate_is_zero(quality: u64, answer: bool) -> bool {
    exponent_bits(quality) == 0 || answer
}

/// Whether the rate that a word stands for is zero as an amount.
pub fn rate_is_zero(quality: u64, answer: bool) -> (r: bool)
    ensures
        r == spec_rate_is_zero(quality, answer),
{
    quality >> 56u64 == 0 || answer
}

/// The rate of an offer, in one word; zero where it has none. `quotient` is what the taker pays
/// divided by what the taker gets.
pub open spec fn spec_get_rate(
    taker_gets: Amount,
    quotient: Result<Amount, AmountError>,
) -> Result<u64, Ter> {
    if !taker_gets.positive() {
        Ok(0)
    } else {
        match quotient {
            Err(_) => Err(Ter::TEF_EXCEPTION),
            Ok(rate) => if !rate.positive() || !(0 <= rate.exponent + 100 <= 255) {
                Ok(0)
            } else {
                Ok(packed((rate.exponent + 100) as u64, rate.mantissa))
            },
        }
    }
}

/// The rate of an offer, in one word: its exponent, moved up by a hundred, above its mantissa.
pub fn get_rate(taker_gets: &Amount, quotient: Result<Amount, AmountError>) -> (r: Result<u64, Ter>)
    ensures
        r == spec_get_rate(*taker_gets, quotient),
{
    if !taker_gets.is_positive() {
        return Ok(0);
    }
    let rate = match quotient {
        Ok(rate) => rate,
        Err(_) => {
            return Err(Ter::TEF_EXCEPTION);
        },
    };
    if !rate.is_positive() {
        return Ok(0);
    }
    let exponent: i64 = rate.exponent as i64 + 100;
    if !(exponent >= 0 && exponent <= 255) {
        return Ok(0);
    }
    Ok(((exponent as u64) << 56u64) | rate.mantissa)
}

pub open spec fn smaller_tick(size: u8, issuer: Option<u8>) -> u8 {
    match issuer {
        Some(tick) => if tick < size {
            tick
        } else {
            size
        },
        None => size,
    }
}

/// The tick size that an issuer asks for, where the asset has an issuer and it asks for one.
pub open spec fn issuer_tick(amount: Amount, read: Read<Option<u8>>) -> Option<u8> {
    match (amount.asset, read) {
        (crate::amount::Asset::Issue { .. }, Read::Found(tick)) => tick,
        _ => None,
    }
}

/// The smaller of the tick sizes that the two issuers ask for; an issuer that could not be read
/// is an error. `pays_issuer` and `gets_issuer` are read for issued currencies only.
pub fn get_tick_size(
    taker_pays: &Amount,
    taker_gets: &Amount,
    pays_issuer: Read<Option<u8>>,
    gets_issuer: Read<Option<u8>>,
) -> (r: Result<u8, Ter>)
    ensures
        r == spec_get_tick_size(*taker_pays, *taker_gets, pays_issuer, gets_issuer),
{
    let mut tick_size: u8 = MAX_TICK_SIZE;
    if let crate::amount::Asset::Issue { .. } = taker_pays.asset {
        match pays_issuer {
            Read::Found(Some(tick)) => {
                if tick < tick_size {
                    tick_size = tick;
                }
            },
            Read::Failed => {
                return Err(Ter::TEF_BAD_LEDGER);
            },
            _ => {},
        }
    }
    if let crate::amount::Asset::Issue { .. } = taker_gets.asset {
        match gets_issuer {
            Read::Found(Some(tick)) => {
                if tick < tick_size {
                    tick_size = tick;
                }
            },
            Read::Failed => {
                return Err(Ter::TEF_BAD_LEDGER);
            },
            _ => {},
        }
    }
    Ok(tick_size)
}

pub open spec fn spec_get_tick_size(
    taker_pays: Amount,
    taker_gets: Amount,
    pays_issuer: Read<Option<u8>>,
    gets_issuer: Read<Option<u8>>,
) -> Result<u8, Ter> {
    if (taker_pays.asset is Issue && pays_issuer is Failed) || (taker_gets.asset is Issue
        && gets_issuer is Failed) {
        Err(Ter::TEF_BAD_LEDGER)
    } else {
        Ok(
            smaller_tick(
                smaller_tick(MAX_TICK_SIZE, issuer_tick(taker_pays, pays_issuer)),
                issuer_tick(taker_gets, gets_issuer),
            ),
        )
    }
}

proof fn packing_is_exact(exponent: u64, mantissa: u64)
    requires
        exponent < 256,
        mantissa < 0x0100_0000_0000_0000,
    ensures
        exponent_bits(packed(exponent, mantissa)) == exponent,
        mantissa_bits(packed(exponent, mantissa)) == mantissa,
        packed(exponent, mantissa) == exponent * 0x0100_0000_0000_0000 + mantissa,
{
    assert(((exponent << 56u64) | mantissa) >> 56u64 == exponent) by (bit_vector)
        requires
            exponent < 256,
            mantissa < 0x0100_0000_0000_0000,
    ;
    assert(((exponent << 56u64) | mantissa) & 0x00ff_ffff_ffff_ffffu64 == mantissa) by (bit_vector)
        requires
            exponent < 256,
            mantissa < 0x0100_0000_0000_0000,
    ;
    assert(((exponent << 56u64) | mantissa) == exponent * 0x0100_0000_0000_0000 + mantissa) by (bit_vector)
        requires
            exponent < 256,
            mantissa < 0x0100_0000_0000_0000,
    ;
}

/// A positive rate can be taken apart again into the exponent and the mantissa it was made of.
pub proof fn rate_can_be_unpacked(taker_gets: Amount, rate: Amount)
    requires
        taker_gets.positive(),
        rate.positive(),
        0 <= rate.exponent + 100 <= 255,
        rate.mantissa < 0x0100_0000_0000_0000,
    ensures
        spec_get_rate(taker_gets, Ok(rate)) matches Ok(word) && exponent_bits(word) == rate.exponent
            + 100 && mantissa_bits(word) == rate.mantissa,
{
    packing_is_exact((rate.exponent + 100) as u64, rate.mantissa);
}

/// A better offer has the smaller word: rates are ordered as their words are, first by their
/// exponents and then by their mantissas.
pub proof fn rates_keep_their_order(taker_gets: Amount, a: Amount, b: Amount)
    requires
        taker_gets.positive(),
        a.positive(),
        b.positive(),
        0 <= a.exponent + 100 <= 255,
        0 <= b.exponent + 100 <= 255,
        a.mantissa < 0x0100_0000_0000_0000,
        b.mantissa < 0x0100_0000_0000_0000,
    ensures
        spec_get_rate(taker_gets, Ok(a)) matches Ok(x) && spec_get_rate(taker_gets, Ok(b)) matches Ok(y)
            && (x < y <==> a.exponent < b.exponent || (a.exponent == b.exponent && a.mantissa
            < b.mantissa)),
{
    packing_is_exact((a.exponent + 100) as u64, a.mantissa);
    packing_is_exact((b.exponent + 100) as u64, b.mantissa);
}

proof fn rounding_up_properties(value: int, step: int)
    requires
        value >= 0,
        step > 0,
    ensures
        value <= rounded_up(value, step) < value + step,
        rounded_up(value, step) % step == 0,
        value % step == 0 ==> rounded_up(value, step) == value,
{
    let raised = value + step - 1;
    vstd::arithmetic::div_mod::lemma_fundamental_div_mod(raised, step);
    vstd::arithmetic::div_mod::lemma_mod_bound(raised, step);
    assert(step * (raised / step) == (raised / step) * step) by (nonlinear_arith);
    vstd::arithmetic::div_mod::lemma_mod_multiples_basic(raised / step, step);
    if value % step == 0 {
        vstd::arithmetic::div_mod::lemma_fundamental_div_mod(value, step);
        let q = value / step;
        let p = raised / step;
        assert(value == step * q);
        assert(p == q) by (nonlinear_arith)
            requires
                value == step * q,
                raised == value + step - 1,
                step > 0,
                p * step <= raised < p * step + step,
        ;
        assert(step * q == p * step) by (nonlinear_arith)
            requires
                p == q,
        ;
    }
}

/// Rounding leaves the exponent alone, never lowers a rate, raises its mantissa by less than one
/// tick, and leaves a mantissa of whole ticks. This leaves out rates whose rounded mantissa does
/// not fit below the exponent any more.
pub proof fn rounding_moves_less_than_a_tick(quality: u64, digits: u8)
    requires
        quality != 0,
        digits < 16,
        rounded_up(mantissa_bits(quality) as int, tick(digits) as int) < 0x0100_0000_0000_0000,
    ensures
        ({
            let r = spec_round_quality(quality, digits);
            &&& exponent_bits(r) == exponent_bits(quality)
            &&& mantissa_bits(quality) <= mantissa_bits(r) < mantissa_bits(quality) + tick(digits)
            &&& mantissa_bits(r) as int % tick(digits) as int == 0
            &&& quality <= r
        }),
{
    let exponent = exponent_bits(quality);
    let mantissa = mantissa_bits(quality);
    assert(quality >> 56u64 < 256) by (bit_vector);
    assert(quality & 0x00ff_ffff_ffff_ffffu64 < 0x0100_0000_0000_0000) by (bit_vector);
    assert(quality == ((quality >> 56u64) << 56u64) | (quality & 0x00ff_ffff_ffff_ffffu64))
        by (bit_vector);
    rounding_up_properties(mantissa as int, tick(digits) as int);
    packing_is_exact(exponent, mantissa);
    packing_is_exact(exponent, rounded_up(mantissa as int, tick(digits) as int) as u64);
}

/// Rounding a rounded rate changes nothing.
pub proof fn rounding_is_idempotent(quality: u64, digits: u8)
    requires
        rounded_up(mantissa_bits(quality) as int, tick(digits) as int) < 0x0100_0000_0000_0000,
    ensures
        spec_round_quality(spec_round_quality(quality, digits), digits) == spec_round_quality(
            quality,
            digits,
        ),
{
    if quality != 0 && digits < 16 {
        rounding_moves_less_than_a_tick(quality, digits);
        let once = spec_round_quality(quality, digits);
        rounding_up_properties(mantissa_bits(once) as int, tick(digits) as int);
        assert(quality >> 56u64 < 256) by (bit_vector);
        packing_is_exact(
            exponent_bits(quality),
            rounded_up(mantissa_bits(quality) as int, tick(digits) as int) as u64,
        );
    }
}

} // verus!
