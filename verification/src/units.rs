//! Magnitude scaling and unit formatting.
//!
//! Quantities enter as raw integer magnitudes (bytes, hertz) or as
//! fixed-point values in hundredths of the display unit (centi-watts,
//! centi-degrees).  Scaling steps a magnitude down the SI prefix ladder by
//! repeated division, carrying three decimal digits through the walk and
//! rounding to the two displayed ones at the end, and the formatters render
//! the scaled value with its unit symbol.

use crate::settings::{Base, TemperatureUnit};
use crate::text::{dec_seq, digit_char, digit_str, i64_dec_string, int_dec_seq, u64_dec_string};
use vstd::prelude::*;

verus! {

/// A magnitude prefix of the scaling ladder, in ascending order.
#[derive(Clone, Copy, PartialEq, Eq, Structural, Debug)]
pub enum Prefix {
    Plain,
    Kilo,
    Mega,
    Giga,
    Tera,
    Peta,
    Exa,
    Zetta,
    Yotta,
    Ronna,
    Quetta,
}

/// The number of division steps that reach each prefix.
pub open spec fn prefix_index(p: Prefix) -> int {
    match p {
        Prefix::Plain => 0,
        Prefix::Kilo => 1,
        Prefix::Mega => 2,
        Prefix::Giga => 3,
        Prefix::Tera => 4,
        Prefix::Peta => 5,
        Prefix::Exa => 6,
        Prefix::Zetta => 7,
        Prefix::Yotta => 8,
        Prefix::Ronna => 9,
        Prefix::Quetta => 10,
    }
}

/// The prefix reached after `i` division steps.
pub open spec fn prefix_from_index_spec(i: int) -> Prefix {
    if i == 0 {
        Prefix::Plain
    } else if i == 1 {
        Prefix::Kilo
    } else if i == 2 {
        Prefix::Mega
    } else if i == 3 {
        Prefix::Giga
    } else if i == 4 {
        Prefix::Tera
    } else if i == 5 {
        Prefix::Peta
    } else if i == 6 {
        Prefix::Exa
    } else if i == 7 {
        Prefix::Zetta
    } else if i == 8 {
        Prefix::Yotta
    } else if i == 9 {
        Prefix::Ronna
    } else {
        Prefix::Quetta
    }
}

fn prefix_from_index(i: u64) -> (r: Prefix)
    requires
        i <= 10,
    ensures
        r == prefix_from_index_spec(i as int),
{
    match i {
        0 => Prefix::Plain,
        1 => Prefix::Kilo,
        2 => Prefix::Mega,
        3 => Prefix::Giga,
        4 => Prefix::Tera,
        5 => Prefix::Peta,
        6 => Prefix::Exa,
        7 => Prefix::Zetta,
        8 => Prefix::Yotta,
        9 => Prefix::Ronna,
        _ => Prefix::Quetta,
    }
}

/// The divisor belonging to a numeric base.
pub open spec fn base_value(b: Base) -> int {
    match b {
        Base::Decimal => 1000,
        Base::Binary => 1024,
    }
}

/// The milli-scaled value left after stepping down the ladder: divide by
/// `base` while the value is at least `base` display units (`base * 1000`
/// thousandths), for at most `steps` steps.  One digit more than the display
/// precision is carried so the final hundredths can be rounded, not
/// truncated.
pub open spec fn scaled_milli(x: nat, base: nat, steps: nat) -> nat
    decreases steps,
{
    if steps == 0 || x < base * 1000 {
        x
    } else {
        scaled_milli(x / base, base, (steps - 1) as nat)
    }
}

/// How many division steps the ladder walk takes.
pub open spec fn scale_steps(x: nat, base: nat, steps: nat) -> nat
    decreases steps,
{
    if steps == 0 || x < base * 1000 {
        0
    } else {
        1 + scale_steps(x / base, base, (steps - 1) as nat)
    }
}

/// A milli value rounded half-up to hundredths.
pub open spec fn round_milli_to_centi(m: nat) -> nat {
    ((m + 5) / 10) as nat
}

/// `b` raised to `e`.
pub open spec fn pow_nat(b: nat, e: nat) -> nat
    decreases e,
{
    if e == 0 {
        1
    } else {
        b * pow_nat(b, (e - 1) as nat)
    }
}

/// A value below `1000 * base * base^steps` scales to below `1000 * base`
/// within `steps` steps: the ladder is long enough for every `u64` magnitude.
proof fn lemma_scaled_milli_bound(x: nat, base: nat, steps: nat)
    requires
        base >= 2,
        x < base * 1000 * pow_nat(base, steps),
    ensures
        scaled_milli(x, base, steps) < base * 1000,
    decreases steps,
{
    if steps == 0 {
        assert(pow_nat(base, 0) == 1);
        assert(x < base * 1000) by (nonlinear_arith)
            requires
                x < base * 1000 * pow_nat(base, 0),
                pow_nat(base, 0) == 1,
        ;
    } else if x < base * 1000 {
    } else {
        assert(pow_nat(base, steps) == base * pow_nat(base, (steps - 1) as nat));
        assert(x / base < base * 1000 * pow_nat(base, (steps - 1) as nat)) by (nonlinear_arith)
            requires
                base >= 2,
                x < base * 1000 * (base * pow_nat(base, (steps - 1) as nat)),
        ;
        lemma_scaled_milli_bound(x / base, base, (steps - 1) as nat);
    }
}

/// The recursive ladder walk, carried out on wide integers.
fn scale_walk(x: u128, base: u64, steps: u64) -> (r: (u128, u64))
    requires
        base >= 2,
        steps <= 10,
    ensures
        r.0 == scaled_milli(x as nat, base as nat, steps as nat),
        r.1 == scale_steps(x as nat, base as nat, steps as nat),
        r.1 <= steps,
    decreases steps,
{
    if steps == 0 || x < (base as u128) * 1000 {
        (x, 0)
    } else {
        let (v, k) = scale_walk(x / (base as u128), base, steps - 1);
        (v, k + 1)
    }
}

/// Every `u64` value in thousandths lies under the ladder's total range.
proof fn lemma_u64_milli_in_ladder_range(x: nat, base: nat)
    requires
        base == 1000 || base == 1024,
        x <= u64::MAX as nat * 1000,
    ensures
        scaled_milli(x, base, 10) < base * 1000,
{
    reveal_with_fuel(pow_nat, 11);
    if base == 1000 {
        assert(pow_nat(1000, 10) == 1000000000000000000000000000000nat);
    } else {
        assert(pow_nat(1024, 10) == 1267650600228229401496703205376nat);
    }
    lemma_scaled_milli_bound(x, base, 10);
}

/// Steps a value already given in hundredths down the prefix ladder.
pub fn scale_centi_value(centi: u64, prefix_base: Base) -> (r: (u64, Prefix))
    ensures
        r.0 == round_milli_to_centi(
            scaled_milli((centi * 10) as nat, base_value(prefix_base) as nat, 10),
        ),
        r.1 == prefix_from_index_spec(
            scale_steps((centi * 10) as nat, base_value(prefix_base) as nat, 10) as int,
        ),
        r.0 <= 100 * base_value(prefix_base),
{
    let base: u64 = match prefix_base {
        Base::Decimal => 1000,
        Base::Binary => 1024,
    };
    let x: u128 = (centi as u128) * 10;
    proof {
        lemma_u64_milli_in_ladder_range(x as nat, base as nat);
    }
    let (v, k) = scale_walk(x, base, 10);
    proof {
        assert((v + 5) / 10 <= base * 100) by (nonlinear_arith)
            requires
                v < base * 1000,
        ;
    }
    (((v + 5) / 10) as u64, prefix_from_index(k))
}

/// Steps a raw magnitude down the prefix ladder of the chosen base.
///
/// The result pairs the scaled value, in hundredths of the prefixed unit
/// rounded half-up from the walk's thousandths, with the prefix reached.
/// The ladder is long enough that every `u64` magnitude ends at or below
/// `100 * base` hundredths.
pub fn to_largest_prefix(amount: u64, prefix_base: Base) -> (r: (u64, Prefix))
    ensures
        r.0 == magnitude_centi(amount as nat, prefix_base),
        r.1 == magnitude_prefix(amount as nat, prefix_base),
        r.0 <= 100 * base_value(prefix_base),
{
    let base: u64 = match prefix_base {
        Base::Decimal => 1000,
        Base::Binary => 1024,
    };
    let x: u128 = (amount as u128) * 1000;
    proof {
        lemma_u64_milli_in_ladder_range(x as nat, base as nat);
    }
    let (v, k) = scale_walk(x, base, 10);
    proof {
        assert((v + 5) / 10 <= base * 100) by (nonlinear_arith)
            requires
                v < base * 1000,
        ;
    }
    (((v + 5) / 10) as u64, prefix_from_index(k))
}

/// A centi value rounded half-up to whole display units.
pub open spec fn round_centi(c: nat) -> nat {
    ((c + 50) / 100) as nat
}

fn round_centi_u64(c: u64) -> (r: u64)
    requires
        c <= 0xffff_ffff,
    ensures
        r == round_centi(c as nat),
{
    (c + 50) / 100
}

/// The digits of a centi value with two decimal places, for example `1.50`.
pub open spec fn two_dec_seq(c: nat) -> Seq<char> {
    dec_seq(c / 100) + seq!['.', digit_char(((c / 10) % 10) as int), digit_char((c % 10) as int)]
}

fn two_dec_string(c: u64) -> (r: String)
    ensures
        r@ == two_dec_seq(c as nat),
{
    let whole = u64_dec_string(c / 100);
    let dot = whole.concat(".");
    let tenth = dot.concat(digit_str((c / 10) % 10));
    let r = tenth.concat(digit_str(c % 10));
    proof {
        reveal_strlit(".");
        assert(r@ =~= two_dec_seq(c as nat));
    }
    r
}

/// The storage symbol of each prefix: decimal prefixes scale `kB`, `MB`, ...;
/// binary prefixes scale `KiB`, `MiB`, ...
pub open spec fn storage_symbol_spec(p: Prefix, base: Base) -> Seq<char> {
    match base {
        Base::Decimal => match p {
            Prefix::Plain => "B"@,
            Prefix::Kilo => "kB"@,
            Prefix::Mega => "MB"@,
            Prefix::Giga => "GB"@,
            Prefix::Tera => "TB"@,
            Prefix::Peta => "PB"@,
            Prefix::Exa => "EB"@,
            Prefix::Zetta => "ZB"@,
            Prefix::Yotta => "YB"@,
            Prefix::Ronna => "RB"@,
            Prefix::Quetta => "QB"@,
        },
        Base::Binary => match p {
            Prefix::Plain => "B"@,
            Prefix::Kilo => "KiB"@,
            Prefix::Mega => "MiB"@,
            Prefix::Giga => "GiB"@,
            Prefix::Tera => "TiB"@,
            Prefix::Peta => "PiB"@,
            Prefix::Exa => "EiB"@,
            Prefix::Zetta => "ZiB"@,
            Prefix::Yotta => "YiB"@,
            Prefix::Ronna => "RiB"@,
            Prefix::Quetta => "QiB"@,
        },
    }
}

fn storage_symbol(p: Prefix, base: Base) -> (r: &'static str)
    ensures
        r@ == storage_symbol_spec(p, base),
{
    match base {
        Base::Decimal => match p {
            Prefix::Plain => "B",
            Prefix::Kilo => "kB",
            Prefix::Mega => "MB",
            Prefix::Giga => "GB",
            Prefix::Tera => "TB",
            Prefix::Peta => "PB",
            Prefix::Exa => "EB",
            Prefix::Zetta => "ZB",
            Prefix::Yotta => "YB",
            Prefix::Ronna => "RB",
            Prefix::Quetta => "QB",
        },
        Base::Binary => match p {
            Prefix::Plain => "B",
            Prefix::Kilo => "KiB",
            Prefix::Mega => "MiB",
            Prefix::Giga => "GiB",
            Prefix::Tera => "TiB",
            Prefix::Peta => "PiB",
            Prefix::Exa => "EiB",
            Prefix::Zetta => "ZiB",
            Prefix::Yotta => "YiB",
            Prefix::Ronna => "RiB",
            Prefix::Quetta => "QiB",
        },
    }
}

/// The transfer-rate symbol of each prefix, for byte rates and bit rates.
pub open spec fn speed_symbol_spec(p: Prefix, base: Base, bits: bool) -> Seq<char> {
    if bits {
        match base {
            Base::Decimal => match p {
                Prefix::Plain => "b/s"@,
                Prefix::Kilo => "kb/s"@,
                Prefix::Mega => "Mb/s"@,
                Prefix::Giga => "Gb/s"@,
                Prefix::Tera => "Tb/s"@,
                Prefix::Peta => "Pb/s"@,
                Prefix::Exa => "Eb/s"@,
                Prefix::Zetta => "Zb/s"@,
                Prefix::Yotta => "Yb/s"@,
                Prefix::Ronna => "Rb/s"@,
                Prefix::Quetta => "Qb/s"@,
            },
            Base::Binary => match p {
                Prefix::Plain => "b/s"@,
                Prefix::Kilo => "Kib/s"@,
                Prefix::Mega => "Mib/s"@,
                Prefix::Giga => "Gib/s"@,
                Prefix::Tera => "Tib/s"@,
                Prefix::Peta => "Pib/s"@,
                Prefix::Exa => "Eib/s"@,
                Prefix::Zetta => "Zib/s"@,
                Prefix::Yotta => "Yib/s"@,
                Prefix::Ronna => "Rib/s"@,
                Prefix::Quetta => "Qib/s"@,
            },
        }
    } else {
        match base {
            Base::Decimal => match p {
                Prefix::Plain => "B/s"@,
                Prefix::Kilo => "kB/s"@,
                Prefix::Mega => "MB/s"@,
                Prefix::Giga => "GB/s"@,
                Prefix::Tera => "TB/s"@,
                Prefix::Peta => "PB/s"@,
                Prefix::Exa => "EB/s"@,
                Prefix::Zetta => "ZB/s"@,
                Prefix::Yotta => "YB/s"@,
                Prefix::Ronna => "RB/s"@,
                Prefix::Quetta => "QB/s"@,
            },
            Base::Binary => match p {
                Prefix::Plain => "B/s"@,
                Prefix::Kilo => "KiB/s"@,
                Prefix::Mega => "MiB/s"@,
                Prefix::Giga => "GiB/s"@,
                Prefix::Tera => "TiB/s"@,
                Prefix::Peta => "PiB/s"@,
                Prefix::Exa => "EiB/s"@,
                Prefix::Zetta => "ZiB/s"@,
                Prefix::Yotta => "YiB/s"@,
                Prefix::Ronna => "RiB/s"@,
                Prefix::Quetta => "QiB/s"@,
            },
        }
    }
}

fn speed_symbol(p: Prefix, base: Base, bits: bool) -> (r: &'static str)
    ensures
        r@ == speed_symbol_spec(p, base, bits),
{
    if bits {
        match base {
            Base::Decimal => match p {
                Prefix::Plain => "b/s",
                Prefix::Kilo => "kb/s",
                Prefix::Mega => "Mb/s",
                Prefix::Giga => "Gb/s",
                Prefix::Tera => "Tb/s",
                Prefix::Peta => "Pb/s",
                Prefix::Exa => "Eb/s",
                Prefix::Zetta => "Zb/s",
                Prefix::Yotta => "Yb/s",
                Prefix::Ronna => "Rb/s",
                Prefix::Quetta => "Qb/s",
            },
            Base::Binary => match p {
                Prefix::Plain => "b/s",
                Prefix::Kilo => "Kib/s",
                Prefix::Mega => "Mib/s",
                Prefix::Giga => "Gib/s",
                Prefix::Tera => "Tib/s",
                Prefix::Peta => "Pib/s",
                Prefix::Exa => "Eib/s",
                Prefix::Zetta => "Zib/s",
                Prefix::Yotta => "Yib/s",
                Prefix::Ronna => "Rib/s",
                Prefix::Quetta => "Qib/s",
            },
        }
    } else {
        match base {
            Base::Decimal => match p {
                Prefix::Plain => "B/s",
                Prefix::Kilo => "kB/s",
                Prefix::Mega => "MB/s",
                Prefix::Giga => "GB/s",
                Prefix::Tera => "TB/s",
                Prefix::Peta => "PB/s",
                Prefix::Exa => "EB/s",
                Prefix::Zetta => "ZB/s",
                Prefix::Yotta => "YB/s",
                Prefix::Ronna => "RB/s",
                Prefix::Quetta => "QB/s",
            },
            Base::Binary => match p {
                Prefix::Plain => "B/s",
                Prefix::Kilo => "KiB/s",
                Prefix::Mega => "MiB/s",
                Prefix::Giga => "GiB/s",
                Prefix::Tera => "TiB/s",
                Prefix::Peta => "PiB/s",
                Prefix::Exa => "EiB/s",
                Prefix::Zetta => "ZiB/s",
                Prefix::Yotta => "YiB/s",
                Prefix::Ronna => "RiB/s",
                Prefix::Quetta => "QiB/s",
            },
        }
    }
}

/// The frequency symbol of each prefix; frequencies always scale decimally.
pub open spec fn frequency_symbol_spec(p: Prefix) -> Seq<char> {
    match p {
        Prefix::Plain => "Hz"@,
        Prefix::Kilo => "kHz"@,
        Prefix::Mega => "MHz"@,
        Prefix::Giga => "GHz"@,
        Prefix::Tera => "THz"@,
        Prefix::Peta => "PHz"@,
        Prefix::Exa => "EHz"@,
        Prefix::Zetta => "ZHz"@,
        Prefix::Yotta => "YHz"@,
        Prefix::Ronna => "RHz"@,
        Prefix::Quetta => "QHz"@,
    }
}

fn frequency_symbol(p: Prefix) -> (r: &'static str)
    ensures
        r@ == frequency_symbol_spec(p),
{
    match p {
        Prefix::Plain => "Hz",
        Prefix::Kilo => "kHz",
        Prefix::Mega => "MHz",
        Prefix::Giga => "GHz",
        Prefix::Tera => "THz",
        Prefix::Peta => "PHz",
        Prefix::Exa => "EHz",
        Prefix::Zetta => "ZHz",
        Prefix::Yotta => "YHz",
        Prefix::Ronna => "RHz",
        Prefix::Quetta => "QHz",
    }
}

/// The power symbol of each prefix; power always scales decimally.
pub open spec fn power_symbol_spec(p: Prefix) -> Seq<char> {
    match p {
        Prefix::Plain => "W"@,
        Prefix::Kilo => "kW"@,
        Prefix::Mega => "MW"@,
        Prefix::Giga => "GW"@,
        Prefix::Tera => "TW"@,
        Prefix::Peta => "PW"@,
        Prefix::Exa => "EW"@,
        Prefix::Zetta => "ZW"@,
        Prefix::Yotta => "YW"@,
        Prefix::Ronna => "RW"@,
        Prefix::Quetta => "QW"@,
    }
}

fn power_symbol(p: Prefix) -> (r: &'static str)
    ensures
        r@ == power_symbol_spec(p),
{
    match p {
        Prefix::Plain => "W",
        Prefix::Kilo => "kW",
        Prefix::Mega => "MW",
        Prefix::Giga => "GW",
        Prefix::Tera => "TW",
        Prefix::Peta => "PW",
        Prefix::Exa => "EW",
        Prefix::Zetta => "ZW",
        Prefix::Yotta => "YW",
        Prefix::Ronna => "RW",
        Prefix::Quetta => "QW",
    }
}

/// The scaled centi value a magnitude reaches in the chosen base.
pub open spec fn magnitude_centi(amount: nat, base: Base) -> nat {
    round_milli_to_centi(scaled_milli(amount * 1000, base_value(base) as nat, 10))
}

/// The prefix a magnitude reaches in the chosen base.
pub open spec fn magnitude_prefix(amount: nat, base: Base) -> Prefix {
    prefix_from_index_spec(scale_steps(amount * 1000, base_value(base) as nat, 10) as int)
}

/// The numeric part of a scaled quantity: whole units when rounding is asked
/// for or when no prefix applies, two decimal places otherwise.
pub open spec fn scaled_number_seq(c: nat, p: Prefix, integer: bool) -> Seq<char> {
    if integer || p == Prefix::Plain {
        dec_seq(round_centi(c))
    } else {
        two_dec_seq(c)
    }
}

/// The display string for a byte count.
pub open spec fn convert_storage_spec(bytes: nat, integer: bool, base: Base) -> Seq<char> {
    scaled_number_seq(magnitude_centi(bytes, base), magnitude_prefix(bytes, base), integer)
        + seq![' '] + storage_symbol_spec(magnitude_prefix(bytes, base), base)
}

/// Renders a byte count scaled to its largest prefix, rounded to whole units
/// in integer mode and to two decimal places otherwise; an unprefixed value
/// is always rounded to whole bytes.
pub fn convert_storage(bytes: u64, integer: bool, base: Base) -> (r: String)
    ensures
        r@ == convert_storage_spec(bytes as nat, integer, base),
{
    let (c, p) = to_largest_prefix(bytes, base);
    let num = if integer || p == Prefix::Plain {
        u64_dec_string(round_centi_u64(c))
    } else {
        two_dec_string(c)
    };
    let spaced = num.concat(" ");
    let r = spaced.concat(storage_symbol(p, base));
    proof {
        reveal_strlit(" ");
        assert(r@ =~= convert_storage_spec(bytes as nat, integer, base));
    }
    r
}

/// The display string for a transfer rate given in bytes per second.
pub open spec fn convert_speed_spec(
    bytes_per_second: nat,
    network: bool,
    base: Base,
    network_bits: bool,
) -> Seq<char> {
    let bits = network && network_bits;
    let amount = if bits {
        bytes_per_second * 8
    } else {
        bytes_per_second
    };
    scaled_number_seq(magnitude_centi(amount, base), magnitude_prefix(amount, base), false)
        + seq![' '] + speed_symbol_spec(magnitude_prefix(amount, base), base, bits)
}

/// Renders a transfer rate; a network rate is shown in bits per second when
/// the configuration asks for bits.
pub fn convert_speed(bytes_per_second: u64, network: bool, base: Base, network_bits: bool) -> (r:
    String)
    requires
        network && network_bits ==> bytes_per_second * 8 <= u64::MAX,
    ensures
        r@ == convert_speed_spec(bytes_per_second as nat, network, base, network_bits),
{
    let bits = network && network_bits;
    let amount = if bits {
        bytes_per_second * 8
    } else {
        bytes_per_second
    };
    let (c, p) = to_largest_prefix(amount, base);
    let num = if p == Prefix::Plain {
        u64_dec_string(round_centi_u64(c))
    } else {
        two_dec_string(c)
    };
    let spaced = num.concat(" ");
    let r = spaced.concat(speed_symbol(p, base, bits));
    proof {
        reveal_strlit(" ");
        assert(r@ =~= convert_speed_spec(bytes_per_second as nat, network, base, network_bits));
    }
    r
}

/// The display string for a frequency in hertz: an unprefixed value is
/// rounded to whole hertz, a prefixed one takes two decimal places.
pub open spec fn convert_frequency_spec(hertz: nat) -> Seq<char> {
    scaled_number_seq(
        magnitude_centi(hertz, Base::Decimal),
        magnitude_prefix(hertz, Base::Decimal),
        false,
    ) + seq![' '] + frequency_symbol_spec(magnitude_prefix(hertz, Base::Decimal))
}

/// Renders a frequency scaled decimally.
pub fn convert_frequency(hertz: u64) -> (r: String)
    ensures
        r@ == convert_frequency_spec(hertz as nat),
{
    let (c, p) = to_largest_prefix(hertz, Base::Decimal);
    let num = if p == Prefix::Plain {
        u64_dec_string(round_centi_u64(c))
    } else {
        two_dec_string(c)
    };
    let spaced = num.concat(" ");
    let r = spaced.concat(frequency_symbol(p));
    proof {
        reveal_strlit(" ");
        assert(r@ =~= convert_frequency_spec(hertz as nat));
    }
    r
}

/// The display string for a power draw given in hundredths of a watt: an
/// unprefixed value is rounded to whole watts, a prefixed one takes two
/// decimal places.
pub open spec fn convert_power_spec(centi_watts: nat) -> Seq<char> {
    let c = round_milli_to_centi(scaled_milli(centi_watts * 10, 1000, 10));
    let p = prefix_from_index_spec(scale_steps(centi_watts * 10, 1000, 10) as int);
    scaled_number_seq(c, p, false) + seq![' '] + power_symbol_spec(p)
}

/// Renders a power draw scaled decimally.
pub fn convert_power(centi_watts: u64) -> (r: String)
    ensures
        r@ == convert_power_spec(centi_watts as nat),
{
    let (c, p) = scale_centi_value(centi_watts, Base::Decimal);
    let num = if p == Prefix::Plain {
        u64_dec_string(round_centi_u64(c))
    } else {
        two_dec_string(c)
    };
    let spaced = num.concat(" ");
    let r = spaced.concat(power_symbol(p));
    proof {
        reveal_strlit(" ");
        assert(r@ =~= convert_power_spec(centi_watts as nat));
    }
    r
}

/// Integer division truncated toward zero, for a positive divisor.
pub open spec fn div_trunc(a: int, b: int) -> int {
    if a >= 0 {
        a / b
    } else {
        -((-a) / b)
    }
}

/// A signed centi value rounded half away from zero to whole units.
pub open spec fn round_centi_signed(x: int) -> int {
    if x >= 0 {
        (x + 50) / 100
    } else {
        -((-x + 50) / 100)
    }
}

/// A temperature in hundredths of a degree Celsius, as hundredths of a
/// kelvin: the zero point shifts by 273.15.
pub open spec fn kelvin_centi(c: int) -> int {
    c + 27315
}

/// A temperature in hundredths of a degree Celsius, as hundredths of a
/// degree Fahrenheit: scaled by nine fifths and shifted by 32.
pub open spec fn fahrenheit_centi(c: int) -> int {
    div_trunc(9 * c, 5) + 3200
}

/// Converts hundredths of a degree Celsius to hundredths of a kelvin.
pub fn celsius_to_kelvin(centi_celsius: i64) -> (r: i64)
    requires
        centi_celsius <= i64::MAX - 27315,
    ensures
        r == kelvin_centi(centi_celsius as int),
{
    centi_celsius + 27315
}

/// Converts hundredths of a degree Celsius to hundredths of a degree
/// Fahrenheit.
pub fn celsius_to_fahrenheit(centi_celsius: i64) -> (r: i64)
    requires
        -(i64::MAX / 9) <= centi_celsius <= i64::MAX / 9,
    ensures
        r == fahrenheit_centi(centi_celsius as int),
{
    let p: i64 = 9 * centi_celsius;
    let q: i64 = if p >= 0 {
        p / 5
    } else {
        -((-p) / 5)
    };
    q + 3200
}

/// The display string for a temperature given in hundredths of a degree
/// Celsius: converted to the configured unit, rounded half away from zero to
/// whole degrees.
pub open spec fn convert_temperature_spec(centi_celsius: int, unit: TemperatureUnit) -> Seq<char> {
    match unit {
        TemperatureUnit::Celsius => int_dec_seq(round_centi_signed(centi_celsius)) + seq![' ']
            + "°C"@,
        TemperatureUnit::Kelvin => int_dec_seq(round_centi_signed(kelvin_centi(centi_celsius)))
            + seq![' '] + "K"@,
        TemperatureUnit::Fahrenheit => int_dec_seq(
            round_centi_signed(fahrenheit_centi(centi_celsius)),
        ) + seq![' '] + "°F"@,
    }
}

fn round_centi_i128(x: i128) -> (r: i128)
    requires
        -0x7fff_ffff_ffff_ffff_ffff <= x <= 0x7fff_ffff_ffff_ffff_ffff,
    ensures
        r == round_centi_signed(x as int),
{
    if x >= 0 {
        (x + 50) / 100
    } else {
        -((-x + 50) / 100)
    }
}

/// Renders a temperature in the configured unit.
pub fn convert_temperature(centi_celsius: i64, unit: TemperatureUnit) -> (r: String)
    ensures
        r@ == convert_temperature_spec(centi_celsius as int, unit),
{
    let wide: i128 = centi_celsius as i128;
    let (degrees, symbol): (i128, &'static str) = match unit {
        TemperatureUnit::Celsius => (round_centi_i128(wide), "°C"),
        TemperatureUnit::Kelvin => (round_centi_i128(wide + 27315), "K"),
        TemperatureUnit::Fahrenheit => {
            let p: i128 = 9 * wide;
            let q: i128 = if p >= 0 {
                p / 5
            } else {
                -((-p) / 5)
            };
            (round_centi_i128(q + 3200), "°F")
        },
    };
    let num = i64_dec_string(degrees as i64);
    let spaced = num.concat(" ");
    let r = spaced.concat(symbol);
    proof {
        reveal_strlit(" ");
        assert(r@ =~= convert_temperature_spec(centi_celsius as int, unit));
    }
    r
}

} // verus!

