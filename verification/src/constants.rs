//! The runtime's money, time and fee constants.
use vstd::prelude::*;

verus! {

/// An amount of the native currency.
pub type Balance = u128;

/// A block number.
pub type BlockNumber = u32;

/// A time in milliseconds.
pub type Moment = u64;

/// A weight of an extrinsic.
pub type Weight = u64;

pub const DOLLARS: Balance = 1_000_000_000_000_000_000;

pub const CENTS: Balance = DOLLARS / 100;

pub const MILLICENTS: Balance = CENTS / 1_000;

pub const MICROCENTS: Balance = MILLICENTS / 1_000;

pub const ETHER: Balance = 1_000_000_000_000_000_000;

pub const MILLIETHER: Balance = 1_000_000_000_000_000;

pub const MICROETHER: Balance = 1_000_000_000_000;

pub const GWEI: Balance = 1_000_000_000;

pub const MWEI: Balance = 1_000_000;

pub const KWEI: Balance = 1_000;

pub const WEI: Balance = 1;

/// The deposit for storing `items` items of `bytes` bytes in all: fifteen
/// cents an item and six cents a byte.
pub fn deposit(items: u32, bytes: u32) -> (d: Balance)
    ensures
        d == items * 15 * CENTS + bytes * 6 * CENTS,
{
    items as Balance * 15 * CENTS + (bytes as Balance) * 6 * CENTS
}

pub const MILLISECS_PER_BLOCK: Moment = 6000;

pub const SLOT_DURATION: Moment = MILLISECS_PER_BLOCK;

/// Blocks in a minute.
pub const MINUTES: BlockNumber = 60_000 / (MILLISECS_PER_BLOCK as BlockNumber);

/// Blocks in an hour.
pub const HOURS: BlockNumber = MINUTES * 60;

/// Blocks in a day.
pub const DAYS: BlockNumber = HOURS * 24;

pub const EPOCH_DURATION_IN_BLOCKS: BlockNumber = 1 * HOURS;

/// One in four blocks (on average, not counting collisions) is a primary
/// BABE block.
pub const PRIMARY_PROBABILITY: (u64, u64) = (1, 4);

/// Parts per billion in one.
pub const PERBILL_ACCURACY: u32 = 1_000_000_000;

/// A fraction in parts per billion.
#[derive(Clone, Copy, Debug, PartialEq, Eq, Structural)]
pub struct Perbill {
    pub parts: u32,
}

/// `sp_arithmetic::Perbill::from_percent`: `min(x, 100)` percent, in parts
/// per billion.
#[verifier::external_body]
fn perbill_from_percent(x: u32) -> (parts: u32)
    ensures
        parts == (if x > 100 { 100 } else { x }) * 10_000_000,
{
    sp_arithmetic::Perbill::from_percent(x).deconstruct()
}

/// `sp_arithmetic::Perbill::from_rational` on `u128`: `p / q` rounded down
/// to parts per billion, or one when `q` is zero or `p` exceeds `q`.
#[verifier::external_body]
fn perbill_from_rational(p: u128, q: u128) -> (parts: u32)
    ensures
        q == 0 || p > q ==> parts == PERBILL_ACCURACY,
        q != 0 && p <= q ==> parts == (PERBILL_ACCURACY as int * p) / (q as int),
{
    sp_arithmetic::Perbill::from_rational(p, q).deconstruct()
}

impl Perbill {
    /// `x` percent, saturating at one hundred.
    pub fn from_percent(x: u32) -> (r: Perbill)
        ensures
            r.parts == (if x > 100 { 100 } else { x }) * 10_000_000,
    {
        Perbill { parts: perbill_from_percent(x) }
    }

    /// `p / q`, rounded down; one when `q` is zero or `p` exceeds `q`.
    pub fn from_rational(p: u128, q: u128) -> (r: Perbill)
        ensures
            q == 0 || p > q ==> r.parts == PERBILL_ACCURACY,
            q != 0 && p <= q ==> r.parts == (PERBILL_ACCURACY as int * p) / (q as int),
    {
        Perbill { parts: perbill_from_rational(p, q) }
    }
}

/// The block saturation level. Fees are updated based on this value.
pub fn target_block_fullness() -> (r: Perbill)
    ensures
        r.parts == 250_000_000,
{
    Perbill::from_percent(25)
}

/// A term `coeff * weight^degree` of the polynomial that maps a weight to a
/// fee; `coeff` is `coeff_integer + coeff_frac`, negated when `negative`.
#[derive(Clone, Copy, Debug, PartialEq, Eq, Structural)]
pub struct WeightToFeeCoefficient {
    pub coeff_integer: Balance,
    pub coeff_frac: Perbill,
    pub negative: bool,
    pub degree: u8,
}

/// Converts a weight to a fee, based on the scale and granularity of the
/// node's balance type.
pub struct WeightToFee;

impl WeightToFee {
    /// One linear term: the extrinsic base weight (the smallest non-zero
    /// weight) is charged a tenth of a cent.
    pub fn polynomial(extrinsic_base_weight: Weight) -> (p: Vec<WeightToFeeCoefficient>)
        requires
            extrinsic_base_weight > 0,
        ensures
            p@.len() == 1,
            p@[0].degree == 1,
            !p@[0].negative,
            p@[0].coeff_integer == CENTS as int / (10 * extrinsic_base_weight as int),
            p@[0].coeff_frac.parts == (PERBILL_ACCURACY as int * (CENTS as int % (10
                * extrinsic_base_weight as int))) / (10 * extrinsic_base_weight as int),
    {
        let p = CENTS;
        let q = 10 * (extrinsic_base_weight as Balance);
        proof {
            assert(p % q <= q) by (nonlinear_arith)
                requires
                    q > 0,
            ;
        }
        let coefficient = WeightToFeeCoefficient {
            degree: 1,
            negative: false,
            coeff_frac: Perbill::from_rational(p % q, q),
            coeff_integer: p / q,
        };
        vec![coefficient]
    }
}

} // verus!
