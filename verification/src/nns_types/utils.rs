//! Amounts of ICP and the subaccount of a neuron's stake.
use vstd::prelude::*;
use vstd::string::*;
use crate::principal::Principal;

verus! {

/// The number of decimal places of an amount.
pub const DECIMAL_PLACES: u32 = 8;

/// The number of e8s in one ICP.
pub const ICP_SUBDIVIDABLE_BY: u64 = 100_000_000;

/// An amount of ICP, held as its number of e8s, the hundred-millionths of
/// one ICP.
#[derive(Clone, Copy, Debug, PartialEq, Eq, Structural)]
pub struct ICPTs {
    pub e8s: u64,
}

/// Why an amount cannot be had.
#[derive(Clone, Copy, Debug, PartialEq, Eq, Structural)]
pub enum AmountError {
    /// The text is no decimal number.
    NotADecimal,
    /// The number has more than eight decimal places.
    TooManyDecimalPlaces,
    /// The number is negative.
    Negative,
    /// There are a hundred million e8s or more beside the whole ICP.
    TooManyE8s,
    /// The amount does not fit into 64 bits of e8s.
    Overflow,
}

/// A decimal number as it was read: its sign, its digits as one integer, and
/// the number of those digits that stand behind the point.
#[derive(Clone, Copy, Debug, PartialEq, Eq, Structural)]
pub struct DecimalParts {
    pub negative: bool,
    pub mantissa: i128,
    pub scale: u32,
}

/// The decimal number that a text denotes, if it denotes one.
pub uninterp spec fn decimal_of_text(text: Seq<char>) -> Option<DecimalParts>;

/// `rust_decimal::Decimal::from_str`, with the number given by
/// `is_sign_negative`, `mantissa` and `scale`: whether a text denotes a
/// number, and which, depends on the text alone.
#[verifier::external_body]
fn parse_decimal(text: &str) -> (r: Option<DecimalParts>)
    ensures
        r == decimal_of_text(text@),
{
    match <rust_decimal::Decimal as std::str::FromStr>::from_str(text) {
        Ok(d) => Some(
            DecimalParts { negative: d.is_sign_negative(), mantissa: d.mantissa(), scale: d.scale() },
        ),
        Err(_) => None,
    }
}

/// Ten to the power `n`.
pub open spec fn pow10(n: nat) -> nat
    decreases n,
{
    if n == 0 {
        1
    } else {
        10 * pow10((n - 1) as nat)
    }
}

/// The powers of ten up to the eighth.
pub proof fn lemma_pow10_values()
    ensures
        pow10(0) == 1,
        pow10(1) == 10,
        pow10(2) == 100,
        pow10(3) == 1_000,
        pow10(4) == 10_000,
        pow10(5) == 100_000,
        pow10(6) == 1_000_000,
        pow10(7) == 10_000_000,
        pow10(8) == 100_000_000,
{
    reveal_with_fuel(pow10, 10);
}

/// Ten to the power `n`, for `n` up to eight.
pub fn power_of_ten(n: u32) -> (r: u64)
    requires
        n <= DECIMAL_PLACES,
    ensures
        r == pow10(n as nat),
        1 <= r <= ICP_SUBDIVIDABLE_BY,
{
    proof {
        lemma_pow10_values();
    }
    if n == 0 {
        1
    } else if n == 1 {
        10
    } else if n == 2 {
        100
    } else if n == 3 {
        1_000
    } else if n == 4 {
        10_000
    } else if n == 5 {
        100_000
    } else if n == 6 {
        1_000_000
    } else if n == 7 {
        10_000_000
    } else {
        100_000_000
    }
}

/// The amount of `icpts` whole ICP and `e8s` e8s, or why there is none.
pub open spec fn amount_of(icpts: int, e8s: int) -> Result<ICPTs, AmountError> {
    if icpts * ICP_SUBDIVIDABLE_BY > u64::MAX {
        Err(AmountError::Overflow)
    } else if e8s >= ICP_SUBDIVIDABLE_BY {
        Err(AmountError::TooManyE8s)
    } else if icpts * ICP_SUBDIVIDABLE_BY + e8s > u64::MAX {
        Err(AmountError::Overflow)
    } else {
        Ok(ICPTs { e8s: (icpts * ICP_SUBDIVIDABLE_BY + e8s) as u64 })
    }
}

/// The amount that a decimal number stands for, or why it stands for none:
/// the digits before the point count whole ICP, and those behind it, of
/// which there may be eight at most, count e8s.
pub open spec fn amount_of_decimal(d: DecimalParts) -> Result<ICPTs, AmountError> {
    let digits = d.mantissa as int;
    let unit = pow10(d.scale as nat) as int;
    if d.scale > DECIMAL_PLACES {
        Err(AmountError::TooManyDecimalPlaces)
    } else if d.negative || digits < 0 {
        Err(AmountError::Negative)
    } else if digits / unit > u64::MAX {
        Err(AmountError::Overflow)
    } else {
        amount_of(digits / unit, (digits % unit) * pow10((DECIMAL_PLACES - d.scale) as nat))
    }
}

/// The amount that an optional decimal number stands for.
pub open spec fn amount_of_parsed(d: Option<DecimalParts>) -> Result<ICPTs, AmountError> {
    match d {
        Some(parts) => amount_of_decimal(parts),
        None => Err(AmountError::NotADecimal),
    }
}

impl ICPTs {
    /// The amount of `icpts` whole ICP and `e8s` e8s. It is refused where
    /// there are a hundred million e8s or more, and where the whole does not
    /// fit into 64 bits of e8s.
    pub fn new(icpts: u64, e8s: u64) -> (r: Result<ICPTs, AmountError>)
        ensures
            r == amount_of(icpts as int, e8s as int),
    {
        let icp_part = match icpts.checked_mul(ICP_SUBDIVIDABLE_BY) {
            Some(v) => v,
            None => {
                return Err(AmountError::Overflow);
            },
        };
        if e8s >= ICP_SUBDIVIDABLE_BY {
            return Err(AmountError::TooManyE8s);
        }
        match icp_part.checked_add(e8s) {
            Some(total) => Ok(ICPTs { e8s: total }),
            None => Err(AmountError::Overflow),
        }
    }

    /// The amount of `icpts` whole ICP.
    pub fn from_icpts(icpts: u64) -> (r: Result<ICPTs, AmountError>)
        ensures
            r == amount_of(icpts as int, 0),
    {
        ICPTs::new(icpts, 0)
    }

    /// The amount of `e8s` e8s.
    pub fn from_e8s(e8s: u64) -> (r: ICPTs)
        ensures
            r.e8s == e8s,
    {
        ICPTs { e8s }
    }

    /// The sum of two amounts, refused where it does not fit into 64 bits of
    /// e8s.
    pub fn checked_add(&self, other: &ICPTs) -> (r: Result<ICPTs, AmountError>)
        ensures
            self.e8s + other.e8s <= u64::MAX ==> r == Ok::<ICPTs, AmountError>(
                ICPTs { e8s: (self.e8s + other.e8s) as u64 },
            ),
            self.e8s + other.e8s > u64::MAX ==> r == Err::<ICPTs, AmountError>(
                AmountError::Overflow,
            ),
    {
        match self.e8s.checked_add(other.e8s) {
            Some(total) => Ok(ICPTs { e8s: total }),
            None => Err(AmountError::Overflow),
        }
    }
}

/// The amount that a decimal number stands for.
pub fn icpts_from_decimal(d: Option<DecimalParts>) -> (r: Result<ICPTs, AmountError>)
    ensures
        r == amount_of_parsed(d),
{
    let d = match d {
        Some(d) => d,
        None => {
            return Err(AmountError::NotADecimal);
        },
    };
    if d.scale > DECIMAL_PLACES {
        return Err(AmountError::TooManyDecimalPlaces);
    }
    if d.negative || d.mantissa < 0 {
        return Err(AmountError::Negative);
    }
    let unit: u64 = power_of_ten(d.scale);
    let fill: u64 = power_of_ten(DECIMAL_PLACES - d.scale);
    let whole: i128 = d.mantissa / (unit as i128);
    let fraction: i128 = d.mantissa % (unit as i128);
    if whole > u64::MAX as i128 {
        return Err(AmountError::Overflow);
    }
    proof {
        lemma_pow10_values();
        assert(0 <= fraction < unit);
        assert(fraction * fill <= 100_000_000 * 100_000_000) by (nonlinear_arith)
            requires
                0 <= fraction < 100_000_000,
                0 <= fill <= 100_000_000,
        ;
        assert(0 <= fraction * fill) by (nonlinear_arith)
            requires
                0 <= fraction,
                0 <= fill,
        ;
    }
    let e8s: i128 = fraction * (fill as i128);
    ICPTs::new(whole as u64, e8s as u64)
}

/// The amount that a text denotes: a decimal number of ICP with at most
/// eight decimal places.
pub fn icpts_from_str(s: &str) -> (r: Result<ICPTs, AmountError>)
    ensures
        r == amount_of_parsed(decimal_of_text(s@)),
{
    icpts_from_decimal(parse_decimal(s))
}

/// The words before the text in the message of `icpts_amount_validator`.
pub open spec fn validator_message(icpts: Seq<char>) -> Seq<char> {
    "Could not convert "@ + icpts + " to ICP type"@
}

/// Accepts a text exactly where it denotes an amount, and says of any other
/// that it could not be converted.
pub fn icpts_amount_validator(icpts: &str) -> (r: Result<(), String>)
    ensures
        r is Ok <==> amount_of_parsed(decimal_of_text(icpts@)) is Ok,
        r matches Err(m) ==> m@ == validator_message(icpts@),
{
    match icpts_from_str(icpts) {
        Ok(_) => Ok(()),
        Err(_) => {
            let mut message = String::from_str("Could not convert ");
            message.append(icpts);
            message.append(" to ICP type");
            Err(message)
        },
    }
}

/// The amount that the arguments of a command denote: the text where there
/// is one, and otherwise the sum of the whole ICP and the e8s that are
/// there.
pub open spec fn amount_of_args(
    amount: Option<Seq<char>>,
    icp: Option<u64>,
    e8s: Option<u64>,
) -> Result<ICPTs, AmountError> {
    match amount {
        Some(text) => amount_of_parsed(decimal_of_text(text)),
        None => {
            let whole = match icp {
                Some(v) => amount_of(v as int, 0),
                None => Ok(ICPTs { e8s: 0 }),
            };
            let part: u64 = match e8s {
                Some(v) => v,
                None => 0,
            };
            match whole {
                Err(e) => Err(e),
                Ok(w) => if w.e8s + part > u64::MAX {
                    Err(AmountError::Overflow)
                } else {
                    Ok(ICPTs { e8s: (w.e8s + part) as u64 })
                },
            }
        },
    }
}

/// The amount that the arguments of a command denote.
pub fn get_icpts_from_args(amount: Option<String>, icp: Option<u64>, e8s: Option<u64>) -> (r:
    Result<ICPTs, AmountError>)
    ensures
        r == amount_of_args(crate::message::optional_text(amount), icp, e8s),
{
    match amount {
        None => {
            let whole = match icp {
                Some(v) => match ICPTs::from_icpts(v) {
                    Ok(w) => w,
                    Err(e) => {
                        return Err(e);
                    },
                },
                None => ICPTs::from_e8s(0),
            };
            let part = match e8s {
                Some(v) => ICPTs::from_e8s(v),
                None => ICPTs::from_e8s(0),
            };
            whole.checked_add(&part)
        },
        Some(text) => icpts_from_str(text.as_str()),
    }
}

/// The memo of a transfer: the number that tells the stakes of one
/// controller apart.
#[derive(Clone, Copy, Debug, PartialEq, Eq, Structural)]
pub struct Memo(pub u64);

/// A subaccount: the 32 bytes that single out one account of a principal.
#[derive(Clone, Copy, Debug)]
pub struct Subaccount(pub [u8; 32]);

/// The SHA-256 digest of a byte string.
pub uninterp spec fn sha256(data: Seq<u8>) -> Seq<u8>;

/// `openssl::sha::sha256`: the digest depends on the data alone.
#[verifier::external_body]
fn sha256_digest(data: &Vec<u8>) -> (digest: [u8; 32])
    ensures
        digest@ == sha256(data@),
{
    openssl::sha::sha256(data.as_slice())
}

/// The eight bytes of a number, the most significant first.
pub open spec fn be_bytes(n: u64) -> Seq<u8> {
    seq![
        (n as int / 0x100_0000_0000_0000) as u8,
        (n as int / 0x1_0000_0000_0000 % 256) as u8,
        (n as int / 0x100_0000_0000 % 256) as u8,
        (n as int / 0x1_0000_0000 % 256) as u8,
        (n as int / 0x100_0000 % 256) as u8,
        (n as int / 0x1_0000 % 256) as u8,
        (n as int / 0x100 % 256) as u8,
        (n as int % 256) as u8,
    ]
}

/// The bytes of the words `neuron-stake`.
pub open spec fn neuron_stake_tag() -> Seq<u8> {
    seq![110u8, 101u8, 117u8, 114u8, 111u8, 110u8, 45u8, 115u8, 116u8, 97u8, 107u8, 101u8]
}

/// What is hashed to the subaccount of a stake: the length of the tag, the
/// tag `neuron-stake`, the bytes of the controller, and the memo with its
/// most significant byte first.
pub open spec fn subaccount_preimage(memo: u64, controller: Seq<u8>) -> Seq<u8> {
    seq![12u8] + neuron_stake_tag() + controller + be_bytes(memo)
}

/// The eight bytes of a number, the most significant first.
pub fn to_be_bytes(n: u64) -> (r: Vec<u8>)
    ensures
        r@ == be_bytes(n),
{
    let mut r: Vec<u8> = Vec::new();
    r.push((n / 0x100_0000_0000_0000) as u8);
    r.push((n / 0x1_0000_0000_0000 % 256) as u8);
    r.push((n / 0x100_0000_0000 % 256) as u8);
    r.push((n / 0x1_0000_0000 % 256) as u8);
    r.push((n / 0x100_0000 % 256) as u8);
    r.push((n / 0x1_0000 % 256) as u8);
    r.push((n / 0x100 % 256) as u8);
    r.push((n % 256) as u8);
    assert(r@ =~= be_bytes(n));
    r
}

/// The bytes that are hashed to the subaccount of a stake.
pub fn governance_subaccount_preimage(memo: Memo, principal: &Principal) -> (r: Vec<u8>)
    ensures
        r@ == subaccount_preimage(memo.0, principal@),
{
    let mut r: Vec<u8> = vec![
        12u8,
        110u8,
        101u8,
        117u8,
        114u8,
        111u8,
        110u8,
        45u8,
        115u8,
        116u8,
        97u8,
        107u8,
        101u8,
    ];
    assert(r@ =~= seq![12u8] + neuron_stake_tag());
    let mut controller = principal.as_slice().clone();
    r.append(&mut controller);
    let mut tail = to_be_bytes(memo.0);
    r.append(&mut tail);
    assert(r@ =~= subaccount_preimage(memo.0, principal@));
    r
}

/// The subaccount of the governance canister that holds the stake which
/// the controller `principal` made under `memo`: the SHA-256 digest of the
/// tag, the controller and the memo.
pub fn get_governance_subaccount(memo: Memo, principal: &Principal) -> (r: Subaccount)
    ensures
        r.0@ == sha256(subaccount_preimage(memo.0, principal@)),
{
    let preimage = governance_subaccount_preimage(memo, principal);
    Subaccount(sha256_digest(&preimage))
}

} // verus!
