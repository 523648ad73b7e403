//! Allocation policy ("LAW") of a fixed-supply token and its validation.
//!
//! A policy fixes the supply and may add burn, lock, airdrop, vesting,
//! liquidity and percentage modules. Validation checks each module and that
//! everything the modules reserve fits in the supply.
use vstd::prelude::*;

verus! {

/// An account address, kept as its textual form.
pub type Address = String;

/// Amounts in token base units.
pub type UInt = u128;

/// Largest value of the unsigned 128-bit amounts.
pub const AMOUNT_MAX: u128 = 340282366920938463463374607431768211455;

/// Basis points that make up the whole supply.
pub const BPS_TOTAL: u128 = 10000;

/// The supply that the token is created with.
pub struct FixedSupply {
    pub amount: UInt,
}

/// The largest amount that may ever be burned.
pub struct BurnCap {
    pub cap: UInt,
}

/// A lock period, in seconds.
pub struct TimeLock {
    pub duration: UInt,
}

/// The same amount for each recipient.
pub struct Airdrop {
    pub recipients: Vec<Address>,
    pub amount: UInt,
}

/// The same vested amount for each recipient; times in seconds.
pub struct VestingSchedule {
    pub cliff: UInt,
    pub duration: UInt,
    pub recipients: Vec<Address>,
    pub amount: UInt,
}

/// An amount set aside for a liquidity destination (`pair`).
pub struct LiquidityBootstrap {
    pub pair: Address,
    pub amount: UInt,
}

/// A share of the supply, in basis points, for a group of recipients.
pub struct PercentageDistribution {
    pub percentage: UInt,
    pub recipients: Vec<Address>,
}

/// An issuance policy: the supply is required, every other module optional.
pub struct LawV1Schema {
    pub fixed_supply: FixedSupply,
    pub burn_cap: Option<BurnCap>,
    pub time_lock: Option<TimeLock>,
    pub airdrop: Option<Airdrop>,
    pub vesting_schedule: Option<VestingSchedule>,
    pub liquidity_bootstrap: Option<LiquidityBootstrap>,
    pub percentage_distributions: Vec<PercentageDistribution>,
}

/// Why a policy was refused.
#[derive(Clone, Copy, Debug, PartialEq, Eq, Structural)]
pub enum ValidationError {
    NonPositiveSupply,
    BurnCapExceedsSupply,
    NonPositiveDuration,
    EmptyRecipients,
    DuplicateRecipient,
    NonPositiveAmount,
    CliffExceedsDuration,
    ReservedOverflow,
    PercentageSumExceeded,
    AllocationExceedsSupply,
}

// ---------------------------------------------------------------------------
// Mathematical model
// ---------------------------------------------------------------------------

/// No address occurs twice in `s`.
pub open spec fn distinct(s: Seq<Address>) -> bool {
    forall|i: int, j: int| 0 <= i < j < s.len() ==> s[i]@ != s[j]@
}

/// The error of a recipient list, if any: empty or with a repeated address.
pub open spec fn recipients_error(s: Seq<Address>) -> Option<ValidationError> {
    if s.len() == 0 {
        Some(ValidationError::EmptyRecipients)
    } else if !distinct(s) {
        Some(ValidationError::DuplicateRecipient)
    } else {
        None
    }
}

/// Adds `x` to a running total, failing when it leaves the amount range.
pub open spec fn add_reserved(r: int, x: int) -> Result<int, ValidationError> {
    if r + x > AMOUNT_MAX {
        Err(ValidationError::ReservedOverflow)
    } else {
        Ok(r + x)
    }
}

/// The total reserved after the airdrop module.
pub open spec fn airdrop_stage(p: LawV1Schema) -> Result<int, ValidationError> {
    match p.airdrop {
        None => Ok(0),
        Some(ad) => if recipients_error(ad.recipients@) is Some {
            Err(recipients_error(ad.recipients@).unwrap())
        } else if ad.amount == 0 {
            Err(ValidationError::NonPositiveAmount)
        } else {
            add_reserved(0, ad.amount * ad.recipients@.len())
        },
    }
}

/// The total reserved after the vesting module, from the total `r` before it.
pub open spec fn vesting_stage(p: LawV1Schema, r: int) -> Result<int, ValidationError> {
    match p.vesting_schedule {
        None => Ok(r),
        Some(vs) => if recipients_error(vs.recipients@) is Some {
            Err(recipients_error(vs.recipients@).unwrap())
        } else if vs.amount == 0 {
            Err(ValidationError::NonPositiveAmount)
        } else if vs.duration == 0 {
            Err(ValidationError::NonPositiveDuration)
        } else if vs.cliff > vs.duration {
            Err(ValidationError::CliffExceedsDuration)
        } else if vs.amount * vs.recipients@.len() > AMOUNT_MAX {
            Err(ValidationError::ReservedOverflow)
        } else {
            add_reserved(r, vs.amount * vs.recipients@.len())
        },
    }
}

/// The total reserved after the liquidity module, from the total `r` before it.
pub open spec fn liquidity_stage(p: LawV1Schema, r: int) -> Result<int, ValidationError> {
    match p.liquidity_bootstrap {
        None => Ok(r),
        Some(lb) => if lb.amount == 0 {
            Err(ValidationError::NonPositiveAmount)
        } else {
            add_reserved(r, lb.amount as int)
        },
    }
}

/// Checks the distributions in order and sums their basis points.
pub open spec fn bps_scan(ds: Seq<PercentageDistribution>) -> Result<int, ValidationError>
    decreases ds.len(),
{
    if ds.len() == 0 {
        Ok(0)
    } else {
        match bps_scan(ds.drop_last()) {
            Err(e) => Err(e),
            Ok(s) => {
                let d = ds.last();
                if recipients_error(d.recipients@) is Some {
                    Err(recipients_error(d.recipients@).unwrap())
                } else if d.percentage > BPS_TOTAL {
                    Err(ValidationError::PercentageSumExceeded)
                } else {
                    add_reserved(s, d.percentage as int)
                }
            },
        }
    }
}

/// Plain sum of the basis points of the distributions.
pub open spec fn bps_sum(ds: Seq<PercentageDistribution>) -> int
    decreases ds.len(),
{
    if ds.len() == 0 {
        0
    } else {
        bps_sum(ds.drop_last()) + ds.last().percentage
    }
}

/// The share of `supply` that `bps` basis points give, rounded down.
pub open spec fn bps_share(supply: int, bps: int) -> int {
    (supply * bps) / (BPS_TOTAL as int)
}

/// What the explicit modules (airdrop, vesting, liquidity) reserve.
pub open spec fn explicit_reserved(p: LawV1Schema) -> int {
    (match p.airdrop {
        None => 0int,
        Some(ad) => ad.amount * ad.recipients@.len(),
    }) + (match p.vesting_schedule {
        None => 0int,
        Some(vs) => vs.amount * vs.recipients@.len(),
    }) + (match p.liquidity_bootstrap {
        None => 0int,
        Some(lb) => lb.amount as int,
    })
}

/// Everything the policy reserves: the explicit modules plus the
/// rounded-down percentage share of the supply.
pub open spec fn total_reserved(p: LawV1Schema) -> int {
    explicit_reserved(p) + bps_share(
        p.fixed_supply.amount as int,
        bps_sum(p.percentage_distributions@),
    )
}

/// The outcome of validating `p`: the checks in their order, each failing
/// with its own error, and every running total kept in the amount range.
pub open spec fn law_result(p: LawV1Schema) -> Result<(), ValidationError> {
    let supply = p.fixed_supply.amount as int;
    if supply == 0 {
        Err(ValidationError::NonPositiveSupply)
    } else if p.burn_cap is Some && p.burn_cap.unwrap().cap > supply {
        Err(ValidationError::BurnCapExceedsSupply)
    } else if p.time_lock is Some && p.time_lock.unwrap().duration == 0 {
        Err(ValidationError::NonPositiveDuration)
    } else {
        match airdrop_stage(p) {
            Err(e) => Err(e),
            Ok(r1) => match vesting_stage(p, r1) {
                Err(e) => Err(e),
                Ok(r2) => match liquidity_stage(p, r2) {
                    Err(e) => Err(e),
                    Ok(r3) => match bps_scan(p.percentage_distributions@) {
                        Err(e) => Err(e),
                        Ok(s) => if s > BPS_TOTAL {
                            Err(ValidationError::PercentageSumExceeded)
                        } else if supply * s > AMOUNT_MAX {
                            Err(ValidationError::ReservedOverflow)
                        } else if r3 + bps_share(supply, s) > AMOUNT_MAX {
                            Err(ValidationError::ReservedOverflow)
                        } else if r3 + bps_share(supply, s) > supply {
                            Err(ValidationError::AllocationExceedsSupply)
                        } else {
                            Ok(())
                        },
                    },
                },
            },
        }
    }
}

// ---------------------------------------------------------------------------
// Executable checks
// ---------------------------------------------------------------------------

/// True exactly when no address occurs twice in `accts`.
pub fn all_distinct(accts: &Vec<Address>) -> (r: bool)
    ensures
        r == distinct(accts@),
{
    let n = accts.len();
    let mut i: usize = 0;
    while i < n
        invariant
            n == accts@.len(),
            i <= n,
            forall|a: int, b: int| 0 <= a < b < i ==> accts@[a]@ != accts@[b]@,
        decreases n - i,
    {
        let mut j: usize = 0;
        while j < i
            invariant
                n == accts@.len(),
                j <= i < n,
                forall|a: int, b: int| 0 <= a < b < i ==> accts@[a]@ != accts@[b]@,
                forall|a: int| 0 <= a < j ==> accts@[a]@ != accts@[i as int]@,
            decreases i - j,
        {
            if accts[j] == accts[i] {
                return false;
            }
            j = j + 1;
        }
        i = i + 1;
    }
    true
}

/// A recipient list must be non-empty and free of repeated addresses.
pub fn check_recipients(accts: &Vec<Address>) -> (r: Result<(), ValidationError>)
    ensures
        r is Ok <==> recipients_error(accts@) is None,
        r is Err ==> r == Err::<(), ValidationError>(recipients_error(accts@).unwrap()),
{
    if accts.len() == 0 {
        return Err(ValidationError::EmptyRecipients);
    }
    if !all_distinct(accts) {
        return Err(ValidationError::DuplicateRecipient);
    }
    Ok(())
}

impl LawV1Schema {
    /// Validates the policy; every check is pure and the first failure is
    /// the one reported.
    pub fn validate(&self) -> (r: Result<(), ValidationError>)
        ensures
            r == law_result(*self),
            r is Ok ==> total_reserved(*self) <= self.fixed_supply.amount,
    {
        let supply: u128 = self.fixed_supply.amount;
        if supply == 0 {
            return Err(ValidationError::NonPositiveSupply);
        }
        if let Some(bc) = &self.burn_cap {
            if bc.cap > supply {
                return Err(ValidationError::BurnCapExceedsSupply);
            }
        }
        if let Some(tl) = &self.time_lock {
            if tl.duration == 0 {
                return Err(ValidationError::NonPositiveDuration);
            }
        }
        let mut reserved: u128 = 0;
        if let Some(ad) = &self.airdrop {
            if let Err(e) = check_recipients(&ad.recipients) {
                return Err(e);
            }
            if ad.amount == 0 {
                return Err(ValidationError::NonPositiveAmount);
            }
            let n = ad.recipients.len() as u128;
            let total = match ad.amount.checked_mul(n) {
                Some(t) => t,
                None => return Err(ValidationError::ReservedOverflow),
            };
            reserved = total;
        }
        assert(airdrop_stage(*self) == Ok::<int, ValidationError>(reserved as int));
        if let Some(vs) = &self.vesting_schedule {
            if let Err(e) = check_recipients(&vs.recipients) {
                return Err(e);
            }
            if vs.amount == 0 {
                return Err(ValidationError::NonPositiveAmount);
            }
            if vs.duration == 0 {
                return Err(ValidationError::NonPositiveDuration);
            }
            if vs.cliff > vs.duration {
                return Err(ValidationError::CliffExceedsDuration);
            }
            let n = vs.recipients.len() as u128;
            let total = match vs.amount.checked_mul(n) {
                Some(t) => t,
                None => return Err(ValidationError::ReservedOverflow),
            };
            reserved = match reserved.checked_add(total) {
                Some(t) => t,
                None => return Err(ValidationError::ReservedOverflow),
            };
        }
        let ghost r2 = reserved as int;
        assert(vesting_stage(*self, airdrop_stage(*self).unwrap()) == Ok::<int, ValidationError>(r2));
        if let Some(lb) = &self.liquidity_bootstrap {
            if lb.amount == 0 {
                return Err(ValidationError::NonPositiveAmount);
            }
            reserved = match reserved.checked_add(lb.amount) {
                Some(t) => t,
                None => return Err(ValidationError::ReservedOverflow),
            };
        }
        assert(liquidity_stage(*self, r2) == Ok::<int, ValidationError>(reserved as int));
        let sum_bps = match sum_percentages(&self.percentage_distributions) {
            Ok(s) => s,
            Err(e) => return Err(e),
        };
        if sum_bps > BPS_TOTAL {
            return Err(ValidationError::PercentageSumExceeded);
        }
        let scaled = match supply.checked_mul(sum_bps) {
            Some(t) => t,
            None => return Err(ValidationError::ReservedOverflow),
        };
        let pct_reserved = scaled / BPS_TOTAL;
        reserved = match reserved.checked_add(pct_reserved) {
            Some(t) => t,
            None => return Err(ValidationError::ReservedOverflow),
        };
        if reserved > supply {
            return Err(ValidationError::AllocationExceedsSupply);
        }
        proof {
            lemma_valid_policy_within_supply(*self);
        }
        Ok(())
    }
}

/// Once a prefix of the distributions fails, the whole list fails the same way.
proof fn lemma_scan_error_extends(ds: Seq<PercentageDistribution>, k: int)
    requires
        0 <= k <= ds.len(),
        bps_scan(ds.subrange(0, k)) is Err,
    ensures
        bps_scan(ds) == bps_scan(ds.subrange(0, k)),
    decreases ds.len(),
{
    if k == ds.len() {
        assert(ds.subrange(0, k) =~= ds);
    } else {
        assert(ds.drop_last().subrange(0, k) =~= ds.subrange(0, k));
        lemma_scan_error_extends(ds.drop_last(), k);
    }
}

/// Checks each distribution in turn and sums their basis points.
pub fn sum_percentages(ds: &Vec<PercentageDistribution>) -> (r: Result<u128, ValidationError>)
    ensures
        r is Ok <==> bps_scan(ds@) is Ok,
        r is Ok ==> r.unwrap() as int == bps_scan(ds@).unwrap(),
        r is Err ==> bps_scan(ds@) is Err && r->Err_0 == bps_scan(ds@)->Err_0,
{
    let mut sum_bps: u128 = 0;
    let mut i: usize = 0;
    while i < ds.len()
        invariant
            i <= ds@.len(),
            bps_scan(ds@.subrange(0, i as int)) == Ok::<int, ValidationError>(sum_bps as int),
        decreases ds@.len() - i,
    {
        let pd = &ds[i];
        assert(ds@.subrange(0, i + 1).drop_last() =~= ds@.subrange(0, i as int));
        if let Err(e) = check_recipients(&pd.recipients) {
            proof {
                lemma_scan_error_extends(ds@, i + 1);
            }
            return Err(e);
        }
        if pd.percentage > BPS_TOTAL {
            proof {
                lemma_scan_error_extends(ds@, i + 1);
            }
            return Err(ValidationError::PercentageSumExceeded);
        }
        sum_bps = match sum_bps.checked_add(pd.percentage) {
            Some(t) => t,
            None => {
                proof {
                    lemma_scan_error_extends(ds@, i + 1);
                }
                return Err(ValidationError::ReservedOverflow);
            },
        };
        i = i + 1;
    }
    assert(ds@.subrange(0, ds@.len() as int) =~= ds@);
    Ok(sum_bps)
}

// ---------------------------------------------------------------------------
// Laws
// ---------------------------------------------------------------------------

/// Every module passes its own checks (all but the range of the totals and
/// the final comparison with the supply).
pub open spec fn modules_well_formed(p: LawV1Schema) -> bool {
    &&& p.fixed_supply.amount > 0
    &&& (p.burn_cap is Some ==> p.burn_cap.unwrap().cap <= p.fixed_supply.amount)
    &&& (p.time_lock is Some ==> p.time_lock.unwrap().duration > 0)
    &&& (p.airdrop is Some ==> {
        let ad = p.airdrop.unwrap();
        recipients_error(ad.recipients@) is None && ad.amount > 0
    })
    &&& (p.vesting_schedule is Some ==> {
        let vs = p.vesting_schedule.unwrap();
        &&& recipients_error(vs.recipients@) is None
        &&& vs.amount > 0
        &&& vs.duration > 0
        &&& vs.cliff <= vs.duration
    })
    &&& (p.liquidity_bootstrap is Some ==> p.liquidity_bootstrap.unwrap().amount > 0)
    &&& distributions_well_formed(p.percentage_distributions@)
    &&& bps_sum(p.percentage_distributions@) <= BPS_TOTAL
}

/// Each distribution has valid recipients and at most the whole supply.
pub open spec fn distributions_well_formed(ds: Seq<PercentageDistribution>) -> bool {
    forall|i: int|
        0 <= i < ds.len() ==> #[trigger] recipients_error(ds[i].recipients@) is None
            && ds[i].percentage <= BPS_TOTAL
}

/// Some module lists one recipient twice.
pub open spec fn has_duplicate_recipient(p: LawV1Schema) -> bool {
    ||| (p.airdrop is Some && !distinct(p.airdrop.unwrap().recipients@))
    ||| (p.vesting_schedule is Some && !distinct(p.vesting_schedule.unwrap().recipients@))
    ||| exists|i: int|
        0 <= i < p.percentage_distributions@.len() && !distinct(
            #[trigger] p.percentage_distributions@[i].recipients@,
        )
}

proof fn lemma_scan_is_sum(ds: Seq<PercentageDistribution>)
    requires
        bps_scan(ds) is Ok,
    ensures
        bps_scan(ds)->Ok_0 == bps_sum(ds),
        bps_sum(ds) >= 0,
    decreases ds.len(),
{
    if ds.len() > 0 {
        lemma_scan_is_sum(ds.drop_last());
    }
}

proof fn lemma_scan_of_well_formed(ds: Seq<PercentageDistribution>)
    requires
        distributions_well_formed(ds),
        bps_sum(ds) <= AMOUNT_MAX,
    ensures
        bps_scan(ds) == Ok::<int, ValidationError>(bps_sum(ds)),
    decreases ds.len(),
{
    if ds.len() > 0 {
        let d = ds.drop_last();
        assert forall|i: int| 0 <= i < d.len() implies #[trigger] recipients_error(
            d[i].recipients@,
        ) is None && d[i].percentage <= BPS_TOTAL by {
            assert(d[i] == ds[i]);
            assert(recipients_error(ds[i].recipients@) is None);
        }
        assert(recipients_error(ds[ds.len() - 1].recipients@) is None);
        lemma_scan_of_well_formed(d);
    }
}

proof fn lemma_scan_error_at(ds: Seq<PercentageDistribution>, i: int)
    requires
        0 <= i < ds.len(),
        recipients_error(ds[i].recipients@) is Some,
    ensures
        bps_scan(ds) is Err,
{
    let pre = ds.subrange(0, i + 1);
    assert(pre.last() == ds[i]);
    if bps_scan(pre) is Ok {
        assert(bps_scan(pre.drop_last()) is Ok);
    }
    lemma_scan_error_extends(ds, i + 1);
}

/// A policy that validates reserves no more than its supply: the explicit
/// module totals plus the rounded-down percentage share fit in it.
pub proof fn lemma_valid_policy_within_supply(p: LawV1Schema)
    requires
        law_result(p) is Ok,
    ensures
        total_reserved(p) <= p.fixed_supply.amount,
{
    lemma_scan_is_sum(p.percentage_distributions@);
}

/// With every module well formed and the totals in range, a policy
/// validates exactly when what it reserves fits in its supply, and is
/// refused with `AllocationExceedsSupply` otherwise, even by one unit.
pub proof fn lemma_well_formed_policy_outcome(p: LawV1Schema)
    requires
        modules_well_formed(p),
        p.fixed_supply.amount * bps_sum(p.percentage_distributions@) <= AMOUNT_MAX,
        total_reserved(p) <= AMOUNT_MAX,
    ensures
        law_result(p) == (if total_reserved(p) <= p.fixed_supply.amount {
            Ok::<(), ValidationError>(())
        } else {
            Err(ValidationError::AllocationExceedsSupply)
        }),
{
    let supply = p.fixed_supply.amount as int;
    let ds = p.percentage_distributions@;
    let s = bps_sum(ds);
    lemma_scan_of_well_formed(ds);
    lemma_scan_is_sum(ds);
    assert(supply * s >= 0) by (nonlinear_arith)
        requires
            supply >= 0,
            s >= 0,
    ;
    assert(bps_share(supply, s) >= 0);
    if let Some(ad) = p.airdrop {
        let n = ad.recipients@.len() as int;
        assert(ad.amount * n >= 0) by (nonlinear_arith)
            requires
                ad.amount >= 0,
                n >= 0,
        ;
    }
    if let Some(vs) = p.vesting_schedule {
        let n = vs.recipients@.len() as int;
        assert(vs.amount * n >= 0) by (nonlinear_arith)
            requires
                vs.amount >= 0,
                n >= 0,
        ;
    }
}

/// A module that lists one recipient twice makes validation fail, whatever
/// the other fields hold.
pub proof fn lemma_duplicate_recipient_refused(p: LawV1Schema)
    requires
        has_duplicate_recipient(p),
    ensures
        law_result(p) is Err,
{
    if !(p.airdrop is Some && !distinct(p.airdrop.unwrap().recipients@)) && !(
    p.vesting_schedule is Some && !distinct(p.vesting_schedule.unwrap().recipients@)) {
        let i = choose|i: int|
            0 <= i < p.percentage_distributions@.len() && !distinct(
                #[trigger] p.percentage_distributions@[i].recipients@,
            );
        lemma_scan_error_at(p.percentage_distributions@, i);
    }
}

/// Distributions alone that share out exactly the whole supply validate, and
/// reserve exactly the supply: the rounded-down share loses nothing.
pub proof fn lemma_full_distribution_exact(p: LawV1Schema)
    requires
        p.fixed_supply.amount > 0,
        p.fixed_supply.amount * BPS_TOTAL <= AMOUNT_MAX,
        p.burn_cap is None,
        p.time_lock is None,
        p.airdrop is None,
        p.vesting_schedule is None,
        p.liquidity_bootstrap is None,
        forall|i: int|
            0 <= i < p.percentage_distributions@.len() ==> recipients_error(
                #[trigger] p.percentage_distributions@[i].recipients@,
            ) is None,
        bps_sum(p.percentage_distributions@) == BPS_TOTAL,
    ensures
        law_result(p) is Ok,
        total_reserved(p) == bps_share(p.fixed_supply.amount as int, BPS_TOTAL as int),
        total_reserved(p) == p.fixed_supply.amount,
{
    let ds = p.percentage_distributions@;
    lemma_sum_bounds_each(ds);
    lemma_well_formed_policy_outcome(p);
}

proof fn lemma_sum_bounds_each(ds: Seq<PercentageDistribution>)
    ensures
        forall|i: int| 0 <= i < ds.len() ==> #[trigger] ds[i].percentage <= bps_sum(ds),
        bps_sum(ds) >= 0,
    decreases ds.len(),
{
    if ds.len() > 0 {
        lemma_sum_bounds_each(ds.drop_last());
        assert forall|i: int| 0 <= i < ds.len() implies #[trigger] ds[i].percentage <= bps_sum(
            ds,
        ) by {
            if i < ds.len() - 1 {
                assert(ds.drop_last()[i] == ds[i]);
            }
        }
    }
}

} // verus!
