//! Inflation rebalancer ("OIM"): a fixed configuration and a mutable state
//! that an oracle feeds with index samples and that a rebalance call moves,
//! under cooldown and freshness gates, between three treasury weights.
//!
//! Storage, the clock and the caller's identity belong to the host: each
//! operation takes the current time and the caller as arguments, changes the
//! instance only when it succeeds, and returns the events it emits.
use vstd::prelude::*;
use crate::law::Address;

verus! {

/// Basis points that make up a whole.
pub const BPS_FULL: u32 = 10000;

/// The reweighting step used when the configuration sets none.
pub const DEFAULT_STEP_BPS: u32 = 100;

/// Keys of the two records that an instance keeps in host storage.
#[derive(Clone, Copy, Debug, PartialEq, Eq, Structural)]
pub enum OimStorageKey {
    Config,
    State,
}

/// One sample of the inflation index, stamped with the time it was posted.
pub struct InflationIndex {
    pub index_id: String,
    pub period: String,
    pub value_bps: u32,
    pub posted_at_sec: u64,
}

/// Where the inflation hurdle comes from.
#[derive(Clone, Copy, Debug, PartialEq, Eq, Structural)]
pub enum OimMode {
    Oracle,
    FixedHurdle,
}

/// The configuration, fixed once the instance is initialized.
pub struct OimConfig {
    pub mode: OimMode,
    /// Present exactly in `Oracle` mode.
    pub oracle_account: Option<Address>,
    /// Present exactly in `FixedHurdle` mode.
    pub fixed_hurdle_bps_annual: Option<u32>,
    pub measurement_window_days: u16,
    pub min_real_return_bps: i32,
    pub rebalance_cooldown_sec: u32,
    pub max_oracle_age_sec: u32,
    pub safety_cap_bps: u32,
    pub growth_cap_bps: u32,
    pub liquidity_cap_bps: u32,
    /// Largest move per rebalance; `DEFAULT_STEP_BPS` when absent.
    pub max_rebalance_step_bps: Option<u32>,
}

/// Health of the treasury against the hurdle.
#[derive(Clone, Copy, Debug, PartialEq, Eq, Structural)]
pub enum OimStatus {
    Healthy,
    Behind,
    OracleStale,
}

/// The mutable state of an instance.
pub struct OimState {
    pub last_index: Option<InflationIndex>,
    pub last_rebalance_at_sec: u64,
    pub real_return_score_bps: i32,
    pub status: OimStatus,
    pub safety_weight_bps: u32,
    pub growth_weight_bps: u32,
    pub liquidity_weight_bps: u32,
}

/// The configuration as one storage record.
pub struct OimConfigBorsh(pub OimConfig);

/// The state as one storage record.
pub struct OimStateBorsh(pub OimState);

/// Emitted when the oracle posts a sample.
pub struct OimIndexPostedEvent {
    pub index_id: String,
    pub period: String,
    pub value_bps: u32,
    pub posted_at_sec: u64,
}

/// Emitted when a rebalance sets the status.
#[derive(Clone, Copy, Debug, PartialEq, Eq, Structural)]
pub struct OimStatusUpdatedEvent {
    pub status: OimStatus,
    pub real_return_score_bps: i32,
    pub at_sec: u64,
}

/// Emitted when a rebalance completes; both amounts are the weight moved.
#[derive(Clone, Copy, Debug, PartialEq, Eq, Structural)]
pub struct OimRebalancedEvent {
    pub from_safety_bps: u32,
    pub to_growth_bps: u32,
    pub at_sec: u64,
}

/// Why an operation failed; a failed operation changes nothing.
#[derive(Clone, Copy, Debug, PartialEq, Eq, Structural)]
pub enum OimError {
    /// `init` was given an oracle account or a hurdle that its mode does not take.
    ModeMismatch,
    /// `init` was given a cap above `BPS_FULL`.
    CapOutOfRange,
    /// The instance has no configuration or no state yet.
    NotInitialized,
    /// An index was posted to an instance that is not in `Oracle` mode.
    NotOracleMode,
    /// An index was posted by another account than the oracle.
    Unauthorized,
    /// The previous rebalance is more recent than the cooldown allows.
    CooldownActive,
    /// The score does not fit in its 32-bit range.
    ScoreOverflow,
}

/// What a rebalance emitted: always the status; the move too unless the
/// oracle was stale.
pub struct RebalanceOutcome {
    pub status: OimStatusUpdatedEvent,
    pub rebalanced: Option<OimRebalancedEvent>,
}

/// An instance: its configuration and state once initialized.
pub struct Oim {
    pub config: Option<OimConfig>,
    pub state: Option<OimState>,
}

// ---------------------------------------------------------------------------
// Mathematical model
// ---------------------------------------------------------------------------

/// `a - b`, or zero where `b` is larger.
pub open spec fn sat_sub(a: int, b: int) -> int {
    if a >= b {
        a - b
    } else {
        0
    }
}

/// The smaller of `a` and `b`.
pub open spec fn min2(a: int, b: int) -> int {
    if a <= b {
        a
    } else {
        b
    }
}

/// The configuration is consistent: the mode has exactly its own parameter,
/// and each cap is at most a whole.
pub open spec fn config_valid(cfg: OimConfig) -> bool {
    &&& (cfg.mode == OimMode::Oracle ==> cfg.oracle_account is Some
        && cfg.fixed_hurdle_bps_annual is None)
    &&& (cfg.mode == OimMode::FixedHurdle ==> cfg.fixed_hurdle_bps_annual is Some
        && cfg.oracle_account is None)
    &&& cfg.safety_cap_bps <= BPS_FULL
    &&& cfg.growth_cap_bps <= BPS_FULL
    &&& cfg.liquidity_cap_bps <= BPS_FULL
}

/// The error `init` reports for `cfg`, if any.
pub open spec fn config_error(cfg: OimConfig) -> Option<OimError> {
    if cfg.mode == OimMode::Oracle && !(cfg.oracle_account is Some
        && cfg.fixed_hurdle_bps_annual is None) {
        Some(OimError::ModeMismatch)
    } else if cfg.mode == OimMode::FixedHurdle && !(cfg.fixed_hurdle_bps_annual is Some
        && cfg.oracle_account is None) {
        Some(OimError::ModeMismatch)
    } else if cfg.safety_cap_bps > BPS_FULL || cfg.growth_cap_bps > BPS_FULL
        || cfg.liquidity_cap_bps > BPS_FULL {
        Some(OimError::CapOutOfRange)
    } else {
        None
    }
}

/// The three weights sum to at most a whole.
pub open spec fn weights_bounded(st: OimState) -> bool {
    st.safety_weight_bps + st.growth_weight_bps + st.liquidity_weight_bps <= BPS_FULL
}

/// Each weight is at most its cap.
pub open spec fn weights_capped(st: OimState, cfg: OimConfig) -> bool {
    &&& st.safety_weight_bps <= cfg.safety_cap_bps
    &&& st.growth_weight_bps <= cfg.growth_cap_bps
    &&& st.liquidity_weight_bps <= cfg.liquidity_cap_bps
}

/// The state of a newly initialized instance: all weight in safety.
pub open spec fn initial_state_spec(st: OimState) -> bool {
    &&& st.last_index is None
    &&& st.last_rebalance_at_sec == 0
    &&& st.real_return_score_bps == 0
    &&& st.status == OimStatus::Healthy
    &&& st.safety_weight_bps == BPS_FULL
    &&& st.growth_weight_bps == 0
    &&& st.liquidity_weight_bps == 0
}

/// A previous rebalance is more recent than the cooldown allows.
pub open spec fn cooldown_active(cfg: OimConfig, st: OimState, now: u64) -> bool {
    st.last_rebalance_at_sec != 0 && sat_sub(now as int, st.last_rebalance_at_sec as int)
        < cfg.rebalance_cooldown_sec
}

/// The hurdle data is usable: outside `Oracle` mode always; in it, a sample
/// exists and is no older than the configured age.
pub open spec fn oracle_fresh(cfg: OimConfig, st: OimState, now: u64) -> bool {
    cfg.mode != OimMode::Oracle || (st.last_index is Some && sat_sub(
        now as int,
        st.last_index.unwrap().posted_at_sec as int,
    ) <= cfg.max_oracle_age_sec)
}

/// The inflation hurdle in basis points.
pub open spec fn inflation_bps(cfg: OimConfig, st: OimState) -> int {
    match cfg.mode {
        OimMode::Oracle => match st.last_index {
            Some(ix) => ix.value_bps as int,
            None => 0,
        },
        OimMode::FixedHurdle => match cfg.fixed_hurdle_bps_annual {
            Some(h) => h as int,
            None => 0,
        },
    }
}

/// The real-return score: vault growth (fixed at zero) less the inflation
/// hurdle less the required real return.
pub open spec fn score(cfg: OimConfig, st: OimState) -> int {
    0 - inflation_bps(cfg, st) - cfg.min_real_return_bps
}

/// The step limit in force.
pub open spec fn step_bps(cfg: OimConfig) -> int {
    match cfg.max_rebalance_step_bps {
        Some(s) => s as int,
        None => DEFAULT_STEP_BPS as int,
    }
}

/// The weight that a rebalance of a `Behind` instance moves from safety to
/// growth: the step, bounded by the safety weight and the growth headroom.
pub open spec fn move_delta(cfg: OimConfig, st: OimState) -> int {
    min2(
        min2(step_bps(cfg), st.safety_weight_bps as int),
        sat_sub(cfg.growth_cap_bps as int, st.growth_weight_bps as int),
    )
}

/// The weights cut to their caps, then the excess over a whole taken from
/// safety (down to zero at most).
pub open spec fn clamped(st: OimState, cfg: OimConfig) -> (int, int, int) {
    let s = min2(st.safety_weight_bps as int, cfg.safety_cap_bps as int);
    let g = min2(st.growth_weight_bps as int, cfg.growth_cap_bps as int);
    let l = min2(st.liquidity_weight_bps as int, cfg.liquidity_cap_bps as int);
    let sum = s + g + l;
    if sum > BPS_FULL {
        (sat_sub(s, sum - BPS_FULL), g, l)
    } else {
        (s, g, l)
    }
}

/// The state that follows a stale-oracle freeze: status and score change,
/// nothing else does.
pub open spec fn frozen(st: OimState, st2: OimState) -> bool {
    &&& st2.status == OimStatus::OracleStale
    &&& st2.real_return_score_bps == 0
    &&& st2.last_index == st.last_index
    &&& st2.last_rebalance_at_sec == st.last_rebalance_at_sec
    &&& st2.safety_weight_bps == st.safety_weight_bps
    &&& st2.growth_weight_bps == st.growth_weight_bps
    &&& st2.liquidity_weight_bps == st.liquidity_weight_bps
}

/// The state that follows a full rebalance at `now` that moved `delta`.
pub open spec fn rebalanced(cfg: OimConfig, st: OimState, now: u64, st2: OimState, delta: int) -> bool {
    let behind = score(cfg, st) < 0;
    let s1 = if behind {
        st.safety_weight_bps - delta
    } else {
        st.safety_weight_bps as int
    };
    let g1 = if behind {
        st.growth_weight_bps + delta
    } else {
        st.growth_weight_bps as int
    };
    let moved = OimState {
        safety_weight_bps: s1 as u32,
        growth_weight_bps: g1 as u32,
        ..st
    };
    &&& delta == (if behind && move_delta(cfg, st) > 0 {
        move_delta(cfg, st)
    } else {
        0
    })
    &&& st2.real_return_score_bps == score(cfg, st)
    &&& st2.status == (if behind {
        OimStatus::Behind
    } else {
        OimStatus::Healthy
    })
    &&& st2.last_index == st.last_index
    &&& st2.last_rebalance_at_sec == now
    &&& (st2.safety_weight_bps as int, st2.growth_weight_bps as int, st2.liquidity_weight_bps as int)
        == clamped(moved, cfg)
}

// ---------------------------------------------------------------------------
// Executable code
// ---------------------------------------------------------------------------

/// Nanoseconds per second.
pub const NANOS_PER_SEC: u64 = 1000000000;

/// Whole seconds in a timestamp given in nanoseconds.
pub fn seconds_from_nanos(ns: u64) -> (r: u64)
    ensures
        r == ns / NANOS_PER_SEC,
{
    ns / NANOS_PER_SEC
}

fn copy_address(a: &Option<Address>) -> (r: Option<Address>)
    ensures
        r == *a,
{
    match a {
        Some(x) => Some(x.clone()),
        None => None,
    }
}

fn copy_index(ix: &Option<InflationIndex>) -> (r: Option<InflationIndex>)
    ensures
        r == *ix,
{
    match ix {
        Some(x) => Some(
            InflationIndex {
                index_id: x.index_id.clone(),
                period: x.period.clone(),
                value_bps: x.value_bps,
                posted_at_sec: x.posted_at_sec,
            },
        ),
        None => None,
    }
}

impl OimConfig {
    /// A field-for-field copy.
    pub fn duplicate(&self) -> (r: OimConfig)
        ensures
            r == *self,
    {
        OimConfig {
            mode: self.mode,
            oracle_account: copy_address(&self.oracle_account),
            fixed_hurdle_bps_annual: self.fixed_hurdle_bps_annual,
            measurement_window_days: self.measurement_window_days,
            min_real_return_bps: self.min_real_return_bps,
            rebalance_cooldown_sec: self.rebalance_cooldown_sec,
            max_oracle_age_sec: self.max_oracle_age_sec,
            safety_cap_bps: self.safety_cap_bps,
            growth_cap_bps: self.growth_cap_bps,
            liquidity_cap_bps: self.liquidity_cap_bps,
            max_rebalance_step_bps: self.max_rebalance_step_bps,
        }
    }
}

impl OimState {
    /// A field-for-field copy.
    pub fn duplicate(&self) -> (r: OimState)
        ensures
            r == *self,
    {
        OimState {
            last_index: copy_index(&self.last_index),
            last_rebalance_at_sec: self.last_rebalance_at_sec,
            real_return_score_bps: self.real_return_score_bps,
            status: self.status,
            safety_weight_bps: self.safety_weight_bps,
            growth_weight_bps: self.growth_weight_bps,
            liquidity_weight_bps: self.liquidity_weight_bps,
        }
    }
}

/// Whether the hurdle data may be used at `now`.
fn is_fresh(st: &OimState, cfg: &OimConfig, now: u64) -> (r: bool)
    ensures
        r == oracle_fresh(*cfg, *st, now),
{
    if cfg.mode != OimMode::Oracle {
        return true;
    }
    match &st.last_index {
        None => false,
        Some(ix) => now.saturating_sub(ix.posted_at_sec) <= cfg.max_oracle_age_sec as u64,
    }
}

/// Whether the cooldown since the previous rebalance is still running.
fn in_cooldown(st: &OimState, cfg: &OimConfig, now: u64) -> (r: bool)
    ensures
        r == cooldown_active(*cfg, *st, now),
{
    if st.last_rebalance_at_sec == 0 {
        return false;
    }
    now.saturating_sub(st.last_rebalance_at_sec) < cfg.rebalance_cooldown_sec as u64
}

/// Cuts each weight to its cap, then takes any excess over a whole from
/// safety first; nothing else in the state changes.
pub fn clamp_weights_to_caps(st: &mut OimState, cfg: &OimConfig)
    ensures
        (final(st).safety_weight_bps as int, final(st).growth_weight_bps as int,
            final(st).liquidity_weight_bps as int) == clamped(*old(st), *cfg),
        final(st).last_index == old(st).last_index,
        final(st).last_rebalance_at_sec == old(st).last_rebalance_at_sec,
        final(st).real_return_score_bps == old(st).real_return_score_bps,
        final(st).status == old(st).status,
{
    if st.safety_weight_bps > cfg.safety_cap_bps {
        st.safety_weight_bps = cfg.safety_cap_bps;
    }
    if st.growth_weight_bps > cfg.growth_cap_bps {
        st.growth_weight_bps = cfg.growth_cap_bps;
    }
    if st.liquidity_weight_bps > cfg.liquidity_cap_bps {
        st.liquidity_weight_bps = cfg.liquidity_cap_bps;
    }
    let sum: u64 = st.safety_weight_bps as u64 + st.growth_weight_bps as u64
        + st.liquidity_weight_bps as u64;
    if sum > BPS_FULL as u64 {
        let excess: u64 = sum - BPS_FULL as u64;
        if (st.safety_weight_bps as u64) >= excess {
            st.safety_weight_bps = (st.safety_weight_bps as u64 - excess) as u32;
        } else {
            st.safety_weight_bps = 0;
        }
    }
}

impl Oim {
    /// An instance with neither configuration nor state.
    pub fn new() -> (r: Oim)
        ensures
            r.config is None,
            r.state is None,
    {
        Oim { config: None, state: None }
    }

    /// Checks `cfg` and, when it is consistent, stores it with a fresh
    /// state (all weight in safety). A second call starts over.
    pub fn init(&mut self, cfg: OimConfig) -> (r: Result<(), OimError>)
        ensures
            config_error(cfg) is Some ==> r == Err::<(), OimError>(config_error(cfg).unwrap())
                && *final(self) == *old(self),
            config_error(cfg) is None ==> r is Ok && final(self).config == Some(cfg)
                && final(self).state is Some && initial_state_spec(final(self).state.unwrap()),
            r is Ok ==> config_valid(cfg),
            old(self).wf() ==> final(self).wf(),
            r is Ok ==> final(self).wf(),
    {
        match cfg.mode {
            OimMode::Oracle => {
                if !(cfg.oracle_account.is_some() && cfg.fixed_hurdle_bps_annual.is_none()) {
                    return Err(OimError::ModeMismatch);
                }
            },
            OimMode::FixedHurdle => {
                if !(cfg.fixed_hurdle_bps_annual.is_some() && cfg.oracle_account.is_none()) {
                    return Err(OimError::ModeMismatch);
                }
            },
        }
        if cfg.safety_cap_bps > BPS_FULL || cfg.growth_cap_bps > BPS_FULL
            || cfg.liquidity_cap_bps > BPS_FULL {
            return Err(OimError::CapOutOfRange);
        }
        self.config = Some(cfg);
        self.state = Some(
            OimState {
                last_index: None,
                last_rebalance_at_sec: 0,
                real_return_score_bps: 0,
                status: OimStatus::Healthy,
                safety_weight_bps: BPS_FULL,
                growth_weight_bps: 0,
                liquidity_weight_bps: 0,
            },
        );
        Ok(())
    }

    /// Both records are present.
    pub fn is_initialized(&self) -> (r: bool)
        ensures
            r == (self.config is Some && self.state is Some),
    {
        self.config.is_some() && self.state.is_some()
    }

    /// A copy of the configuration.
    pub fn get_config(&self) -> (r: Result<OimConfig, OimError>)
        ensures
            self.config is Some ==> r == Ok::<OimConfig, OimError>(self.config.unwrap()),
            self.config is None ==> r == Err::<OimConfig, OimError>(OimError::NotInitialized),
    {
        match &self.config {
            Some(c) => Ok(c.duplicate()),
            None => Err(OimError::NotInitialized),
        }
    }

    /// A copy of the state.
    pub fn get_state(&self) -> (r: Result<OimState, OimError>)
        ensures
            self.state is Some ==> r == Ok::<OimState, OimError>(self.state.unwrap()),
            self.state is None ==> r == Err::<OimState, OimError>(OimError::NotInitialized),
    {
        match &self.state {
            Some(st) => Ok(st.duplicate()),
            None => Err(OimError::NotInitialized),
        }
    }

    /// Admits `caller` as the oracle of an instance in `Oracle` mode.
    fn check_oracle(cfg: &OimConfig, caller: &Address) -> (r: Result<(), OimError>)
        ensures
            cfg.mode != OimMode::Oracle ==> r == Err::<(), OimError>(OimError::NotOracleMode),
            cfg.mode == OimMode::Oracle ==> (r is Ok <==> cfg.oracle_account is Some
                && cfg.oracle_account.unwrap()@ == caller@),
            cfg.mode == OimMode::Oracle && r is Err ==> r == Err::<(), OimError>(
                OimError::Unauthorized,
            ),
    {
        if cfg.mode != OimMode::Oracle {
            return Err(OimError::NotOracleMode);
        }
        match &cfg.oracle_account {
            Some(oracle) => if *oracle == *caller {
                Ok(())
            } else {
                Err(OimError::Unauthorized)
            },
            None => Err(OimError::Unauthorized),
        }
    }

    /// Records a sample posted by `caller` at `now` (seconds); only the
    /// configured oracle may post. Status and weights are left as they are.
    pub fn post_inflation_index(
        &mut self,
        caller: &Address,
        now: u64,
        index_id: String,
        period: String,
        value_bps: u32,
    ) -> (r: Result<OimIndexPostedEvent, OimError>)
        ensures
            r is Err ==> *final(self) == *old(self),
            old(self).wf() ==> final(self).wf(),
            (old(self).config is None || old(self).state is None) ==> r == Err::<
                OimIndexPostedEvent,
                OimError,
            >(OimError::NotInitialized),
            old(self).config is Some && old(self).state is Some ==> {
                let cfg = old(self).config.unwrap();
                let st = old(self).state.unwrap();
                &&& cfg.mode != OimMode::Oracle ==> r == Err::<OimIndexPostedEvent, OimError>(
                    OimError::NotOracleMode,
                )
                &&& cfg.mode == OimMode::Oracle && !(cfg.oracle_account is Some
                    && cfg.oracle_account.unwrap()@ == caller@) ==> r == Err::<
                    OimIndexPostedEvent,
                    OimError,
                >(OimError::Unauthorized)
                &&& cfg.mode == OimMode::Oracle && cfg.oracle_account is Some
                    && cfg.oracle_account.unwrap()@ == caller@ ==> {
                    &&& r == Ok::<OimIndexPostedEvent, OimError>(
                        OimIndexPostedEvent { index_id, period, value_bps, posted_at_sec: now },
                    )
                    &&& final(self).config == old(self).config
                    &&& final(self).state == Some(
                        OimState {
                            last_index: Some(
                                InflationIndex { index_id, period, value_bps, posted_at_sec: now },
                            ),
                            ..st
                        },
                    )
                }
            },
    {
        let cfg = match &self.config {
            Some(c) => c,
            None => return Err(OimError::NotInitialized),
        };
        let st = match &self.state {
            Some(st) => st,
            None => return Err(OimError::NotInitialized),
        };
        if let Err(e) = Self::check_oracle(cfg, caller) {
            return Err(e);
        }
        let mut next = st.duplicate();
        next.last_index = Some(
            InflationIndex {
                index_id: index_id.clone(),
                period: period.clone(),
                value_bps,
                posted_at_sec: now,
            },
        );
        self.state = Some(next);
        Ok(OimIndexPostedEvent { index_id, period, value_bps, posted_at_sec: now })
    }
}

impl Oim {
    /// Runs one rebalance at `now` (seconds). In order: the cooldown gate
    /// (an error); the freshness gate in `Oracle` mode (a freeze that marks
    /// the oracle stale and zeroes the score, keeping weights and the
    /// rebalance time); then the score, the status, a bounded move from
    /// safety to growth when behind, the clamp to caps, and the new
    /// rebalance time.
    pub fn oim_rebalance(&mut self, now: u64) -> (r: Result<RebalanceOutcome, OimError>)
        ensures
            r is Err ==> *final(self) == *old(self),
            old(self).wf() ==> final(self).wf(),
            (old(self).config is None || old(self).state is None) ==> r == Err::<
                RebalanceOutcome,
                OimError,
            >(OimError::NotInitialized),
            old(self).config is Some && old(self).state is Some ==> {
                let cfg = old(self).config.unwrap();
                let st = old(self).state.unwrap();
                if cooldown_active(cfg, st, now) {
                    r == Err::<RebalanceOutcome, OimError>(OimError::CooldownActive)
                } else if !oracle_fresh(cfg, st, now) {
                    &&& r is Ok
                    &&& r->Ok_0.status == OimStatusUpdatedEvent {
                        status: OimStatus::OracleStale,
                        real_return_score_bps: 0,
                        at_sec: now,
                    }
                    &&& r->Ok_0.rebalanced is None
                    &&& final(self).config == old(self).config
                    &&& final(self).state is Some
                    &&& frozen(st, final(self).state.unwrap())
                } else if score(cfg, st) < i32::MIN || score(cfg, st) > i32::MAX {
                    r == Err::<RebalanceOutcome, OimError>(OimError::ScoreOverflow)
                } else {
                    let st2 = final(self).state.unwrap();
                    &&& r is Ok
                    &&& final(self).config == old(self).config
                    &&& final(self).state is Some
                    &&& r->Ok_0.rebalanced is Some
                    &&& rebalanced(
                        cfg,
                        st,
                        now,
                        st2,
                        r->Ok_0.rebalanced.unwrap().from_safety_bps as int,
                    )
                    &&& r->Ok_0.rebalanced.unwrap().to_growth_bps
                        == r->Ok_0.rebalanced.unwrap().from_safety_bps
                    &&& r->Ok_0.rebalanced.unwrap().at_sec == now
                    &&& r->Ok_0.status == OimStatusUpdatedEvent {
                        status: st2.status,
                        real_return_score_bps: st2.real_return_score_bps,
                        at_sec: now,
                    }
                }
            },
    {
        let cfg = match &self.config {
            Some(c) => c,
            None => return Err(OimError::NotInitialized),
        };
        let st = match &self.state {
            Some(st) => st,
            None => return Err(OimError::NotInitialized),
        };
        if in_cooldown(st, cfg, now) {
            return Err(OimError::CooldownActive);
        }
        if !is_fresh(st, cfg, now) {
            let mut next = st.duplicate();
            next.status = OimStatus::OracleStale;
            next.real_return_score_bps = 0;
            self.state = Some(next);
            return Ok(
                RebalanceOutcome {
                    status: OimStatusUpdatedEvent {
                        status: OimStatus::OracleStale,
                        real_return_score_bps: 0,
                        at_sec: now,
                    },
                    rebalanced: None,
                },
            );
        }
        let inflation: i64 = match cfg.mode {
            OimMode::Oracle => match &st.last_index {
                Some(ix) => ix.value_bps as i64,
                None => 0,
            },
            OimMode::FixedHurdle => match cfg.fixed_hurdle_bps_annual {
                Some(h) => h as i64,
                None => 0,
            },
        };
        let vault_growth_bps: i64 = 0;
        let wide_score: i64 = vault_growth_bps - inflation - cfg.min_real_return_bps as i64;
        if wide_score < i32::MIN as i64 || wide_score > i32::MAX as i64 {
            return Err(OimError::ScoreOverflow);
        }
        let mut next = st.duplicate();
        next.real_return_score_bps = wide_score as i32;
        next.status = if wide_score < 0 {
            OimStatus::Behind
        } else {
            OimStatus::Healthy
        };
        let mut delta: u32 = 0;
        if next.status == OimStatus::Behind {
            let step: u32 = match cfg.max_rebalance_step_bps {
                Some(s) => s,
                None => DEFAULT_STEP_BPS,
            };
            let headroom: u32 = cfg.growth_cap_bps.saturating_sub(next.growth_weight_bps);
            let mut d: u32 = step;
            if next.safety_weight_bps < d {
                d = next.safety_weight_bps;
            }
            if headroom < d {
                d = headroom;
            }
            if d > 0 {
                next.safety_weight_bps = next.safety_weight_bps - d;
                next.growth_weight_bps = next.growth_weight_bps + d;
                delta = d;
            }
        }
        clamp_weights_to_caps(&mut next, cfg);
        next.last_rebalance_at_sec = now;
        proof {
            lemma_rebalance_bounded(*cfg, *st, now, next, delta as int);
        }
        let status_event = OimStatusUpdatedEvent {
            status: next.status,
            real_return_score_bps: next.real_return_score_bps,
            at_sec: now,
        };
        self.state = Some(next);
        Ok(
            RebalanceOutcome {
                status: status_event,
                rebalanced: Some(
                    OimRebalancedEvent { from_safety_bps: delta, to_growth_bps: delta, at_sec: now },
                ),
            },
        )
    }
}

// ---------------------------------------------------------------------------
// Laws
// ---------------------------------------------------------------------------

impl Oim {
    /// The instance invariant: both records or neither, a consistent
    /// configuration, and weights that sum to at most a whole.
    pub open spec fn wf(&self) -> bool {
        &&& (self.config is Some <==> self.state is Some)
        &&& self.config is Some ==> config_valid(self.config.unwrap())
        &&& self.state is Some ==> weights_bounded(self.state.unwrap())
    }
}

/// A rebalance moves no more than the step, the safety weight and the
/// growth headroom allow; after the clamp each weight is within its cap, and
/// weights that summed to at most a whole still do.
pub proof fn lemma_rebalance_bounded(
    cfg: OimConfig,
    st: OimState,
    now: u64,
    st2: OimState,
    delta: int,
)
    requires
        rebalanced(cfg, st, now, st2, delta),
    ensures
        0 <= delta <= step_bps(cfg),
        delta <= st.safety_weight_bps,
        delta <= sat_sub(cfg.growth_cap_bps as int, st.growth_weight_bps as int),
        weights_capped(st2, cfg),
        weights_bounded(st) ==> weights_bounded(st2),
{
}

/// After a full rebalance at a nonzero time, a second one before the
/// cooldown has run out is refused with `CooldownActive` (and, by the
/// contract of `oim_rebalance`, changes nothing).
pub proof fn lemma_second_rebalance_in_cooldown(
    cfg: OimConfig,
    st: OimState,
    now1: u64,
    st1: OimState,
    delta: int,
    now2: u64,
)
    requires
        rebalanced(cfg, st, now1, st1, delta),
        now1 > 0,
        now1 <= now2,
        now2 - now1 < cfg.rebalance_cooldown_sec,
    ensures
        cooldown_active(cfg, st1, now2),
{
}

} // verus!
