use token_law::oim::{
    Oim, OimConfig, OimError, OimMode, OimRebalancedEvent, OimState, OimStatus,
    OimStatusUpdatedEvent, clamp_weights_to_caps,
};

fn oracle_config() -> OimConfig {
    OimConfig {
        mode: OimMode::Oracle,
        oracle_account: Some("oracle.near".to_string()),
        fixed_hurdle_bps_annual: None,
        measurement_window_days: 365,
        min_real_return_bps: 200,
        rebalance_cooldown_sec: 86_400,
        max_oracle_age_sec: 100,
        safety_cap_bps: 10_000,
        growth_cap_bps: 3_000,
        liquidity_cap_bps: 2_000,
        max_rebalance_step_bps: None,
    }
}

fn hurdle_config(hurdle: u32) -> OimConfig {
    OimConfig {
        mode: OimMode::FixedHurdle,
        oracle_account: None,
        fixed_hurdle_bps_annual: Some(hurdle),
        ..oracle_config()
    }
}

fn ready(cfg: OimConfig) -> Oim {
    let mut oim = Oim::new();
    assert_eq!(oim.init(cfg), Ok(()));
    oim
}

fn state(oim: &Oim) -> OimState {
    oim.get_state().ok().unwrap()
}

fn weights(oim: &Oim) -> (u32, u32, u32) {
    let st = state(oim);
    (st.safety_weight_bps, st.growth_weight_bps, st.liquidity_weight_bps)
}

fn oracle() -> String {
    "oracle.near".to_string()
}

#[test]
fn scenario_stale_oracle_freezes() {
    let mut oim = ready(oracle_config());
    oim.post_inflation_index(&oracle(), 0, "US_CPI_U".to_string(), "2026-01".to_string(), 300)
        .ok()
        .unwrap();
    let out = oim.oim_rebalance(150).ok().unwrap();
    assert_eq!(
        out.status,
        OimStatusUpdatedEvent { status: OimStatus::OracleStale, real_return_score_bps: 0, at_sec: 150 }
    );
    assert!(out.rebalanced.is_none());
    let st = state(&oim);
    assert_eq!(st.status, OimStatus::OracleStale);
    assert_eq!(st.real_return_score_bps, 0);
    assert_eq!(st.last_rebalance_at_sec, 0);
    assert_eq!(weights(&oim), (10_000, 0, 0));
}

#[test]
fn missing_sample_is_stale() {
    let mut oim = ready(oracle_config());
    let out = oim.oim_rebalance(10).ok().unwrap();
    assert_eq!(out.status.status, OimStatus::OracleStale);
    assert_eq!(state(&oim).last_rebalance_at_sec, 0);
}

#[test]
fn sample_at_max_age_is_fresh() {
    let mut oim = ready(oracle_config());
    oim.post_inflation_index(&oracle(), 50, "CPI".to_string(), "p".to_string(), 300).ok().unwrap();
    let out = oim.oim_rebalance(150).ok().unwrap();
    // score = 0 - 300 - 200 = -500: behind, one default step moves.
    assert_eq!(
        out.status,
        OimStatusUpdatedEvent { status: OimStatus::Behind, real_return_score_bps: -500, at_sec: 150 }
    );
    assert_eq!(
        out.rebalanced,
        Some(OimRebalancedEvent { from_safety_bps: 100, to_growth_bps: 100, at_sec: 150 })
    );
    assert_eq!(weights(&oim), (9_900, 100, 0));
    assert_eq!(state(&oim).last_rebalance_at_sec, 150);
}

#[test]
fn non_oracle_post_refused_and_state_kept() {
    let mut oim = ready(oracle_config());
    oim.post_inflation_index(&oracle(), 5, "CPI".to_string(), "2026-01".to_string(), 10).ok().unwrap();
    let r = oim.post_inflation_index(
        &"mallory.near".to_string(),
        6,
        "CPI".to_string(),
        "2026-02".to_string(),
        99,
    );
    assert_eq!(r.err(), Some(OimError::Unauthorized));
    let ix = state(&oim).last_index.unwrap();
    assert_eq!(ix.period, "2026-01");
    assert_eq!(ix.value_bps, 10);
    assert_eq!(ix.posted_at_sec, 5);
}

#[test]
fn post_records_sample_and_event() {
    let mut oim = ready(oracle_config());
    let ev = oim
        .post_inflation_index(&oracle(), 42, "US_CPI_U".to_string(), "2026-01".to_string(), 321)
        .ok()
        .unwrap();
    assert_eq!(ev.index_id, "US_CPI_U");
    assert_eq!(ev.period, "2026-01");
    assert_eq!(ev.value_bps, 321);
    assert_eq!(ev.posted_at_sec, 42);
    let st = state(&oim);
    assert_eq!(st.status, OimStatus::Healthy);
    assert_eq!(st.last_index.unwrap().value_bps, 321);
}

#[test]
fn post_in_hurdle_mode_refused() {
    let mut oim = ready(hurdle_config(300));
    let r = oim.post_inflation_index(&oracle(), 1, "CPI".to_string(), "p".to_string(), 1);
    assert_eq!(r.err(), Some(OimError::NotOracleMode));
}

#[test]
fn uninitialized_refused() {
    let mut oim = Oim::new();
    assert!(!oim.is_initialized());
    assert_eq!(oim.get_config().err(), Some(OimError::NotInitialized));
    assert_eq!(oim.get_state().err(), Some(OimError::NotInitialized));
    assert_eq!(oim.oim_rebalance(1).err(), Some(OimError::NotInitialized));
    let r = oim.post_inflation_index(&oracle(), 1, "CPI".to_string(), "p".to_string(), 1);
    assert_eq!(r.err(), Some(OimError::NotInitialized));
}

#[test]
fn init_sets_default_state() {
    let oim = ready(oracle_config());
    assert!(oim.is_initialized());
    let st = state(&oim);
    assert!(st.last_index.is_none());
    assert_eq!(st.last_rebalance_at_sec, 0);
    assert_eq!(st.real_return_score_bps, 0);
    assert_eq!(st.status, OimStatus::Healthy);
    assert_eq!(weights(&oim), (10_000, 0, 0));
    let cfg = oim.get_config().ok().unwrap();
    assert_eq!(cfg.oracle_account, Some("oracle.near".to_string()));
    assert_eq!(cfg.growth_cap_bps, 3_000);
}

#[test]
fn init_mode_mismatch_refused() {
    let mut oim = Oim::new();
    let mut cfg = oracle_config();
    cfg.oracle_account = None;
    assert_eq!(oim.init(cfg), Err(OimError::ModeMismatch));
    let mut cfg = oracle_config();
    cfg.fixed_hurdle_bps_annual = Some(1);
    assert_eq!(oim.init(cfg), Err(OimError::ModeMismatch));
    let mut cfg = hurdle_config(1);
    cfg.oracle_account = Some(oracle());
    assert_eq!(oim.init(cfg), Err(OimError::ModeMismatch));
    let mut cfg = hurdle_config(1);
    cfg.fixed_hurdle_bps_annual = None;
    assert_eq!(oim.init(cfg), Err(OimError::ModeMismatch));
    assert!(!oim.is_initialized());
}

#[test]
fn init_cap_out_of_range_refused() {
    let mut oim = Oim::new();
    let mut cfg = oracle_config();
    cfg.liquidity_cap_bps = 10_001;
    assert_eq!(oim.init(cfg), Err(OimError::CapOutOfRange));
    assert!(!oim.is_initialized());
}

#[test]
fn second_rebalance_in_cooldown_refused() {
    let mut oim = ready(hurdle_config(300));
    oim.oim_rebalance(1_000).ok().unwrap();
    let before = weights(&oim);
    let r = oim.oim_rebalance(1_000 + 86_399);
    assert_eq!(r.err(), Some(OimError::CooldownActive));
    let st = state(&oim);
    assert_eq!(st.last_rebalance_at_sec, 1_000);
    assert_eq!(st.status, OimStatus::Behind);
    assert_eq!(st.real_return_score_bps, -500);
    assert_eq!(weights(&oim), before);
    // Once the cooldown has run out the rebalance goes through.
    assert!(oim.oim_rebalance(1_000 + 86_400).is_ok());
    assert_eq!(weights(&oim), (9_800, 200, 0));
}

#[test]
fn healthy_rebalance_moves_nothing() {
    let mut cfg = hurdle_config(0);
    cfg.min_real_return_bps = -50;
    let mut oim = ready(cfg);
    let out = oim.oim_rebalance(7).ok().unwrap();
    assert_eq!(out.status.status, OimStatus::Healthy);
    assert_eq!(out.status.real_return_score_bps, 50);
    assert_eq!(
        out.rebalanced,
        Some(OimRebalancedEvent { from_safety_bps: 0, to_growth_bps: 0, at_sec: 7 })
    );
    assert_eq!(weights(&oim), (10_000, 0, 0));
    assert_eq!(state(&oim).last_rebalance_at_sec, 7);
}

#[test]
fn move_bounded_by_growth_headroom() {
    let mut cfg = hurdle_config(300);
    cfg.growth_cap_bps = 150;
    cfg.rebalance_cooldown_sec = 0;
    let mut oim = ready(cfg);
    let out = oim.oim_rebalance(1).ok().unwrap();
    assert_eq!(out.rebalanced.unwrap().from_safety_bps, 100);
    let out = oim.oim_rebalance(2).ok().unwrap();
    assert_eq!(out.rebalanced.unwrap().from_safety_bps, 50);
    let out = oim.oim_rebalance(3).ok().unwrap();
    assert_eq!(out.rebalanced.unwrap().from_safety_bps, 0);
    assert_eq!(weights(&oim), (9_850, 150, 0));
}

#[test]
fn move_bounded_by_configured_step() {
    let mut cfg = hurdle_config(300);
    cfg.max_rebalance_step_bps = Some(2_500);
    let mut oim = ready(cfg);
    let out = oim.oim_rebalance(1).ok().unwrap();
    assert_eq!(out.rebalanced.unwrap().from_safety_bps, 2_500);
    assert_eq!(weights(&oim), (7_500, 2_500, 0));
}

#[test]
fn safety_cap_clamps_after_move() {
    let mut cfg = hurdle_config(300);
    cfg.safety_cap_bps = 6_000;
    let mut oim = ready(cfg);
    oim.oim_rebalance(1).ok().unwrap();
    assert_eq!(weights(&oim), (6_000, 100, 0));
}

#[test]
fn score_overflow_refused() {
    let mut cfg = hurdle_config(u32::MAX);
    cfg.min_real_return_bps = 0;
    let mut oim = ready(cfg);
    assert_eq!(oim.oim_rebalance(1).err(), Some(OimError::ScoreOverflow));
    assert_eq!(state(&oim).last_rebalance_at_sec, 0);
}

#[test]
fn clamp_trims_safety_first() {
    let mut st = OimState {
        last_index: None,
        last_rebalance_at_sec: 3,
        real_return_score_bps: -1,
        status: OimStatus::Behind,
        safety_weight_bps: 9_000,
        growth_weight_bps: 4_000,
        liquidity_weight_bps: 3_000,
    };
    let mut cfg = oracle_config();
    cfg.growth_cap_bps = 5_000;
    cfg.liquidity_cap_bps = 2_500;
    clamp_weights_to_caps(&mut st, &cfg);
    // liquidity cut to 2500; sum 15500, so safety gives up 5500.
    assert_eq!((st.safety_weight_bps, st.growth_weight_bps, st.liquidity_weight_bps), (3_500, 4_000, 2_500));
    assert_eq!(st.last_rebalance_at_sec, 3);

    let mut st2 = OimState { safety_weight_bps: 1_000, growth_weight_bps: 5_000, liquidity_weight_bps: 5_000, ..st };
    cfg.liquidity_cap_bps = 10_000;
    clamp_weights_to_caps(&mut st2, &cfg);
    assert_eq!((st2.safety_weight_bps, st2.growth_weight_bps, st2.liquidity_weight_bps), (0, 5_000, 5_000));
}

#[test]
fn reinit_resets_state() {
    let mut oim = ready(hurdle_config(300));
    oim.oim_rebalance(5).ok().unwrap();
    assert_eq!(oim.init(oracle_config()), Ok(()));
    assert_eq!(weights(&oim), (10_000, 0, 0));
    assert_eq!(state(&oim).last_rebalance_at_sec, 0);
}

#[test]
fn nanos_to_seconds() {
    assert_eq!(token_law::oim::seconds_from_nanos(1_999_999_999), 1);
    assert_eq!(token_law::oim::seconds_from_nanos(0), 0);
    assert_eq!(token_law::oim::seconds_from_nanos(86_400_000_000_000), 86_400);
}
