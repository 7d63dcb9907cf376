use azurescens::params::{ParameterStore, Params};
use azurescens::shared::SharedParameterStore;

fn defaults() -> Params {
    Params::default()
}

#[test]
fn default_knobs_match_the_startup_configuration() {
    let p = defaults();
    assert!(p.invert);
    assert_eq!(p.fade, 0.9f32.to_bits());
    assert!(p.permute_colors);
    assert_eq!(p.color_cycle_rate, 1.0f32.to_bits());
    assert_eq!(p.mix_linear, 0.0f32.to_bits());
    assert_eq!(p.mix_linear_tv, 0.2f32.to_bits());
}

#[test]
fn well_formedness_accepts_finite_and_rejects_non_finite() {
    let mut p = defaults();
    assert!(p.check_wf());
    p.fade = f32::INFINITY.to_bits();
    assert!(!p.check_wf());
    p.fade = f32::NAN.to_bits();
    assert!(!p.check_wf());
    p.fade = (-0.25f32).to_bits();
    assert!(p.check_wf());
    p.color_cycle_rate = f32::NEG_INFINITY.to_bits();
    assert!(!p.check_wf());
}

#[test]
fn replace_then_snapshot_returns_the_replaced_record() {
    let mut store = ParameterStore::new(defaults());
    let mut update = defaults();
    update.invert = false;
    update.fade = 0.5f32.to_bits();
    store.replace(update);
    let snapshot = store.read_snapshot();
    assert_eq!(snapshot, update);
    // A second read observes the same record again.
    assert_eq!(store.read_snapshot(), update);
}

#[test]
fn shared_store_round_trips_a_replacement() {
    let store = SharedParameterStore::new(defaults());
    assert_eq!(store.read_snapshot(), defaults());
    let mut update = defaults();
    update.permute_colors = false;
    update.mix_linear = 0.75f32.to_bits();
    store.replace(update);
    assert_eq!(store.read_snapshot(), update);
}
