use transient_flow::fixed::Real;
use transient_flow::properties::FluidProperties;
use transient_flow::properties::IdealGas;
use transient_flow::properties::IntensiveState;
use transient_flow::properties::Prop;
use transient_flow::properties::StateError;
use transient_flow::properties::StateValues;
use transient_flow::volume::InfiniteVolume;

fn values(pressure: Real, temperature: Real) -> StateValues {
    StateValues {
        pressure,
        temperature,
        density: Real::from_raw(8_000_000_000_000),
        sp_inenergy: Real::from_int(200_000),
        sp_enthalpy: Real::from_int(300_000),
        sp_entropy: Real::from_int(6_500),
        cp: Real::from_int(1_040),
        cv: Real::from_int(743),
        gamma: Real::from_raw(1_400_000_000_000),
        speed_of_sound: Real::from_int(350),
    }
}

#[test]
fn round_trip_pressure_temperature() {
    let p = Real::from_int(689_476);
    let t = Real::from_int(300);
    let q = IntensiveState::new_from_pt(p, t, "nitrogen");
    let s = IntensiveState::new(q, values(p, t)).unwrap();
    assert_eq!(s.pressure(), p);
    assert_eq!(s.temperature(), t);
    assert_eq!(s.fluid(), "nitrogen");
}

#[test]
fn answer_must_agree_with_request() {
    let q = IntensiveState::new_from_pt(Real::from_int(100_000), Real::from_int(300), "nitrogen");
    let r = IntensiveState::new(q, values(Real::from_int(100_001), Real::from_int(300)));
    assert_eq!(r.err(), Some(StateError::Inconsistent));
}

#[test]
fn unphysical_answer_is_refused() {
    let q = IntensiveState::new_from_pt(Real::from_int(-5), Real::from_int(300), "nitrogen");
    let r = IntensiveState::new(q, values(Real::from_int(-5), Real::from_int(300)));
    assert_eq!(r.err(), Some(StateError::Unphysical));
}

#[test]
fn requests_hold_one_property_fixed() {
    let p = Real::from_int(100_000);
    let t = Real::from_int(300);
    let s = IntensiveState::new(IntensiveState::new_from_pt(p, t, "air"), values(p, t)).unwrap();
    let q = s.isentropic(Prop::Pressure, Real::from_int(50_000));
    assert_eq!((q.prop1, q.value1), (Prop::Pressure, Real::from_int(50_000)));
    assert_eq!((q.prop2, q.value2), (Prop::SpEntropy, Real::from_int(6_500)));
    assert_eq!(q.fluid, "air");
    let q = s.isothermal(Prop::Density, Real::from_int(2));
    assert_eq!((q.prop2, q.value2), (Prop::Temperature, t));
    let q = s.isenthalpic(Prop::Pressure, Real::from_int(1));
    assert_eq!((q.prop2, q.value2), (Prop::SpEnthalpy, Real::from_int(300_000)));
    let q = s.update_from_du(Real::from_int(3), Real::from_int(4));
    assert_eq!((q.prop1, q.value1, q.prop2, q.value2), (Prop::Density, Real::from_int(3), Prop::SpInenergy, Real::from_int(4)));
}

#[test]
fn lookup_answers_only_what_the_request_fixes() {
    let q = FluidProperties::new(Prop::Density, Real::from_int(3), Prop::SpInenergy, Real::from_int(4), "air");
    assert_eq!(q.lookup(Prop::Density), Some(Real::from_int(3)));
    assert_eq!(q.lookup(Prop::SpInenergy), Some(Real::from_int(4)));
    assert_eq!(q.lookup(Prop::Pressure), None);
}

#[test]
fn provider_names() {
    assert_eq!(Prop::Pressure.code(), "P");
    assert_eq!(Prop::SpInenergy.code(), "UMASS");
    assert_eq!(Prop::Gamma.code(), "ISENTROPIC_EXPANSION_COEFFICIENT");
    assert_eq!(Prop::SpeedOfSound.code(), "A");
}

#[test]
fn atmosphere() {
    let q = IntensiveState::atm_query("nitrogen");
    assert_eq!(q.value1, Real::from_int(101_325));
    assert_eq!(q.value2.raw(), 273_150_000_000_000);
    let s = IntensiveState::new(q.clone(), values(q.value1, q.value2)).unwrap();
    let atm = InfiniteVolume::atm("ATM", s);
    assert_eq!(atm.node_name(), "ATM");
    assert_eq!(atm.get_intensive_state().pressure(), Real::from_int(101_325));
}

#[test]
fn ideal_gas_closed_forms() {
    let gas = IdealGas::new(Real::from_int(1005), Real::from_int(718));
    let p = Real::from_int(101_325);
    let t = Real::from_int(300);
    assert_eq!(gas.density_pt_lookup(p, t).raw(), 1_176_829_268_292);
    assert_eq!(gas.sp_enthalpy_pt_lookup(p, t), Real::from_int(301_500));
    assert_eq!(gas.sp_energy_pt_lookup(p, t), Real::from_int(215_400));
    assert_eq!(gas.gamma().raw(), 1_399_721_448_467);
    let rho = Real::from_raw(1_200_000_000_000);
    assert_eq!(gas.speed_of_sound_pd_lookup(p, rho).raw(), 343_786_241_442_167);
    assert_eq!(gas.pressure_du_lookup(rho, Real::from_int(215_400)), Real::from_int(103_320));
    assert_eq!(gas.temperature_du_lookup(rho, Real::from_int(215_400)), Real::from_int(300));
}

#[test]
fn ideal_gas_round_trip_from_pressure_and_temperature() {
    let gas = IdealGas::new(Real::from_int(3), Real::from_int(1));
    let p = Real::from_int(2);
    let t = Real::from_int(1);
    let rho = gas.density_pt_lookup(p, t);
    let u = gas.sp_energy_pt_lookup(p, t);
    assert_eq!(rho, Real::from_int(1));
    assert_eq!(gas.pressure_du_lookup(rho, u), p);
    assert_eq!(gas.temperature_du_lookup(rho, u), t);

    let air = IdealGas::new(Real::from_int(1005), Real::from_int(718));
    let p = Real::from_int(101_325);
    let t = Real::from_int(300);
    let rho = air.density_pt_lookup(p, t);
    let u = air.sp_energy_pt_lookup(p, t);
    assert_eq!(air.temperature_du_lookup(rho, u), t);
    let back = air.pressure_du_lookup(rho, u);
    assert!((back.raw() - p.raw()).abs() < 1_000_000_000);
}
