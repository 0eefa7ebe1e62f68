use transient_flow::fixed::Real;
use transient_flow::flow::mdot;
use transient_flow::flow::throat_residual;
use transient_flow::flow::throat_vel;
use transient_flow::flow::FlowError;
use transient_flow::flow::FlowStep;
use transient_flow::flow::RealOrifice;
use transient_flow::properties::FluidProperties;
use transient_flow::properties::IntensiveState;
use transient_flow::properties::Prop;
use transient_flow::properties::StateValues;

fn state(q: FluidProperties, pressure: Real, density: Real, h: Real, a: Real, s: Real) -> IntensiveState {
    let v = StateValues {
        pressure,
        temperature: Real::from_int(300),
        density,
        sp_inenergy: Real::from_int(200_000),
        sp_enthalpy: h,
        sp_entropy: s,
        cp: Real::from_int(1_040),
        cv: Real::from_int(743),
        gamma: Real::from_raw(1_400_000_000_000),
        speed_of_sound: a,
    };
    IntensiveState::new(q, v).unwrap()
}

fn pt_state(p: i64, density: Real, h: i64, a: i64) -> IntensiveState {
    let q = IntensiveState::new_from_pt(Real::from_int(p), Real::from_int(300), "nitrogen");
    state(q, Real::from_int(p), density, Real::from_int(h), Real::from_int(a), Real::from_int(6_500))
}

fn orifice() -> RealOrifice {
    RealOrifice::new("Orifice", Real::from_raw(10_000_000_000), 0, 1)
}

#[test]
fn throat_velocity_from_enthalpy_drop() {
    let v = throat_vel(Real::from_int(300_000), Real::from_int(299_500)).unwrap();
    assert_eq!(v.raw(), 31_622_776_601_683);
    assert_eq!(throat_vel(Real::from_int(1), Real::from_int(2)), None);
    assert_eq!(throat_vel(Real::from_int(2), Real::from_int(2)), Some(Real::zero()));
}

#[test]
fn mass_flow_formula() {
    let m = mdot(Real::from_raw(500_000_000_000), Real::from_int(2), Real::from_int(3));
    assert_eq!(m, Real::from_int(3));
}

#[test]
fn no_flow_for_equal_pressures() {
    let mut o = orifice();
    let a = pt_state(100_000, Real::from_int(1), 300_000, 350);
    let b = pt_state(100_000, Real::from_int(1), 300_000, 350);
    assert_eq!(o.calc_mdot(&a, &b), FlowStep::Settled);
    assert_eq!(o.get_mdot(), Real::zero());
    assert!(!o.is_choked());
}

#[test]
fn no_flow_against_the_pressure_gradient() {
    let mut o = orifice();
    let a = pt_state(100_000, Real::from_int(1), 300_000, 350);
    let b = pt_state(200_000, Real::from_int(2), 300_000, 350);
    assert_eq!(o.calc_mdot(&a, &b), FlowStep::Settled);
    assert_eq!(o.get_mdot(), Real::zero());
}

#[test]
fn unchoked_flow() {
    let mut o = orifice();
    let a = pt_state(200_000, Real::from_int(2), 300_000, 350);
    let b = pt_state(100_000, Real::from_raw(1_200_000_000_000), 299_500, 350);
    assert_eq!(o.calc_mdot(&a, &b), FlowStep::Settled);
    assert!(!o.is_choked());
    assert_eq!(o.velocity().raw(), 31_622_776_601_683);
    assert_eq!(o.get_mdot().raw(), 379_473_319_220);
    assert!(o.get_mdot().raw() > 0);
}

#[test]
fn choked_by_pressure_ratio() {
    let mut o = orifice();
    let a = pt_state(600_000, Real::from_int(7), 300_000, 350);
    let b = pt_state(100_000, Real::from_int(1), 299_500, 350);
    assert_eq!(o.calc_mdot(&a, &b), FlowStep::Choked);
    assert!(o.is_choked());

    let q = a.isentropic(Prop::Pressure, Real::from_int(320_000));
    let throat = state(q, Real::from_int(320_000), Real::from_raw(3_500_000_000_000), Real::from_int(250_000), Real::from_int(320), Real::from_int(6_500));
    let m = o.finish_choked(&a, &b, &throat).unwrap();
    assert_eq!(m.raw(), 11_200_000_000_000);
    assert_eq!(o.velocity(), Real::from_int(320));
    assert_eq!(o.get_mdot(), m);
}

#[test]
fn choked_by_sonic_throat() {
    let mut o = orifice();
    let a = pt_state(200_000, Real::from_int(2), 400_000, 350);
    let b = pt_state(100_000, Real::from_int(1), 300_000, 350);
    assert_eq!(o.calc_mdot(&a, &b), FlowStep::Choked);
    assert!(o.is_choked());
}

#[test]
fn lower_ratio_limit_chokes_sooner() {
    let mut o = orifice().with_ratio_limit(Real::from_raw(1_500_000_000_000));
    let a = pt_state(200_000, Real::from_int(2), 300_000, 350);
    let b = pt_state(100_000, Real::from_int(1), 299_500, 350);
    assert_eq!(o.calc_mdot(&a, &b), FlowStep::Choked);
}

#[test]
fn throat_must_be_isentropic() {
    let mut o = orifice();
    let a = pt_state(600_000, Real::from_int(7), 300_000, 350);
    let b = pt_state(100_000, Real::from_int(1), 299_500, 350);
    o.calc_mdot(&a, &b);
    let wrong = pt_state(320_000, Real::from_int(3), 250_000, 320);
    assert_eq!(o.finish_choked(&a, &b, &wrong), Err(FlowError::NotIsentropic));
}

#[test]
fn throat_only_for_choked_flow() {
    let mut o = orifice();
    let a = pt_state(600_000, Real::from_int(7), 300_000, 350);
    let q = a.isentropic(Prop::Pressure, Real::from_int(320_000));
    let b = pt_state(100_000, Real::from_int(1), 299_500, 350);
    let throat = state(q, Real::from_int(320_000), Real::from_int(3), Real::from_int(250_000), Real::from_int(320), Real::from_int(6_500));
    assert_eq!(o.finish_choked(&a, &b, &throat), Err(FlowError::NotChoked));
}

#[test]
fn residual_of_the_throat_condition() {
    let a = pt_state(600_000, Real::from_int(7), 300_000, 350);
    let q = a.isentropic(Prop::Pressure, Real::from_int(320_000));
    let throat = state(q, Real::from_int(320_000), Real::from_int(3), Real::from_int(250_000), Real::from_int(320), Real::from_int(6_500));
    assert_eq!(throat_residual(&a, &throat).unwrap().raw(), 3_772_233_983_163);
    let hotter = pt_state(320_000, Real::from_int(3), 400_000, 320);
    assert_eq!(throat_residual(&a, &hotter), None);
}

#[test]
fn choked_flow_ignores_lower_downstream_pressure() {
    let a = pt_state(600_000, Real::from_int(7), 300_000, 350);
    let mut first = orifice();
    let b = pt_state(100_000, Real::from_int(1), 299_500, 350);
    assert_eq!(first.calc_mdot(&a, &b), FlowStep::Choked);
    let mut second = orifice();
    let lower = pt_state(20_000, Real::from_int(1), 299_500, 350);
    assert_eq!(second.calc_mdot(&a, &lower), FlowStep::Choked);

    let q = a.isentropic(Prop::Pressure, Real::from_int(320_000));
    let throat = state(q, Real::from_int(320_000), Real::from_raw(3_500_000_000_000), Real::from_int(250_000), Real::from_int(320), Real::from_int(6_500));
    let m1 = first.finish_choked(&a, &b, &throat).unwrap();
    let m2 = second.finish_choked(&a, &lower, &throat).unwrap();
    assert_eq!(m1, m2);
    assert_eq!(first.velocity(), second.velocity());
}

#[test]
fn throat_pressure_must_lie_in_the_bracket() {
    let mut o = orifice();
    let a = pt_state(600_000, Real::from_int(7), 300_000, 350);
    let b = pt_state(100_000, Real::from_int(1), 299_500, 350);
    assert_eq!(o.calc_mdot(&a, &b), FlowStep::Choked);
    let q = a.isentropic(Prop::Pressure, Real::from_int(50_000));
    let below = state(q, Real::from_int(50_000), Real::from_int(1), Real::from_int(250_000), Real::from_int(320), Real::from_int(6_500));
    assert_eq!(o.finish_choked(&a, &b, &below), Err(FlowError::OutsideBracket));
    let q = a.isentropic(Prop::Pressure, Real::from_int(700_000));
    let above = state(q, Real::from_int(700_000), Real::from_int(8), Real::from_int(250_000), Real::from_int(320), Real::from_int(6_500));
    assert_eq!(o.finish_choked(&a, &b, &above), Err(FlowError::OutsideBracket));
    assert_eq!(o.get_mdot(), Real::zero());
}

#[test]
fn choking_clears_the_last_flow() {
    let mut o = orifice();
    let a = pt_state(200_000, Real::from_int(2), 300_000, 350);
    let b = pt_state(100_000, Real::from_raw(1_200_000_000_000), 299_500, 350);
    assert_eq!(o.calc_mdot(&a, &b), FlowStep::Settled);
    assert!(o.get_mdot().raw() > 0);
    let high = pt_state(600_000, Real::from_int(7), 300_000, 350);
    assert_eq!(o.calc_mdot(&high, &b), FlowStep::Choked);
    assert_eq!(o.get_mdot(), Real::zero());
    assert_eq!(o.velocity(), Real::zero());
}
