use transient_flow::conservation::ConserveME;
use transient_flow::fixed::Real;
use transient_flow::integration::rk4;

#[test]
fn reset_law_after_deposits() {
    let mut c = ConserveME::new_from_mu(Real::from_int(10), Real::from_int(20));
    c.add_mdot_in(Real::from_int(3));
    c.add_mdot_out(Real::from_int(1));
    c.add_mdot_in(Real::from_int(2));
    c.add_energy_in(Real::from_int(7));
    c.perform_conservation();
    assert_eq!(c.mdot(), Real::from_int(4));
    assert_eq!(c.udot(), Real::from_int(7));
    assert_eq!(c.mdot_in(), Real::zero());
    assert_eq!(c.mdot_out(), Real::zero());
    assert_eq!(c.energy_in(), Real::zero());
    assert_eq!(c.energy_out(), Real::zero());
    assert_eq!(c.mass(), Real::from_int(10));
    assert_eq!(c.inenergy(), Real::from_int(20));
}

#[test]
fn reset_law_net_outflow_is_negative() {
    let mut c = ConserveME::new_from_mu(Real::from_int(1), Real::from_int(1));
    c.add_mdot_in(Real::from_int(1));
    c.add_mdot_out(Real::from_int(4));
    c.perform_conservation();
    assert_eq!(c.mdot(), Real::from_int(-3));
}

#[test]
fn closed_system_keeps_mass_and_energy() {
    let mut c = ConserveME::new_from_mu(Real::from_int(5), Real::from_int(7));
    for _ in 0..100 {
        c.perform_conservation();
        rk4(&mut c, Real::from_raw(1_000_000_000));
    }
    assert_eq!(c.mass(), Real::from_int(5));
    assert_eq!(c.inenergy(), Real::from_int(7));
}

#[test]
fn rk4_does_not_touch_running_sums() {
    let mut c = ConserveME::new_from_mu(Real::from_int(5), Real::from_int(7));
    c.add_mdot_in(Real::from_int(2));
    c.perform_conservation();
    c.add_mdot_in(Real::from_int(9));
    rk4(&mut c, Real::from_int(1));
    assert_eq!(c.mdot_in(), Real::from_int(9));
    assert_eq!(c.mass(), Real::from_int(7));
}
