use transient_flow::fixed::Real;
use transient_flow::flow::FlowStep;
use transient_flow::flow::RealOrifice;
use transient_flow::network::Network;
use transient_flow::network::NetworkError;
use transient_flow::properties::FluidProperties;
use transient_flow::properties::IntensiveState;
use transient_flow::properties::Prop;
use transient_flow::properties::StateValues;
use transient_flow::volume::InfiniteVolume;
use transient_flow::volume::TransientVolume;
use transient_flow::volume::Volume;
use transient_flow::volume::VolumeError;

fn answer(q: FluidProperties, pressure: i64, density: Real, u: i64, h: i64) -> IntensiveState {
    let mut v = StateValues {
        pressure: Real::from_int(pressure),
        temperature: Real::from_int(300),
        density,
        sp_inenergy: Real::from_int(u),
        sp_enthalpy: Real::from_int(h),
        sp_entropy: Real::from_int(6_500),
        cp: Real::from_int(1_040),
        cv: Real::from_int(743),
        gamma: Real::from_raw(1_400_000_000_000),
        speed_of_sound: Real::from_int(350),
    };
    if q.prop1 == Prop::Density {
        v.density = q.value1;
        v.sp_inenergy = q.value2;
    }
    IntensiveState::new(q, v).unwrap()
}

fn pt(p: i64, density: Real, h: i64) -> IntensiveState {
    answer(IntensiveState::new_from_pt(Real::from_int(p), Real::from_int(300), "nitrogen"), p, density, 200_000, h)
}

fn two_volume_network() -> Network {
    let mut net = Network::new();
    net.add_volume(Volume::Infinite(InfiniteVolume::new("source", pt(200_000, Real::from_int(2), 300_000))));
    let tank = TransientVolume::new_from_vpt("tank", Real::from_int(2), pt(100_000, Real::from_raw(1_200_000_000_000), 299_500));
    net.add_volume(Volume::Transient(tank));
    net.add_orifice(RealOrifice::new("Orifice", Real::from_raw(10_000_000_000), 0, 1)).unwrap();
    net
}

#[test]
fn new_volume_holds_density_times_volume() {
    let tank = TransientVolume::new_from_vpt("tank", Real::from_int(2), pt(100_000, Real::from_int(8), 299_500));
    assert_eq!(tank.get_conservation().mass(), Real::from_int(16));
    assert_eq!(tank.get_conservation().inenergy(), Real::from_int(3_200_000));
    assert_eq!(tank.volume(), Real::from_int(2));
}

#[test]
fn orifice_needs_known_and_distinct_volumes() {
    let mut net = two_volume_network();
    let r = net.add_orifice(RealOrifice::new("x", Real::zero(), 0, 5));
    assert_eq!(r, Err(NetworkError::UnknownVolume));
    let r = net.add_orifice(RealOrifice::new("y", Real::zero(), 1, 1));
    assert_eq!(r, Err(NetworkError::SameVolume));
    assert_eq!(net.orifice_count(), 1);
}

#[test]
fn flux_goes_into_the_downstream_accumulator() {
    let mut net = two_volume_network();
    assert_eq!(net.calc_flow(0), FlowStep::Settled);
    net.transfer_state(0);
    let m = net.orifice(0).get_mdot();
    assert_eq!(m.raw(), 379_473_319_220);
    match net.volume(1) {
        Volume::Transient(t) => {
            let c = t.get_conservation();
            assert_eq!(c.mdot_in(), m);
            assert_eq!(c.energy_in().raw(), 113_841_995_766_000_000);
            assert_eq!(c.mdot_out(), Real::zero());
        }
        Volume::Infinite(_) => panic!("the tank is finite"),
    }
    assert!(net.volume(0).get_conservation().is_none());
}

#[test]
fn tick_integrates_and_asks_for_the_next_state() {
    let mut net = two_volume_network();
    net.calc_flow(0);
    net.transfer_state(0);
    assert!(matches!(net.update_volume(0, Real::from_int(1)), Ok(None)));
    let q = net.update_volume(1, Real::from_int(1)).unwrap().unwrap();
    let mass = Real::from_raw(2_400_000_000_000).add(&Real::from_raw(379_473_319_220));
    assert_eq!(q.prop1, Prop::Density);
    assert_eq!(q.value1, mass.div(&Real::from_int(2)));
    assert_eq!(q.prop2, Prop::SpInenergy);
    assert_eq!(q.fluid, "nitrogen");
    let next = answer(q, 110_000, Real::zero(), 0, 300_000);
    assert_eq!(net.set_volume_state(1, next), Ok(()));
    assert_eq!(net.volume(1).get_intensive_state().pressure(), Real::from_int(110_000));
}

#[test]
fn volume_takes_only_the_answer_to_its_request() {
    let mut net = two_volume_network();
    net.update_volume(1, Real::from_int(1)).unwrap();
    let stray = pt(120_000, Real::from_int(1), 300_000);
    assert_eq!(net.set_volume_state(1, stray), Err(VolumeError::WrongState));
    let stray = pt(120_000, Real::from_int(1), 300_000);
    assert_eq!(net.set_volume_state(0, stray), Err(VolumeError::WrongState));
}

#[test]
fn empty_volume_has_no_next_state() {
    let mut tank = TransientVolume::new_from_vpt("tank", Real::from_int(1), pt(100_000, Real::from_int(1), 300_000));
    tank.add_flux_out(Real::from_int(1), Real::zero());
    assert_eq!(tank.update(Real::from_int(1)).err(), Some(VolumeError::Empty));
    assert_eq!(tank.get_conservation().mass(), Real::zero());
}

#[test]
fn closed_tank_keeps_its_mass() {
    let mut tank = TransientVolume::new_from_vpt("tank", Real::from_int(2), pt(100_000, Real::from_int(8), 299_500));
    for _ in 0..10 {
        let q = tank.update(Real::from_raw(1_000_000_000)).unwrap();
        let next = answer(q, 100_000, Real::zero(), 0, 299_500);
        tank.set_intensive_state(next).unwrap();
    }
    assert_eq!(tank.get_conservation().mass(), Real::from_int(16));
    assert_eq!(tank.get_conservation().inenergy(), Real::from_int(3_200_000));
}

fn three_volume_network() -> Network {
    let mut net = two_volume_network();
    let far = TransientVolume::new_from_vpt("far", Real::from_int(1), pt(50_000, Real::from_int(1), 299_000));
    net.add_volume(Volume::Transient(far));
    net.add_orifice(RealOrifice::new("Second", Real::from_raw(10_000_000_000), 1, 2)).unwrap();
    net
}

#[test]
fn phases_of_a_tick() {
    let mut net = three_volume_network();
    let choked = net.calc_all_flows();
    assert_eq!(choked, vec![false, false]);
    let first = net.orifice(0).get_mdot();
    let second = net.orifice(1).get_mdot();
    assert_eq!(first.raw(), 379_473_319_220);
    assert!(second.raw() > 0);

    net.transfer_all();
    match net.volume(1) {
        Volume::Transient(t) => {
            assert_eq!(t.get_conservation().mdot_in(), first);
            assert_eq!(t.get_conservation().mdot_out(), second);
        }
        Volume::Infinite(_) => panic!("the tank is finite"),
    }

    let requests = net.update_all_volumes(Real::from_int(1)).unwrap();
    assert!(requests[0].is_none());
    let q = requests[1].clone().unwrap();
    let tank_mass = Real::from_raw(2_400_000_000_000).add(&first).sub(&second);
    assert_eq!(q.value1, tank_mass.div(&Real::from_int(2)));
    assert!(requests[2].is_some());
}

#[test]
fn choked_orifices_are_reported() {
    let mut net = Network::new();
    net.add_volume(Volume::Infinite(InfiniteVolume::new("source", pt(600_000, Real::from_int(7), 300_000))));
    net.add_volume(Volume::Infinite(InfiniteVolume::new("sink", pt(100_000, Real::from_int(1), 299_500))));
    net.add_orifice(RealOrifice::new("Orifice", Real::from_raw(10_000_000_000), 0, 1)).unwrap();
    assert_eq!(net.calc_all_flows(), vec![true]);
    assert!(net.orifice(0).is_choked());
    let request = net.throat_request(0, Real::from_int(320_000));
    assert_eq!(request.prop2, Prop::SpEntropy);
    let throat = answer(request, 320_000, Real::from_raw(3_500_000_000_000), 200_000, 250_000);
    assert_eq!(net.finish_choked(0, &throat).unwrap().raw(), 12_250_000_000_000);
}

#[test]
fn tick_stops_at_an_emptied_volume() {
    let mut net = Network::new();
    let tank = TransientVolume::new_from_vpt("tank", Real::from_int(1), pt(100_000, Real::from_int(1), 300_050));
    net.add_volume(Volume::Transient(tank));
    net.add_volume(Volume::Infinite(InfiniteVolume::new("sink", pt(50_000, Real::from_int(1), 300_000))));
    net.add_orifice(RealOrifice::new("Orifice", Real::from_raw(100_000_000_000), 0, 1)).unwrap();
    assert_eq!(net.calc_all_flows(), vec![false]);
    assert_eq!(net.orifice(0).get_mdot(), Real::from_int(1));
    net.transfer_all();
    let r = net.update_all_volumes(Real::from_int(1));
    assert_eq!(r.err(), Some((0, VolumeError::Empty)));
}
