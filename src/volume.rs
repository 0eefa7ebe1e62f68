//! Control volumes: boundary reservoirs with a fixed state, and finite
//! volumes whose state follows the mass and energy that cross them.
use vstd::prelude::*;
use crate::fixed::Real;
use crate::fixed::clamp;
use crate::fixed::mul_raw;
use crate::fixed::div_raw;
use crate::conservation::ConserveME;
use crate::conservation::ConserveModel;
use crate::integration::rk4;
use crate::integration::rk4_of;
use crate::properties::FluidProperties;
use crate::properties::IntensiveState;
use crate::properties::Prop;
use crate::properties::is_atm_query;

verus! {

/// An unbounded source or sink (the atmosphere, a large reservoir): its
/// state never changes, and flux crosses it without bookkeeping.
#[derive(Clone, Debug)]
pub struct InfiniteVolume {
    node_name: String,
    intensive_state: IntensiveState,
}

impl InfiniteVolume {
    pub closed spec fn name_spec(&self) -> Seq<char> {
        self.node_name@
    }

    pub closed spec fn state_spec(&self) -> IntensiveState {
        self.intensive_state
    }

    /// A boundary volume named `node_name` held at `state`.
    pub fn new(node_name: &str, state: IntensiveState) -> (r: InfiniteVolume)
        ensures
            r.name_spec() == node_name@,
            r.state_spec() == state,
    {
        InfiniteVolume { node_name: node_name.to_owned(), intensive_state: state }
    }

    /// The standard atmosphere as a boundary volume; `state` is the
    /// provider's answer to `IntensiveState::atm_query`.
    pub fn atm(node_name: &str, state: IntensiveState) -> (r: InfiniteVolume)
        requires
            is_atm_query(state.query()),
        ensures
            r.name_spec() == node_name@,
            r.state_spec() == state,
            is_atm_query(r.state_spec().query()),
    {
        InfiniteVolume { node_name: node_name.to_owned(), intensive_state: state }
    }

    pub fn get_intensive_state(&self) -> (r: &IntensiveState)
        ensures
            *r == self.state_spec(),
    {
        &self.intensive_state
    }

    pub fn node_name(&self) -> (r: &String)
        ensures
            r@ == self.name_spec(),
    {
        &self.node_name
    }
}

/// Why a finite volume cannot take its next state.
#[derive(Clone, Copy, Debug, PartialEq, Eq, Structural)]
pub enum VolumeError {
    /// The volume holds no mass, so it has no specific internal energy.
    Empty,
    /// The state offered is not the answer to the volume's own request.
    WrongState,
}

/// Raw density of `mass` held in `volume`.
pub open spec fn density_of(mass: int, volume: int) -> int {
    clamp(div_raw(mass, volume))
}

/// Raw specific internal energy of `inenergy` spread over `mass`.
pub open spec fn sp_inenergy_of(inenergy: int, mass: int) -> int {
    clamp(div_raw(inenergy, mass))
}

/// A finite control volume of fixed size whose mass and internal energy
/// follow the flux deposited into it.
#[derive(Debug)]
pub struct TransientVolume {
    node_name: String,
    intensive_state: IntensiveState,
    conservation: ConserveME,
    volume: Real,
}

impl TransientVolume {
    #[verifier::type_invariant]
    spec fn inv(self) -> bool {
        self.volume@ > 0
    }

    pub closed spec fn name_spec(&self) -> Seq<char> {
        self.node_name@
    }

    pub closed spec fn state_spec(&self) -> IntensiveState {
        self.intensive_state
    }

    pub closed spec fn conservation_spec(&self) -> ConserveModel {
        self.conservation@
    }

    pub closed spec fn volume_spec(&self) -> int {
        self.volume@
    }

    /// The request for the state that the current mass and internal energy
    /// describe: density `mass / volume`, specific internal energy
    /// `inenergy / mass`.
    pub open spec fn is_du_request(&self, q: FluidProperties) -> bool {
        let c = self.conservation_spec();
        &&& q.prop1 == Prop::Density
        &&& q.value1@ == density_of(c.mass, self.volume_spec())
        &&& q.prop2 == Prop::SpInenergy
        &&& q.value2@ == sp_inenergy_of(c.inenergy, c.mass)
        &&& q.fluid@ == self.state_spec().query().fluid@
    }

    /// A volume of size `volume` filled with fluid in `state` (the provider's
    /// answer for the initial pressure and temperature): its mass is
    /// `density * volume` and its internal energy `mass * sp_inenergy`.
    pub fn new_from_vpt(node_name: &str, volume: Real, state: IntensiveState) -> (r: TransientVolume)
        requires
            volume@ > 0,
        ensures
            r.name_spec() == node_name@,
            r.volume_spec() == volume@,
            r.state_spec() == state,
            r.conservation_spec() == (ConserveModel {
                mdot_in: 0,
                mdot_out: 0,
                energy_in: 0,
                energy_out: 0,
                mdot: 0,
                udot: 0,
                mass: clamp(mul_raw(state.values_spec().density@, volume@)),
                inenergy: clamp(
                    mul_raw(clamp(mul_raw(state.values_spec().density@, volume@)), state.values_spec().sp_inenergy@),
                ),
            }),
    {
        let mass = state.density().mul(&volume);
        let inenergy = mass.mul(&state.sp_inenergy());
        TransientVolume {
            node_name: node_name.to_owned(),
            intensive_state: state,
            conservation: ConserveME::new_from_mu(mass, inenergy),
            volume,
        }
    }

    pub fn get_conservation(&self) -> (r: &ConserveME)
        ensures
            r@ == self.conservation_spec(),
    {
        &self.conservation
    }

    pub fn get_intensive_state(&self) -> (r: &IntensiveState)
        ensures
            *r == self.state_spec(),
    {
        &self.intensive_state
    }

    pub fn node_name(&self) -> (r: &String)
        ensures
            r@ == self.name_spec(),
    {
        &self.node_name
    }

    pub fn volume(&self) -> (r: Real)
        ensures
            r@ == self.volume_spec(),
    {
        self.volume
    }

    pub fn add_flux_in(&mut self, mdot: Real, energy: Real)
        ensures
            final(self).conservation_spec() == old(self).conservation_spec().with_mdot_in(mdot@).with_energy_in(
                energy@,
            ),
            final(self).state_spec() == old(self).state_spec(),
            final(self).volume_spec() == old(self).volume_spec(),
            final(self).name_spec() == old(self).name_spec(),
    {
        proof {
            use_type_invariant(&*self);
        }
        let mut c = self.conservation;
        c.add_mdot_in(mdot);
        c.add_energy_in(energy);
        self.conservation = c;
    }

    pub fn add_flux_out(&mut self, mdot: Real, energy: Real)
        ensures
            final(self).conservation_spec() == old(self).conservation_spec().with_mdot_out(mdot@).with_energy_out(
                energy@,
            ),
            final(self).state_spec() == old(self).state_spec(),
            final(self).volume_spec() == old(self).volume_spec(),
            final(self).name_spec() == old(self).name_spec(),
    {
        proof {
            use_type_invariant(&*self);
        }
        let mut c = self.conservation;
        c.add_mdot_out(mdot);
        c.add_energy_out(energy);
        self.conservation = c;
    }

    /// The provider request for the state that the current mass and
    /// internal energy describe; `Empty` when there is no mass.
    pub fn du_request(&self) -> (r: Result<FluidProperties, VolumeError>)
        ensures
            self.conservation_spec().mass == 0 ==> r == Err::<FluidProperties, VolumeError>(VolumeError::Empty),
            self.conservation_spec().mass != 0 ==> r is Ok && self.is_du_request(r->Ok_0),
    {
        proof {
            use_type_invariant(self);
        }
        let mass = self.conservation.mass();
        if mass.raw() == 0 {
            return Err(VolumeError::Empty);
        }
        let density = mass.div(&self.volume);
        let sp_inenergy = self.conservation.inenergy().div(&mass);
        Ok(self.intensive_state.update_from_du(density, sp_inenergy))
    }

    /// The volume's part of a tick, once every flow restriction has deposited
    /// its flux: reduce the flux to rates, take one Runge-Kutta step of size
    /// `dt`, and return the request for the state that the new mass and
    /// internal energy describe (`Empty` when no mass is left).
    pub fn update(&mut self, dt: Real) -> (r: Result<FluidProperties, VolumeError>)
        ensures
            final(self).conservation_spec() == rk4_of::<ConserveME>(old(self).conservation_spec().conserved(), dt@),
            final(self).state_spec() == old(self).state_spec(),
            final(self).volume_spec() == old(self).volume_spec(),
            final(self).name_spec() == old(self).name_spec(),
            final(self).conservation_spec().mass == 0 ==> r == Err::<FluidProperties, VolumeError>(VolumeError::Empty),
            final(self).conservation_spec().mass != 0 ==> r is Ok && final(self).is_du_request(r->Ok_0),
    {
        proof {
            use_type_invariant(&*self);
        }
        let mut c = self.conservation;
        c.perform_conservation();
        rk4(&mut c, dt);
        self.conservation = c;
        self.du_request()
    }

    /// Takes `state` as the volume's new state if it is the provider's
    /// answer to the volume's current request; otherwise nothing changes.
    pub fn set_intensive_state(&mut self, state: IntensiveState) -> (r: Result<(), VolumeError>)
        ensures
            final(self).conservation_spec() == old(self).conservation_spec(),
            final(self).volume_spec() == old(self).volume_spec(),
            final(self).name_spec() == old(self).name_spec(),
            old(self).conservation_spec().mass == 0 ==> r == Err::<(), VolumeError>(VolumeError::Empty),
            old(self).conservation_spec().mass != 0 && old(self).is_du_request(state.query()) ==> r is Ok
                && final(self).state_spec() == state,
            r is Ok ==> final(self).state_spec().values_spec().density@ == density_of(
                final(self).conservation_spec().mass,
                final(self).volume_spec(),
            ) && final(self).state_spec().values_spec().sp_inenergy@ == sp_inenergy_of(
                final(self).conservation_spec().inenergy,
                final(self).conservation_spec().mass,
            ),
            old(self).conservation_spec().mass != 0 && !old(self).is_du_request(state.query()) ==> r
                == Err::<(), VolumeError>(VolumeError::WrongState) && final(self).state_spec()
                == old(self).state_spec(),
    {
        proof {
            use_type_invariant(&*self);
        }
        state.lemma_wf();
        let request = self.du_request();
        match request {
            Err(e) => Err(e),
            Ok(q) => {
                proof {
                    broadcast use Real::lemma_view_eq;
                }
                let got = state.props();
                if got.prop1 == q.prop1 && got.value1 == q.value1 && got.prop2 == q.prop2 && got.value2
                    == q.value2 && got.fluid == q.fluid {
                    self.intensive_state = state;
                    Ok(())
                } else {
                    Err(VolumeError::WrongState)
                }
            },
        }
    }
}

/// A control volume of either kind.
#[derive(Debug)]
pub enum Volume {
    Infinite(InfiniteVolume),
    Transient(TransientVolume),
}

impl Volume {
    pub open spec fn state_spec(&self) -> IntensiveState {
        match self {
            Volume::Infinite(v) => v.state_spec(),
            Volume::Transient(v) => v.state_spec(),
        }
    }

    /// The accumulator of a finite volume; a boundary volume has none.
    pub open spec fn conservation_spec(&self) -> Option<ConserveModel> {
        match self {
            Volume::Infinite(_) => None,
            Volume::Transient(v) => Some(v.conservation_spec()),
        }
    }

    pub fn get_intensive_state(&self) -> (r: &IntensiveState)
        ensures
            *r == self.state_spec(),
    {
        match self {
            Volume::Infinite(v) => v.get_intensive_state(),
            Volume::Transient(v) => v.get_intensive_state(),
        }
    }

    pub fn get_conservation(&self) -> (r: Option<&ConserveME>)
        ensures
            self.conservation_spec() is None <==> r is None,
            r is Some ==> self.conservation_spec() == Some(r->Some_0@),
    {
        match self {
            Volume::Infinite(_) => None,
            Volume::Transient(v) => Some(v.get_conservation()),
        }
    }

    /// Deposits inflow into a finite volume; a boundary volume ignores it.
    pub fn add_flux_in(&mut self, mdot: Real, energy: Real)
        ensures
            final(self).state_spec() == old(self).state_spec(),
            final(self).conservation_spec() == match old(self).conservation_spec() {
                None => None,
                Some(c) => Some(c.with_mdot_in(mdot@).with_energy_in(energy@)),
            },
            *old(self) is Infinite ==> *final(self) == *old(self),
            *old(self) is Transient <==> *final(self) is Transient,
            *old(self) is Transient ==> final(self)->Transient_0.name_spec() == old(self)->Transient_0.name_spec()
                && final(self)->Transient_0.volume_spec() == old(self)->Transient_0.volume_spec(),
    {
        match self {
            Volume::Infinite(_) => {},
            Volume::Transient(v) => v.add_flux_in(mdot, energy),
        }
    }

    /// Deposits outflow into a finite volume; a boundary volume ignores it.
    pub fn add_flux_out(&mut self, mdot: Real, energy: Real)
        ensures
            final(self).state_spec() == old(self).state_spec(),
            final(self).conservation_spec() == match old(self).conservation_spec() {
                None => None,
                Some(c) => Some(c.with_mdot_out(mdot@).with_energy_out(energy@)),
            },
            *old(self) is Infinite ==> *final(self) == *old(self),
            *old(self) is Transient <==> *final(self) is Transient,
            *old(self) is Transient ==> final(self)->Transient_0.name_spec() == old(self)->Transient_0.name_spec()
                && final(self)->Transient_0.volume_spec() == old(self)->Transient_0.volume_spec(),
    {
        match self {
            Volume::Infinite(_) => {},
            Volume::Transient(v) => v.add_flux_out(mdot, energy),
        }
    }
}

} // verus!
