//! Thermodynamic states and the queries that an equation-of-state provider
//! answers to produce them.
use vstd::prelude::*;
use crate::fixed::Real;
use crate::fixed::clamp;
use crate::fixed::mul_raw;
use crate::fixed::div_raw;
use crate::fixed::sqrt_raw;
use crate::fixed::whole;
use crate::fixed::in_range;
use crate::fixed::SCALE;
use vstd::arithmetic::div_mod::lemma_fundamental_div_mod;
use vstd::arithmetic::div_mod::lemma_div_multiples_vanish;

verus! {

/// Standard atmospheric pressure, in whole pascals.
pub const STD_ATM_PA: i64 = 101_325;

/// Standard atmospheric temperature in hundredths of a kelvin (273.15 K).
pub const STD_ATM_CENTI_DEGK: i64 = 27_315;

/// The intensive properties that a provider can fix or report.
#[derive(Clone, Copy, Debug, PartialEq, Eq, Structural)]
pub enum Prop {
    Pressure,
    Temperature,
    Density,
    SpInenergy,
    SpEnthalpy,
    SpEntropy,
    Cp,
    Cv,
    Gamma,
    SpeedOfSound,
}

/// The property's name in the provider's vocabulary.
pub open spec fn code_of(p: Prop) -> Seq<char> {
    match p {
        Prop::Pressure => "P"@,
        Prop::Temperature => "T"@,
        Prop::Density => "D"@,
        Prop::SpInenergy => "UMASS"@,
        Prop::SpEnthalpy => "HMASS"@,
        Prop::SpEntropy => "SMASS"@,
        Prop::Cp => "CPMASS"@,
        Prop::Cv => "CVMASS"@,
        Prop::Gamma => "ISENTROPIC_EXPANSION_COEFFICIENT"@,
        Prop::SpeedOfSound => "A"@,
    }
}

impl Prop {
    /// The property's name in the provider's vocabulary.
    pub fn code(&self) -> (r: &'static str)
        ensures
            r@ == code_of(*self),
    {
        match self {
            Prop::Pressure => "P",
            Prop::Temperature => "T",
            Prop::Density => "D",
            Prop::SpInenergy => "UMASS",
            Prop::SpEnthalpy => "HMASS",
            Prop::SpEntropy => "SMASS",
            Prop::Cp => "CPMASS",
            Prop::Cv => "CVMASS",
            Prop::Gamma => "ISENTROPIC_EXPANSION_COEFFICIENT",
            Prop::SpeedOfSound => "A",
        }
    }
}

/// A request to the provider: the state of `fluid` in which `prop1` has
/// `value1` and `prop2` has `value2`.
#[derive(Debug)]
pub struct FluidProperties {
    pub prop1: Prop,
    pub value1: Real,
    pub prop2: Prop,
    pub value2: Real,
    pub fluid: String,
}

impl Clone for FluidProperties {
    fn clone(&self) -> (r: FluidProperties)
        ensures
            r == *self,
    {
        FluidProperties {
            prop1: self.prop1,
            value1: self.value1,
            prop2: self.prop2,
            value2: self.value2,
            fluid: self.fluid.clone(),
        }
    }
}

impl FluidProperties {
    pub fn new(prop1: Prop, value1: Real, prop2: Prop, value2: Real, fluid: &str) -> (r: FluidProperties)
        ensures
            r.prop1 == prop1,
            r.value1 == value1,
            r.prop2 == prop2,
            r.value2 == value2,
            r.fluid@ == fluid@,
    {
        FluidProperties { prop1, value1, prop2, value2, fluid: fluid.to_owned() }
    }

    /// The value that the request itself fixes for `prop`, if it fixes one;
    /// every other property has to come from the provider.
    pub fn lookup(&self, prop: Prop) -> (r: Option<Real>)
        ensures
            r == (if prop == self.prop1 {
                Some(self.value1)
            } else if prop == self.prop2 {
                Some(self.value2)
            } else {
                None::<Real>
            }),
    {
        if prop == self.prop1 {
            return Some(self.value1);
        }
        if prop == self.prop2 {
            return Some(self.value2);
        }
        None
    }
}

/// The ten properties that a provider reports for one state.
#[derive(Clone, Copy, Debug)]
pub struct StateValues {
    pub pressure: Real,
    pub temperature: Real,
    pub density: Real,
    pub sp_inenergy: Real,
    pub sp_enthalpy: Real,
    pub sp_entropy: Real,
    pub cp: Real,
    pub cv: Real,
    pub gamma: Real,
    pub speed_of_sound: Real,
}

/// The value of `p` among `v`.
pub open spec fn value_of(v: StateValues, p: Prop) -> Real {
    match p {
        Prop::Pressure => v.pressure,
        Prop::Temperature => v.temperature,
        Prop::Density => v.density,
        Prop::SpInenergy => v.sp_inenergy,
        Prop::SpEnthalpy => v.sp_enthalpy,
        Prop::SpEntropy => v.sp_entropy,
        Prop::Cp => v.cp,
        Prop::Cv => v.cv,
        Prop::Gamma => v.gamma,
        Prop::SpeedOfSound => v.speed_of_sound,
    }
}

/// Values that a physical single-phase state can have.
pub open spec fn physical(v: StateValues) -> bool {
    v.pressure@ > 0 && v.temperature@ > 0 && v.density@ > 0 && v.speed_of_sound@ >= 0
}

/// `v` answers the request `q`: it agrees with the two values that `q` fixes.
pub open spec fn answers(v: StateValues, q: FluidProperties) -> bool {
    value_of(v, q.prop1) == q.value1 && value_of(v, q.prop2) == q.value2
}

impl StateValues {
    pub fn value(&self, p: Prop) -> (r: Real)
        ensures
            r == value_of(*self, p),
    {
        match p {
            Prop::Pressure => self.pressure,
            Prop::Temperature => self.temperature,
            Prop::Density => self.density,
            Prop::SpInenergy => self.sp_inenergy,
            Prop::SpEnthalpy => self.sp_enthalpy,
            Prop::SpEntropy => self.sp_entropy,
            Prop::Cp => self.cp,
            Prop::Cv => self.cv,
            Prop::Gamma => self.gamma,
            Prop::SpeedOfSound => self.speed_of_sound,
        }
    }
}

/// Why a provider's answer cannot become a state.
#[derive(Clone, Copy, Debug, PartialEq, Eq, Structural)]
pub enum StateError {
    /// The answer disagrees with a value that the request fixed.
    Inconsistent,
    /// Pressure, temperature or density is not positive, or the speed of
    /// sound is negative.
    Unphysical,
}

/// A thermodynamic state: all ten properties of one provider answer,
/// together with the request that produced them.
#[derive(Debug)]
pub struct IntensiveState {
    values: StateValues,
    props: FluidProperties,
}

impl Clone for IntensiveState {
    fn clone(&self) -> (r: IntensiveState)
        ensures
            r.values_spec() == self.values_spec(),
            r.query() == self.query(),
    {
        proof {
            use_type_invariant(self);
        }
        IntensiveState { values: self.values, props: self.props.clone() }
    }
}

impl IntensiveState {
    #[verifier::type_invariant]
    spec fn inv(self) -> bool {
        physical(self.values) && answers(self.values, self.props)
    }

    /// The state's property values.
    pub closed spec fn values_spec(&self) -> StateValues {
        self.values
    }

    /// The request whose answer this state is.
    pub closed spec fn query(&self) -> FluidProperties {
        self.props
    }

    /// Every state is physical and agrees with its request.
    pub fn lemma_wf(&self)
        ensures
            physical(self.values_spec()),
            answers(self.values_spec(), self.query()),
    {
        proof {
            use_type_invariant(self);
        }
    }

    /// The state that the provider's answer `values` to `props` describes.
    pub fn new(props: FluidProperties, values: StateValues) -> (r: Result<IntensiveState, StateError>)
        ensures
            !answers(values, props) ==> r == Err::<IntensiveState, StateError>(StateError::Inconsistent),
            answers(values, props) && !physical(values) ==> r == Err::<IntensiveState, StateError>(
                StateError::Unphysical,
            ),
            answers(values, props) && physical(values) ==> r is Ok && r->Ok_0.values_spec() == values
                && r->Ok_0.query() == props,
    {
        let given1 = values.value(props.prop1);
        let given2 = values.value(props.prop2);
        if !(given1 == props.value1 && given2 == props.value2) {
            return Err(StateError::Inconsistent);
        }
        let zero = Real::zero();
        if !(zero.lt(&values.pressure) && zero.lt(&values.temperature) && zero.lt(&values.density)
            && zero.le(&values.speed_of_sound)) {
            return Err(StateError::Unphysical);
        }
        Ok(IntensiveState { values, props })
    }

    /// The request for the state of `fluid` at `pressure` and `temperature`.
    pub fn new_from_pt(pressure: Real, temperature: Real, fluid: &str) -> (r: FluidProperties)
        ensures
            r.prop1 == Prop::Pressure && r.value1 == pressure,
            r.prop2 == Prop::Temperature && r.value2 == temperature,
            r.fluid@ == fluid@,
    {
        FluidProperties::new(Prop::Pressure, pressure, Prop::Temperature, temperature, fluid)
    }

    /// The request for the state of `fluid` at `density` and specific
    /// internal energy `sp_inenergy`.
    pub fn new_from_du(density: Real, sp_inenergy: Real, fluid: &str) -> (r: FluidProperties)
        ensures
            r.prop1 == Prop::Density && r.value1 == density,
            r.prop2 == Prop::SpInenergy && r.value2 == sp_inenergy,
            r.fluid@ == fluid@,
    {
        FluidProperties::new(Prop::Density, density, Prop::SpInenergy, sp_inenergy, fluid)
    }

    /// The request for the standard atmosphere of `fluid`.
    pub fn atm_query(fluid: &str) -> (r: FluidProperties)
        ensures
            is_atm_query(r),
            r.fluid@ == fluid@,
    {
        let t = Real::from_raw(STD_ATM_CENTI_DEGK as i128 * (crate::fixed::SCALE / 100));
        IntensiveState::new_from_pt(Real::from_int(STD_ATM_PA), t, fluid)
    }

    /// The request that re-derives this fluid's state from `prop1` and
    /// `prop2`; no part of a state is ever changed on its own.
    pub fn update_props(&self, prop1: Prop, value1: Real, prop2: Prop, value2: Real) -> (r: FluidProperties)
        ensures
            r.prop1 == prop1 && r.value1 == value1,
            r.prop2 == prop2 && r.value2 == value2,
            r.fluid@ == self.query().fluid@,
    {
        FluidProperties::new(prop1, value1, prop2, value2, self.props.fluid.as_str())
    }

    /// The request for this fluid at `density` and `sp_inenergy`.
    pub fn update_from_du(&self, density: Real, sp_inenergy: Real) -> (r: FluidProperties)
        ensures
            r.prop1 == Prop::Density && r.value1 == density,
            r.prop2 == Prop::SpInenergy && r.value2 == sp_inenergy,
            r.fluid@ == self.query().fluid@,
    {
        self.update_props(Prop::Density, density, Prop::SpInenergy, sp_inenergy)
    }

    /// The request for this fluid at `pressure` and `temperature`.
    pub fn update_from_pt(&self, pressure: Real, temperature: Real) -> (r: FluidProperties)
        ensures
            r.prop1 == Prop::Pressure && r.value1 == pressure,
            r.prop2 == Prop::Temperature && r.value2 == temperature,
            r.fluid@ == self.query().fluid@,
    {
        self.update_props(Prop::Pressure, pressure, Prop::Temperature, temperature)
    }

    /// The request for the state with `prop` at `value` and this state's
    /// specific entropy.
    pub fn isentropic(&self, prop: Prop, value: Real) -> (r: FluidProperties)
        ensures
            r.prop1 == prop && r.value1 == value,
            r.prop2 == Prop::SpEntropy && r.value2 == self.values_spec().sp_entropy,
            r.fluid@ == self.query().fluid@,
    {
        self.update_props(prop, value, Prop::SpEntropy, self.values.sp_entropy)
    }

    /// The request for the state with `prop` at `value` and this state's
    /// temperature.
    pub fn isothermal(&self, prop: Prop, value: Real) -> (r: FluidProperties)
        ensures
            r.prop1 == prop && r.value1 == value,
            r.prop2 == Prop::Temperature && r.value2 == self.values_spec().temperature,
            r.fluid@ == self.query().fluid@,
    {
        self.update_props(prop, value, Prop::Temperature, self.values.temperature)
    }

    /// The request for the state with `prop` at `value` and this state's
    /// specific enthalpy.
    pub fn isenthalpic(&self, prop: Prop, value: Real) -> (r: FluidProperties)
        ensures
            r.prop1 == prop && r.value1 == value,
            r.prop2 == Prop::SpEnthalpy && r.value2 == self.values_spec().sp_enthalpy,
            r.fluid@ == self.query().fluid@,
    {
        self.update_props(prop, value, Prop::SpEnthalpy, self.values.sp_enthalpy)
    }

    pub fn values(&self) -> (r: StateValues)
        ensures
            r == self.values_spec(),
    {
        self.values
    }

    pub fn props(&self) -> (r: &FluidProperties)
        ensures
            *r == self.query(),
    {
        &self.props
    }

    pub fn pressure(&self) -> (r: Real)
        ensures
            r == self.values_spec().pressure,
    {
        self.values.pressure
    }

    pub fn temperature(&self) -> (r: Real)
        ensures
            r == self.values_spec().temperature,
    {
        self.values.temperature
    }

    pub fn density(&self) -> (r: Real)
        ensures
            r == self.values_spec().density,
    {
        self.values.density
    }

    pub fn sp_inenergy(&self) -> (r: Real)
        ensures
            r == self.values_spec().sp_inenergy,
    {
        self.values.sp_inenergy
    }

    pub fn sp_enthalpy(&self) -> (r: Real)
        ensures
            r == self.values_spec().sp_enthalpy,
    {
        self.values.sp_enthalpy
    }

    pub fn sp_entropy(&self) -> (r: Real)
        ensures
            r == self.values_spec().sp_entropy,
    {
        self.values.sp_entropy
    }

    pub fn cp(&self) -> (r: Real)
        ensures
            r == self.values_spec().cp,
    {
        self.values.cp
    }

    pub fn cv(&self) -> (r: Real)
        ensures
            r == self.values_spec().cv,
    {
        self.values.cv
    }

    pub fn gamma(&self) -> (r: Real)
        ensures
            r == self.values_spec().gamma,
    {
        self.values.gamma
    }

    pub fn speed_of_sound(&self) -> (r: Real)
        ensures
            r == self.values_spec().speed_of_sound,
    {
        self.values.speed_of_sound
    }

    pub fn fluid(&self) -> (r: &String)
        ensures
            r@ == self.query().fluid@,
    {
        &self.props.fluid
    }
}

/// A state derived from a pressure and a temperature gives back exactly
/// that pressure and temperature.
pub proof fn lemma_pt_round_trip(s: IntensiveState, pressure: Real, temperature: Real)
    requires
        answers(s.values_spec(), s.query()),
        s.query().prop1 == Prop::Pressure,
        s.query().value1 == pressure,
        s.query().prop2 == Prop::Temperature,
        s.query().value2 == temperature,
    ensures
        s.values_spec().pressure == pressure,
        s.values_spec().temperature == temperature,
{
}

/// For an ideal gas, a temperature turned into specific internal energy by
/// `sp_energy_pt_lookup` (`u = cv T`) and back by `temperature_du_lookup`
/// (`T = u / cv`) is the same temperature, whenever `cv T` needs no rounding.
pub proof fn lemma_ideal_temperature_round_trip(cv: int, t: int)
    requires
        cv > 0,
        t >= 0,
        in_range(t),
        (cv * t) % (SCALE as int) == 0,
        in_range((cv * t) / (SCALE as int)),
    ensures
        clamp(div_raw(clamp(mul_raw(cv, t)), cv)) == t,
{
    let e = (cv * t) / (SCALE as int);
    lemma_fundamental_div_mod(cv * t, SCALE as int);
    assert(cv * t >= 0) by (nonlinear_arith)
        requires
            cv > 0,
            t >= 0,
    ;
    assert(e >= 0);
    assert(mul_raw(cv, t) == e);
    assert(e * SCALE == cv * t);
    lemma_div_multiples_vanish(t, cv);
    assert(div_raw(e, cv) == (cv * t) / cv);
}

/// Standard atmospheric temperature in raw units.
pub open spec fn atm_temperature() -> int {
    STD_ATM_CENTI_DEGK * (crate::fixed::SCALE / 100)
}

/// A request for the standard atmosphere: pressure and temperature fixed at
/// their standard values.
pub open spec fn is_atm_query(q: FluidProperties) -> bool {
    &&& q.prop1 == Prop::Pressure
    &&& q.value1@ == whole(STD_ATM_PA as int)
    &&& q.prop2 == Prop::Temperature
    &&& q.value2@ == atm_temperature()
}

/// An ideal gas with constant specific heats.
#[derive(Clone, Copy, Debug)]
pub struct IdealGas {
    cp: Real,
    cv: Real,
    sp_r: Real,
}

impl IdealGas {
    #[verifier::type_invariant]
    spec fn inv(self) -> bool {
        self.cv@ > 0 && self.sp_r@ > 0 && self.sp_r@ == self.cp@ - self.cv@
    }

    pub closed spec fn cp_spec(&self) -> int {
        self.cp@
    }

    pub closed spec fn cv_spec(&self) -> int {
        self.cv@
    }

    /// The specific gas constant `r = cp - cv`.
    pub closed spec fn sp_r_spec(&self) -> int {
        self.sp_r@
    }

    /// The gas with specific heats `cp` and `cv`; its specific gas constant is
    /// `cp - cv` by Mayer's relation.
    pub fn new(cp: Real, cv: Real) -> (r: IdealGas)
        requires
            cv@ > 0,
            cp@ > cv@,
        ensures
            r.cp_spec() == cp@,
            r.cv_spec() == cv@,
            r.sp_r_spec() == cp@ - cv@,
    {
        cp.lemma_range();
        cv.lemma_range();
        let sp_r = cp.sub(&cv);
        IdealGas { cp, cv, sp_r }
    }

    /// Density by the ideal gas law, `rho = P / (r T)`.
    pub fn density_pt_lookup(&self, pressure: Real, temperature: Real) -> (r: Real)
        requires
            clamp(mul_raw(self.sp_r_spec(), temperature@)) != 0,
        ensures
            r@ == clamp(div_raw(pressure@, clamp(mul_raw(self.sp_r_spec(), temperature@)))),
    {
        pressure.div(&self.sp_r.mul(&temperature))
    }

    /// Specific enthalpy, `h = cp T`.
    pub fn sp_enthalpy_pt_lookup(&self, pressure: Real, temperature: Real) -> (r: Real)
        ensures
            r@ == clamp(mul_raw(temperature@, self.cp_spec())),
    {
        temperature.mul(&self.cp)
    }

    /// Specific internal energy, `u = cv T`.
    pub fn sp_energy_pt_lookup(&self, pressure: Real, temperature: Real) -> (r: Real)
        ensures
            r@ == clamp(mul_raw(self.cv_spec(), temperature@)),
    {
        self.cv.mul(&temperature)
    }

    /// Ratio of specific heats, `cp / cv`.
    pub fn gamma(&self) -> (r: Real)
        ensures
            r@ == clamp(div_raw(self.cp_spec(), self.cv_spec())),
    {
        proof {
            use_type_invariant(self);
        }
        self.cp.div(&self.cv)
    }

    /// Speed of sound, `sqrt(gamma P / rho)`.
    pub fn speed_of_sound_pd_lookup(&self, pressure: Real, density: Real) -> (r: Real)
        requires
            pressure@ >= 0,
            density@ > 0,
        ensures
            r@ == sqrt_raw(
                clamp(mul_raw(clamp(div_raw(self.cp_spec(), self.cv_spec())), clamp(div_raw(pressure@, density@)))),
            ),
    {
        proof {
            use_type_invariant(self);
        }
        let g = self.gamma();
        let q = pressure.div(&density);
        let x = g.mul(&q);
        proof {
            assert(g@ >= 0) by (nonlinear_arith)
                requires
                    g@ == clamp(div_raw(self.cp@, self.cv@)),
                    self.cp@ > 0,
                    self.cv@ > 0,
            ;
            assert(q@ >= 0) by (nonlinear_arith)
                requires
                    q@ == clamp(div_raw(pressure@, density@)),
                    pressure@ >= 0,
                    density@ > 0,
            ;
            assert(x@ >= 0) by (nonlinear_arith)
                requires
                    x@ == clamp(mul_raw(g@, q@)),
                    g@ >= 0,
                    q@ >= 0,
            ;
        }
        x.sqrt()
    }

    /// Pressure from density and specific internal energy by the ideal gas
    /// law with `T = u / cv`: `P = u rho r / cv`.
    pub fn pressure_du_lookup(&self, density: Real, sp_energy: Real) -> (r: Real)
        ensures
            r@ == clamp(div_raw(clamp(mul_raw(clamp(mul_raw(sp_energy@, density@)), self.sp_r_spec())), self.cv_spec())),
    {
        proof {
            use_type_invariant(self);
        }
        sp_energy.mul(&density).mul(&self.sp_r).div(&self.cv)
    }

    /// Temperature from specific internal energy, `T = u / cv`.
    pub fn temperature_du_lookup(&self, density: Real, sp_energy: Real) -> (r: Real)
        ensures
            r@ == clamp(div_raw(sp_energy@, self.cv_spec())),
    {
        proof {
            use_type_invariant(self);
        }
        sp_energy.div(&self.cv)
    }
}

} // verus!
