//! Flow restrictions: the mass flow through a real-fluid orifice, choked
//! or not, between an upstream and a downstream state.
use vstd::prelude::*;
use crate::fixed::Real;
use crate::fixed::clamp;
use crate::fixed::mul_raw;
use crate::fixed::sqrt_raw;
use crate::fixed::whole;
use crate::properties::IntensiveState;
use crate::properties::StateValues;
use crate::properties::Prop;

verus! {

/// Pressure difference below which no flow is computed: 1e-5 Pa, in raw
/// units. Solving near equilibrium is ill-conditioned.
pub const MIN_DP_RAW: i128 = 10_000_000;

/// Upstream to downstream pressure ratio at and above which the flow is
/// taken as choked without trying the unchoked solution first.
pub const UNCHOKED_RATIO_LIMIT: i64 = 5;

/// Raw throat velocity of an isenthalpic expansion from specific enthalpy
/// `h_up` to `h_down`: `sqrt(2 (h_up - h_down))`.
pub open spec fn throat_vel_of(h_up: int, h_down: int) -> int {
    sqrt_raw(clamp(mul_raw(whole(2), clamp(h_up - h_down))))
}

/// Raw mass flow `velocity * density * cda`.
pub open spec fn mdot_of(cda: int, density: int, velocity: int) -> int {
    clamp(mul_raw(clamp(mul_raw(velocity, density)), cda))
}

/// The pressure drop is too small to drive a flow.
pub open spec fn dp_negligible(p_in: int, p_out: int) -> bool {
    clamp(p_in - p_out) < MIN_DP_RAW
}

/// The pressure ratio `p_in / p_out` is below `limit`.
pub open spec fn ratio_below(p_in: int, p_out: int, limit: int) -> bool {
    p_in < clamp(mul_raw(p_out, limit))
}

/// The isenthalpic expansion into the downstream state stays at or below
/// the downstream speed of sound.
pub open spec fn subsonic(i: StateValues, o: StateValues) -> bool {
    i.sp_enthalpy@ >= o.sp_enthalpy@ && throat_vel_of(i.sp_enthalpy@, o.sp_enthalpy@) <= o.speed_of_sound@
}

/// The outcome of `calc_mdot` on an orifice `m` between upstream values `i`
/// and downstream values `o`: the step reached and the orifice after it.
pub open spec fn calc_mdot_of(m: OrificeModel, i: StateValues, o: StateValues) -> (FlowStep, OrificeModel) {
    if dp_negligible(i.pressure@, o.pressure@) {
        (FlowStep::Settled, OrificeModel { mdot: 0, velocity: 0, is_choked: false, ..m })
    } else if ratio_below(i.pressure@, o.pressure@, m.ratio_limit) && subsonic(i, o) {
        let v = throat_vel_of(i.sp_enthalpy@, o.sp_enthalpy@);
        (FlowStep::Settled, OrificeModel { mdot: mdot_of(m.cda, o.density@, v), velocity: v, is_choked: false, ..m })
    } else {
        (FlowStep::Choked, OrificeModel { mdot: 0, velocity: 0, is_choked: true, ..m })
    }
}

/// With the upstream state fixed, lowering the downstream pressure of a
/// choked flow leaves it choked, and leaves the orifice exactly as the
/// higher downstream pressure did: the mass flow no longer depends on it.
pub proof fn lemma_choked_flow_invariance(m: OrificeModel, i: StateValues, o: StateValues, lower: Real)
    requires
        m.ratio_limit >= 0,
        calc_mdot_of(m, i, o).0 == FlowStep::Choked,
        0 < lower@ < o.pressure@,
    ensures
        calc_mdot_of(m, i, StateValues { pressure: lower, ..o }) == calc_mdot_of(m, i, o),
{
    let o2 = StateValues { pressure: lower, ..o };
    crate::fixed::lemma_mul_monotone(lower@, o.pressure@, m.ratio_limit);
    assert(!dp_negligible(i.pressure@, o2.pressure@));
    assert(subsonic(i, o2) == subsonic(i, o));
}

/// The velocity of an isenthalpic expansion from `upstream_sp_enthalpy` to
/// `downstream_sp_enthalpy`, `sqrt(2 (h_up - h_down))`; `None` when the
/// downstream enthalpy is the larger, which no expansion reaches.
pub fn throat_vel(upstream_sp_enthalpy: Real, downstream_sp_enthalpy: Real) -> (r: Option<Real>)
    ensures
        upstream_sp_enthalpy@ < downstream_sp_enthalpy@ <==> r is None,
        r is Some ==> r->Some_0@ == throat_vel_of(upstream_sp_enthalpy@, downstream_sp_enthalpy@),
        r is Some ==> r->Some_0@ >= 0,
{
    if upstream_sp_enthalpy.lt(&downstream_sp_enthalpy) {
        return None;
    }
    let dh = upstream_sp_enthalpy.sub(&downstream_sp_enthalpy);
    let twice = Real::from_int(2).mul(&dh);
    proof {
        crate::fixed::lemma_mul_nonneg(whole(2), dh@);
    }
    Some(twice.sqrt())
}

/// Mass flow `velocity * density * cda`.
pub fn mdot(cda: Real, density: Real, velocity: Real) -> (r: Real)
    ensures
        r@ == mdot_of(cda@, density@, velocity@),
{
    velocity.mul(&density).mul(&cda)
}

/// The residual whose root is the choked throat pressure: the speed of sound
/// at `throat` (an isentropic expansion of `upstream`) minus the velocity
/// that the enthalpy drop from `upstream` to `throat` gives. `None` when the
/// throat enthalpy exceeds the upstream one.
pub fn throat_residual(upstream: &IntensiveState, throat: &IntensiveState) -> (r: Option<Real>)
    ensures
        upstream.values_spec().sp_enthalpy@ < throat.values_spec().sp_enthalpy@ <==> r is None,
        r is Some ==> r->Some_0@ == clamp(
            throat.values_spec().speed_of_sound@ - throat_vel_of(
                upstream.values_spec().sp_enthalpy@,
                throat.values_spec().sp_enthalpy@,
            ),
        ),
{
    match throat_vel(upstream.sp_enthalpy(), throat.sp_enthalpy()) {
        None => None,
        Some(v) => Some(throat.speed_of_sound().sub(&v)),
    }
}

/// What an orifice holds, in raw units.
pub struct OrificeModel {
    pub mdot: int,
    pub cda: int,
    pub velocity: int,
    pub is_choked: bool,
    pub connection_in: nat,
    pub connection_out: nat,
    pub ratio_limit: int,
}

/// How far `calc_mdot` got.
#[derive(Clone, Copy, Debug, PartialEq, Eq, Structural)]
pub enum FlowStep {
    /// The mass flow and throat velocity are known.
    Settled,
    /// The flow is choked: the throat state must be found by a root solve
    /// of `throat_residual` and handed to `finish_choked`.
    Choked,
}

/// Why a throat state was refused.
#[derive(Clone, Copy, Debug, PartialEq, Eq, Structural)]
pub enum FlowError {
    /// The flow was not found choked by the last `calc_mdot`.
    NotChoked,
    /// The state is not an isentropic expansion of the upstream state to a
    /// given pressure.
    NotIsentropic,
    /// The throat pressure lies outside the range from the downstream to the
    /// upstream pressure.
    OutsideBracket,
}

/// A real-fluid orifice between two volumes of a network, named by their
/// handles: `connection_in` upstream, `connection_out` downstream.
#[derive(Debug)]
pub struct RealOrifice {
    node_name: String,
    mdot: Real,
    cda: Real,
    velocity: Real,
    is_choked: bool,
    connection_in: usize,
    connection_out: usize,
    ratio_limit: Real,
}

impl View for RealOrifice {
    type V = OrificeModel;

    closed spec fn view(&self) -> OrificeModel {
        OrificeModel {
            mdot: self.mdot@,
            cda: self.cda@,
            velocity: self.velocity@,
            is_choked: self.is_choked,
            connection_in: self.connection_in as nat,
            connection_out: self.connection_out as nat,
            ratio_limit: self.ratio_limit@,
        }
    }
}

impl RealOrifice {
    #[verifier::type_invariant]
    spec fn inv(self) -> bool {
        self.cda@ >= 0 && self.mdot@ >= 0 && self.velocity@ >= 0
    }

    pub closed spec fn name_spec(&self) -> Seq<char> {
        self.node_name@
    }

    /// Cda, mass flow and throat velocity are never negative.
    pub fn lemma_wf(&self)
        ensures
            self@.cda >= 0 && self@.mdot >= 0 && self@.velocity >= 0,
    {
        proof {
            use_type_invariant(self);
        }
    }

    /// An orifice of effective area `cda` from volume `connection_in` to
    /// volume `connection_out`, with no flow yet and the default pressure
    /// ratio limit.
    pub fn new(node_name: &str, cda: Real, connection_in: usize, connection_out: usize) -> (r: RealOrifice)
        requires
            cda@ >= 0,
        ensures
            r.name_spec() == node_name@,
            r@ == (OrificeModel {
                mdot: 0,
                cda: cda@,
                velocity: 0,
                is_choked: false,
                connection_in: connection_in as nat,
                connection_out: connection_out as nat,
                ratio_limit: whole(UNCHOKED_RATIO_LIMIT as int),
            }),
    {
        RealOrifice {
            node_name: node_name.to_owned(),
            mdot: Real::zero(),
            cda,
            velocity: Real::zero(),
            is_choked: false,
            connection_in,
            connection_out,
            ratio_limit: Real::from_int(UNCHOKED_RATIO_LIMIT),
        }
    }

    /// The same orifice with another pressure ratio limit.
    pub fn with_ratio_limit(self, limit: Real) -> (r: RealOrifice)
        ensures
            r.name_spec() == self.name_spec(),
            r@ == (OrificeModel { ratio_limit: limit@, ..self@ }),
    {
        proof {
            use_type_invariant(&self);
        }
        RealOrifice { ratio_limit: limit, ..self }
    }

    /// Decides the flow regime from the upstream and downstream states.
    ///
    /// A pressure drop under `MIN_DP_RAW` gives no flow. Otherwise, when the
    /// pressure ratio is below the limit and the isenthalpic throat velocity
    /// `sqrt(2 (h_in - h_out))` does not exceed the downstream speed of
    /// sound, the flow is unchoked with mass flow `v * rho_out * cda`. In
    /// every other case it is choked, and the mass flow waits for the throat
    /// state (`finish_choked`).
    pub fn calc_mdot(&mut self, state_in: &IntensiveState, state_out: &IntensiveState) -> (r: FlowStep)
        ensures
            final(self).name_spec() == old(self).name_spec(),
            (r, final(self)@) == calc_mdot_of(old(self)@, state_in.values_spec(), state_out.values_spec()),
            final(self)@.mdot >= 0,
    {
        proof {
            use_type_invariant(&*self);
        }
        state_out.lemma_wf();
        let p_in = state_in.pressure();
        let p_out = state_out.pressure();
        if p_in.sub(&p_out).raw() < MIN_DP_RAW {
            self.mdot = Real::zero();
            self.velocity = Real::zero();
            self.is_choked = false;
            return FlowStep::Settled;
        }
        if p_in.lt(&p_out.mul(&self.ratio_limit)) {
            match throat_vel(state_in.sp_enthalpy(), state_out.sp_enthalpy()) {
                Some(v) => {
                    if v.le(&state_out.speed_of_sound()) {
                        let m = mdot(self.cda, state_out.density(), v);
                        proof {
                            crate::fixed::lemma_mdot_nonneg(self.cda@, state_out.values_spec().density@, v@);
                        }
                        self.velocity = v;
                        self.mdot = m;
                        self.is_choked = false;
                        return FlowStep::Settled;
                    }
                },
                None => {},
            }
        }
        self.mdot = Real::zero();
        self.velocity = Real::zero();
        self.is_choked = true;
        FlowStep::Choked
    }

    /// Completes a choked flow from the throat state: the isentropic
    /// expansion of `upstream` to the throat pressure. The throat velocity is
    /// the throat's speed of sound and the mass flow
    /// `a_throat * rho_throat * cda`. The throat pressure must lie between the
    /// downstream and the upstream pressure.
    pub fn finish_choked(&mut self, upstream: &IntensiveState, downstream: &IntensiveState, throat: &IntensiveState) -> (r:
        Result<Real, FlowError>)
        ensures
            final(self).name_spec() == old(self).name_spec(),
            !old(self)@.is_choked ==> r == Err::<Real, FlowError>(FlowError::NotChoked) && final(self)@ == old(
                self,
            )@,
            old(self)@.is_choked && !is_isentropic_from(upstream, throat) ==> r == Err::<Real, FlowError>(
                FlowError::NotIsentropic,
            ) && final(self)@ == old(self)@,
            old(self)@.is_choked && is_isentropic_from(upstream, throat) && !in_bracket(upstream, downstream, throat)
                ==> r == Err::<Real, FlowError>(FlowError::OutsideBracket) && final(self)@ == old(self)@,
            old(self)@.is_choked && is_isentropic_from(upstream, throat) && in_bracket(upstream, downstream, throat)
                ==> ({
                let t = throat.values_spec();
                let m = mdot_of(old(self)@.cda, t.density@, t.speed_of_sound@);
                &&& r is Ok
                &&& r->Ok_0@ == m
                &&& final(self)@ == (OrificeModel { mdot: m, velocity: t.speed_of_sound@, ..old(self)@ })
            }),
            final(self)@.mdot >= 0,
    {
        proof {
            use_type_invariant(&*self);
        }
        if !self.is_choked {
            return Err(FlowError::NotChoked);
        }
        let q = throat.props();
        let u = upstream.props();
        if !(q.prop1 == Prop::Pressure && q.prop2 == Prop::SpEntropy && q.value2 == upstream.sp_entropy() && q.fluid
            == u.fluid) {
            return Err(FlowError::NotIsentropic);
        }
        let p = throat.pressure();
        if !(downstream.pressure().le(&p) && p.le(&upstream.pressure())) {
            return Err(FlowError::OutsideBracket);
        }
        throat.lemma_wf();
        let a = throat.speed_of_sound();
        let m = mdot(self.cda, throat.density(), a);
        proof {
            crate::fixed::lemma_mdot_nonneg(self.cda@, throat.values_spec().density@, a@);
        }
        self.velocity = a;
        self.mdot = m;
        Ok(m)
    }

    pub fn get_mdot(&self) -> (r: Real)
        ensures
            r@ == self@.mdot,
    {
        self.mdot
    }

    pub fn cda(&self) -> (r: Real)
        ensures
            r@ == self@.cda,
    {
        self.cda
    }

    pub fn velocity(&self) -> (r: Real)
        ensures
            r@ == self@.velocity,
    {
        self.velocity
    }

    pub fn is_choked(&self) -> (r: bool)
        ensures
            r == self@.is_choked,
    {
        self.is_choked
    }

    pub fn ratio_limit(&self) -> (r: Real)
        ensures
            r@ == self@.ratio_limit,
    {
        self.ratio_limit
    }

    pub fn get_connection_in(&self) -> (r: usize)
        ensures
            r == self@.connection_in,
    {
        self.connection_in
    }

    pub fn get_connection_out(&self) -> (r: usize)
        ensures
            r == self@.connection_out,
    {
        self.connection_out
    }

    pub fn node_name(&self) -> (r: &String)
        ensures
            r@ == self.name_spec(),
    {
        &self.node_name
    }
}

/// The throat pressure lies between the downstream and the upstream
/// pressure.
pub open spec fn in_bracket(upstream: &IntensiveState, downstream: &IntensiveState, throat: &IntensiveState) -> bool {
    downstream.values_spec().pressure@ <= throat.values_spec().pressure@ <= upstream.values_spec().pressure@
}

/// `throat` is the state of `upstream`'s fluid at some pressure with
/// `upstream`'s specific entropy.
pub open spec fn is_isentropic_from(upstream: &IntensiveState, throat: &IntensiveState) -> bool {
    let q = throat.query();
    &&& q.prop1 == Prop::Pressure
    &&& q.prop2 == Prop::SpEntropy
    &&& q.value2 == upstream.values_spec().sp_entropy
    &&& q.fluid@ == upstream.query().fluid@
}

} // verus!
