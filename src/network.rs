//! A network of volumes and orifices held in an arena. Orifices name their
//! volumes by handle, so any number of them can share a volume.
//!
//! A tick runs in two phases. First each orifice decides its flow
//! (`calc_flow`, and for a choked flow `finish_choked` with the throat state
//! that a root solve found) and deposits it (`transfer_state`). Then each
//! volume reduces its flux and integrates (`update_volume`) and takes the
//! provider's answer as its new state (`set_volume_state`).
use vstd::prelude::*;
use crate::fixed::Real;
use crate::fixed::clamp;
use crate::fixed::mul_raw;
use crate::conservation::ConserveModel;
use crate::integration::rk4_of;
use crate::conservation::ConserveME;
use crate::flow::FlowError;
use crate::flow::FlowStep;
use crate::flow::RealOrifice;
use crate::flow::calc_mdot_of;
use crate::flow::OrificeModel;
use crate::flow::is_isentropic_from;
use crate::flow::in_bracket;
use crate::properties::FluidProperties;
use crate::properties::IntensiveState;
use crate::properties::Prop;
use crate::volume::Volume;
use crate::volume::VolumeError;

verus! {

/// Why an orifice cannot join the network.
#[derive(Clone, Copy, Debug, PartialEq, Eq, Structural)]
pub enum NetworkError {
    /// A handle names no volume of the network.
    UnknownVolume,
    /// Both ends are the same volume.
    SameVolume,
}

/// Inflow deposited into an accumulator, if the volume has one.
pub open spec fn deposited_in(c: Option<ConserveModel>, mdot: int, energy: int) -> Option<ConserveModel> {
    match c {
        None => None,
        Some(c) => Some(c.with_mdot_in(mdot).with_energy_in(energy)),
    }
}

/// Outflow deposited into an accumulator, if the volume has one.
pub open spec fn deposited_out(c: Option<ConserveModel>, mdot: int, energy: int) -> Option<ConserveModel> {
    match c {
        None => None,
        Some(c) => Some(c.with_mdot_out(mdot).with_energy_out(energy)),
    }
}

/// One orifice's deposit applied to the accounts of all volumes: inflow
/// into its downstream volume, outflow from its upstream one, both carrying
/// the upstream specific enthalpy `h`.
pub open spec fn deposit_step(acc: Seq<Option<ConserveModel>>, o: OrificeModel, h: int) -> Seq<
    Option<ConserveModel>,
> {
    let e = clamp(mul_raw(o.mdot, h));
    let a1 = acc.update(o.connection_out as int, deposited_in(acc[o.connection_out as int], o.mdot, e));
    a1.update(o.connection_in as int, deposited_out(a1[o.connection_in as int], o.mdot, e))
}

/// The deposits of the first `n` orifices, in order.
pub open spec fn deposit_first(acc: Seq<Option<ConserveModel>>, os: Seq<OrificeModel>, hs: Seq<int>, n: nat) -> Seq<
    Option<ConserveModel>,
>
    decreases n,
{
    if n == 0 {
        acc
    } else {
        deposit_step(deposit_first(acc, os, hs, (n - 1) as nat), os[n - 1], hs[n - 1])
    }
}

/// Volumes and the orifices that join them.
#[derive(Debug)]
pub struct Network {
    volumes: Vec<Volume>,
    orifices: Vec<RealOrifice>,
}

impl Network {
    pub closed spec fn volumes_spec(&self) -> Seq<Volume> {
        self.volumes@
    }

    pub closed spec fn orifices_spec(&self) -> Seq<RealOrifice> {
        self.orifices@
    }

    /// Every orifice joins two different volumes of the network.
    pub open spec fn wf(&self) -> bool {
        forall|i: int|
            0 <= i < self.orifices_spec().len() ==> {
                let o = #[trigger] self.orifices_spec()[i]@;
                &&& o.connection_in < self.volumes_spec().len()
                &&& o.connection_out < self.volumes_spec().len()
                &&& o.connection_in != o.connection_out
            }
    }

    /// Well-formedness depends only on the orifices and on how many volumes
    /// there are.
    pub proof fn lemma_wf_frame(a: &Network, b: &Network)
        requires
            a.wf(),
            b.orifices_spec() == a.orifices_spec(),
            b.volumes_spec().len() >= a.volumes_spec().len(),
        ensures
            b.wf(),
    {
        assert forall|i: int| 0 <= i < b.orifices_spec().len() implies {
            let o = #[trigger] b.orifices_spec()[i]@;
            &&& o.connection_in < b.volumes_spec().len()
            &&& o.connection_out < b.volumes_spec().len()
            &&& o.connection_in != o.connection_out
        } by {
            assert(b.orifices_spec()[i] == a.orifices_spec()[i]);
        }
    }

    pub fn new() -> (r: Network)
        ensures
            r.wf(),
            r.volumes_spec().len() == 0,
            r.orifices_spec().len() == 0,
    {
        Network { volumes: Vec::new(), orifices: Vec::new() }
    }

    /// Adds a volume and returns its handle.
    pub fn add_volume(&mut self, v: Volume) -> (r: usize)
        requires
            old(self).wf(),
            old(self).volumes_spec().len() < usize::MAX,
        ensures
            final(self).wf(),
            r == old(self).volumes_spec().len(),
            final(self).volumes_spec() == old(self).volumes_spec().push(v),
            final(self).orifices_spec() == old(self).orifices_spec(),
    {
        let r = self.volumes.len();
        self.volumes.push(v);
        proof {
            Network::lemma_wf_frame(old(self), self);
        }
        r
    }

    /// Adds an orifice and returns its handle, if both its volumes are in
    /// the network and differ.
    pub fn add_orifice(&mut self, o: RealOrifice) -> (r: Result<usize, NetworkError>)
        requires
            old(self).wf(),
        ensures
            final(self).wf(),
            final(self).volumes_spec() == old(self).volumes_spec(),
            ({
                let n = old(self).volumes_spec().len();
                if o@.connection_in >= n || o@.connection_out >= n {
                    r == Err::<usize, NetworkError>(NetworkError::UnknownVolume) && final(self).orifices_spec()
                        == old(self).orifices_spec()
                } else if o@.connection_in == o@.connection_out {
                    r == Err::<usize, NetworkError>(NetworkError::SameVolume) && final(self).orifices_spec()
                        == old(self).orifices_spec()
                } else {
                    r == Ok::<usize, NetworkError>(old(self).orifices_spec().len() as usize)
                        && final(self).orifices_spec() == old(self).orifices_spec().push(o)
                }
            }),
    {
        let a = o.get_connection_in();
        let b = o.get_connection_out();
        if a >= self.volumes.len() || b >= self.volumes.len() {
            return Err(NetworkError::UnknownVolume);
        }
        if a == b {
            return Err(NetworkError::SameVolume);
        }
        let r = self.orifices.len();
        self.orifices.push(o);
        proof {
            assert forall|i: int| 0 <= i < self.orifices_spec().len() implies {
                let o = #[trigger] self.orifices_spec()[i]@;
                &&& o.connection_in < self.volumes_spec().len()
                &&& o.connection_out < self.volumes_spec().len()
                &&& o.connection_in != o.connection_out
            } by {
                if i < old(self).orifices_spec().len() {
                    assert(self.orifices_spec()[i] == old(self).orifices_spec()[i]);
                }
            }
        }
        Ok(r)
    }

    /// The accumulator of every volume (`None` for a boundary volume).
    pub open spec fn accounts(&self) -> Seq<Option<ConserveModel>> {
        Seq::new(self.volumes_spec().len(), |j: int| self.volumes_spec()[j].conservation_spec())
    }

    /// Volume `w` is what `v` was, but for the running sums of a finite
    /// volume.
    pub open spec fn same_but_sums(v: Volume, w: Volume) -> bool {
        &&& (v is Infinite ==> w == v)
        &&& (v is Transient ==> w is Transient && w->Transient_0.name_spec() == v->Transient_0.name_spec()
            && w->Transient_0.volume_spec() == v->Transient_0.volume_spec())
    }

    /// The state of every volume.
    pub open spec fn states(&self) -> Seq<IntensiveState> {
        Seq::new(self.volumes_spec().len(), |j: int| self.volumes_spec()[j].state_spec())
    }

    pub open spec fn orifice_models(&self) -> Seq<OrificeModel> {
        Seq::new(self.orifices_spec().len(), |i: int| self.orifices_spec()[i]@)
    }

    /// The upstream specific enthalpy of every orifice.
    pub open spec fn upstream_enthalpies(&self) -> Seq<int> {
        Seq::new(self.orifices_spec().len(), |i: int| self.upstream_of(i).values_spec().sp_enthalpy@)
    }

    /// First phase of a tick: every orifice decides its flow from the
    /// current states. The result tells, orifice by orifice, whose flow is
    /// choked and still waits for its throat state.
    pub fn calc_all_flows(&mut self) -> (r: Vec<bool>)
        requires
            old(self).wf(),
        ensures
            final(self).wf(),
            final(self).volumes_spec() == old(self).volumes_spec(),
            final(self).orifices_spec().len() == old(self).orifices_spec().len(),
            r@.len() == old(self).orifices_spec().len(),
            forall|i: int|
                0 <= i < r@.len() ==> {
                    let out = calc_mdot_of(
                        old(self).orifices_spec()[i]@,
                        old(self).upstream_of(i).values_spec(),
                        old(self).downstream_of(i).values_spec(),
                    );
                    &&& #[trigger] r@[i] == (out.0 == FlowStep::Choked)
                    &&& final(self).orifices_spec()[i]@ == out.1
                    &&& final(self).orifices_spec()[i].name_spec() == old(self).orifices_spec()[i].name_spec()
                },
    {
        let n = self.orifices.len();
        let mut r: Vec<bool> = Vec::new();
        let mut i: usize = 0;
        while i < n
            invariant
                self.wf(),
                0 <= i <= n,
                n == self.orifices_spec().len(),
                n == old(self).orifices_spec().len(),
                self.volumes_spec() == old(self).volumes_spec(),
                r@.len() == i,
                forall|k: int|
                    i <= k < n ==> #[trigger] self.orifices_spec()[k] == old(self).orifices_spec()[k],
                forall|k: int|
                    0 <= k < i ==> {
                        let out = calc_mdot_of(
                            old(self).orifices_spec()[k]@,
                            old(self).upstream_of(k).values_spec(),
                            old(self).downstream_of(k).values_spec(),
                        );
                        &&& #[trigger] r@[k] == (out.0 == FlowStep::Choked)
                        &&& self.orifices_spec()[k]@ == out.1
                        &&& self.orifices_spec()[k].name_spec() == old(self).orifices_spec()[k].name_spec()
                    },
            decreases n - i,
        {
            let step = self.calc_flow(i);
            r.push(step == FlowStep::Choked);
            i = i + 1;
        }
        r
    }

    /// Second phase of a tick: every orifice deposits its flow, in order.
    pub fn transfer_all(&mut self)
        requires
            old(self).wf(),
        ensures
            final(self).wf(),
            final(self).orifices_spec() == old(self).orifices_spec(),
            final(self).volumes_spec().len() == old(self).volumes_spec().len(),
            final(self).states() == old(self).states(),
            forall|j: int|
                0 <= j < old(self).volumes_spec().len() ==> #[trigger] Network::same_but_sums(
                    old(self).volumes_spec()[j],
                    final(self).volumes_spec()[j],
                ),
            final(self).accounts() == deposit_first(
                old(self).accounts(),
                old(self).orifice_models(),
                old(self).upstream_enthalpies(),
                old(self).orifices_spec().len(),
            ),
    {
        let n = self.orifices.len();
        let mut i: usize = 0;
        assert(self.states() =~= old(self).states());
        while i < n
            invariant
                self.wf(),
                0 <= i <= n,
                n == self.orifices_spec().len(),
                self.orifices_spec() == old(self).orifices_spec(),
                self.volumes_spec().len() == old(self).volumes_spec().len(),
                self.states() == old(self).states(),
                forall|j: int|
                    0 <= j < self.volumes_spec().len() ==> #[trigger] Network::same_but_sums(
                        old(self).volumes_spec()[j],
                        self.volumes_spec()[j],
                    ),
                self.accounts() == deposit_first(
                    old(self).accounts(),
                    old(self).orifice_models(),
                    old(self).upstream_enthalpies(),
                    i as nat,
                ),
            decreases n - i,
        {
            let ghost before = *self;
            self.transfer_state(i);
            proof {
                let o = before.orifices_spec()[i as int]@;
                assert(o == old(self).orifice_models()[i as int]);
                assert(before.states()[o.connection_in as int] == old(self).states()[o.connection_in as int]);
                assert(before.upstream_of(i as int) == old(self).upstream_of(i as int));
                assert(self.states() =~= old(self).states()) by {
                    assert forall|j: int| 0 <= j < self.volumes_spec().len() implies #[trigger] self.states()[j]
                        == old(self).states()[j] by {
                        assert(self.volumes_spec()[j].state_spec() == before.volumes_spec()[j].state_spec());
                        assert(before.states()[j] == old(self).states()[j]);
                    }
                }
                let h = old(self).upstream_enthalpies()[i as int];
                let expected = deposit_step(before.accounts(), o, h);
                assert forall|j: int| 0 <= j < self.volumes_spec().len() implies #[trigger] self.accounts()[j]
                    == expected[j] by {
                    assert(self.volumes_spec()[j].state_spec() == before.volumes_spec()[j].state_spec());
                    assert(before.accounts()[j] == before.volumes_spec()[j].conservation_spec());
                    assert(self.accounts()[j] == self.volumes_spec()[j].conservation_spec());
                }
                assert(self.accounts() =~= expected);
                assert forall|j: int| 0 <= j < self.volumes_spec().len() implies #[trigger] Network::same_but_sums(
                    old(self).volumes_spec()[j],
                    self.volumes_spec()[j],
                ) by {
                    assert(self.volumes_spec()[j].state_spec() == before.volumes_spec()[j].state_spec());
                    assert(Network::same_but_sums(old(self).volumes_spec()[j], before.volumes_spec()[j]));
                }
            }
            i = i + 1;
        }
    }

    /// What `update_volume` leaves of volume `v`, which was `before`.
    pub open spec fn volume_updated(before: Volume, v: Volume, request: Option<FluidProperties>, dt: int) -> bool {
        match before {
            Volume::Infinite(_) => request is None && v == before,
            Volume::Transient(t) => {
                let c = rk4_of::<ConserveME>(t.conservation_spec().conserved(), dt);
                &&& v is Transient
                &&& v.conservation_spec() == Some(c)
                &&& v.state_spec() == before.state_spec()
                &&& c.mass != 0
                &&& request is Some
                &&& v->Transient_0.is_du_request(request->Some_0)
            },
        }
    }

    /// Third phase of a tick, once every flow is deposited: every finite
    /// volume reduces its flux and integrates one step of size `dt`. The
    /// result holds, volume by volume, the request for its next state
    /// (`None` for a boundary volume). The tick stops at the first volume
    /// left without mass.
    pub fn update_all_volumes(&mut self, dt: Real) -> (r: Result<Vec<Option<FluidProperties>>, (usize, VolumeError)>)
        requires
            old(self).wf(),
        ensures
            final(self).wf(),
            final(self).orifices_spec() == old(self).orifices_spec(),
            final(self).volumes_spec().len() == old(self).volumes_spec().len(),
            r is Ok ==> r->Ok_0@.len() == old(self).volumes_spec().len() && forall|j: int|
                0 <= j < old(self).volumes_spec().len() ==> #[trigger] Network::volume_updated(
                    old(self).volumes_spec()[j],
                    final(self).volumes_spec()[j],
                    r->Ok_0@[j],
                    dt@,
                ),
            r is Err ==> ({
                let j = r->Err_0.0 as int;
                &&& r->Err_0.1 == VolumeError::Empty
                &&& 0 <= j < old(self).volumes_spec().len()
                &&& old(self).volumes_spec()[j] is Transient
                &&& final(self).volumes_spec()[j].conservation_spec() == Some(
                    rk4_of::<ConserveME>(old(self).volumes_spec()[j].conservation_spec()->Some_0.conserved(), dt@),
                )
                &&& final(self).volumes_spec()[j].conservation_spec()->Some_0.mass == 0
            }),
    {
        let n = self.volumes.len();
        let mut r: Vec<Option<FluidProperties>> = Vec::new();
        let mut j: usize = 0;
        while j < n
            invariant
                self.wf(),
                0 <= j <= n,
                n == self.volumes_spec().len(),
                n == old(self).volumes_spec().len(),
                self.orifices_spec() == old(self).orifices_spec(),
                r@.len() == j,
                forall|k: int| j <= k < n ==> #[trigger] self.volumes_spec()[k] == old(self).volumes_spec()[k],
                forall|k: int|
                    0 <= k < j ==> #[trigger] Network::volume_updated(
                        old(self).volumes_spec()[k],
                        self.volumes_spec()[k],
                        r@[k],
                        dt@,
                    ),
            decreases n - j,
        {
            let ghost before = *self;
            match self.update_volume(j, dt) {
                Ok(q) => {
                    r.push(q);
                },
                Err(e) => {
                    return Err((j, e));
                },
            }
            proof {
                assert forall|k: int| 0 <= k < j implies #[trigger] Network::volume_updated(
                    old(self).volumes_spec()[k],
                    self.volumes_spec()[k],
                    r@[k],
                    dt@,
                ) by {
                    assert(self.volumes_spec()[k] == before.volumes_spec()[k]);
                }
            }
            j = j + 1;
        }
        Ok(r)
    }

    pub fn volume_count(&self) -> (r: usize)
        ensures
            r == self.volumes_spec().len(),
    {
        self.volumes.len()
    }

    pub fn orifice_count(&self) -> (r: usize)
        ensures
            r == self.orifices_spec().len(),
    {
        self.orifices.len()
    }

    pub fn volume(&self, j: usize) -> (r: &Volume)
        requires
            j < self.volumes_spec().len(),
        ensures
            *r == self.volumes_spec()[j as int],
    {
        &self.volumes[j]
    }

    pub fn orifice(&self, i: usize) -> (r: &RealOrifice)
        requires
            i < self.orifices_spec().len(),
        ensures
            *r == self.orifices_spec()[i as int],
    {
        &self.orifices[i]
    }

    /// The upstream state of orifice `i`.
    pub open spec fn upstream_of(&self, i: int) -> IntensiveState {
        self.volumes_spec()[self.orifices_spec()[i]@.connection_in as int].state_spec()
    }

    /// The downstream state of orifice `i`.
    pub open spec fn downstream_of(&self, i: int) -> IntensiveState {
        self.volumes_spec()[self.orifices_spec()[i]@.connection_out as int].state_spec()
    }

    /// Orifice `i` decides its flow from the states of its two volumes.
    pub fn calc_flow(&mut self, i: usize) -> (r: FlowStep)
        requires
            old(self).wf(),
            i < old(self).orifices_spec().len(),
        ensures
            final(self).wf(),
            final(self).volumes_spec() == old(self).volumes_spec(),
            final(self).orifices_spec().len() == old(self).orifices_spec().len(),
            forall|k: int|
                0 <= k < old(self).orifices_spec().len() && k != i ==> #[trigger] final(self).orifices_spec()[k]
                    == old(self).orifices_spec()[k],
            final(self).orifices_spec()[i as int].name_spec() == old(self).orifices_spec()[i as int].name_spec(),
            (r, final(self).orifices_spec()[i as int]@) == calc_mdot_of(
                old(self).orifices_spec()[i as int]@,
                old(self).upstream_of(i as int).values_spec(),
                old(self).downstream_of(i as int).values_spec(),
            ),
    {
        let a = self.orifices[i].get_connection_in();
        let b = self.orifices[i].get_connection_out();
        let r = self.orifices[i].calc_mdot(self.volumes[a].get_intensive_state(), self.volumes[b].get_intensive_state());
        proof {
            assert forall|k: int| 0 <= k < self.orifices_spec().len() implies {
                let o = #[trigger] self.orifices_spec()[k]@;
                &&& o.connection_in < self.volumes_spec().len()
                &&& o.connection_out < self.volumes_spec().len()
                &&& o.connection_in != o.connection_out
            } by {
                if k != i {
                    assert(self.orifices_spec()[k] == old(self).orifices_spec()[k]);
                }
            }
        }
        r
    }

    /// The provider request for the isentropic expansion of orifice `i`'s
    /// upstream state to `pressure`: a candidate throat state.
    pub fn throat_request(&self, i: usize, pressure: Real) -> (r: FluidProperties)
        requires
            self.wf(),
            i < self.orifices_spec().len(),
        ensures
            r.prop1 == Prop::Pressure && r.value1 == pressure,
            r.prop2 == Prop::SpEntropy && r.value2 == self.upstream_of(i as int).values_spec().sp_entropy,
            r.fluid@ == self.upstream_of(i as int).query().fluid@,
    {
        let a = self.orifices[i].get_connection_in();
        self.volumes[a].get_intensive_state().isentropic(Prop::Pressure, pressure)
    }

    /// Completes orifice `i`'s choked flow from the throat state.
    pub fn finish_choked(&mut self, i: usize, throat: &IntensiveState) -> (r: Result<Real, FlowError>)
        requires
            old(self).wf(),
            i < old(self).orifices_spec().len(),
        ensures
            final(self).wf(),
            final(self).volumes_spec() == old(self).volumes_spec(),
            final(self).orifices_spec().len() == old(self).orifices_spec().len(),
            forall|k: int|
                0 <= k < old(self).orifices_spec().len() && k != i ==> #[trigger] final(self).orifices_spec()[k]
                    == old(self).orifices_spec()[k],
            ({
                let before = old(self).orifices_spec()[i as int]@;
                let after = final(self).orifices_spec()[i as int]@;
                let t = throat.values_spec();
                if !before.is_choked {
                    r == Err::<Real, FlowError>(FlowError::NotChoked) && after == before
                } else if !is_isentropic_from(&old(self).upstream_of(i as int), throat) {
                    r == Err::<Real, FlowError>(FlowError::NotIsentropic) && after == before
                } else if !in_bracket(&old(self).upstream_of(i as int), &old(self).downstream_of(i as int), throat) {
                    r == Err::<Real, FlowError>(FlowError::OutsideBracket) && after == before
                } else {
                    &&& r is Ok
                    &&& r->Ok_0@ == after.mdot
                    &&& after == (crate::flow::OrificeModel {
                        mdot: crate::flow::mdot_of(before.cda, t.density@, t.speed_of_sound@),
                        velocity: t.speed_of_sound@,
                        ..before
                    })
                }
            }),
    {
        let a = self.orifices[i].get_connection_in();
        let b = self.orifices[i].get_connection_out();
        let r = self.orifices[i].finish_choked(
            self.volumes[a].get_intensive_state(),
            self.volumes[b].get_intensive_state(),
            throat,
        );
        proof {
            assert forall|k: int| 0 <= k < self.orifices_spec().len() implies {
                let o = #[trigger] self.orifices_spec()[k]@;
                &&& o.connection_in < self.volumes_spec().len()
                &&& o.connection_out < self.volumes_spec().len()
                &&& o.connection_in != o.connection_out
            } by {
                if k != i {
                    assert(self.orifices_spec()[k] == old(self).orifices_spec()[k]);
                }
            }
        }
        r
    }

    /// Deposits orifice `i`'s mass flow, carrying the upstream specific
    /// enthalpy, as inflow into the downstream volume and as outflow from
    /// the upstream volume. A boundary volume keeps no account of it.
    pub fn transfer_state(&mut self, i: usize)
        requires
            old(self).wf(),
            i < old(self).orifices_spec().len(),
        ensures
            final(self).wf(),
            final(self).orifices_spec() == old(self).orifices_spec(),
            final(self).volumes_spec().len() == old(self).volumes_spec().len(),
            ({
                let o = old(self).orifices_spec()[i as int]@;
                let h = old(self).upstream_of(i as int).values_spec().sp_enthalpy@;
                let e = clamp(mul_raw(o.mdot, h));
                let vs = old(self).volumes_spec();
                let ws = final(self).volumes_spec();
                forall|j: int|
                    0 <= j < vs.len() ==> {
                        &&& #[trigger] ws[j].state_spec() == vs[j].state_spec()
                        &&& (j == o.connection_out ==> ws[j].conservation_spec() == deposited_in(
                            vs[j].conservation_spec(),
                            o.mdot,
                            e,
                        ))
                        &&& (j == o.connection_in ==> ws[j].conservation_spec() == deposited_out(
                            vs[j].conservation_spec(),
                            o.mdot,
                            e,
                        ))
                        &&& (j != o.connection_in && j != o.connection_out ==> ws[j] == vs[j])
                        &&& (vs[j] is Infinite ==> ws[j] == vs[j])
                        &&& (vs[j] is Transient ==> ws[j] is Transient && ws[j]->Transient_0.name_spec()
                            == vs[j]->Transient_0.name_spec() && ws[j]->Transient_0.volume_spec()
                            == vs[j]->Transient_0.volume_spec())
                    }
            }),
    {
        let a = self.orifices[i].get_connection_in();
        let b = self.orifices[i].get_connection_out();
        let m = self.orifices[i].get_mdot();
        let h = self.volumes[a].get_intensive_state().sp_enthalpy();
        let e = m.mul(&h);
        self.volumes[b].add_flux_in(m, e);
        self.volumes[a].add_flux_out(m, e);
    }

    /// Volume `j`'s part of a tick: a finite volume reduces its flux,
    /// integrates one step of size `dt`, and returns the request for its
    /// next state; a boundary volume has nothing to do.
    pub fn update_volume(&mut self, j: usize, dt: Real) -> (r: Result<Option<FluidProperties>, VolumeError>)
        requires
            old(self).wf(),
            j < old(self).volumes_spec().len(),
        ensures
            final(self).wf(),
            final(self).orifices_spec() == old(self).orifices_spec(),
            final(self).volumes_spec().len() == old(self).volumes_spec().len(),
            forall|k: int|
                0 <= k < old(self).volumes_spec().len() && k != j ==> #[trigger] final(self).volumes_spec()[k]
                    == old(self).volumes_spec()[k],
            final(self).volumes_spec()[j as int].state_spec() == old(self).volumes_spec()[j as int].state_spec(),
            old(self).volumes_spec()[j as int] is Infinite ==> r == Ok::<Option<FluidProperties>, VolumeError>(None)
                && final(self).volumes_spec()[j as int] == old(self).volumes_spec()[j as int],
            old(self).volumes_spec()[j as int] is Transient ==> ({
                let c = rk4_of::<ConserveME>(old(self).volumes_spec()[j as int].conservation_spec()->Some_0.conserved(), dt@);
                let w = final(self).volumes_spec()[j as int];
                &&& w is Transient
                &&& w.conservation_spec() == Some(c)
                &&& (c.mass == 0 ==> r == Err::<Option<FluidProperties>, VolumeError>(VolumeError::Empty))
                &&& (c.mass != 0 ==> r is Ok && r->Ok_0 is Some && w->Transient_0.is_du_request(r->Ok_0->Some_0))
            }),
    {
        let r = match &mut self.volumes[j] {
            Volume::Infinite(_) => Ok(None),
            Volume::Transient(v) => match v.update(dt) {
                Ok(q) => Ok(Some(q)),
                Err(e) => Err(e),
            },
        };
        proof {
            Network::lemma_wf_frame(old(self), self);
        }
        r
    }

    /// Gives finite volume `j` its next state, the provider's answer to the
    /// request that `update_volume` returned.
    pub fn set_volume_state(&mut self, j: usize, state: IntensiveState) -> (r: Result<(), VolumeError>)
        requires
            old(self).wf(),
            j < old(self).volumes_spec().len(),
        ensures
            final(self).wf(),
            final(self).orifices_spec() == old(self).orifices_spec(),
            final(self).volumes_spec().len() == old(self).volumes_spec().len(),
            forall|k: int|
                0 <= k < old(self).volumes_spec().len() && k != j ==> #[trigger] final(self).volumes_spec()[k]
                    == old(self).volumes_spec()[k],
            final(self).volumes_spec()[j as int].conservation_spec() == old(self).volumes_spec()[j as int].conservation_spec(),
            old(self).volumes_spec()[j as int] is Infinite ==> r == Err::<(), VolumeError>(VolumeError::WrongState)
                && final(self).volumes_spec()[j as int] == old(self).volumes_spec()[j as int],
            old(self).volumes_spec()[j as int] is Transient ==> ({
                let v = old(self).volumes_spec()[j as int]->Transient_0;
                let w = final(self).volumes_spec()[j as int];
                &&& w is Transient
                &&& (v.conservation_spec().mass == 0 ==> r == Err::<(), VolumeError>(VolumeError::Empty))
                &&& (v.conservation_spec().mass != 0 && v.is_du_request(state.query()) ==> r is Ok
                    && w.state_spec() == state)
                &&& (v.conservation_spec().mass != 0 && !v.is_du_request(state.query()) ==> r == Err::<
                    (),
                    VolumeError,
                >(VolumeError::WrongState) && w.state_spec() == v.state_spec())
            }),
    {
        let r = match &mut self.volumes[j] {
            Volume::Infinite(_) => Err(VolumeError::WrongState),
            Volume::Transient(v) => v.set_intensive_state(state),
        };
        proof {
            Network::lemma_wf_frame(old(self), self);
        }
        r
    }
}

} // verus!
