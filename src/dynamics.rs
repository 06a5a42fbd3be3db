//! Fixed-timestep integration and differentiation, the rigid-body dynamics of
//! a differential-drive robot, and the DC motors that drive it.
//!
//! The drivetrain model follows the Lagrange / Newton-Euler derivation for a
//! two-wheel chassis whose centre of mass sits a distance `d` behind the
//! wheel axis.
use vstd::prelude::*;
use vstd::arithmetic::div_mod::{lemma_div_multiples_vanish, lemma_fundamental_div_mod};
use crate::quantity::{
    Dim, Quantity, SCALE, dim_of, fx_div, fx_mul, in_range, opt_add, opt_sub,
    opt_mul, opt_div, opt_scale, raw_of, tdiv, time, length, mass, current, velocity,
    angular_rate, acceleration, angular_acceleration, moment_of_inertia, torque, voltage,
    resistance, inductance, volt_second, torque_per_current, dimensionless,
};

verus! {

/// Raw value of an accumulator after one explicit Euler step of `rate` over `dt`.
pub open spec fn euler_step(acc: Option<int>, rate: Option<int>, dt: int) -> Option<int> {
    opt_add(acc, opt_mul(rate, Some(dt)))
}

/// Accumulates a rate over a fixed time step into a position-like value.
#[derive(Clone, Copy, Debug)]
pub struct Integrator {
    dt: Quantity,
    acc: Quantity,
}

impl Integrator {
    /// The fixed time step.
    pub closed spec fn step(&self) -> Quantity {
        self.dt
    }

    /// The accumulated value.
    pub closed spec fn value(&self) -> Quantity {
        self.acc
    }

    /// Dimension of the rates this integrator accepts.
    pub open spec fn rate_dim(&self) -> Dim {
        self.value().dim.per(time())
    }

    pub open spec fn wf(&self) -> bool {
        &&& self.step().dim == time()
        &&& self.value().dim.can_per(time())
    }

    pub fn new(dt: Quantity, initial: Quantity) -> (r: Integrator)
        requires
            dt.dim == time(),
            initial.dim.can_per(time()),
        ensures
            r.wf(),
            r.step() == dt,
            r.value() == initial,
    {
        Integrator { dt, acc: initial }
    }

    pub fn get(&self) -> (r: Quantity)
        ensures
            r == self.value(),
    {
        self.acc
    }

    /// Adds `rate * dt` to the accumulator and returns the new value.
    /// Where the result is not representable, returns `None` and changes nothing.
    pub fn add(&mut self, rate: Quantity) -> (r: Option<Quantity>)
        requires
            old(self).wf(),
            rate.dim == old(self).rate_dim(),
        ensures
            final(self).wf(),
            final(self).step() == old(self).step(),
            raw_of(r) == euler_step(old(self).value().val(), rate.val(), old(self).step().raw as int),
            r matches Some(q) ==> final(self).value() == q && q.dim == old(self).value().dim,
            r is None ==> *final(self) == *old(self),
    {
        let inc = rate.checked_mul(self.dt);
        match inc {
            Some(inc) => {
                let sum = self.acc.checked_add(inc);
                if let Some(v) = sum {
                    self.acc = v;
                }
                sum
            },
            None => None,
        }
    }
}

/// Raw value of `n` Euler steps of the same `rate` from `acc`.
pub open spec fn repeated_steps(acc: Option<int>, rate: int, dt: int, n: nat) -> Option<int>
    decreases n,
{
    if n == 0 {
        acc
    } else {
        repeated_steps(euler_step(acc, Some(rate), dt), rate, dt, (n - 1) as nat)
    }
}

proof fn lemma_repeated_steps(a: int, q: int, rate: int, dt: int, n: nat)
    requires
        q == fx_mul(rate, dt),
        in_range(q),
        forall|k: int| 0 <= k <= n ==> #[trigger] in_range(a + k * q),
    ensures
        repeated_steps(Some(a), rate, dt, n) == Some(a + n * q),
    decreases n,
{
    if n > 0 {
        assert(in_range(a + 1 * q));
        assert(euler_step(Some(a), Some(rate), dt) == Some(a + q));
        assert forall|k: int| 0 <= k <= n - 1 implies #[trigger] in_range((a + q) + k * q) by {
            assert(in_range(a + (k + 1) * q));
            assert((a + q) + k * q == a + (k + 1) * q) by (nonlinear_arith);
        }
        lemma_repeated_steps(a + q, q, rate, dt, (n - 1) as nat);
        assert((a + q) + (n - 1) * q == a + n * q) by (nonlinear_arith);
    } else {
        assert(n * q == 0) by (nonlinear_arith) requires n == 0;
    }
}

/// Integrating a constant rate `rate` for `n` steps of `dt` from zero gives
/// `n` times the one-step increment `rate * dt`, whenever that total is
/// representable.
pub proof fn law_constant_rate_integration(rate: int, dt: int, n: nat)
    requires
        in_range(n * fx_mul(rate, dt)),
    ensures
        repeated_steps(Some(0), rate, dt, n) == Some(n * fx_mul(rate, dt)),
{
    let q = fx_mul(rate, dt);
    if n > 0 {
        assert forall|k: int| 0 <= k <= n implies #[trigger] in_range(0 + k * q) by {
            if q >= 0 {
                assert(0 <= k * q <= n * q) by (nonlinear_arith)
                    requires 0 <= k <= n, q >= 0;
            } else {
                assert(n * q <= k * q <= 0) by (nonlinear_arith)
                    requires 0 <= k <= n, q < 0;
            }
        }
        assert(in_range(0 + 1 * q));
        lemma_repeated_steps(0, q, rate, dt, n);
    }
}

/// Raw value of the backward difference `(last - two_ago) / dt`.
pub open spec fn backward_difference(two_ago: int, last: int, dt: int) -> Option<int> {
    opt_div(opt_sub(Some(last), Some(two_ago)), Some(dt))
}

/// Estimates a rate of change from the last two samples, taken a fixed
/// time step apart.
#[derive(Clone, Copy, Debug)]
pub struct Differentiator {
    dt: Quantity,
    last: Quantity,
    two: Quantity,
}

impl Differentiator {
    /// The fixed time step.
    pub closed spec fn step(&self) -> Quantity {
        self.dt
    }

    /// The latest sample.
    pub closed spec fn last(&self) -> Quantity {
        self.last
    }

    /// The sample before the latest one.
    pub closed spec fn two_ago(&self) -> Quantity {
        self.two
    }

    /// Dimension of the samples.
    pub open spec fn sample_dim(&self) -> Dim {
        self.last().dim
    }

    pub open spec fn wf(&self) -> bool {
        &&& self.step().dim == time()
        &&& self.step().raw != 0
        &&& self.two_ago().dim == self.last().dim
        &&& self.last().dim.can_per(time())
    }

    /// Raw value of the current estimate.
    pub open spec fn rate(&self) -> Option<int> {
        backward_difference(self.two_ago().raw as int, self.last().raw as int, self.step().raw as int)
    }

    /// Seeds both samples with `initial`, so that the first estimate is zero.
    pub fn new(dt: Quantity, initial: Quantity) -> (r: Differentiator)
        requires
            dt.dim == time(),
            dt.raw != 0,
            initial.dim.can_per(time()),
        ensures
            r.wf(),
            r.step() == dt,
            r.last() == initial,
            r.two_ago() == initial,
            r.rate() == Some(0int),
    {
        let r = Differentiator { dt, last: initial, two: initial };
        assert(fx_div(0, dt.raw as int) == 0);
        r
    }

    /// The backward difference `(last - two_ago) / dt`.
    pub fn get(&self) -> (r: Option<Quantity>)
        requires
            self.wf(),
        ensures
            raw_of(r) == self.rate(),
            r matches Some(q) ==> q.dim == self.sample_dim().per(time()),
    {
        match self.last.checked_sub(self.two) {
            Some(diff) => diff.checked_div(self.dt),
            None => None,
        }
    }

    /// Shifts `val` into the history and returns the new estimate.
    pub fn add(&mut self, val: Quantity) -> (r: Option<Quantity>)
        requires
            old(self).wf(),
            val.dim == old(self).sample_dim(),
        ensures
            final(self).wf(),
            final(self).step() == old(self).step(),
            final(self).two_ago() == old(self).last(),
            final(self).last() == val,
            raw_of(r) == final(self).rate(),
            r matches Some(q) ==> q.dim == val.dim.per(time()),
    {
        self.two = self.last;
        self.last = val;
        self.get()
    }
}

/// Two samples of a ramp taken one step apart, whose rise over the step is
/// exactly `slope * dt`, give the estimate `slope`.
pub proof fn law_ramp_slope(two_ago: int, last: int, dt: int, slope: int)
    requires
        dt > 0,
        in_range(slope),
        in_range(last - two_ago),
        (last - two_ago) * SCALE == slope * dt,
    ensures
        backward_difference(two_ago, last, dt) == Some(slope),
{
    let n = (last - two_ago) * SCALE;
    assert(n / dt == slope) by (nonlinear_arith)
        requires n == slope * dt, dt > 0;
    if n < 0 {
        assert((-n) / dt == -slope) by (nonlinear_arith)
            requires n == slope * dt, dt > 0;
    }
}

/// Why a set of parameters cannot describe a physical robot.
#[derive(Clone, Copy, Debug, PartialEq, Eq, Structural)]
pub enum ConfigurationError {
    /// The time step is not positive.
    TimeStep,
    /// The wheel radius is not positive.
    WheelRadius,
    /// The total mass is not positive, or the chassis mass is negative.
    Mass,
    /// The robot's moment of inertia is not positive, or a wheel's is negative.
    Inertia,
    /// The armature resistance is not positive.
    Resistance,
    /// A term that every step computes from the parameters alone is not
    /// representable, or a denominator built from them is not positive.
    OutOfRange,
}

/// Physical parameters of the drivetrain.
#[allow(non_snake_case)]
#[derive(Clone, Copy, Debug)]
pub struct DDMRParams {
    /// Wheel radius.
    pub R: Quantity,
    /// Total mass of the robot, wheels and actuators included.
    pub m: Quantity,
    /// Mass of the chassis alone, without wheels and actuators.
    pub mc: Quantity,
    /// Distance of the centre of mass behind the wheel axis.
    pub d: Quantity,
    /// Half the wheel base.
    pub L: Quantity,
    /// Moment of inertia of the whole robot about its centre of rotation.
    pub I: Quantity,
    /// Moment of inertia of each wheel about its axle.
    pub Iw: Quantity,
}

/// `2 * Iw / R / R`, the wheels' share of the linear inertia.
pub open spec fn wheel_mass_term(p: DDMRParams) -> Option<int> {
    opt_div(opt_div(opt_scale(2, p.Iw.val()), p.R.val()), p.R.val())
}

/// `m + 2 * Iw / R^2`, the denominator of the linear acceleration.
pub open spec fn lin_denominator(p: DDMRParams) -> Option<int> {
    opt_add(p.m.val(), wheel_mass_term(p))
}

/// `I + 2 * L^2 * Iw / R^2`, the denominator of the angular acceleration.
pub open spec fn ang_denominator(p: DDMRParams) -> Option<int> {
    opt_add(
        p.I.val(),
        opt_div(opt_div(opt_mul(opt_mul(opt_scale(2, p.L.val()), p.L.val()), p.Iw.val()), p.R.val()), p.R.val()),
    )
}

/// `mc * d`, the factor of both coupling terms.
pub open spec fn coupling(p: DDMRParams) -> Option<int> {
    opt_mul(p.mc.val(), p.d.val())
}

/// Linear acceleration `((tau_r + tau_l) / R + mc * d * w^2) / (m + 2 * Iw / R^2)`.
pub open spec fn lin_accel(p: DDMRParams, w: int, tau_l: int, tau_r: int) -> Option<int> {
    opt_div(
        opt_add(
            opt_div(opt_add(Some(tau_r), Some(tau_l)), p.R.val()),
            opt_mul(opt_mul(coupling(p), Some(w)), Some(w)),
        ),
        lin_denominator(p),
    )
}

/// Angular acceleration `((tau_r - tau_l) * L / R - mc * d * w * v) / (I + 2 * L^2 * Iw / R^2)`.
pub open spec fn ang_accel(p: DDMRParams, v: int, w: int, tau_l: int, tau_r: int) -> Option<int> {
    opt_div(
        opt_sub(
            opt_div(opt_mul(opt_sub(Some(tau_r), Some(tau_l)), p.L.val()), p.R.val()),
            opt_mul(opt_mul(coupling(p), Some(w)), Some(v)),
        ),
        ang_denominator(p),
    )
}

/// Left wheel rate `(v - L * w) / R` of the body velocity `(v, w)`.
pub open spec fn wheel_left(p: DDMRParams, v: int, w: int) -> Option<int> {
    opt_div(opt_sub(Some(v), opt_mul(p.L.val(), Some(w))), p.R.val())
}

/// Right wheel rate `(v + L * w) / R` of the body velocity `(v, w)`.
pub open spec fn wheel_right(p: DDMRParams, v: int, w: int) -> Option<int> {
    opt_div(opt_add(Some(v), opt_mul(p.L.val(), Some(w))), p.R.val())
}

pub open spec fn positive(x: Option<int>) -> bool {
    x matches Some(v) && v > 0
}

impl DDMRParams {
    /// Every parameter carries its physical dimension.
    pub open spec fn dims_ok(&self) -> bool {
        &&& self.R.dim == length()
        &&& self.m.dim == mass()
        &&& self.mc.dim == mass()
        &&& self.d.dim == length()
        &&& self.L.dim == length()
        &&& self.I.dim == moment_of_inertia()
        &&& self.Iw.dim == moment_of_inertia()
    }

    /// The first reason, if any, why these parameters are rejected.
    pub open spec fn fault(&self) -> Option<ConfigurationError> {
        if self.R.raw <= 0 {
            Some(ConfigurationError::WheelRadius)
        } else if self.m.raw <= 0 || self.mc.raw < 0 {
            Some(ConfigurationError::Mass)
        } else if self.I.raw <= 0 || self.Iw.raw < 0 {
            Some(ConfigurationError::Inertia)
        } else if !positive(lin_denominator(*self)) || !positive(ang_denominator(*self))
            || coupling(*self) is None {
            Some(ConfigurationError::OutOfRange)
        } else {
            None
        }
    }

    pub open spec fn valid(&self) -> bool {
        self.fault() is None
    }

    fn lin_denominator(&self) -> (r: Option<Quantity>)
        requires
            self.dims_ok(),
        ensures
            raw_of(r) == lin_denominator(*self),
            r matches Some(q) ==> q.dim == mass(),
    {
        let iw2 = self.Iw.checked_scale(2)?;
        let a = iw2.checked_div(self.R)?;
        let b = a.checked_div(self.R)?;
        self.m.checked_add(b)
    }

    fn ang_denominator(&self) -> (r: Option<Quantity>)
        requires
            self.dims_ok(),
        ensures
            raw_of(r) == ang_denominator(*self),
            r matches Some(q) ==> q.dim == moment_of_inertia(),
    {
        let l2 = self.L.checked_scale(2)?;
        let a = l2.checked_mul(self.L)?;
        let b = a.checked_mul(self.Iw)?;
        let c = b.checked_div(self.R)?;
        let e = c.checked_div(self.R)?;
        self.I.checked_add(e)
    }

    /// Checks that the parameters describe a physical robot.
    pub fn check(&self) -> (r: Result<(), ConfigurationError>)
        requires
            self.dims_ok(),
        ensures
            r is Ok <==> self.valid(),
            r matches Err(e) ==> self.fault() == Some(e),
    {
        if self.R.raw <= 0 {
            return Err(ConfigurationError::WheelRadius);
        }
        if self.m.raw <= 0 || self.mc.raw < 0 {
            return Err(ConfigurationError::Mass);
        }
        if self.I.raw <= 0 || self.Iw.raw < 0 {
            return Err(ConfigurationError::Inertia);
        }
        let ok = match (self.lin_denominator(), self.ang_denominator(), self.mc.checked_mul(self.d)) {
            (Some(a), Some(b), Some(_)) => a.raw > 0 && b.raw > 0,
            _ => false,
        };
        if ok {
            Ok(())
        } else {
            Err(ConfigurationError::OutOfRange)
        }
    }
}

/// Parameters of one DC gear motor.
#[allow(non_snake_case)]
#[derive(Clone, Copy, Debug)]
pub struct DCMotorParams {
    /// Armature resistance.
    pub Ra: Quantity,
    /// Armature inductance.
    pub La: Quantity,
    /// Gear ratio, such that `rotor_rate == N * wheel_rate`.
    pub N: Quantity,
    /// Back-EMF constant, such that `e_a == Kb * rotor_rate`.
    pub Kb: Quantity,
    /// Torque constant, such that `tau == Kt * i_a`.
    pub Kt: Quantity,
}

impl DCMotorParams {
    /// Every parameter carries its physical dimension.
    pub open spec fn dims_ok(&self) -> bool {
        &&& self.Ra.dim == resistance()
        &&& self.La.dim == inductance()
        &&& self.N.dim == dimensionless()
        &&& self.Kb.dim == volt_second()
        &&& self.Kt.dim == torque_per_current()
    }

    /// The first reason, if any, why these parameters are rejected.
    pub open spec fn fault(&self) -> Option<ConfigurationError> {
        if self.Ra.raw <= 0 {
            Some(ConfigurationError::Resistance)
        } else if opt_mul(self.Kb.val(), self.N.val()) is None {
            Some(ConfigurationError::OutOfRange)
        } else {
            None
        }
    }

    pub open spec fn valid(&self) -> bool {
        self.fault() is None
    }

    /// Checks that the parameters describe a physical motor.
    pub fn check(&self) -> (r: Result<(), ConfigurationError>)
        requires
            self.dims_ok(),
        ensures
            r is Ok <==> self.valid(),
            r matches Err(e) ==> self.fault() == Some(e),
    {
        if self.Ra.raw <= 0 {
            return Err(ConfigurationError::Resistance);
        }
        match self.Kb.checked_mul(self.N) {
            Some(_) => Ok(()),
            None => Err(ConfigurationError::OutOfRange),
        }
    }
}

/// Linear and angular velocity of the robot body.
#[derive(Clone, Copy, Debug)]
pub struct Vels {
    pub lin: Quantity,
    /// An angular rate in radians per second, dimensionally a frequency.
    pub ang: Quantity,
}

impl Vels {
    pub open spec fn dims_ok(&self) -> bool {
        &&& self.lin.dim == velocity()
        &&& self.ang.dim == angular_rate()
    }
}

impl Default for Vels {
    fn default() -> (r: Vels)
        ensures
            r.dims_ok(),
            r.lin.raw == 0,
            r.ang.raw == 0,
    {
        Vels { lin: Quantity::zero(dim_of(1, 0, -1, 0)), ang: Quantity::zero(dim_of(0, 0, -1, 0)) }
    }
}

/// A left / right pair.
#[derive(Clone, Copy, Debug, Default)]
pub struct LR<T> {
    pub l: T,
    pub r: T,
}

/// Rigid-body dynamics of the unactuated drivetrain.
pub struct DDMRModel {
    p: DDMRParams,
    linv: Integrator,
    angv: Integrator,
}

impl DDMRModel {
    pub closed spec fn params(&self) -> DDMRParams {
        self.p
    }

    /// The fixed time step, raw.
    pub closed spec fn dt(&self) -> int {
        self.linv.step().raw as int
    }

    /// Linear velocity, raw.
    pub closed spec fn lin(&self) -> int {
        self.linv.value().raw as int
    }

    /// Angular velocity, raw.
    pub closed spec fn ang(&self) -> int {
        self.angv.value().raw as int
    }

    pub closed spec fn wf(&self) -> bool {
        &&& self.p.dims_ok()
        &&& self.p.valid()
        &&& self.linv.wf()
        &&& self.angv.wf()
        &&& self.linv.step() == self.angv.step()
        &&& self.linv.value().dim == velocity()
        &&& self.angv.value().dim == angular_rate()
    }

    /// Linear velocity after one step under the wheel torques `(tau_l, tau_r)`.
    pub open spec fn next_lin(&self, tau_l: int, tau_r: int) -> Option<int> {
        euler_step(Some(self.lin()), lin_accel(self.params(), self.ang(), tau_l, tau_r), self.dt())
    }

    /// Angular velocity after one step under the wheel torques `(tau_l, tau_r)`.
    pub open spec fn next_ang(&self, tau_l: int, tau_r: int) -> Option<int> {
        euler_step(
            Some(self.ang()),
            ang_accel(self.params(), self.lin(), self.ang(), tau_l, tau_r),
            self.dt(),
        )
    }

    /// A drivetrain at rest, or the reason why `param` is rejected.
    pub fn new(dt: Quantity, param: DDMRParams) -> (r: Result<DDMRModel, ConfigurationError>)
        requires
            dt.dim == time(),
            param.dims_ok(),
        ensures
            r is Ok <==> dt.raw > 0 && param.valid(),
            r matches Err(e) ==> (if dt.raw <= 0 {
                e == ConfigurationError::TimeStep
            } else {
                param.fault() == Some(e)
            }),
            r matches Ok(m) ==> {
                &&& m.wf()
                &&& m.params() == param
                &&& m.dt() == dt.raw
                &&& m.lin() == 0
                &&& m.ang() == 0
            },
    {
        if dt.raw <= 0 {
            return Err(ConfigurationError::TimeStep);
        }
        param.check()?;
        Ok(DDMRModel {
            p: param,
            linv: Integrator::new(dt, Quantity::zero(dim_of(1, 0, -1, 0))),
            angv: Integrator::new(dt, Quantity::zero(dim_of(0, 0, -1, 0))),
        })
    }

    /// The current velocity.
    pub fn vel(&self) -> (r: Vels)
        requires
            self.wf(),
        ensures
            r.dims_ok(),
            r.lin.raw == self.lin(),
            r.ang.raw == self.ang(),
    {
        Vels { lin: self.linv.get(), ang: self.angv.get() }
    }

    /// Advances both velocities by one step under the wheel torques `tau`,
    /// both accelerations taken from the velocities before the step.
    /// Returns the new velocity, or `None`, changing nothing, where a value
    /// of the step is not representable.
    pub fn observe(&mut self, tau: LR<Quantity>) -> (r: Option<Vels>)
        requires
            old(self).wf(),
            tau.l.dim == torque(),
            tau.r.dim == torque(),
        ensures
            final(self).wf(),
            final(self).params() == old(self).params(),
            final(self).dt() == old(self).dt(),
            r is Some <==> {
                &&& old(self).next_lin(tau.l.raw as int, tau.r.raw as int) is Some
                &&& old(self).next_ang(tau.l.raw as int, tau.r.raw as int) is Some
            },
            r matches Some(v) ==> {
                &&& old(self).next_lin(tau.l.raw as int, tau.r.raw as int) == Some(final(self).lin())
                &&& old(self).next_ang(tau.l.raw as int, tau.r.raw as int) == Some(final(self).ang())
                &&& v.dims_ok()
                &&& v.lin.raw == final(self).lin()
                &&& v.ang.raw == final(self).ang()
            },
            r is None ==> *final(self) == *old(self),
    {
        let p = self.p;
        let v = self.linv.get();
        let w = self.angv.get();
        let vdot = match Self::lin_accel(&p, w, tau) {
            Some(a) => a,
            None => return None,
        };
        let wdot = match Self::ang_accel(&p, v, w, tau) {
            Some(a) => a,
            None => return None,
        };
        let saved = self.linv;
        let lin = match self.linv.add(vdot) {
            Some(x) => x,
            None => return None,
        };
        let ang = match self.angv.add(wdot) {
            Some(x) => x,
            None => {
                self.linv = saved;
                return None;
            },
        };
        Some(Vels { lin, ang })
    }

    fn lin_accel(p: &DDMRParams, w: Quantity, tau: LR<Quantity>) -> (r: Option<Quantity>)
        requires
            p.dims_ok(),
            w.dim == angular_rate(),
            tau.l.dim == torque(),
            tau.r.dim == torque(),
        ensures
            raw_of(r) == lin_accel(*p, w.raw as int, tau.l.raw as int, tau.r.raw as int),
            r matches Some(q) ==> q.dim == acceleration(),
    {
        let force = tau.r.checked_add(tau.l)?.checked_div(p.R)?;
        let c = p.mc.checked_mul(p.d)?;
        let centripetal = c.checked_mul(w)?.checked_mul(w)?;
        let num = force.checked_add(centripetal)?;
        let den = p.lin_denominator()?;
        num.checked_div(den)
    }

    fn ang_accel(p: &DDMRParams, v: Quantity, w: Quantity, tau: LR<Quantity>) -> (r: Option<Quantity>)
        requires
            p.dims_ok(),
            v.dim == velocity(),
            w.dim == angular_rate(),
            tau.l.dim == torque(),
            tau.r.dim == torque(),
        ensures
            raw_of(r) == ang_accel(*p, v.raw as int, w.raw as int, tau.l.raw as int, tau.r.raw as int),
            r matches Some(q) ==> q.dim == angular_acceleration(),
    {
        let turn = tau.r.checked_sub(tau.l)?.checked_mul(p.L)?.checked_div(p.R)?;
        let c = p.mc.checked_mul(p.d)?;
        let coriolis = c.checked_mul(w)?.checked_mul(v)?;
        let num = turn.checked_sub(coriolis)?;
        let den = p.ang_denominator()?;
        num.checked_div(den)
    }

    /// Wheel angular rates `((v - L * w) / R, (v + L * w) / R)` of the body velocity `vel`.
    pub fn vels_to_wheel(&self, vel: Vels) -> (r: Option<LR<Quantity>>)
        requires
            self.wf(),
            vel.dims_ok(),
        ensures
            r is Some <==> {
                &&& wheel_left(self.params(), vel.lin.raw as int, vel.ang.raw as int) is Some
                &&& wheel_right(self.params(), vel.lin.raw as int, vel.ang.raw as int) is Some
            },
            r matches Some(w) ==> {
                &&& wheel_left(self.params(), vel.lin.raw as int, vel.ang.raw as int) == Some(w.l.raw as int)
                &&& wheel_right(self.params(), vel.lin.raw as int, vel.ang.raw as int) == Some(w.r.raw as int)
                &&& w.l.dim == angular_rate()
                &&& w.r.dim == angular_rate()
            },
    {
        let lw = self.p.L.checked_mul(vel.ang)?;
        let l = vel.lin.checked_sub(lw)?.checked_div(self.p.R)?;
        let r = vel.lin.checked_add(lw)?.checked_div(self.p.R)?;
        Some(LR { l, r })
    }

    /// Wheel angular rates of the current velocity.
    pub fn wheels(&self) -> (r: Option<LR<Quantity>>)
        requires
            self.wf(),
        ensures
            r is Some <==> {
                &&& wheel_left(self.params(), self.lin(), self.ang()) is Some
                &&& wheel_right(self.params(), self.lin(), self.ang()) is Some
            },
            r matches Some(w) ==> {
                &&& wheel_left(self.params(), self.lin(), self.ang()) == Some(w.l.raw as int)
                &&& wheel_right(self.params(), self.lin(), self.ang()) == Some(w.r.raw as int)
                &&& w.l.dim == angular_rate()
                &&& w.r.dim == angular_rate()
            },
    {
        self.vels_to_wheel(self.vel())
    }
}

/// Armature current `(volt - Kb * N * rate - La * di) / Ra` of a motor whose
/// wheel turns at `rate` and whose current changes at `di`.
pub open spec fn motor_current(m: DCMotorParams, volt: int, rate: Option<int>, di: Option<int>) -> Option<int> {
    opt_div(
        opt_sub(opt_sub(Some(volt), opt_mul(opt_mul(m.Kb.val(), m.N.val()), rate)), opt_mul(m.La.val(), di)),
        m.Ra.val(),
    )
}

/// The drivetrain driven by two DC motors, one per wheel.
pub struct ActuatedDDMRModel {
    ddmr: DDMRModel,
    p: DCMotorParams,
    di: LR<Differentiator>,
}

impl ActuatedDDMRModel {
    pub closed spec fn drivetrain(&self) -> DDMRModel {
        self.ddmr
    }

    pub closed spec fn motor(&self) -> DCMotorParams {
        self.p
    }

    /// History of the left armature current.
    pub closed spec fn left_current(&self) -> Differentiator {
        self.di.l
    }

    /// History of the right armature current.
    pub closed spec fn right_current(&self) -> Differentiator {
        self.di.r
    }

    pub closed spec fn wf(&self) -> bool {
        &&& self.ddmr.wf()
        &&& self.p.dims_ok()
        &&& self.p.valid()
        &&& self.di.l.wf()
        &&& self.di.r.wf()
        &&& self.di.l.sample_dim() == current()
        &&& self.di.r.sample_dim() == current()
        &&& self.di.l.step().raw == self.ddmr.dt()
        &&& self.di.r.step().raw == self.ddmr.dt()
    }

    /// No motion and no current, now or one step ago.
    pub open spec fn at_rest(&self) -> bool {
        &&& self.drivetrain().lin() == 0
        &&& self.drivetrain().ang() == 0
        &&& self.left_current().last().raw == 0
        &&& self.left_current().two_ago().raw == 0
        &&& self.right_current().last().raw == 0
        &&& self.right_current().two_ago().raw == 0
    }

    /// Left armature current of the next step under the voltage `volt`.
    pub open spec fn next_current_left(&self, volt: int) -> Option<int> {
        let d = self.drivetrain();
        motor_current(self.motor(), volt, wheel_left(d.params(), d.lin(), d.ang()), self.left_current().rate())
    }

    /// Right armature current of the next step under the voltage `volt`.
    pub open spec fn next_current_right(&self, volt: int) -> Option<int> {
        let d = self.drivetrain();
        motor_current(self.motor(), volt, wheel_right(d.params(), d.lin(), d.ang()), self.right_current().rate())
    }

    pub open spec fn next_torque_left(&self, volt: int) -> Option<int> {
        opt_mul(self.next_current_left(volt), self.motor().Kt.val())
    }

    pub open spec fn next_torque_right(&self, volt: int) -> Option<int> {
        opt_mul(self.next_current_right(volt), self.motor().Kt.val())
    }

    /// Every value of the step under the voltages `v` is representable.
    pub open spec fn step_ok(&self, v: LR<Quantity>) -> bool {
        let tl = self.next_torque_left(v.l.raw as int);
        let tr = self.next_torque_right(v.r.raw as int);
        &&& tl is Some
        &&& tr is Some
        &&& self.drivetrain().next_lin(tl->0, tr->0) is Some
        &&& self.drivetrain().next_ang(tl->0, tr->0) is Some
    }

    /// A robot at rest, or the reason why the parameters are rejected.
    pub fn new(dt: Quantity, ddmr_par: DDMRParams, params: DCMotorParams) -> (r: Result<ActuatedDDMRModel, ConfigurationError>)
        requires
            dt.dim == time(),
            ddmr_par.dims_ok(),
            params.dims_ok(),
        ensures
            r is Ok <==> dt.raw > 0 && ddmr_par.valid() && params.valid(),
            r matches Err(e) ==> (if dt.raw <= 0 {
                e == ConfigurationError::TimeStep
            } else if !ddmr_par.valid() {
                ddmr_par.fault() == Some(e)
            } else {
                params.fault() == Some(e)
            }),
            r matches Ok(m) ==> {
                &&& m.wf()
                &&& m.at_rest()
                &&& m.drivetrain().params() == ddmr_par
                &&& m.drivetrain().dt() == dt.raw
                &&& m.motor() == params
                &&& m.left_current().step() == dt
                &&& m.right_current().step() == dt
                &&& m.left_current().rate() == Some(0int)
                &&& m.right_current().rate() == Some(0int)
            },
    {
        let ddmr = DDMRModel::new(dt, ddmr_par)?;
        params.check()?;
        let zero = Quantity::zero(dim_of(0, 0, 0, 1));
        Ok(ActuatedDDMRModel {
            ddmr,
            p: params,
            di: LR { l: Differentiator::new(dt, zero), r: Differentiator::new(dt, zero) },
        })
    }

    /// The current velocity.
    pub fn vel(&self) -> (r: Vels)
        requires
            self.wf(),
        ensures
            r.dims_ok(),
            r.lin.raw == self.drivetrain().lin(),
            r.ang.raw == self.drivetrain().ang(),
    {
        self.ddmr.vel()
    }

    /// Wheel angular rates of the current velocity.
    pub fn wheels(&self) -> (r: Option<LR<Quantity>>)
        requires
            self.wf(),
        ensures
            ({
                let d = self.drivetrain();
                &&& r is Some <==> (wheel_left(d.params(), d.lin(), d.ang()) is Some
                    && wheel_right(d.params(), d.lin(), d.ang()) is Some)
                &&& r matches Some(w) ==> {
                    &&& wheel_left(d.params(), d.lin(), d.ang()) == Some(w.l.raw as int)
                    &&& wheel_right(d.params(), d.lin(), d.ang()) == Some(w.r.raw as int)
                    &&& w.l.dim == angular_rate()
                    &&& w.r.dim == angular_rate()
                }
            }),
    {
        self.ddmr.wheels()
    }

    fn armature_current(p: &DCMotorParams, volt: Quantity, rate: Quantity, di: Quantity) -> (r: Option<Quantity>)
        requires
            p.dims_ok(),
            volt.dim == voltage(),
            rate.dim == angular_rate(),
            di.dim == current().per(time()),
        ensures
            raw_of(r) == motor_current(*p, volt.raw as int, rate.val(), di.val()),
            r matches Some(q) ==> q.dim == current(),
    {
        let back_emf = p.Kb.checked_mul(p.N)?.checked_mul(rate)?;
        let inductive = p.La.checked_mul(di)?;
        volt.checked_sub(back_emf)?.checked_sub(inductive)?.checked_div(p.Ra)
    }

    /// Advances the robot by one step under the armature voltages `v`.
    ///
    /// Each motor's current is solved from its voltage balance, with the
    /// wheel rates and the current derivatives of the state before the step
    /// (the derivative lags one step). The currents become torques that
    /// drive the drivetrain. Returns the new velocity, or `None`, changing
    /// nothing, where a value of the step is not representable.
    pub fn observe(&mut self, v: LR<Quantity>) -> (r: Option<Vels>)
        requires
            old(self).wf(),
            v.l.dim == voltage(),
            v.r.dim == voltage(),
        ensures
            final(self).wf(),
            final(self).motor() == old(self).motor(),
            final(self).drivetrain().params() == old(self).drivetrain().params(),
            final(self).drivetrain().dt() == old(self).drivetrain().dt(),
            r is Some <==> old(self).step_ok(v),
            r is None ==> *final(self) == *old(self),
            r matches Some(vel) ==> ({
                let tl = old(self).next_torque_left(v.l.raw as int)->0;
                let tr = old(self).next_torque_right(v.r.raw as int)->0;
                &&& old(self).drivetrain().next_lin(tl, tr) == Some(final(self).drivetrain().lin())
                &&& old(self).drivetrain().next_ang(tl, tr) == Some(final(self).drivetrain().ang())
                &&& final(self).left_current().step() == old(self).left_current().step()
                &&& final(self).left_current().two_ago() == old(self).left_current().last()
                &&& old(self).next_current_left(v.l.raw as int) == Some(final(self).left_current().last().raw as int)
                &&& final(self).right_current().step() == old(self).right_current().step()
                &&& final(self).right_current().two_ago() == old(self).right_current().last()
                &&& old(self).next_current_right(v.r.raw as int) == Some(final(self).right_current().last().raw as int)
                &&& vel.dims_ok()
                &&& vel.lin.raw == final(self).drivetrain().lin()
                &&& vel.ang.raw == final(self).drivetrain().ang()
            }),
            old(self).at_rest() && v.l.raw == 0 && v.r.raw == 0 ==> {
                &&& r matches Some(vel) && vel.lin.raw == 0 && vel.ang.raw == 0
                &&& final(self).at_rest()
            },
    {
        proof {
            if old(self).at_rest() && v.l.raw == 0 && v.r.raw == 0 {
                law_rest_is_fixed_point(*old(self));
            }
        }
        let p = self.p;
        let phidot = self.ddmr.wheels()?;
        let il = Self::armature_current(&p, v.l, phidot.l, self.di.l.get()?)?;
        let ir = Self::armature_current(&p, v.r, phidot.r, self.di.r.get()?)?;
        let tl = il.checked_mul(p.Kt)?;
        let tr = ir.checked_mul(p.Kt)?;
        let vel = self.ddmr.observe(LR { l: tl, r: tr })?;
        // The current histories are independent of the drivetrain, so they
        // are advanced once the step is known to succeed.
        self.di.l.add(il);
        self.di.r.add(ir);
        Some(vel)
    }
}

/// With no voltage applied, a robot at rest draws no current, produces no
/// torque and stays at rest: the state at rest is a fixed point of a step.
pub proof fn law_rest_is_fixed_point(m: ActuatedDDMRModel)
    requires
        m.wf(),
        m.at_rest(),
    ensures
        m.next_current_left(0) == Some(0int),
        m.next_current_right(0) == Some(0int),
        m.next_torque_left(0) == Some(0int),
        m.next_torque_right(0) == Some(0int),
        m.drivetrain().next_lin(0, 0) == Some(0int),
        m.drivetrain().next_ang(0, 0) == Some(0int),
{
    let d = m.drivetrain();
    let p = d.params();
    let mp = m.motor();
    assert(fx_mul(p.L.raw as int, 0) == 0);
    assert(fx_div(0, p.R.raw as int) == 0);
    assert(wheel_left(p, 0, 0) == Some(0int));
    assert(wheel_right(p, 0, 0) == Some(0int));
    assert(fx_div(0, m.left_current().step().raw as int) == 0);
    assert(m.left_current().rate() == Some(0int));
    assert(m.right_current().rate() == Some(0int));
    let kbn = opt_mul(mp.Kb.val(), mp.N.val())->0;
    assert(fx_mul(kbn, 0) == 0);
    assert(fx_mul(mp.La.raw as int, 0) == 0);
    assert(fx_div(0, mp.Ra.raw as int) == 0);
    assert(fx_mul(0, mp.Kt.raw as int) == 0);
    let c = coupling(p)->0;
    assert(fx_mul(c, 0) == 0);
    assert(fx_mul(0, p.L.raw as int) == 0);
    assert(fx_div(0, lin_denominator(p)->0) == 0);
    assert(fx_div(0, ang_denominator(p)->0) == 0);
    assert(fx_mul(0, d.dt()) == 0);
}

/// With the centre of mass on the wheel axis (`d == 0`), equal torques on
/// both wheels give no angular acceleration: the heading rate is kept.
pub proof fn law_equal_torque_keeps_turn_rate(m: DDMRModel, tau: i64)
    requires
        m.wf(),
        m.params().d.raw == 0,
    ensures
        ang_accel(m.params(), m.lin(), m.ang(), tau as int, tau as int) == Some(0int),
        m.next_ang(tau as int, tau as int) == Some(m.ang()),
{
    let p = m.params();
    assert(fx_mul(0, p.L.raw as int) == 0);
    assert(fx_div(0, p.R.raw as int) == 0);
    assert(fx_mul(p.mc.raw as int, 0) == 0);
    assert(coupling(p) == Some(0int));
    assert(fx_mul(0, m.ang()) == 0);
    assert(fx_mul(0, m.lin()) == 0);
    let den = ang_denominator(p)->0;
    assert(fx_div(0, den) == 0);
    assert(fx_mul(0, m.dt()) == 0);
}

/// Where the coupling factor `mc * d` is zero, the linear acceleration does
/// not depend on the angular velocity, nor the angular acceleration on the
/// linear velocity.
pub proof fn law_zero_coupling_decouples(p: DDMRParams, v1: i64, v2: i64, w1: i64, w2: i64, tau_l: i64, tau_r: i64)
    requires
        coupling(p) == Some(0int),
    ensures
        lin_accel(p, w1 as int, tau_l as int, tau_r as int) == lin_accel(p, w2 as int, tau_l as int, tau_r as int),
        ang_accel(p, v1 as int, w1 as int, tau_l as int, tau_r as int)
            == ang_accel(p, v2 as int, w1 as int, tau_l as int, tau_r as int),
{
    assert(fx_mul(0, w1 as int) == 0);
    assert(fx_mul(0, w2 as int) == 0);
    assert(fx_mul(0, v1 as int) == 0);
    assert(fx_mul(0, v2 as int) == 0);
}

/// Where the coupling factor `mc * d` is zero, two drivetrains with the same
/// parameters and time step and the same linear velocity reach the same
/// linear velocity under the same torques, whatever their angular
/// velocities; and two with the same angular velocity reach the same angular
/// velocity, whatever their linear velocities.
pub proof fn law_zero_coupling_decouples_models(m1: DDMRModel, m2: DDMRModel, tau_l: i64, tau_r: i64)
    requires
        m1.wf(),
        m2.wf(),
        m1.params() == m2.params(),
        m1.dt() == m2.dt(),
        coupling(m1.params()) == Some(0int),
    ensures
        m1.lin() == m2.lin() ==> m1.next_lin(tau_l as int, tau_r as int) == m2.next_lin(tau_l as int, tau_r as int),
        m1.ang() == m2.ang() ==> m1.next_ang(tau_l as int, tau_r as int) == m2.next_ang(tau_l as int, tau_r as int),
{
    let p = m1.params();
    law_zero_coupling_decouples(
        p,
        m1.linv.value().raw,
        m2.linv.value().raw,
        m1.angv.value().raw,
        m2.angv.value().raw,
        tau_l,
        tau_r,
    );
    law_zero_coupling_decouples(
        p,
        m2.linv.value().raw,
        m1.linv.value().raw,
        m1.angv.value().raw,
        m2.angv.value().raw,
        tau_l,
        tau_r,
    );
}

/// Truncating division is exact on a multiple of a positive divisor.
proof fn lemma_tdiv_exact(x: int, d: int, k: int)
    requires
        d > 0,
        x == k * d,
    ensures
        tdiv(x, d) == k,
{
    if x > 0 {
        assert(x == d * k) by (nonlinear_arith)
            requires x == k * d;
        lemma_div_multiples_vanish(k, d);
        assert(x / d == k);
    } else if x < 0 {
        assert(-x == d * (-k)) by (nonlinear_arith)
            requires x == k * d;
        lemma_div_multiples_vanish(-k, d);
        assert((-x) / d == -k);
    } else {
        assert(k == 0) by (nonlinear_arith)
            requires x == k * d, d > 0, x == 0;
    }
}

/// A multiple of `d` is `d` times its quotient.
proof fn lemma_multiple(x: int, d: int)
    requires
        d > 0,
        x % d == 0,
    ensures
        x == (x / d) * d,
{
    lemma_fundamental_div_mod(x, d);
    assert(d * (x / d) == (x / d) * d) by (nonlinear_arith);
}

/// Where no rounding occurs, the wheel rates of a body velocity give it
/// back: `R * (right + left) / 2` is the linear velocity and
/// `R * (right - left) / (2 * L)` the angular one. Stated on raw values, with
/// no division.
pub proof fn law_wheel_round_trip(p: DDMRParams, lin: i64, ang: i64)
    requires
        p.dims_ok(),
        p.valid(),
        (p.L.raw * ang) % (SCALE as int) == 0,
        ((lin - (p.L.raw * ang) / (SCALE as int)) * SCALE) % (p.R.raw as int) == 0,
        ((lin + (p.L.raw * ang) / (SCALE as int)) * SCALE) % (p.R.raw as int) == 0,
        wheel_left(p, lin as int, ang as int) is Some,
        wheel_right(p, lin as int, ang as int) is Some,
    ensures
        ({
            let l = wheel_left(p, lin as int, ang as int)->0;
            let r = wheel_right(p, lin as int, ang as int)->0;
            &&& p.R.raw * (r + l) == 2 * SCALE * lin
            &&& p.R.raw * (r - l) == 2 * p.L.raw * ang
        }),
{
    let s = SCALE as int;
    let big_r = p.R.raw as int;
    let la = p.L.raw * ang;
    let a = la / s;
    lemma_multiple(la, s);
    lemma_tdiv_exact(la, s, a);
    assert(fx_mul(p.L.raw as int, ang as int) == a);
    let xl = (lin - a) * s;
    let xr = (lin + a) * s;
    lemma_multiple(xl, big_r);
    lemma_multiple(xr, big_r);
    lemma_tdiv_exact(xl, big_r, xl / big_r);
    lemma_tdiv_exact(xr, big_r, xr / big_r);
    let l = wheel_left(p, lin as int, ang as int)->0;
    let r = wheel_right(p, lin as int, ang as int)->0;
    assert(l == xl / big_r);
    assert(r == xr / big_r);
    assert(big_r * (r + l) == xr + xl) by (nonlinear_arith)
        requires xl == (xl / big_r) * big_r, xr == (xr / big_r) * big_r, l == xl / big_r, r == xr / big_r;
    assert(big_r * (r - l) == xr - xl) by (nonlinear_arith)
        requires xl == (xl / big_r) * big_r, xr == (xr / big_r) * big_r, l == xl / big_r, r == xr / big_r;
    assert(xr + xl == 2 * s * lin) by (nonlinear_arith)
        requires xl == (lin - a) * s, xr == (lin + a) * s;
    assert(xr - xl == 2 * a * s) by (nonlinear_arith)
        requires xl == (lin - a) * s, xr == (lin + a) * s;
    assert(2 * a * s == 2 * la) by (nonlinear_arith)
        requires la == a * s;
    assert(big_r * (r + l) == 2 * s * lin);
    assert(big_r * (r - l) == 2 * la);
    assert(2 * la == 2 * p.L.raw * ang) by (nonlinear_arith)
        requires la == p.L.raw * ang;
}

} // verus!
