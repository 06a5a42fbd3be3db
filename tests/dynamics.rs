use drive_sim::dynamics::{
    ActuatedDDMRModel, ConfigurationError, DCMotorParams, DDMRModel, DDMRParams, Differentiator,
    Integrator, Vels, LR,
};
use drive_sim::quantity::{dim_of, Dim, Quantity, SCALE};

fn length() -> Dim {
    dim_of(1, 0, 0, 0)
}
fn mass() -> Dim {
    dim_of(0, 1, 0, 0)
}
fn time() -> Dim {
    dim_of(0, 0, 1, 0)
}
fn velocity() -> Dim {
    dim_of(1, 0, -1, 0)
}
fn angular_rate() -> Dim {
    dim_of(0, 0, -1, 0)
}
fn inertia() -> Dim {
    dim_of(2, 1, 0, 0)
}
fn torque() -> Dim {
    dim_of(2, 1, -2, 0)
}
fn voltage() -> Dim {
    dim_of(2, 1, -3, -1)
}

/// A quantity from a decimal value in SI units.
fn si(x: f64, dim: Dim) -> Quantity {
    Quantity::new((x * SCALE as f64).round() as i64, dim)
}

fn secs(x: f64) -> Quantity {
    si(x, time())
}

fn params(d: f64) -> DDMRParams {
    DDMRParams {
        R: si(0.5, length()),
        m: si(10.0, mass()),
        mc: si(8.0, mass()),
        d: si(d, length()),
        L: si(0.25, length()),
        I: si(2.0, inertia()),
        Iw: si(0.125, inertia()),
    }
}

fn motor() -> DCMotorParams {
    DCMotorParams {
        Ra: si(2.0, dim_of(2, 1, -3, -2)),
        La: si(0.01, dim_of(2, 1, -2, -2)),
        N: si(30.0, dim_of(0, 0, 0, 0)),
        Kb: si(0.01, dim_of(2, 1, -2, -1)),
        Kt: si(0.01, dim_of(2, 1, -2, -1)),
    }
}

fn torques(l: f64, r: f64) -> LR<Quantity> {
    LR { l: si(l, torque()), r: si(r, torque()) }
}

fn volts(l: f64, r: f64) -> LR<Quantity> {
    LR { l: si(l, voltage()), r: si(r, voltage()) }
}

#[test]
fn integrator() {
    let mut i = Integrator::new(secs(0.005), si(0.0, length()));
    i.add(si(1.0, velocity()));
    i.add(si(0.05, velocity()));
    assert_eq!(i.get(), si(0.005 * (1.0 + 0.05), length()));
}

#[test]
fn differentiator() {
    let mut d = Differentiator::new(secs(0.005), si(0.0, length()));
    assert_eq!(d.get(), Some(si(0.0, velocity())));
    d.add(si(1.0, length()));
    let rate = d.add(si(1.2, length())).unwrap();
    let err = rate.checked_sub(si(40.0, velocity())).unwrap().checked_abs().unwrap();
    assert!(err.less_than(si(0.0001, velocity())));
}

#[test]
fn integrator_constant_rate_accumulates_linearly() {
    let mut i = Integrator::new(secs(0.01), si(0.0, length()));
    for _ in 0..10 {
        i.add(si(0.3, velocity()));
    }
    assert_eq!(i.get(), si(10.0 * 0.3 * 0.01, length()));
}

#[test]
fn integrator_keeps_initial_value() {
    let i = Integrator::new(secs(0.01), si(2.5, length()));
    assert_eq!(i.get(), si(2.5, length()));
}

#[test]
fn integrator_overflow_leaves_value() {
    let mut i = Integrator::new(secs(1.0), Quantity::new(i64::MAX - 1, length()));
    assert_eq!(i.add(si(1.0, velocity())), None);
    assert_eq!(i.get(), Quantity::new(i64::MAX - 1, length()));
}

#[test]
fn differentiator_fresh_estimate_is_zero() {
    let d = Differentiator::new(secs(0.005), si(3.0, length()));
    assert_eq!(d.get(), Some(si(0.0, velocity())));
}

#[test]
fn differentiator_ramp_gives_slope() {
    // a ramp of 2 m/s sampled every 0.01 s
    let mut d = Differentiator::new(secs(0.01), si(0.0, length()));
    let mut x = 0.0;
    let mut last = None;
    for _ in 0..5 {
        x += 0.02;
        last = d.add(si(x, length()));
    }
    assert_eq!(last, Some(si(2.0, velocity())));
}

#[test]
fn vels_default_is_zero() {
    let v = Vels::default();
    assert_eq!(v.lin, si(0.0, velocity()));
    assert_eq!(v.ang, si(0.0, angular_rate()));
}

#[test]
fn ddmr_starts_at_rest() {
    let m = DDMRModel::new(secs(0.01), params(0.1)).unwrap();
    let v = m.vel();
    assert_eq!(v.lin.raw, 0);
    assert_eq!(v.ang.raw, 0);
}

#[test]
fn ddmr_one_step_matches_equations() {
    // vdot = (2.2 / 0.5) / (10 + 2 * 0.125 / 0.25) = 0.4
    // wdot = (0.2 * 0.25 / 0.5) / (2 + 2 * 0.25^2 * 0.125 / 0.25) = 0.1 / 2.0625
    let mut m = DDMRModel::new(secs(0.01), params(0.1)).unwrap();
    let v = m.observe(torques(1.0, 1.2)).unwrap();
    assert_eq!(v.lin, Quantity::new(4_000_000, velocity()));
    assert_eq!(v.ang, Quantity::new(484_848, angular_rate()));
    let v = m.observe(torques(1.0, 1.2)).unwrap();
    assert_eq!(v.lin.raw, 8_000_000);
    assert_eq!(v.ang.raw, 969_688);
}

#[test]
fn ddmr_equal_torque_centered_mass_does_not_turn() {
    let mut m = DDMRModel::new(secs(0.01), params(0.0)).unwrap();
    let mut prev = 0;
    for _ in 0..20 {
        let v = m.observe(torques(0.7, 0.7)).unwrap();
        assert_eq!(v.ang.raw, 0);
        assert!(v.lin.raw > prev);
        prev = v.lin.raw;
    }
}

#[test]
fn ddmr_zero_coupling_decouples_channels() {
    // same torque step on a robot already turning and on one that is not
    let mut turning = DDMRModel::new(secs(0.01), params(0.0)).unwrap();
    for _ in 0..10 {
        turning.observe(torques(-1.0, 1.0)).unwrap();
    }
    let before = turning.vel();
    assert!(before.ang.raw != 0);
    let mut straight = DDMRModel::new(secs(0.01), params(0.0)).unwrap();
    let a = turning.observe(torques(0.5, 0.5)).unwrap();
    let b = straight.observe(torques(0.5, 0.5)).unwrap();
    assert_eq!(a.lin.raw - before.lin.raw, b.lin.raw);
    assert_eq!(a.ang.raw, before.ang.raw);
}

#[test]
fn ddmr_coupling_links_channels() {
    // with the centre of mass behind the axle, turning adds linear acceleration
    let mut turning = DDMRModel::new(secs(0.01), params(0.1)).unwrap();
    for _ in 0..10 {
        turning.observe(torques(-1.0, 1.0)).unwrap();
    }
    let before = turning.vel();
    let a = turning.observe(torques(0.0, 0.0)).unwrap();
    assert!(a.lin.raw > before.lin.raw);
}

#[test]
fn wheel_rates_round_trip() {
    let m = DDMRModel::new(secs(0.01), params(0.1)).unwrap();
    let vel = Vels { lin: si(1.0, velocity()), ang: si(2.0, angular_rate()) };
    let w = m.vels_to_wheel(vel).unwrap();
    assert_eq!(w.l, si(1.0, angular_rate()));
    assert_eq!(w.r, si(3.0, angular_rate()));
    let r = 0.5;
    let l = 0.25;
    let wl = w.l.raw as f64 / SCALE as f64;
    let wr = w.r.raw as f64 / SCALE as f64;
    assert_eq!(r * (wr + wl) / 2.0, 1.0);
    assert_eq!(r * (wr - wl) / (2.0 * l), 2.0);
}

#[test]
fn wheels_of_current_velocity() {
    let mut m = DDMRModel::new(secs(0.01), params(0.0)).unwrap();
    let w = m.wheels().unwrap();
    assert_eq!((w.l.raw, w.r.raw), (0, 0));
    let v = m.observe(torques(1.0, 1.0)).unwrap();
    let w = m.wheels().unwrap();
    assert_eq!(w.l, m.vels_to_wheel(v).unwrap().l);
    assert_eq!(w.l.raw, w.r.raw);
    assert!(w.l.raw > 0);
}

#[test]
fn ddmr_rejects_bad_parameters() {
    let dt = secs(0.01);
    assert!(matches!(DDMRModel::new(secs(0.0), params(0.1)), Err(ConfigurationError::TimeStep)));
    let mut p = params(0.1);
    p.R = si(0.0, length());
    assert!(matches!(DDMRModel::new(dt, p), Err(ConfigurationError::WheelRadius)));
    let mut p = params(0.1);
    p.m = si(-1.0, mass());
    assert!(matches!(DDMRModel::new(dt, p), Err(ConfigurationError::Mass)));
    let mut p = params(0.1);
    p.I = si(0.0, inertia());
    assert!(matches!(DDMRModel::new(dt, p), Err(ConfigurationError::Inertia)));
    let mut p = params(0.1);
    p.Iw = Quantity::new(i64::MAX, inertia());
    assert!(matches!(DDMRModel::new(dt, p), Err(ConfigurationError::OutOfRange)));
    assert_eq!(params(0.1).check(), Ok(()));
}

#[test]
fn motor_rejects_bad_parameters() {
    let mut p = motor();
    p.Ra = si(0.0, dim_of(2, 1, -3, -2));
    assert_eq!(p.check(), Err(ConfigurationError::Resistance));
    let mut p = motor();
    p.Kb = Quantity::new(i64::MAX, dim_of(2, 1, -2, -1));
    assert_eq!(p.check(), Err(ConfigurationError::OutOfRange));
    assert!(matches!(
        ActuatedDDMRModel::new(secs(0.01), params(0.1), p),
        Err(ConfigurationError::OutOfRange)
    ));
    assert_eq!(motor().check(), Ok(()));
}

#[test]
fn ddmr_overflow_leaves_state() {
    let mut m = DDMRModel::new(secs(0.01), params(0.1)).unwrap();
    m.observe(torques(1.0, 1.2)).unwrap();
    let before = m.vel();
    let huge = LR { l: Quantity::new(i64::MAX, torque()), r: Quantity::new(i64::MAX, torque()) };
    assert!(m.observe(huge).is_none());
    let after = m.vel();
    assert_eq!((after.lin, after.ang), (before.lin, before.ang));
}

#[test]
fn actuated_at_rest_stays_at_rest() {
    let mut m = ActuatedDDMRModel::new(secs(0.01), params(0.1), motor()).unwrap();
    for _ in 0..100 {
        let v = m.observe(volts(0.0, 0.0)).unwrap();
        assert_eq!(v.lin.raw, 0);
        assert_eq!(v.ang.raw, 0);
    }
    let w = m.wheels().unwrap();
    assert_eq!((w.l.raw, w.r.raw), (0, 0));
}

#[test]
fn actuated_steps_match_equations() {
    // step 1: i = 6 V / 2 ohm = 3 A and 12 V / 2 ohm = 6 A, torques 0.03 and 0.06 N m
    let mut m = ActuatedDDMRModel::new(secs(0.01), params(0.1), motor()).unwrap();
    let v = m.observe(volts(6.0, 12.0)).unwrap();
    assert_eq!((v.lin.raw, v.ang.raw), (163_636, 72_727));
    // step 2: back-EMF and the lagged current derivative reduce the currents
    let v = m.observe(volts(6.0, 12.0)).unwrap();
    assert_eq!((v.lin.raw, v.ang.raw), (245_452, 109_090));
    let now = m.vel();
    assert_eq!((now.lin.raw, now.ang.raw), (245_452, 109_090));
}

#[test]
fn actuated_overflow_leaves_state() {
    let mut m = ActuatedDDMRModel::new(secs(0.01), params(0.1), motor()).unwrap();
    m.observe(volts(6.0, 12.0)).unwrap();
    let huge = LR { l: Quantity::new(i64::MIN, voltage()), r: Quantity::new(0, voltage()) };
    assert!(m.observe(huge).is_none());
    let v = m.observe(volts(6.0, 12.0)).unwrap();
    assert_eq!((v.lin.raw, v.ang.raw), (245_452, 109_090));
}

#[test]
fn actuated_equal_voltages_drive_straight() {
    let mut m = ActuatedDDMRModel::new(secs(0.01), params(0.1), motor()).unwrap();
    for k in 0..20 {
        let u = 3.0 + k as f64;
        let v = m.observe(volts(u, u)).unwrap();
        assert_eq!(v.ang.raw, 0);
        assert!(v.lin.raw > 0);
    }
}

#[test]
fn actuated_models_built_alike_agree() {
    let mut a = ActuatedDDMRModel::new(secs(0.01), params(0.1), motor()).unwrap();
    let mut b = ActuatedDDMRModel::new(secs(0.01), params(0.1), motor()).unwrap();
    for _ in 0..5 {
        a.observe(volts(0.0, 0.0)).unwrap();
    }
    for k in 0..10 {
        let u = volts(k as f64, 12.0 - k as f64);
        let va = a.observe(u).unwrap();
        let vb = b.observe(u).unwrap();
        assert_eq!((va.lin, va.ang), (vb.lin, vb.ang));
    }
}
