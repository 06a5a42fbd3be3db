//! Dimensioned fixed-point quantities.
//!
//! A [`Quantity`] holds an integer count of billionths of the coherent SI
//! unit of its dimension: `raw == 1_000_000_000` is one metre for a length,
//! one second for a time, one newton-metre for a torque.
use vstd::prelude::*;

verus! {

/// Number of raw steps in one SI unit.
pub const SCALE: i64 = 1_000_000_000;

/// Exponents of the seven SI base dimensions.
#[derive(Clone, Copy, Debug, PartialEq, Eq, Structural)]
pub struct Dim {
    pub length: i8,
    pub mass: i8,
    pub time: i8,
    pub current: i8,
    pub temperature: i8,
    pub amount: i8,
    pub luminosity: i8,
}

pub open spec fn fits_i8(x: int) -> bool {
    i8::MIN <= x <= i8::MAX
}

impl Dim {
    /// The exponents of `self` and `o` can be added without leaving `i8`.
    pub open spec fn can_times(self, o: Dim) -> bool {
        &&& fits_i8(self.length + o.length)
        &&& fits_i8(self.mass + o.mass)
        &&& fits_i8(self.time + o.time)
        &&& fits_i8(self.current + o.current)
        &&& fits_i8(self.temperature + o.temperature)
        &&& fits_i8(self.amount + o.amount)
        &&& fits_i8(self.luminosity + o.luminosity)
    }

    /// The exponents of `o` can be subtracted from those of `self` without leaving `i8`.
    pub open spec fn can_per(self, o: Dim) -> bool {
        &&& fits_i8(self.length - o.length)
        &&& fits_i8(self.mass - o.mass)
        &&& fits_i8(self.time - o.time)
        &&& fits_i8(self.current - o.current)
        &&& fits_i8(self.temperature - o.temperature)
        &&& fits_i8(self.amount - o.amount)
        &&& fits_i8(self.luminosity - o.luminosity)
    }

    /// Dimension of a product: exponents add.
    pub open spec fn times(self, o: Dim) -> Dim {
        Dim {
            length: (self.length + o.length) as i8,
            mass: (self.mass + o.mass) as i8,
            time: (self.time + o.time) as i8,
            current: (self.current + o.current) as i8,
            temperature: (self.temperature + o.temperature) as i8,
            amount: (self.amount + o.amount) as i8,
            luminosity: (self.luminosity + o.luminosity) as i8,
        }
    }

    /// Dimension of a quotient: exponents subtract.
    pub open spec fn per(self, o: Dim) -> Dim {
        Dim {
            length: (self.length - o.length) as i8,
            mass: (self.mass - o.mass) as i8,
            time: (self.time - o.time) as i8,
            current: (self.current - o.current) as i8,
            temperature: (self.temperature - o.temperature) as i8,
            amount: (self.amount - o.amount) as i8,
            luminosity: (self.luminosity - o.luminosity) as i8,
        }
    }

    pub fn product(self, o: Dim) -> (r: Dim)
        requires
            self.can_times(o),
        ensures
            r == self.times(o),
    {
        Dim {
            length: self.length + o.length,
            mass: self.mass + o.mass,
            time: self.time + o.time,
            current: self.current + o.current,
            temperature: self.temperature + o.temperature,
            amount: self.amount + o.amount,
            luminosity: self.luminosity + o.luminosity,
        }
    }

    pub fn quotient(self, o: Dim) -> (r: Dim)
        requires
            self.can_per(o),
        ensures
            r == self.per(o),
    {
        Dim {
            length: self.length - o.length,
            mass: self.mass - o.mass,
            time: self.time - o.time,
            current: self.current - o.current,
            temperature: self.temperature - o.temperature,
            amount: self.amount - o.amount,
            luminosity: self.luminosity - o.luminosity,
        }
    }
}

/// Builds a dimension from the exponents of length, mass, time and current.
pub open spec fn dim4(length: int, mass: int, time: int, current: int) -> Dim {
    Dim {
        length: length as i8,
        mass: mass as i8,
        time: time as i8,
        current: current as i8,
        temperature: 0,
        amount: 0,
        luminosity: 0,
    }
}

/// Builds a dimension from the exponents of length, mass, time and current.
pub fn dim_of(length: i8, mass: i8, time: i8, current: i8) -> (r: Dim)
    ensures
        r == dim4(length as int, mass as int, time as int, current as int),
{
    Dim { length, mass, time, current, temperature: 0, amount: 0, luminosity: 0 }
}

pub open spec fn dimensionless() -> Dim { dim4(0, 0, 0, 0) }
pub open spec fn length() -> Dim { dim4(1, 0, 0, 0) }
pub open spec fn mass() -> Dim { dim4(0, 1, 0, 0) }
pub open spec fn time() -> Dim { dim4(0, 0, 1, 0) }
pub open spec fn current() -> Dim { dim4(0, 0, 0, 1) }
pub open spec fn velocity() -> Dim { dim4(1, 0, -1, 0) }
/// Radians are dimensionless, so an angular rate is a frequency.
pub open spec fn angular_rate() -> Dim { dim4(0, 0, -1, 0) }
pub open spec fn acceleration() -> Dim { dim4(1, 0, -2, 0) }
pub open spec fn angular_acceleration() -> Dim { dim4(0, 0, -2, 0) }
pub open spec fn moment_of_inertia() -> Dim { dim4(2, 1, 0, 0) }
pub open spec fn torque() -> Dim { dim4(2, 1, -2, 0) }
pub open spec fn voltage() -> Dim { dim4(2, 1, -3, -1) }
pub open spec fn resistance() -> Dim { dim4(2, 1, -3, -2) }
pub open spec fn inductance() -> Dim { dim4(2, 1, -2, -2) }
/// Volt-second, the unit of a back-EMF constant.
pub open spec fn volt_second() -> Dim { dim4(2, 1, -2, -1) }
/// Newton-metre per ampere, the unit of a torque constant.
pub open spec fn torque_per_current() -> Dim { dim4(2, 1, -2, -1) }

/// A value in raw steps of `1 / SCALE` SI units, tagged with its dimension.
#[derive(Clone, Copy, Debug, PartialEq, Eq, Structural)]
pub struct Quantity {
    pub raw: i64,
    pub dim: Dim,
}

pub open spec fn in_range(x: int) -> bool {
    i64::MIN <= x <= i64::MAX
}

/// Integer division rounding toward zero, as Rust's `/` does.
pub open spec fn tdiv(x: int, d: int) -> int {
    if x == 0 {
        0
    } else if x > 0 && d > 0 {
        x / d
    } else if x < 0 && d < 0 {
        (-x) / (-d)
    } else if x < 0 {
        -((-x) / d)
    } else {
        -(x / (-d))
    }
}

/// Raw value of the product of two raw values.
pub open spec fn fx_mul(a: int, b: int) -> int {
    tdiv(a * b, SCALE as int)
}

/// Raw value of the quotient of two raw values.
pub open spec fn fx_div(a: int, b: int) -> int {
    tdiv(a * SCALE, b)
}

/// A raw value, or `None` where it does not fit the representation.
pub open spec fn fit(x: int) -> Option<int> {
    if in_range(x) { Some(x) } else { None }
}

pub open spec fn opt_add(a: Option<int>, b: Option<int>) -> Option<int> {
    match (a, b) {
        (Some(x), Some(y)) => fit(x + y),
        _ => None,
    }
}

pub open spec fn opt_sub(a: Option<int>, b: Option<int>) -> Option<int> {
    match (a, b) {
        (Some(x), Some(y)) => fit(x - y),
        _ => None,
    }
}

pub open spec fn opt_mul(a: Option<int>, b: Option<int>) -> Option<int> {
    match (a, b) {
        (Some(x), Some(y)) => fit(fx_mul(x, y)),
        _ => None,
    }
}

pub open spec fn opt_div(a: Option<int>, b: Option<int>) -> Option<int> {
    match (a, b) {
        (Some(x), Some(y)) => if y == 0 { None } else { fit(fx_div(x, y)) },
        _ => None,
    }
}

pub open spec fn opt_scale(k: int, a: Option<int>) -> Option<int> {
    match a {
        Some(x) => fit(k * x),
        None => None,
    }
}

/// The raw value of an optional quantity.
pub open spec fn raw_of(q: Option<Quantity>) -> Option<int> {
    match q {
        Some(v) => Some(v.raw as int),
        None => None,
    }
}

/// The product of two `i64` values fits in `i128`.
proof fn lemma_wide_product(a: i64, b: i64)
    ensures
        i128::MIN <= (a as int) * (b as int) <= i128::MAX,
{
    let m: int = 0x8000_0000_0000_0000;
    let x: int = a as int;
    let y: int = b as int;
    assert(-0x4000_0000_0000_0000_0000_0000_0000_0000 <= x * y <= 0x4000_0000_0000_0000_0000_0000_0000_0000)
        by (nonlinear_arith)
        requires
            m == 0x8000_0000_0000_0000,
            -m <= x <= m,
            -m <= y <= m,
    ;
}

impl Quantity {
    pub open spec fn val(self) -> Option<int> {
        Some(self.raw as int)
    }

    /// A quantity of `raw` billionths of the SI unit of `dim`.
    pub fn new(raw: i64, dim: Dim) -> (r: Quantity)
        ensures
            r.raw == raw,
            r.dim == dim,
    {
        Quantity { raw, dim }
    }

    /// Zero in the unit of `dim`.
    pub fn zero(dim: Dim) -> (r: Quantity)
        ensures
            r.raw == 0,
            r.dim == dim,
    {
        Quantity { raw: 0, dim }
    }

    /// Narrows an exact raw result to the representation.
    fn narrow(x: i128, dim: Dim) -> (r: Option<Quantity>)
        ensures
            raw_of(r) == fit(x as int),
            r matches Some(q) ==> q.dim == dim,
    {
        if x < i64::MIN as i128 || x > i64::MAX as i128 {
            None
        } else {
            Some(Quantity { raw: x as i64, dim })
        }
    }

    /// Sum of two quantities of one dimension. Callers that are not verified
    /// get `None` for operands of different dimensions.
    pub fn checked_add(self, o: Quantity) -> (r: Option<Quantity>)
        requires
            self.dim == o.dim,
        ensures
            raw_of(r) == opt_add(self.val(), o.val()),
            r matches Some(q) ==> q.dim == self.dim,
    {
        if self.dim != o.dim {
            return None;
        }
        Self::narrow(self.raw as i128 + o.raw as i128, self.dim)
    }

    /// Difference of two quantities of one dimension. Callers that are not
    /// verified get `None` for operands of different dimensions.
    pub fn checked_sub(self, o: Quantity) -> (r: Option<Quantity>)
        requires
            self.dim == o.dim,
        ensures
            raw_of(r) == opt_sub(self.val(), o.val()),
            r matches Some(q) ==> q.dim == self.dim,
    {
        if self.dim != o.dim {
            return None;
        }
        Self::narrow(self.raw as i128 - o.raw as i128, self.dim)
    }

    /// Product, rounded toward zero to a whole raw step.
    pub fn checked_mul(self, o: Quantity) -> (r: Option<Quantity>)
        requires
            self.dim.can_times(o.dim),
        ensures
            raw_of(r) == opt_mul(self.val(), o.val()),
            r matches Some(q) ==> q.dim == self.dim.times(o.dim),
    {
        let dim = self.dim.product(o.dim);
        proof {
            lemma_wide_product(self.raw, o.raw);
        }
        let p: i128 = self.raw as i128 * o.raw as i128;
        match p.checked_div(SCALE as i128) {
            Some(x) => Self::narrow(x, dim),
            None => None,
        }
    }

    /// Quotient, rounded toward zero to a whole raw step; `None` for a zero divisor.
    pub fn checked_div(self, o: Quantity) -> (r: Option<Quantity>)
        requires
            self.dim.can_per(o.dim),
        ensures
            raw_of(r) == opt_div(self.val(), o.val()),
            r matches Some(q) ==> q.dim == self.dim.per(o.dim),
    {
        let dim = self.dim.quotient(o.dim);
        proof {
            lemma_wide_product(self.raw, SCALE);
        }
        let n: i128 = self.raw as i128 * SCALE as i128;
        match n.checked_div(o.raw as i128) {
            Some(x) => Self::narrow(x, dim),
            None => None,
        }
    }

    /// Absolute value; `None` for the one raw value without a positive counterpart.
    pub fn checked_abs(self) -> (r: Option<Quantity>)
        ensures
            raw_of(r) == fit(if self.raw < 0 { -self.raw } else { self.raw as int }),
            r matches Some(q) ==> q.dim == self.dim,
    {
        let x: i128 = self.raw as i128;
        Self::narrow(if x < 0 { -x } else { x }, self.dim)
    }

    /// Strict order between two quantities of the same dimension.
    pub fn less_than(self, o: Quantity) -> (r: bool)
        requires
            self.dim == o.dim,
        ensures
            r == (self.raw < o.raw),
    {
        self.raw < o.raw
    }

    /// Multiplies by a plain integer factor.
    pub fn checked_scale(self, k: i64) -> (r: Option<Quantity>)
        ensures
            raw_of(r) == opt_scale(k as int, self.val()),
            r matches Some(q) ==> q.dim == self.dim,
    {
        proof {
            lemma_wide_product(k, self.raw);
        }
        Self::narrow(k as i128 * self.raw as i128, self.dim)
    }
}

} // verus!
