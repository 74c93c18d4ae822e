//! The per-group accumulators: Count, Sum, Average, Max and Min.
//!
//! Each accumulator consumes one scalar value at a time and can be asked at
//! any moment for its finalized result, a read-only query. The transition
//! of every accumulator is a pure function of its state and the incoming
//! value, stated by the `..._step` spec functions, and the finalized result
//! is a pure function of the state, stated by the `..._final` ones.
//!
//! Sum, Max and Min poison stickily: once their state becomes `Null`
//! (after a `Null` input, a datatype mismatch or an incomparable pair),
//! it stays `Null` for good; later well-typed values cannot revive it.
//! Count simply ignores `Null`. This deliberately diverges from the SQL
//! convention of skipping NULLs and is part of the behaviour to keep.
//!
//! Arithmetic policy: the counter saturates at `i64::MAX`; integer
//! summation wraps around in two's complement, like native machine
//! addition; float arithmetic follows IEEE 754 double precision. The
//! average guards its division against a zero count defensively, although
//! a zero count can only finalize to `Null` anyway.

use vstd::prelude::*;

use crate::float_bits::add_f64_bits;
use crate::float_bits::count_to_f64_bits;
use crate::float_bits::div_f64_bits;
use crate::float_bits::f64_add_bits;
use crate::float_bits::f64_div_bits;
use crate::float_bits::f64_of_count;
use crate::value::Value;
use crate::value::ValueV;
use crate::value::cmp_value;
use crate::value::compare_values;
use crate::value::same_datatype;
use crate::value::value_clone;
use crate::value::values_same_datatype;
use vstd::arithmetic::div_mod::lemma_div_nonincreasing;

verus! {

/// Which aggregate function a column computes.
#[derive(Clone, Copy, PartialEq, Eq, Structural, Debug)]
pub enum Aggregate {
    Average,
    Count,
    Max,
    Min,
    Sum,
}

/// Failure of an accumulate step. The accumulators here never produce it,
/// but the capability is part of the accumulator contract.
#[derive(Clone, Copy, PartialEq, Eq, Structural, Debug)]
pub struct EvaluationError;

/// One counting step: `Null` is ignored, anything else counts; the counter
/// sticks at `i64::MAX` instead of overflowing.
pub open spec fn count_step(c: int, v: ValueV) -> int {
    if v is Null {
        c
    } else if c >= i64::MAX {
        c
    } else {
        c + 1
    }
}

/// The finalized counter, clamped into the `Integer` range.
pub open spec fn count_final(c: int) -> ValueV {
    if c > i64::MAX {
        ValueV::Integer(i64::MAX as int)
    } else {
        ValueV::Integer(c)
    }
}

/// The mathematical sum wrapped into `i64` in two's complement.
pub open spec fn wrap_add_i64(a: int, b: int) -> int {
    if a + b > i64::MAX {
        a + b - 0x1_0000_0000_0000_0000
    } else if a + b < i64::MIN {
        a + b + 0x1_0000_0000_0000_0000
    } else {
        a + b
    }
}

/// One summing step. An unset sum adopts the first `Integer` or `Float`;
/// a set sum grows only by a value of its own datatype; every other
/// combination — a `Null` input, a datatype mismatch, a non-numeric value,
/// or a sum already poisoned — poisons the sum to `Null`, permanently.
pub open spec fn sum_step(s: Option<ValueV>, v: ValueV) -> Option<ValueV> {
    match (s, v) {
        (Some(ValueV::Integer(x)), ValueV::Integer(y)) => Some(
            ValueV::Integer(wrap_add_i64(x, y)),
        ),
        (Some(ValueV::Float(x)), ValueV::Float(y)) => Some(ValueV::Float(f64_add_bits(x, y))),
        (None, ValueV::Integer(y)) => Some(ValueV::Integer(y)),
        (None, ValueV::Float(y)) => Some(ValueV::Float(y)),
        _ => Some(ValueV::Null),
    }
}

/// One maximum step. An unset maximum adopts the value unconditionally,
/// even `Null`; a datatype mismatch or an incomparable pair poisons to
/// `Null`; a greater value replaces the current one; an equal or smaller
/// value changes nothing.
pub open spec fn max_step(cur: Option<ValueV>, v: ValueV) -> Option<ValueV> {
    match cur {
        None => Some(v),
        Some(m) => {
            if !same_datatype(m, v) {
                Some(ValueV::Null)
            } else {
                match cmp_value(v, m) {
                    None => Some(ValueV::Null),
                    Some(c) => if c > 0 {
                        Some(v)
                    } else {
                        Some(m)
                    },
                }
            }
        },
    }
}

/// One minimum step, symmetric to `max_step`: a smaller value replaces the
/// current one.
pub open spec fn min_step(cur: Option<ValueV>, v: ValueV) -> Option<ValueV> {
    match cur {
        None => Some(v),
        Some(m) => {
            if !same_datatype(m, v) {
                Some(ValueV::Null)
            } else {
                match cmp_value(v, m) {
                    None => Some(ValueV::Null),
                    Some(c) => if c < 0 {
                        Some(v)
                    } else {
                        Some(m)
                    },
                }
            }
        },
    }
}

/// The finalized optional state of Sum, Max and Min: the held value, or
/// `Null` when nothing was ever accumulated.
pub open spec fn opt_final(s: Option<ValueV>) -> ValueV {
    match s {
        Some(v) => v,
        None => ValueV::Null,
    }
}

/// Truncating integer division (rounding toward zero) by a positive
/// divisor.
pub open spec fn div_trunc(a: int, b: int) -> int
    recommends
        b > 0,
{
    if a >= 0 {
        a / b
    } else {
        -((-a) / b)
    }
}

/// The finalized average: an `Integer` sum divides truncating by the
/// count, a `Float` sum divides in IEEE 754 by the count cast to a double,
/// and anything else — including a poisoned or never-set sum, and,
/// defensively, a zero count — is `Null`.
pub open spec fn avg_final(s: Option<ValueV>, c: int) -> ValueV {
    let cc = if c > i64::MAX {
        i64::MAX as int
    } else {
        c
    };
    match s {
        Some(ValueV::Integer(x)) => {
            if cc <= 0 {
                ValueV::Null
            } else {
                ValueV::Integer(div_trunc(x, cc))
            }
        },
        Some(ValueV::Float(f)) => {
            if cc <= 0 {
                ValueV::Null
            } else {
                ValueV::Float(f64_div_bits(f, f64_of_count(cc as u64)))
            }
        },
        _ => ValueV::Null,
    }
}

/// Adds two machine integers with two's-complement wrap-around.
fn i64_wrapping_add(a: i64, b: i64) -> (r: i64)
    ensures
        r as int == wrap_add_i64(a as int, b as int),
{
    let s: i128 = a as i128 + b as i128;
    if s > i64::MAX as i128 {
        (s - 0x1_0000_0000_0000_0000) as i64
    } else if s < i64::MIN as i128 {
        (s + 0x1_0000_0000_0000_0000) as i64
    } else {
        s as i64
    }
}

/// Divides a machine integer by a positive divisor, rounding toward zero.
fn i64_div_trunc(a: i64, b: i64) -> (q: i64)
    requires
        b >= 1,
    ensures
        q as int == div_trunc(a as int, b as int),
{
    if a >= 0 {
        proof {
            lemma_div_nonincreasing(a as int, b as int);
        }
        ((a as u64) / (b as u64)) as i64
    } else {
        let m: u128 = (-(a as i128)) as u128;
        let q0: u128 = m / (b as u128);
        proof {
            lemma_div_nonincreasing(m as int, b as int);
        }
        (-(q0 as i128)) as i64
    }
}

/// Counts the values that are not `Null`.
pub struct Count {
    count: u64,
}

impl View for Count {
    type V = int;

    closed spec fn view(&self) -> int {
        self.count as int
    }
}

impl Count {
    pub fn new() -> (c: Count)
        ensures
            c@ == 0,
    {
        Count { count: 0 }
    }

    pub fn accumulate(&mut self, value: &Value) -> (r: Result<(), EvaluationError>)
        ensures
            r is Ok,
            final(self)@ == count_step(old(self)@, value@),
    {
        match value {
            Value::Null => {},
            _ => {
                if self.count < i64::MAX as u64 {
                    self.count = self.count + 1;
                }
            },
        }
        Ok(())
    }

    pub fn aggregate(&self) -> (r: Value)
        ensures
            r@ == count_final(self@),
    {
        if self.count > i64::MAX as u64 {
            Value::Integer(i64::MAX)
        } else {
            Value::Integer(self.count as i64)
        }
    }
}

/// Sums `Integer` or `Float` values, poisoning stickily on `Null` or on a
/// datatype mismatch.
pub struct Sum {
    sum: Option<Value>,
}

impl View for Sum {
    type V = Option<ValueV>;

    closed spec fn view(&self) -> Option<ValueV> {
        match self.sum {
            Some(v) => Some(v@),
            None => None,
        }
    }
}

impl Sum {
    pub fn new() -> (s: Sum)
        ensures
            s@ is None,
    {
        Sum { sum: None }
    }

    pub fn accumulate(&mut self, value: &Value) -> (r: Result<(), EvaluationError>)
        ensures
            r is Ok,
            final(self)@ == sum_step(old(self)@, value@),
    {
        self.sum = match (&self.sum, value) {
            (Some(Value::Integer(s)), Value::Integer(i)) => Some(
                Value::Integer(i64_wrapping_add(*s, *i)),
            ),
            (Some(Value::Float(s)), Value::Float(f)) => Some(Value::Float(add_f64_bits(*s, *f))),
            (None, Value::Integer(i)) => Some(Value::Integer(*i)),
            (None, Value::Float(f)) => Some(Value::Float(*f)),
            _ => Some(Value::Null),
        };
        Ok(())
    }

    pub fn aggregate(&self) -> (r: Value)
        ensures
            r@ == opt_final(self@),
    {
        match &self.sum {
            Some(v) => value_clone(v),
            None => Value::Null,
        }
    }
}

/// Keeps the greatest value seen, poisoning stickily on `Null`, a
/// datatype mismatch or an incomparable pair.
pub struct Max {
    max: Option<Value>,
}

impl View for Max {
    type V = Option<ValueV>;

    closed spec fn view(&self) -> Option<ValueV> {
        match self.max {
            Some(v) => Some(v@),
            None => None,
        }
    }
}

impl Max {
    pub fn new() -> (m: Max)
        ensures
            m@ is None,
    {
        Max { max: None }
    }

    pub fn accumulate(&mut self, value: &Value) -> (r: Result<(), EvaluationError>)
        ensures
            r is Ok,
            final(self)@ == max_step(old(self)@, value@),
    {
        if self.max.is_none() {
            self.max = Some(value_clone(value));
            return Ok(());
        }
        let decision: i8 = {
            let m: &Value = self.max.as_ref().unwrap();
            if !values_same_datatype(m, value) {
                0
            } else {
                match compare_values(value, m) {
                    None => 0,
                    Some(c) => if c > 0 {
                        1
                    } else {
                        2
                    },
                }
            }
        };
        if decision == 0 {
            self.max = Some(Value::Null);
        } else if decision == 1 {
            self.max = Some(value_clone(value));
        }
        Ok(())
    }

    pub fn aggregate(&self) -> (r: Value)
        ensures
            r@ == opt_final(self@),
    {
        match &self.max {
            Some(v) => value_clone(v),
            None => Value::Null,
        }
    }
}

/// Keeps the smallest value seen, poisoning stickily on `Null`, a
/// datatype mismatch or an incomparable pair.
pub struct Min {
    min: Option<Value>,
}

impl View for Min {
    type V = Option<ValueV>;

    closed spec fn view(&self) -> Option<ValueV> {
        match self.min {
            Some(v) => Some(v@),
            None => None,
        }
    }
}

impl Min {
    pub fn new() -> (m: Min)
        ensures
            m@ is None,
    {
        Min { min: None }
    }

    pub fn accumulate(&mut self, value: &Value) -> (r: Result<(), EvaluationError>)
        ensures
            r is Ok,
            final(self)@ == min_step(old(self)@, value@),
    {
        if self.min.is_none() {
            self.min = Some(value_clone(value));
            return Ok(());
        }
        let decision: i8 = {
            let m: &Value = self.min.as_ref().unwrap();
            if !values_same_datatype(m, value) {
                0
            } else {
                match compare_values(value, m) {
                    None => 0,
                    Some(c) => if c < 0 {
                        1
                    } else {
                        2
                    },
                }
            }
        };
        if decision == 0 {
            self.min = Some(Value::Null);
        } else if decision == 1 {
            self.min = Some(value_clone(value));
        }
        Ok(())
    }

    pub fn aggregate(&self) -> (r: Value)
        ensures
            r@ == opt_final(self@),
    {
        match &self.min {
            Some(v) => value_clone(v),
            None => Value::Null,
        }
    }
}

/// Averages values by feeding a Count and a Sum side by side and dividing
/// at finalize time.
pub struct Average {
    count: Count,
    sum: Sum,
}

impl View for Average {
    type V = (int, Option<ValueV>);

    closed spec fn view(&self) -> (int, Option<ValueV>) {
        (self.count@, self.sum@)
    }
}

impl Average {
    pub fn new() -> (a: Average)
        ensures
            a@.0 == 0,
            a@.1 is None,
    {
        Average { count: Count::new(), sum: Sum::new() }
    }

    pub fn accumulate(&mut self, value: &Value) -> (r: Result<(), EvaluationError>)
        ensures
            r is Ok,
            final(self)@.0 == count_step(old(self)@.0, value@),
            final(self)@.1 == sum_step(old(self)@.1, value@),
    {
        let rc = self.count.accumulate(value);
        if rc.is_err() {
            return rc;
        }
        self.sum.accumulate(value)
    }

    pub fn aggregate(&self) -> (r: Value)
        ensures
            r@ == avg_final(self@.1, self@.0),
    {
        match &self.sum.sum {
            Some(Value::Integer(x)) => {
                let c: i64 = if self.count.count > i64::MAX as u64 {
                    i64::MAX
                } else {
                    self.count.count as i64
                };
                if c == 0 {
                    Value::Null
                } else {
                    Value::Integer(i64_div_trunc(*x, c))
                }
            },
            Some(Value::Float(f)) => {
                let cu: u64 = if self.count.count > i64::MAX as u64 {
                    i64::MAX as u64
                } else {
                    self.count.count
                };
                if cu == 0 {
                    Value::Null
                } else {
                    Value::Float(div_f64_bits(*f, count_to_f64_bits(cu)))
                }
            },
            _ => Value::Null,
        }
    }
}

/// The closed set of accumulators, dispatched by aggregate kind. Its view
/// carries the kind and the mathematical state together.
pub enum AccV {
    Average(int, Option<ValueV>),
    Count(int),
    Max(Option<ValueV>),
    Min(Option<ValueV>),
    Sum(Option<ValueV>),
}

/// The freshly constructed, zero-valued state for an aggregate kind.
pub open spec fn acc_init(agg: Aggregate) -> AccV {
    match agg {
        Aggregate::Average => AccV::Average(0, None),
        Aggregate::Count => AccV::Count(0),
        Aggregate::Max => AccV::Max(None),
        Aggregate::Min => AccV::Min(None),
        Aggregate::Sum => AccV::Sum(None),
    }
}

/// One accumulate step of any accumulator.
pub open spec fn acc_step(a: AccV, v: ValueV) -> AccV {
    match a {
        AccV::Average(c, s) => AccV::Average(count_step(c, v), sum_step(s, v)),
        AccV::Count(c) => AccV::Count(count_step(c, v)),
        AccV::Max(m) => AccV::Max(max_step(m, v)),
        AccV::Min(m) => AccV::Min(min_step(m, v)),
        AccV::Sum(s) => AccV::Sum(sum_step(s, v)),
    }
}

/// The finalized result of any accumulator state.
pub open spec fn acc_final(a: AccV) -> ValueV {
    match a {
        AccV::Average(c, s) => avg_final(s, c),
        AccV::Count(c) => count_final(c),
        AccV::Max(m) => opt_final(m),
        AccV::Min(m) => opt_final(m),
        AccV::Sum(s) => opt_final(s),
    }
}

/// LAW: finalization is idempotent — it is a pure function of the state
/// and changes nothing, so two finalizations of one state agree.
pub proof fn lemma_finalize_idempotent(a: AccV, r1: ValueV, r2: ValueV)
    requires
        r1 == acc_final(a),
        r2 == acc_final(a),
    ensures
        r1 == r2,
{
}

/// LAW: sticky poisoning — a poisoned Sum stays `Null`, whatever arrives
/// afterwards.
pub proof fn lemma_sum_poison_sticky(v: ValueV)
    ensures
        sum_step(Some(ValueV::Null), v) == Some(ValueV::Null),
{
}

/// LAW: sticky poisoning — a poisoned Max stays `Null`, whatever arrives
/// afterwards: `Null` shares no datatype with anything but `Null`, and
/// `Null` compares equal to `Null`.
pub proof fn lemma_max_poison_sticky(v: ValueV)
    ensures
        max_step(Some(ValueV::Null), v) == Some(ValueV::Null),
{
}

/// LAW: sticky poisoning — a poisoned Min stays `Null`, whatever arrives
/// afterwards.
pub proof fn lemma_min_poison_sticky(v: ValueV)
    ensures
        min_step(Some(ValueV::Null), v) == Some(ValueV::Null),
{
}

/// LAW: Count ignores `Null` — a `Null` input leaves the counter as it
/// is.
pub proof fn lemma_count_ignores_null(c: int)
    ensures
        count_step(c, ValueV::Null) == c,
{
}

/// An accumulator of any kind: the closed union the grouping engine
/// stores, one per aggregate specification per group.
pub enum Accumulator {
    Average(Average),
    Count(Count),
    Max(Max),
    Min(Min),
    Sum(Sum),
}

impl View for Accumulator {
    type V = AccV;

    open spec fn view(&self) -> AccV {
        match self {
            Accumulator::Average(a) => AccV::Average(a@.0, a@.1),
            Accumulator::Count(c) => AccV::Count(c@),
            Accumulator::Max(m) => AccV::Max(m@),
            Accumulator::Min(m) => AccV::Min(m@),
            Accumulator::Sum(s) => AccV::Sum(s@),
        }
    }
}

impl DeepView for Accumulator {
    type V = AccV;

    open spec fn deep_view(&self) -> AccV {
        self.view()
    }
}

impl Accumulator {
    /// Constructs the fresh accumulator for an aggregate kind.
    pub fn from(aggregate: &Aggregate) -> (acc: Accumulator)
        ensures
            acc@ == acc_init(*aggregate),
    {
        match aggregate {
            Aggregate::Average => Accumulator::Average(Average::new()),
            Aggregate::Count => Accumulator::Count(Count::new()),
            Aggregate::Max => Accumulator::Max(Max::new()),
            Aggregate::Min => Accumulator::Min(Min::new()),
            Aggregate::Sum => Accumulator::Sum(Sum::new()),
        }
    }

    /// Accumulates one value.
    pub fn accumulate(&mut self, value: &Value) -> (r: Result<(), EvaluationError>)
        ensures
            r is Ok,
            final(self)@ == acc_step(old(self)@, value@),
    {
        match self {
            Accumulator::Average(a) => a.accumulate(value),
            Accumulator::Count(c) => c.accumulate(value),
            Accumulator::Max(m) => m.accumulate(value),
            Accumulator::Min(m) => m.accumulate(value),
            Accumulator::Sum(s) => s.accumulate(value),
        }
    }

    /// Computes the finalized result, without changing any state: the
    /// result is a function of the state alone, so repeated calls agree.
    pub fn aggregate(&self) -> (r: Value)
        ensures
            r@ == acc_final(self@),
    {
        match self {
            Accumulator::Average(a) => a.aggregate(),
            Accumulator::Count(c) => c.aggregate(),
            Accumulator::Max(m) => m.aggregate(),
            Accumulator::Min(m) => m.aggregate(),
            Accumulator::Sum(s) => s.aggregate(),
        }
    }
}

} // verus!
