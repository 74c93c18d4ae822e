//! Scalar values and their structural equality and partial order.
//!
//! A `Value` is the tagged scalar that rows carry: SQL `NULL`, a boolean, a
//! 64-bit integer, a double-precision float (held as its IEEE 754 bit
//! pattern) or a text string. Contracts speak of the mathematical shape
//! `ValueV`, reached through the value's view.
//!
//! Two values are equal when they are structurally equal: same tag and same
//! payload, with floats compared by bit pattern and `Null` equal to `Null`.
//! This is the equality that grouping uses; it deliberately differs from the
//! three-valued SQL comparison semantics, so that every row lands in exactly
//! one deterministic group.

use vstd::prelude::*;

use crate::float_bits::cmp_f64_bits;
use crate::float_bits::f64_cmp_bits;
use vstd::string::StrSliceExecFns;

verus! {

broadcast use vstd::string::group_string_axioms;

/// The mathematical shape of a scalar value, used in contracts.
pub enum ValueV {
    Null,
    Boolean(bool),
    Integer(int),
    Float(u64),
    Text(Seq<char>),
}

/// A scalar value as rows carry it. The `Float` payload is the IEEE 754
/// double-precision bit pattern of the number it stands for.
#[derive(Debug, Clone, PartialEq)]
pub enum Value {
    Null,
    Boolean(bool),
    Integer(i64),
    Float(u64),
    Text(String),
}

impl View for Value {
    type V = ValueV;

    open spec fn view(&self) -> ValueV {
        match self {
            Value::Null => ValueV::Null,
            Value::Boolean(b) => ValueV::Boolean(*b),
            Value::Integer(i) => ValueV::Integer(*i as int),
            Value::Float(f) => ValueV::Float(*f),
            Value::Text(s) => ValueV::Text(s@),
        }
    }
}

impl DeepView for Value {
    type V = ValueV;

    open spec fn deep_view(&self) -> ValueV {
        self.view()
    }
}

/// Whether two values carry the same datatype tag. `Null` shares its tag
/// with `Null` alone.
pub open spec fn same_datatype(a: ValueV, b: ValueV) -> bool {
    match (a, b) {
        (ValueV::Null, ValueV::Null) => true,
        (ValueV::Boolean(_), ValueV::Boolean(_)) => true,
        (ValueV::Integer(_), ValueV::Integer(_)) => true,
        (ValueV::Float(_), ValueV::Float(_)) => true,
        (ValueV::Text(_), ValueV::Text(_)) => true,
        _ => false,
    }
}

/// Lexicographic order on character sequences: -1, 0 or 1.
pub open spec fn cmp_text(a: Seq<char>, b: Seq<char>) -> int
    decreases a.len(),
{
    if a.len() == 0 && b.len() == 0 {
        0
    } else if a.len() == 0 {
        -1
    } else if b.len() == 0 {
        1
    } else if (a[0] as int) < (b[0] as int) {
        -1
    } else if (a[0] as int) > (b[0] as int) {
        1
    } else {
        cmp_text(a.drop_first(), b.drop_first())
    }
}

/// The partial order on values: defined within one datatype (booleans by
/// `false < true`, integers numerically, floats by the IEEE 754 order,
/// text lexicographically, `Null` equal to `Null`), undefined across
/// datatypes and on float NaNs.
pub open spec fn cmp_value(a: ValueV, b: ValueV) -> Option<int> {
    match (a, b) {
        (ValueV::Null, ValueV::Null) => Some(0int),
        (ValueV::Boolean(x), ValueV::Boolean(y)) => {
            if x == y {
                Some(0int)
            } else if y {
                Some(-1int)
            } else {
                Some(1int)
            }
        },
        (ValueV::Integer(x), ValueV::Integer(y)) => {
            if x < y {
                Some(-1int)
            } else if x == y {
                Some(0int)
            } else {
                Some(1int)
            }
        },
        (ValueV::Float(x), ValueV::Float(y)) => f64_cmp_bits(x, y),
        (ValueV::Text(x), ValueV::Text(y)) => Some(cmp_text(x, y)),
        _ => None,
    }
}

/// Lexicographic comparison is zero exactly on equal sequences.
pub proof fn lemma_cmp_text_eq(a: Seq<char>, b: Seq<char>)
    ensures
        (cmp_text(a, b) == 0) <==> (a == b),
    decreases a.len(),
{
    if a.len() == 0 && b.len() == 0 {
        assert(a =~= b);
    } else if a.len() == 0 || b.len() == 0 {
        assert(a.len() != b.len());
    } else {
        lemma_cmp_text_eq(a.drop_first(), b.drop_first());
        if cmp_text(a, b) == 0 {
            assert(a[0] as int == b[0] as int);
            assert(a[0] == b[0]);
            assert(a.drop_first() == b.drop_first());
            assert forall|i: int| 0 <= i < a.len() implies a[i] == #[trigger] b[i] by {
                if i > 0 {
                    assert(a.drop_first()[i - 1] == b.drop_first()[i - 1]);
                    assert(a.drop_first()[i - 1] == a[i]);
                    assert(b.drop_first()[i - 1] == b[i]);
                }
            }
            assert(a =~= b);
        }
        if a == b {
            assert(a.drop_first() =~= b.drop_first());
        }
    }
}

/// After `skipped` equal leading characters, comparison of the remainders
/// decides the comparison of the whole sequences.
proof fn lemma_cmp_text_skip(a: Seq<char>, b: Seq<char>, skipped: int)
    requires
        0 <= skipped <= a.len(),
        skipped <= b.len(),
        forall|i: int| 0 <= i < skipped ==> a[i] == b[i],
    ensures
        cmp_text(a, b) == cmp_text(a.skip(skipped), b.skip(skipped)),
    decreases skipped,
{
    if skipped > 0 {
        assert(a.len() > 0 && b.len() > 0);
        assert(a[0] == b[0]);
        lemma_cmp_text_skip(a.drop_first(), b.drop_first(), skipped - 1);
        assert(a.drop_first().skip(skipped - 1) =~= a.skip(skipped));
        assert(b.drop_first().skip(skipped - 1) =~= b.skip(skipped));
    } else {
        assert(a.skip(0) =~= a);
        assert(b.skip(0) =~= b);
    }
}

/// Compares two strings lexicographically by code point.
fn compare_text(a: &String, b: &String) -> (r: i8)
    ensures
        r as int == cmp_text(a@, b@),
{
    let sa: &str = a.as_str();
    let sb: &str = b.as_str();
    let la: usize = sa.unicode_len();
    let lb: usize = sb.unicode_len();
    let mut i: usize = 0;
    while i < la && i < lb
        invariant
            i <= la,
            i <= lb,
            la == sa@.len(),
            lb == sb@.len(),
            sa@ == a@,
            sb@ == b@,
            forall|j: int| 0 <= j < i ==> sa@[j] == sb@[j],
        decreases la - i,
    {
        let ca: char = sa.get_char(i);
        let cb: char = sb.get_char(i);
        if (ca as u32) < (cb as u32) {
            proof {
                lemma_cmp_text_skip(a@, b@, i as int);
            }
            return -1;
        }
        if (ca as u32) > (cb as u32) {
            proof {
                lemma_cmp_text_skip(a@, b@, i as int);
            }
            return 1;
        }
        i += 1;
    }
    proof {
        lemma_cmp_text_skip(a@, b@, i as int);
    }
    if la == lb {
        0
    } else if la < lb {
        -1
    } else {
        1
    }
}

/// Decides structural equality of two values: the equality grouping uses.
pub fn value_eq(a: &Value, b: &Value) -> (r: bool)
    ensures
        r == (a@ == b@),
{
    match (a, b) {
        (Value::Null, Value::Null) => true,
        (Value::Boolean(x), Value::Boolean(y)) => x == y,
        (Value::Integer(x), Value::Integer(y)) => x == y,
        (Value::Float(x), Value::Float(y)) => x == y,
        (Value::Text(x), Value::Text(y)) => {
            proof {
                lemma_cmp_text_eq(x@, y@);
            }
            compare_text(x, y) == 0
        },
        _ => false,
    }
}

/// Compares two values in the partial order `cmp_value` describes.
pub fn compare_values(a: &Value, b: &Value) -> (r: Option<i8>)
    ensures
        (r is Some) == (cmp_value(a@, b@) is Some),
        r is Some ==> cmp_value(a@, b@) == Some(r->0 as int),
{
    match (a, b) {
        (Value::Null, Value::Null) => Some(0),
        (Value::Boolean(x), Value::Boolean(y)) => {
            if x == y {
                Some(0)
            } else if *y {
                Some(-1)
            } else {
                Some(1)
            }
        },
        (Value::Integer(x), Value::Integer(y)) => {
            if x < y {
                Some(-1)
            } else if x == y {
                Some(0)
            } else {
                Some(1)
            }
        },
        (Value::Float(x), Value::Float(y)) => cmp_f64_bits(*x, *y),
        (Value::Text(x), Value::Text(y)) => Some(compare_text(x, y)),
        _ => None,
    }
}

/// Decides whether two values carry the same datatype tag.
pub fn values_same_datatype(a: &Value, b: &Value) -> (r: bool)
    ensures
        r == same_datatype(a@, b@),
{
    match (a, b) {
        (Value::Null, Value::Null) => true,
        (Value::Boolean(_), Value::Boolean(_)) => true,
        (Value::Integer(_), Value::Integer(_)) => true,
        (Value::Float(_), Value::Float(_)) => true,
        (Value::Text(_), Value::Text(_)) => true,
        _ => false,
    }
}

/// Copies a value, preserving its mathematical shape.
pub fn value_clone(v: &Value) -> (r: Value)
    ensures
        r@ == v@,
{
    match v {
        Value::Null => Value::Null,
        Value::Boolean(b) => Value::Boolean(*b),
        Value::Integer(i) => Value::Integer(*i),
        Value::Float(f) => Value::Float(*f),
        Value::Text(s) => Value::Text(s.as_str().to_string()),
    }
}

} // verus!
