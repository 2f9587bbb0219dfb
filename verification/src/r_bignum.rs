//! The big-integer view: a typed assertion, layered over a value handle,
//! that the handle's runtime tag is big-integer. It exposes construction
//! from native 64-bit integers (yielding the immediate encoding as the
//! alternate outcome when the value fits it) and extraction back to native
//! 64-bit integers, where the runtime's own range check is surfaced as a
//! recoverable fault token.

use vstd::prelude::*;

verus! {

use crate::value::{
    fixnum_fits, integer_of, Fixnum, ProtectState, Value, ValueKind, ValueModel,
};

/// A handle whose runtime tag is known to be big-integer. Carries nothing
/// beyond the handle itself; it is created only by classification, never
/// speculatively. Its view is the integer the big-integer object holds.
pub struct RBignum {
    val: Value,
}

impl View for RBignum {
    type V = int;

    closed spec fn view(&self) -> int {
        integer_of(self.val@)
    }
}

impl RBignum {
    #[verifier::type_invariant]
    spec fn inv(&self) -> bool {
        self.val@ is Bignum
    }

    /// Attempt to interpret a handle as a big-integer view: classification
    /// succeeds exactly when the handle's tag is big-integer. Any other
    /// tag gives the empty result, a normal outcome of probing.
    pub fn from_value(val: &Value) -> (r: Option<RBignum>)
        ensures
            r is Some <==> val@ is Bignum,
            r matches Some(b) ==> b@ == val@->Bignum_n,
    {
        match val.kind() {
            ValueKind::Bignum => Some(RBignum { val: val.clone() }),
            _ => None,
        }
    }

    /// Ask the runtime to represent a signed 64-bit integer, then classify
    /// the resulting handle. The runtime encodes every such integer, so
    /// exactly one of the two outcomes is produced: a big-integer view when
    /// the value needed the heap encoding, or, as the alternate outcome,
    /// the fixnum the runtime chose instead. Either way the result holds
    /// exactly `n`.
    pub fn from_i64(n: i64) -> (r: Result<RBignum, Fixnum>)
        ensures
            r is Err <==> fixnum_fits(n as int),
            r matches Ok(b) ==> b@ == n as int,
            r matches Err(f) ==> f@ == n as int,
    {
        let val = Value::integer_from_i64(n);
        match RBignum::from_value(&val) {
            Some(b) => Ok(b),
            None => match Fixnum::from_value(&val) {
                Some(f) => Err(f),
                None => unreached(),
            },
        }
    }

    /// Ask the runtime to represent an unsigned 64-bit integer, then
    /// classify the resulting handle; same outcome shape as the signed
    /// constructor.
    pub fn from_u64(n: u64) -> (r: Result<RBignum, Fixnum>)
        ensures
            r is Err <==> fixnum_fits(n as int),
            r matches Ok(b) ==> b@ == n as int,
            r matches Err(f) ==> f@ == n as int,
    {
        let val = Value::integer_from_u64(n);
        match RBignum::from_value(&val) {
            Some(b) => Ok(b),
            None => match Fixnum::from_value(&val) {
                Some(f) => Err(f),
                None => unreached(),
            },
        }
    }

    /// Convert the big integer to a signed 64-bit integer through the
    /// protected runtime entry point: the value itself when it lies in the
    /// signed 64-bit range, the intercepted fault otherwise.
    pub fn to_i64(&self) -> (r: Result<i64, ProtectState>)
        ensures
            r is Ok <==> i64::MIN <= self@ <= i64::MAX,
            r matches Ok(m) ==> m as int == self@,
    {
        proof {
            use_type_invariant(self);
        }
        self.val.protected_to_i64()
    }

    /// Convert the big integer to an unsigned 64-bit integer through the
    /// protected runtime entry point: the value itself when it lies in the
    /// unsigned 64-bit range, the intercepted fault otherwise. A negative
    /// big integer is out of range and faults; it is never wrapped.
    pub fn to_u64(&self) -> (r: Result<u64, ProtectState>)
        ensures
            r is Ok <==> 0 <= self@ <= u64::MAX,
            r matches Ok(m) ==> m as int == self@,
    {
        proof {
            use_type_invariant(self);
        }
        self.val.protected_to_u64()
    }

    /// Project the view back to the underlying handle, for generic
    /// handle-consuming operations. Pure reinterpretation: nothing is
    /// allocated and nothing re-validated, since validation happened at
    /// classification time.
    pub fn as_value(&self) -> (r: &Value)
        ensures
            r@ == (ValueModel::Bignum { n: self@ }),
    {
        proof {
            use_type_invariant(self);
        }
        &self.val
    }
}

/// Round trip, signed: a big-integer view built from an `i64` outside the
/// immediate-encoding range holds exactly that integer, so any outcome the
/// signed extraction contract admits for it is `Ok` of that same integer.
pub proof fn lemma_round_trip_i64(n: i64, b: RBignum, r: Result<i64, ProtectState>)
    requires
        !fixnum_fits(n as int),
        b@ == n as int,
        r is Ok <==> i64::MIN <= b@ <= i64::MAX,
        r matches Ok(m) ==> m as int == b@,
    ensures
        r == Result::<i64, ProtectState>::Ok(n),
{
}

/// Round trip, unsigned: a big-integer view built from a `u64` outside the
/// immediate-encoding range holds exactly that integer, so any outcome the
/// unsigned extraction contract admits for it is `Ok` of that same integer.
pub proof fn lemma_round_trip_u64(n: u64, b: RBignum, r: Result<u64, ProtectState>)
    requires
        !fixnum_fits(n as int),
        b@ == n as int,
        r is Ok <==> 0 <= b@ <= u64::MAX,
        r matches Ok(m) ==> m as int == b@,
    ensures
        r == Result::<u64, ProtectState>::Ok(n),
{
}

/// Extraction range law: for a big-integer view holding a negative
/// integer, every outcome the unsigned extraction contract admits is the
/// fault token, never a wrapped or truncated value.
pub proof fn lemma_negative_to_u64_faults(b: RBignum, r: Result<u64, ProtectState>)
    requires
        b@ < 0,
        r is Ok <==> 0 <= b@ <= u64::MAX,
    ensures
        r is Err,
{
}

} // verus!
