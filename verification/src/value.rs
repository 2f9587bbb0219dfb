//! The runtime's value handles, modeled.
//!
//! The host runtime represents every value as a tagged handle. An integer
//! small enough for the immediate ("fixnum") encoding is stored in the
//! handle itself; a larger integer is a heap-allocated big-integer object
//! the handle points to. This module models the handle, the classifier
//! that reads its tag, the runtime's native-integer conversion entry
//! points, and the protected-call bridge that turns the runtime's internal
//! range-check fault into an ordinary error value.

use vstd::prelude::*;

verus! {

use crate::limbs::{
    copy_limbs, lemma_limbs_value_ge_base, lemma_limbs_value_pos, lemma_limbs_value_single,
    limbs_value, limbs_wf,
};

/// Smallest integer the immediate (fixnum) encoding can hold: one bit of
/// the 64-bit handle is reserved for the tag, leaving 63 bits of payload.
pub const FIXNUM_MIN: i64 = -0x4000000000000000;

/// Largest integer the immediate (fixnum) encoding can hold.
pub const FIXNUM_MAX: i64 = 0x3FFFFFFFFFFFFFFF;

/// Whether `n` fits the immediate encoding. The runtime heap-allocates a
/// big-integer object exactly for the integers where this fails.
pub open spec fn fixnum_fits(n: int) -> bool {
    FIXNUM_MIN <= n <= FIXNUM_MAX
}

/// Object-kind tag, as the runtime's classifier reports it.
#[derive(Clone, Copy, PartialEq, Eq, Structural, Debug)]
pub enum ValueKind {
    Nil,
    Fixnum,
    Bignum,
}

/// What a handle denotes, mathematically: nothing, or an integer in one of
/// the runtime's two integer encodings.
pub enum ValueModel {
    Nil,
    Fixnum { n: int },
    Bignum { n: int },
}

/// The tag a modeled handle carries.
pub open spec fn kind_of(m: ValueModel) -> ValueKind {
    match m {
        ValueModel::Nil => ValueKind::Nil,
        ValueModel::Fixnum { .. } => ValueKind::Fixnum,
        ValueModel::Bignum { .. } => ValueKind::Bignum,
    }
}

/// Whether the handle denotes an integer, in either encoding.
pub open spec fn is_integer(m: ValueModel) -> bool {
    m is Fixnum || m is Bignum
}

/// The integer a handle denotes; meaningful only for the integer kinds.
pub open spec fn integer_of(m: ValueModel) -> int
    recommends
        is_integer(m),
{
    match m {
        ValueModel::Fixnum { n } => n,
        ValueModel::Bignum { n } => n,
        ValueModel::Nil => arbitrary(),
    }
}

/// Token recording that the protected-call bridge intercepted a fault the
/// runtime raised during a conversion. The fault's own payload is not
/// recoverable here; the token's presence is the significant fact.
#[derive(Clone, Copy, PartialEq, Eq, Structural, Debug)]
pub struct ProtectState;

enum ValueRepr {
    Nil,
    Fixnum(i64),
    Bignum { negative: bool, limbs: Vec<u64> },
}

/// A runtime value handle. A fixnum handle carries its integer directly;
/// a big-integer handle carries a sign and the magnitude's limbs. The
/// runtime keeps big-integer objects normalized and never heap-allocates
/// an integer that the immediate encoding could hold.
pub struct Value {
    repr: ValueRepr,
}

spec fn signed_of(negative: bool, limbs: Seq<u64>) -> int {
    if negative {
        -(limbs_value(limbs) as int)
    } else {
        limbs_value(limbs) as int
    }
}

impl View for Value {
    type V = ValueModel;

    closed spec fn view(&self) -> ValueModel {
        match self.repr {
            ValueRepr::Nil => ValueModel::Nil,
            ValueRepr::Fixnum(n) => ValueModel::Fixnum { n: n as int },
            ValueRepr::Bignum { negative, limbs } => ValueModel::Bignum {
                n: signed_of(negative, limbs@),
            },
        }
    }
}

impl Value {
    #[verifier::type_invariant]
    spec fn inv(&self) -> bool {
        match self.repr {
            ValueRepr::Nil => true,
            ValueRepr::Fixnum(n) => fixnum_fits(n as int),
            ValueRepr::Bignum { negative, limbs } => limbs_wf(limbs@) && !fixnum_fits(
                signed_of(negative, limbs@),
            ),
        }
    }

    /// The runtime's nil handle.
    pub fn nil() -> (v: Value)
        ensures
            v@ == ValueModel::Nil,
    {
        Value { repr: ValueRepr::Nil }
    }

    /// The runtime's "signed 64-bit to integer" entry point. Total and
    /// non-faulting: the runtime picks the immediate encoding when the
    /// value fits and heap-allocates a big-integer object otherwise.
    pub fn integer_from_i64(n: i64) -> (v: Value)
        ensures
            fixnum_fits(n as int) ==> v@ == (ValueModel::Fixnum { n: n as int }),
            !fixnum_fits(n as int) ==> v@ == (ValueModel::Bignum { n: n as int }),
    {
        if FIXNUM_MIN <= n && n <= FIXNUM_MAX {
            Value { repr: ValueRepr::Fixnum(n) }
        } else {
            let negative = n < 0;
            let mag: u64 = if n >= 0 {
                n as u64
            } else {
                ((-(n + 1)) as u64) + 1
            };
            assert(mag as int == if n >= 0 { n as int } else { -(n as int) });
            let mut limbs: Vec<u64> = Vec::new();
            limbs.push(mag);
            proof {
                lemma_limbs_value_single(limbs@);
            }
            Value { repr: ValueRepr::Bignum { negative, limbs } }
        }
    }

    /// The runtime's "unsigned 64-bit to integer" entry point. Total and
    /// non-faulting, with the same encoding choice as the signed one.
    pub fn integer_from_u64(n: u64) -> (v: Value)
        ensures
            fixnum_fits(n as int) ==> v@ == (ValueModel::Fixnum { n: n as int }),
            !fixnum_fits(n as int) ==> v@ == (ValueModel::Bignum { n: n as int }),
    {
        if n <= (FIXNUM_MAX as u64) {
            Value { repr: ValueRepr::Fixnum(n as i64) }
        } else {
            let mut limbs: Vec<u64> = Vec::new();
            limbs.push(n);
            proof {
                lemma_limbs_value_single(limbs@);
            }
            Value { repr: ValueRepr::Bignum { negative: false, limbs } }
        }
    }

    /// Read the handle's object-kind tag. The classifier is the single
    /// source of truth for what a handle denotes; it is pure and reads
    /// only the handle's tag metadata.
    pub fn kind(&self) -> (k: ValueKind)
        ensures
            k == kind_of(self@),
    {
        match &self.repr {
            ValueRepr::Nil => ValueKind::Nil,
            ValueRepr::Fixnum(_) => ValueKind::Fixnum,
            ValueRepr::Bignum { .. } => ValueKind::Bignum,
        }
    }

    /// The runtime's "integer to signed 64-bit" entry point, run inside
    /// the protected-call bridge. The runtime range-checks and raises its
    /// internal fault on an integer outside the signed 64-bit range, and
    /// on a handle that denotes no integer at all; the bridge intercepts
    /// the fault and yields a `ProtectState` instead of letting it unwind.
    pub fn protected_to_i64(&self) -> (r: Result<i64, ProtectState>)
        ensures
            r is Ok <==> is_integer(self@) && i64::MIN <= integer_of(self@) <= i64::MAX,
            r matches Ok(m) ==> m as int == integer_of(self@),
    {
        proof {
            use_type_invariant(self);
        }
        match &self.repr {
            ValueRepr::Nil => Err(ProtectState),
            ValueRepr::Fixnum(n) => Ok(*n),
            ValueRepr::Bignum { negative, limbs } => {
                if limbs.len() >= 2 {
                    proof {
                        lemma_limbs_value_ge_base(limbs@);
                    }
                    Err(ProtectState)
                } else {
                    let m: u64 = limbs[0];
                    proof {
                        lemma_limbs_value_single(limbs@);
                    }
                    if !*negative {
                        if m <= 0x7FFFFFFFFFFFFFFF {
                            Ok(m as i64)
                        } else {
                            Err(ProtectState)
                        }
                    } else {
                        if m <= 0x7FFFFFFFFFFFFFFF {
                            Ok(-(m as i64))
                        } else if m == 0x8000000000000000 {
                            Ok(i64::MIN)
                        } else {
                            Err(ProtectState)
                        }
                    }
                }
            },
        }
    }

    /// The runtime's "integer to unsigned 64-bit" entry point, run inside
    /// the protected-call bridge. A negative integer is out of range and
    /// faults; it is never wrapped or truncated.
    pub fn protected_to_u64(&self) -> (r: Result<u64, ProtectState>)
        ensures
            r is Ok <==> is_integer(self@) && 0 <= integer_of(self@) <= u64::MAX,
            r matches Ok(m) ==> m as int == integer_of(self@),
    {
        proof {
            use_type_invariant(self);
        }
        match &self.repr {
            ValueRepr::Nil => Err(ProtectState),
            ValueRepr::Fixnum(n) => {
                if *n >= 0 {
                    Ok(*n as u64)
                } else {
                    Err(ProtectState)
                }
            },
            ValueRepr::Bignum { negative, limbs } => {
                if *negative {
                    proof {
                        lemma_limbs_value_pos(limbs@);
                    }
                    Err(ProtectState)
                } else if limbs.len() >= 2 {
                    proof {
                        lemma_limbs_value_ge_base(limbs@);
                    }
                    Err(ProtectState)
                } else {
                    proof {
                        lemma_limbs_value_single(limbs@);
                    }
                    Ok(limbs[0])
                }
            },
        }
    }
}

impl Clone for Value {
    /// Duplicate a handle; the copy denotes exactly what the original does.
    fn clone(&self) -> (r: Self)
        ensures
            r@ == self@,
    {
        proof {
            use_type_invariant(self);
        }
        match &self.repr {
            ValueRepr::Nil => Value { repr: ValueRepr::Nil },
            ValueRepr::Fixnum(n) => Value { repr: ValueRepr::Fixnum(*n) },
            ValueRepr::Bignum { negative, limbs } => Value {
                repr: ValueRepr::Bignum { negative: *negative, limbs: copy_limbs(limbs) },
            },
        }
    }
}

/// A handle known to use the immediate (fixnum) encoding: the alternate
/// outcome when a big-integer is requested for an integer small enough
/// that the runtime chose the cheaper encoding instead.
#[derive(Debug)]
pub struct Fixnum {
    raw: i64,
}

impl View for Fixnum {
    type V = int;

    closed spec fn view(&self) -> int {
        self.raw as int
    }
}

impl Fixnum {
    #[verifier::type_invariant]
    spec fn inv(&self) -> bool {
        fixnum_fits(self.raw as int)
    }

    /// Classify a handle as a fixnum: yields the typed value exactly when
    /// the handle's tag is fixnum. Any other tag is a normal, expected
    /// outcome of probing, not an error.
    pub fn from_value(val: &Value) -> (r: Option<Fixnum>)
        ensures
            r is Some <==> val@ is Fixnum,
            r matches Some(f) ==> f@ == val@->Fixnum_n,
    {
        proof {
            use_type_invariant(val);
        }
        match &val.repr {
            ValueRepr::Fixnum(n) => Some(Fixnum { raw: *n }),
            _ => None,
        }
    }

    /// The integer this fixnum holds; a fixnum always lies within the
    /// signed 64-bit range.
    pub fn to_i64(&self) -> (n: i64)
        ensures
            n as int == self@,
    {
        self.raw
    }
}

} // verus!
