use crate::errors::{describe_out_of_range, out_of_range_text, InvalidValueError};
use vstd::prelude::*;
use vstd::std_specs::cmp::PartialEqSpec;

verus! {

/// An element of the field of integers modulo `prime`.
///
/// The arithmetic operators require canonical operands of one modulus
/// (`compatible`); the modulus is not checked for primality.
#[derive(Clone, Copy, Debug)]
pub struct FieldElement {
    pub num: u128,
    pub prime: u128,
}

impl FieldElement {
    /// The element holds a canonical residue: `0 <= num < prime`.
    pub open spec fn wf(self) -> bool {
        self.num < self.prime
    }

    /// Two elements can be combined when both are canonical and share a modulus.
    pub open spec fn compatible(self, rhs: FieldElement) -> bool {
        self.wf() && rhs.wf() && self.prime == rhs.prime
    }

    /// The element of value `n mod prime`.
    pub open spec fn residue(n: int, prime: u128) -> FieldElement {
        FieldElement { num: (n % (prime as int)) as u128, prime }
    }

    /// The zero of the field modulo `prime`.
    pub open spec fn zero(prime: u128) -> FieldElement {
        FieldElement { num: 0, prime }
    }

    /// The sum `(self + rhs) mod prime`.
    pub open spec fn plus(self, rhs: FieldElement) -> FieldElement {
        Self::residue(self.num + rhs.num, self.prime)
    }

    /// The difference `(self - rhs) mod prime`, a non-negative residue.
    pub open spec fn minus(self, rhs: FieldElement) -> FieldElement {
        Self::residue(self.num - rhs.num, self.prime)
    }

    /// The additive inverse `(-self) mod prime`; zero is its own inverse.
    pub open spec fn negated(self) -> FieldElement {
        Self::residue(-self.num, self.prime)
    }
}

pub trait FieldElementOps {
    /// Builds the element `num` of the field modulo `prime`; fails exactly when
    /// `num` is not below `prime`.
    fn new(num: u128, prime: u128) -> (r: Result<FieldElement, InvalidValueError>)
        ensures
            r is Ok <==> num < prime,
            r is Ok ==> r->Ok_0 == (FieldElement { num, prime }),
            r is Err ==> r->Err_0.message@ == out_of_range_text(num, prime),
    ;
}

impl FieldElementOps for FieldElement {
    fn new(num: u128, prime: u128) -> (r: Result<FieldElement, InvalidValueError>)
        ensures
            r is Ok <==> num < prime,
            r is Ok ==> r->Ok_0 == (FieldElement { num, prime }),
            r is Err ==> r->Err_0.message@ == out_of_range_text(num, prime),
    {
        if num >= prime {
            Err(InvalidValueError { message: describe_out_of_range(num, prime) })
        } else {
            Ok(FieldElement { num, prime })
        }
    }
}

impl vstd::std_specs::ops::AddSpecImpl for FieldElement {
    open spec fn obeys_add_spec() -> bool {
        true
    }

    open spec fn add_req(self, rhs: FieldElement) -> bool {
        self.compatible(rhs)
    }

    open spec fn add_spec(self, rhs: FieldElement) -> FieldElement {
        self.plus(rhs)
    }
}

impl std::ops::Add for FieldElement {
    type Output = FieldElement;

    /// `(self + rhs) mod prime`, computed without leaving the range of `u128`.
    fn add(self, rhs: FieldElement) -> (r: FieldElement)
        ensures
            r == self.plus(rhs),
            r.wf(),
    {
        let room = self.prime - rhs.num;
        let num: u128 = if self.num >= room {
            self.num - room
        } else {
            self.num + rhs.num
        };
        proof {
            let s = self.num + rhs.num;
            let p = self.prime as int;
            if self.num >= room {
                vstd::arithmetic::div_mod::lemma_mod_self_0(p);
                vstd::arithmetic::div_mod::lemma_small_mod((s - p) as nat, p as nat);
                vstd::arithmetic::div_mod::lemma_mod_sub_multiples_vanish(s, p);
            } else {
                vstd::arithmetic::div_mod::lemma_small_mod(s as nat, p as nat);
            }
        }
        FieldElement { num, prime: self.prime }
    }
}

impl vstd::std_specs::ops::SubSpecImpl for FieldElement {
    open spec fn obeys_sub_spec() -> bool {
        true
    }

    open spec fn sub_req(self, rhs: FieldElement) -> bool {
        self.compatible(rhs)
    }

    open spec fn sub_spec(self, rhs: FieldElement) -> FieldElement {
        self.minus(rhs)
    }
}

impl std::ops::Sub for FieldElement {
    type Output = FieldElement;

    /// `(self - rhs) mod prime` as a canonical residue; a negative difference
    /// wraps around the modulus instead of going through signed arithmetic.
    fn sub(self, rhs: FieldElement) -> (r: FieldElement)
        ensures
            r == self.minus(rhs),
            r.wf(),
    {
        let num: u128 = if self.num < rhs.num {
            self.prime - ((rhs.num - self.num) % self.prime)
        } else {
            self.num - rhs.num
        };
        proof {
            let d = self.num - rhs.num;
            let p = self.prime as int;
            if self.num < rhs.num {
                vstd::arithmetic::div_mod::lemma_small_mod((-d) as nat, p as nat);
                vstd::arithmetic::div_mod::lemma_small_mod((d + p) as nat, p as nat);
                vstd::arithmetic::div_mod::lemma_mod_add_multiples_vanish(d, p);
            } else {
                vstd::arithmetic::div_mod::lemma_small_mod(d as nat, p as nat);
            }
        }
        FieldElement { num, prime: self.prime }
    }
}

impl vstd::std_specs::ops::NegSpecImpl for FieldElement {
    open spec fn obeys_neg_spec() -> bool {
        true
    }

    open spec fn neg_req(self) -> bool {
        self.wf()
    }

    open spec fn neg_spec(self) -> FieldElement {
        self.negated()
    }
}

impl std::ops::Neg for FieldElement {
    type Output = FieldElement;

    /// The additive inverse `prime - num`, reduced once more so that the
    /// inverse of zero is zero and the result stays a canonical residue.
    fn neg(self) -> (r: FieldElement)
        ensures
            r == self.negated(),
            r.wf(),
    {
        let num: u128 = if self.num == 0 {
            0
        } else {
            self.prime - (self.num % self.prime)
        };
        proof {
            let p = self.prime as int;
            vstd::arithmetic::div_mod::lemma_small_mod(self.num as nat, p as nat);
            if self.num == 0 {
                assert(-self.num == 0);
                vstd::arithmetic::div_mod::lemma_mod_self_0(p);
                vstd::arithmetic::div_mod::lemma_small_mod(0, p as nat);
            } else {
                vstd::arithmetic::div_mod::lemma_small_mod((p - self.num) as nat, p as nat);
                vstd::arithmetic::div_mod::lemma_mod_add_multiples_vanish(-self.num, p);
            }
        }
        FieldElement { num, prime: self.prime }
    }
}

impl PartialEq for FieldElement {
    fn eq(&self, other: &FieldElement) -> (r: bool)
        ensures
            r == (self.num == other.num && self.prime == other.prime),
    {
        self.num == other.num && self.prime == other.prime
    }
}

impl vstd::std_specs::cmp::PartialEqSpecImpl for FieldElement {
    open spec fn obeys_eq_spec() -> bool {
        true
    }

    open spec fn eq_spec(&self, other: &FieldElement) -> bool {
        self.num == other.num && self.prime == other.prime
    }
}

/// The field is closed under the operations: sums, differences and
/// negations of canonical elements are canonical and keep the modulus.
pub proof fn lemma_results_canonical(a: FieldElement, b: FieldElement)
    requires
        a.compatible(b),
    ensures
        a.plus(b).wf() && a.plus(b).prime == a.prime,
        a.minus(b).wf() && a.minus(b).prime == a.prime,
        a.negated().wf() && a.negated().prime == a.prime,
{
    let p = a.prime as int;
    vstd::arithmetic::div_mod::lemma_mod_bound(a.num + b.num, p);
    vstd::arithmetic::div_mod::lemma_mod_bound(a.num - b.num, p);
    vstd::arithmetic::div_mod::lemma_mod_bound(-a.num, p);
}

/// Addition is commutative: `a + b == b + a`.
pub proof fn lemma_add_commutative(a: FieldElement, b: FieldElement)
    requires
        a.compatible(b),
    ensures
        a.plus(b) == b.plus(a),
{
}

/// Zero of the same field is neutral for addition: `a + 0 == a`.
pub proof fn lemma_add_zero(a: FieldElement)
    requires
        a.wf(),
    ensures
        FieldElement::zero(a.prime).wf(),
        a.plus(FieldElement::zero(a.prime)) == a,
{
    vstd::arithmetic::div_mod::lemma_small_mod(a.num as nat, a.prime as nat);
}

/// Every element added to its negation gives zero: `a + (-a) == 0`,
/// the inverse of zero included.
pub proof fn lemma_add_negated(a: FieldElement)
    requires
        a.wf(),
    ensures
        a.negated().wf(),
        a.plus(a.negated()) == FieldElement::zero(a.prime),
{
    let p = a.prime as int;
    let n = a.num as int;
    vstd::arithmetic::div_mod::lemma_mod_bound(-n, p);
    vstd::arithmetic::div_mod::lemma_add_mod_noop(n, -n, p);
    vstd::arithmetic::div_mod::lemma_small_mod(n as nat, p as nat);
    vstd::arithmetic::div_mod::lemma_mod_self_0(p);
    assert(n + (-n) == 0);
    vstd::arithmetic::div_mod::lemma_small_mod(0, p as nat);
}

/// Subtracting and then adding back the same element is the identity:
/// `(a - b) + b == a`.
pub proof fn lemma_sub_then_add(a: FieldElement, b: FieldElement)
    requires
        a.compatible(b),
    ensures
        a.minus(b).wf(),
        a.minus(b).plus(b) == a,
{
    let p = a.prime as int;
    let d = a.num - b.num;
    vstd::arithmetic::div_mod::lemma_mod_bound(d, p);
    vstd::arithmetic::div_mod::lemma_add_mod_noop(d, b.num as int, p);
    vstd::arithmetic::div_mod::lemma_small_mod(b.num as nat, p as nat);
    vstd::arithmetic::div_mod::lemma_small_mod(a.num as nat, p as nat);
    assert(d + b.num == a.num);
}

/// Equality compares value and modulus: it is reflexive and symmetric, and
/// elements of different moduli are never equal, whatever their values.
pub proof fn lemma_eq_laws(a: FieldElement, b: FieldElement)
    ensures
        a.eq_spec(&a),
        a.eq_spec(&b) == b.eq_spec(&a),
        a.prime != b.prime ==> !a.eq_spec(&b),
        a.eq_spec(&b) <==> a == b,
{
}

} // verus!
