//! A residue together with the modulus of the field it lives in.

use vstd::prelude::*;
use vstd::string::StringExecFns;
use crate::decimal::{decimal, to_decimal};
use crate::error::FiniteFieldError;

verus! {

/// An element of the integers modulo `prime`.
///
/// Every value of this type satisfies `num < prime`; the fields are private
/// and no operation changes a value once it is built.
#[derive(Debug, PartialEq, Eq, Structural)]
pub struct FieldElement {
    num: u32,
    prime: u32,
}

impl FieldElement {
    /// The residue, as a mathematical value.
    pub closed spec fn spec_num(&self) -> u32 {
        self.num
    }

    /// The modulus, as a mathematical value.
    pub closed spec fn spec_prime(&self) -> u32 {
        self.prime
    }

    /// The residue lies below the modulus.
    #[verifier::type_invariant]
    pub open spec fn wf(&self) -> bool {
        self.spec_num() < self.spec_prime()
    }

    /// The text that `to_string` produces.
    pub open spec fn display_spec(&self) -> Seq<char> {
        "FieldElement_"@ + decimal(self.spec_num() as nat) + "("@ + decimal(
            self.spec_prime() as nat,
        ) + ")"@
    }

    /// Builds the element `num` of the field of order `prime`, or reports
    /// that `num` is not below `prime`. Nothing is asked of `prime` itself.
    pub fn new(num: u32, prime: u32) -> (r: Result<FieldElement, FiniteFieldError>)
        ensures
            num < prime ==> (r matches Ok(e) && e.spec_num() == num && e.spec_prime() == prime
                && e.wf()),
            num >= prime ==> r == Err::<FieldElement, FiniteFieldError>(
                FiniteFieldError::NotInFiniteField(num),
            ),
    {
        if num >= prime {
            Err(FiniteFieldError::NotInFiniteField(num))
        } else {
            Ok(FieldElement { num, prime })
        }
    }

    /// The residue.
    #[verifier::when_used_as_spec(spec_num)]
    pub fn num(&self) -> (n: u32)
        ensures
            n == self.spec_num(),
            n < self.spec_prime(),
    {
        proof {
            use_type_invariant(self);
        }
        self.num
    }

    /// The modulus of the field.
    #[verifier::when_used_as_spec(spec_prime)]
    pub fn prime(&self) -> (p: u32)
        ensures
            p == self.spec_prime(),
            p > self.spec_num(),
    {
        proof {
            use_type_invariant(self);
        }
        self.prime
    }

    /// Renders the element as `FieldElement_<num>(<prime>)`, both numbers in
    /// decimal.
    pub fn to_string(&self) -> (s: String)
        ensures
            s@ == self.display_spec(),
    {
        let mut s = String::from_str("FieldElement_");
        let num = to_decimal(self.num);
        s.append(num.as_str());
        s.append("(");
        let prime = to_decimal(self.prime);
        s.append(prime.as_str());
        s.append(")");
        s
    }
}

impl FieldElement {
    /// The sum of two elements of one field, as a mathematical value.
    pub closed spec fn spec_sum(self, rhs: FieldElement) -> FieldElement {
        FieldElement {
            num: ((self.num + rhs.num) % (self.prime as int)) as u32,
            prime: self.prime,
        }
    }

    /// Adds two elements if they belong to the same field, and refuses
    /// otherwise.
    pub fn checked_add(self, rhs: FieldElement) -> (r: Option<FieldElement>)
        ensures
            self.spec_prime() != rhs.spec_prime() ==> r is None,
            self.spec_prime() == rhs.spec_prime() ==> ({
                &&& r matches Some(e)
                &&& e.spec_num() == (self.spec_num() + rhs.spec_num()) % (self.spec_prime() as int)
                &&& e.spec_prime() == self.spec_prime()
                &&& e.wf()
            }),
    {
        if self.prime == rhs.prime {
            Some(self + rhs)
        } else {
            None
        }
    }
}

/// Two elements are equal exactly when their residues and their moduli
/// agree; an equal residue in another field is another element.
pub proof fn lemma_equal_iff_same_residue_and_field(a: FieldElement, b: FieldElement)
    ensures
        a == b <==> (a.spec_num() == b.spec_num() && a.spec_prime() == b.spec_prime()),
{
}

/// The sum of two elements of one field is the element of that field whose
/// residue is the sum of theirs reduced modulo the field's order.
pub proof fn lemma_sum_is_reduced_sum(a: FieldElement, b: FieldElement)
    requires
        a.wf(),
        b.wf(),
        a.spec_prime() == b.spec_prime(),
    ensures
        a.spec_sum(b).spec_num() == (a.spec_num() + b.spec_num()) % (a.spec_prime() as int),
        a.spec_sum(b).spec_prime() == a.spec_prime(),
        a.spec_sum(b).wf(),
{
}

impl vstd::std_specs::ops::AddSpecImpl for FieldElement {
    open spec fn obeys_add_spec() -> bool {
        true
    }

    open spec fn add_req(self, rhs: FieldElement) -> bool {
        self.spec_prime() == rhs.spec_prime()
    }

    open spec fn add_spec(self, rhs: FieldElement) -> FieldElement {
        self.spec_sum(rhs)
    }
}

impl core::ops::Add for FieldElement {
    type Output = FieldElement;

    /// Adds two elements of the same field: the residues are summed and
    /// reduced modulo the shared order, without overflow for any operands.
    fn add(self, rhs: FieldElement) -> (r: FieldElement)
        ensures
            r.spec_num() == (self.spec_num() + rhs.spec_num()) % (self.spec_prime() as int),
            r.spec_prime() == self.spec_prime(),
            r.wf(),
    {
        proof {
            use_type_invariant(&self);
            use_type_invariant(&rhs);
        }
        let wide: u64 = (self.num as u64 + rhs.num as u64) % (self.prime as u64);
        FieldElement { num: wide as u32, prime: self.prime }
    }
}

} // verus!
