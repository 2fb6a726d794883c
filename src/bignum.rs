use vstd::prelude::*;

verus! {

// Message ids of the binary protocol are arbitrary-precision integers.
#[verifier::external_type_specification]
#[verifier::external_body]
pub struct ExBigInt(num_bigint::BigInt);

/// Relies on `<num_bigint::BigInt as Clone>::clone`, which copies the sign
/// and the digits: the copy is the same number.
pub assume_specification[ <num_bigint::BigInt as Clone>::clone ](n: &num_bigint::BigInt) -> (r:
    num_bigint::BigInt)
    ensures
        r == *n,
;

/// Relies on `<num_bigint::BigInt as Default>::default`, which is zero.
#[verifier::external_body]
pub(crate) fn zero_bigint() -> num_bigint::BigInt {
    num_bigint::BigInt::default()
}

/// Relies on the `Display` impl of `num_bigint::BigInt`: its decimal text.
#[verifier::external_body]
pub(crate) fn bigint_text(n: &num_bigint::BigInt) -> String {
    n.to_string()
}

} // verus!
