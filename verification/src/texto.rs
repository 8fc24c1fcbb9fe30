//! Small text helpers used to build the service's messages.

use vstd::prelude::*;

verus! {

/// `prefixo` followed by `resto`.
pub fn concatenar(prefixo: &str, resto: &str) -> (r: String)
    ensures
        r@ == prefixo@ + resto@,
{
    let mut r = String::from_str(prefixo);
    r.append(resto);
    r
}

/// Whether `a` and `b` hold the same characters.
pub fn mesmo_texto(a: &str, b: &str) -> (r: bool)
    ensures
        r == (a@ == b@),
{
    let x = String::from_str(a);
    let y = String::from_str(b);
    x.eq(&y)
}

} // verus!
