use vstd::prelude::*;

verus! {

/// An opaque principal: a donor, a recipient, a token, or a contract itself.
#[derive(Clone, Copy, Debug, PartialEq, Eq, Structural)]
pub struct Address {
    pub id: u64,
}

impl Address {
    pub fn new(id: u64) -> (r: Address)
        ensures
            r.id == id,
    {
        Address { id }
    }
}

/// Whether the invocation carries the authorization of `who`.
pub open spec fn authorized(auths: Seq<Address>, who: Address) -> bool {
    auths.contains(who)
}

/// Whether `who` is among `auths`.
pub fn is_authorized(auths: &Vec<Address>, who: Address) -> (r: bool)
    ensures
        r == authorized(auths@, who),
{
    let mut i: usize = 0;
    while i < auths.len()
        invariant
            i <= auths@.len(),
            forall|j: int| 0 <= j < i ==> auths@[j] != who,
        decreases auths@.len() - i,
    {
        if auths[i] == who {
            return true;
        }
        i = i + 1;
    }
    false
}

} // verus!
