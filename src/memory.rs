use vstd::prelude::*;

verus! {

/// The byte at `i` of `bytes`, or the open-bus value 0xFF past its end.
pub open spec fn byte_or_open(bytes: Seq<u8>, i: int) -> u8 {
    if 0 <= i < bytes.len() {
        bytes[i]
    } else {
        0xFF
    }
}

pub fn read_or_open(bytes: &Vec<u8>, i: usize) -> (r: u8)
    ensures
        r == byte_or_open(bytes@, i as int),
{
    if i < bytes.len() {
        bytes[i]
    } else {
        0xFF
    }
}

/// `n` zero bytes.
pub fn zeroed(n: usize) -> (r: Vec<u8>)
    ensures
        r@ == Seq::new(n as nat, |i: int| 0u8),
{
    let mut v: Vec<u8> = Vec::new();
    while v.len() < n
        invariant
            v.len() <= n,
            forall|i: int| 0 <= i < v.len() ==> v@[i] == 0,
        decreases n - v.len(),
    {
        v.push(0);
    }
    assert(v@ =~= Seq::new(n as nat, |i: int| 0u8));
    v
}

} // verus!
