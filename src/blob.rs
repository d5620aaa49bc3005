//! The secret as the store keeps it: a blob of bytes holding UTF-16 units,
//! low byte first, with no terminator, so that its length is exact.
use vstd::prelude::*;

verus! {

/// The bytes of a sequence of UTF-16 units, low byte first.
pub open spec fn blob_of(u: Seq<u16>) -> Seq<u8> {
    Seq::new(
        2 * u.len(),
        |k: int|
            if k % 2 == 0 {
                (u[k / 2] % 256) as u8
            } else {
                (u[k / 2] / 256) as u8
            },
    )
}

/// The UTF-16 units that a blob holds; an odd last byte belongs to no unit.
pub open spec fn units_of_blob(b: Seq<u8>) -> Seq<u16> {
    Seq::new(b.len() / 2, |i: int| (b[2 * i] + 256 * b[2 * i + 1]) as u16)
}

/// Reading units back from their blob gives the same units.
pub proof fn lemma_units_of_blob_of(u: Seq<u16>)
    ensures
        units_of_blob(blob_of(u)) == u,
{
    let b = blob_of(u);
    assert forall|i: int| 0 <= i < u.len() implies #[trigger] units_of_blob(b)[i] == u[i] by {
        assert((2 * i) % 2 == 0);
        assert((2 * i + 1) % 2 == 1);
        assert((2 * i) / 2 == i);
        assert((2 * i + 1) / 2 == i);
    }
    assert(units_of_blob(b) =~= u);
}

/// The blob of the units: two bytes for each unit, low byte first.
pub fn blob_from_units(v: &Vec<u16>) -> (r: Vec<u8>)
    requires
        2 * v@.len() <= usize::MAX,
    ensures
        r@ == blob_of(v@),
{
    let mut r: Vec<u8> = Vec::with_capacity(2 * v.len());
    let mut i: usize = 0;
    while i < v.len()
        invariant
            i <= v@.len(),
            r@.len() == 2 * i,
            forall|k: int| 0 <= k < 2 * i ==> #[trigger] r@[k] == blob_of(v@)[k],
        decreases v@.len() - i,
    {
        let u = v[i];
        r.push((u % 256) as u8);
        r.push((u / 256) as u8);
        proof {
            assert((2 * i as int) % 2 == 0 && (2 * i as int) / 2 == i);
            assert((2 * i as int + 1) % 2 == 1 && (2 * i as int + 1) / 2 == i);
        }
        i = i + 1;
    }
    assert(r@ =~= blob_of(v@));
    r
}

/// The units held by a blob, read two bytes at a time, low byte first.
pub fn units_from_blob(b: &Vec<u8>) -> (r: Vec<u16>)
    ensures
        r@ == units_of_blob(b@),
{
    let len = b.len();
    let n = len / 2;
    let mut r: Vec<u16> = Vec::with_capacity(n);
    let mut i: usize = 0;
    while i < n
        invariant
            len == b@.len(),
            n == len / 2,
            i <= n,
            r@.len() == i,
            forall|k: int| 0 <= k < i ==> #[trigger] r@[k] == units_of_blob(b@)[k],
        decreases n - i,
    {
        let lo = b[2 * i] as u16;
        let hi = b[2 * i + 1] as u16;
        r.push(lo + 256 * hi);
        i = i + 1;
    }
    assert(r@ =~= units_of_blob(b@));
    r
}

} // verus!
