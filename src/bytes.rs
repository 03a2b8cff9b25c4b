use vstd::prelude::*;

verus! {

/// The unsigned integer whose little-endian encoding is `s`.
pub open spec fn le_value(s: Seq<u8>) -> nat
    decreases s.len(),
{
    if s.len() == 0 {
        0
    } else {
        s[0] as nat + 256 * le_value(s.drop_first())
    }
}

pub open spec fn pow256(n: nat) -> nat
    decreases n,
{
    if n == 0 {
        1
    } else {
        256 * pow256((n - 1) as nat)
    }
}

proof fn lemma_pow256_mono(a: nat, b: nat)
    requires
        a <= b,
    ensures
        pow256(a) <= pow256(b),
    decreases b,
{
    if a < b {
        lemma_pow256_mono(a, (b - 1) as nat);
    }
}

proof fn lemma_pow256_16()
    ensures
        pow256(16) == u128::MAX + 1,
{
    reveal_with_fuel(pow256, 17);
}

proof fn lemma_pow256_8()
    ensures
        pow256(8) == u64::MAX + 1,
{
    reveal_with_fuel(pow256, 9);
}

proof fn lemma_pow256_4()
    ensures
        pow256(4) == u32::MAX + 1,
{
    reveal_with_fuel(pow256, 5);
}

/// Reads the `width`-byte little-endian integer at `start`.
fn read_le(bytes: &Vec<u8>, start: usize, width: usize) -> (r: u128)
    requires
        width <= 16,
        start + width <= bytes@.len(),
    ensures
        r == le_value(bytes@.subrange(start as int, start + width)),
        r < pow256(width as nat),
{
    let mut acc: u128 = 0;
    let mut i: usize = width;
    let len = bytes.len();
    let end = start + width;
    proof {
        assert(bytes@.subrange(end as int, end as int).len() == 0);
    }
    while i > 0
        invariant
            i <= width <= 16,
            end == start + width <= bytes@.len(),
            acc == le_value(bytes@.subrange(start + i, end as int)),
            acc < pow256((width - i) as nat),
        decreases i,
    {
        let b = bytes[start + i - 1];
        proof {
            let s = bytes@.subrange(start + i - 1, end as int);
            assert(s.drop_first() =~= bytes@.subrange(start + i, end as int));
            lemma_pow256_mono((width - i + 1) as nat, 16);
            lemma_pow256_16();
            assert(pow256((width - i + 1) as nat) == 256 * pow256((width - i) as nat));
            assert(acc * 256 + b < 256 * pow256((width - i) as nat)) by (nonlinear_arith)
                requires
                    acc < pow256((width - i) as nat),
                    b < 256,
            ;
        }
        acc = acc * 256 + b as u128;
        i = i - 1;
    }
    acc
}

/// Reads the 16-byte little-endian `u128` at `start`.
pub fn read_le_u128(bytes: &Vec<u8>, start: usize) -> (r: u128)
    requires
        start + 16 <= bytes@.len(),
    ensures
        r == le_value(bytes@.subrange(start as int, start + 16)),
{
    read_le(bytes, start, 16)
}

/// Reads the 8-byte little-endian `u64` at `start`.
pub fn read_le_u64(bytes: &Vec<u8>, start: usize) -> (r: u64)
    requires
        start + 8 <= bytes@.len(),
    ensures
        r == le_value(bytes@.subrange(start as int, start + 8)),
{
    proof {
        lemma_pow256_8();
    }
    read_le(bytes, start, 8) as u64
}

/// Reads the 4-byte little-endian `u32` at `start`.
pub fn read_le_u32(bytes: &Vec<u8>, start: usize) -> (r: u32)
    requires
        start + 4 <= bytes@.len(),
    ensures
        r == le_value(bytes@.subrange(start as int, start + 4)),
{
    proof {
        lemma_pow256_4();
    }
    read_le(bytes, start, 4) as u32
}

/// Copies the 32 bytes at `start`.
pub fn read_array32(bytes: &Vec<u8>, start: usize) -> (r: [u8; 32])
    requires
        start + 32 <= bytes@.len(),
    ensures
        r@ == bytes@.subrange(start as int, start + 32),
{
    let len = bytes.len();
    let mut r = [0u8; 32];
    let mut i: usize = 0;
    while i < 32
        invariant
            i <= 32,
            start + 32 <= bytes@.len(),
            len == bytes@.len(),
            r@.len() == 32,
            forall|j: int| 0 <= j < i ==> r@[j] == bytes@[start + j],
        decreases 32 - i,
    {
        r.set(i, bytes[start + i]);
        i = i + 1;
    }
    assert(r@ =~= bytes@.subrange(start as int, start + 32));
    r
}

} // verus!
