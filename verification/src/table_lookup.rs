//! Lookups in fixed tables of prime numbers: by a checked index, by an index
//! wrapped to the table's size, and through a second table of indices.

use vstd::prelude::*;

verus! {

/// The first 256 prime numbers.
pub const PRIMES_256: [u32; 256] = [
    2, 3, 5, 7, 11, 13, 17, 19, 23, 29, 31, 37, 41, 43, 47, 53, 59, 61, 67, 71, 73, 79, 83, 89, 97,
    101, 103, 107, 109, 113, 127, 131, 137, 139, 149, 151, 157, 163, 167, 173, 179, 181, 191, 193,
    197, 199, 211, 223, 227, 229, 233, 239, 241, 251, 257, 263, 269, 271, 277, 281, 283, 293, 307,
    311, 313, 317, 331, 337, 347, 349, 353, 359, 367, 373, 379, 383, 389, 397, 401, 409, 419, 421,
    431, 433, 439, 443, 449, 457, 461, 463, 467, 479, 487, 491, 499, 503, 509, 521, 523, 541, 547,
    557, 563, 569, 571, 577, 587, 593, 599, 601, 607, 613, 617, 619, 631, 641, 643, 647, 653, 659,
    661, 673, 677, 683, 691, 701, 709, 719, 727, 733, 739, 743, 751, 757, 761, 769, 773, 787, 797,
    809, 811, 821, 823, 827, 829, 839, 853, 857, 859, 863, 877, 881, 883, 887, 907, 911, 919, 929,
    937, 941, 947, 953, 967, 971, 977, 983, 991, 997, 1009, 1013, 1019, 1021, 1031, 1033, 1039,
    1049, 1051, 1061, 1063, 1069, 1087, 1091, 1093, 1097, 1103, 1109, 1117, 1123, 1129, 1151, 1153,
    1163, 1171, 1181, 1187, 1193, 1201, 1213, 1217, 1223, 1229, 1231, 1237, 1249, 1259, 1277, 1279,
    1283, 1289, 1291, 1297, 1301, 1303, 1307, 1319, 1321, 1327, 1361, 1367, 1373, 1381, 1399, 1409,
    1423, 1427, 1429, 1433, 1439, 1447, 1451, 1453, 1459, 1471, 1481, 1483, 1487, 1489, 1493, 1499,
    1511, 1523, 1531, 1543, 1549, 1553, 1559, 1567, 1571, 1579, 1583, 1597, 1601, 1607, 1609, 1613,
    1619,
];

/// The first 16 prime numbers.
pub const PRIMES_16: [u32; 16] = [2, 3, 5, 7, 11, 13, 17, 19, 23, 29, 31, 37, 41, 43, 47, 53];

/// The first 7 prime numbers.
pub const PRIMES_7: [u32; 7] = [2, 3, 5, 7, 11, 13, 17];

/// Eight indices into [`PRIMES_7`], for lookups that go through two tables.
pub const INDIRECT_LOOKUP_TABLE: [usize; 8] = [1, 3, 5, 1, 2, 6, 2, 4];

/// Keeping the low bits of an index is taking its remainder by the size of
/// a table whose size is a power of two; an index in range is its own
/// remainder.
pub proof fn lemma_mask_is_remainder(i: usize)
    ensures
        i & 7 == i % 8,
        i & 0xf == i % 16,
        i & 0xff == i % 256,
        i < 8 ==> i % 8 == i,
        i < 16 ==> i % 16 == i,
        i < 256 ==> i % 256 == i,
{
    assert(i & 7 == i % 8) by (bit_vector);
    assert(i & 0xf == i % 16) by (bit_vector);
    assert(i & 0xff == i % 256) by (bit_vector);
}

/// Each smaller table of primes is the front of the next larger one, so a
/// lookup in range gives the same prime whichever table it goes to.
pub proof fn lemma_tables_share_their_fronts()
    ensures
        forall|i: int| 0 <= i < 7 ==> #[trigger] PRIMES_7[i] == PRIMES_16[i],
        forall|i: int| 0 <= i < 16 ==> #[trigger] PRIMES_16[i] == PRIMES_256[i],
{
}

/// The entry of [`PRIMES_16`] at an index below 16.
pub fn lookup_16_naive(i: usize) -> (p: u32)
    requires
        i < 16,
    ensures
        p == PRIMES_16[i as int],
{
    PRIMES_16[i]
}

/// The entry of [`PRIMES_16`] at an index that is known to be below 16.
pub fn lookup_16_assert_bound(i: usize) -> (p: u32)
    requires
        i < 16,
    ensures
        p == PRIMES_16[i as int],
{
    PRIMES_16[i]
}

/// The entry of [`PRIMES_16`] that the low four bits of `i` select. Every
/// index is accepted; one below 16 selects its own entry.
pub fn lookup_16_masked(i: usize) -> (p: u32)
    ensures
        p == PRIMES_16[i as int % 16],
        i < 16 ==> p == PRIMES_16[i as int],
{
    proof {
        lemma_mask_is_remainder(i);
    }
    PRIMES_16[i & 0xf]
}

/// The entry of [`PRIMES_16`] that `i` modulo 16 selects. Every index is
/// accepted; one below 16 selects its own entry.
pub fn lookup_16_modulus(i: usize) -> (p: u32)
    ensures
        p == PRIMES_16[i as int % 16],
        i < 16 ==> p == PRIMES_16[i as int],
{
    PRIMES_16[i % 16]
}

/// The entry of [`PRIMES_256`] at an index below 256.
pub fn lookup_256_naive(i: usize) -> (p: u32)
    requires
        i < 256,
    ensures
        p == PRIMES_256[i as int],
{
    PRIMES_256[i]
}

/// The entry of [`PRIMES_256`] at an index whose type keeps it below 256.
pub fn lookup_256_u8(i: u8) -> (p: u32)
    ensures
        p == PRIMES_256[i as int],
{
    PRIMES_256[usize::from(i)]
}

/// The entry of [`PRIMES_256`] that the low eight bits of `i` select. Every
/// index is accepted; one below 256 selects its own entry.
pub fn lookup_256_masked(i: usize) -> (p: u32)
    ensures
        p == PRIMES_256[i as int % 256],
        i < 256 ==> p == PRIMES_256[i as int],
{
    proof {
        lemma_mask_is_remainder(i);
    }
    PRIMES_256[i & 0xff]
}

/// The entry of [`PRIMES_256`] that `i` modulo 256 selects. Every index is
/// accepted; one below 256 selects its own entry.
pub fn lookup_256_modulus(i: usize) -> (p: u32)
    ensures
        p == PRIMES_256[i as int % 256],
        i < 256 ==> p == PRIMES_256[i as int],
{
    PRIMES_256[i % 256]
}

/// The entry of [`PRIMES_7`] at an index below 7.
pub fn lookup_7_naive(i: usize) -> (p: u32)
    requires
        i < 7,
    ensures
        p == PRIMES_7[i as int],
{
    PRIMES_7[i]
}

/// The entry of [`PRIMES_7`] that `i` modulo 7 selects. Every index is
/// accepted; one below 7 selects its own entry.
pub fn lookup_7_modulus(i: usize) -> (p: u32)
    ensures
        p == PRIMES_7[i as int % 7],
        i < 7 ==> p == PRIMES_7[i as int],
{
    PRIMES_7[i % 7]
}

/// Every entry of [`INDIRECT_LOOKUP_TABLE`] is an index into [`PRIMES_7`].
pub proof fn lemma_indirect_entries_in_range()
    ensures
        forall|i: int| 0 <= i < 8 ==> 0 <= #[trigger] INDIRECT_LOOKUP_TABLE[i] < 7,
{
}

/// The entry of [`PRIMES_7`] at the index that [`INDIRECT_LOOKUP_TABLE`]
/// holds at `i`, for `i` below 8.
pub fn lookup_7_indirect_naive(i: usize) -> (p: u32)
    requires
        i < 8,
    ensures
        p == PRIMES_7[INDIRECT_LOOKUP_TABLE[i as int] as int],
{
    proof {
        lemma_indirect_entries_in_range();
    }
    let j: usize = INDIRECT_LOOKUP_TABLE[i];
    PRIMES_7[j]
}

/// The entry of [`PRIMES_7`] at the index that [`INDIRECT_LOOKUP_TABLE`]
/// holds at the low three bits of `i`. Every `i` is accepted; one below 8
/// selects its own entry of the index table.
pub fn lookup_7_indirect_mask_naive(i: usize) -> (p: u32)
    ensures
        p == PRIMES_7[INDIRECT_LOOKUP_TABLE[i as int % 8] as int],
        i < 8 ==> p == PRIMES_7[INDIRECT_LOOKUP_TABLE[i as int] as int],
{
    proof {
        lemma_mask_is_remainder(i);
        lemma_indirect_entries_in_range();
    }
    let j: usize = INDIRECT_LOOKUP_TABLE[i & 7];
    PRIMES_7[j]
}

} // verus!
