//! Patterns and plans of the device self tests: the contents written, the
//! order in which sectors and file offsets are visited, and the checks of
//! what comes back.

use vstd::prelude::*;
use vstd::arithmetic::div_mod::{
    lemma_fundamental_div_mod, lemma_mod_multiples_basic, lemma_mod_multiples_vanish, lemma_mul_mod_noop_left,
    lemma_mul_mod_noop_right, lemma_small_mod, lemma_add_mod_noop, lemma_mod_twice,
};
use crate::error::VirtioBlkError;

verus! {

/// The byte at position `i` of the plain test pattern.
pub open spec fn pattern_byte(i: int) -> u8 {
    (i % 256) as u8
}

/// The byte at position `i` of the correctness pattern of chunk `chunk_idx`:
/// the plain pattern shifted by the chunk index, so that chunks differ.
pub open spec fn chunk_pattern_byte(chunk_idx: int, i: int) -> u8 {
    ((chunk_idx + i) % 256) as u8
}

/// The chunk that the random tests visit at step `idx` of `num_op` steps.
pub open spec fn spec_access_pattern(num_op: int, idx: int) -> int {
    (idx * 7159) % num_op
}

/// Fills `buf` with the plain test pattern: byte `i` is `i mod 256`.
pub fn fill_buffer(buf: &mut [u8])
    ensures
        final(buf)@.len() == old(buf)@.len(),
        forall|i: int| 0 <= i < final(buf)@.len() ==> #[trigger] final(buf)@[i] == pattern_byte(i),
{
    let n = buf.len();
    let mut i: usize = 0;
    while i < n
        invariant
            n == buf@.len(),
            i <= n,
            forall|j: int| 0 <= j < i ==> #[trigger] buf@[j] == pattern_byte(j),
        decreases n - i,
    {
        buf[i] = (i % 256) as u8;
        i = i + 1;
    }
}

/// Fills `buf` with the correctness pattern of chunk `chunk_idx`: byte `i` is
/// `(chunk_idx + i) mod 256`.
pub fn fill_buffer_for_correctness(buf: &mut [u8], chunk_idx: usize)
    requires
        chunk_idx + old(buf)@.len() <= usize::MAX + 1,
    ensures
        final(buf)@.len() == old(buf)@.len(),
        forall|i: int| 0 <= i < final(buf)@.len() ==> #[trigger] final(buf)@[i] == chunk_pattern_byte(chunk_idx as int, i),
        forall|i: int| 0 <= i < final(buf)@.len() ==> #[trigger] final(buf)@[i] == ((chunk_idx + i) % 256) as u8,
{
    let n = buf.len();
    let mut i: usize = 0;
    while i < n
        invariant
            n == buf@.len(),
            i <= n,
            chunk_idx + n <= usize::MAX + 1,
            forall|j: int| 0 <= j < i ==> #[trigger] buf@[j] == chunk_pattern_byte(chunk_idx as int, j),
        decreases n - i,
    {
        buf[i] = ((chunk_idx + i) % 256) as u8;
        i = i + 1;
    }
}

/// The chunk that the random tests visit at step `idx` of `num_op` steps:
/// `idx * 7159 mod num_op`.
pub fn access_pattern(num_op: usize, idx: usize) -> (r: u64)
    requires
        num_op > 0,
        idx * 7159 <= usize::MAX,
    ensures
        r == spec_access_pattern(num_op as int, idx as int),
        r == (idx * 7159) % (num_op as int),
        r < num_op,
{
    ((idx * 7159) % num_op) as u64
}

/// `a` and `b` hold the same bytes.
pub fn buffers_equal(a: &[u8], b: &[u8]) -> (r: bool)
    ensures
        r == (a@ == b@),
{
    if a.len() != b.len() {
        return false;
    }
    let n = a.len();
    let mut i: usize = 0;
    while i < n
        invariant
            n == a@.len(),
            n == b@.len(),
            i <= n,
            forall|j: int| 0 <= j < i ==> a@[j] == b@[j],
        decreases n - i,
    {
        if a[i] != b[i] {
            assert(a@[i as int] != b@[i as int]);
            return false;
        }
        i = i + 1;
    }
    assert(a@ =~= b@);
    true
}

/// Checks chunk `chunk_idx` as read back by the correctness tests: it passes
/// exactly when it holds the correctness pattern of that chunk; otherwise the
/// test fails for device `dev_id`.
pub fn check_chunk(read: &[u8], chunk_idx: usize, dev_id: u16) -> (r: Result<(), VirtioBlkError>)
    requires
        chunk_idx + read@.len() <= usize::MAX + 1,
    ensures
        r is Ok <==> (forall|i: int| 0 <= i < read@.len() ==> #[trigger] read@[i] == chunk_pattern_byte(chunk_idx as int, i)),
        r is Ok <==> (forall|i: int| 0 <= i < read@.len() ==> #[trigger] read@[i] == ((chunk_idx + i) % 256) as u8),
        r matches Err(e) ==> e == VirtioBlkError::BlkDevError(dev_id),
{
    let mut expected: Vec<u8> = Vec::new();
    let mut k: usize = 0;
    while k < read.len()
        invariant
            k <= read@.len(),
            expected@.len() == k,
        decreases read@.len() - k,
    {
        expected.push(0);
        k = k + 1;
    }
    fill_buffer_for_correctness(expected.as_mut_slice(), chunk_idx);
    if buffers_equal(expected.as_slice(), read) {
        Ok(())
    } else {
        proof {
            assert(!(expected@ =~= read@));
        }
        Err(VirtioBlkError::BlkDevError(dev_id))
    }
}

/// `buf` starts with the bytes of `tag`.
pub fn has_prefix(buf: &[u8], tag: &[u8]) -> (r: bool)
    ensures
        r == (tag@.len() <= buf@.len() && buf@.subrange(0, tag@.len() as int) == tag@),
{
    if tag.len() > buf.len() {
        return false;
    }
    let n = tag.len();
    let mut i: usize = 0;
    while i < n
        invariant
            n == tag@.len(),
            n <= buf@.len(),
            i <= n,
            forall|j: int| 0 <= j < i ==> buf@[j] == tag@[j],
        decreases n - i,
    {
        if buf[i] != tag[i] {
            assert(buf@.subrange(0, n as int)[i as int] != tag@[i as int]);
            return false;
        }
        i = i + 1;
    }
    assert(buf@.subrange(0, n as int) =~= tag@);
    true
}

/// A sector-sized buffer that starts with `tag` and is zero elsewhere.
pub fn tagged_sector(tag: &[u8]) -> (r: Vec<u8>)
    requires
        tag@.len() <= 512,
    ensures
        r@.len() == 512,
        r@.subrange(0, tag@.len() as int) == tag@,
        forall|i: int| tag@.len() <= i < 512 ==> #[trigger] r@[i] == 0,
{
    let mut out: Vec<u8> = Vec::new();
    let mut i: usize = 0;
    while i < 512
        invariant
            tag@.len() <= 512,
            i <= 512,
            out@.len() == i,
            forall|j: int| 0 <= j < i && j < tag@.len() ==> #[trigger] out@[j] == tag@[j],
            forall|j: int| tag@.len() <= j < i ==> #[trigger] out@[j] == 0,
        decreases 512 - i,
    {
        if i < tag.len() {
            out.push(tag[i]);
        } else {
            out.push(0);
        }
        i = i + 1;
    }
    assert(out@.subrange(0, tag@.len() as int) =~= tag@);
    out
}

/// The parameters of a self test: how many bytes it moves in all, in chunks
/// of how many bytes, on sectors of how many bytes, from which sector on.
#[derive(Debug, Clone, Copy, PartialEq, Eq, Structural)]
pub struct BenchConfig {
    pub total_size: usize,
    pub chunk_size: usize,
    pub sector_size: usize,
    pub start_sector: u64,
}

impl BenchConfig {
    /// Chunks and sectors are not empty, a chunk is made of whole sectors and
    /// the test moves whole chunks.
    pub open spec fn wf(self) -> bool {
        &&& self.chunk_size > 0
        &&& self.sector_size > 0
        &&& self.chunk_size % self.sector_size == 0
        &&& self.total_size % self.chunk_size == 0
    }

    /// The number of sectors in a chunk.
    pub fn sectors_per_chunk(&self) -> (r: u64)
        requires
            self.sector_size > 0,
        ensures
            r == self.chunk_size / self.sector_size,
    {
        (self.chunk_size / self.sector_size) as u64
    }

    /// The number of chunks the test moves.
    pub fn op_amount(&self) -> (r: usize)
        requires
            self.chunk_size > 0,
        ensures
            r == self.total_size / self.chunk_size,
    {
        self.total_size / self.chunk_size
    }
}

/// Raw correctness test: 1 MiB in chunks of 4 KiB from sector 2048 (1 MiB).
pub fn correctness_raw_config() -> (c: BenchConfig)
    ensures
        c == (BenchConfig { total_size: 0x10_0000, chunk_size: 0x1000, sector_size: 512, start_sector: 2048 }),
        c.wf(),
{
    BenchConfig { total_size: 0x10_0000, chunk_size: 0x1000, sector_size: 512, start_sector: 2048 }
}

/// Sequential raw tests: 64 MiB in chunks of 64 KiB from sector 2048.
pub fn seq_raw_config() -> (c: BenchConfig)
    ensures
        c == (BenchConfig { total_size: 0x400_0000, chunk_size: 0x1_0000, sector_size: 512, start_sector: 2048 }),
        c.wf(),
{
    BenchConfig { total_size: 0x400_0000, chunk_size: 0x1_0000, sector_size: 512, start_sector: 2048 }
}

/// Random raw tests: 64 MiB in chunks of 4 KiB from sector 2048.
pub fn rnd_raw_config() -> (c: BenchConfig)
    ensures
        c == (BenchConfig { total_size: 0x400_0000, chunk_size: 0x1000, sector_size: 512, start_sector: 2048 }),
        c.wf(),
{
    BenchConfig { total_size: 0x400_0000, chunk_size: 0x1000, sector_size: 512, start_sector: 2048 }
}

/// File-system correctness test: 1 MiB in chunks of 4 KiB.
pub fn correctness_sdmmc_config() -> (c: BenchConfig)
    ensures
        c == (BenchConfig { total_size: 0x10_0000, chunk_size: 0x1000, sector_size: 512, start_sector: 0 }),
        c.wf(),
{
    BenchConfig { total_size: 0x10_0000, chunk_size: 0x1000, sector_size: 512, start_sector: 0 }
}

/// Sequential file-system tests: 16 MiB in chunks of 512 bytes.
pub fn seq_sdmmc_config() -> (c: BenchConfig)
    ensures
        c == (BenchConfig { total_size: 0x100_0000, chunk_size: 512, sector_size: 512, start_sector: 0 }),
        c.wf(),
{
    BenchConfig { total_size: 0x100_0000, chunk_size: 512, sector_size: 512, start_sector: 0 }
}

/// Random file-system tests: 64 MiB in chunks of 4 KiB.
pub fn rnd_sdmmc_config() -> (c: BenchConfig)
    ensures
        c == (BenchConfig { total_size: 0x400_0000, chunk_size: 0x1000, sector_size: 512, start_sector: 0 }),
        c.wf(),
{
    BenchConfig { total_size: 0x400_0000, chunk_size: 0x1000, sector_size: 512, start_sector: 0 }
}

/// The sectors that a sequential test moving `total_size` bytes in chunks of
/// `chunk_size` bytes visits, chunk after chunk: the `k`-th chunk goes to
/// sector `start_sector + k * sectors_per_chunk`, and chunks are taken while
/// fewer than `total_size` bytes are moved.
pub fn sequential_sectors(total_size: usize, chunk_size: usize, start_sector: u64, sectors_per_chunk: u64) -> (r: Vec<u64>)
    requires
        chunk_size > 0,
        total_size + chunk_size <= usize::MAX + 1,
        start_sector + sectors_per_chunk * ((total_size + chunk_size - 1) / (chunk_size as int)) <= u64::MAX,
    ensures
        r@.len() * chunk_size >= total_size,
        r@.len() > 0 ==> (r@.len() - 1) * chunk_size < total_size,
        forall|k: int| 0 <= k < r@.len() ==> #[trigger] r@[k] == start_sector + k * sectors_per_chunk,
{
    let ghost n: int = (total_size + chunk_size - 1) / (chunk_size as int);
    let mut out: Vec<u64> = Vec::new();
    let mut written: usize = 0;
    let mut sector: u64 = start_sector;
    assert(out@.len() * chunk_size == 0 && out@.len() * sectors_per_chunk == 0) by (nonlinear_arith)
        requires
            out@.len() == 0,
    ;
    while written < total_size
        invariant
            chunk_size > 0,
            total_size + chunk_size <= usize::MAX + 1,
            n == (total_size + chunk_size - 1) / (chunk_size as int),
            start_sector + sectors_per_chunk * n <= u64::MAX,
            written == out@.len() * chunk_size,
            sector == start_sector + out@.len() * sectors_per_chunk,
            out@.len() > 0 ==> (out@.len() - 1) * chunk_size < total_size,
            forall|k: int| 0 <= k < out@.len() ==> #[trigger] out@[k] == start_sector + k * sectors_per_chunk,
        decreases total_size + chunk_size - written,
    {
        let ghost k: int = out@.len() as int;
        assert((k + 1) * chunk_size <= total_size + chunk_size - 1) by (nonlinear_arith)
            requires
                k * chunk_size == written,
                written < total_size,
        ;
        assert(k + 1 <= n) by (nonlinear_arith)
            requires
                (k + 1) * chunk_size <= total_size + chunk_size - 1,
                chunk_size > 0,
                n == (total_size + chunk_size - 1) / (chunk_size as int),
        ;
        assert(sectors_per_chunk * (k + 1) <= sectors_per_chunk * n) by (nonlinear_arith)
            requires
                k + 1 <= n,
        ;
        out.push(sector);
        assert(written + chunk_size == (k + 1) * chunk_size) by (nonlinear_arith)
            requires
                written == k * chunk_size,
        ;
        written = written + chunk_size;
        assert(start_sector + (k + 1) * sectors_per_chunk == sector + sectors_per_chunk) by (nonlinear_arith)
            requires
                sector == start_sector + k * sectors_per_chunk,
        ;
        sector = sector + sectors_per_chunk;
    }
    out
}

/// The sectors that a random test visits: at step `i` of `op_amount` steps,
/// the chunk `access_pattern(op_amount, i)`, which lies at
/// `start_sector + chunk * sectors_per_chunk`.
pub fn random_sectors(op_amount: usize, start_sector: u64, sectors_per_chunk: u64) -> (r: Vec<u64>)
    requires
        op_amount > 0,
        (op_amount - 1) * 7159 <= usize::MAX,
        start_sector + (op_amount - 1) * sectors_per_chunk <= u64::MAX,
    ensures
        r@.len() == op_amount,
        forall|i: int| 0 <= i < op_amount ==> #[trigger] r@[i] == start_sector
            + spec_access_pattern(op_amount as int, i) * sectors_per_chunk,
{
    let mut out: Vec<u64> = Vec::new();
    let mut i: usize = 0;
    while i < op_amount
        invariant
            op_amount > 0,
            (op_amount - 1) * 7159 <= usize::MAX,
            start_sector + (op_amount - 1) * sectors_per_chunk <= u64::MAX,
            i <= op_amount,
            out@.len() == i,
            forall|j: int| 0 <= j < i ==> #[trigger] out@[j] == start_sector
                + spec_access_pattern(op_amount as int, j) * sectors_per_chunk,
        decreases op_amount - i,
    {
        assert(i * 7159 <= (op_amount - 1) * 7159) by (nonlinear_arith)
            requires
                i < op_amount,
        ;
        let chunk_idx = access_pattern(op_amount, i);
        assert(chunk_idx * sectors_per_chunk <= (op_amount - 1) * sectors_per_chunk) by (nonlinear_arith)
            requires
                chunk_idx < op_amount,
        ;
        out.push(start_sector + chunk_idx * sectors_per_chunk);
        i = i + 1;
    }
    out
}

/// The file offsets that a random file-system test visits: at step `i` of
/// `op_amount` steps, the byte offset of chunk `access_pattern(op_amount, i)`,
/// kept to its low 32 bits.
pub fn random_offsets(op_amount: usize, chunk_size: usize) -> (r: Vec<u32>)
    requires
        op_amount > 0,
        (op_amount - 1) * 7159 <= usize::MAX,
        (op_amount - 1) * chunk_size <= usize::MAX,
    ensures
        r@.len() == op_amount,
        forall|i: int| 0 <= i < op_amount ==> #[trigger] r@[i] == (spec_access_pattern(op_amount as int, i)
            * chunk_size) % 0x1_0000_0000,
{
    let mut out: Vec<u32> = Vec::new();
    let mut i: usize = 0;
    while i < op_amount
        invariant
            op_amount > 0,
            (op_amount - 1) * 7159 <= usize::MAX,
            (op_amount - 1) * chunk_size <= usize::MAX,
            i <= op_amount,
            out@.len() == i,
            forall|j: int| 0 <= j < i ==> #[trigger] out@[j] == (spec_access_pattern(op_amount as int, j)
                * chunk_size) % 0x1_0000_0000,
        decreases op_amount - i,
    {
        assert(i * 7159 <= (op_amount - 1) * 7159) by (nonlinear_arith)
            requires
                i < op_amount,
        ;
        let chunk_idx = access_pattern(op_amount, i);
        let chunk = chunk_idx as usize;
        assert(chunk * chunk_size <= (op_amount - 1) * chunk_size) by (nonlinear_arith)
            requires
                chunk < op_amount,
        ;
        let byte_offset: usize = chunk * chunk_size;
        let wide = byte_offset as u64;
        let offset = wide as u32;
        assert(offset == wide % 0x1_0000_0000) by (bit_vector)
            requires
                offset == wide as u32,
        ;
        out.push(offset);
        i = i + 1;
    }
    out
}

/// Chunk `c` is visited at one of the `num_op` steps of the random access
/// pattern.
pub open spec fn chunk_visited(num_op: int, c: int) -> bool {
    exists|i: int| 0 <= i < num_op && #[trigger] spec_access_pattern(num_op, i) == c
}

/// The greatest common divisor of `a` and `b`, by Euclid's algorithm.
pub open spec fn gcd(a: nat, b: nat) -> nat
    decreases b,
{
    if b == 0 {
        a
    } else {
        gcd(b, a % b)
    }
}

/// Bezout's identity: `gcd(a, b)` is an integer combination of `a` and `b`.
proof fn lemma_bezout(a: nat, b: nat) -> (r: (int, int))
    ensures
        a * r.0 + b * r.1 == gcd(a, b),
    decreases b,
{
    if b == 0 {
        (1, 0)
    } else {
        let (x, y) = lemma_bezout(b, a % b);
        let q = a / b;
        let r = a % b;
        lemma_fundamental_div_mod(a as int, b as int);
        assert(a * y + b * (x - q * y) == b * x + r * y) by (nonlinear_arith)
            requires
                a == b * q + r,
        ;
        (y, x - q * y)
    }
}

/// `gcd(a, b)` divides `a` and `b`: the quotients are returned.
proof fn lemma_gcd_divides(a: nat, b: nat) -> (r: (int, int))
    ensures
        gcd(a, b) * r.0 == a,
        gcd(a, b) * r.1 == b,
    decreases b,
{
    if b == 0 {
        (1, 0)
    } else {
        let (kb, kr) = lemma_gcd_divides(b, a % b);
        let g = gcd(b, a % b);
        let q = a / b;
        let r = a % b;
        lemma_fundamental_div_mod(a as int, b as int);
        assert(g * (kb * q + kr) == a) by (nonlinear_arith)
            requires
                a == b * q + r,
                g * kb == b,
                g * kr == r,
        ;
        (kb * q + kr, kb)
    }
}

/// 7159 is prime: its only positive divisors are 1 and 7159.
proof fn lemma_7159_is_prime(g: int, k: int)
    requires
        g >= 1,
        g * k == 7159,
    ensures
        g == 1 || g == 7159,
{
    assert(k >= 1) by (nonlinear_arith)
        requires
            g >= 1,
            g * k == 7159,
    ;
    assert(g <= 7159) by (nonlinear_arith)
        requires
            k >= 1,
            g >= 1,
            g * k == 7159,
    ;
    if 2 <= g < 7159 {
        lemma_mod_multiples_basic(k, g);
        assert(k * g == 7159) by (nonlinear_arith)
            requires
                g * k == 7159,
        ;
        let h = g as u32;
        assert(forall|d: u32| 2 <= d && d < 7159 ==> #[trigger] (7159u32 % d) != 0) by (bit_vector);
        assert(7159u32 % h != 0);
        assert(false);
    }
}

/// Where `n` is not a multiple of 7159, 7159 has an inverse modulo `n`.
proof fn lemma_inverse_of_7159(n: nat) -> (y: int)
    requires
        n > 0,
        n % 7159 != 0,
    ensures
        (7159 * y) % (n as int) == 1int % (n as int),
{
    let (x, y) = lemma_bezout(n, 7159);
    let (kn, kp) = lemma_gcd_divides(n, 7159);
    let g = gcd(n, 7159);
    assert(g >= 1) by {
        if g == 0 {
            assert(g * kp == 0) by (nonlinear_arith)
                requires
                    g == 0,
            ;
        }
    }
    lemma_7159_is_prime(g as int, kp);
    if g == 7159 {
        lemma_mod_multiples_basic(kn, 7159);
        assert(kn * 7159 == n) by (nonlinear_arith)
            requires
                7159 * kn == n,
        ;
        assert(false);
    }
    assert(n * x + 7159 * y == 1);
    lemma_mod_multiples_vanish(-x, 1, n as int);
    assert((n as int) * (-x) + 1 == 7159 * y) by (nonlinear_arith)
        requires
            n * x + 7159 * y == 1,
    ;
    y
}

/// Modulo `n`, multiplying `a` by 7159 and then by its inverse `y` gives `a`
/// back.
proof fn lemma_undo_7159(a: int, y: int, n: int)
    requires
        n > 0,
        (7159 * y) % n == 1int % n,
    ensures
        ((a * 7159) % n * y) % n == a % n,
{
    lemma_mul_mod_noop_left(a * 7159, y, n);
    assert((a * 7159) * y == a * (7159 * y)) by (nonlinear_arith);
    lemma_mul_mod_noop_right(a, 7159 * y, n);
    lemma_mul_mod_noop_right(a, 1, n);
}

/// Wherever the number of steps `num_op` is not a multiple of the prime
/// 7159, the random access pattern visits every chunk below `num_op`
/// exactly once in `num_op` steps: distinct steps visit distinct chunks, and
/// every chunk is visited at some step. The random tests take 16384 steps
/// (64 MiB in chunks of 4 KiB), which is no multiple of 7159.
pub proof fn lemma_access_pattern_visits_each_chunk_once(num_op: int)
    requires
        num_op > 0,
        num_op % 7159 != 0,
    ensures
        forall|i: int, j: int|
            0 <= i < num_op && 0 <= j < num_op && i != j ==> spec_access_pattern(num_op, i)
                != spec_access_pattern(num_op, j),
        forall|i: int| 0 <= i < num_op ==> 0 <= #[trigger] spec_access_pattern(num_op, i) < num_op,
        forall|c: int| 0 <= c < num_op ==> #[trigger] chunk_visited(num_op, c),
{
    let y = lemma_inverse_of_7159(num_op as nat);
    assert forall|i: int, j: int|
        0 <= i < num_op && 0 <= j < num_op && i != j implies spec_access_pattern(num_op, i)
            != spec_access_pattern(num_op, j) by {
        if spec_access_pattern(num_op, i) == spec_access_pattern(num_op, j) {
            lemma_undo_7159(i, y, num_op);
            lemma_undo_7159(j, y, num_op);
            lemma_small_mod(i as nat, num_op as nat);
            lemma_small_mod(j as nat, num_op as nat);
        }
    }
    assert forall|c: int| 0 <= c < num_op implies #[trigger] chunk_visited(num_op, c) by {
        let i = (c * y) % num_op;
        lemma_mul_mod_noop_left(c * y, 7159, num_op);
        assert((c * y) * 7159 == c * (7159 * y)) by (nonlinear_arith);
        lemma_mul_mod_noop_right(c, 7159 * y, num_op);
        lemma_mul_mod_noop_right(c, 1, num_op);
        lemma_small_mod(c as nat, num_op as nat);
        assert(spec_access_pattern(num_op, i) == c);
    }
}

/// Two chunks whose indices differ modulo 256 get different correctness
/// patterns at every byte position, so the correctness tests notice any
/// sector of a chunk that comes back from the place of another chunk up to
/// 255 chunks away.
pub proof fn lemma_chunk_patterns_differ(k1: int, k2: int, i: int)
    requires
        k1 >= 0,
        k2 >= 0,
        i >= 0,
        k1 % 256 != k2 % 256,
    ensures
        chunk_pattern_byte(k1, i) != chunk_pattern_byte(k2, i),
{
    assert((k1 + i) % 256 != (k2 + i) % 256) by (nonlinear_arith)
        requires
            k1 >= 0,
            k2 >= 0,
            i >= 0,
            k1 % 256 != k2 % 256,
    ;
}

/// The correctness pattern of chunk `k` starts at `k mod 256` and counts up by
/// one (mod 256) from byte to byte.
pub proof fn lemma_chunk_pattern_counts_up(k: int, i: int)
    requires
        k >= 0,
        i >= 0,
    ensures
        chunk_pattern_byte(k, 0) == k % 256,
        chunk_pattern_byte(k, i + 1) as int == (chunk_pattern_byte(k, i) + 1) % 256,
{
    assert((k + i + 1) % 256 == ((k + i) % 256 + 1) % 256) by (nonlinear_arith)
        requires
            k >= 0,
            i >= 0,
    ;
}

/// The random access pattern starts at chunk 0 and steps 7159 chunks
/// (mod `num_op`) from one step to the next.
pub proof fn lemma_access_pattern_steps(num_op: int, idx: int)
    requires
        num_op > 0,
        idx >= 0,
    ensures
        spec_access_pattern(num_op, 0) == 0,
        spec_access_pattern(num_op, idx + 1) == (spec_access_pattern(num_op, idx) + 7159) % num_op,
{
    assert(0int * 7159 == 0);
    lemma_small_mod(0, num_op as nat);
    assert((idx + 1) * 7159 == idx * 7159 + 7159) by (nonlinear_arith);
    lemma_add_mod_noop(idx * 7159, 7159, num_op);
    lemma_add_mod_noop((idx * 7159) % num_op, 7159, num_op);
    lemma_mod_twice(idx * 7159, num_op);
}

} // verus!
