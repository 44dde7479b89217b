//! Little-endian words, as every multi-byte field of a file is stored.

use vstd::prelude::*;

verus! {

/// 256 to the power `n`.
pub open spec fn spec_pow256(n: nat) -> int
    decreases n,
{
    if n == 0 {
        1
    } else {
        256 * spec_pow256((n - 1) as nat)
    }
}

/// The number that the bytes of `s` spell, least significant byte first.
pub open spec fn spec_word(s: Seq<u8>) -> int
    decreases s.len(),
{
    if s.len() == 0 {
        0
    } else {
        s[0] as int + 256 * spec_word(s.drop_first())
    }
}

/// The number spelled by the `width` bytes of `s` that start at `pos`.
pub open spec fn spec_word_at(s: Seq<u8>, pos: int, width: int) -> int {
    spec_word(s.subrange(pos, pos + width))
}

/// The `width` low bytes of `value`, least significant byte first.
pub open spec fn spec_le_bytes(value: int, width: nat) -> Seq<u8>
    decreases width,
{
    if width == 0 {
        Seq::empty()
    } else {
        seq![(value % 256) as u8] + spec_le_bytes(value / 256, (width - 1) as nat)
    }
}

/// The powers of 256 that fit the widths in use.
pub proof fn pow256_values()
    ensures
        spec_pow256(0) == 1,
        spec_pow256(1) == 0x100,
        spec_pow256(2) == 0x1_0000,
        spec_pow256(3) == 0x100_0000,
        spec_pow256(4) == 0x1_0000_0000,
        spec_pow256(8) == 0x1_0000_0000_0000_0000,
{
    reveal_with_fuel(spec_pow256, 10);
}

/// A word of `n` bytes is at least zero and below 256 to the power `n`.
pub proof fn word_bounds(s: Seq<u8>)
    ensures
        0 <= spec_word(s) < spec_pow256(s.len()),
    decreases s.len(),
{
    if s.len() > 0 {
        word_bounds(s.drop_first());
    }
}

/// Writing a number that fits in `width` bytes and reading the bytes back
/// gives the number.
pub proof fn word_of_le_bytes(value: int, width: nat)
    requires
        0 <= value < spec_pow256(width),
    ensures
        spec_le_bytes(value, width).len() == width,
        spec_word(spec_le_bytes(value, width)) == value,
    decreases width,
{
    if width > 0 {
        let rest = spec_le_bytes(value / 256, (width - 1) as nat);
        word_of_le_bytes(value / 256, (width - 1) as nat);
        let all = spec_le_bytes(value, width);
        assert(all.drop_first() =~= rest);
        assert(all[0] == (value % 256) as u8);
    }
}

/// Reading a run of bytes as a number and writing that number in as many
/// bytes gives the same bytes.
pub proof fn le_bytes_of_word(s: Seq<u8>)
    ensures
        spec_le_bytes(spec_word(s), s.len()) == s,
    decreases s.len(),
{
    if s.len() > 0 {
        let rest = s.drop_first();
        le_bytes_of_word(rest);
        let v = spec_word(s);
        assert(v % 256 == s[0] as int);
        assert(v / 256 == spec_word(rest));
        assert(spec_le_bytes(v, s.len()) =~= seq![s[0]] + rest);
        assert(seq![s[0]] + rest =~= s);
    } else {
        assert(spec_le_bytes(spec_word(s), 0) =~= s);
    }
}

/// Reads the little-endian word of `width` bytes at `pos`.
pub(crate) fn read_word(bytes: &[u8], pos: usize, width: usize) -> (r: u64)
    requires
        width <= 8,
        pos + width <= bytes@.len(),
    ensures
        r == spec_word_at(bytes@, pos as int, width as int),
{
    let total: usize = bytes.len();
    let mut acc: u64 = 0;
    let mut i: usize = 0;
    proof {
        assert(bytes@.subrange(pos + width, pos + width).len() == 0);
    }
    while i < width
        invariant
            i <= width <= 8,
            total == bytes@.len(),
            pos + width <= total,
            acc == spec_word(bytes@.subrange(pos + width - i, pos + width)),
        decreases width - i,
    {
        let b: u8 = bytes[pos + (width - 1 - i)];
        proof {
            let old_run = bytes@.subrange(pos + width - i, pos + width);
            let new_run = bytes@.subrange(pos + width - i - 1, pos + width);
            assert(new_run.drop_first() =~= old_run);
            assert(new_run[0] == b);
            word_bounds(old_run);
            word_bounds(new_run);
            pow256_bound(i as nat, 7);
            pow256_bound((i + 1) as nat, 8);
            pow256_values();
        }
        acc = acc * 256 + (b as u64);
        i = i + 1;
    }
    acc
}

/// Powers of 256 grow with the exponent.
proof fn pow256_bound(n: nat, m: nat)
    requires
        n <= m,
    ensures
        0 < spec_pow256(n) <= spec_pow256(m),
    decreases m,
{
    if n < m {
        pow256_bound(n, (m - 1) as nat);
    } else {
        pow256_positive(n);
    }
}

/// Every power of 256 is positive.
proof fn pow256_positive(n: nat)
    ensures
        0 < spec_pow256(n),
    decreases n,
{
    if n > 0 {
        pow256_positive((n - 1) as nat);
    }
}

/// Writes the `width` low bytes of `value`, least significant byte first.
pub fn write_word(value: u64, width: usize) -> (out: Vec<u8>)
    ensures
        out@ == spec_le_bytes(value as int, width as nat),
    decreases width,
{
    if width == 0 {
        Vec::new()
    } else {
        let mut out = write_word(value / 256, width - 1);
        out.insert(0, (value % 256) as u8);
        proof {
            assert(out@ =~= seq![(value as int % 256) as u8] + spec_le_bytes(
                value as int / 256,
                (width - 1) as nat,
            ));
        }
        out
    }
}

} // verus!
