//! Integers on the wire: fixed-width fields in little-endian byte order,
//! the native order of every target that the overlay runs on.

use vstd::prelude::*;

verus! {

/// `256` to the power `n`: the number of values that `n` bytes can hold.
pub open spec fn pow256(n: nat) -> nat
    decreases n,
{
    if n == 0 {
        1
    } else {
        256 * pow256((n - 1) as nat)
    }
}

/// The `width` low-order bytes of `value`, least significant byte first.
pub open spec fn le_bytes(value: nat, width: nat) -> Seq<u8>
    decreases width,
{
    if width == 0 {
        Seq::empty()
    } else {
        seq![(value % 256) as u8] + le_bytes(value / 256, (width - 1) as nat)
    }
}

/// The number that `bytes` spell, least significant byte first.
pub open spec fn le_value(bytes: Seq<u8>) -> nat
    decreases bytes.len(),
{
    if bytes.len() == 0 {
        0
    } else {
        bytes[0] as nat + 256 * le_value(bytes.skip(1))
    }
}

/// A field of `width` bytes is `width` bytes long.
pub proof fn lemma_le_bytes_len(value: nat, width: nat)
    ensures
        le_bytes(value, width).len() == width,
    decreases width,
{
    if width > 0 {
        lemma_le_bytes_len(value / 256, (width - 1) as nat);
    }
}

/// What `n` bytes spell is below `256` to the `n`.
pub proof fn lemma_le_value_bound(bytes: Seq<u8>)
    ensures
        le_value(bytes) < pow256(bytes.len()),
    decreases bytes.len(),
{
    if bytes.len() > 0 {
        lemma_le_value_bound(bytes.skip(1));
    }
}

/// Reading back a field gives the value written, where the value fits
/// the field.
pub proof fn lemma_le_value_of_bytes(value: nat, width: nat)
    requires
        value < pow256(width),
    ensures
        le_value(le_bytes(value, width)) == value,
    decreases width,
{
    if width > 0 {
        let rest = le_bytes(value / 256, (width - 1) as nat);
        let all = le_bytes(value, width);
        lemma_le_value_of_bytes(value / 256, (width - 1) as nat);
        assert(all.skip(1) =~= rest);
    } else {
        assert(le_bytes(value, width).len() == 0);
    }
}

/// Writing what a field spells gives the field back.
pub proof fn lemma_le_bytes_of_value(bytes: Seq<u8>)
    ensures
        le_bytes(le_value(bytes), bytes.len()) == bytes,
    decreases bytes.len(),
{
    if bytes.len() > 0 {
        let rest = bytes.skip(1);
        lemma_le_bytes_of_value(rest);
        let v = le_value(bytes);
        assert(v % 256 == bytes[0] as nat);
        assert(v / 256 == le_value(rest));
        assert(seq![bytes[0]] + rest =~= bytes);
    } else {
        assert(le_bytes(le_value(bytes), 0) =~= bytes);
    }
}

/// Powers of `256` are positive.
pub proof fn lemma_pow256_positive(n: nat)
    ensures
        pow256(n) > 0,
    decreases n,
{
    if n > 0 {
        lemma_pow256_positive((n - 1) as nat);
    }
}

/// Powers of `256` grow with the exponent.
pub proof fn lemma_pow256_monotonic(a: nat, b: nat)
    requires
        a <= b,
    ensures
        pow256(a) <= pow256(b),
    decreases b,
{
    lemma_pow256_positive(a);
    if a < b {
        lemma_pow256_monotonic(a, (b - 1) as nat);
    }
}

/// Sixteen bytes hold what a `u128` holds.
pub proof fn lemma_pow256_sixteen()
    ensures
        pow256(1) == 0x100,
        pow256(4) == 0x1_0000_0000,
        pow256(8) == 0x1_0000_0000_0000_0000,
        pow256(16) == 0x1_0000_0000_0000_0000_0000_0000_0000_0000,
{
    reveal_with_fuel(pow256, 17);
}

/// Appends `value` to `out` as a little-endian field of `width` bytes.
/// What of `value` does not fit the field is cut off.
pub fn put_le(out: &mut Vec<u8>, value: u128, width: usize)
    requires
        width <= 16,
    ensures
        final(out)@ == old(out)@ + le_bytes(value as nat, width as nat),
{
    let ghost start = out@;
    let mut rest: u128 = value;
    let mut done: usize = 0;
    while done < width
        invariant
            done <= width <= 16,
            start + le_bytes(value as nat, width as nat) == out@ + le_bytes(
                rest as nat,
                (width - done) as nat,
            ),
        decreases width - done,
    {
        let ghost before = out@;
        let ghost tail = le_bytes((rest / 256) as nat, (width - done - 1) as nat);
        out.push((rest % 256) as u8);
        assert(before + (seq![(rest % 256) as u8] + tail) =~= out@ + tail);
        rest = rest / 256;
        done += 1;
    }
    assert(out@ + le_bytes(rest as nat, 0) =~= out@);
}

/// Reads the little-endian field of `width` bytes that starts at `at`.
pub fn get_le(bytes: &[u8], at: usize, width: usize) -> (value: u128)
    requires
        width <= 16,
        at + width <= bytes@.len(),
    ensures
        value == le_value(bytes@.subrange(at as int, at + width)),
        value < pow256(width as nat),
{
    let total = bytes.len();
    let mut value: u128 = 0;
    let mut left: usize = width;
    while left > 0
        invariant
            left <= width <= 16,
            at + width <= total == bytes@.len(),
            value == le_value(bytes@.subrange(at + left, at + width)),
            value < pow256((width - left) as nat),
        decreases left,
    {
        let ghost seen = bytes@.subrange(at + left, at + width);
        left -= 1;
        let byte = bytes[at + left];
        proof {
            let field = bytes@.subrange(at + left, at + width);
            assert(field[0] == byte);
            assert(field.skip(1) =~= seen);
            lemma_pow256_monotonic((width - left) as nat, 16);
            lemma_pow256_sixteen();
        }
        value = value * 256 + byte as u128;
    }
    value
}

/// Appends `value` to `out` as a big-endian field of `width` bytes: the
/// bytes of the little-endian field, last one first.
pub fn put_be(out: &mut Vec<u8>, value: u128, width: usize)
    requires
        width <= 16,
    ensures
        final(out)@ == old(out)@ + le_bytes(value as nat, width as nat).reverse(),
{
    let ghost start = out@;
    let mut field: Vec<u8> = Vec::new();
    put_le(&mut field, value, width);
    proof {
        lemma_le_bytes_len(value as nat, width as nat);
        assert(field@ =~= le_bytes(value as nat, width as nat));
    }
    let mut left: usize = width;
    while left > 0
        invariant
            left <= width,
            field@.len() == width,
            out@ == start + field@.subrange(left as int, width as int).reverse(),
        decreases left,
    {
        let ghost before = field@.subrange(left as int, width as int).reverse();
        left -= 1;
        out.push(field[left]);
        assert(before.push(field@[left as int]) =~= field@.subrange(
            left as int,
            width as int,
        ).reverse());
    }
    assert(field@.subrange(0, width as int) =~= field@);
}

/// Reads the big-endian field of `width` bytes that starts at `at`.
pub fn get_be(bytes: &[u8], at: usize, width: usize) -> (value: u128)
    requires
        width <= 16,
        at + width <= bytes@.len(),
    ensures
        value == le_value(bytes@.subrange(at as int, at + width).reverse()),
        value < pow256(width as nat),
{
    let total = bytes.len();
    let mut value: u128 = 0;
    let mut done: usize = 0;
    while done < width
        invariant
            done <= width <= 16,
            at + width <= total == bytes@.len(),
            value == le_value(bytes@.subrange(at as int, at + done).reverse()),
            value < pow256(done as nat),
        decreases width - done,
    {
        let ghost seen = bytes@.subrange(at as int, at + done).reverse();
        let byte = bytes[at + done];
        done += 1;
        proof {
            let field = bytes@.subrange(at as int, at + done).reverse();
            assert(field[0] == byte);
            assert(field.skip(1) =~= seen);
            lemma_pow256_monotonic(done as nat, 16);
            lemma_pow256_sixteen();
        }
        value = value * 256 + byte as u128;
    }
    value
}

} // verus!
