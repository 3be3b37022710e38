use vstd::prelude::*;

verus! {

/// Maximum size we are willing to save/load
pub const SAVE_SIZE: usize = 256;

/// The bytes of `value` in big-endian order, `n` of them (the low `n` bytes).
pub open spec fn be_bytes(value: nat, n: nat) -> Seq<u8>
    decreases n,
{
    if n == 0 {
        Seq::empty()
    } else {
        be_bytes(value / 256, (n - 1) as nat).push((value % 256) as u8)
    }
}

/// The number that the big-endian bytes `s` spell.
pub open spec fn be_value(s: Seq<u8>) -> nat
    decreases s.len(),
{
    if s.len() == 0 {
        0
    } else {
        be_value(s.drop_last()) * 256 + (s.last() as nat)
    }
}

/// `256` to the power `n`.
pub open spec fn byte_range(n: nat) -> nat
    decreases n,
{
    if n == 0 {
        1
    } else {
        256 * byte_range((n - 1) as nat)
    }
}

/// The byte ranges of one, two and sixteen bytes.
pub proof fn lemma_byte_ranges()
    ensures
        byte_range(1) == 0x100,
        byte_range(2) == 0x1_0000,
        byte_range(16) == 0x1_0000_0000_0000_0000_0000_0000_0000_0000,
{
    reveal_with_fuel(byte_range, 17);
}

/// Reading back the bytes of a number gives the number, when it fits.
pub proof fn lemma_be_roundtrip(value: nat, n: nat)
    requires
        value < byte_range(n),
    ensures
        be_bytes(value, n).len() == n,
        be_value(be_bytes(value, n)) == value,
    decreases n,
{
    if n > 0 {
        assert(value / 256 < byte_range((n - 1) as nat)) by (nonlinear_arith)
            requires
                value < 256 * byte_range((n - 1) as nat),
        ;
        lemma_be_roundtrip(value / 256, (n - 1) as nat);
        assert(be_bytes(value, n).drop_last() =~= be_bytes(value / 256, (n - 1) as nat));
    }
}

/// A save game buffer: values are pushed to (and pulled from) the position
/// `cursor`; `capacity` bytes are valid.
pub struct Save {
    pub buf: [u8; SAVE_SIZE],
    pub cursor: usize,
    pub capacity: usize,
}

impl Save {
    /// The valid bytes not yet pulled.
    pub open spec fn remaining(self) -> Seq<u8> {
        let valid = if self.capacity <= SAVE_SIZE {
            self.buf@.take(self.capacity as int)
        } else {
            Seq::empty()
        };
        if self.cursor <= valid.len() {
            valid.skip(self.cursor as int)
        } else {
            Seq::empty()
        }
    }

    /// The value pulled when `n` bytes are needed and `default` stands in if
    /// fewer remain.
    pub open spec fn pulled(self, n: nat, default: nat) -> nat {
        if self.remaining().len() >= n {
            be_value(self.remaining().take(n as int))
        } else {
            default
        }
    }

    /// The state after pulling `n` bytes: only the cursor moves, saturating.
    pub open spec fn advanced(self, n: nat) -> Save {
        Save {
            cursor: if self.cursor + n > usize::MAX {
                usize::MAX
            } else {
                (self.cursor + n) as usize
            },
            ..self
        }
    }

    /// The buffer after `data` was written at the cursor.
    pub open spec fn written(self, data: Seq<u8>) -> Seq<u8> {
        self.buf@.take(self.cursor as int) + data + self.buf@.skip(self.cursor + data.len())
    }

    /// The state after pushing `data`: written at the cursor, which moves
    /// past it and marks the end of the valid bytes; nothing happens when it
    /// does not fit.
    pub open spec fn pushed(self, old: Save, data: Seq<u8>) -> bool {
        if old.cursor + data.len() <= SAVE_SIZE {
            &&& self.buf@ == old.written(data)
            &&& self.cursor == old.cursor + data.len()
            &&& self.capacity == self.cursor
        } else {
            self == old
        }
    }

    pub fn new() -> (s: Self)
        ensures
            s.buf@ == Seq::new(SAVE_SIZE as nat, |i: int| 0u8),
            s.cursor == 0,
            s.capacity == 0,
    {
        let s = Self { buf: [0; SAVE_SIZE], cursor: 0, capacity: 0 };
        assert(s.buf@ =~= Seq::new(SAVE_SIZE as nat, |i: int| 0u8));
        s
    }

    /// Make the first `capacity` bytes valid and start reading from the
    /// beginning.
    pub fn reset(&mut self, capacity: usize)
        ensures
            final(self).buf == old(self).buf,
            final(self).capacity == capacity,
            final(self).cursor == 0,
    {
        self.capacity = capacity;
        self.cursor = 0;
    }

    /// The valid bytes.
    pub fn slice(&self) -> (s: &[u8])
        requires
            self.capacity <= SAVE_SIZE,
        ensures
            s@ == self.buf@.take(self.capacity as int),
    {
        vstd::slice::slice_subrange(self.buf.as_slice(), 0, self.capacity)
    }

    /// The next `amount` valid bytes, if there are that many; the cursor
    /// moves by `amount` either way.
    fn take(&mut self, amount: usize) -> (r: Option<&[u8]>)
        ensures
            *final(self) == old(self).advanced(amount as nat),
            old(self).remaining().len() >= amount ==> (r matches Some(s) && s@ == old(
                self,
            ).remaining().take(amount as int)),
            old(self).remaining().len() < amount ==> r is None,
    {
        let valid_len: usize = if self.capacity <= SAVE_SIZE {
            self.capacity
        } else {
            0
        };
        let start: usize = if self.cursor <= valid_len {
            self.cursor
        } else {
            valid_len
        };
        assert(self.remaining() =~= self.buf@.subrange(start as int, valid_len as int));
        let slice = if amount <= valid_len - start {
            assert(self.remaining().take(amount as int) =~= self.buf@.subrange(
                start as int,
                start + amount,
            ));
            Some(vstd::slice::slice_subrange(self.buf.as_slice(), start, start + amount))
        } else {
            None
        };
        self.cursor = self.cursor.saturating_add(amount);
        slice
    }

    /// Pull a big-endian `u16`, or `default` if fewer than two bytes remain.
    pub fn pull_u16(&mut self, default: u16) -> (v: u16)
        ensures
            v == old(self).pulled(2, default as nat),
            *final(self) == old(self).advanced(2),
    {
        if let Some(value) = self.take(2) {
            let hi = value[0];
            let lo = value[1];
            assert(be_value(value@) == hi * 256 + lo) by {
                assert(value@.drop_last().drop_last() =~= Seq::<u8>::empty());
                reveal_with_fuel(be_value, 3);
            }
            (hi as u16) * 256 + (lo as u16)
        } else {
            default
        }
    }

    /// Pull one byte, or `default` if none remains.
    pub fn pull_u8(&mut self, default: u8) -> (v: u8)
        ensures
            v == old(self).pulled(1, default as nat),
            *final(self) == old(self).advanced(1),
    {
        if let Some(value) = self.take(1) {
            assert(value@.drop_last() =~= Seq::<u8>::empty());
            assert(be_value(value@) == value@[0]) by {
                reveal_with_fuel(be_value, 2);
            }
            value[0]
        } else {
            default
        }
    }

    /// Pull a big-endian `u128`, or `default` if fewer than sixteen bytes
    /// remain.
    pub fn pull_u128(&mut self, default: u128) -> (v: u128)
        ensures
            v == old(self).pulled(16, default as nat),
            *final(self) == old(self).advanced(16),
    {
        if let Some(value) = self.take(16) {
            let mut acc: u128 = 0;
            let mut i: usize = 0;
            while i < 16
                invariant
                    i <= 16,
                    value@.len() == 16,
                    acc == be_value(value@.take(i as int)),
                    be_value(value@.take(i as int)) < byte_range(i as nat),
                decreases 16 - i,
            {
                let ghost prefix = value@.take(i as int);
                assert(value@.take(i + 1int).drop_last() =~= prefix);
                assert(be_value(value@.take(i + 1int)) == be_value(prefix) * 256 + value@[i as int]);
                assert(be_value(prefix) * 256 + value@[i as int] < byte_range((i + 1) as nat))
                    by (nonlinear_arith)
                    requires
                        be_value(prefix) < byte_range(i as nat),
                        value@[i as int] < 256,
                        byte_range((i + 1) as nat) == 256 * byte_range(i as nat),
                ;
                assert(byte_range(16) == 0x1_0000_0000_0000_0000_0000_0000_0000_0000) by {
                    reveal_with_fuel(byte_range, 17);
                }
                assert(byte_range((i + 1) as nat) <= byte_range(16)) by {
                    lemma_byte_range_monotonic((i + 1) as nat, 16);
                }
                acc = acc * 256 + value[i] as u128;
                i += 1;
            }
            assert(value@.take(16) =~= value@);
            acc
        } else {
            default
        }
    }

    /// Push `data` at the cursor if it fits.
    fn push(&mut self, data: &[u8])
        requires
            old(self).cursor + data@.len() <= usize::MAX,
        ensures
            final(self).pushed(*old(self), data@),
    {
        let end = self.cursor + data.len();
        if end <= SAVE_SIZE {
            let mut i: usize = 0;
            while i < data.len()
                invariant
                    end == old(self).cursor + data@.len(),
                    end <= SAVE_SIZE,
                    self.cursor == old(self).cursor,
                    self.capacity == old(self).capacity,
                    i <= data@.len(),
                    self.buf@ == old(self).buf@.take(old(self).cursor as int) + data@.take(i as int)
                        + old(self).buf@.skip(old(self).cursor + i),
                decreases data@.len() - i,
            {
                self.buf[self.cursor + i] = data[i];
                i += 1;
                assert(self.buf@ =~= old(self).buf@.take(old(self).cursor as int) + data@.take(
                    i as int,
                ) + old(self).buf@.skip(old(self).cursor + i));
            }
            assert(data@.take(data@.len() as int) =~= data@);
            self.cursor = end;
            self.capacity = self.cursor;
        }
    }

    /// Push a `u16` in big-endian order.
    pub fn push_u16(&mut self, value: u16)
        requires
            old(self).cursor + 2 <= usize::MAX,
        ensures
            final(self).pushed(*old(self), be_bytes(value as nat, 2)),
    {
        let bytes: [u8; 2] = [(value / 256) as u8, (value % 256) as u8];
        assert(bytes@ =~= be_bytes(value as nat, 2)) by {
            reveal_with_fuel(be_bytes, 3);
        }
        self.push(bytes.as_slice());
    }

    /// Push one byte.
    pub fn push_u8(&mut self, value: u8)
        requires
            old(self).cursor + 1 <= usize::MAX,
        ensures
            final(self).pushed(*old(self), be_bytes(value as nat, 1)),
    {
        let bytes: [u8; 1] = [value];
        assert(bytes@ =~= be_bytes(value as nat, 1)) by {
            reveal_with_fuel(be_bytes, 2);
        }
        self.push(bytes.as_slice());
    }

    /// Push a `u128` in big-endian order.
    pub fn push_u128(&mut self, value: u128)
        requires
            old(self).cursor + 16 <= usize::MAX,
        ensures
            final(self).pushed(*old(self), be_bytes(value as nat, 16)),
    {
        let mut bytes: [u8; 16] = [0; 16];
        let mut rest: u128 = value;
        let mut i: usize = 16;
        proof {
            lemma_be_bytes_len(value as nat, 16);
            assert(byte_range(0) == 1);
            assert(value as nat / 1 == value as nat) by (nonlinear_arith);
        }
        while i > 0
            invariant
                i <= 16,
                bytes@.len() == 16,
                rest as nat == value as nat / byte_range((16 - i) as nat),
                be_bytes(value as nat, 16).len() == 16,
                forall|j: int| i <= j < 16 ==> bytes@[j] == be_bytes(value as nat, 16)[j],
            decreases i,
        {
            i -= 1;
            bytes[i] = (rest % 256) as u8;
            proof {
                lemma_be_bytes_digit(value as nat, 16, i as nat);
                lemma_div_step(value as nat, (15 - i) as nat);
            }
            rest = rest / 256;
        }
        assert(bytes@ =~= be_bytes(value as nat, 16)) by {
            lemma_be_bytes_len(value as nat, 16);
        }
        self.push(bytes.as_slice());
    }
}

/// What a push writes, a pull from the same position reads back: after
/// pushing the `n` bytes of `value` at the cursor of `s0`, a buffer holding
/// those bytes with its cursor back where the push started, and with at
/// least the pushed bytes valid, pulls `value`.
pub proof fn lemma_pull_reads_push(s0: Save, s1: Save, s2: Save, value: nat, n: nat, default: nat)
    requires
        s1.pushed(s0, be_bytes(value, n)),
        value < byte_range(n),
        s0.cursor + n <= SAVE_SIZE,
        s2.buf == s1.buf,
        s2.cursor == s0.cursor,
        s1.cursor <= s2.capacity <= SAVE_SIZE,
    ensures
        s2.pulled(n, default) == value,
{
    lemma_be_roundtrip(value, n);
    let data = be_bytes(value, n);
    assert(s2.remaining().take(n as int) =~= data);
}

proof fn lemma_byte_range_positive(n: nat)
    ensures
        byte_range(n) >= 1,
    decreases n,
{
    if n > 0 {
        lemma_byte_range_positive((n - 1) as nat);
    }
}

proof fn lemma_byte_range_monotonic(a: nat, b: nat)
    requires
        a <= b,
    ensures
        byte_range(a) <= byte_range(b),
        byte_range(a) >= 1,
    decreases b,
{
    lemma_byte_range_positive(a);
    if a < b {
        lemma_byte_range_monotonic(a, (b - 1) as nat);
    }
}

proof fn lemma_be_bytes_len(value: nat, n: nat)
    ensures
        be_bytes(value, n).len() == n,
    decreases n,
{
    if n > 0 {
        lemma_be_bytes_len(value / 256, (n - 1) as nat);
    }
}

proof fn lemma_div_step(value: nat, k: nat)
    ensures
        value / byte_range(k) / 256 == value / byte_range(k + 1),
{
    lemma_byte_range_monotonic(k, k);
    assert(byte_range(k + 1) == 256 * byte_range(k));
    vstd::arithmetic::div_mod::lemma_div_denominator(value as int, byte_range(k) as int, 256);
}

/// Byte `i` of the `n` big-endian bytes of `value` is digit `n - 1 - i` in
/// base 256.
proof fn lemma_be_bytes_digit(value: nat, n: nat, i: nat)
    requires
        i < n,
    ensures
        be_bytes(value, n)[i as int] == (value / byte_range((n - 1 - i) as nat)) % 256,
    decreases n,
{
    lemma_be_bytes_len(value, n);
    lemma_be_bytes_len(value / 256, (n - 1) as nat);
    if i == n - 1 {
        assert(byte_range(0) == 1);
    } else {
        lemma_be_bytes_digit(value / 256, (n - 1) as nat, i);
        lemma_div_step(value, 0);
        assert(byte_range(1) == 256) by {
            assert(byte_range(0) == 1);
        }
        lemma_div_step_general(value, (n - 2 - i) as nat);
    }
}

proof fn lemma_div_step_general(value: nat, k: nat)
    ensures
        value / 256 / byte_range(k) == value / byte_range(k + 1),
{
    lemma_byte_range_monotonic(k, k);
    assert(byte_range(k + 1) == 256 * byte_range(k));
    vstd::arithmetic::div_mod::lemma_div_denominator(value as int, 256, byte_range(k) as int);
}

} // verus!
