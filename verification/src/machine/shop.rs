use crate::input;
use crate::machine::{Campaign, Render};
use crate::random::Rng;
use vstd::prelude::*;

verus! {

/// The bits that stand for a shop item.
pub const ALL_BITS: u128 = 0x7f;

/// A set of shop items: bit `i` stands for the `i`-th of the seven items.
#[derive(Debug, Clone, Copy, PartialEq, Eq, Structural)]
pub struct Purchase {
    bits: u128,
}

/// The price of the single item with bit `bits`; anything else (no item, or
/// several) costs `u16::MAX`.
pub open spec fn price_of(bits: u128) -> u16 {
    if bits == 1 {
        50
    } else if bits == 2 {
        100
    } else if bits == 4 {
        200
    } else if bits == 8 {
        300
    } else if bits == 16 {
        400
    } else if bits == 32 {
        500
    } else if bits == 64 {
        600
    } else {
        u16::MAX
    }
}

/// Bit `i` as a number.
pub open spec fn item_bit(i: int) -> u128 {
    if i == 0 {
        1
    } else if i == 1 {
        2
    } else if i == 2 {
        4
    } else if i == 3 {
        8
    } else if i == 4 {
        16
    } else if i == 5 {
        32
    } else if i == 6 {
        64
    } else {
        128
    }
}

/// The single items (as bits) among the first `n` items that `bits` holds,
/// in order.
pub open spec fn items_below(bits: u128, n: nat) -> Seq<u128>
    decreases n,
{
    if n == 0 {
        Seq::empty()
    } else {
        let rest = items_below(bits, (n - 1) as nat);
        let b = item_bit(n - 1);
        if bits & b != 0 {
            rest.push(b)
        } else {
            rest
        }
    }
}

/// The label of the single item with bit `bits`; anything else has none.
pub open spec fn label_of(bits: u128) -> Seq<char> {
    if bits == 1 {
        "New move: One (Special)"@
    } else if bits == 2 {
        "New move: Four (Strong attack)"@
    } else if bits == 4 {
        "New move: Five (Fast attack)"@
    } else if bits == 8 {
        "New move: Six (Block)"@
    } else if bits == 16 {
        "New move: Seven (Fast attack)"@
    } else if bits == 32 {
        "New move: Eight (Block)"@
    } else if bits == 64 {
        "New move: Nine (Strong attack)"@
    } else {
        ""@
    }
}

impl Purchase {
    /// The set as bits.
    pub closed spec fn spec_bits(self) -> u128 {
        self.bits
    }

    #[verifier::type_invariant]
    closed spec fn only_items(self) -> bool {
        self.bits <= ALL_BITS
    }

    fn from_raw(bits: u128) -> (p: Purchase)
        requires
            bits <= ALL_BITS,
        ensures
            p.spec_bits() == bits,
    {
        Purchase { bits }
    }

    pub fn move_one() -> (p: Purchase)
        ensures
            p.spec_bits() == 1,
    {
        Self::from_raw(1)
    }

    pub fn move_four() -> (p: Purchase)
        ensures
            p.spec_bits() == 2,
    {
        Self::from_raw(2)
    }

    pub fn move_five() -> (p: Purchase)
        ensures
            p.spec_bits() == 4,
    {
        Self::from_raw(4)
    }

    pub fn move_six() -> (p: Purchase)
        ensures
            p.spec_bits() == 8,
    {
        Self::from_raw(8)
    }

    pub fn move_seven() -> (p: Purchase)
        ensures
            p.spec_bits() == 16,
    {
        Self::from_raw(16)
    }

    pub fn move_eight() -> (p: Purchase)
        ensures
            p.spec_bits() == 32,
    {
        Self::from_raw(32)
    }

    pub fn move_nine() -> (p: Purchase)
        ensures
            p.spec_bits() == 64,
    {
        Self::from_raw(64)
    }

    pub fn empty() -> (p: Purchase)
        ensures
            p.spec_bits() == 0,
    {
        Self::from_raw(0)
    }

    pub fn all() -> (p: Purchase)
        ensures
            p.spec_bits() == ALL_BITS,
    {
        Self::from_raw(ALL_BITS)
    }

    pub fn bits(&self) -> (b: u128)
        ensures
            b == self.spec_bits(),
            b <= ALL_BITS,
    {
        proof {
            use_type_invariant(self);
        }
        self.bits
    }

    /// The items among `value`'s bits; other bits are dropped.
    pub fn from_bits_truncate(value: u128) -> (p: Purchase)
        ensures
            p.spec_bits() == value & ALL_BITS,
    {
        let bits = value & ALL_BITS;
        assert(value & 0x7f <= 0x7f) by (bit_vector);
        Self::from_raw(bits)
    }

    /// Whether every item of `other` is in `self`.
    pub fn contains(&self, other: Purchase) -> (r: bool)
        ensures
            r == (self.spec_bits() & other.spec_bits() == other.spec_bits()),
    {
        (self.bits & other.bits) == other.bits
    }

    /// Both sets together.
    pub fn union(self, other: Purchase) -> (p: Purchase)
        ensures
            p.spec_bits() == self.spec_bits() | other.spec_bits(),
    {
        proof {
            use_type_invariant(&self);
            use_type_invariant(&other);
        }
        let a = self.bits;
        let b = other.bits;
        assert(a <= 0x7f && b <= 0x7f ==> a | b <= 0x7f) by (bit_vector);
        Self::from_raw(a | b)
    }

    /// Add the items of `other`.
    pub fn insert(&mut self, other: Purchase)
        ensures
            final(self).spec_bits() == old(self).spec_bits() | other.spec_bits(),
    {
        *self = self.union(other);
    }

    /// The single items of the set, in order.
    pub fn iter(&self) -> (v: Vec<Purchase>)
        ensures
            v@.map_values(|p: Purchase| p.spec_bits()) == items_below(self.spec_bits(), 7),
    {
        let mut v: Vec<Purchase> = Vec::new();
        let mut i: usize = 0;
        let mut bit: u128 = 1;
        while i < 7
            invariant
                i <= 7,
                bit == item_bit(i as int),
                v@.map_values(|p: Purchase| p.spec_bits()) == items_below(self.spec_bits(), i as nat),
            decreases 7 - i,
        {
            if self.bits & bit != 0 {
                v.push(Self::from_raw(bit));
            }
            assert(v@.map_values(|p: Purchase| p.spec_bits()) =~= items_below(
                self.spec_bits(),
                (i + 1) as nat,
            ));
            i += 1;
            bit = bit * 2;
        }
        v
    }

    /// The price of a single item; `u16::MAX` for anything else.
    pub fn price(&self) -> (p: u16)
        ensures
            p == price_of(self.spec_bits()),
    {
        let bits = self.bits;
        if bits == 1 {
            50
        } else if bits == 2 {
            100
        } else if bits == 4 {
            200
        } else if bits == 8 {
            300
        } else if bits == 16 {
            400
        } else if bits == 32 {
            500
        } else if bits == 64 {
            600
        } else {
            u16::MAX
        }
    }

    /// The label of a single item; empty for anything else.
    pub fn label(&self) -> (l: &'static str)
        ensures
            l@ == label_of(self.spec_bits()),
    {
        let bits = self.bits;
        if bits == 1 {
            "New move: One (Special)"
        } else if bits == 2 {
            "New move: Four (Strong attack)"
        } else if bits == 4 {
            "New move: Five (Fast attack)"
        } else if bits == 8 {
            "New move: Six (Block)"
        } else if bits == 16 {
            "New move: Seven (Fast attack)"
        } else if bits == 32 {
            "New move: Eight (Block)"
        } else if bits == 64 {
            "New move: Nine (Strong attack)"
        } else {
            ""
        }
    }

    /// The items on sale at a shop of the given unlock level: Four from
    /// level one on.
    pub fn from_unlock_level(unlocks: u8) -> (p: Purchase)
        ensures
            p.spec_bits() == if unlocks >= 1 {
                2u128
            } else {
                0u128
            },
    {
        let mut items = Purchase::empty();
        if unlocks >= 1 {
            items.insert(Purchase::move_four());
            assert(0u128 | 2u128 == 2u128) by (bit_vector);
        }
        items
    }
}

impl From<u128> for Purchase {
    fn from(value: u128) -> (p: Purchase)
        ensures
            p.spec_bits() == value & ALL_BITS,
    {
        Self::from_bits_truncate(value)
    }
}

impl vstd::std_specs::convert::FromSpecImpl<u128> for Purchase {
    open spec fn obeys_from_spec() -> bool {
        true
    }

    closed spec fn from_spec(value: u128) -> Purchase {
        Purchase { bits: value & ALL_BITS }
    }
}

/// Every single item has a price below `u16::MAX` and a label.
pub proof fn lemma_items_priced_and_labelled(i: int)
    requires
        0 <= i < 7,
    ensures
        price_of(item_bit(i)) < u16::MAX,
        label_of(item_bit(i)).len() > 0,
{
    reveal_strlit("New move: One (Special)");
    reveal_strlit("New move: Four (Strong attack)");
    reveal_strlit("New move: Five (Fast attack)");
    reveal_strlit("New move: Six (Block)");
    reveal_strlit("New move: Seven (Fast attack)");
    reveal_strlit("New move: Eight (Block)");
    reveal_strlit("New move: Nine (Strong attack)");
}

} // verus!

verus! {

/// The shop, selling `items`.
#[derive(Debug)]
pub struct Shop {
    pub items: Purchase,
}

impl Shop {
    pub fn new(items: Purchase) -> (s: Self)
        ensures
            s.items == items,
    {
        Self { items }
    }

    /// `#` leaves the shop for the scene of the current progress; other keys
    /// do nothing.
    pub open spec fn updated(s0: Shop, c0: Campaign, event: input::Event, s1: Shop, c1: Campaign, r: Option<Render>) -> bool {
        &&& s1 == s0
        &&& if event == input::Event::Hash {
            crate::machine::scene_picked(c0, c1) && r == Some(Render::Clear)
        } else {
            c1 == c0 && r is None
        }
    }

    /// Keys in the shop. `*` (a shortcut into the USB bootloader) is left to
    /// the caller.
    pub fn update<R: Rng>(
        &mut self,
        rng: &mut R,
        campaign: &mut Campaign,
        event: input::Event,
    ) -> (r: Option<Render>)
        requires
            event != input::Event::Star,
        ensures
            Self::updated(*old(self), *old(campaign), event, *final(self), *final(campaign), r),
            old(campaign).wf() ==> final(campaign).wf(),
    {
        match event {
            input::Event::Hash => {
                campaign.pick_scene(rng);
                Some(Render::Clear)
            },
            _ => None,
        }
    }
}

} // verus!
