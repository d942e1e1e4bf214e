use vstd::prelude::*;

verus! {

/// Every bit that names a modifier key.
pub const MODIFIER_MASK: u16 = 0x1ff;

/// One modifier key.
#[derive(Clone, Copy, Debug, PartialEq, Eq, Structural)]
pub enum ModifierKey {
    Shift,
    AltGr,
    Control,
    Alt,
    LShift,
    RShift,
    LControl,
    RControl,
    CapsShift,
}

/// The bit that stands for `k` in a modifier mask.
pub open spec fn key_bit(k: ModifierKey) -> u16 {
    match k {
        ModifierKey::Shift => 1,
        ModifierKey::AltGr => 2,
        ModifierKey::Control => 4,
        ModifierKey::Alt => 8,
        ModifierKey::LShift => 16,
        ModifierKey::RShift => 32,
        ModifierKey::LControl => 64,
        ModifierKey::RControl => 128,
        ModifierKey::CapsShift => 256,
    }
}

/// A set of held modifier keys, kept as a bitmask with one bit per key.
#[derive(Clone, Copy, Debug, PartialEq, Eq, Structural)]
pub struct Modifier {
    pub bits: u16,
}

/// `m` holds every key that `other` holds.
pub open spec fn spec_contains(m: Modifier, other: Modifier) -> bool {
    m.bits & other.bits == other.bits
}

/// The mask after the keys of `other` are added to `m`.
pub open spec fn spec_set(m: Modifier, other: Modifier) -> Modifier {
    Modifier { bits: (m.bits | other.bits) & MODIFIER_MASK }
}

/// The mask after the keys of `other` are taken out of `m`.
pub open spec fn spec_remove(m: Modifier, other: Modifier) -> Modifier {
    Modifier { bits: (m.bits & !other.bits) & MODIFIER_MASK }
}

/// `m` holds the plain, the left or the right shift key.
pub open spec fn spec_is_shift(m: Modifier) -> bool {
    m.bits & 1 == 1 || m.bits & 16 == 16 || m.bits & 32 == 32
}

/// `m` holds the plain, the left or the right control key.
pub open spec fn spec_is_control(m: Modifier) -> bool {
    m.bits & 4 == 4 || m.bits & 64 == 64 || m.bits & 128 == 128
}

impl Modifier {
    /// Only bits of known keys are set.
    pub open spec fn is_valid(self) -> bool {
        self.bits & !MODIFIER_MASK == 0
    }

    /// The mask that holds no key.
    pub fn empty() -> (r: Modifier)
        ensures
            r.bits == 0,
    {
        Modifier { bits: 0 }
    }

    /// The mask that holds `key` alone.
    pub fn of(key: ModifierKey) -> (r: Modifier)
        ensures
            r.bits == key_bit(key),
    {
        match key {
            ModifierKey::Shift => Modifier { bits: 1 },
            ModifierKey::AltGr => Modifier { bits: 2 },
            ModifierKey::Control => Modifier { bits: 4 },
            ModifierKey::Alt => Modifier { bits: 8 },
            ModifierKey::LShift => Modifier { bits: 16 },
            ModifierKey::RShift => Modifier { bits: 32 },
            ModifierKey::LControl => Modifier { bits: 64 },
            ModifierKey::RControl => Modifier { bits: 128 },
            ModifierKey::CapsShift => Modifier { bits: 256 },
        }
    }

    pub fn is_shift(&self) -> (r: bool)
        ensures
            r == spec_is_shift(*self),
    {
        self.contains(Modifier { bits: 1 }) || self.contains(Modifier { bits: 16 })
            || self.contains(Modifier { bits: 32 })
    }

    pub fn is_control(&self) -> (r: bool)
        ensures
            r == spec_is_control(*self),
    {
        self.contains(Modifier { bits: 4 }) || self.contains(Modifier { bits: 64 })
            || self.contains(Modifier { bits: 128 })
    }

    pub fn contains(self, other: Modifier) -> (r: bool)
        ensures
            r == spec_contains(self, other),
    {
        self.bits & other.bits == other.bits
    }

    pub fn remove(&mut self, other: Modifier)
        ensures
            *final(self) == spec_remove(*old(self), other),
    {
        *self = Modifier::from_bits_truncate(self.bits & !other.bits);
    }

    pub fn set(&mut self, other: Modifier)
        ensures
            *final(self) == spec_set(*old(self), other),
    {
        *self = Modifier::from_bits_truncate(self.bits | other.bits);
    }

    /// The mask of the known keys among `bits`; other bits are dropped.
    pub fn from_bits_truncate(bits: u16) -> (r: Modifier)
        ensures
            r.bits == bits & MODIFIER_MASK,
            r.is_valid(),
    {
        proof {
            assert((bits & 0x1ff) & !0x1ffu16 == 0) by (bit_vector);
        }
        Modifier { bits: bits & MODIFIER_MASK }
    }
}

/// Adding the same keys twice leaves the mask as adding them once.
pub proof fn lemma_set_idempotent(m: Modifier, other: Modifier)
    ensures
        spec_set(spec_set(m, other), other) == spec_set(m, other),
{
    let a = m.bits;
    let b = other.bits;
    assert((((a | b) & 0x1ff) | b) & 0x1ff == (a | b) & 0x1ff) by (bit_vector);
}

/// Adding keys that a valid mask did not hold and taking them out again gives
/// back the mask as it was.
pub proof fn lemma_set_then_remove(m: Modifier, other: Modifier)
    requires
        m.is_valid(),
        m.bits & other.bits == 0,
    ensures
        spec_remove(spec_set(m, other), other) == m,
{
    let a = m.bits;
    let b = other.bits;
    assert(a & !0x1ffu16 == 0 && a & b == 0 ==> (((a | b) & 0x1ff) & !b) & 0x1ff == a)
        by (bit_vector);
}

} // verus!
