//! The sixteen-key hexadecimal keypad, stored in a `FixedBitSet`.

use fixedbitset::FixedBitSet;
use vstd::prelude::*;

verus! {

/// Number of keys on the keypad.
pub const KEY_COUNT: usize = 16;

/// Makes `fixedbitset::FixedBitSet` known to the verifier as an opaque type.
#[verifier::external_type_specification]
#[verifier::external_body]
pub struct ExFixedBitSet(FixedBitSet);

/// The bits that a `FixedBitSet` holds, in index order; the length is the
/// number of bits the set was created with.
pub uninterp spec fn bitset_bits(set: FixedBitSet) -> Seq<bool>;

/// Calls `FixedBitSet::with_capacity`. Assumed, not proved: the new set has
/// exactly `bits` bits and all of them are disabled.
#[verifier::external_body]
fn bitset_with_capacity(bits: usize) -> (set: FixedBitSet)
    ensures
        bitset_bits(set).len() == bits,
        forall|i: int| 0 <= i < bits ==> !(#[trigger] bitset_bits(set)[i]),
{
    FixedBitSet::with_capacity(bits)
}

/// Calls `FixedBitSet::set`. Assumed, not proved: the bit at `bit` becomes
/// `enabled` and every other bit and the length stay as they were. The
/// method panics on an index beyond the length, which the precondition
/// excludes.
#[verifier::external_body]
fn bitset_set(set: &mut FixedBitSet, bit: usize, enabled: bool)
    requires
        bit < bitset_bits(*old(set)).len(),
    ensures
        bitset_bits(*final(set)) == bitset_bits(*old(set)).update(bit as int, enabled),
{
    set.set(bit, enabled)
}

/// Indexes a `FixedBitSet` (`set[bit]`, its `Index<usize>` impl). Assumed,
/// not proved: the result is the bit at `bit`, and `false` for an index
/// beyond the length; indexing never panics.
#[verifier::external_body]
fn bitset_index(set: &FixedBitSet, bit: usize) -> (enabled: bool)
    ensures
        enabled == (bit < bitset_bits(*set).len() && bitset_bits(*set)[bit as int]),
{
    set[bit]
}

/// Press/release state of the sixteen keys.
pub struct Keypad {
    bits: FixedBitSet,
}

impl View for Keypad {
    type V = Seq<bool>;

    /// One flag per key, `true` while the key is held down.
    closed spec fn view(&self) -> Seq<bool> {
        bitset_bits(self.bits)
    }
}

/// `key` is pressed in `keys` and no key with a smaller index is.
pub open spec fn is_lowest_pressed(keys: Seq<bool>, key: int) -> bool {
    &&& 0 <= key < keys.len()
    &&& keys[key]
    &&& forall|j: int| 0 <= j < key ==> !keys[j]
}

/// No key in `keys` is pressed.
pub open spec fn none_pressed(keys: Seq<bool>) -> bool {
    forall|j: int| 0 <= j < keys.len() ==> !keys[j]
}

/// The lowest-numbered pressed key, if any key is pressed.
pub open spec fn lowest_pressed(keys: Seq<bool>) -> Option<int> {
    if exists|k: int| is_lowest_pressed(keys, k) {
        Some(choose|k: int| is_lowest_pressed(keys, k))
    } else {
        None
    }
}

/// `lowest_pressed` is the unique key satisfying `is_lowest_pressed`, and is
/// `None` exactly when no key is pressed.
pub proof fn lemma_lowest_pressed(keys: Seq<bool>)
    ensures
        forall|k: int| is_lowest_pressed(keys, k) ==> lowest_pressed(keys) == Some(k),
        none_pressed(keys) ==> lowest_pressed(keys) is None,
        lowest_pressed(keys) is None ==> none_pressed(keys),
{
    assert forall|k: int| is_lowest_pressed(keys, k) implies lowest_pressed(keys) == Some(k) by {
        let c = choose|c: int| is_lowest_pressed(keys, c);
        assert(is_lowest_pressed(keys, c));
        if c < k {
            assert(!keys[c]);
        } else if k < c {
            assert(!keys[k]);
        }
    }
    if lowest_pressed(keys) is None && !none_pressed(keys) {
        lemma_some_lowest(keys, keys.len() as int);
    }
}

/// If any of the first `bound` keys is pressed, one of them is the lowest
/// pressed key.
proof fn lemma_some_lowest(keys: Seq<bool>, bound: int)
    requires
        0 <= bound <= keys.len(),
        exists|j: int| 0 <= j < bound && keys[j],
    ensures
        exists|k: int| is_lowest_pressed(keys, k),
    decreases bound,
{
    let last = bound - 1;
    if exists|j: int| 0 <= j < last && keys[j] {
        lemma_some_lowest(keys, last);
    } else {
        assert(is_lowest_pressed(keys, last));
    }
}

impl Keypad {
    /// The keypad has exactly sixteen keys.
    pub open spec fn wf(&self) -> bool {
        self@.len() == KEY_COUNT
    }

    /// A keypad with every key released.
    pub fn new() -> (keypad: Keypad)
        ensures
            keypad.wf(),
            none_pressed(keypad@),
    {
        Keypad { bits: bitset_with_capacity(KEY_COUNT) }
    }

    /// Records `key` as pressed (`pressed == true`) or released.
    pub fn set(&mut self, key: usize, pressed: bool)
        requires
            old(self).wf(),
            key < KEY_COUNT,
        ensures
            final(self).wf(),
            final(self)@ == old(self)@.update(key as int, pressed),
    {
        bitset_set(&mut self.bits, key, pressed);
    }

    /// Whether `key` is held down; an index beyond the keypad names no key
    /// and reads as released.
    pub fn is_pressed(&self, key: usize) -> (pressed: bool)
        requires
            self.wf(),
        ensures
            pressed == (key < KEY_COUNT && self@[key as int]),
    {
        bitset_index(&self.bits, key)
    }

    /// Scans the keys in ascending order and returns the first pressed one.
    pub fn first_pressed(&self) -> (found: Option<u8>)
        requires
            self.wf(),
        ensures
            match found {
                Some(key) => lowest_pressed(self@) == Some(key as int),
                None => lowest_pressed(self@) is None,
            },
    {
        let mut key: usize = 0;
        while key < KEY_COUNT
            invariant
                self.wf(),
                key <= KEY_COUNT,
                forall|j: int| 0 <= j < key ==> !self@[j],
            decreases KEY_COUNT - key,
        {
            if self.is_pressed(key) {
                proof {
                    assert(is_lowest_pressed(self@, key as int));
                    lemma_lowest_pressed(self@);
                }
                return Some(key as u8);
            }
            key += 1;
        }
        proof {
            assert(none_pressed(self@));
            lemma_lowest_pressed(self@);
        }
        None
    }
}

} // verus!
