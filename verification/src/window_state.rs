//! Which attributes of a window are saved and restored.
//!
//! The platform's window-state facility names each attribute that it can
//! persist by a flag, and takes a set of flags that says which of them to save
//! and to restore. The desktop shell persists every attribute that the facility
//! offers, except whether the window is decorated and whether it is visible.
//!
//! A set of flags is held here by its bits. The masks of the named flags are
//! those of Tauri's window-state plugin, so a set goes to the plugin and comes
//! from it by its bits alone.

use vstd::prelude::*;

verus! {

/// Flag of the window's size.
pub const SIZE: u32 = 0x01;

/// Flag of the window's position.
pub const POSITION: u32 = 0x02;

/// Flag of whether the window is maximized.
pub const MAXIMIZED: u32 = 0x04;

/// Flag of whether the window is visible.
pub const VISIBLE: u32 = 0x08;

/// Flag of whether the window has decorations.
pub const DECORATIONS: u32 = 0x10;

/// Flag of whether the window is fullscreen.
pub const FULLSCREEN: u32 = 0x20;

/// Whether `flag` is one single flag: a value with exactly one bit set.
pub open spec fn is_flag(flag: u32) -> bool {
    flag != 0 && flag & ((flag - 1) as u32) == 0
}

/// The single flags that are set in `bits`.
pub open spec fn flags_in(bits: u32) -> Set<u32> {
    Set::new(|flag: u32| is_flag(flag) && bits & flag == flag)
}

/// The attributes that are persisted out of `domain`: all of them but
/// decorations and visibility.
pub open spec fn persisted(domain: Set<u32>) -> Set<u32> {
    domain.remove(DECORATIONS).remove(VISIBLE)
}

/// A set of window-state flags.
///
/// Its view is the set of the single flags that it holds. Any bits make a set:
/// a flag that has no name here is kept like the others.
#[derive(Clone, Copy, Debug, PartialEq, Eq, Structural)]
pub struct StateFlags {
    bits: u32,
}

impl View for StateFlags {
    type V = Set<u32>;

    open spec fn view(&self) -> Set<u32> {
        flags_in(self.spec_bits())
    }
}

impl StateFlags {
    /// The bits of the set, one for each flag that it holds.
    pub closed spec fn spec_bits(&self) -> u32 {
        self.bits
    }

    /// The set that holds exactly the flags set in `bits`, named or not.
    pub fn from_bits_retain(bits: u32) -> (flags: Self)
        ensures
            flags.bits() == bits,
            flags@ == flags_in(bits),
    {
        StateFlags { bits }
    }

    /// The bits of the set.
    #[verifier::when_used_as_spec(spec_bits)]
    pub fn bits(&self) -> (bits: u32)
        ensures
            bits == self.spec_bits(),
    {
        self.bits
    }

    /// The flags of `self` that `other` does not hold.
    pub fn difference(self, other: Self) -> (rest: Self)
        ensures
            rest@ == self@.difference(other@),
            rest.bits() == self.bits() & !other.bits(),
    {
        let rest = StateFlags { bits: self.bits & !other.bits };
        proof {
            assert forall|flag: u32| rest@.contains(flag) == self@.difference(other@).contains(
                flag,
            ) by {
                if is_flag(flag) {
                    lemma_flag_of_difference(self.bits, other.bits, flag);
                }
            }
        }
        rest
    }
}

/// The flags to save and restore, where `domain` holds every flag that the
/// window-state facility offers.
///
/// Decorations and visibility are never among them. Every other flag of
/// `domain` is, whether it has a name here or not, and no flag from outside
/// `domain` is.
pub fn window_state_flags(domain: StateFlags) -> (kept: StateFlags)
    ensures
        kept@ == persisted(domain@),
        kept.bits() == domain.bits() & !DECORATIONS & !VISIBLE,
        !kept@.contains(DECORATIONS),
        !kept@.contains(VISIBLE),
        forall|flag: u32|
            domain@.contains(flag) && flag != DECORATIONS && flag != VISIBLE
                ==> #[trigger] kept@.contains(flag),
        kept@.subset_of(domain@),
{
    let decorations = StateFlags::from_bits_retain(DECORATIONS);
    let visible = StateFlags::from_bits_retain(VISIBLE);
    let kept = domain.difference(decorations).difference(visible);
    proof {
        assert forall|flag: u32| kept@.contains(flag) == persisted(domain@).contains(flag) by {
            if is_flag(flag) {
                lemma_excluded_flags(flag);
            }
        }
    }
    kept
}

/// Each named flag is one single flag, so a set holds it exactly if its bit is
/// set.
pub proof fn lemma_named_flags_are_single()
    by (bit_vector)
    ensures
        is_flag(SIZE),
        is_flag(POSITION),
        is_flag(MAXIMIZED),
        is_flag(VISIBLE),
        is_flag(DECORATIONS),
        is_flag(FULLSCREEN),
{
}

/// A single flag is in `a & !b` exactly if it is in `a` and not in `b`.
proof fn lemma_flag_of_difference(a: u32, b: u32, flag: u32)
    by (bit_vector)
    requires
        is_flag(flag),
    ensures
        ((a & !b) & flag == flag) <==> (a & flag == flag && !(b & flag == flag)),
{
}

/// Decorations and visibility each hold one single flag: themselves.
proof fn lemma_excluded_flags(flag: u32)
    by (bit_vector)
    requires
        is_flag(flag),
    ensures
        (DECORATIONS & flag == flag) <==> flag == DECORATIONS,
        (VISIBLE & flag == flag) <==> flag == VISIBLE,
{
}

} // verus!
