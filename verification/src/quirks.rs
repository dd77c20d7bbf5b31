//! The three points on which CHIP-8 platforms diverge, as named choices.

use vstd::prelude::*;

verus! {

/// Selects, for each historically ambiguous instruction, which behaviour the
/// interpreter follows. `Quirks::default()` is `Quirks::classic()`.
#[derive(Clone, Copy, Debug, PartialEq, Eq, Structural)]
pub struct Quirks {
    /// Shifts (`8xy6`, `8xyE`): when set, VX is first copied from VY and then
    /// shifted; when clear, VX is shifted in place and VY is ignored.
    pub shift_copies_vy: bool,
    /// Jump with offset (`Bnnn`): when set, the offset is register VX, `x`
    /// being the top nibble of `nnn`; when clear, it is V0.
    pub jump_offset_uses_vx: bool,
    /// Add to index (`Fx1E`): when set, VF receives the out-of-range flag and
    /// a sum above `0xFFF` is reduced by `0xFFF`; when clear, the sum wraps
    /// at sixteen bits and VF is left alone.
    pub index_add_flags_overflow: bool,
}

impl Quirks {
    /// The default: shifts and jumps as on the first CHIP-8 machines
    /// (copy-then-shift, offset from V0), and index overflow flagged.
    pub open spec fn classic() -> Quirks {
        Quirks {
            shift_copies_vy: true,
            jump_offset_uses_vx: false,
            index_add_flags_overflow: true,
        }
    }
}

impl Default for Quirks {
    fn default() -> (q: Quirks)
        ensures
            q == Quirks::classic(),
    {
        Quirks {
            shift_copies_vy: true,
            jump_offset_uses_vx: false,
            index_add_flags_overflow: true,
        }
    }
}

} // verus!
