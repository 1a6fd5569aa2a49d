//! The five stages of the sequence and their fixed order.

use vstd::prelude::*;

verus! {

/// One stage of the sequence. The stages run in the order in which they are
/// declared, each exactly once.
#[derive(Debug, Clone, Copy, PartialEq, Eq, Hash, Structural)]
pub enum Phase {
    /// Nothing is shown yet.
    InitialHold,
    /// The primary element travels from its start offset to its rest offset.
    Reveal,
    /// The primary element rests; the secondary one is still hidden.
    InterStagePause,
    /// The secondary element has been switched on.
    RevealSecondary,
    /// Everything is shown; the sequence ends when this hold runs out.
    FinalHold,
}

/// The phases in the order in which every run passes through them.
pub open spec fn phase_order() -> Seq<Phase> {
    seq![
        Phase::InitialHold,
        Phase::Reveal,
        Phase::InterStagePause,
        Phase::RevealSecondary,
        Phase::FinalHold,
    ]
}

/// The fixed order from its first phase up to `phase`, both included.
pub open spec fn order_up_to(phase: Phase) -> Seq<Phase> {
    phase_order().take(phase.ordinal() as int + 1)
}

impl Phase {
    /// Position of the phase in the fixed order, counted from zero.
    pub open spec fn ordinal(self) -> nat {
        match self {
            Phase::InitialHold => 0,
            Phase::Reveal => 1,
            Phase::InterStagePause => 2,
            Phase::RevealSecondary => 3,
            Phase::FinalHold => 4,
        }
    }

    /// The phase that follows this one; the last phase has none.
    pub open spec fn following(self) -> Option<Phase> {
        match self {
            Phase::InitialHold => Some(Phase::Reveal),
            Phase::Reveal => Some(Phase::InterStagePause),
            Phase::InterStagePause => Some(Phase::RevealSecondary),
            Phase::RevealSecondary => Some(Phase::FinalHold),
            Phase::FinalHold => None,
        }
    }

    /// Position of the phase in the fixed order, counted from zero.
    pub fn index(self) -> (i: u8)
        ensures
            i as nat == self.ordinal(),
            i <= 4,
            phase_order()[i as int] == self,
    {
        match self {
            Phase::InitialHold => 0,
            Phase::Reveal => 1,
            Phase::InterStagePause => 2,
            Phase::RevealSecondary => 3,
            Phase::FinalHold => 4,
        }
    }

    /// The phase that follows this one, or `None` after the last.
    pub fn successor(self) -> (next: Option<Phase>)
        ensures
            next == self.following(),
            next.is_none() <==> self == Phase::FinalHold,
            next matches Some(q) ==> q.ordinal() == self.ordinal() + 1,
    {
        match self {
            Phase::InitialHold => Some(Phase::Reveal),
            Phase::Reveal => Some(Phase::InterStagePause),
            Phase::InterStagePause => Some(Phase::RevealSecondary),
            Phase::RevealSecondary => Some(Phase::FinalHold),
            Phase::FinalHold => None,
        }
    }

    /// Whether this is the last phase of the sequence.
    pub fn is_terminal(self) -> (last: bool)
        ensures
            last <==> self == Phase::FinalHold,
            last <==> self.following().is_none(),
    {
        match self {
            Phase::FinalHold => true,
            _ => false,
        }
    }
}

} // verus!
