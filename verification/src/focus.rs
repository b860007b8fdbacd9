//! The keyboard-focus ring: the text field followed by the transport buttons.

use vstd::prelude::*;

verus! {

/// A transport button that can hold the keyboard focus.
#[derive(Clone, Copy, Debug, PartialEq, Eq, Structural)]
pub enum PlayerButton {
    PlayPause,
    Stop,
}

/// The element that currently receives keyboard input.
#[derive(Clone, Copy, Debug, PartialEq, Eq, Structural)]
pub enum Focused {
    Input,
    Player(PlayerButton),
}

/// Number of elements on the focus ring.
pub const RING_LEN: u8 = 3;

impl Focused {
    /// Position on the ring, counted in Tab order from the text field.
    pub open spec fn spec_slot(self) -> nat {
        match self {
            Focused::Input => 0,
            Focused::Player(PlayerButton::PlayPause) => 1,
            Focused::Player(PlayerButton::Stop) => 2,
        }
    }

    /// The element at ring position `slot % 3`.
    pub open spec fn spec_at(slot: nat) -> Focused {
        if slot % 3 == 0 {
            Focused::Input
        } else if slot % 3 == 1 {
            Focused::Player(PlayerButton::PlayPause)
        } else {
            Focused::Player(PlayerButton::Stop)
        }
    }

    /// Focus after one Tab.
    pub open spec fn spec_next(self) -> Focused {
        Focused::spec_at(self.spec_slot() + 1)
    }

    /// Focus after one Shift-Tab.
    pub open spec fn spec_prev(self) -> Focused {
        Focused::spec_at(self.spec_slot() + 2)
    }

    /// Focus after `n` Tabs.
    pub open spec fn advance(self, n: nat) -> Focused
        decreases n,
    {
        if n == 0 {
            self
        } else {
            self.advance((n - 1) as nat).spec_next()
        }
    }

    /// Focus after `n` Shift-Tabs.
    pub open spec fn retreat(self, n: nat) -> Focused
        decreases n,
    {
        if n == 0 {
            self
        } else {
            self.retreat((n - 1) as nat).spec_prev()
        }
    }

    /// Position on the ring, counted in Tab order from the text field.
    pub fn slot(self) -> (slot: u8)
        ensures
            slot == self.spec_slot(),
    {
        match self {
            Focused::Input => 0,
            Focused::Player(PlayerButton::PlayPause) => 1,
            Focused::Player(PlayerButton::Stop) => 2,
        }
    }

    /// The element `slot` steps after the text field in Tab order.
    pub fn at(slot: u8) -> (focus: Focused)
        ensures
            focus == Focused::spec_at(slot as nat),
    {
        let r: u8 = slot % RING_LEN;
        if r == 0 {
            Focused::Input
        } else if r == 1 {
            Focused::Player(PlayerButton::PlayPause)
        } else {
            Focused::Player(PlayerButton::Stop)
        }
    }

    /// Tab: `Input -> PlayPause -> Stop -> Input`.
    #[verifier::when_used_as_spec(spec_next)]
    pub fn next(self) -> (focus: Focused)
        ensures
            focus == self.spec_next(),
            focus == match self {
                Focused::Input => Focused::Player(PlayerButton::PlayPause),
                Focused::Player(PlayerButton::PlayPause) => Focused::Player(PlayerButton::Stop),
                Focused::Player(PlayerButton::Stop) => Focused::Input,
            },
    {
        Focused::at(self.slot() + 1)
    }

    /// Shift-Tab: `Input -> Stop -> PlayPause -> Input`.
    #[verifier::when_used_as_spec(spec_prev)]
    pub fn prev(self) -> (focus: Focused)
        ensures
            focus == self.spec_prev(),
            focus == match self {
                Focused::Input => Focused::Player(PlayerButton::Stop),
                Focused::Player(PlayerButton::PlayPause) => Focused::Input,
                Focused::Player(PlayerButton::Stop) => Focused::Player(PlayerButton::PlayPause),
            },
    {
        Focused::at(self.slot() + RING_LEN - 1)
    }
}

/// Every element sits at its own ring position.
pub proof fn lemma_slot_roundtrip(focus: Focused)
    ensures
        focus.spec_slot() < 3,
        Focused::spec_at(focus.spec_slot()) == focus,
{
}

/// Shift-Tab undoes Tab, and Tab undoes Shift-Tab.
pub proof fn lemma_prev_inverts_next(focus: Focused)
    ensures
        focus.spec_next().spec_prev() == focus,
        focus.spec_prev().spec_next() == focus,
{
}

/// `n` Tabs move the focus `n` positions round the ring.
pub proof fn lemma_advance_slot(focus: Focused, n: nat)
    ensures
        focus.advance(n) == Focused::spec_at(focus.spec_slot() + n),
    decreases n,
{
    if n > 0 {
        lemma_advance_slot(focus, (n - 1) as nat);
    }
}

/// `n` Shift-Tabs move the focus `n` positions back round the ring.
pub proof fn lemma_retreat_slot(focus: Focused, n: nat)
    ensures
        focus.retreat(n) == Focused::spec_at(focus.spec_slot() + 2 * n),
    decreases n,
{
    if n > 0 {
        lemma_retreat_slot(focus, (n - 1) as nat);
    }
}

/// Only the number of Tabs modulo three matters: `n` Tabs leave the focus
/// where `n % 3` Tabs leave it, and three Tabs return to the start.
pub proof fn lemma_tab_cycle(focus: Focused, n: nat)
    ensures
        focus.advance(n) == focus.advance(n % 3),
        focus.advance(3) == focus,
        Focused::Input.advance(n) == Focused::spec_at(n),
{
    lemma_advance_slot(focus, n);
    lemma_advance_slot(focus, n % 3);
    lemma_advance_slot(focus, 3);
    lemma_advance_slot(Focused::Input, n);
}

/// Only the number of Shift-Tabs modulo three matters.
pub proof fn lemma_back_tab_cycle(focus: Focused, n: nat)
    ensures
        focus.retreat(n) == focus.retreat(n % 3),
        focus.retreat(3) == focus,
{
    lemma_retreat_slot(focus, n);
    lemma_retreat_slot(focus, n % 3);
    lemma_retreat_slot(focus, 3);
}

/// `n` Shift-Tabs undo `n` Tabs, and the other way round.
pub proof fn lemma_retreat_inverts_advance(focus: Focused, n: nat)
    ensures
        focus.advance(n).retreat(n) == focus,
        focus.retreat(n).advance(n) == focus,
{
    lemma_advance_slot(focus, n);
    lemma_retreat_slot(focus.advance(n), n);
    lemma_retreat_slot(focus, n);
    lemma_advance_slot(focus.retreat(n), n);
}

} // verus!
