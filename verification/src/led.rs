//! The panel of eight lamps that shows the direction of tilt.

use vstd::prelude::*;
use crate::direction::{Direction, LAMPS};

verus! {

/// State of the eight lamps, one for each direction but `Neutral`.
///
/// The view is the sequence of lamp states by lamp index, `true` for lit.
#[derive(Clone, Copy, Debug)]
pub struct LedPanel {
    lamps: [bool; 8],
}

impl View for LedPanel {
    type V = Seq<bool>;

    closed spec fn view(&self) -> Seq<bool> {
        self.lamps@
    }
}

impl LedPanel {
    /// The lamp states that show `direction`: its lamp lit and every other
    /// lamp dark; all dark for `Neutral`.
    pub open spec fn showing(direction: Direction) -> Seq<bool> {
        Seq::new(LAMPS as nat, |i: int| direction.lamp_index() == Some(i))
    }

    /// Whether the lamp of `direction` is lit in `lamps`. `Neutral` has no
    /// lamp and is never lit.
    pub open spec fn lit(lamps: Seq<bool>, direction: Direction) -> bool {
        match direction.lamp_index() {
            Some(i) => lamps[i],
            None => false,
        }
    }

    /// Number of lit lamps among the first `n`.
    pub open spec fn lit_among(lamps: Seq<bool>, n: nat) -> nat
        decreases n,
    {
        if n == 0 {
            0
        } else {
            Self::lit_among(lamps, (n - 1) as nat) + if lamps[n - 1] {
                1nat
            } else {
                0nat
            }
        }
    }

    /// Number of lit lamps.
    pub open spec fn lit_total(lamps: Seq<bool>) -> nat {
        Self::lit_among(lamps, lamps.len())
    }

    /// A panel has eight lamps, whatever its state.
    pub proof fn eight_lamps(&self)
        ensures
            self@.len() == LAMPS,
    {
    }

    /// A panel with every lamp dark.
    pub fn new() -> (panel: LedPanel)
        ensures
            panel@ == Self::showing(Direction::Neutral),
            Self::lit_total(panel@) == 0,
    {
        let panel = LedPanel { lamps: [false; 8] };
        proof {
            assert(panel@ =~= Self::showing(Direction::Neutral));
            Self::one_lamp_per_direction(Direction::Neutral);
        }
        panel
    }

    /// Switches the lamp of `direction` on or off and leaves the other lamps
    /// as they are. `Neutral` has no lamp, so nothing changes for it.
    pub fn set(&mut self, direction: Direction, on: bool)
        ensures
            final(self)@ == match direction.lamp_index() {
                Some(i) => old(self)@.update(i, on),
                None => old(self)@,
            },
    {
        match direction.lamp() {
            Some(i) => {
                self.lamps[i] = on;
            },
            None => {},
        }
    }

    /// Whether the lamp of `direction` is lit.
    pub fn is_lit(&self, direction: Direction) -> (on: bool)
        ensures
            on == Self::lit(self@, direction),
    {
        match direction.lamp() {
            Some(i) => self.lamps[i],
            None => false,
        }
    }

    /// Number of lamps that are lit.
    pub fn lit_count(&self) -> (count: usize)
        ensures
            count == Self::lit_total(self@),
            count <= LAMPS,
    {
        let mut count: usize = 0;
        let mut i: usize = 0;
        while i < LAMPS
            invariant
                i <= LAMPS,
                count <= i,
                count == Self::lit_among(self@, i as nat),
            decreases LAMPS - i,
        {
            if self.lamps[i] {
                count += 1;
            }
            i += 1;
        }
        count
    }

    /// Shows `direction`: lights its lamp and darkens every other one.
    /// For `Neutral` every lamp goes dark. The state before the call does
    /// not matter, so showing a direction again changes nothing.
    pub fn apply(&mut self, direction: Direction)
        ensures
            final(self)@ == Self::showing(direction),
            forall|other: Direction|
                #[trigger] Self::lit(final(self)@, other) <==> other == direction && direction
                    != Direction::Neutral,
            Self::lit_total(final(self)@) == if direction == Direction::Neutral {
                0nat
            } else {
                1nat
            },
    {
        let mut i: usize = 0;
        while i < LAMPS
            invariant
                i <= LAMPS,
                self@.len() == LAMPS,
                forall|j: int| 0 <= j < i ==> self@[j] == (direction.lamp_index() == Some(j)),
            decreases LAMPS - i,
        {
            match Direction::from_lamp(i) {
                Some(lamp) => {
                    self.set(lamp, lamp == direction);
                },
                None => {},
            }
            i += 1;
        }
        proof {
            assert(self@ =~= Self::showing(direction));
            Self::one_lamp_per_direction(direction);
        }
    }

    /// Showing a direction lights its lamp and no other: one lamp is lit for
    /// a direction of tilt, none for `Neutral`.
    pub proof fn one_lamp_per_direction(direction: Direction)
        ensures
            forall|other: Direction|
                #[trigger] Self::lit(Self::showing(direction), other) <==> other == direction
                    && direction != Direction::Neutral,
            Self::lit_total(Self::showing(direction)) == if direction == Direction::Neutral {
                0nat
            } else {
                1nat
            },
    {
        reveal_with_fuel(LedPanel::lit_among, 9);
    }
}

} // verus!
