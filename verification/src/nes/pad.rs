//! The game pads: eight buttons read one at a time through a shift
//! register that a strobe write rewinds.

use vstd::prelude::*;

verus! {

broadcast use vstd::array::group_array_axioms;

/// The buttons in the order the pad reports them.
#[derive(Clone, Copy, PartialEq, Eq, Structural, Debug)]
pub enum PadButton {
    A,
    B,
    Select,
    Start,
    Up,
    Down,
    Left,
    Right,
}

pub const PAD_BUTTON_LEN: usize = 8;

impl PadButton {
    /// The position of the button in the report.
    pub open spec fn spec_index(self) -> int {
        match self {
            PadButton::A => 0,
            PadButton::B => 1,
            PadButton::Select => 2,
            PadButton::Start => 3,
            PadButton::Up => 4,
            PadButton::Down => 5,
            PadButton::Left => 6,
            PadButton::Right => 7,
        }
    }

    pub fn index(&self) -> (r: usize)
        ensures
            r == self.spec_index(),
            r < 8,
    {
        match self {
            PadButton::A => 0,
            PadButton::B => 1,
            PadButton::Select => 2,
            PadButton::Start => 3,
            PadButton::Up => 4,
            PadButton::Down => 5,
            PadButton::Left => 6,
            PadButton::Right => 7,
        }
    }

    /// The button at position `val` of the report.
    pub fn from_u8(val: u8) -> (r: PadButton)
        requires
            val < 8,
        ensures
            r.spec_index() == val,
    {
        match val {
            0 => PadButton::A,
            1 => PadButton::B,
            2 => PadButton::Select,
            3 => PadButton::Start,
            4 => PadButton::Up,
            5 => PadButton::Down,
            6 => PadButton::Left,
            _ => PadButton::Right,
        }
    }
}

/// Positions determine buttons.
pub proof fn lemma_pad_button_index_injective(a: PadButton, b: PadButton)
    ensures
        (a.spec_index() == b.spec_index()) == (a == b),
        0 <= a.spec_index() < 8,
{
}

#[derive(Clone, Copy, Debug)]
pub struct Pad {
    pub player: usize,
    pub pressed: [bool; 8],
    pub selected: PadButton,
    pub strobe_enabled: bool,
}

impl Pad {
    /// A pad with nothing pressed, reporting from button A.
    pub fn new(player: usize) -> (r: Pad)
        ensures
            r.player == player,
            forall|i: int| 0 <= i < 8 ==> !r.pressed[i],
            r.selected == PadButton::A,
            !r.strobe_enabled,
    {
        Pad { player, pressed: [false; 8], selected: PadButton::A, strobe_enabled: false }
    }

    pub open spec fn spec_set_button(self, button: PadButton, down: bool) -> Pad {
        Pad { pressed: vstd::array::spec_array_update(self.pressed, button.spec_index(), down), ..self }
    }

    pub fn press_button(&mut self, button: PadButton)
        ensures
            *final(self) == old(self).spec_set_button(button, true),
    {
        self.pressed[button.index()] = true;
    }

    pub fn release_button(&mut self, button: PadButton)
        ensures
            *final(self) == old(self).spec_set_button(button, false),
    {
        self.pressed[button.index()] = false;
    }

    /// Reading the pad: the state of the selected button; unless the strobe
    /// is on, the next button is selected (after Right comes A again).
    pub open spec fn spec_read(self) -> (Pad, bool) {
        let out = self.pressed[self.selected.spec_index()];
        if self.strobe_enabled {
            (self, out)
        } else {
            let next = (self.selected.spec_index() + 1) % 8;
            (Pad { selected: choose|b: PadButton| b.spec_index() == next, ..self }, out)
        }
    }

    pub fn read(&mut self) -> (r: bool)
        ensures
            (*final(self), r) == old(self).spec_read(),
    {
        let i = self.selected.index();
        let out = self.pressed[i];
        if !self.strobe_enabled {
            let next = PadButton::from_u8(((i + 1) % PAD_BUTTON_LEN) as u8);
            proof {
                let n = (i + 1) % 8;
                assert(next.spec_index() == n);
                let c = choose|b: PadButton| b.spec_index() == n;
                assert(c.spec_index() == n);
                lemma_pad_button_index_injective(c, next);
            }
            self.selected = next;
        }
        out
    }

    /// Writing the strobe: while it is on, reads keep returning button A.
    pub open spec fn spec_write(self, strobe: bool) -> Pad {
        if strobe {
            Pad { strobe_enabled: strobe, selected: PadButton::A, ..self }
        } else {
            Pad { strobe_enabled: strobe, ..self }
        }
    }

    pub fn write(&mut self, strobe: bool)
        ensures
            *final(self) == old(self).spec_write(strobe),
    {
        self.strobe_enabled = strobe;
        if strobe {
            self.selected = PadButton::A;
        }
    }
}

impl Pad {
    /// The answers of `n` reads in a row.
    pub open spec fn spec_read_n(self, n: nat) -> Seq<bool>
        decreases n,
    {
        if n == 0 {
            Seq::empty()
        } else {
            let (p1, b) = self.spec_read();
            seq![b] + p1.spec_read_n((n - 1) as nat)
        }
    }
}

proof fn lemma_read_step(p: Pad)
    requires
        !p.strobe_enabled,
    ensures
        p.spec_read().1 == p.pressed[p.selected.spec_index()],
        p.spec_read().0 == (Pad { selected: p.spec_read().0.selected, ..p }),
        p.spec_read().0.selected.spec_index() == (p.selected.spec_index() + 1) % 8,
{
    let next = (p.selected.spec_index() + 1) % 8;
    let w = if next == 0 {
        PadButton::A
    } else if next == 1 {
        PadButton::B
    } else if next == 2 {
        PadButton::Select
    } else if next == 3 {
        PadButton::Start
    } else if next == 4 {
        PadButton::Up
    } else if next == 5 {
        PadButton::Down
    } else if next == 6 {
        PadButton::Left
    } else {
        PadButton::Right
    };
    assert(w.spec_index() == next);
}

proof fn lemma_read_n(p: Pad, n: nat)
    requires
        !p.strobe_enabled,
    ensures
        p.spec_read_n(n) == Seq::new(n, |k: int| p.pressed[(p.selected.spec_index() + k) % 8]),
    decreases n,
{
    if n > 0 {
        lemma_read_step(p);
        let p1 = p.spec_read().0;
        lemma_read_n(p1, (n - 1) as nat);
        let s = p.selected.spec_index();
        assert forall|k: int| 0 <= k < n - 1 implies (#[trigger] p1.spec_read_n((n - 1) as nat)[k]) == p.pressed[(s + (k + 1)) % 8] by {
            vstd::arithmetic::div_mod::lemma_add_mod_noop(s + 1, k, 8);
            vstd::arithmetic::div_mod::lemma_mod_twice(s + 1, 8);
            vstd::arithmetic::div_mod::lemma_add_mod_noop((s + 1) % 8, k, 8);
        }
        assert(p.spec_read_n(n) =~= Seq::new(n, |k: int| p.pressed[(s + k) % 8]));
    }
}

/// While the strobe is on, every read reports button A. Once it is set and
/// cleared again, eight reads report A, B, Select, Start, Up, Down, Left and
/// Right in that order, and the ninth starts again at A.
pub proof fn lemma_strobe_then_reads(p: Pad)
    ensures
        p.spec_write(true).spec_read() == (p.spec_write(true), p.pressed[0]),
        p.spec_write(true).spec_write(false).spec_read_n(9)
            == Seq::new(8, |i: int| p.pressed[i]).push(p.pressed[0]),
{
    let q = p.spec_write(true).spec_write(false);
    lemma_read_n(q, 9);
    assert(q.spec_read_n(9) =~= Seq::new(8, |i: int| p.pressed[i]).push(p.pressed[0]));
}

} // verus!
