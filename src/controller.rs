//! Standard controller: eight buttons read out serially through $4016.
use vstd::prelude::*;

verus! {

/// Number of buttons on a standard pad, in read-out order
/// A, B, Select, Start, Up, Down, Left, Right.
pub const N_BUTTONS: usize = 8;

pub struct Controller {
    pub buttons: Vec<bool>,
    /// Next button to be shifted out; 8 once all have been read.
    pub index: usize,
    /// Last value written to $4016.
    pub strobe: u8,
}

/// The value the pad returns for one read, given its state before it.
pub open spec fn read_value(buttons: Seq<bool>, index: int, strobe: u8) -> u8 {
    if strobe & 1 == 1 {
        if buttons[0] { 1 } else { 0 }
    } else if index < 8 {
        if buttons[index] { 1 } else { 0 }
    } else {
        1
    }
}

/// The shift position after one read.
pub open spec fn next_index(index: int, strobe: u8) -> int {
    if strobe & 1 == 1 {
        0
    } else if index < 8 {
        index + 1
    } else {
        8
    }
}

/// The values returned by `n` consecutive reads from a pad in the given state.
pub open spec fn reads(buttons: Seq<bool>, index: int, strobe: u8, n: nat) -> Seq<u8>
    decreases n,
{
    if n == 0 {
        Seq::empty()
    } else {
        seq![read_value(buttons, index, strobe)]
            + reads(buttons, next_index(index, strobe), strobe, (n - 1) as nat)
    }
}

impl Controller {
    pub open spec fn wf(&self) -> bool {
        &&& self.buttons@.len() == N_BUTTONS
        &&& self.index <= 8
        &&& (self.strobe & 1 == 1 ==> self.index == 0)
    }

    pub fn new_controller() -> (r: Self)
        ensures
            r.wf(),
            r.index == 0,
            r.strobe == 0,
            forall|i: int| 0 <= i < 8 ==> !r.buttons@[i],
    {
        let mut buttons: Vec<bool> = Vec::new();
        let mut i: usize = 0;
        while i < N_BUTTONS
            invariant
                i <= N_BUTTONS,
                buttons@.len() == i,
                forall|j: int| 0 <= j < i ==> !buttons@[j],
            decreases N_BUTTONS - i,
        {
            buttons.push(false);
            i = i + 1;
        }
        Controller { buttons, index: 0, strobe: 0 }
    }

    /// One read of $4016.
    pub fn read(&mut self) -> (r: u8)
        requires
            old(self).wf(),
        ensures
            final(self).wf(),
            r == read_value(old(self).buttons@, old(self).index as int, old(self).strobe),
            final(self).index == next_index(old(self).index as int, old(self).strobe),
            final(self).buttons == old(self).buttons,
            final(self).strobe == old(self).strobe,
    {
        let value: u8;
        if self.strobe & 1 == 1 {
            value = if self.buttons[0] { 1 } else { 0 };
            self.index = 0;
        } else if self.index < N_BUTTONS {
            value = if self.buttons[self.index] { 1 } else { 0 };
            self.index = self.index + 1;
        } else {
            value = 1;
        }
        value
    }

    /// A write to $4016: bit 0 high holds the pad in strobe mode, which keeps
    /// the shift position at the first button.
    pub fn write(&mut self, val: u8)
        requires
            old(self).wf(),
        ensures
            final(self).wf(),
            final(self).strobe == val,
            final(self).buttons == old(self).buttons,
            final(self).index == (if val & 1 == 1 { 0 } else { old(self).index }),
    {
        self.strobe = val;
        if val & 1 == 1 {
            self.index = 0;
        }
    }

    fn set_button(&mut self, i: usize, v: bool)
        requires
            old(self).wf(),
            i < N_BUTTONS,
        ensures
            final(self).wf(),
            final(self).buttons@ == old(self).buttons@.update(i as int, v),
            final(self).index == old(self).index,
            final(self).strobe == old(self).strobe,
    {
        self.buttons.set(i, v);
    }

    pub fn a(&mut self, v: bool)
        requires old(self).wf(),
        ensures
            final(self).wf(),
            final(self).buttons@ == old(self).buttons@.update(0, v),
            final(self).index == old(self).index,
            final(self).strobe == old(self).strobe,
    {
        self.set_button(0, v);
    }

    pub fn b(&mut self, v: bool)
        requires old(self).wf(),
        ensures
            final(self).wf(),
            final(self).buttons@ == old(self).buttons@.update(1, v),
            final(self).index == old(self).index,
            final(self).strobe == old(self).strobe,
    {
        self.set_button(1, v);
    }

    pub fn select(&mut self, v: bool)
        requires old(self).wf(),
        ensures
            final(self).wf(),
            final(self).buttons@ == old(self).buttons@.update(2, v),
            final(self).index == old(self).index,
            final(self).strobe == old(self).strobe,
    {
        self.set_button(2, v);
    }

    pub fn start(&mut self, v: bool)
        requires old(self).wf(),
        ensures
            final(self).wf(),
            final(self).buttons@ == old(self).buttons@.update(3, v),
            final(self).index == old(self).index,
            final(self).strobe == old(self).strobe,
    {
        self.set_button(3, v);
    }

    pub fn up(&mut self, v: bool)
        requires old(self).wf(),
        ensures
            final(self).wf(),
            final(self).buttons@ == old(self).buttons@.update(4, v),
            final(self).index == old(self).index,
            final(self).strobe == old(self).strobe,
    {
        self.set_button(4, v);
    }

    pub fn down(&mut self, v: bool)
        requires old(self).wf(),
        ensures
            final(self).wf(),
            final(self).buttons@ == old(self).buttons@.update(5, v),
            final(self).index == old(self).index,
            final(self).strobe == old(self).strobe,
    {
        self.set_button(5, v);
    }

    pub fn left(&mut self, v: bool)
        requires old(self).wf(),
        ensures
            final(self).wf(),
            final(self).buttons@ == old(self).buttons@.update(6, v),
            final(self).index == old(self).index,
            final(self).strobe == old(self).strobe,
    {
        self.set_button(6, v);
    }

    pub fn right(&mut self, v: bool)
        requires old(self).wf(),
        ensures
            final(self).wf(),
            final(self).buttons@ == old(self).buttons@.update(7, v),
            final(self).index == old(self).index,
            final(self).strobe == old(self).strobe,
    {
        self.set_button(7, v);
    }
}

/// While the strobe bit is held high, every read returns the state of the A
/// button, however many reads are made.
pub proof fn lemma_strobe_reads_a(buttons: Seq<bool>, index: int, strobe: u8, n: nat)
    requires
        buttons.len() == N_BUTTONS,
        strobe & 1 == 1,
    ensures
        reads(buttons, index, strobe, n).len() == n,
        forall|k: int| 0 <= k < n ==> #[trigger] reads(buttons, index, strobe, n)[k]
            == (if buttons[0] { 1u8 } else { 0u8 }),
    decreases n,
{
    if n > 0 {
        lemma_strobe_reads_a(buttons, 0, strobe, (n - 1) as nat);
        let rest = reads(buttons, 0, strobe, (n - 1) as nat);
        assert forall|k: int| 0 <= k < n implies #[trigger] reads(buttons, index, strobe, n)[k]
            == (if buttons[0] { 1u8 } else { 0u8 }) by {
            if k > 0 {
                assert(reads(buttons, index, strobe, n)[k] == rest[k - 1]);
            }
        }
    }
}

/// With the strobe low and the pad freshly latched, the first eight reads give
/// the buttons in order and the ninth read returns 1.
pub proof fn lemma_latched_reads(buttons: Seq<bool>, strobe: u8)
    requires
        buttons.len() == N_BUTTONS,
        strobe & 1 == 0,
    ensures
        reads(buttons, 0, strobe, 9).len() == 9,
        forall|k: int| 0 <= k < 8 ==> #[trigger] reads(buttons, 0, strobe, 9)[k]
            == (if buttons[k] { 1u8 } else { 0u8 }),
        reads(buttons, 0, strobe, 9)[8] == 1,
{
    reveal_with_fuel(reads, 10);
}

} // verus!
