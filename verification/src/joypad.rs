//! The controller latch: eight buttons, loaded while the strobe is high and
//! shifted out one per read once it is low.

use vstd::prelude::*;

verus! {

/// The eight buttons, in the order in which they are shifted out.
#[derive(Clone, Copy, Debug, PartialEq, Eq, Structural)]
pub enum JoypadButton {
    ButtonA,
    ButtonB,
    Select,
    Start,
    Up,
    Down,
    Left,
    Right,
}

impl JoypadButton {
    /// The button's place in the shift order, 0 to 7.
    pub open spec fn spec_index(&self) -> u8 {
        match self {
            JoypadButton::ButtonA => 0,
            JoypadButton::ButtonB => 1,
            JoypadButton::Select => 2,
            JoypadButton::Start => 3,
            JoypadButton::Up => 4,
            JoypadButton::Down => 5,
            JoypadButton::Left => 6,
            JoypadButton::Right => 7,
        }
    }

    /// The button's place in the shift order, 0 to 7.
    pub fn index(&self) -> (r: u8)
        ensures
            r == self.spec_index(),
            r < 8,
    {
        match self {
            JoypadButton::ButtonA => 0,
            JoypadButton::ButtonB => 1,
            JoypadButton::Select => 2,
            JoypadButton::Start => 3,
            JoypadButton::Up => 4,
            JoypadButton::Down => 5,
            JoypadButton::Left => 6,
            JoypadButton::Right => 7,
        }
    }
}

/// One controller port.
#[derive(Clone, Copy, Debug, PartialEq, Eq, Structural)]
pub struct Joypad {
    /// Whether the strobe is high.
    pub strobe: bool,
    /// How many buttons have been shifted out since the strobe went low.
    pub button_index: u8,
    /// The buttons as the outside world holds them now, one bit each.
    pub button_status: u8,
    /// The buttons as they were when the strobe went low.
    pub snapshot: u8,
}

impl Joypad {
    /// A latch with no button pressed and the strobe low.
    pub open spec fn spec_new() -> Joypad {
        Joypad { strobe: false, button_index: 0, button_status: 0, snapshot: 0 }
    }

    /// Bit `index` of `buttons`, as 0 or 1.
    pub open spec fn button_bit(buttons: u8, index: u8) -> u8 {
        (buttons >> index) & 1
    }

    /// The latch after a write of `data` to the port. Bit 0 is the strobe.
    /// While it is high the latch follows the buttons; when it falls the
    /// buttons are frozen and shifting starts at the first.
    pub open spec fn spec_write(self, data: u8) -> Joypad {
        let strobe = data % 2 == 1;
        if strobe || self.strobe {
            Joypad { strobe, button_index: 0, snapshot: self.button_status, ..self }
        } else {
            self
        }
    }

    /// What a read of the port returns: the first button while the strobe is
    /// high, else the next button of the frozen ones, and 1 once all eight
    /// are out.
    pub open spec fn spec_peek(&self) -> u8 {
        if self.strobe {
            self.button_status % 2
        } else if self.button_index > 7 {
            1
        } else {
            Self::button_bit(self.snapshot, self.button_index)
        }
    }

    /// The latch after a read of the port.
    pub open spec fn spec_read(self) -> Joypad {
        if self.strobe {
            Joypad { button_index: 0, snapshot: self.button_status, ..self }
        } else if self.button_index > 7 {
            self
        } else {
            Joypad { button_index: (self.button_index + 1) as u8, ..self }
        }
    }

    /// The latch after a button is pressed or released.
    pub open spec fn spec_set_button(self, button: JoypadButton, pressed: bool) -> Joypad {
        let mask = 1u8 << button.spec_index();
        let buttons = if pressed {
            self.button_status | mask
        } else {
            self.button_status & !mask
        };
        Joypad {
            button_status: buttons,
            snapshot: if self.strobe {
                buttons
            } else {
                self.snapshot
            },
            ..self
        }
    }

    /// A latch with no button pressed and the strobe low.
    pub fn new() -> (r: Self)
        ensures
            r == Self::spec_new(),
    {
        Joypad { strobe: false, button_index: 0, button_status: 0, snapshot: 0 }
    }

    /// One write to the port: bit 0 of `data` is the strobe.
    pub fn write(&mut self, data: u8)
        ensures
            *final(self) == old(self).spec_write(data),
    {
        let was_high = self.strobe;
        self.strobe = data % 2 == 1;
        if self.strobe || was_high {
            self.button_index = 0;
            self.snapshot = self.button_status;
        }
    }

    /// One read of the port: the next button, as 0 or 1.
    pub fn read(&mut self) -> (r: u8)
        ensures
            r == old(self).spec_peek(),
            *final(self) == old(self).spec_read(),
    {
        if self.strobe {
            self.button_index = 0;
            self.snapshot = self.button_status;
            self.button_status % 2
        } else if self.button_index > 7 {
            1
        } else {
            let response = (self.snapshot >> self.button_index) & 1;
            self.button_index = self.button_index + 1;
            response
        }
    }

    /// What a read would return, with the latch left alone.
    pub fn peek(&self) -> (r: u8)
        ensures
            r == self.spec_peek(),
    {
        if self.strobe {
            self.button_status % 2
        } else if self.button_index > 7 {
            1
        } else {
            (self.snapshot >> self.button_index) & 1
        }
    }

    /// Tells the latch that `button` is pressed or released.
    pub fn set_button_pressed_status(&mut self, button: JoypadButton, pressed: bool)
        ensures
            *final(self) == old(self).spec_set_button(button, pressed),
    {
        let mask = 1u8 << button.index();
        if pressed {
            self.button_status = self.button_status | mask;
        } else {
            self.button_status = self.button_status & !mask;
        }
        if self.strobe {
            self.snapshot = self.button_status;
        }
    }
}

} // verus!
