//! The keys that the host can be told to listen for.

use vstd::prelude::*;

verus! {

/// A key of the keyboard.
#[derive(Clone, Copy, Debug, PartialEq, Eq, Hash, Structural)]
pub enum InputButton {
    /// The `0` key over the letters.
    Key0,
    /// The `1` key over the letters.
    Key1,
    /// The `2` key over the letters.
    Key2,
    /// The `3` key over the letters.
    Key3,
    /// The `4` key over the letters.
    Key4,
    /// The `5` key over the letters.
    Key5,
    /// The `6` key over the letters.
    Key6,
    /// The `7` key over the letters.
    Key7,
    /// The `8` key over the letters.
    Key8,
    /// The `9` key over the letters.
    Key9,
    /// The letter `A`.
    A,
    /// The letter `B`.
    B,
    /// The letter `C`.
    C,
    /// The letter `D`.
    D,
    /// The letter `E`.
    E,
    /// The letter `F`.
    F,
    /// The letter `G`.
    G,
    /// The letter `H`.
    H,
    /// The letter `I`.
    I,
    /// The letter `J`.
    J,
    /// The letter `K`.
    K,
    /// The letter `L`.
    L,
    /// The letter `M`.
    M,
    /// The letter `N`.
    N,
    /// The letter `O`.
    O,
    /// The letter `P`.
    P,
    /// The letter `Q`.
    Q,
    /// The letter `R`.
    R,
    /// The letter `S`.
    S,
    /// The letter `T`.
    T,
    /// The letter `U`.
    U,
    /// The letter `V`.
    V,
    /// The letter `W`.
    W,
    /// The letter `X`.
    X,
    /// The letter `Y`.
    Y,
    /// The letter `Z`.
    Z,
    /// The first code beyond the printable keys; no key of its own.
    NonPrintable,
    /// The division key of the number pad.
    Divide,
    /// The multiplication key of the number pad.
    Multiply,
    /// The subtraction key of the number pad.
    Subtract,
    /// The addition key of the number pad.
    Plus,
    /// The function key `F1`.
    F1,
    /// The function key `F2`.
    F2,
    /// The function key `F3`.
    F3,
    /// The function key `F4`.
    F4,
    /// The function key `F5`.
    F5,
    /// The function key `F6`.
    F6,
    /// The function key `F7`.
    F7,
    /// The function key `F8`.
    F8,
    /// The function key `F9`.
    F9,
    /// The function key `F10`.
    F10,
    /// The function key `F11`.
    F11,
    /// The function key `F12`.
    F12,
    /// The `Home` key.
    Home,
    /// The `End` key.
    End,
    /// The `Insert` key.
    Insert,
    /// The `Delete` key.
    Delete,
    /// The `Page Up` key.
    PageUp,
    /// The `Page Down` key.
    PageDn,
    /// The backspace key.
    Backspace,
    /// The tabulator key.
    Tab,
    /// The `Print Screen` key.
    PrtScrn,
    /// The `Pause` key.
    Pause,
    /// The code behind the last key; no key of its own.
    Max,
}

/// The code that the host knows a key by: the ASCII code of a digit or of a
/// capital letter, and a number from `0x100` on for the other keys.
pub open spec fn button_code(button: InputButton) -> u32 {
    match button {
        InputButton::Key0 => 0x30,
        InputButton::Key1 => 0x31,
        InputButton::Key2 => 0x32,
        InputButton::Key3 => 0x33,
        InputButton::Key4 => 0x34,
        InputButton::Key5 => 0x35,
        InputButton::Key6 => 0x36,
        InputButton::Key7 => 0x37,
        InputButton::Key8 => 0x38,
        InputButton::Key9 => 0x39,
        InputButton::A => 0x41,
        InputButton::B => 0x42,
        InputButton::C => 0x43,
        InputButton::D => 0x44,
        InputButton::E => 0x45,
        InputButton::F => 0x46,
        InputButton::G => 0x47,
        InputButton::H => 0x48,
        InputButton::I => 0x49,
        InputButton::J => 0x4a,
        InputButton::K => 0x4b,
        InputButton::L => 0x4c,
        InputButton::M => 0x4d,
        InputButton::N => 0x4e,
        InputButton::O => 0x4f,
        InputButton::P => 0x50,
        InputButton::Q => 0x51,
        InputButton::R => 0x52,
        InputButton::S => 0x53,
        InputButton::T => 0x54,
        InputButton::U => 0x55,
        InputButton::V => 0x56,
        InputButton::W => 0x57,
        InputButton::X => 0x58,
        InputButton::Y => 0x59,
        InputButton::Z => 0x5a,
        InputButton::NonPrintable => 0x100,
        InputButton::Divide => 0x101,
        InputButton::Multiply => 0x102,
        InputButton::Subtract => 0x103,
        InputButton::Plus => 0x104,
        InputButton::F1 => 0x105,
        InputButton::F2 => 0x106,
        InputButton::F3 => 0x107,
        InputButton::F4 => 0x108,
        InputButton::F5 => 0x109,
        InputButton::F6 => 0x10a,
        InputButton::F7 => 0x10b,
        InputButton::F8 => 0x10c,
        InputButton::F9 => 0x10d,
        InputButton::F10 => 0x10e,
        InputButton::F11 => 0x10f,
        InputButton::F12 => 0x110,
        InputButton::Home => 0x111,
        InputButton::End => 0x112,
        InputButton::Insert => 0x113,
        InputButton::Delete => 0x114,
        InputButton::PageUp => 0x115,
        InputButton::PageDn => 0x116,
        InputButton::Backspace => 0x117,
        InputButton::Tab => 0x118,
        InputButton::PrtScrn => 0x119,
        InputButton::Pause => 0x11a,
        InputButton::Max => 0x11b,
    }
}

impl InputButton {
    /// The code that the host knows the key by.
    pub fn code(self) -> (code: u32)
        ensures
            code == button_code(self),
    {
        match self {
            InputButton::Key0 => 0x30,
            InputButton::Key1 => 0x31,
            InputButton::Key2 => 0x32,
            InputButton::Key3 => 0x33,
            InputButton::Key4 => 0x34,
            InputButton::Key5 => 0x35,
            InputButton::Key6 => 0x36,
            InputButton::Key7 => 0x37,
            InputButton::Key8 => 0x38,
            InputButton::Key9 => 0x39,
            InputButton::A => 0x41,
            InputButton::B => 0x42,
            InputButton::C => 0x43,
            InputButton::D => 0x44,
            InputButton::E => 0x45,
            InputButton::F => 0x46,
            InputButton::G => 0x47,
            InputButton::H => 0x48,
            InputButton::I => 0x49,
            InputButton::J => 0x4a,
            InputButton::K => 0x4b,
            InputButton::L => 0x4c,
            InputButton::M => 0x4d,
            InputButton::N => 0x4e,
            InputButton::O => 0x4f,
            InputButton::P => 0x50,
            InputButton::Q => 0x51,
            InputButton::R => 0x52,
            InputButton::S => 0x53,
            InputButton::T => 0x54,
            InputButton::U => 0x55,
            InputButton::V => 0x56,
            InputButton::W => 0x57,
            InputButton::X => 0x58,
            InputButton::Y => 0x59,
            InputButton::Z => 0x5a,
            InputButton::NonPrintable => 0x100,
            InputButton::Divide => 0x101,
            InputButton::Multiply => 0x102,
            InputButton::Subtract => 0x103,
            InputButton::Plus => 0x104,
            InputButton::F1 => 0x105,
            InputButton::F2 => 0x106,
            InputButton::F3 => 0x107,
            InputButton::F4 => 0x108,
            InputButton::F5 => 0x109,
            InputButton::F6 => 0x10a,
            InputButton::F7 => 0x10b,
            InputButton::F8 => 0x10c,
            InputButton::F9 => 0x10d,
            InputButton::F10 => 0x10e,
            InputButton::F11 => 0x10f,
            InputButton::F12 => 0x110,
            InputButton::Home => 0x111,
            InputButton::End => 0x112,
            InputButton::Insert => 0x113,
            InputButton::Delete => 0x114,
            InputButton::PageUp => 0x115,
            InputButton::PageDn => 0x116,
            InputButton::Backspace => 0x117,
            InputButton::Tab => 0x118,
            InputButton::PrtScrn => 0x119,
            InputButton::Pause => 0x11a,
            InputButton::Max => 0x11b,
        }
    }
}

/// No two keys share a code.
pub proof fn lemma_button_codes_differ(a: InputButton, b: InputButton)
    requires
        button_code(a) == button_code(b),
    ensures
        a == b,
{
}

/// Something that holds zero or more keys.
pub trait AsInputButtons {
    /// The keys, in order.
    spec fn buttons(&self) -> Seq<InputButton>;

    /// The codes of the keys, in order, as the host takes them.
    fn codes(&self) -> (codes: Vec<u32>)
        ensures
            codes@ == self.buttons().map_values(|button: InputButton| button_code(button)),
    ;
}

impl AsInputButtons for InputButton {
    open spec fn buttons(&self) -> Seq<InputButton> {
        seq![*self]
    }

    fn codes(&self) -> (codes: Vec<u32>) {
        let mut codes: Vec<u32> = Vec::new();
        codes.push(self.code());
        assert(codes@ == self.buttons().map_values(|button: InputButton| button_code(button)));
        codes
    }
}

impl AsInputButtons for Option<InputButton> {
    open spec fn buttons(&self) -> Seq<InputButton> {
        match *self {
            Some(button) => seq![button],
            None => Seq::empty(),
        }
    }

    fn codes(&self) -> (codes: Vec<u32>) {
        let mut codes: Vec<u32> = Vec::new();
        if let Some(button) = self {
            codes.push(button.code());
        }
        assert(codes@ == self.buttons().map_values(|button: InputButton| button_code(button)));
        codes
    }
}

impl<I: AsInputButtons> AsInputButtons for &I {
    open spec fn buttons(&self) -> Seq<InputButton> {
        (**self).buttons()
    }

    fn codes(&self) -> (codes: Vec<u32>) {
        (**self).codes()
    }
}

impl AsInputButtons for [InputButton] {
    open spec fn buttons(&self) -> Seq<InputButton> {
        self@
    }

    fn codes(&self) -> (codes: Vec<u32>) {
        let mut codes: Vec<u32> = Vec::new();
        let mut i: usize = 0;
        while i < self.len()
            invariant
                i <= self.len(),
                codes@ == self@.take(i as int).map_values(
                    |button: InputButton| button_code(button),
                ),
            decreases self.len() - i,
        {
            codes.push(self[i].code());
            assert(self@.take(i + 1) == self@.take(i as int).push(self@[i as int]));
            i += 1;
        }
        assert(self@.take(self.len() as int) == self@);
        codes
    }
}

impl<const N: usize> AsInputButtons for [InputButton; N] {
    open spec fn buttons(&self) -> Seq<InputButton> {
        self@
    }

    fn codes(&self) -> (codes: Vec<u32>) {
        self.as_slice().codes()
    }
}

impl AsInputButtons for Vec<InputButton> {
    open spec fn buttons(&self) -> Seq<InputButton> {
        self@
    }

    fn codes(&self) -> (codes: Vec<u32>) {
        self.as_slice().codes()
    }
}

} // verus!
