//! Pointer buttons.

use vstd::prelude::*;

verus! {

/// Input keycode for a button on a mouse.
#[derive(Debug, Copy, Clone, PartialEq, Eq, Structural)]
pub enum Btn {
    /// Left or Primary click
    Left,
    /// Middle click or Scroll click
    Middle,
    /// Right Click
    Right,
    /// Back Button
    Back,
    /// Next Button
    Next,
    /// DPI Button
    Dpi,
    /// Extra Mouse Button
    Extra,
}

impl Btn {
    /// The number that identifies a button.
    pub open spec fn spec_code(self) -> u8 {
        match self {
            Btn::Left => 0,
            Btn::Middle => 1,
            Btn::Right => 2,
            Btn::Back => 3,
            Btn::Next => 4,
            Btn::Dpi => 5,
            Btn::Extra => 6,
        }
    }

    /// The stable small number of this button.
    #[verifier::when_used_as_spec(spec_code)]
    pub fn code(self) -> (c: u8)
        ensures
            c == self.spec_code(),
            c < 7,
    {
        match self {
            Btn::Left => 0,
            Btn::Middle => 1,
            Btn::Right => 2,
            Btn::Back => 3,
            Btn::Next => 4,
            Btn::Dpi => 5,
            Btn::Extra => 6,
        }
    }

    /// Two buttons with one number are one button.
    pub proof fn lemma_code_injective(a: Btn, b: Btn)
        requires
            a.spec_code() == b.spec_code(),
        ensures
            a == b,
    {
    }
}

} // verus!
