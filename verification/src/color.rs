use vstd::prelude::*;

verus! {

/// An RGBA color. Each channel is an intensity in thousandths, so `0`
/// stands for a dark channel and `1000` for a fully lit one; the front
/// end divides by a thousand before handing the value to the driver.
#[derive(Clone, Copy, Debug, PartialEq, Eq, Structural)]
pub struct Color {
    pub red: u16,
    pub green: u16,
    pub blue: u16,
    pub alpha: u16,
}

impl Color {
    /// Every channel stays within one whole intensity.
    pub open spec fn well_formed(self) -> bool {
        self.red <= 1000 && self.green <= 1000 && self.blue <= 1000 && self.alpha <= 1000
    }

    /// Builds a color, rejecting any channel above one whole intensity.
    pub fn new(red: u16, green: u16, blue: u16, alpha: u16) -> (c: Option<Color>)
        ensures
            c is Some <==> (red <= 1000 && green <= 1000 && blue <= 1000 && alpha <= 1000),
            c is Some ==> c->0 == (Color { red, green, blue, alpha }) && c->0.well_formed(),
    {
        if red <= 1000 && green <= 1000 && blue <= 1000 && alpha <= 1000 {
            Some(Color { red, green, blue, alpha })
        } else {
            None
        }
    }
}

/// The dark blue that the window clears its framebuffer with on every frame.
pub fn dark_blue() -> (c: Color)
    ensures
        c == (Color { red: 100, green: 200, blue: 300, alpha: 400 }),
        c.well_formed(),
{
    Color { red: 100, green: 200, blue: 300, alpha: 400 }
}

} // verus!
