use rand::Rng;
use vstd::prelude::*;

verus! {

/// The colour of one wedge of the wheel.
#[derive(Clone, Copy, PartialEq, Eq, Structural, Debug)]
pub enum Color {
    Red,
    Blue,
    Yellow,
    Green,
}

/// The number of colours, less one: a colour is drawn by its index in `0..=MAX_COLOR_INDEX`.
pub const MAX_COLOR_INDEX: u8 = 3;

/// The colour with index `n`; every index past the last names `Green`.
pub open spec fn color_of_index(n: int) -> Color {
    if n == 0 {
        Color::Red
    } else if n == 1 {
        Color::Blue
    } else if n == 2 {
        Color::Yellow
    } else {
        Color::Green
    }
}

/// The lower-case name of a colour, as the wheel's style sheet knows it.
pub open spec fn name_of(c: Color) -> Seq<char> {
    match c {
        Color::Red => "red"@,
        Color::Blue => "blue"@,
        Color::Yellow => "yellow"@,
        Color::Green => "green"@,
    }
}

/// Relies on rand's `thread_rng` and `Rng::gen_range`: on an inclusive range,
/// which is never empty here, the value drawn lies inside it.
#[verifier::external_body]
fn random_up_to(max: u8) -> (r: u8)
    ensures
        r <= max,
{
    rand::thread_rng().gen_range(0..=max)
}

impl Color {
    /// The colour with index `n`, `Green` for every index past the last.
    pub fn from_index(n: u8) -> (r: Color)
        ensures
            r == color_of_index(n as int),
    {
        match n {
            0 => Color::Red,
            1 => Color::Blue,
            2 => Color::Yellow,
            _ => Color::Green,
        }
    }

    /// A colour drawn uniformly at random from the four.
    pub fn random() -> Color {
        let n = random_up_to(MAX_COLOR_INDEX);
        Color::from_index(n)
    }

    /// The colour's name, used as its wedge's style class.
    pub fn name(&self) -> (r: &'static str)
        ensures
            r@ == name_of(*self),
    {
        match self {
            Color::Red => "red",
            Color::Blue => "blue",
            Color::Yellow => "yellow",
            Color::Green => "green",
        }
    }
}

} // verus!
