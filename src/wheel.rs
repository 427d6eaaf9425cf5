use crate::color::{name_of, Color};
use crate::game::{App, GameState, Phase};
use vstd::prelude::*;

verus! {

/// What one wedge of the wheel shows.
#[derive(Clone, Copy, PartialEq, Eq, Structural, Debug)]
pub struct WedgeView {
    pub color: Color,
    /// The wedge is the one flashing in the playback.
    pub highlighted: bool,
    /// The wedge takes clicks.
    pub interactive: bool,
}

/// The wedges of the wheel, in the order in which they are laid out.
pub open spec fn wheel_order() -> Seq<Color> {
    seq![Color::Green, Color::Red, Color::Yellow, Color::Blue]
}

/// The wedge of colour `c` in state `s`: lit while the pattern is played back
/// and `c` is the colour under the cursor, clickable while the player guesses.
pub open spec fn wedge_of(s: GameState, c: Color) -> WedgeView {
    WedgeView {
        color: c,
        highlighted: s.phase == Phase::Play && s.pattern[s.cursor as int] == c,
        interactive: s.phase == Phase::Guess,
    }
}

impl WedgeView {
    /// The inline style: pointer events pass only to a clickable wedge.
    pub fn style(&self) -> (r: &'static str)
        ensures
            r@ == (if self.interactive {
                "pointer-events:auto;"@
            } else {
                "pointer-events:none;"@
            }),
    {
        if self.interactive {
            "pointer-events:auto;"
        } else {
            "pointer-events:none;"
        }
    }

    /// The style classes: `slice`, the colour's name, and `hover` while lit.
    pub fn class_names(&self) -> (r: Vec<&'static str>)
        ensures
            r@.len() == (if self.highlighted { 3int } else { 2int }),
            r@[0]@ == "slice"@,
            r@[1]@ == name_of(self.color),
            self.highlighted ==> r@[2]@ == "hover"@,
    {
        let mut names: Vec<&'static str> = Vec::new();
        names.push("slice");
        names.push(self.color.name());
        if self.highlighted {
            names.push("hover");
        }
        names
    }
}

impl App {
    /// What the wedge of colour `color` shows.
    pub fn wedge(&self, color: Color) -> (r: WedgeView)
        requires
            self.wf(),
        ensures
            r == wedge_of(self@, color),
    {
        let phase = self.phase();
        let pattern = self.pattern();
        let flashing = pattern[self.cursor()];
        WedgeView {
            color,
            highlighted: phase == Phase::Play && flashing == color,
            interactive: phase == Phase::Guess,
        }
    }

    /// All four wedges, in the order of the wheel.
    pub fn wedges(&self) -> (r: Vec<WedgeView>)
        requires
            self.wf(),
        ensures
            r@.len() == wheel_order().len(),
            forall|i: int| 0 <= i < r@.len() ==> r@[i] == wedge_of(self@, #[trigger] wheel_order()[i]),
    {
        let mut r: Vec<WedgeView> = Vec::new();
        r.push(self.wedge(Color::Green));
        r.push(self.wedge(Color::Red));
        r.push(self.wedge(Color::Yellow));
        r.push(self.wedge(Color::Blue));
        r
    }
}

} // verus!
