use vstd::prelude::*;

verus! {

/// Pressed-state of the two buttons that may trigger a flap, sampled once per
/// tick by the host input source.
#[derive(Clone, Copy, Debug, PartialEq, Eq, Structural)]
pub struct Buttons {
    pub left: bool,
    pub right: bool,
}

impl Default for Buttons {
    /// Before the first sample nothing is pressed, so the first genuine press
    /// still reads as a rising edge.
    fn default() -> (r: Self)
        ensures
            r == (Buttons { left: false, right: false }),
    {
        Buttons { left: false, right: false }
    }
}

/// A rising edge: pressed now and not pressed on the previous sample. A
/// button that merely stays held never edges.
pub open spec fn edge(was: bool, now: bool) -> bool {
    now && !was
}

/// The flap signal for one tick: true iff either button saw a rising edge
/// between the previous sample and this one.
pub open spec fn flap_edge(prev: Buttons, now: Buttons) -> bool {
    edge(prev.left, now.left) || edge(prev.right, now.right)
}

/// Edge detection for one button.
pub fn just_pressed(was: bool, now: bool) -> (r: bool)
    ensures
        r == edge(was, now),
{
    now && !was
}

/// Derives the one-tick flap signal from two consecutive button samples.
pub fn flap_signal(prev: Buttons, now: Buttons) -> (r: bool)
    ensures
        r == flap_edge(prev, now),
{
    just_pressed(prev.left, now.left) || just_pressed(prev.right, now.right)
}

} // verus!
