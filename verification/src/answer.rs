use vstd::prelude::*;

verus! {

/// The operator's answer to a yes/no question, in the order of the menu.
#[derive(Debug, Clone, Copy, PartialEq, Eq, Structural)]
pub enum Answer {
    No,
    Yes,
}

impl Answer {
    /// The answer that stands at place `index` of the menu: "no" first, "yes" second.
    pub open spec fn at(index: int) -> Answer {
        if index == 0 {
            Answer::No
        } else {
            Answer::Yes
        }
    }

    /// The answer that the operator picked from the menu of two.
    pub fn from(choice: usize) -> (answer: Answer)
        requires
            choice <= 1,
        ensures
            answer == Answer::at(choice as int),
    {
        if choice == 0 {
            Answer::No
        } else {
            Answer::Yes
        }
    }

    /// Whether the operator said yes.
    pub fn approves(&self) -> (yes: bool)
        ensures
            yes == (*self == Answer::Yes),
    {
        match self {
            Answer::Yes => true,
            Answer::No => false,
        }
    }
}

/// The place of the menu that a question preselects: the one asked for, or "no" where the
/// menu has no such place.
pub fn preselected(selected: usize) -> (place: usize)
    ensures
        place == if selected > 1 {
            0
        } else {
            selected
        },
        place <= 1,
{
    if selected > 1 {
        0
    } else {
        selected
    }
}

} // verus!
