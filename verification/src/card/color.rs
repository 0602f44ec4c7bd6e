use vstd::prelude::*;
use vstd::std_specs::iter::IteratorSpec;

verus! {

/// The color of a joker.
#[derive(Debug, Clone, Copy, PartialEq, Eq, Structural)]
pub enum Color {
    Red,
    Black,
    White,
}

impl Color {
    /// Every color once, in the order of their declaration.
    pub open spec fn all() -> Seq<Color> {
        seq![Color::Red, Color::Black, Color::White]
    }

    /// The English name of the color, capitalized.
    pub open spec fn name(&self) -> Seq<char> {
        match self {
            Color::Red => "Red"@,
            Color::Black => "Black"@,
            Color::White => "White"@,
        }
    }

    /// The English name of the color, capitalized.
    pub fn to_str(&self) -> (name: &'static str)
        ensures
            name@ == self.name(),
    {
        match self {
            Color::Red => "Red",
            Color::Black => "Black",
            Color::White => "White",
        }
    }

    /// Goes through every color once, in the order of their declaration.
    pub fn iterator() -> (iter: std::vec::IntoIter<Color>)
        ensures
            iter.remaining() == Color::all(),
            iter.initial_value_relation(&iter),
            iter.decrease() is Some,
    {
        let colors: Vec<Color> = vec![Color::Red, Color::Black, Color::White];
        colors.into_iter()
    }
}

} // verus!
