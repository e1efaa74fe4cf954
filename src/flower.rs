//! The three flower classes and their one-hot target vectors.
use vstd::prelude::*;

verus! {

/// Number of classes, and so the width of every target vector.
pub const CLASS_COUNT: usize = 3;

/// The class of a flower, as named in the last column of the dataset.
#[derive(Clone, Copy, Debug, PartialEq, Eq, Structural)]
pub enum FlowerClass {
    Setosa,
    Versicolor,
    Virginica,
}

/// Position of the single 1 in the target vector of a class.
pub open spec fn hot_position(class: FlowerClass) -> int {
    match class {
        FlowerClass::Setosa => 2,
        FlowerClass::Versicolor => 1,
        FlowerClass::Virginica => 0,
    }
}

/// The target vector of a class: one 1 at its position, 0 elsewhere.
pub open spec fn one_hot(class: FlowerClass) -> Seq<u8> {
    Seq::new(CLASS_COUNT as nat, |i: int| if i == hot_position(class) { 1u8 } else { 0u8 })
}

/// The one-hot target vector that a training sample of this class expects.
pub fn get_flower_class(class: FlowerClass) -> (r: Vec<u8>)
    ensures
        r@ == one_hot(class),
{
    let r = match class {
        FlowerClass::Setosa => vec![0u8, 0u8, 1u8],
        FlowerClass::Versicolor => vec![0u8, 1u8, 0u8],
        FlowerClass::Virginica => vec![1u8, 0u8, 0u8],
    };
    assert(r@ =~= one_hot(class));
    r
}

} // verus!
