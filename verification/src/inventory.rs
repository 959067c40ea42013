//! A shirt giveaway: each customer gets the colour they prefer, or the
//! colour the shop has most of.

use vstd::prelude::*;

verus! {

/// The colour of a shirt.
#[derive(Debug, PartialEq, Eq, Copy, Clone, Structural)]
pub enum ShirtColor {
    Red,
    Blue,
}

/// The shirts in stock.
pub struct Inventory {
    pub shirts: Vec<ShirtColor>,
}

/// How many of `shirts` have the colour `color`.
pub open spec fn count_of(shirts: Seq<ShirtColor>, color: ShirtColor) -> nat
    decreases shirts.len(),
{
    if shirts.len() == 0 {
        0
    } else {
        count_of(shirts.drop_last(), color) + if shirts.last() == color {
            1nat
        } else {
            0nat
        }
    }
}

/// The colour that `shirts` has most of; blue where neither leads.
pub open spec fn leading_color(shirts: Seq<ShirtColor>) -> ShirtColor {
    if count_of(shirts, ShirtColor::Red) > count_of(shirts, ShirtColor::Blue) {
        ShirtColor::Red
    } else {
        ShirtColor::Blue
    }
}

impl Inventory {
    /// The colour given to a customer: the preferred one, or the one the
    /// shop has most of for a customer without a preference.
    pub fn giveaway(&self, user_preference: Option<ShirtColor>) -> (color: ShirtColor)
        ensures
            color == match user_preference {
                Some(preferred) => preferred,
                None => leading_color(self.shirts@),
            },
    {
        match user_preference {
            Some(preferred) => preferred,
            None => self.most_stocked(),
        }
    }

    /// The colour the shop has most of; blue where neither leads.
    pub fn most_stocked(&self) -> (color: ShirtColor)
        ensures
            color == leading_color(self.shirts@),
    {
        let mut num_red: usize = 0;
        let mut num_blue: usize = 0;
        let mut i: usize = 0;
        while i < self.shirts.len()
            invariant
                i <= self.shirts@.len(),
                num_red == count_of(self.shirts@.take(i as int), ShirtColor::Red),
                num_blue == count_of(self.shirts@.take(i as int), ShirtColor::Blue),
                num_red + num_blue == i,
            decreases self.shirts@.len() - i,
        {
            assert(self.shirts@.take(i + 1).drop_last() =~= self.shirts@.take(i as int));
            match self.shirts[i] {
                ShirtColor::Red => num_red += 1,
                ShirtColor::Blue => num_blue += 1,
            };
            i += 1;
        }
        assert(self.shirts@.take(i as int) =~= self.shirts@);
        if num_red > num_blue {
            ShirtColor::Red
        } else {
            ShirtColor::Blue
        }
    }
}

} // verus!
