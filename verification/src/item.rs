//! Things in the player's inventory.

use vstd::prelude::*;

verus! {

/// A kind of thing in the inventory, and how many of it the player holds.
#[derive(Clone, Default, Eq, Debug, PartialEq)]
pub struct Item {
    pub name: String,
    pub info_text: String,
    /// The path of the item's picture.
    pub img: String,
    pub amount: i16,
}

/// An item as contracts see it.
pub struct ItemView {
    pub name: Seq<char>,
    pub info_text: Seq<char>,
    pub img: Seq<char>,
    pub amount: int,
}

impl View for Item {
    type V = ItemView;

    open spec fn view(&self) -> ItemView {
        ItemView {
            name: self.name@,
            info_text: self.info_text@,
            img: self.img@,
            amount: self.amount as int,
        }
    }
}

impl Item {
    /// An item with the given name, description, picture and amount.
    pub fn new(name: String, info_text: String, img: String, amount: i16) -> (item: Item)
        ensures
            item@ == (ItemView {
                name: name@,
                info_text: info_text@,
                img: img@,
                amount: amount as int,
            }),
    {
        Item { name, info_text, img, amount }
    }

    /// Adds `amount` to the amount held; a negative `amount` takes away.
    /// The new amount must fit an `i16`.
    pub fn change_amount(&mut self, amount: i16)
        requires
            i16::MIN <= old(self).amount + amount <= i16::MAX,
        ensures
            final(self)@ == (ItemView { amount: old(self).amount + amount, ..old(self)@ }),
    {
        self.amount = self.amount + amount;
    }
}

} // verus!
