//! The three life-support resources and their component-wise arithmetic.

use crate::deathscreen::DeathReason;
use std::ops::{Add, Sub};
use vstd::prelude::*;
use vstd::std_specs::ops::{AddSpec, SubSpec};

verus! {

/// Oxygen, energy and life, either as levels (`u16`) or as a signed rate of
/// change (`i16`).
#[derive(Copy, Default, Clone, Debug, PartialEq, Eq)]
pub struct Resources<T: PartialOrd> {
    pub oxygen: T,
    pub energy: T,
    pub life: T,
}

/// `a + b` adds component by component. The sum is defined wherever the
/// element type's own `+` is defined on all three pairs; for the built-in
/// integers that means that no component overflows.
impl<T: Add<Output = T> + PartialOrd> vstd::std_specs::ops::AddSpecImpl for Resources<T> {
    open spec fn obeys_add_spec() -> bool {
        T::obeys_add_spec()
    }

    open spec fn add_req(self, rhs: Self) -> bool {
        &&& self.oxygen.add_req(rhs.oxygen)
        &&& self.energy.add_req(rhs.energy)
        &&& self.life.add_req(rhs.life)
    }

    open spec fn add_spec(self, rhs: Self) -> Self {
        Resources {
            oxygen: self.oxygen.add_spec(rhs.oxygen),
            energy: self.energy.add_spec(rhs.energy),
            life: self.life.add_spec(rhs.life),
        }
    }
}

impl<T: Add<Output = T> + PartialOrd> Add for Resources<T> {
    type Output = Self;

    fn add(self, rhs: Self) -> Self {
        Self {
            oxygen: self.oxygen + rhs.oxygen,
            energy: self.energy + rhs.energy,
            life: self.life + rhs.life,
        }
    }
}

/// `a - b` subtracts component by component, under the same condition as
/// the sum.
impl<T: Sub<Output = T> + PartialOrd> vstd::std_specs::ops::SubSpecImpl for Resources<T> {
    open spec fn obeys_sub_spec() -> bool {
        T::obeys_sub_spec()
    }

    open spec fn sub_req(self, rhs: Self) -> bool {
        &&& self.oxygen.sub_req(rhs.oxygen)
        &&& self.energy.sub_req(rhs.energy)
        &&& self.life.sub_req(rhs.life)
    }

    open spec fn sub_spec(self, rhs: Self) -> Self {
        Resources {
            oxygen: self.oxygen.sub_spec(rhs.oxygen),
            energy: self.energy.sub_spec(rhs.energy),
            life: self.life.sub_spec(rhs.life),
        }
    }
}

impl<T: Sub<Output = T> + PartialOrd> Sub for Resources<T> {
    type Output = Self;

    fn sub(self, rhs: Self) -> Self {
        Self {
            oxygen: self.oxygen - rhs.oxygen,
            energy: self.energy - rhs.energy,
            life: self.life - rhs.life,
        }
    }
}

impl<T: PartialOrd> Resources<T> {
    /// The three components in the order oxygen, energy, life.
    pub open spec fn components(self) -> Seq<T> {
        seq![self.oxygen, self.energy, self.life]
    }

    /// Hands the components out one by one: oxygen, energy, life.
    pub fn into_iter(self) -> (iter: ResourcesIter<T>)
        ensures
            iter@ == self.components(),
    {
        let mut rest: Vec<T> = Vec::new();
        rest.push(self.life);
        rest.push(self.energy);
        rest.push(self.oxygen);
        assert(rest@.reverse() =~= self.components());
        ResourcesIter { rest }
    }
}

impl Resources<i16> {
    /// Whether `self + rhs` stays within `i16` in every component.
    pub fn can_add(self, rhs: Self) -> (fits: bool)
        ensures
            fits == self.add_req(rhs),
    {
        self.oxygen.checked_add(rhs.oxygen).is_some() && self.energy.checked_add(
            rhs.energy,
        ).is_some() && self.life.checked_add(rhs.life).is_some()
    }

    /// Whether `self - rhs` stays within `i16` in every component.
    pub fn can_sub(self, rhs: Self) -> (fits: bool)
        ensures
            fits == self.sub_req(rhs),
    {
        self.oxygen.checked_sub(rhs.oxygen).is_some() && self.energy.checked_sub(
            rhs.energy,
        ).is_some() && self.life.checked_sub(rhs.life).is_some()
    }
}

impl Resources<u16> {
    /// Reads oxygen, energy and life from the first three values.
    pub fn from_values(values: &[u16]) -> (resources: Self)
        requires
            values@.len() >= 3,
        ensures
            resources.oxygen == values@[0],
            resources.energy == values@[1],
            resources.life == values@[2],
    {
        Self { oxygen: values[0], energy: values[1], life: values[2] }
    }

    /// What a player with these levels has died of, if anything: both
    /// resources when oxygen and energy are exhausted together, else the one
    /// that is exhausted.
    pub open spec fn death_reason(self) -> Option<DeathReason> {
        if self.oxygen == 0 && self.energy == 0 {
            Some(DeathReason::Both)
        } else if self.oxygen == 0 {
            Some(DeathReason::Oxygen)
        } else if self.energy == 0 {
            Some(DeathReason::Energy)
        } else {
            None
        }
    }

    /// Derives the cause of death from the current levels.
    pub fn get_death_reason(self) -> (reason: Option<DeathReason>)
        ensures
            reason == self.death_reason(),
    {
        if self.oxygen == 0 && self.energy == 0 {
            Some(DeathReason::Both)
        } else if self.oxygen == 0 {
            Some(DeathReason::Oxygen)
        } else if self.energy == 0 {
            Some(DeathReason::Energy)
        } else {
            None
        }
    }
}

/// The components of a [`Resources`] that have not been handed out yet.
pub struct ResourcesIter<T> {
    /// What is left, the next item last.
    rest: Vec<T>,
}

impl<T> View for ResourcesIter<T> {
    type V = Seq<T>;

    /// The items still to come, the next one first.
    closed spec fn view(&self) -> Seq<T> {
        self.rest@.reverse()
    }
}

impl<T> ResourcesIter<T> {
    /// Hands out the next component, or `None` once all three are gone.
    pub fn next(&mut self) -> (item: Option<T>)
        ensures
            old(self)@.len() == 0 ==> item is None && final(self)@ == old(self)@,
            old(self)@.len() > 0 ==> item == Some(old(self)@[0]) && final(self)@ == old(
                self,
            )@.skip(1),
    {
        let item = self.rest.pop();
        assert(item is Some ==> self.rest@.reverse() =~= old(self).rest@.reverse().skip(1));
        item
    }
}

} // verus!
