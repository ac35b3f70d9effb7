use vstd::prelude::*;
use crate::action_effect::{ActionAim, ActionEffect};
use crate::effect::{Effect, EffectDamage, EffectProjectile};
use crate::health::Hp;
use crate::projectile::ProjectilePrefab;
use crate::target::FractionFilter;
use crate::vec2::FCoord;

verus! {

#[derive(Debug, Clone, PartialEq, Eq)]
pub struct HeldItems {
    pub left_hand: Option<Item>,
    pub right_hand: Option<Item>,
}

#[derive(Debug, Clone, PartialEq, Eq)]
pub struct Item {
    pub on_use: ActionEffect,
}

pub type ItemId = HandId;

#[derive(Debug, Clone, Copy, PartialEq, Eq, Structural)]
pub enum HandId {
    LeftHand,
    RightHand,
}

impl Default for HeldItems {
    /// Two empty hands.
    fn default() -> (r: Self)
        ensures
            r == (HeldItems { left_hand: None, right_hand: None }),
    {
        Self { left_hand: None, right_hand: None }
    }
}

impl HeldItems {
    pub open spec fn spec_get_item(&self, id: ItemId) -> Option<Item> {
        match id {
            HandId::LeftHand => self.left_hand,
            HandId::RightHand => self.right_hand,
        }
    }

    /// The item in the left hand, or else the one in the right hand.
    pub fn get_any_item(&self) -> (r: Option<&Item>)
        ensures
            match r {
                Some(item) => Some(*item) == if self.left_hand is Some {
                    self.left_hand
                } else {
                    self.right_hand
                },
                None => self.left_hand is None && self.right_hand is None,
            },
    {
        match &self.left_hand {
            Some(item) => Some(item),
            None => self.right_hand.as_ref(),
        }
    }

    pub fn get_item(&self, id: ItemId) -> (r: Option<&Item>)
        ensures
            match r {
                Some(item) => self.spec_get_item(id) == Some(*item),
                None => self.spec_get_item(id) is None,
            },
    {
        match id {
            HandId::LeftHand => self.left_hand.as_ref(),
            HandId::RightHand => self.right_hand.as_ref(),
        }
    }

    /// The item in the hand `id`, to be changed in place; the other hand stays as it is.
    pub fn get_item_mut(&mut self, id: ItemId) -> (r: Option<&mut Item>)
        ensures
            match r {
                Some(item) => old(self).spec_get_item(id) == Some(*item)
                    && final(self).spec_get_item(id) == Some(*final(item)),
                None => old(self).spec_get_item(id) is None
                    && final(self).spec_get_item(id) is None,
            },
            match id {
                HandId::LeftHand => final(self).right_hand == old(self).right_hand,
                HandId::RightHand => final(self).left_hand == old(self).left_hand,
            },
    {
        match id {
            HandId::LeftHand => self.left_hand.as_mut(),
            HandId::RightHand => self.right_hand.as_mut(),
        }
    }

    /// The hand `id`, to be filled or emptied in place; the other hand stays as it is.
    pub fn get_hand_mut(&mut self, id: HandId) -> (r: &mut Option<Item>)
        ensures
            *r == old(self).spec_get_item(id),
            final(self).spec_get_item(id) == *final(r),
            match id {
                HandId::LeftHand => final(self).right_hand == old(self).right_hand,
                HandId::RightHand => final(self).left_hand == old(self).left_hand,
            },
    {
        match id {
            HandId::LeftHand => &mut self.left_hand,
            HandId::RightHand => &mut self.right_hand,
        }
    }

    /// Puts `item` into the hand `id`, and returns what the hand held.
    pub fn set_hand(&mut self, id: HandId, item: Option<Item>) -> (r: Option<Item>)
        ensures
            r == old(self).spec_get_item(id),
            final(self).spec_get_item(id) == item,
            match id {
                HandId::LeftHand => final(self).right_hand == old(self).right_hand,
                HandId::RightHand => final(self).left_hand == old(self).left_hand,
            },
    {
        match id {
            HandId::LeftHand => {
                let mut hand = item;
                std::mem::swap(&mut self.left_hand, &mut hand);
                hand
            },
            HandId::RightHand => {
                let mut hand = item;
                std::mem::swap(&mut self.right_hand, &mut hand);
                hand
            },
        }
    }
}

impl Item {
    /// A weapon for the next cell: `damage` hit points to the unit it is used on.
    pub open spec fn spec_sword(damage: Hp) -> Item {
        Item {
            on_use: ActionEffect {
                aim: ActionAim::InRange { distance: 1 },
                effect: Effect::Damage(Box::new(EffectDamage { value: damage })),
            },
        }
    }

    /// A weapon with a range of five cells: a projectile of the given speed that does
    /// `damage` hit points to the enemy it touches.
    pub open spec fn spec_bow(damage: Hp, speed: FCoord) -> Item {
        Item {
            on_use: ActionEffect {
                aim: ActionAim::InRange { distance: 5 },
                effect: Effect::Projectile(
                    Box::new(
                        EffectProjectile {
                            projectile: ProjectilePrefab {
                                target_filter: FractionFilter::Enemy,
                                on_contact: Effect::Damage(Box::new(EffectDamage { value: damage })),
                            },
                            speed,
                        },
                    ),
                ),
            },
        }
    }

    pub fn sword(damage: Hp) -> (r: Self)
        ensures
            r == Item::spec_sword(damage),
    {
        Self {
            on_use: ActionEffect {
                aim: ActionAim::InRange { distance: 1 },
                effect: Effect::Damage(Box::new(EffectDamage { value: damage })),
            },
        }
    }

    pub fn bow(damage: Hp, speed: FCoord) -> (r: Self)
        ensures
            r == Item::spec_bow(damage, speed),
    {
        Self {
            on_use: ActionEffect {
                aim: ActionAim::InRange { distance: 5 },
                effect: Effect::Projectile(
                    Box::new(
                        EffectProjectile {
                            projectile: ProjectilePrefab {
                                target_filter: FractionFilter::Enemy,
                                on_contact: Effect::Damage(Box::new(EffectDamage { value: damage })),
                            },
                            speed,
                        },
                    ),
                ),
            },
        }
    }
}

} // verus!
