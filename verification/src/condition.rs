use vstd::prelude::*;
use crate::context::{EffectContext, EffectTarget};
use crate::world::{SystemError, SystemResult, World};

verus! {

#[derive(Debug, Clone, Copy, PartialEq, Eq, Structural)]
pub enum Condition {
    /// The effect is aimed at a unit, not at a bare position.
    TargetIsUnit,
}

impl Condition {
    pub open spec fn spec_evaluate(&self, context: &EffectContext) -> bool {
        match self {
            Condition::TargetIsUnit => context.target matches Some(EffectTarget::Unit(_)),
        }
    }

    /// Whether the condition holds of the context. Never fails.
    pub fn evaluate(&self, world: &World, context: &EffectContext) -> (r: SystemResult<bool>)
        ensures
            r == Ok::<bool, SystemError>(self.spec_evaluate(context)),
    {
        match self {
            Condition::TargetIsUnit => match context.target {
                Some(EffectTarget::Unit(_)) => Ok(true),
                _ => Ok(false),
            },
        }
    }
}

} // verus!
