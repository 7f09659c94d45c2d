//! Keyboard control of how many model instances are drawn.
use vstd::prelude::*;

verus! {

/// The most model instances drawn at once.
pub const MAX_MODELS: usize = 4;

/// The keys that change the number of instances.
#[derive(Clone, Copy, Debug, PartialEq, Eq, Structural)]
pub enum Key {
    Left,
    Right,
    Other,
}

pub open spec fn adjusted_model_count(models: usize, key: Key) -> usize {
    match key {
        Key::Left => if models > 1 { (models - 1) as usize } else { models },
        Key::Right => if models < MAX_MODELS { (models + 1) as usize } else { models },
        Key::Other => models,
    }
}

/// Left removes an instance down to one, right adds one up to the maximum,
/// any other key changes nothing.
pub fn adjust_model_count(models: usize, key: Key) -> (r: usize)
    ensures
        r == adjusted_model_count(models, key),
{
    match key {
        Key::Left => if models > 1 { models - 1 } else { models },
        Key::Right => if models < MAX_MODELS { models + 1 } else { models },
        Key::Other => models,
    }
}

} // verus!
