//! Ability scores, their temporary modifiers, the rules that blend them,
//! and the segment selection of the skill-effect curves.

pub mod ability;
pub mod text;
pub mod model;
pub mod curve;
