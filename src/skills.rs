//! The shape of the skills listing that the page shows beside the backdrop.
use vstd::prelude::*;

verus! {

/// One skill: its name and the level claimed for it.
pub type SkillItem = (&'static str, &'static str);

/// A titled group of skills.
#[derive(Clone, Copy)]
pub struct SkillGroup {
    pub title: &'static str,
    pub subtitle: &'static str,
    pub items: &'static [SkillItem],
}

} // verus!
