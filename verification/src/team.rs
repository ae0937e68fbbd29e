//! The rules that a team applies to its members.
use vstd::prelude::*;

verus! {

/// To whom a team member's name tag or death message is visible.
#[derive(Debug, Copy, Clone, PartialEq, Eq, Structural)]
pub enum TeamVisibility {
    Always,
    Never,
    HideForOtherTeams,
    HideForOwnTeam,
}

/// With whom a team member collides.
#[derive(Debug, Copy, Clone, PartialEq, Eq, Structural)]
pub enum TeamCollisionRule {
    Always,
    Never,
    HideForOtherTeams,
    HideForOwnTeam,
}

/// The style of a team's display name; it has no content yet.
#[derive(Debug, Clone, Copy, PartialEq, Eq)]
pub struct Style {
    todo: (),
}

} // verus!
