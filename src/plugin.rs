use vstd::prelude::*;

use crate::pass::DrawEguiDesc;

verus! {

/// A render target of the host.
#[derive(Debug, PartialEq, Eq)]
pub enum Target {
    Main,
    Custom(String),
}

/// Where a render group runs within its target.
#[derive(Debug, Clone, Copy, PartialEq, Eq, Structural)]
pub enum RenderOrder {
    /// After all scene geometry of the target.
    Overlay,
}

/// A render group to add to the host's plan.
#[derive(Debug)]
pub struct PlanEntry {
    pub target: Target,
    pub order: RenderOrder,
    pub group: DrawEguiDesc,
}

/// Places the GUI's render group in the host's render plan.
#[derive(Debug)]
pub struct RenderEgui {
    pub target: Target,
}

impl RenderEgui {
    /// Renders on the main target.
    pub fn new() -> (r: RenderEgui)
        ensures
            r.target == Target::Main,
    {
        RenderEgui { target: Target::Main }
    }

    /// Select render target on which UI should be rendered.
    pub fn with_target(self, target: Target) -> (r: RenderEgui)
        ensures
            r.target == target,
    {
        RenderEgui { target }
    }

    /// The render group to add: the GUI's, as an overlay on the chosen target.
    pub fn on_plan(&self) -> (r: PlanEntry)
        ensures
            r.target == self.target,
            r.order == RenderOrder::Overlay,
            r.group == DrawEguiDesc,
    {
        let target = match &self.target {
            Target::Main => Target::Main,
            Target::Custom(name) => Target::Custom(name.clone()),
        };
        PlanEntry { target, order: RenderOrder::Overlay, group: DrawEguiDesc }
    }
}

} // verus!
