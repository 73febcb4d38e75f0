use vstd::prelude::*;

use crate::system::{no_modifiers, EguiConfig, EguiContext, EguiInputGrab, EguiSystem, Pos2};

verus! {

/// Sets up the GUI integration: its shared resources and its input system.
#[derive(Clone, Copy, Debug, Default, PartialEq, Eq, Structural)]
pub struct EguiBundle;

/// The shared resources and the input system that the bundle sets up.
#[derive(Debug)]
pub struct EguiResources<C> {
    pub input_grab: EguiInputGrab,
    pub config: EguiConfig,
    pub context: EguiContext<C>,
    pub system: EguiSystem,
}

impl EguiBundle {
    /// The resources as they stand before the first tick: no input grabbed,
    /// the default configuration, the context `ctx` at stage `Begin` with no
    /// user textures, and a fresh input system.
    pub fn load<C>(&mut self, ctx: C) -> (r: EguiResources<C>)
        ensures
            !r.input_grab.keyboard && !r.input_grab.mouse,
            r.config.scroll_sensitivity == 1,
            !r.config.mirror_mouse_buttons,
            !r.config.allow_webbrowser,
            !r.config.allow_clipboard,
            !r.config.enable_tts,
            r.context.ctx == ctx,
            r.context.stage is Begin,
            r.context.user_textures@.len() == 0,
            r.system.current_mouse_pos == (Pos2 { x: 0, y: 0 }),
            r.system.current_modifiers == no_modifiers(),
    {
        let input_grab = EguiInputGrab::new();
        let config = EguiConfig::default();
        let context = EguiContext::new(ctx);
        let system = EguiSystem::new();
        EguiResources { input_grab, config, context, system }
    }
}

} // verus!
