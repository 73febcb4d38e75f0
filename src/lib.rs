//! Integration of an immediate-mode GUI into a game engine: window input is
//! translated into the GUI's input, the GUI's frame is driven through a
//! three-stage cycle, its atlas is mirrored into host textures on a change of
//! version, and its meshes are batched by texture in paint order.
use vstd::prelude::*;

pub mod bundle;
pub mod pass;
pub mod plugin;
pub mod system;

pub use bundle::EguiBundle;
pub use plugin::RenderEgui;
pub use system::{EguiConfig, EguiContext, EguiInputGrab};

verus! {

} // verus!
