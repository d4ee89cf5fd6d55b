//! Verified core of a small game engine: asset bookkeeping, colors, timers,
//! single-use channels, keyboard and mouse state, plugin bookkeeping, the
//! pacing of the game loop, sprite sheet cells, and the layout, interaction
//! and theming rules of the immediate-mode UI.

pub mod asset_registry;
pub mod assets;
pub mod color;
pub mod diagnostics;
pub mod game_loop;
pub mod image_data;
pub mod input;
pub mod oneshot;
pub mod plugins;
pub mod quat_ext;
pub mod sprite_sheet;
pub mod timer;
pub mod ui;

pub use timer::Timer;
