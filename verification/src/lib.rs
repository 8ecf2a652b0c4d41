//! Client-side interaction core of a real-time multiplayer strategy game.
//!
//! The crate owns the camera, turns pointer input into selections and
//! outbound commands, and projects the latest game-state snapshot into
//! camera-relative draw instructions.
//!
//! All coordinates and scalar quantities are fixed-point numbers: an `i64`
//! counting thousandths of a world unit or of a screen pixel. Products and
//! quotients are computed in wide arithmetic and rounded towards negative
//! infinity; a result beyond the range of `i64` saturates at the nearer end.
//!
//! Every stateful type has a mathematical model as its view, and every
//! operation is specified as a function on that model: [`viewport`] holds
//! the camera, [`snapshot`] the data that the server sends, [`selection`]
//! the drag box and the selected troops,
//! [`command`] the outbound commands, [`scene`] the draw instructions, and
//! [`renderer`] the input state machine that ties them together.

pub mod fixed;
pub mod geometry;
pub mod viewport;
pub mod snapshot;
pub mod selection;
pub mod command;
pub mod scene;
pub mod renderer;

pub use command::{Command, MoveCommand, SpawnCommand};
pub use geometry::Point;
pub use renderer::{InputState, PointerEvent, Renderer};
pub use scene::{DrawInstruction, Shape};
pub use selection::{DragBox, SelectionEngine};
pub use snapshot::{Color, DevData, GameState, Player, Projectile, SnapshotStore, Troop};
pub use viewport::Viewport;
