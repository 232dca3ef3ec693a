//! Display topology abstraction: modes, positions, rotations and the
//! per-backend staging logic behind them.

pub mod activation;
pub mod backends;
pub mod error;
pub mod text;
pub mod traits;
pub mod types;

pub use backends::linux::{LinuxBackendVariant, LinuxTopology};
pub use backends::windows::{ActivationResult, WinDisplayManager};
pub use error::{DisplayError, DisplayResult};
pub use traits::OutputEdit;
pub use types::{
    ActivationPlan, AdapterId, ConnectorId, DisplayId, DisplayIdentity, DisplayRotation, Extent2D,
    HdrMode, HdrState, OutputState, Point2D, Rect, VideoMode,
};
