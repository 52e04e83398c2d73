//! Batching of 2D quads (sprites cut from a sprite sheet, or whole textures)
//! into instanced draw calls.
//!
//! A frame goes through four steps. The quads of the visible entities are
//! collected into a [`TextureBatch`]; those whose order is free are sorted by
//! texture; every record is encoded into a [`SpriteInstance`]; and
//! consecutive instances that share a texture are merged into one
//! [`DrawCall`]. The number of draw calls is then the number of maximal runs
//! of equal texture, not the number of quads.
//!
//! Scalars are held as single-precision bit patterns. The library stores,
//! selects and orders them; the products that need floating-point hardware
//! are asked of the caller as a [`QuadGeometry`] and taken back as a
//! [`QuadProjection`].

pub mod assets;
pub mod batch;
pub mod draw;
pub mod frame;
pub mod gfx_state;
pub mod instance;
pub mod pass;
pub mod record;
pub mod scalar;
pub mod sprite;

pub use batch::{Rejection, TextureBatch};
pub use draw::DrawCall;
pub use instance::{QuadGeometry, QuadProjection, SpriteInstance};
pub use pass::DrawFlat2D;
pub use record::TextureDrawData;
