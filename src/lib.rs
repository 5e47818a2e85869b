//! The frame and resource-upload core of a real-time renderer: the lifecycle of a frame from
//! acquisition to submission, the queue of pending texture uploads, the bounded history of
//! submitted work, the culled geometry pass, and the layout of texture data for upload.
pub mod frame;
pub mod geometry;
pub mod target;
pub mod texture;

pub use frame::{Frame, FrameCommand, FrameError, FrameSubmission};
pub use geometry::{GeometryRenderer, Relation};
pub use target::{Target, SUBMISSION_BACKLOG};
pub use texture::{PixelFormat, Texture, TextureFormat};
