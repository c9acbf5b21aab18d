//! Mixes two smiley faces into one: the brows and eyes of the first over the
//! mouth of the second, painted on a 64 x 64 canvas.

pub mod canvas;
pub mod catalog;
pub mod codec;
pub mod element;
pub mod generator;
pub mod kind;
pub mod random;
pub mod service;
pub mod smile;
pub mod sprite;

pub use crate::generator::Smile;
pub use crate::kind::SmileType;
