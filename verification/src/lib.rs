//! A minimal level-filtered console logger core: an ordered severity scale,
//! a threshold test deciding which records are accepted, and the rendering
//! rules (color choice and line layout) for each accepted record.

pub mod level;
pub mod logger;

pub use level::Color;
pub use level::Level;
pub use level::pick_color;
pub use logger::Emission;
pub use logger::Logger;
