pub mod alg;
pub mod convert;
pub mod coords;
pub mod grid;
pub mod initializers;
pub mod tile;
pub mod utils;

pub use utils::Orientation;
