pub mod animation;
pub mod character;
pub mod colours;
pub mod column;
pub mod text_overlay;

pub use animation::MatrixAnimation;
pub use character::MatrixChar;
pub use colours::Color;
pub use colours::ColorCalculator;
pub use column::MatrixColumn;
pub use text_overlay::TextOverlay;
