pub mod alphabet;
pub mod patterns;
pub mod normalize;
pub mod analysis;
pub mod assess;
pub mod render;
pub mod report;
pub mod guidance;
pub mod poem;
