//! The three layers of a classified frame.

pub mod layer1;
pub mod layer2;
pub mod layer3;
