//! Scene-construction plans for a 2D physics playground.
//!
//! The scenes of this crate — a rope-jointed robot chain, a lattice of
//! jointed blocks, a scrolling tile terrain, a following camera — are laid
//! out here as plain data: positions, radii, joint anchors and rope lengths,
//! all measured in thousandths of a scene unit so that every computation is
//! exact integer arithmetic with a proved contract. A host shell converts
//! these plans into engine entities and feeds input and elapsed time back
//! into the decision functions.

pub mod camera;
pub mod chain;
pub mod color;
pub mod containers;
pub mod fixed;
pub mod lattice;
pub mod mechanical;
pub mod rect_player;
pub mod robot;
pub mod sprite;
pub mod steering;
pub mod terrain;
pub mod timer;
pub mod ui;
