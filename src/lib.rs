//! Geometry of a herringbone pattern of tiles, its text form for vector
//! drawings, and the small rules around painting and exporting it.

pub mod decimal;
pub mod fields;
pub mod tiling;
pub mod lemmas;
pub mod painting;
pub mod theme;
pub mod export;
pub mod drawing;
