//! Layout engine for turning a sequence of card images into print-ready
//! pages: it computes how many card cells fit on a page at a given
//! resolution, the margins that center the grid, per-cell placements and
//! scale factors, cutting-guide geometry, and the chunking of an image
//! sequence into pages.

pub mod guides;
pub mod layout;
pub mod measure;
pub mod paginate;
pub mod sizes;

pub use guides::LineSegment;
pub use paginate::{ImageDims, Page, Placement};
pub use layout::{ConfigError, LayoutSettings, ScaleFactor};
pub use measure::Measurement;
pub use sizes::{CardSize, PaperSize};
