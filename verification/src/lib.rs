//! A verified builder for SVG documents: an element tree with attribute
//! storage, a path-segment accumulator with compacted serialization, and
//! document serialization to the SVG markup string.

pub mod attrs;
pub mod classes;
pub mod element;
pub mod numfmt;
pub mod path;
pub mod textops;
pub mod svg;

pub use element::Element;
pub use path::PathSegment;
pub use svg::Svg;
