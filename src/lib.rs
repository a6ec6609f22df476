//! Small text-rendering routines with verified contracts: integer
//! arithmetic helpers, greeting text, structural and display renderings of
//! small value shapes, positional templates, field alignment, and
//! element-wise vector updates.

pub mod formatted;
pub mod functions;
pub mod template;
pub mod text;
pub mod vectors;
