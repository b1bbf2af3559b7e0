pub mod calendar;
pub mod entities;
pub mod error;
pub mod money;
pub mod standard_scale;
pub mod sums;
pub mod tally;
pub mod tax_brackets;
pub mod text;
pub mod value_objects;
pub mod repositories;
