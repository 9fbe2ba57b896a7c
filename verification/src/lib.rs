//! Safe reinterpretation of fixed-size, tagged binary records as more
//! specific subtype views, without copying the underlying bytes: a validity
//! predicate is declared once per (base, subtype) relation, and checked
//! downcast operations by value, by shared reference and by exclusive
//! reference follow from it.

pub mod packet;
pub mod subtype;
