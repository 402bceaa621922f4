//! Two small ownership primitives.
//!
//! [`cell_view::CellView`] wraps an exclusively borrowed buffer and lets any
//! two of its slots be mixed in one call, checked only against the buffer's
//! length. [`registry::Registry`] keeps owned, type-erased items that can each
//! be consumed once, and drains them in the order in which they were pushed.

pub mod error;
pub mod mixing;
pub mod cell_view;
pub mod decimal;
pub mod consumable;
pub mod registry;
