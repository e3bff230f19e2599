//! Verified register accessors for an xHCI-style USB host controller.
//!
//! The crate models hardware registers as fixed-width unsigned integers made
//! of named bit fields, decodes the capability words that report where the
//! doorbell array lives and how many slots it has, and constructs a
//! bounds-checked, alignment-checked array view over those registers.
//! Volatile access to live device memory is left to the embedding program;
//! this crate owns the layout, bounds and alignment logic.

pub mod array;
pub mod bits;
pub mod capability;
pub mod doorbell;
