//! A host-automatable parameter registry.
//!
//! A fixed collection of named parameters, each addressed both by a typed
//! identifier and by a stable integer index exposed to a plugin host. Every
//! parameter stores a normalized value (the bit pattern of a 32-bit float in
//! `[0.0, 1.0]`; callers convert at the boundary), has a default, and can be
//! rendered to display text by a formatter. Writes notify a host sink with a
//! begin/end edit bracket, and index-addressed writes suppress host echo:
//! writing a value bit-identical to the stored one is a no-op.

mod display;
mod sink;
mod store;
mod table;

pub use display::ParamFormatter;
pub use display::SilentFormatter;
pub use display::empty_string;
pub use sink::EditEvent;
pub use sink::EditSink;
pub use sink::RecordingSink;
pub use store::ParameterStore;
pub use store::events_after_set;
pub use store::lemma_repeated_set_is_noop;
pub use store::values_after_set;
pub use table::ParamRow;
pub use table::ParamTable;
pub use table::ParameterId;
pub use table::has_index;
pub use table::lemma_index_id_round_trip;
pub use table::lemma_resolved_id;
pub use table::pos_of_index;
pub use table::spec_index_to_id;
pub use table::unique_indices;
