//! A predicate filter term for an entity-component query engine.
//!
//! A query may ask for "only the entities whose component `T` satisfies a
//! predicate" without reading `T` into its output. The filter resolves the
//! component's identity once (`CheckState`), declares a shared read of it to the
//! query's access accumulator, and per storage batch caches a handle to the
//! component's values (`CheckFetch`), through which each candidate row is tested.

mod access;
mod fetch;
mod state;

pub use access::{component_reads_of, component_writes_of, AccessConflict, QueryAccess};
pub use fetch::{
    deterministic, law_dense_reads_row, law_layout_exclusive, law_rows_stateless,
    law_sparse_reads_entity, CheckFetch,
};
pub use state::{
    law_read_after_write_conflicts, law_reads_coexist, law_shape_prefilter_sound,
    law_unregistered_matches_nothing, resolve, resolved_matches, CheckState, StorageLayout,
};
