use crate::access::{component_reads_of, component_writes_of, AccessConflict, QueryAccess};
use vstd::prelude::*;

verus! {

/// Where the values of a component live; fixed for a component type.
#[derive(Clone, Copy, Debug, PartialEq, Eq, Structural)]
pub enum StorageLayout {
    /// Columns of the archetype's table, indexed by row.
    Dense,
    /// One map per component, keyed by entity.
    Sparse,
}

/// The identity of the filtered component, resolved once when a query is built.
#[derive(Clone, Copy, Debug, PartialEq, Eq, Structural)]
pub struct CheckState {
    pub component_id: usize,
    pub layout: StorageLayout,
}

/// The state that resolution gives when the schema knows the component
/// under `registered`, or does not know it.
pub open spec fn resolve(registered: Option<usize>, layout: StorageLayout) -> Option<CheckState> {
    match registered {
        Some(id) => Some(CheckState { component_id: id, layout }),
        None => None,
    }
}

/// Whether a batch whose component set is `shape` can hold matches for a
/// filter resolved to `state`; an unresolved filter matches no batch.
pub open spec fn resolved_matches(state: Option<CheckState>, shape: Seq<usize>) -> bool {
    match state {
        Some(s) => s.shape_matches(shape),
        None => false,
    }
}

impl CheckState {
    /// Whether the component set `shape` holds the filtered component.
    pub open spec fn shape_matches(self, shape: Seq<usize>) -> bool {
        shape.contains(self.component_id)
    }

    /// Whether declaring a read of the component clashes with `access`.
    pub open spec fn read_conflicts(self, access: QueryAccess) -> bool {
        component_writes_of(access).contains(self.component_id)
    }

    /// The state of a filter on the component that the host registered
    /// under `component_id`.
    pub fn init_state(component_id: usize, layout: StorageLayout) -> (r: CheckState)
        ensures
            r.component_id == component_id,
            r.layout == layout,
    {
        CheckState { component_id, layout }
    }

    /// Resolution against an existing schema: `registered` is the id under
    /// which the schema knows the component, if it does. An unregistered
    /// component gives no state, and such a filter never matches.
    pub fn get_state(registered: Option<usize>, layout: StorageLayout) -> (r: Option<CheckState>)
        ensures
            r == resolve(registered, layout),
    {
        match registered {
            Some(component_id) => Some(CheckState::init_state(component_id, layout)),
            None => None,
        }
    }

    /// Asks the planner's membership test whether the batch holds the
    /// component; the answer is the test's own.
    pub fn matches_component_set<F: Fn(usize) -> bool>(&self, set_contains_id: &F) -> (r: bool)
        requires
            set_contains_id.requires((self.component_id,)),
        ensures
            set_contains_id.ensures((self.component_id,), r),
    {
        set_contains_id(self.component_id)
    }

    /// Whether the batch whose component set is `shape` holds the component.
    pub fn matches_schema_shape(&self, shape: &[usize]) -> (r: bool)
        ensures
            r == self.shape_matches(shape@),
    {
        let mut i: usize = 0;
        while i < shape.len()
            invariant
                i <= shape@.len(),
                forall|j: int| 0 <= j < i ==> shape@[j] != self.component_id,
            decreases shape@.len() - i,
        {
            if shape[i] == self.component_id {
                return true;
            }
            i = i + 1;
        }
        false
    }

    /// The shape pre-filter of a possibly unresolved filter.
    pub fn matches_resolved(state: &Option<CheckState>, shape: &[usize]) -> (r: bool)
        ensures
            r == resolved_matches(*state, shape@),
    {
        match state {
            Some(s) => s.matches_schema_shape(shape),
            None => false,
        }
    }

    /// Declares a shared read of the component in the query's accumulator.
    /// Fails, leaving the accumulator as it was, when another term already
    /// holds exclusive access to the component.
    pub fn update_component_access(&self, access: &mut QueryAccess) -> (r: Result<(), AccessConflict>)
        ensures
            r is Err <==> self.read_conflicts(*old(access)),
            r is Err ==> r == Err::<(), AccessConflict>(AccessConflict { component_id: self.component_id })
                && *final(access) == *old(access),
            r is Ok ==> component_reads_of(*final(access)) == component_reads_of(*old(access)).insert(
                self.component_id,
            ) && component_writes_of(*final(access)) == component_writes_of(*old(access)),
    {
        if access.has_component_write(self.component_id) {
            return Err(AccessConflict { component_id: self.component_id });
        }
        access.add_component_read(self.component_id);
        Ok(())
    }
}

/// A batch whose component set lacks the filtered component never passes the
/// shape pre-filter.
pub proof fn law_shape_prefilter_sound(state: CheckState, shape: Seq<usize>)
    requires
        !shape.contains(state.component_id),
    ensures
        !state.shape_matches(shape),
        !resolved_matches(Some(state), shape),
{
}

/// Once another term has declared exclusive access to the component, a read
/// declared by this filter fails.
pub proof fn law_read_after_write_conflicts(state: CheckState, before: QueryAccess, after: QueryAccess)
    requires
        component_writes_of(after) == component_writes_of(before).insert(state.component_id),
    ensures
        state.read_conflicts(after),
{
}

/// Reads coexist: a read declared by another term, which leaves exclusive
/// access as it was, does not make this filter's read fail.
pub proof fn law_reads_coexist(state: CheckState, before: QueryAccess, after: QueryAccess)
    requires
        !state.read_conflicts(before),
        component_reads_of(after) == component_reads_of(before).insert(state.component_id),
        component_writes_of(after) == component_writes_of(before),
    ensures
        !state.read_conflicts(after),
{
}

/// A component that the schema never registered resolves to no state, and
/// that matches no batch at all.
pub proof fn law_unregistered_matches_nothing(layout: StorageLayout, shape: Seq<usize>)
    ensures
        resolve(None, layout) is None,
        !resolved_matches(resolve(None, layout), shape),
{
}

} // verus!
