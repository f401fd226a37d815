use bevy_ecs::component::ComponentId;
use bevy_ecs::query::FilteredAccess;
use vstd::prelude::*;

verus! {

#[verifier::external_type_specification]
#[verifier::external_body]
pub struct ExComponentId(ComponentId);

/// The access accumulator that the terms of one query share: bevy_ecs's
/// `FilteredAccess` over component ids, seen through the components it may
/// read and those it may write.
#[verifier::external_body]
pub struct QueryAccess {
    inner: FilteredAccess<ComponentId>,
}

/// The indices of the components that `a` may access exclusively: those for
/// which `Access::has_component_write` holds.
pub uninterp spec fn component_writes_of(a: QueryAccess) -> Set<usize>;

/// The indices of the components that `a` may read, shared or exclusively:
/// those for which `Access::has_component_read` holds.
pub uninterp spec fn component_reads_of(a: QueryAccess) -> Set<usize>;

/// A read declared on a component that another term of the same query
/// already accesses exclusively.
#[derive(Clone, Copy, Debug, PartialEq, Eq, Structural)]
pub struct AccessConflict {
    pub component_id: usize,
}

impl QueryAccess {
    /// Relies on bevy_ecs `FilteredAccess::default` (`matches_everything`),
    /// whose `Access` is empty: no component is read or written.
    #[verifier::external_body]
    fn empty() -> (r: QueryAccess)
        ensures
            component_reads_of(r) == Set::<usize>::empty(),
            component_writes_of(r) == Set::<usize>::empty(),
    {
        QueryAccess { inner: FilteredAccess::default() }
    }

    /// Relies on bevy_ecs `FilteredAccess::access` and
    /// `Access::has_component_write`: whether exclusive access to the
    /// component with index `id` is held.
    #[verifier::external_body]
    fn has_write(&self, id: usize) -> (r: bool)
        ensures
            r == component_writes_of(*self).contains(id),
    {
        self.inner.access().has_component_write(ComponentId::new(id))
    }

    /// Relies on bevy_ecs `FilteredAccess::add_component_read`: the component
    /// with index `id` becomes readable, and exclusive access is left as it was.
    #[verifier::external_body]
    fn add_read(&mut self, id: usize)
        ensures
            component_reads_of(*final(self)) == component_reads_of(*old(self)).insert(id),
            component_writes_of(*final(self)) == component_writes_of(*old(self)),
    {
        self.inner.add_component_read(ComponentId::new(id))
    }

    /// Relies on bevy_ecs `FilteredAccess::add_component_write`: the component
    /// with index `id` becomes readable and exclusively accessed.
    #[verifier::external_body]
    fn add_write(&mut self, id: usize)
        ensures
            component_reads_of(*final(self)) == component_reads_of(*old(self)).insert(id),
            component_writes_of(*final(self)) == component_writes_of(*old(self)).insert(id),
    {
        self.inner.add_component_write(ComponentId::new(id))
    }

    /// An accumulator that holds no access yet.
    pub fn new() -> (r: QueryAccess)
        ensures
            component_reads_of(r) == Set::<usize>::empty(),
            component_writes_of(r) == Set::<usize>::empty(),
    {
        QueryAccess::empty()
    }

    /// Whether some term already holds exclusive access to component `id`.
    pub fn has_component_write(&self, id: usize) -> (r: bool)
        ensures
            r == component_writes_of(*self).contains(id),
    {
        self.has_write(id)
    }

    /// Records a shared read of component `id`.
    pub fn add_component_read(&mut self, id: usize)
        ensures
            component_reads_of(*final(self)) == component_reads_of(*old(self)).insert(id),
            component_writes_of(*final(self)) == component_writes_of(*old(self)),
    {
        self.add_read(id)
    }

    /// Records an exclusive access to component `id`, as a term that mutates
    /// the component does.
    pub fn add_component_write(&mut self, id: usize)
        ensures
            component_reads_of(*final(self)) == component_reads_of(*old(self)).insert(id),
            component_writes_of(*final(self)) == component_writes_of(*old(self)).insert(id),
    {
        self.add_write(id)
    }
}

} // verus!
