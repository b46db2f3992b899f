//! The discipline of the shared catalog: any number of readers or a single
//! writer at a time. This module says which access each resource asks for
//! and which requests may hold the catalog together; the lock that
//! enforces it belongs to whoever owns the catalog.

use vstd::prelude::*;
use crate::routes::Resource;

verus! {

/// How a request uses the catalog.
#[derive(Clone, Copy, Debug, PartialEq, Eq, Structural)]
pub enum Access {
    /// The request does not touch the catalog.
    Free,
    /// The request reads the catalog and shares it with other readers.
    Shared,
    /// The request changes the catalog and needs it for itself.
    Exclusive,
}

/// The access that a resource asks for. Searching and summarising read;
/// managing an index and ingesting in bulk write; the root resource needs
/// no catalog.
pub open spec fn access_of(resource: Resource) -> Access {
    match resource {
        Resource::Search => Access::Shared,
        Resource::Summary => Access::Shared,
        Resource::Index => Access::Exclusive,
        Resource::Bulk => Access::Exclusive,
        Resource::Root => Access::Free,
    }
}

/// Whether two requests may hold the catalog at the same time: always
/// where one of them does not touch it, and otherwise only where both
/// read.
pub open spec fn may_overlap(a: Access, b: Access) -> bool {
    a == Access::Free || b == Access::Free || (a == Access::Shared && b == Access::Shared)
}

impl Access {
    /// The access that a resource asks for.
    pub fn of(resource: Resource) -> (access: Access)
        ensures
            access == access_of(resource),
    {
        match resource {
            Resource::Search => Access::Shared,
            Resource::Summary => Access::Shared,
            Resource::Index => Access::Exclusive,
            Resource::Bulk => Access::Exclusive,
            Resource::Root => Access::Free,
        }
    }

    /// Whether a request with this access may hold the catalog together
    /// with a request with the other.
    pub fn may_overlap(self, other: Access) -> (yes: bool)
        ensures
            yes == may_overlap(self, other),
    {
        match self {
            Access::Free => true,
            Access::Shared => match other {
                Access::Exclusive => false,
                _ => true,
            },
            Access::Exclusive => match other {
                Access::Free => true,
                _ => false,
            },
        }
    }
}

/// Requests that only read never exclude each other: any two searches or
/// summaries may hold the catalog together.
pub proof fn readers_never_exclude_each_other(first: Resource, second: Resource)
    requires
        access_of(first) == Access::Shared,
        access_of(second) == Access::Shared,
    ensures
        may_overlap(access_of(first), access_of(second)),
        may_overlap(access_of(Resource::Search), access_of(Resource::Search)),
{
}

/// A request that writes holds the catalog alone: no request that reads or
/// writes may hold it at the same time, so a bulk ingest and a search
/// never overlap.
pub proof fn a_writer_holds_the_catalog_alone(writer: Resource, other: Resource)
    requires
        access_of(writer) == Access::Exclusive,
        access_of(other) != Access::Free,
    ensures
        !may_overlap(access_of(writer), access_of(other)),
        !may_overlap(access_of(other), access_of(writer)),
        !may_overlap(access_of(Resource::Bulk), access_of(Resource::Search)),
{
}

/// Whether two requests may overlap does not depend on which came first.
pub proof fn overlap_is_symmetric(a: Access, b: Access)
    ensures
        may_overlap(a, b) == may_overlap(b, a),
{
}

} // verus!
