//! Route bindings: which resource answers which method and path.
//!
//! The table is filled once at startup and only read afterwards. It never
//! holds two bindings that could both accept one request, so the answer to
//! a lookup does not depend on the order of registration.

use vstd::prelude::*;
use vstd::string::*;
use crate::path::{contents, segments, split};
use crate::template::{
    accepting_templates_overlap,
    overlapping_templates_share_a_path,
    template_accepts,
    templates_overlap,
    well_formed,
    SegmentView,
    Template,
};

verus! {

/// The request methods a binding can name.
#[derive(Clone, Copy, Debug, PartialEq, Eq, Structural)]
pub enum Method {
    Get,
    Post,
    Put,
    Delete,
    Head,
    Options,
    Patch,
    Trace,
    Connect,
}

/// The resource handlers of the service.
#[derive(Clone, Copy, Debug, PartialEq, Eq, Structural)]
pub enum Resource {
    /// Executes queries against one index.
    Search,
    /// Creates and manages an index.
    Index,
    /// Ingests documents in bulk.
    Bulk,
    /// Reports the statistics of an index.
    Summary,
    /// Reports the version of the service.
    Root,
}

/// One route binding.
#[derive(Debug)]
pub struct Binding {
    pub method: Method,
    pub template: Template,
    pub resource: Resource,
}

/// A route binding as a value of the model.
pub struct BindingView {
    pub method: Method,
    pub template: Seq<SegmentView>,
    pub resource: Resource,
}

impl View for Binding {
    type V = BindingView;

    open spec fn view(&self) -> BindingView {
        BindingView { method: self.method, template: self.template@, resource: self.resource }
    }
}

/// Whether a binding accepts a request: the same method, and a template
/// that accepts the path.
pub open spec fn binding_accepts(binding: BindingView, method: Method, path: Seq<u8>) -> bool {
    binding.method == method && template_accepts(binding.template, path)
}

/// Whether two bindings name the same method with overlapping templates.
pub open spec fn bindings_conflict(a: BindingView, b: BindingView) -> bool {
    a.method == b.method && templates_overlap(a.template, b.template)
}

/// Whether a binding conflicts with one already in the table.
pub open spec fn conflicts_with(table: Seq<BindingView>, binding: BindingView) -> bool {
    exists|i: int| 0 <= i < table.len() && bindings_conflict(#[trigger] table[i], binding)
}

/// No two bindings of the table conflict.
pub open spec fn unambiguous(table: Seq<BindingView>) -> bool {
    forall|i: int, j: int|
        0 <= i < j < table.len() ==> !bindings_conflict(#[trigger] table[i], #[trigger] table[j])
}

/// Every template of the table is well formed.
pub open spec fn templates_well_formed(table: Seq<BindingView>) -> bool {
    forall|i: int| 0 <= i < table.len() ==> well_formed((#[trigger] table[i]).template)
}

/// The resource of the first binding that accepts the request, if any.
pub open spec fn resolve(table: Seq<BindingView>, method: Method, path: Seq<u8>) -> Option<
    Resource,
>
    decreases table.len(),
{
    if table.len() == 0 {
        None
    } else if binding_accepts(table[0], method, path) {
        Some(table[0].resource)
    } else {
        resolve(table.skip(1), method, path)
    }
}

/// A lookup answers with the resource of a binding that accepts the
/// request, and answers nothing only when no binding accepts it.
pub proof fn resolve_is_sound(table: Seq<BindingView>, method: Method, path: Seq<u8>)
    ensures
        match resolve(table, method, path) {
            Some(resource) => exists|i: int|
                0 <= i < table.len() && binding_accepts(#[trigger] table[i], method, path)
                    && table[i].resource == resource,
            None => forall|i: int|
                0 <= i < table.len() ==> !binding_accepts(#[trigger] table[i], method, path),
        },
    decreases table.len(),
{
    if table.len() > 0 && !binding_accepts(table[0], method, path) {
        let rest = table.skip(1);
        resolve_is_sound(rest, method, path);
        match resolve(rest, method, path) {
            Some(resource) => {
                let i = choose|i: int|
                    0 <= i < rest.len() && binding_accepts(#[trigger] rest[i], method, path)
                        && rest[i].resource == resource;
                assert(table[i + 1] == rest[i]);
            },
            None => {
                assert forall|i: int| 0 <= i < table.len() implies !binding_accepts(
                    #[trigger] table[i],
                    method,
                    path,
                ) by {
                    if i > 0 {
                        assert(table[i] == rest[i - 1]);
                    }
                }
            },
        }
    }
}

/// In a table without conflicts, whichever binding accepts a request is
/// the one a lookup answers with.
pub proof fn resolve_is_unique(table: Seq<BindingView>, method: Method, path: Seq<u8>, i: int)
    requires
        unambiguous(table),
        0 <= i < table.len(),
        binding_accepts(table[i], method, path),
    ensures
        resolve(table, method, path) == Some(table[i].resource),
{
    resolve_is_sound(table, method, path);
    let found = resolve(table, method, path);
    assert(found is Some);
    let j = choose|j: int|
        0 <= j < table.len() && binding_accepts(#[trigger] table[j], method, path)
            && table[j].resource == found->0;
    if i != j {
        accepting_templates_overlap(table[i].template, table[j].template, path);
        accepting_templates_overlap(table[j].template, table[i].template, path);
        if i < j {
            assert(bindings_conflict(table[i], table[j]));
        } else {
            assert(bindings_conflict(table[j], table[i]));
        }
    }
}

/// Lookup goes by method and path alone: two tables without conflicts
/// that hold the same bindings, in whatever order, answer every request
/// alike.
pub proof fn registration_order_is_irrelevant(
    a: Seq<BindingView>,
    b: Seq<BindingView>,
    method: Method,
    path: Seq<u8>,
)
    requires
        unambiguous(a),
        unambiguous(b),
        forall|binding: BindingView| a.contains(binding) <==> b.contains(binding),
    ensures
        resolve(a, method, path) == resolve(b, method, path),
{
    resolve_is_sound(a, method, path);
    resolve_is_sound(b, method, path);
    match resolve(a, method, path) {
        Some(resource) => {
            let i = choose|i: int|
                0 <= i < a.len() && binding_accepts(#[trigger] a[i], method, path)
                    && a[i].resource == resource;
            assert(a.contains(a[i]));
            assert(b.contains(a[i]));
            let j = choose|j: int| 0 <= j < b.len() && b[j] == a[i];
            resolve_is_unique(b, method, path, j);
        },
        None => {
            if resolve(b, method, path) is Some {
                let j = choose|j: int|
                    0 <= j < b.len() && binding_accepts(#[trigger] b[j], method, path);
                assert(b.contains(b[j]));
                assert(a.contains(b[j]));
                let i = choose|i: int| 0 <= i < a.len() && a[i] == b[j];
                assert(binding_accepts(a[i], method, path));
            }
        },
    }
}

/// A binding conflicts with the table exactly when some request would be
/// accepted both by it and by a binding already there.
pub proof fn conflict_is_a_shared_request(table: Seq<BindingView>, binding: BindingView)
    requires
        templates_well_formed(table),
        well_formed(binding.template),
    ensures
        conflicts_with(table, binding) <==> exists|i: int, path: Seq<u8>|
            0 <= i < table.len() && #[trigger] binding_accepts(table[i], binding.method, path)
                && binding_accepts(binding, binding.method, path),
{
    if conflicts_with(table, binding) {
        let i = choose|i: int| 0 <= i < table.len() && bindings_conflict(#[trigger] table[i], binding);
        overlapping_templates_share_a_path(table[i].template, binding.template);
        let path = choose|path: Seq<u8>|
            template_accepts(table[i].template, path) && template_accepts(binding.template, path);
        assert(binding_accepts(table[i], binding.method, path));
    }
    if exists|i: int, path: Seq<u8>|
        0 <= i < table.len() && #[trigger] binding_accepts(table[i], binding.method, path)
            && binding_accepts(binding, binding.method, path) {
        let (i, path) = choose|i: int, path: Seq<u8>|
            0 <= i < table.len() && #[trigger] binding_accepts(table[i], binding.method, path)
                && binding_accepts(binding, binding.method, path);
        accepting_templates_overlap(table[i].template, binding.template, path);
        assert(bindings_conflict(table[i], binding));
    }
}

/// Why a binding was not registered.
#[derive(Clone, Copy, Debug, PartialEq, Eq, Structural)]
pub enum RouteError {
    /// A binding already in the table names the same method with an
    /// overlapping template.
    Conflict,
}

/// The route bindings of a service.
#[derive(Debug)]
pub struct RouteTable {
    bindings: Vec<Binding>,
}

impl View for RouteTable {
    type V = Seq<BindingView>;

    closed spec fn view(&self) -> Seq<BindingView> {
        self.bindings@.map_values(|binding: Binding| binding@)
    }
}

impl RouteTable {
    /// The invariant of the table: its templates are well formed and no
    /// two of its bindings conflict.
    pub open spec fn wf(&self) -> bool {
        unambiguous(self@) && templates_well_formed(self@)
    }

    /// A table without bindings.
    pub fn new() -> (table: RouteTable)
        ensures
            table.wf(),
            table@.len() == 0,
    {
        RouteTable { bindings: Vec::new() }
    }

    /// Number of bindings.
    pub fn len(&self) -> (n: usize)
        ensures
            n == self@.len(),
    {
        self.bindings.len()
    }

    /// Adds a binding, unless it conflicts with one already there; then
    /// the table stays as it was.
    pub fn register(&mut self, method: Method, template: Template, resource: Resource) -> (r:
        Result<(), RouteError>)
        requires
            old(self).wf(),
        ensures
            final(self).wf(),
            match r {
                Ok(_) => {
                    &&& !conflicts_with(
                        old(self)@,
                        (BindingView { method, template: template@, resource }),
                    )
                    &&& final(self)@ == old(self)@.push(
                        (BindingView { method, template: template@, resource }),
                    )
                },
                Err(e) => {
                    &&& e == RouteError::Conflict
                    &&& conflicts_with(
                        old(self)@,
                        (BindingView { method, template: template@, resource }),
                    )
                    &&& final(self)@ == old(self)@
                },
            },
    {
        let ghost added = BindingView { method, template: template@, resource };
        let ghost before = self@;
        proof {
            use_type_invariant(&template);
        }
        let mut i: usize = 0;
        while i < self.bindings.len()
            invariant
                0 <= i <= self.bindings.len(),
                self@ == before,
                unambiguous(before),
                templates_well_formed(before),
                well_formed(template@),
                added == (BindingView { method, template: template@, resource }),
                forall|k: int| 0 <= k < i ==> !bindings_conflict(#[trigger] before[k], added),
            decreases self.bindings.len() - i,
        {
            let existing = &self.bindings[i];
            assert(before[i as int] == existing@);
            if existing.method == method && existing.template.overlaps(&template) {
                assert(bindings_conflict(before[i as int], added));
                return Err(RouteError::Conflict);
            }
            i += 1;
        }
        let binding = Binding { method, template, resource };
        proof {
            let after = before.push(added);
            assert(self.bindings@.push(binding).map_values(|binding: Binding| binding@) =~= after);
            assert forall|a: int, b: int| 0 <= a < b < after.len() implies !bindings_conflict(
                #[trigger] after[a],
                #[trigger] after[b],
            ) by {
                if b < before.len() {
                    assert(after[a] == before[a] && after[b] == before[b]);
                } else {
                    assert(after[a] == before[a]);
                }
            }
            assert forall|k: int| 0 <= k < after.len() implies well_formed(
                (#[trigger] after[k]).template,
            ) by {
                if k < before.len() {
                    assert(after[k] == before[k]);
                }
            }
        }
        self.bindings.push(binding);
        Ok(())
    }

    /// The resource bound to a request, if any binding accepts it.
    pub fn lookup(&self, method: Method, path: &str) -> (found: Option<Resource>)
        ensures
            found == resolve(self@, method, path.spec_bytes()),
    {
        let bytes = path.as_bytes();
        let parts = split(bytes);
        let mut i: usize = 0;
        assert(self@.skip(0) =~= self@);
        while i < self.bindings.len()
            invariant
                0 <= i <= self.bindings.len(),
                bytes@ == path.spec_bytes(),
                contents(parts@) == segments(bytes@),
                resolve(self@, method, bytes@) == resolve(self@.skip(i as int), method, bytes@),
            decreases self.bindings.len() - i,
        {
            let binding = &self.bindings[i];
            let ghost rest = self@.skip(i as int);
            assert(rest[0] == binding@);
            assert(rest.skip(1) =~= self@.skip(i + 1));
            if binding.method == method && binding.template.accepts_parts(&parts) {
                return Some(binding.resource);
            }
            i += 1;
        }
        None
    }
}

} // verus!
