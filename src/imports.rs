//! Import objects and their resolution against a module's declared imports.
//!
//! An import object maps a (namespace, name) pair to an extern type. It is
//! built on its own and can be offered to any number of instantiations; a
//! later registration under the same pair shadows an earlier one.
//! Resolution is all or nothing: it either links every declared import or
//! names the first one that cannot be satisfied.

use vstd::prelude::*;
use crate::dispatch::FunctionSignature;
use crate::text::same_text;
use crate::values::ValueKind;

verus! {

/// Size limits of a memory (in pages) or a table (in elements).
#[derive(Clone, Copy, Debug, PartialEq, Eq, Structural)]
pub struct Limits {
    pub minimum: u32,
    pub maximum: Option<u32>,
}

/// The type of something that crosses the import boundary.
#[derive(Clone, Debug, PartialEq, Eq)]
pub enum ExternType {
    Function(FunctionSignature),
    Global { kind: ValueKind, mutable: bool },
    Memory(Limits),
    Table { element: ValueKind, limits: Limits },
}

/// One registration of an import object, or one import a module declares.
#[derive(Clone, Debug, PartialEq, Eq)]
pub struct ImportEntry {
    pub namespace: String,
    pub name: String,
    pub ty: ExternType,
}

/// Why an import could not be satisfied.
#[derive(Clone, Copy, Debug, PartialEq, Eq, Structural)]
pub enum ResolutionFailure {
    /// Nothing is registered under the import's namespace and name.
    Missing,
    /// What is registered there is of another kind or type.
    Mismatch,
}

/// The failed resolution of the declared import at `index`.
#[derive(Clone, Debug, PartialEq, Eq)]
pub struct ImportResolutionError {
    pub index: usize,
    pub namespace: String,
    pub name: String,
    pub failure: ResolutionFailure,
}

/// A set of registrations, keyed by namespace and name.
pub struct ImportObject {
    entries: Vec<ImportEntry>,
}

/// The position of the latest registration of `s` under `ns` and `name`.
pub open spec fn latest_index(s: Seq<ImportEntry>, ns: Seq<char>, name: Seq<char>) -> Option<int>
    decreases s.len(),
{
    if s.len() == 0 {
        None
    } else if s.last().namespace@ == ns && s.last().name@ == name {
        Some(s.len() - 1)
    } else {
        latest_index(s.drop_last(), ns, name)
    }
}

/// What the registrations `s` offer under `ns` and `name`: the latest one.
pub open spec fn lookup(s: Seq<ImportEntry>, ns: Seq<char>, name: Seq<char>) -> Option<ExternType> {
    match latest_index(s, ns, name) {
        Some(i) => Some(s[i].ty),
        None => None,
    }
}

/// A latest registration lies within the registrations and carries the key.
pub proof fn lemma_latest_index_bounds(s: Seq<ImportEntry>, ns: Seq<char>, name: Seq<char>)
    ensures
        latest_index(s, ns, name) matches Some(i) ==> 0 <= i < s.len() && s[i].namespace@ == ns
            && s[i].name@ == name,
    decreases s.len(),
{
    if s.len() > 0 {
        lemma_latest_index_bounds(s.drop_last(), ns, name);
    }
}

/// Whether the limits `supplied` can stand where `declared` is asked for:
/// at least the declared minimum, and within the declared maximum if any.
pub open spec fn limits_fit(supplied: Limits, declared: Limits) -> bool {
    &&& supplied.minimum >= declared.minimum
    &&& declared.maximum matches Some(dm) ==> (supplied.maximum matches Some(sm) && sm <= dm)
}

/// Whether an extern of type `supplied` satisfies an import of type `declared`.
pub open spec fn compatible(supplied: ExternType, declared: ExternType) -> bool {
    match (supplied, declared) {
        (ExternType::Function(a), ExternType::Function(b)) => a.params@ == b.params@
            && a.results@ == b.results@,
        (
            ExternType::Global { kind: k1, mutable: m1 },
            ExternType::Global { kind: k2, mutable: m2 },
        ) => k1 == k2 && m1 == m2,
        (ExternType::Memory(a), ExternType::Memory(b)) => limits_fit(a, b),
        (
            ExternType::Table { element: e1, limits: l1 },
            ExternType::Table { element: e2, limits: l2 },
        ) => e1 == e2 && limits_fit(l1, l2),
        _ => false,
    }
}

/// Whether the registrations `s` satisfy the declared import `d`.
pub open spec fn satisfied(s: Seq<ImportEntry>, d: ImportEntry) -> bool {
    lookup(s, d.namespace@, d.name@) matches Some(t) && compatible(t, d.ty)
}

fn same_kinds(a: &Vec<ValueKind>, b: &Vec<ValueKind>) -> (r: bool)
    ensures
        r == (a@ == b@),
{
    if a.len() != b.len() {
        return false;
    }
    let mut i: usize = 0;
    while i < a.len()
        invariant
            a@.len() == b@.len(),
            i <= a@.len(),
            forall|j: int| 0 <= j < i ==> a@[j] == b@[j],
        decreases a@.len() - i,
    {
        if a[i] != b[i] {
            return false;
        }
        i = i + 1;
    }
    assert(a@ =~= b@);
    true
}

fn fits(supplied: Limits, declared: Limits) -> (r: bool)
    ensures
        r == limits_fit(supplied, declared),
{
    if supplied.minimum < declared.minimum {
        return false;
    }
    match declared.maximum {
        None => true,
        Some(dm) => match supplied.maximum {
            Some(sm) => sm <= dm,
            None => false,
        },
    }
}

/// Whether an extern of type `supplied` satisfies an import of type `declared`.
pub fn is_compatible(supplied: &ExternType, declared: &ExternType) -> (r: bool)
    ensures
        r == compatible(*supplied, *declared),
{
    match (supplied, declared) {
        (ExternType::Function(a), ExternType::Function(b)) => same_kinds(&a.params, &b.params)
            && same_kinds(&a.results, &b.results),
        (
            ExternType::Global { kind: k1, mutable: m1 },
            ExternType::Global { kind: k2, mutable: m2 },
        ) => *k1 == *k2 && *m1 == *m2,
        (ExternType::Memory(a), ExternType::Memory(b)) => fits(*a, *b),
        (
            ExternType::Table { element: e1, limits: l1 },
            ExternType::Table { element: e2, limits: l2 },
        ) => *e1 == *e2 && fits(*l1, *l2),
        _ => false,
    }
}

impl ImportObject {
    /// The registrations, oldest first.
    pub closed spec fn entries(&self) -> Seq<ImportEntry> {
        self.entries@
    }

    /// An import object with no registrations.
    pub fn new() -> (r: ImportObject)
        ensures
            r.entries() == Seq::<ImportEntry>::empty(),
    {
        ImportObject { entries: Vec::new() }
    }

    /// Registers `ty` under `namespace` and `name`, shadowing what was
    /// registered there before.
    pub fn register(&mut self, namespace: String, name: String, ty: ExternType)
        ensures
            final(self).entries() == old(self).entries().push(
                ImportEntry { namespace, name, ty },
            ),
    {
        self.entries.push(ImportEntry { namespace, name, ty });
    }

    /// The index of the latest registration under `ns` and `name`, if any.
    fn find(&self, ns: &str, name: &str) -> (r: Option<usize>)
        ensures
            r is None <==> latest_index(self.entries(), ns@, name@) is None,
            r matches Some(i) ==> latest_index(self.entries(), ns@, name@) == Some(i as int) && i
                < self.entries().len(),
    {
        proof {
            lemma_latest_index_bounds(self.entries@, ns@, name@);
        }
        let mut i: usize = self.entries.len();
        assert(self.entries@.subrange(0, i as int) =~= self.entries@);
        while i > 0
            invariant
                i <= self.entries@.len(),
                latest_index(self.entries@, ns@, name@) == latest_index(
                    self.entries@.subrange(0, i as int),
                    ns@,
                    name@,
                ),
            decreases i,
        {
            let e = &self.entries[i - 1];
            assert(self.entries@.subrange(0, i as int).drop_last() =~= self.entries@.subrange(0, i - 1));
            if same_text(e.namespace.as_str(), ns) && same_text(e.name.as_str(), name) {
                return Some(i - 1);
            }
            i = i - 1;
        }
        None
    }

    /// Links the imports a module declares to the registrations of this
    /// object. Succeeds exactly when every declared import is satisfied, and
    /// then gives, for each, the index of the latest registration under its
    /// namespace and name, the one it is bound to.
    /// Otherwise reports the first import that is not satisfied, and whether
    /// nothing was registered for it or something of another type was.
    pub fn resolve(&self, declared: &Vec<ImportEntry>) -> (r: Result<Vec<usize>, ImportResolutionError>)
        ensures
            r is Ok <==> forall|i: int| 0 <= i < declared@.len() ==> satisfied(self.entries(), #[trigger] declared@[i]),
            r matches Ok(links) ==> links@.len() == declared@.len() && forall|i: int|
                0 <= i < links@.len() ==> links@[i] < self.entries().len() && latest_index(
                    self.entries(),
                    declared@[i].namespace@,
                    declared@[i].name@,
                ) == Some((#[trigger] links@[i]) as int),
            r matches Err(e) ==> {
                &&& e.index < declared@.len()
                &&& !satisfied(self.entries(), declared@[e.index as int])
                &&& forall|i: int| 0 <= i < e.index ==> satisfied(self.entries(), #[trigger] declared@[i])
                &&& e.namespace@ == declared@[e.index as int].namespace@
                &&& e.name@ == declared@[e.index as int].name@
                &&& (e.failure == ResolutionFailure::Missing <==> lookup(
                    self.entries(),
                    declared@[e.index as int].namespace@,
                    declared@[e.index as int].name@,
                ) is None)
            },
    {
        let mut links: Vec<usize> = Vec::new();
        let mut i: usize = 0;
        while i < declared.len()
            invariant
                i <= declared@.len(),
                links@.len() == i,
                forall|j: int| 0 <= j < i ==> satisfied(self.entries(), #[trigger] declared@[j]),
                forall|j: int|
                    0 <= j < i ==> links@[j] < self.entries().len() && latest_index(
                        self.entries(),
                        declared@[j].namespace@,
                        declared@[j].name@,
                    ) == Some((#[trigger] links@[j]) as int),
            decreases declared@.len() - i,
        {
            let d = &declared[i];
            let failure = match self.find(d.namespace.as_str(), d.name.as_str()) {
                None => ResolutionFailure::Missing,
                Some(k) => {
                    if is_compatible(&self.entries[k].ty, &d.ty) {
                        links.push(k);
                        i = i + 1;
                        continue;
                    }
                    ResolutionFailure::Mismatch
                },
            };
            return Err(
                ImportResolutionError {
                    index: i,
                    namespace: d.namespace.clone(),
                    name: d.name.clone(),
                    failure,
                },
            );
        }
        Ok(links)
    }
}

} // verus!
