//! Instances: a module linked to its imports, owning its memories and
//! exposing its exports by name.
//!
//! Exports refer to what the instance owns by index into the instance's own
//! tables, never by a reference of their own. A call goes in two steps around
//! the engine that runs it: `prepare_call` finds the export and converts the
//! arguments without touching the instance; `finish_call` converts the
//! results, and marks the instance unusable after a fatal trap.

use vstd::prelude::*;
use crate::dispatch::{
    collect_results, converts_upto, is_fatal, is_fatal_spec, kinds_match, prepare_arguments,
    CallError, FunctionSignature, Trap,
};
use crate::imports::{
    latest_index, lookup, satisfied, ImportEntry, ImportObject, ImportResolutionError, Limits,
    ResolutionFailure,
};
use crate::memory::{
    bytes_spec, element_spec, encode, growth_allowed, grown, lane_fits, splice, width_of, MemoryError,
    MemoryRegion, MemoryView, MAX_PAGES, PAGE_SIZE,
};
use crate::text::same_text;
use crate::imports::ExternType;
use crate::values::{from_wasm_spec, to_wasm_spec, ConversionError, HostValue, ValueKind, WasmValue};
use crate::wasi::{detect_spec, get_version, views_of, Version};

verus! {

/// What an export stands for.
#[derive(Clone, Debug, PartialEq, Eq)]
pub enum ExportItem {
    /// A function of the given signature.
    Function(FunctionSignature),
    /// The memory at this index of the instance's memories.
    Memory(usize),
    /// A global of the given value type and mutability.
    Global { kind: ValueKind, mutable: bool },
    /// A table of the given element type and limits.
    Table { element: ValueKind, limits: Limits },
}

/// A named export.
#[derive(Clone, Debug, PartialEq, Eq)]
pub struct Export {
    pub name: String,
    pub item: ExportItem,
}

/// What a compiled module declares: its imports, the memories it defines
/// and its exports.
#[derive(Clone, Debug, PartialEq, Eq)]
pub struct Module {
    pub imports: Vec<ImportEntry>,
    pub memories: Vec<Limits>,
    pub exports: Vec<Export>,
}

/// Why instantiation failed. No instance exists after a failure.
#[derive(Clone, Debug, PartialEq, Eq)]
pub enum InstantiationError {
    /// An import is missing or of the wrong type.
    ImportResolution(ImportResolutionError),
    /// A memory the module defines has limits that cannot be honoured.
    Memory(MemoryError),
}

/// A call whose arguments are ready for the engine.
#[derive(Clone, Debug, PartialEq, Eq)]
pub struct PreparedCall {
    pub export: usize,
    pub args: Vec<WasmValue>,
}

/// A module linked to its imports.
pub struct Instance {
    exports: Vec<Export>,
    memories: Vec<MemoryRegion>,
    links: Vec<usize>,
    store: u64,
    usable: bool,
}

/// Whether limits can be honoured by a new memory.
pub open spec fn limits_valid(l: Limits) -> bool {
    &&& l.minimum <= MAX_PAGES
    &&& l.maximum matches Some(m) ==> l.minimum <= m <= MAX_PAGES
    &&& l.minimum * PAGE_SIZE <= usize::MAX
}

/// Whether the registrations `s` satisfy every import of `decls`.
pub open spec fn imports_satisfied(s: Seq<ImportEntry>, decls: Seq<ImportEntry>) -> bool {
    forall|i: int| 0 <= i < decls.len() ==> satisfied(s, #[trigger] decls[i])
}

/// Whether every one of the limits can be honoured by a new memory.
pub open spec fn memories_valid(limits: Seq<Limits>) -> bool {
    forall|i: int| 0 <= i < limits.len() ==> limits_valid(#[trigger] limits[i])
}

/// Whether `e` reports the first import of `decls` that the registrations
/// `s` do not satisfy: its position, namespace and name, and whether nothing
/// was registered for it or something of another type was.
pub open spec fn names_first_unsatisfied(
    s: Seq<ImportEntry>,
    decls: Seq<ImportEntry>,
    e: ImportResolutionError,
) -> bool {
    &&& e.index < decls.len()
    &&& !satisfied(s, decls[e.index as int])
    &&& forall|i: int| 0 <= i < e.index ==> satisfied(s, #[trigger] decls[i])
    &&& e.namespace@ == decls[e.index as int].namespace@
    &&& e.name@ == decls[e.index as int].name@
    &&& (e.failure == ResolutionFailure::Missing <==> lookup(
        s,
        decls[e.index as int].namespace@,
        decls[e.index as int].name@,
    ) is None)
}

/// The position of the first export of `s` named `name`, if any.
pub open spec fn export_index(s: Seq<Export>, name: Seq<char>) -> Option<int>
    decreases s.len(),
{
    if s.len() == 0 {
        None
    } else if s[0].name@ == name {
        Some(0)
    } else {
        match export_index(s.drop_first(), name) {
            Some(i) => Some(i + 1),
            None => None,
        }
    }
}

proof fn lemma_export_index_bounds(s: Seq<Export>, name: Seq<char>)
    ensures
        export_index(s, name) matches Some(i) ==> 0 <= i < s.len() && s[i].name@ == name,
    decreases s.len(),
{
    if s.len() > 0 {
        lemma_export_index_bounds(s.drop_first(), name);
    }
}

/// The namespaces of the function imports among `s`, in order.
pub open spec fn function_namespaces(s: Seq<ImportEntry>) -> Seq<Seq<char>>
    decreases s.len(),
{
    if s.len() == 0 {
        Seq::empty()
    } else if s.last().ty is Function {
        function_namespaces(s.drop_last()).push(s.last().namespace@)
    } else {
        function_namespaces(s.drop_last())
    }
}

impl Module {
    /// Detects the WASI version a module expects from the namespaces of its
    /// function imports, strictly or leniently as `wasi::get_version` does.
    pub fn wasi_version(&self, strict: bool) -> (r: Option<Version>)
        ensures
            r == detect_spec(function_namespaces(self.imports@), strict),
    {
        let mut names: Vec<String> = Vec::new();
        let mut i: usize = 0;
        assert(self.imports@.subrange(0, 0) =~= Seq::<ImportEntry>::empty());
        assert(views_of(names@) =~= Seq::<Seq<char>>::empty());
        while i < self.imports.len()
            invariant
                i <= self.imports@.len(),
                views_of(names@) == function_namespaces(self.imports@.subrange(0, i as int)),
            decreases self.imports@.len() - i,
        {
            let ghost before = names@;
            assert(self.imports@.subrange(0, i + 1).drop_last() =~= self.imports@.subrange(0, i as int));
            match &self.imports[i].ty {
                ExternType::Function(_) => {
                    names.push(self.imports[i].namespace.clone());
                    assert(views_of(names@) =~= views_of(before).push(self.imports@[i as int].namespace@));
                },
                _ => {},
            }
            i = i + 1;
        }
        assert(self.imports@.subrange(0, i as int) =~= self.imports@);
        get_version(&names, strict)
    }
}

/// Makes a zeroed memory for each of the given limits, in order.
fn make_memories(limits: &Vec<Limits>) -> (r: Result<Vec<MemoryRegion>, MemoryError>)
    ensures
        r is Ok <==> forall|i: int| 0 <= i < limits@.len() ==> limits_valid(#[trigger] limits@[i]),
        r matches Ok(ms) ==> ms@.len() == limits@.len() && forall|i: int|
            0 <= i < ms@.len() ==> (#[trigger] ms@[i]).wf() && ms@[i]@.generation == 0
                && ms@[i]@.pages == limits@[i].minimum,
        r is Err ==> r == Err::<Vec<MemoryRegion>, MemoryError>(MemoryError::Limits),
{
    let mut out: Vec<MemoryRegion> = Vec::new();
    let mut i: usize = 0;
    while i < limits.len()
        invariant
            i <= limits@.len(),
            out@.len() == i,
            forall|j: int| 0 <= j < i ==> limits_valid(#[trigger] limits@[j]),
            forall|j: int|
                0 <= j < i ==> (#[trigger] out@[j]).wf() && out@[j]@.generation == 0
                    && out@[j]@.pages == limits@[j].minimum,
        decreases limits@.len() - i,
    {
        let l = limits[i];
        match MemoryRegion::new(l.minimum, l.maximum) {
            Ok(m) => out.push(m),
            Err(e) => {
                return Err(e);
            },
        }
        i = i + 1;
    }
    Ok(out)
}

impl Instance {
    /// The exports, in the module's order.
    pub closed spec fn exports(&self) -> Seq<Export> {
        self.exports@
    }

    /// The memories the instance owns.
    pub closed spec fn memories(&self) -> Seq<MemoryRegion> {
        self.memories@
    }

    /// For each import of the module, the registration it was linked to.
    pub closed spec fn links(&self) -> Seq<usize> {
        self.links@
    }

    /// The store whose references the instance accepts.
    pub closed spec fn store(&self) -> u64 {
        self.store
    }

    /// Whether the instance still accepts calls.
    pub closed spec fn usable(&self) -> bool {
        self.usable
    }

    /// Whether every memory of the instance is consistent.
    pub closed spec fn wf(&self) -> bool {
        forall|i: int| 0 <= i < self.memories@.len() ==> (#[trigger] self.memories@[i]).wf()
    }

    /// Links `module` to `imports` and makes its memories. Instantiation is
    /// all or nothing: it fails, producing no instance, where an import is
    /// not satisfied (naming the first such import) or where a memory's
    /// limits cannot be honoured.
    pub fn instantiate(module: Module, imports: &ImportObject, store: u64) -> (r: Result<
        Instance,
        InstantiationError,
    >)
        ensures
            !imports_satisfied(imports.entries(), module.imports@) ==> (r matches Err(
                InstantiationError::ImportResolution(e),
            ) && names_first_unsatisfied(imports.entries(), module.imports@, e)),
            imports_satisfied(imports.entries(), module.imports@) && !memories_valid(
                module.memories@,
            ) ==> r == Err::<Instance, InstantiationError>(
                InstantiationError::Memory(MemoryError::Limits),
            ),
            r is Ok <==> (imports_satisfied(imports.entries(), module.imports@) && memories_valid(
                module.memories@,
            )),
            r matches Ok(inst) ==> {
                &&& inst.wf()
                &&& inst.usable()
                &&& inst.store() == store
                &&& inst.exports() == module.exports@
                &&& inst.links().len() == module.imports@.len()
                &&& forall|i: int|
                    0 <= i < inst.links().len() ==> latest_index(
                        imports.entries(),
                        module.imports@[i].namespace@,
                        module.imports@[i].name@,
                    ) == Some((#[trigger] inst.links()[i]) as int)
                &&& inst.memories().len() == module.memories@.len()
                &&& forall|i: int|
                    0 <= i < inst.memories().len() ==> (#[trigger] inst.memories()[i])@.pages
                        == module.memories@[i].minimum && inst.memories()[i]@.generation == 0
            },
    {
        let links = match imports.resolve(&module.imports) {
            Ok(links) => links,
            Err(e) => {
                return Err(InstantiationError::ImportResolution(e));
            },
        };
        let memories = match make_memories(&module.memories) {
            Ok(ms) => ms,
            Err(e) => {
                return Err(InstantiationError::Memory(e));
            },
        };
        Ok(Instance { exports: module.exports, memories, links, store, usable: true })
    }

    /// The index of the first export named `name`, if any.
    pub fn find_export(&self, name: &str) -> (r: Option<usize>)
        ensures
            r is None <==> export_index(self.exports(), name@) is None,
            r matches Some(i) ==> export_index(self.exports(), name@) == Some(i as int) && i
                < self.exports().len(),
    {
        proof {
            lemma_export_index_bounds(self.exports@, name@);
        }
        let n = self.exports.len();
        let mut i: usize = 0;
        assert(self.exports@.subrange(0, n as int) =~= self.exports@);
        while i < n
            invariant
                n == self.exports@.len(),
                i <= n,
                export_index(self.exports@, name@) == match export_index(
                    self.exports@.subrange(i as int, n as int),
                    name@,
                ) {
                    Some(k) => Some(k + i),
                    None => None::<int>,
                },
            decreases n - i,
        {
            let ghost rest = self.exports@.subrange(i as int, n as int);
            assert(rest.drop_first() =~= self.exports@.subrange(i + 1, n as int));
            assert(rest[0] == self.exports@[i as int]);
            if same_text(self.exports[i].name.as_str(), name) {
                return Some(i);
            }
            i = i + 1;
        }
        None
    }

    /// Finds the function exported as `name` and converts `args` to its
    /// parameter types. Refuses, before any module code runs and with the
    /// instance untouched, a call to an unusable instance, to a name that is
    /// not exported or not a function, with the wrong number of arguments, or
    /// with an argument that does not convert.
    pub fn prepare_call(&self, name: &str, args: Vec<HostValue>) -> (r: Result<
        PreparedCall,
        CallError,
    >)
        ensures
            !self.usable() ==> r == Err::<PreparedCall, CallError>(CallError::Unusable),
            self.usable() ==> match export_index(self.exports(), name@) {
                None => r == Err::<PreparedCall, CallError>(CallError::UnknownExport),
                Some(i) => match self.exports()[i].item {
                    ExportItem::Function(sig) => {
                        &&& args@.len() != sig.params@.len() ==> r == Err::<
                            PreparedCall,
                            CallError,
                        >(
                            CallError::Arity {
                                expected: sig.params@.len() as usize,
                                given: args@.len() as usize,
                            },
                        )
                        &&& args@.len() == sig.params@.len() ==> {
                            &&& r is Ok <==> converts_upto(
                                args@,
                                sig.params@,
                                self.store(),
                                args@.len() as int,
                            )
                            &&& r matches Ok(c) ==> c.export == i && c.args@.len() == args@.len()
                                && forall|j: int|
                                0 <= j < args@.len() ==> to_wasm_spec(
                                    args@[j],
                                    sig.params@[j],
                                    self.store(),
                                ) == Ok::<WasmValue, ConversionError>(#[trigger] c.args@[j])
                            &&& r matches Err(e) ==> e is Conversion
                        }
                    },
                    _ => r == Err::<PreparedCall, CallError>(CallError::NotAFunction),
                },
            },
    {
        if !self.usable {
            return Err(CallError::Unusable);
        }
        let i = match self.find_export(name) {
            Some(i) => i,
            None => {
                return Err(CallError::UnknownExport);
            },
        };
        match &self.exports[i].item {
            ExportItem::Function(sig) => {
                match prepare_arguments(sig, args, self.store) {
                    Ok(converted) => Ok(PreparedCall { export: i, args: converted }),
                    Err(e) => Err(e),
                }
            },
            _ => Err(CallError::NotAFunction),
        }
    }

    /// Takes what the engine returned for a call of the function export
    /// `export` and gives the host results, in declared order. A trap is
    /// reported as such; a fatal one also leaves the instance unusable for
    /// later calls, while any other leaves it as it was.
    pub fn finish_call(&mut self, export: usize, outcome: Result<Vec<WasmValue>, Trap>) -> (r: Result<
        Vec<HostValue>,
        CallError,
    >)
        requires
            export < old(self).exports().len(),
            old(self).exports()[export as int].item is Function,
        ensures
            old(self).wf() ==> final(self).wf(),
            final(self).exports() == old(self).exports(),
            final(self).memories() == old(self).memories(),
            final(self).links() == old(self).links(),
            final(self).store() == old(self).store(),
            final(self).usable() == (old(self).usable() && !(outcome matches Err(t) && is_fatal_spec(t.kind))),
            match old(self).exports()[export as int].item {
                ExportItem::Function(sig) => match outcome {
                    Err(t) => r == Err::<Vec<HostValue>, CallError>(CallError::Trap(t)),
                    Ok(vals) => if kinds_match(vals@, sig.results@) {
                        r matches Ok(hs) && hs@.len() == vals@.len() && forall|j: int|
                            0 <= j < hs@.len() ==> #[trigger] hs@[j] == from_wasm_spec(vals@[j])
                    } else {
                        r == Err::<Vec<HostValue>, CallError>(CallError::ResultMismatch)
                    },
                },
                _ => false,
            },
    {
        match &outcome {
            Err(t) => {
                if is_fatal(t.kind) {
                    self.usable = false;
                }
            },
            Ok(_) => {},
        }
        match &self.exports[export].item {
            ExportItem::Function(sig) => collect_results(sig, outcome),
            _ => Err(CallError::NotAFunction),
        }
    }

    /// The number of memories the instance owns.
    pub fn memory_count(&self) -> (r: usize)
        ensures
            r == self.memories().len(),
    {
        self.memories.len()
    }

    /// The memory at `index`.
    pub fn memory(&self, index: usize) -> (r: &MemoryRegion)
        requires
            index < self.memories().len(),
        ensures
            *r == self.memories()[index as int],
    {
        &self.memories[index]
    }

    /// Copies the bytes of `src` into the memory at `index` through the view
    /// `v`, as `MemoryRegion::write_bytes` does; the other memories, the
    /// exports and the instance's state are left as they were.
    pub fn write_memory_bytes(&mut self, index: usize, v: &MemoryView, start: usize, src: &[u8]) -> (r: Result<
        (),
        MemoryError,
    >)
        requires
            old(self).wf(),
            index < old(self).memories().len(),
        ensures
            final(self).wf(),
            final(self).exports() == old(self).exports(),
            final(self).usable() == old(self).usable(),
            final(self).memories().len() == old(self).memories().len(),
            forall|j: int|
                0 <= j < old(self).memories().len() && j != index ==> final(self).memories()[j]
                    == old(self).memories()[j],
            final(self).memories()[index as int]@.pages == old(self).memories()[index as int]@.pages,
            final(self).memories()[index as int]@.generation == old(self).memories()[index as int]@.generation,
            match bytes_spec(old(self).memories()[index as int]@, *v, start as int, src@.len() as int) {
                Ok(_) => r is Ok && final(self).memories()[index as int]@.bytes == splice(
                    old(self).memories()[index as int]@.bytes,
                    v.offset + start,
                    src@,
                ),
                Err(e) => r == Err::<(), MemoryError>(e) && final(self).memories()[index as int]@
                    == old(self).memories()[index as int]@,
            },
    {
        let mut m = self.memories.remove(index);
        let r = m.write_bytes(v, start, src);
        self.memories.insert(index, m);
        proof {
            assert forall|j: int| 0 <= j < self.memories@.len() implies (#[trigger] self.memories@[j]).wf() by {
                if j != index {
                    assert(self.memories@[j] == old(self).memories@[j]);
                }
            }
        }
        r
    }

    /// Writes `value` into element `index_in_view` of the view `v` over the
    /// memory at `index`, as `MemoryRegion::write_element` does; the other
    /// memories, the exports and the instance's state are left as they were.
    pub fn write_memory_element(&mut self, index: usize, v: &MemoryView, index_in_view: usize, value: i64) -> (r: Result<
        (),
        MemoryError,
    >)
        requires
            old(self).wf(),
            index < old(self).memories().len(),
        ensures
            final(self).wf(),
            final(self).exports() == old(self).exports(),
            final(self).usable() == old(self).usable(),
            final(self).memories().len() == old(self).memories().len(),
            forall|j: int|
                0 <= j < old(self).memories().len() && j != index ==> final(self).memories()[j]
                    == old(self).memories()[j],
            final(self).memories()[index as int]@.pages == old(self).memories()[index as int]@.pages,
            final(self).memories()[index as int]@.generation == old(self).memories()[index as int]@.generation,
            match element_spec(old(self).memories()[index as int]@, *v, index_in_view as int) {
                Ok(_) => if lane_fits(value as int, v.kind) {
                    r is Ok && final(self).memories()[index as int]@.bytes == splice(
                        old(self).memories()[index as int]@.bytes,
                        v.offset + index_in_view * width_of(v.kind),
                        encode(value as int, v.kind),
                    )
                } else {
                    r == Err::<(), MemoryError>(MemoryError::Range) && final(self).memories()[index as int]@
                        == old(self).memories()[index as int]@
                },
                Err(e) => r == Err::<(), MemoryError>(e) && final(self).memories()[index as int]@
                    == old(self).memories()[index as int]@,
            },
    {
        let mut m = self.memories.remove(index);
        let r = m.write_element(v, index_in_view, value);
        self.memories.insert(index, m);
        proof {
            assert forall|j: int| 0 <= j < self.memories@.len() implies (#[trigger] self.memories@[j]).wf() by {
                if j != index {
                    assert(self.memories@[j] == old(self).memories@[j]);
                }
            }
        }
        r
    }

    /// Grows the memory at `index` by `delta` pages, as `MemoryRegion::grow`
    /// does; the other memories and the exports are left as they were.
    pub fn grow_memory(&mut self, index: usize, delta: u32) -> (r: Result<u32, MemoryError>)
        requires
            old(self).wf(),
            index < old(self).memories().len(),
        ensures
            final(self).wf(),
            final(self).exports() == old(self).exports(),
            final(self).usable() == old(self).usable(),
            final(self).memories().len() == old(self).memories().len(),
            forall|j: int|
                0 <= j < old(self).memories().len() && j != index ==> final(self).memories()[j]
                    == old(self).memories()[j],
            growth_allowed(old(self).memories()[index as int]@, delta as nat)
                <==> r is Ok,
            r matches Ok(p) ==> p == old(self).memories()[index as int]@.pages
                && final(self).memories()[index as int]@ == grown(
                old(self).memories()[index as int]@,
                delta as nat,
            ),
            r is Err ==> final(self).memories()[index as int]@ == old(self).memories()[index as int]@,
    {
        let mut m = self.memories.remove(index);
        let r = m.grow(delta);
        self.memories.insert(index, m);
        proof {
            assert forall|j: int| 0 <= j < self.memories@.len() implies (#[trigger] self.memories@[j]).wf() by {
                if j != index {
                    assert(self.memories@[j] == old(self).memories@[j]);
                }
            }
        }
        r
    }
}

} // verus!
