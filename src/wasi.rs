//! WASI version detection and the description of a WASI program's start-up
//! state.
//!
//! The version is read from the namespaces of a module's function imports.
//! Strict detection asks that all of them live in one namespace, which must
//! be a WASI one; lenient detection takes the first WASI namespace it meets.

use vstd::prelude::*;
use crate::text::same_text;

verus! {

/// The WASI versions this layer recognises.
#[derive(Clone, Copy, Debug, PartialEq, Eq, Structural)]
pub enum Version {
    /// The most recent version known.
    Latest,
    /// The `wasi_unstable` namespace.
    Snapshot0,
    /// The `wasi_snapshot_preview1` namespace.
    Snapshot1,
}

/// The WASI version that the import namespace `ns` stands for, if any.
pub open spec fn namespace_version_spec(ns: Seq<char>) -> Option<Version> {
    if ns == "wasi_unstable"@ {
        Some(Version::Snapshot0)
    } else if ns == "wasi_snapshot_preview1"@ {
        Some(Version::Snapshot1)
    } else {
        None
    }
}

/// The characters of each string of `s`.
pub open spec fn views_of(s: Seq<String>) -> Seq<Seq<char>> {
    s.map_values(|x: String| x@)
}

/// The version of the first WASI namespace of `s`, if any.
pub open spec fn first_version(s: Seq<Seq<char>>) -> Option<Version>
    decreases s.len(),
{
    if s.len() == 0 {
        None
    } else if namespace_version_spec(s[0]) is Some {
        namespace_version_spec(s[0])
    } else {
        first_version(s.drop_first())
    }
}

/// What detection over the import namespaces `s` gives.
pub open spec fn detect_spec(s: Seq<Seq<char>>, strict: bool) -> Option<Version> {
    if strict {
        if s.len() > 0 && forall|i: int| 0 <= i < s.len() ==> #[trigger] s[i] == s[0] {
            namespace_version_spec(s[0])
        } else {
            None
        }
    } else {
        first_version(s)
    }
}

/// The WASI version that the import namespace `ns` stands for, if any.
pub fn namespace_version(ns: &str) -> (r: Option<Version>)
    ensures
        r == namespace_version_spec(ns@),
{
    if same_text(ns, "wasi_unstable") {
        Some(Version::Snapshot0)
    } else if same_text(ns, "wasi_snapshot_preview1") {
        Some(Version::Snapshot1)
    } else {
        None
    }
}

/// Detects the WASI version from the namespaces of a module's function
/// imports, in declaration order. Strict detection gives a version only when
/// every import lives in the same WASI namespace; lenient detection gives the
/// version of the first WASI namespace and looks no further.
pub fn get_version(namespaces: &Vec<String>, strict: bool) -> (r: Option<Version>)
    ensures
        r == detect_spec(views_of(namespaces@), strict),
{
    let ghost v = views_of(namespaces@);
    let n = namespaces.len();
    if strict {
        if n == 0 {
            return None;
        }
        let first = namespaces[0].as_str();
        let mut i: usize = 1;
        while i < n
            invariant
                strict,
                n == namespaces@.len(),
                1 <= i <= n,
                v == views_of(namespaces@),
                v.len() == n,
                first@ == v[0],
                forall|j: int| 0 <= j < i ==> #[trigger] v[j] == v[0],
            decreases n - i,
        {
            if !same_text(namespaces[i].as_str(), first) {
                assert(v[i as int] != v[0]);
                return None;
            }
            i = i + 1;
        }
        namespace_version(first)
    } else {
        let mut i: usize = 0;
        assert(v.subrange(0, n as int) =~= v);
        while i < n
            invariant
                !strict,
                n == namespaces@.len(),
                i <= n,
                v == views_of(namespaces@),
                v.len() == n,
                first_version(v) == first_version(v.subrange(i as int, n as int)),
            decreases n - i,
        {
            let found = namespace_version(namespaces[i].as_str());
            assert(v.subrange(i as int, n as int)[0] == v[i as int]);
            assert(v.subrange(i as int, n as int).drop_first() =~= v.subrange(i + 1, n as int));
            if found.is_some() {
                return found;
            }
            i = i + 1;
        }
        None
    }
}

/// The start-up state of a WASI program: its name, its arguments and its
/// environment variables, in the order they were given.
#[derive(Clone, Debug, PartialEq, Eq)]
pub struct Environment {
    pub program_name: String,
    pub arguments: Vec<String>,
    pub environment: Vec<(String, String)>,
}

/// Gathers the start-up state of a WASI program step by step.
#[derive(Clone, Debug, PartialEq, Eq)]
pub struct StateBuilder {
    pub program_name: String,
    pub arguments: Vec<String>,
    pub environment: Vec<(String, String)>,
}

impl StateBuilder {
    /// A builder for the program `program_name`, with no arguments and an
    /// empty environment.
    pub fn new(program_name: String) -> (r: StateBuilder)
        ensures
            r.program_name == program_name,
            r.arguments@ == Seq::<String>::empty(),
            r.environment@ == Seq::<(String, String)>::empty(),
    {
        StateBuilder { program_name, arguments: Vec::new(), environment: Vec::new() }
    }

    /// Adds one argument after those given so far.
    pub fn argument(self, argument: String) -> (r: StateBuilder)
        ensures
            r.program_name == self.program_name,
            r.arguments@ == self.arguments@.push(argument),
            r.environment@ == self.environment@,
    {
        let mut b = self;
        b.arguments.push(argument);
        b
    }

    /// Adds several arguments, in order, after those given so far.
    pub fn arguments(self, arguments: Vec<String>) -> (r: StateBuilder)
        ensures
            r.program_name == self.program_name,
            r.arguments@ == self.arguments@ + arguments@,
            r.environment@ == self.environment@,
    {
        let mut b = self;
        let mut more = arguments;
        b.arguments.append(&mut more);
        b
    }

    /// Adds the environment variable `key` with the value `value`.
    pub fn environment(self, key: String, value: String) -> (r: StateBuilder)
        ensures
            r.program_name == self.program_name,
            r.arguments@ == self.arguments@,
            r.environment@ == self.environment@.push((key, value)),
    {
        let mut b = self;
        b.environment.push((key, value));
        b
    }

    /// The state gathered so far.
    pub fn finalize(self) -> (r: Environment)
        ensures
            r.program_name == self.program_name,
            r.arguments@ == self.arguments@,
            r.environment@ == self.environment@,
    {
        Environment {
            program_name: self.program_name,
            arguments: self.arguments,
            environment: self.environment,
        }
    }
}

} // verus!
