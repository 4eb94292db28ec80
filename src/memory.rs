//! Linear memory and the views through which the host reads and writes it.
//!
//! A region carries a generation counter that advances on every successful
//! growth. A view records the generation it was made at; an access through a
//! view whose generation is no longer live fails instead of touching memory.
//! Every access also checks its bounds again against the region's current
//! length.

use vstd::prelude::*;

verus! {

/// The size of a WebAssembly page, in bytes.
pub const PAGE_SIZE: usize = 65536;

/// The largest number of pages a 32-bit linear memory can have.
pub const MAX_PAGES: u32 = 65536;

/// The lane layout of a view: raw bytes, or signed or unsigned integers of
/// one, two or four bytes, little-endian.
#[derive(Clone, Copy, Debug, PartialEq, Eq, Structural)]
pub enum ViewKind {
    Bytes,
    Int8,
    Uint8,
    Int16,
    Uint16,
    Int32,
    Uint32,
}

/// How an access to memory failed.
#[derive(Clone, Copy, Debug, PartialEq, Eq, Structural)]
pub enum MemoryError {
    /// The access, or the view being made, reaches past the memory or the view.
    Bounds,
    /// The view was made before the memory last grew.
    StaleView,
    /// The memory cannot grow by the requested number of pages.
    Growth,
    /// The value does not fit the view's lane.
    Range,
    /// The limits given for a new memory contradict each other.
    Limits,
}

/// A window onto a memory region: `length` elements of the given kind from
/// byte `offset`, valid for the generation `generation` of the region.
#[derive(Clone, Copy, Debug, PartialEq, Eq, Structural)]
pub struct MemoryView {
    pub kind: ViewKind,
    pub offset: usize,
    pub length: usize,
    pub generation: u64,
}

/// The abstract state of a memory region.
pub ghost struct RegionState {
    pub bytes: Seq<u8>,
    pub pages: nat,
    pub maximum: Option<nat>,
    pub generation: nat,
}

/// A linear memory: a zero-initialised byte buffer of a whole number of pages.
pub struct MemoryRegion {
    data: Vec<u8>,
    pages: u32,
    maximum: Option<u32>,
    generation: u64,
}

pub open spec fn width_of(k: ViewKind) -> nat {
    match k {
        ViewKind::Bytes | ViewKind::Int8 | ViewKind::Uint8 => 1,
        ViewKind::Int16 | ViewKind::Uint16 => 2,
        ViewKind::Int32 | ViewKind::Uint32 => 4,
    }
}

pub open spec fn is_signed(k: ViewKind) -> bool {
    k == ViewKind::Int8 || k == ViewKind::Int16 || k == ViewKind::Int32
}

/// `2` to the power of the lane's bit width.
pub open spec fn lane_modulus(k: ViewKind) -> int {
    if width_of(k) == 1 {
        0x100
    } else if width_of(k) == 2 {
        0x1_0000
    } else {
        0x1_0000_0000
    }
}

/// Whether `v` is a value of the lane `k`.
pub open spec fn lane_fits(v: int, k: ViewKind) -> bool {
    if is_signed(k) {
        -(lane_modulus(k) / 2) <= v < lane_modulus(k) / 2
    } else {
        0 <= v < lane_modulus(k)
    }
}

/// The unsigned little-endian number held by the first `width_of(k)` bytes of `b`.
pub open spec fn unsigned_of(b: Seq<u8>, k: ViewKind) -> int {
    if width_of(k) == 1 {
        b[0] as int
    } else if width_of(k) == 2 {
        b[0] + 0x100 * b[1]
    } else {
        b[0] + 0x100 * b[1] + 0x1_0000 * b[2] + 0x100_0000 * b[3]
    }
}

/// The value of lane `k` encoded by the bytes `b`.
pub open spec fn decode(b: Seq<u8>, k: ViewKind) -> int {
    let u = unsigned_of(b, k);
    if is_signed(k) && u >= lane_modulus(k) / 2 {
        u - lane_modulus(k)
    } else {
        u
    }
}

/// The little-endian bytes of the lane value `v` of kind `k`.
pub open spec fn encode(v: int, k: ViewKind) -> Seq<u8> {
    let u = if v < 0 {
        v + lane_modulus(k)
    } else {
        v
    };
    if width_of(k) == 1 {
        seq![u as u8]
    } else if width_of(k) == 2 {
        seq![(u % 0x100) as u8, (u / 0x100) as u8]
    } else {
        seq![
            (u % 0x100) as u8,
            (u / 0x100 % 0x100) as u8,
            (u / 0x1_0000 % 0x100) as u8,
            (u / 0x100_0000) as u8,
        ]
    }
}

/// `s` with the bytes from `start` on replaced by `b`.
pub open spec fn splice(s: Seq<u8>, start: int, b: Seq<u8>) -> Seq<u8> {
    Seq::new(
        s.len(),
        |j: int|
            if start <= j < start + b.len() {
                b[j - start]
            } else {
                s[j]
            },
    )
}

/// The byte length covered by a view.
pub open spec fn span_of(v: MemoryView) -> int {
    v.length * width_of(v.kind)
}

/// Whether the view `v` is live in `s` and lies within its bytes, as a view
/// that `create_view` has just made does.
pub open spec fn view_ok(s: RegionState, v: MemoryView) -> bool {
    v.generation == s.generation && v.offset + span_of(v) <= s.bytes.len()
}

/// What reading element `i` through `v` gives in the state `s`.
pub open spec fn element_spec(s: RegionState, v: MemoryView, i: int) -> Result<int, MemoryError> {
    let w = width_of(v.kind) as int;
    let start = v.offset + i * w;
    if v.generation != s.generation {
        Err(MemoryError::StaleView)
    } else if i < 0 || i >= v.length || start + w > s.bytes.len() {
        Err(MemoryError::Bounds)
    } else {
        Ok(decode(s.bytes.subrange(start, start + w), v.kind))
    }
}

/// What copying `len` bytes out of `v`, from byte `start` of the view, gives
/// in the state `s`.
pub open spec fn bytes_spec(s: RegionState, v: MemoryView, start: int, len: int) -> Result<
    Seq<u8>,
    MemoryError,
> {
    if v.generation != s.generation {
        Err(MemoryError::StaleView)
    } else if start < 0 || len < 0 || start + len > span_of(v) || v.offset + start + len
        > s.bytes.len() {
        Err(MemoryError::Bounds)
    } else {
        Ok(s.bytes.subrange(v.offset + start, v.offset + start + len))
    }
}

/// The state after a growth by `delta` pages that was allowed.
pub open spec fn grown(s: RegionState, delta: nat) -> RegionState {
    RegionState {
        bytes: s.bytes + Seq::new((delta * PAGE_SIZE) as nat, |j: int| 0u8),
        pages: s.pages + delta,
        maximum: s.maximum,
        generation: s.generation + 1,
    }
}

/// Whether a growth by `delta` pages is allowed in the state `s`.
pub open spec fn growth_allowed(s: RegionState, delta: nat) -> bool {
    &&& s.pages + delta <= MAX_PAGES
    &&& s.maximum matches Some(m) ==> s.pages + delta <= m
    &&& (s.pages + delta) * PAGE_SIZE <= usize::MAX
    &&& s.generation < u64::MAX
}

impl View for MemoryRegion {
    type V = RegionState;

    closed spec fn view(&self) -> RegionState {
        RegionState {
            bytes: self.data@,
            pages: self.pages as nat,
            maximum: match self.maximum {
                Some(m) => Some(m as nat),
                None => None,
            },
            generation: self.generation as nat,
        }
    }
}

/// The number of bytes of `count` elements of width `w`, without overflow.
fn byte_span(count: usize, w: usize) -> (r: u128)
    requires
        w <= 4,
    ensures
        r == count * w,
        r <= count * 4,
{
    proof {
        assert(count * w <= count * 4) by (nonlinear_arith)
            requires
                w <= 4,
        ;
    }
    (count as u128) * (w as u128)
}

/// The width in bytes of one element of a view of kind `k`.
pub fn width(k: ViewKind) -> (r: usize)
    ensures
        r == width_of(k),
{
    match k {
        ViewKind::Bytes | ViewKind::Int8 | ViewKind::Uint8 => 1,
        ViewKind::Int16 | ViewKind::Uint16 => 2,
        ViewKind::Int32 | ViewKind::Uint32 => 4,
    }
}

/// Appends `n` zero bytes to `v`.
fn push_zeros(v: &mut Vec<u8>, n: usize)
    ensures
        final(v)@ == old(v)@ + Seq::new(n as nat, |j: int| 0u8),
{
    let ghost start = v@;
    let mut k: usize = 0;
    while k < n
        invariant
            k <= n,
            v@ == start + Seq::new(k as nat, |j: int| 0u8),
        decreases n - k,
    {
        v.push(0u8);
        k = k + 1;
        assert(v@ =~= start + Seq::new(k as nat, |j: int| 0u8));
    }
}

impl MemoryRegion {
    /// Whether the region's fields are consistent: the buffer holds a whole
    /// number of pages, and the page count stays within the maximum.
    pub closed spec fn wf(&self) -> bool {
        &&& self.data@.len() == self.pages * PAGE_SIZE
        &&& self.pages <= MAX_PAGES
        &&& self.maximum matches Some(m) ==> self.pages <= m <= MAX_PAGES
    }

    /// Makes a zeroed memory of `minimum` pages that may grow up to `maximum`
    /// pages, or without a bound of its own when `maximum` is `None`.
    pub fn new(minimum: u32, maximum: Option<u32>) -> (r: Result<MemoryRegion, MemoryError>)
        ensures
            r is Err <==> (minimum > MAX_PAGES || (maximum matches Some(m) && (m < minimum || m
                > MAX_PAGES)) || minimum * PAGE_SIZE > usize::MAX),
            r is Err ==> r == Err::<MemoryRegion, MemoryError>(MemoryError::Limits),
            r matches Ok(region) ==> {
                &&& region.wf()
                &&& region@.bytes == Seq::new((minimum * PAGE_SIZE) as nat, |j: int| 0u8)
                &&& region@.pages == minimum
                &&& region@.maximum == (match maximum {
                    Some(m) => Some(m as nat),
                    None => None::<nat>,
                })
                &&& region@.generation == 0
            },
    {
        if minimum > MAX_PAGES {
            return Err(MemoryError::Limits);
        }
        match maximum {
            Some(m) => {
                if m < minimum || m > MAX_PAGES {
                    return Err(MemoryError::Limits);
                }
            },
            None => {},
        }
        let n: u64 = minimum as u64 * PAGE_SIZE as u64;
        if n > usize::MAX as u64 {
            return Err(MemoryError::Limits);
        }
        let mut data: Vec<u8> = Vec::new();
        push_zeros(&mut data, n as usize);
        assert(data@ =~= Seq::new((minimum * PAGE_SIZE) as nat, |j: int| 0u8));
        Ok(MemoryRegion { data, pages: minimum, maximum, generation: 0 })
    }

    /// The current length of the memory in bytes.
    pub fn byte_length(&self) -> (r: usize)
        ensures
            r == self@.bytes.len(),
    {
        self.data.len()
    }

    /// The current size of the memory in pages.
    pub fn pages(&self) -> (r: u32)
        requires
            self.wf(),
        ensures
            r == self@.pages,
            self@.bytes.len() == r * PAGE_SIZE,
    {
        self.pages
    }

    /// The live generation of the memory.
    pub fn generation(&self) -> (r: u64)
        ensures
            r == self@.generation,
    {
        self.generation
    }

    /// Grows the memory by `delta` pages of zeros and returns the previous
    /// size in pages. Every view made before a successful growth goes stale.
    /// Fails, leaving the memory as it was, where the new size would pass the
    /// declared maximum or the largest size of a 32-bit memory, or where the
    /// generation counter is spent.
    pub fn grow(&mut self, delta: u32) -> (r: Result<u32, MemoryError>)
        requires
            old(self).wf(),
        ensures
            final(self).wf(),
            r is Ok <==> growth_allowed(old(self)@, delta as nat),
            r matches Ok(p) ==> p == old(self)@.pages && final(self)@ == grown(
                old(self)@,
                delta as nat,
            ),
            r is Err ==> r == Err::<u32, MemoryError>(MemoryError::Growth) && final(self)@ == old(
                self,
            )@,
    {
        let new_pages: u64 = self.pages as u64 + delta as u64;
        if new_pages > MAX_PAGES as u64 {
            return Err(MemoryError::Growth);
        }
        match self.maximum {
            Some(m) => {
                if new_pages > m as u64 {
                    return Err(MemoryError::Growth);
                }
            },
            None => {},
        }
        if self.generation == u64::MAX {
            return Err(MemoryError::Growth);
        }
        if new_pages * (PAGE_SIZE as u64) > usize::MAX as u64 {
            return Err(MemoryError::Growth);
        }
        let previous = self.pages;
        push_zeros(&mut self.data, (delta as u64 * PAGE_SIZE as u64) as usize);
        self.pages = new_pages as u32;
        self.generation = self.generation + 1;
        Ok(previous)
    }
    /// Makes a view of `length` elements of kind `kind` from byte `offset`,
    /// valid until the memory next grows. Fails with a bounds error where the
    /// view would reach past the end of the memory.
    pub fn create_view(&self, kind: ViewKind, offset: usize, length: usize) -> (r: Result<
        MemoryView,
        MemoryError,
    >)
        ensures
            r is Ok <==> offset + length * width_of(kind) <= self@.bytes.len(),
            r is Err ==> r == Err::<MemoryView, MemoryError>(MemoryError::Bounds),
            r matches Ok(v) ==> v == (MemoryView {
                kind,
                offset,
                length,
                generation: self@.generation as u64,
            }) && view_ok(self@, v),
    {
        let span = byte_span(length, width(kind));
        if (offset as u128) + span > self.data.len() as u128 {
            return Err(MemoryError::Bounds);
        }
        Ok(MemoryView { kind, offset, length, generation: self.generation })
    }

    /// Checks that `v` is live and that `len` bytes from `start` lie within the
    /// memory; returns `start` as a position in the buffer.
    fn check_access(&self, v: &MemoryView, start: u128, len: usize) -> (r: Result<
        usize,
        MemoryError,
    >)
        requires
            start <= 0x10_0000_0000_0000_0000,
        ensures
            v.generation != self@.generation ==> r == Err::<usize, MemoryError>(
                MemoryError::StaleView,
            ),
            v.generation == self@.generation ==> {
                if start + len > self@.bytes.len() {
                    r == Err::<usize, MemoryError>(MemoryError::Bounds)
                } else {
                    r == Ok::<usize, MemoryError>(start as usize)
                }
            },
    {
        if v.generation != self.generation {
            return Err(MemoryError::StaleView);
        }
        if start + (len as u128) > self.data.len() as u128 {
            return Err(MemoryError::Bounds);
        }
        Ok(start as usize)
    }

    /// Reads element `index` of the view `v`: the `width(v.kind)` bytes at
    /// `v.offset + index * width(v.kind)`, decoded little-endian as the
    /// view's lane type.
    pub fn read_element(&self, v: &MemoryView, index: usize) -> (r: Result<i64, MemoryError>)
        ensures
            match element_spec(self@, *v, index as int) {
                Ok(x) => r == Ok::<i64, MemoryError>(x as i64),
                Err(e) => r == Err::<i64, MemoryError>(e),
            },
    {
        let w = width(v.kind);
        if v.generation != self.generation {
            return Err(MemoryError::StaleView);
        }
        if index >= v.length {
            return Err(MemoryError::Bounds);
        }
        let start = self.check_access(v, (v.offset as u128) + byte_span(index, w), w)?;
        assert(start + w <= self.data.len());
        assert(start == v.offset + index * width_of(v.kind));
        let ghost b = self.data@.subrange(start as int, start + w);
        assert(b[0] == self.data@[start as int]);
        assert(w >= 2 ==> b[1] == self.data@[start + 1]);
        assert(w == 4 ==> b[2] == self.data@[start + 2] && b[3] == self.data@[start + 3]);
        let b0 = self.data[start] as i64;
        let u: i64 = if w == 1 {
            b0
        } else if w == 2 {
            b0 + 0x100 * (self.data[start + 1] as i64)
        } else {
            b0 + 0x100 * (self.data[start + 1] as i64) + 0x1_0000 * (self.data[start + 2] as i64)
                + 0x100_0000 * (self.data[start + 3] as i64)
        };
        assert(u == unsigned_of(b, v.kind));
        let half: i64 = if w == 1 {
            0x80
        } else if w == 2 {
            0x8000
        } else {
            0x8000_0000
        };
        assert(2 * half == lane_modulus(v.kind));
        assert(element_spec(self@, *v, index as int) == Ok::<int, MemoryError>(decode(b, v.kind)));
        if is_signed_kind(v.kind) && u >= half {
            Ok(u - 2 * half)
        } else {
            Ok(u)
        }
    }

    /// Writes `value` into element `index` of the view `v`, as the
    /// little-endian bytes of the view's lane type. Fails with a range error,
    /// leaving memory untouched, where the value does not fit the lane.
    pub fn write_element(&mut self, v: &MemoryView, index: usize, value: i64) -> (r: Result<
        (),
        MemoryError,
    >)
        requires
            old(self).wf(),
        ensures
            final(self).wf(),
            final(self)@.pages == old(self)@.pages,
            final(self)@.maximum == old(self)@.maximum,
            final(self)@.generation == old(self)@.generation,
            match element_spec(old(self)@, *v, index as int) {
                Ok(_) => if lane_fits(value as int, v.kind) {
                    r is Ok && final(self)@.bytes == splice(
                        old(self)@.bytes,
                        v.offset + index * width_of(v.kind),
                        encode(value as int, v.kind),
                    )
                } else {
                    r == Err::<(), MemoryError>(MemoryError::Range) && final(self)@ == old(self)@
                },
                Err(e) => r == Err::<(), MemoryError>(e) && final(self)@ == old(self)@,
            },
    {
        let w = width(v.kind);
        if v.generation != self.generation {
            return Err(MemoryError::StaleView);
        }
        if index >= v.length {
            return Err(MemoryError::Bounds);
        }
        let start = self.check_access(v, (v.offset as u128) + byte_span(index, w), w)?;
        let half: i64 = if w == 1 {
            0x80
        } else if w == 2 {
            0x8000
        } else {
            0x8000_0000
        };
        let fits = if is_signed_kind(v.kind) {
            -half <= value && value < half
        } else {
            0 <= value && value < 2 * half
        };
        if !fits {
            return Err(MemoryError::Range);
        }
        let u: u64 = if value < 0 {
            (value + 2 * half) as u64
        } else {
            value as u64
        };
        let ghost before = self.data@;
        let ghost enc = encode(value as int, v.kind);
        if w == 1 {
            self.data[start] = u as u8;
        } else if w == 2 {
            self.data[start] = (u % 0x100) as u8;
            self.data[start + 1] = (u / 0x100) as u8;
        } else {
            self.data[start] = (u % 0x100) as u8;
            self.data[start + 1] = (u / 0x100 % 0x100) as u8;
            self.data[start + 2] = (u / 0x1_0000 % 0x100) as u8;
            self.data[start + 3] = (u / 0x100_0000) as u8;
        }
        assert(self.data@ =~= splice(before, start as int, enc));
        Ok(())
    }

    /// Copies `len` bytes out of the view `v`, from byte `start` of the view.
    pub fn read_bytes(&self, v: &MemoryView, start: usize, len: usize) -> (r: Result<
        Vec<u8>,
        MemoryError,
    >)
        ensures
            match bytes_spec(self@, *v, start as int, len as int) {
                Ok(b) => r matches Ok(out) && out@ == b,
                Err(e) => r matches Err(x) && x == e,
            },
    {
        if v.generation != self.generation {
            return Err(MemoryError::StaleView);
        }
        let span = byte_span(v.length, width(v.kind));
        if (start as u128) + (len as u128) > span {
            return Err(MemoryError::Bounds);
        }
        let p = self.check_access(v, (v.offset as u128) + (start as u128), len)?;
        let mut out: Vec<u8> = Vec::new();
        let mut k: usize = 0;
        while k < len
            invariant
                k <= len,
                p + len <= self.data.len(),
                out@ == self.data@.subrange(p as int, p + k),
            decreases len - k,
        {
            out.push(self.data[p + k]);
            k = k + 1;
            assert(out@ =~= self.data@.subrange(p as int, p + k));
        }
        Ok(out)
    }

    /// Copies the bytes of `src` into the view `v`, from byte `start` of the
    /// view.
    pub fn write_bytes(&mut self, v: &MemoryView, start: usize, src: &[u8]) -> (r: Result<
        (),
        MemoryError,
    >)
        requires
            old(self).wf(),
        ensures
            final(self).wf(),
            final(self)@.pages == old(self)@.pages,
            final(self)@.maximum == old(self)@.maximum,
            final(self)@.generation == old(self)@.generation,
            match bytes_spec(old(self)@, *v, start as int, src@.len() as int) {
                Ok(_) => r is Ok && final(self)@.bytes == splice(
                    old(self)@.bytes,
                    v.offset + start,
                    src@,
                ),
                Err(e) => r == Err::<(), MemoryError>(e) && final(self)@ == old(self)@,
            },
    {
        if v.generation != self.generation {
            return Err(MemoryError::StaleView);
        }
        let len = src.len();
        let span = byte_span(v.length, width(v.kind));
        if (start as u128) + (len as u128) > span {
            return Err(MemoryError::Bounds);
        }
        let p = self.check_access(v, (v.offset as u128) + (start as u128), len)?;
        let ghost before = self.data@;
        let mut k: usize = 0;
        while k < len
            invariant
                k <= len,
                len == src@.len(),
                p + len <= before.len(),
                before.len() == self.data.len(),
                self.pages == old(self).pages,
                self.maximum == old(self).maximum,
                self.generation == old(self).generation,
                self.data@ == splice(before, p as int, src@.subrange(0, k as int)),
            decreases len - k,
        {
            self.data[p + k] = src[k];
            k = k + 1;
            assert(self.data@ =~= splice(before, p as int, src@.subrange(0, k as int)));
        }
        assert(src@.subrange(0, len as int) =~= src@);
        Ok(())
    }
}

/// Whether views of kind `k` hold signed lanes.
pub fn is_signed_kind(k: ViewKind) -> (r: bool)
    ensures
        r == is_signed(k),
{
    match k {
        ViewKind::Int8 | ViewKind::Int16 | ViewKind::Int32 => true,
        _ => false,
    }
}

} // verus!

verus! {

/// Once a memory has grown, every access through a view made before the
/// growth fails as stale, whatever its position; a view made after the growth
/// reads each of its elements, as the decoding of that element's bytes, and
/// each byte range within it. (`write_element` and `write_bytes` succeed
/// exactly where these reads do, given a value that fits the lane.)
pub proof fn lemma_growth_invalidates_views(
    s: RegionState,
    delta: nat,
    before: MemoryView,
    after: MemoryView,
)
    requires
        growth_allowed(s, delta),
        before.generation == s.generation,
        view_ok(grown(s, delta), after),
    ensures
        forall|i: int|
            element_spec(grown(s, delta), before, i) == Err::<int, MemoryError>(
                MemoryError::StaleView,
            ),
        forall|a: int, n: int|
            bytes_spec(grown(s, delta), before, a, n) == Err::<Seq<u8>, MemoryError>(
                MemoryError::StaleView,
            ),
        forall|i: int|
            0 <= i < after.length ==> element_spec(grown(s, delta), after, i) == Ok::<
                int,
                MemoryError,
            >(
                decode(
                    grown(s, delta).bytes.subrange(
                        after.offset + i * width_of(after.kind),
                        after.offset + i * width_of(after.kind) + width_of(after.kind),
                    ),
                    after.kind,
                ),
            ),
        forall|a: int, n: int|
            0 <= a && 0 <= n && a + n <= span_of(after) ==> bytes_spec(
                grown(s, delta),
                after,
                a,
                n,
            ) is Ok,
{
    let t = grown(s, delta);
    let w = width_of(after.kind) as int;
    assert forall|i: int| 0 <= i < after.length implies element_spec(t, after, i) == Ok::<
        int,
        MemoryError,
    >(decode(t.bytes.subrange(after.offset + i * w, after.offset + i * w + w), after.kind)) by {
        assert((i + 1) * w <= after.length * w) by (nonlinear_arith)
            requires
                i + 1 <= after.length,
                w >= 1,
        ;
    }
}

/// Element `i` of a typed view is the decoding of the `width_of` bytes at
/// `offset + i * width_of` as read through a byte view of the same generation
/// that covers the typed view; staleness and bounds failures agree too.
pub proof fn lemma_element_matches_bytes(
    s: RegionState,
    typed: MemoryView,
    bytes: MemoryView,
    i: int,
)
    requires
        bytes.kind == ViewKind::Bytes,
        bytes.generation == typed.generation,
        bytes.offset <= typed.offset,
        typed.offset + span_of(typed) <= bytes.offset + span_of(bytes),
        0 <= i < typed.length,
    ensures
        element_spec(s, typed, i) == (match bytes_spec(
            s,
            bytes,
            typed.offset + i * width_of(typed.kind) - bytes.offset,
            width_of(typed.kind) as int,
        ) {
            Ok(b) => Ok(decode(b, typed.kind)),
            Err(e) => Err(e),
        }),
{
    let w = width_of(typed.kind) as int;
    assert((i + 1) * w <= typed.length * w) by (nonlinear_arith)
        requires
            i + 1 <= typed.length,
            w >= 1,
    ;
    assert(i * w >= 0) by (nonlinear_arith)
        requires
            i >= 0,
            w >= 1,
    ;
}

/// A typed view and a byte view over exactly the same bytes agree at every
/// index `i`: element `i` is the decoding of the `width_of` bytes at
/// `i * width_of` in the byte view, and the element access fails, as stale or
/// out of bounds, exactly when that byte access fails the same way. Writing a
/// value that fits the lane replaces exactly those bytes with its encoding.
pub proof fn lemma_typed_view_is_byte_view(
    s: RegionState,
    typed: MemoryView,
    bytes: MemoryView,
    i: int,
    x: int,
)
    requires
        bytes.kind == ViewKind::Bytes,
        bytes.generation == typed.generation,
        bytes.offset == typed.offset,
        bytes.length == span_of(typed),
    ensures
        element_spec(s, typed, i) == (match bytes_spec(
            s,
            bytes,
            i * width_of(typed.kind),
            width_of(typed.kind) as int,
        ) {
            Ok(b) => Ok(decode(b, typed.kind)),
            Err(e) => Err(e),
        }),
        lane_fits(x, typed.kind) ==> encode(x, typed.kind).len() == width_of(typed.kind),
{
    let w = width_of(typed.kind) as int;
    if i >= typed.length {
        assert(i * w + w > typed.length * w) by (nonlinear_arith)
            requires
                i >= typed.length,
                w >= 1,
        ;
    }
    if 0 <= i < typed.length {
        assert((i + 1) * w <= typed.length * w) by (nonlinear_arith)
            requires
                i + 1 <= typed.length,
                w >= 1,
        ;
    }
    if i < 0 {
        assert(i * w < 0) by (nonlinear_arith)
            requires
                i < 0,
                w >= 1,
        ;
    }
}

} // verus!
