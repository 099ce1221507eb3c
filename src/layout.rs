//! Layout descriptors and storage regions.
use vstd::arithmetic::power2::is_pow2;
use vstd::layout::{align_of, layout_for_type_is_valid, size_of};
use vstd::prelude::*;

verus! {

/// Storage requirement of a value that has not been built yet.
#[derive(Clone, Copy, Debug, PartialEq, Eq, Structural)]
pub struct Layout {
    pub size: usize,
    pub align: usize,
}

/// A caller-owned span of memory, described by what placement needs to know:
/// how many bytes it holds and the alignment of its start.
#[derive(Clone, Copy, Debug, PartialEq, Eq, Structural)]
pub struct Region {
    pub capacity: usize,
    pub align: usize,
}

/// The layout of values of type `T`.
pub open spec fn layout_of<T>() -> Layout {
    Layout { size: size_of::<T>() as usize, align: align_of::<T>() as usize }
}

/// A value with layout `l` can be built in `r`: enough bytes, and a start
/// aligned at least as strictly as required.
pub open spec fn fits(l: Layout, r: Region) -> bool {
    l.size <= r.capacity && l.align <= r.align
}

/// Whether `n` is a power of two.
pub fn is_power_of_two(n: usize) -> (b: bool)
    ensures
        b == is_pow2(n as int),
{
    reveal(is_pow2);
    if n == 0 {
        return false;
    }
    let mut m: usize = n;
    while m > 1 && m % 2 == 0
        invariant
            m >= 1,
            is_pow2(n as int) == is_pow2(m as int),
        decreases m,
    {
        proof {
            reveal(is_pow2);
        }
        m = m / 2;
    }
    proof {
        reveal(is_pow2);
    }
    m == 1
}

impl Layout {
    /// Alignment is a power of two.
    pub open spec fn wf(self) -> bool {
        is_pow2(self.align as int)
    }

    /// The layout of `T`.
    pub fn of<T>() -> (r: Layout)
        ensures
            r == layout_of::<T>(),
            r.wf(),
            r.size as nat == size_of::<T>(),
            r.align as nat == align_of::<T>(),
            r.size % r.align == 0,
    {
        layout_for_type_is_valid::<T>();
        Layout { size: core::mem::size_of::<T>(), align: core::mem::align_of::<T>() }
    }

    /// A layout of `size` bytes aligned to `align`, if `align` is a power of two.
    pub fn from_size_align(size: usize, align: usize) -> (r: Option<Layout>)
        ensures
            r is Some <==> is_pow2(align as int),
            r matches Some(l) ==> l.size == size && l.align == align,
    {
        if is_power_of_two(align) {
            Some(Layout { size, align })
        } else {
            None
        }
    }

    /// The region that holds exactly this layout and nothing more.
    pub fn exact_region(&self) -> (r: Region)
        ensures
            r.capacity == self.size,
            r.align == self.align,
            fits(*self, r),
    {
        Region { capacity: self.size, align: self.align }
    }
}

impl Region {
    /// Alignment is a power of two.
    pub open spec fn wf(self) -> bool {
        is_pow2(self.align as int)
    }

    /// A region of `capacity` bytes whose start is aligned to `align`, if
    /// `align` is a power of two.
    pub fn new(capacity: usize, align: usize) -> (r: Option<Region>)
        ensures
            r is Some <==> is_pow2(align as int),
            r matches Some(g) ==> g.capacity == capacity && g.align == align,
    {
        if is_power_of_two(align) {
            Some(Region { capacity, align })
        } else {
            None
        }
    }

    /// Whether a value with layout `l` can be built here.
    pub fn fits(&self, l: &Layout) -> (b: bool)
        ensures
            b == fits(*l, *self),
    {
        l.size <= self.capacity && l.align <= self.align
    }
}

/// A region of exactly the reported size and alignment always takes the
/// value: the reported layout is neither too small nor too large by one.
pub proof fn lemma_exact_region_fits(l: Layout)
    ensures
        fits(l, Region { capacity: l.size, align: l.align }),
        !fits(l, Region { capacity: (l.size - 1) as usize, align: l.align }) || l.size == 0,
{
}

} // verus!
