//! A growable buffer: inline storage first, backing storage once the inline
//! part has proved too small.
use crate::deferred::{Deferred, Fatal, Outcome, Placed};
use crate::layout::{fits, layout_of, Layout, Region};
use vstd::prelude::*;

verus! {

/// Storage that starts out inline and spills, once and for good, to backing
/// storage sized for the value that did not fit.
pub struct GrowBuffer {
    inline: Region,
    backing: Region,
    spilled: bool,
    len: usize,
}

impl GrowBuffer {
    pub closed spec fn inline_spec(&self) -> Region {
        self.inline
    }

    pub closed spec fn spilled_spec(&self) -> bool {
        self.spilled
    }

    pub closed spec fn len_spec(&self) -> usize {
        self.len
    }

    /// The region that placements address now.
    pub open spec fn region_spec(&self) -> Region {
        if self.spilled_spec() {
            self.backing_spec()
        } else {
            self.inline_spec()
        }
    }

    pub closed spec fn backing_spec(&self) -> Region {
        self.backing
    }

    /// An empty buffer over the inline region `inline`.
    pub fn new(inline: Region) -> (r: GrowBuffer)
        ensures
            r.inline_spec() == inline,
            r.region_spec() == inline,
            !r.spilled_spec(),
            r.len_spec() == 0,
    {
        GrowBuffer { inline, backing: inline, spilled: false, len: 0 }
    }

    /// Whether the buffer has moved to backing storage.
    pub fn spilled(&self) -> (r: bool)
        ensures
            r == self.spilled_spec(),
    {
        self.spilled
    }

    /// Bytes the current storage holds.
    pub fn capacity(&self) -> (r: usize)
        ensures
            r == self.region_spec().capacity,
    {
        if self.spilled {
            self.backing.capacity
        } else {
            self.inline.capacity
        }
    }

    /// Size of the value built last, 0 before any.
    pub fn len(&self) -> (r: usize)
        ensures
            r == self.len_spec(),
    {
        self.len
    }

    /// The region that placements address now.
    pub fn region(&self) -> (r: Region)
        ensures
            r == self.region_spec(),
    {
        if self.spilled {
            self.backing
        } else {
            self.inline
        }
    }

    /// Moves to backing storage large and aligned enough for `l`, never
    /// smaller or less aligned than what the buffer had.
    fn grow(&mut self, l: Layout)
        ensures
            final(self).spilled_spec(),
            final(self).inline_spec() == old(self).inline_spec(),
            final(self).len_spec() == old(self).len_spec(),
            final(self).region_spec().capacity == if l.size > old(self).region_spec().capacity {
                l.size
            } else {
                old(self).region_spec().capacity
            },
            final(self).region_spec().align == if l.align > old(self).region_spec().align {
                l.align
            } else {
                old(self).region_spec().align
            },
    {
        let cur = self.region();
        let capacity = if l.size > cur.capacity {
            l.size
        } else {
            cur.capacity
        };
        let align = if l.align > cur.align {
            l.align
        } else {
            cur.align
        };
        self.backing = Region { capacity, align };
        self.spilled = true;
    }

    /// Builds the value of `d` in this buffer: in the current storage if it
    /// fits, else in backing storage grown to the layout the rejection
    /// reported. Always succeeds; once spilled the buffer stays spilled, and
    /// its capacity never shrinks.
    pub fn init<A, R, F: FnOnce(A) -> R>(&mut self, d: Deferred<A, R, F>) -> (r: Result<
        Placed<R>,
        Fatal,
    >)
        requires
            d.wf(),
        ensures
            r is Ok,
            r matches Ok(p) ==> d.builds(p.value_spec()) && p.region_spec()
                == final(self).region_spec(),
            final(self).len_spec() == layout_of::<R>().size,
            final(self).inline_spec() == old(self).inline_spec(),
            final(self).spilled_spec() == (old(self).spilled_spec() || !fits(
                layout_of::<R>(),
                old(self).region_spec(),
            )),
            fits(layout_of::<R>(), old(self).region_spec()) ==> final(self).region_spec() == old(
                self,
            ).region_spec(),
            !fits(layout_of::<R>(), old(self).region_spec()) ==> final(self).region_spec() == (
            Region {
                capacity: if layout_of::<R>().size > old(self).region_spec().capacity {
                    layout_of::<R>().size
                } else {
                    old(self).region_spec().capacity
                },
                align: if layout_of::<R>().align > old(self).region_spec().align {
                    layout_of::<R>().align
                } else {
                    old(self).region_spec().align
                },
            }),
            final(self).region_spec().capacity >= old(self).region_spec().capacity,
            final(self).region_spec().align >= old(self).region_spec().align,
    {
        match d.attempt(self.region()) {
            Outcome::Constructed(p) => {
                self.len = core::mem::size_of::<R>();
                Ok(p)
            },
            Outcome::Rejected(back, l) => {
                self.grow(l);
                match back.attempt(self.region()) {
                    Outcome::Constructed(p) => {
                        self.len = core::mem::size_of::<R>();
                        Ok(p)
                    },
                    Outcome::Rejected(_, l2) => Err(Fatal { required: l2 }),
                }
            },
        }
    }
}

} // verus!
