//! Deferred constructors and placement attempts.
use crate::layout::{fits, layout_of, Layout, Region};
use vstd::prelude::*;

verus! {

/// A value of type `R` that is not built yet: the routine that builds it and
/// the owned arguments it will be handed. Nothing runs until a placement
/// attempt succeeds; that attempt consumes the constructor.
#[verifier::reject_recursive_types(A)]
#[verifier::reject_recursive_types(R)]
pub struct Deferred<A, R, F: FnOnce(A) -> R> {
    args: A,
    routine: F,
    result: core::marker::PhantomData<R>,
}

/// A value built in place, bound to the region it was built in.
pub struct Placed<R> {
    value: R,
    region: Region,
}

/// What a single placement attempt gives back.
pub enum Outcome<R, D> {
    /// The routine ran once and its result lives in the region.
    Constructed(Placed<R>),
    /// The region could not hold the value: the constructor, untouched, and
    /// the layout it needs.
    Rejected(D, Layout),
}

/// No region offered could hold the value.
#[derive(Clone, Copy, Debug, PartialEq, Eq, Structural)]
pub struct Fatal {
    pub required: Layout,
}

impl<R> Placed<R> {
    pub closed spec fn value_spec(&self) -> R {
        self.value
    }

    pub closed spec fn region_spec(&self) -> Region {
        self.region
    }

    /// The built value.
    pub fn value(&self) -> (r: &R)
        ensures
            *r == self.value_spec(),
    {
        &self.value
    }

    /// The region the value was built in.
    pub fn region(&self) -> (r: Region)
        ensures
            r == self.region_spec(),
    {
        self.region
    }

    /// Storage the value takes up in its region: exactly the layout that the
    /// constructor reported before it ran.
    pub fn layout(&self) -> (r: Layout)
        ensures
            r == layout_of::<R>(),
    {
        Layout::of::<R>()
    }

    /// Hands the value out, releasing the region.
    pub fn into_value(self) -> (r: R)
        ensures
            r == self.value_spec(),
    {
        self.value
    }
}

impl<A, R, F: FnOnce(A) -> R> Deferred<A, R, F> {
    pub closed spec fn args_spec(&self) -> A {
        self.args
    }

    pub closed spec fn routine_spec(&self) -> F {
        self.routine
    }

    /// The routine accepts the captured arguments.
    pub open spec fn wf(&self) -> bool {
        call_requires(self.routine_spec(), (self.args_spec(),))
    }

    /// Whether `v` is a value that running the routine on the captured
    /// arguments may produce.
    pub open spec fn builds(&self, v: R) -> bool {
        call_ensures(self.routine_spec(), (self.args_spec(),), v)
    }

    /// Captures `args` for `routine`; nothing runs yet.
    pub fn new(args: A, routine: F) -> (r: Self)
        requires
            call_requires(routine, (args,)),
        ensures
            r.args_spec() == args,
            r.routine_spec() == routine,
            r.wf(),
    {
        Deferred { args, routine, result: core::marker::PhantomData }
    }

    /// The captured arguments.
    pub fn args(&self) -> (r: &A)
        ensures
            *r == self.args_spec(),
    {
        &self.args
    }

    /// Storage the value needs; computed from its type, nothing runs.
    pub fn layout(&self) -> (r: Layout)
        ensures
            r == layout_of::<R>(),
            r.wf(),
    {
        Layout::of::<R>()
    }

    /// Gives the captured arguments back without running the routine.
    pub fn into_args(self) -> (r: A)
        ensures
            r == self.args_spec(),
    {
        self.args
    }

    /// Tries to build the value in `region`. On success the routine has run
    /// once on the captured arguments; on rejection nothing ran and the
    /// constructor comes back as it was, with the layout it needs.
    pub fn attempt(self, region: Region) -> (r: Outcome<R, Self>)
        requires
            self.wf(),
        ensures
            r is Constructed <==> fits(layout_of::<R>(), region),
            r matches Outcome::Constructed(p) ==> p.region_spec() == region && self.builds(
                p.value_spec(),
            ),
            r matches Outcome::Rejected(d, l) ==> d == self && l == layout_of::<R>(),
    {
        let l = self.layout();
        if region.fits(&l) {
            let Deferred { args, routine, result: _ } = self;
            let value = routine(args);
            Outcome::Constructed(Placed { value, region })
        } else {
            Outcome::Rejected(self, l)
        }
    }
    /// Tries `primary`, and on rejection the same constructor against
    /// `fallback`. Fails only when neither region can hold the value.
    pub fn attempt_chain(self, primary: Region, fallback: Region) -> (r: Result<Placed<R>, Fatal>)
        requires
            self.wf(),
        ensures
            r is Ok <==> fits(layout_of::<R>(), primary) || fits(layout_of::<R>(), fallback),
            r matches Ok(p) ==> self.builds(p.value_spec()) && (if fits(layout_of::<R>(), primary) {
                p.region_spec() == primary
            } else {
                p.region_spec() == fallback
            }),
            r matches Err(e) ==> e.required == layout_of::<R>(),
    {
        match self.attempt(primary) {
            Outcome::Constructed(p) => Ok(p),
            Outcome::Rejected(d, _) => match d.attempt(fallback) {
                Outcome::Constructed(p) => Ok(p),
                Outcome::Rejected(_, l) => Err(Fatal { required: l }),
            },
        }
    }

    /// Tries the regions in order until one takes the value. The routine runs
    /// once, in the first region that can hold the value; if none can, the
    /// constructor comes back unchanged.
    pub fn attempt_each(self, regions: &Vec<Region>) -> (r: Outcome<R, Self>)
        requires
            self.wf(),
        ensures
            r is Constructed <==> exists|i: int|
                0 <= i < regions@.len() && fits(layout_of::<R>(), #[trigger] regions@[i]),
            r matches Outcome::Constructed(p) ==> self.builds(p.value_spec()) && exists|i: int|
                0 <= i < regions@.len() && p.region_spec() == regions@[i] && fits(
                    layout_of::<R>(),
                    regions@[i],
                ) && forall|j: int| 0 <= j < i ==> !fits(layout_of::<R>(), #[trigger] regions@[j]),
            r matches Outcome::Rejected(d, l) ==> d == self && l == layout_of::<R>(),
    {
        let mut d = self;
        let mut k: usize = 0;
        while k < regions.len()
            invariant
                d == self,
                self.wf(),
                k <= regions@.len(),
                forall|j: int| 0 <= j < k ==> !fits(layout_of::<R>(), #[trigger] regions@[j]),
            decreases regions@.len() - k,
        {
            match d.attempt(regions[k]) {
                Outcome::Constructed(p) => {
                    return Outcome::Constructed(p);
                },
                Outcome::Rejected(back, _) => {
                    d = back;
                },
            }
            k = k + 1;
        }
        let l = d.layout();
        Outcome::Rejected(d, l)
    }
}

} // verus!
