//! Routines that producers defer: each builds a string from owned inputs.
use vstd::prelude::*;

verus! {

/// Length of the greeting that [`hello_text`] builds.
pub const GREETING_LEN: usize = 1024;

/// Relies on String::push_str: appends `t` to the end of `s`.
#[verifier::external_body]
fn push_str(s: &mut String, t: &str)
    ensures
        final(s)@ == old(s)@ + t@,
{
    s.push_str(t)
}

/// `n` copies of `c`.
pub open spec fn repeated(c: char, n: nat) -> Seq<char> {
    Seq::new(n, |_i: int| c)
}

/// The greeting: [`GREETING_LEN`] letters `a`.
pub fn hello_text() -> (r: String)
    ensures
        r@ == repeated('a', GREETING_LEN as nat),
{
    let mut s = String::new();
    let mut k: usize = 0;
    while k < GREETING_LEN
        invariant
            k <= GREETING_LEN,
            s@ == repeated('a', k as nat),
        decreases GREETING_LEN - k,
    {
        proof {
            reveal_strlit("a");
        }
        push_str(&mut s, "a");
        k = k + 1;
        assert(s@ =~= repeated('a', k as nat));
    }
    s
}

/// `s` followed by `" world"`.
pub fn append_world(s: String) -> (r: String)
    ensures
        r@ == s@ + " world"@,
{
    let mut s = s;
    push_str(&mut s, " world");
    s
}

/// `a` followed by `b`.
pub fn concat_strings(ab: (String, String)) -> (r: String)
    ensures
        r@ == ab.0@ + ab.1@,
{
    let (a, b) = ab;
    let mut a = a;
    push_str(&mut a, b.as_str());
    a
}

} // verus!
