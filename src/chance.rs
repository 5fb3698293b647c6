use vstd::prelude::*;

verus! {

/// Relies on `rand::random::<u32>`: one number drawn from the thread-local
/// generator. Nothing is promised of its value.
#[verifier::external_body]
fn random_u32() -> u32 {
    rand::random::<u32>()
}

/// `n` random numbers.
pub fn draw_rolls(n: usize) -> (r: Vec<u32>)
    ensures
        r@.len() == n,
{
    let mut r: Vec<u32> = Vec::new();
    let mut i: usize = 0;
    while i < n
        invariant
            i <= n,
            r@.len() == i,
        decreases n - i,
    {
        r.push(random_u32());
        i = i + 1;
    }
    r
}

} // verus!
