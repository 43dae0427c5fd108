use vstd::prelude::*;

verus! {

/// Where a bounded model's previous value lies relative to its interval.
#[derive(Clone, Copy, Debug, PartialEq, Eq, Structural)]
pub enum Boundary {
    /// At or below the lower edge.
    Lower,
    /// At or above the upper edge.
    Upper,
    /// Strictly inside.
    Inside,
}

/// `next` is what one Euler step may give from `prev` with noise `z`.
pub open spec fn euler_step<T, F: Fn(T, T) -> T>(step: F, prev: T, z: T, next: T) -> bool {
    call_ensures(step, (prev, z), next)
}

/// `next` is what one clamped step may give from `prev` with noise `z`: the
/// lower edge where `prev` was classified at or below it, the upper edge where
/// at or above it, and an ordinary step inside.
pub open spec fn clamped_step<T, C: Fn(T) -> Boundary, F: Fn(T, T) -> T>(
    classify: C,
    step: F,
    lower: T,
    upper: T,
    prev: T,
    z: T,
    next: T,
) -> bool {
    exists|b: Boundary|
        #[trigger] call_ensures(classify, (prev,), b) && match b {
            Boundary::Lower => next == lower,
            Boundary::Upper => next == upper,
            Boundary::Inside => call_ensures(step, (prev, z), next),
        }
}

/// Runs the recurrence `x[i] = step(x[i-1], noise[i-1])` from `x0`. It computes
/// `noise.len() + 1` values and returns the first `noise.len()` of them, so the
/// path is as long as the noise and starts at `x0`.
pub fn euler_path<T: Copy, F: Fn(T, T) -> T>(x0: T, noise: &Vec<T>, step: F) -> (path: Vec<T>)
    requires
        1 <= noise@.len(),
        forall|a: T, b: T| call_requires(step, (a, b)),
    ensures
        path@.len() == noise@.len(),
        path@[0] == x0,
        forall|i: int|
            1 <= i < path@.len() ==> euler_step(step, path@[i - 1], noise@[i - 1], #[trigger] path@[i]),
{
    let n = noise.len();
    let mut path: Vec<T> = Vec::new();
    path.push(x0);
    let mut i: usize = 0;
    while i < n
        invariant
            n == noise@.len(),
            forall|a: T, b: T| call_requires(step, (a, b)),
            i <= n,
            path@.len() == i + 1,
            path@[0] == x0,
            forall|k: int|
                1 <= k < path@.len() ==> euler_step(step, path@[k - 1], noise@[k - 1], #[trigger] path@[k]),
        decreases n - i,
    {
        let next = step(path[i], noise[i]);
        path.push(next);
        i = i + 1;
    }
    path.pop();
    path
}

/// As `euler_path`, with hard clamping at an interval's edges: where the
/// previous value is classified at or below the lower edge the next value is
/// exactly `lower`, at or above the upper edge exactly `upper`, and otherwise
/// the ordinary step applies.
pub fn clamped_euler_path<T: Copy, C: Fn(T) -> Boundary, F: Fn(T, T) -> T>(
    x0: T,
    noise: &Vec<T>,
    lower: T,
    upper: T,
    classify: C,
    step: F,
) -> (path: Vec<T>)
    requires
        1 <= noise@.len(),
        forall|a: T| call_requires(classify, (a,)),
        forall|a: T, b: T| call_requires(step, (a, b)),
    ensures
        path@.len() == noise@.len(),
        path@[0] == x0,
        forall|i: int|
            1 <= i < path@.len() ==> clamped_step(
                classify,
                step,
                lower,
                upper,
                path@[i - 1],
                noise@[i - 1],
                #[trigger] path@[i],
            ),
{
    let n = noise.len();
    let mut path: Vec<T> = Vec::new();
    path.push(x0);
    let mut i: usize = 0;
    while i < n
        invariant
            n == noise@.len(),
            forall|a: T| call_requires(classify, (a,)),
            forall|a: T, b: T| call_requires(step, (a, b)),
            i <= n,
            path@.len() == i + 1,
            path@[0] == x0,
            forall|k: int|
                1 <= k < path@.len() ==> clamped_step(
                    classify,
                    step,
                    lower,
                    upper,
                    path@[k - 1],
                    noise@[k - 1],
                    #[trigger] path@[k],
                ),
        decreases n - i,
    {
        let prev = path[i];
        let b = classify(prev);
        let next = match b {
            Boundary::Lower => lower,
            Boundary::Upper => upper,
            Boundary::Inside => step(prev, noise[i]),
        };
        assert(call_ensures(classify, (prev,), b));
        path.push(next);
        i = i + 1;
    }
    path.pop();
    path
}

/// The edges absorb: where the classifier puts `lower` below the interval,
/// a clamped path that is exactly at `lower` at step `i` stays there at every
/// later step.
pub proof fn lower_edge_absorbs<T, C: Fn(T) -> Boundary, F: Fn(T, T) -> T>(
    classify: C,
    step: F,
    lower: T,
    upper: T,
    noise: Seq<T>,
    path: Seq<T>,
    i: int,
    j: int,
)
    requires
        forall|b: Boundary| call_ensures(classify, (lower,), b) ==> b == Boundary::Lower,
        path.len() <= noise.len(),
        forall|k: int|
            1 <= k < path.len() ==> clamped_step(
                classify,
                step,
                lower,
                upper,
                path[k - 1],
                noise[k - 1],
                #[trigger] path[k],
            ),
        0 <= i <= j < path.len(),
        path[i] == lower,
    ensures
        path[j] == lower,
    decreases j - i,
{
    if i < j {
        lower_edge_absorbs(classify, step, lower, upper, noise, path, i, j - 1);
        assert(clamped_step(classify, step, lower, upper, path[j - 1], noise[j - 1], path[j]));
    }
}

/// The same at the upper edge.
pub proof fn upper_edge_absorbs<T, C: Fn(T) -> Boundary, F: Fn(T, T) -> T>(
    classify: C,
    step: F,
    lower: T,
    upper: T,
    noise: Seq<T>,
    path: Seq<T>,
    i: int,
    j: int,
)
    requires
        forall|b: Boundary| call_ensures(classify, (upper,), b) ==> b == Boundary::Upper,
        path.len() <= noise.len(),
        forall|k: int|
            1 <= k < path.len() ==> clamped_step(
                classify,
                step,
                lower,
                upper,
                path[k - 1],
                noise[k - 1],
                #[trigger] path[k],
            ),
        0 <= i <= j < path.len(),
        path[i] == upper,
    ensures
        path[j] == upper,
    decreases j - i,
{
    if i < j {
        upper_edge_absorbs(classify, step, lower, upper, noise, path, i, j - 1);
        assert(clamped_step(classify, step, lower, upper, path[j - 1], noise[j - 1], path[j]));
    }
}

} // verus!
