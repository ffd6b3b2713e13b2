//! Coordinate spaces: a coordinate type together with a distance metric.

use vstd::prelude::*;

verus! {

/// A coordinate space: the type of its points and the metric between them.
///
/// Distances are natural numbers that fit in a `u128`.
pub trait CoordSpace {
    /// A point of the space.
    type Coord: Copy;

    /// The distance between two points.
    spec fn dist(&self, a: Self::Coord, b: Self::Coord) -> nat;

    /// Computes the distance between two points.
    fn distance(&self, a: &Self::Coord, b: &Self::Coord) -> (d: u128)
        ensures
            d == self.dist(*a, *b),
    ;
}

/// A coordinate type with a distinguished origin.
pub trait ZeroCoord: Sized {
    /// The origin.
    spec fn zero() -> Self;

    /// Returns the origin.
    fn zero_coord() -> (z: Self)
        ensures
            z == Self::zero(),
    ;
}

/// The gap between two positions on one axis.
pub open spec fn axis_gap(x: u64, y: u64) -> nat {
    if x >= y {
        (x - y) as nat
    } else {
        (y - x) as nat
    }
}

/// The sum of the axis gaps over the first `n` axes.
pub open spec fn manhattan_upto(a: Seq<u64>, b: Seq<u64>, n: nat) -> nat
    decreases n,
{
    if n == 0 {
        0
    } else {
        manhattan_upto(a, b, (n - 1) as nat) + axis_gap(a[n - 1], b[n - 1])
    }
}

/// The Manhattan distance between two points: the sum of the absolute
/// differences of their components.
pub open spec fn manhattan(a: Seq<u64>, b: Seq<u64>) -> nat {
    manhattan_upto(a, b, a.len())
}

/// Each axis contributes at most `u64::MAX` to the distance.
pub proof fn lemma_manhattan_upto_bound(a: Seq<u64>, b: Seq<u64>, n: nat)
    ensures
        manhattan_upto(a, b, n) <= n * u64::MAX,
    decreases n,
{
    if n > 0 {
        lemma_manhattan_upto_bound(a, b, (n - 1) as nat);
        assert((n - 1) * u64::MAX + u64::MAX == n * u64::MAX) by (nonlinear_arith);
    }
}

/// The space of `N`-dimensional points with `u64` components under the
/// Manhattan metric.
#[derive(Clone, Copy, Debug)]
pub struct Manhattan<const N: usize>;

impl<const N: usize> CoordSpace for Manhattan<N> {
    type Coord = [u64; N];

    open spec fn dist(&self, a: [u64; N], b: [u64; N]) -> nat {
        manhattan(a@, b@)
    }

    fn distance(&self, a: &[u64; N], b: &[u64; N]) -> (d: u128) {
        let mut total: u128 = 0;
        let mut i: usize = 0;
        while i < N
            invariant
                i <= N,
                total == manhattan_upto(a@, b@, i as nat),
            decreases N - i,
        {
            proof {
                lemma_manhattan_upto_bound(a@, b@, i as nat);
                assert(i * u64::MAX + u64::MAX <= u128::MAX) by (nonlinear_arith)
                    requires
                        i < usize::MAX,
                        usize::MAX <= u64::MAX,
                ;
            }
            let x: u64 = a[i];
            let y: u64 = b[i];
            let gap: u64 = if x >= y { x - y } else { y - x };
            total = total + gap as u128;
            i = i + 1;
        }
        total
    }
}

impl<const N: usize> Default for Manhattan<N> {
    fn default() -> (space: Self)
        ensures
            space == Manhattan::<N>,
    {
        Manhattan
    }
}

impl<const N: usize> ZeroCoord for [u64; N] {
    open spec fn zero() -> Self {
        [0u64; N]
    }

    fn zero_coord() -> (z: Self) {
        [0u64; N]
    }
}

} // verus!
