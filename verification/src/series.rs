use core::ops::{Add, Mul};
use vstd::prelude::*;
use vstd::std_specs::ops::{AddSpec, MulSpec};

verus! {

/// Addition of `T` does not depend on the order of its operands.
pub open spec fn add_commutes<T: Add<Output = T>>() -> bool {
    forall|x: T, y: T| #[trigger] x.add_spec(y) == y.add_spec(x)
}

/// Addition of `T` does not depend on how a sum of three is grouped.
pub open spec fn add_associates<T: Add<Output = T>>() -> bool {
    forall|x: T, y: T, z: T| #[trigger] x.add_spec(y).add_spec(z) == x.add_spec(y.add_spec(z))
}

/// Multiplication of `T` does not depend on how a product of three is grouped.
pub open spec fn mul_associates<T: Mul<Output = T>>() -> bool {
    forall|x: T, y: T, z: T| #[trigger] x.mul_spec(y).mul_spec(z) == x.mul_spec(y.mul_spec(z))
}

/// Multiplication of `T` distributes over its addition, from both sides.
pub open spec fn mul_distributes<T: Add<Output = T> + Mul<Output = T>>() -> bool {
    &&& forall|x: T, y: T, z: T| #[trigger]
        x.mul_spec(y.add_spec(z)) == x.mul_spec(y).add_spec(x.mul_spec(z))
    &&& forall|x: T, y: T, z: T| #[trigger]
        x.add_spec(y).mul_spec(z) == x.mul_spec(z).add_spec(y.mul_spec(z))
}

/// `f(0) + f(1) + ... + f(n - 1)`, added from left to right. A series has at
/// least one term: for `n == 0` this is `f(0)` as well.
pub open spec fn series<T: Add<Output = T>>(f: spec_fn(int) -> T, n: nat) -> T
    decreases n,
{
    if n <= 1 {
        f(0)
    } else {
        series(f, (n - 1) as nat).add_spec(f(n - 1))
    }
}

/// For each `k`, the series of `g(0, k), g(1, k), ..` with `n` terms.
pub open spec fn series_over_first<T: Add<Output = T>>(
    g: spec_fn(int, int) -> T,
    n: nat,
) -> spec_fn(int) -> T {
    |k: int| series(|j: int| g(j, k), n)
}

/// For each `j`, the series of `g(j, 0), g(j, 1), ..` with `p` terms.
pub open spec fn series_over_second<T: Add<Output = T>>(
    g: spec_fn(int, int) -> T,
    p: nat,
) -> spec_fn(int) -> T {
    |j: int| series(|k: int| g(j, k), p)
}

/// Two series whose terms agree are equal.
pub proof fn lemma_series_congruent<T: Add<Output = T>>(
    f: spec_fn(int) -> T,
    g: spec_fn(int) -> T,
    n: nat,
)
    requires
        f(0) == g(0),
        forall|k: int| 0 <= k < n ==> #[trigger] f(k) == g(k),
    ensures
        series(f, n) == series(g, n),
    decreases n,
{
    if n > 1 {
        lemma_series_congruent(f, g, (n - 1) as nat);
    }
}

/// A series multiplied from the right is the series of its terms, each
/// multiplied from the right.
pub proof fn lemma_series_times<T: Add<Output = T> + Mul<Output = T>>(
    f: spec_fn(int) -> T,
    x: T,
    h: spec_fn(int) -> T,
    n: nat,
)
    requires
        mul_distributes::<T>(),
        h(0) == f(0).mul_spec(x),
        forall|k: int| 0 <= k < n ==> #[trigger] h(k) == f(k).mul_spec(x),
    ensures
        series(f, n).mul_spec(x) == series(h, n),
    decreases n,
{
    if n > 1 {
        let m = (n - 1) as nat;
        lemma_series_times(f, x, h, m);
        assert(series(f, m).add_spec(f(n - 1)).mul_spec(x) == series(f, m).mul_spec(x).add_spec(
            f(n - 1).mul_spec(x),
        ));
    }
}

/// A series multiplied from the left is the series of its terms, each
/// multiplied from the left.
pub proof fn lemma_times_series<T: Add<Output = T> + Mul<Output = T>>(
    x: T,
    f: spec_fn(int) -> T,
    h: spec_fn(int) -> T,
    n: nat,
)
    requires
        mul_distributes::<T>(),
        h(0) == x.mul_spec(f(0)),
        forall|k: int| 0 <= k < n ==> #[trigger] h(k) == x.mul_spec(f(k)),
    ensures
        x.mul_spec(series(f, n)) == series(h, n),
    decreases n,
{
    if n > 1 {
        let m = (n - 1) as nat;
        lemma_times_series(x, f, h, m);
        assert(x.mul_spec(series(f, m).add_spec(f(n - 1))) == x.mul_spec(series(f, m)).add_spec(
            x.mul_spec(f(n - 1)),
        ));
    }
}

/// The sum of two series of one length is the series of the sums of their
/// terms.
pub proof fn lemma_series_plus_series<T: Add<Output = T>>(
    f: spec_fn(int) -> T,
    g: spec_fn(int) -> T,
    h: spec_fn(int) -> T,
    n: nat,
)
    requires
        add_commutes::<T>(),
        add_associates::<T>(),
        h(0) == f(0).add_spec(g(0)),
        forall|k: int| 0 <= k < n ==> #[trigger] h(k) == f(k).add_spec(g(k)),
    ensures
        series(f, n).add_spec(series(g, n)) == series(h, n),
    decreases n,
{
    if n > 1 {
        let m = (n - 1) as nat;
        lemma_series_plus_series(f, g, h, m);
        let sf = series(f, m);
        let sg = series(g, m);
        let x = f(n - 1);
        let y = g(n - 1);
        // (sf + x) + (sg + y) == (sf + sg) + (x + y)
        assert(sf.add_spec(x).add_spec(sg.add_spec(y)) == sf.add_spec(x.add_spec(sg.add_spec(y))));
        assert(x.add_spec(sg.add_spec(y)) == x.add_spec(sg).add_spec(y));
        assert(x.add_spec(sg) == sg.add_spec(x));
        assert(sg.add_spec(x).add_spec(y) == sg.add_spec(x.add_spec(y)));
        assert(sf.add_spec(sg).add_spec(x.add_spec(y)) == sf.add_spec(sg.add_spec(x.add_spec(y))));
    }
}

/// A sum over two indices can be taken in either order.
pub proof fn lemma_series_exchange<T: Add<Output = T>>(g: spec_fn(int, int) -> T, n: nat, p: nat)
    requires
        add_commutes::<T>(),
        add_associates::<T>(),
    ensures
        series(series_over_first(g, n), p) == series(series_over_second(g, p), n),
    decreases p,
{
    let by_first = series_over_first(g, n);
    let by_second = series_over_second(g, p);
    if p <= 1 {
        // Each inner series over the second index has the one term `g(j, 0)`.
        lemma_series_congruent(by_second, |j: int| g(j, 0), n);
    } else {
        let q = (p - 1) as nat;
        lemma_series_exchange(g, n, q);
        let shorter = series_over_second(g, q);
        let last = |j: int| g(j, p - 1);
        lemma_series_plus_series(shorter, last, by_second, n);
    }
}

} // verus!
