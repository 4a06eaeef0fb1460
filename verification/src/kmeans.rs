use vstd::prelude::*;
use crate::statistics::{LEN_LIMIT, VALUE_LIMIT};

verus! {

/// The squared Euclidean distance between two 2-D samples.
pub open spec fn dsq(a: (i64, i64), b: (i64, i64)) -> int {
    (a.0 - b.0) * (a.0 - b.0) + (a.1 - b.1) * (a.1 - b.1)
}

/// All coordinates of a sample list lie in `[0, VALUE_LIMIT]`.
pub open spec fn samples_ok(ps: Seq<(i64, i64)>) -> bool {
    forall|i: int|
        0 <= i < ps.len() ==> 0 <= (#[trigger] ps[i]).0 <= VALUE_LIMIT && 0 <= ps[i].1
            <= VALUE_LIMIT
}

pub proof fn lemma_dsq_bounds(a: (i64, i64), b: (i64, i64))
    requires
        0 <= a.0 <= VALUE_LIMIT,
        0 <= a.1 <= VALUE_LIMIT,
        0 <= b.0 <= VALUE_LIMIT,
        0 <= b.1 <= VALUE_LIMIT,
    ensures
        0 <= dsq(a, b) <= 0x200_0000_0000_0000_0000_0000_0000,
{
    let dx = a.0 - b.0;
    let dy = a.1 - b.1;
    assert(0 <= dx * dx <= 0x100_0000_0000_0000_0000_0000_0000) by (nonlinear_arith)
        requires -0x8_0000_0000_0000 <= dx <= 0x8_0000_0000_0000;
    assert(0 <= dy * dy <= 0x100_0000_0000_0000_0000_0000_0000) by (nonlinear_arith)
        requires -0x8_0000_0000_0000 <= dy <= 0x8_0000_0000_0000;
}

/// The index of the centroid nearest to `p` among the first `k` centroids;
/// ties keep the lowest index.
pub open spec fn nearest_up_to(cs: Seq<(i64, i64)>, p: (i64, i64), k: int) -> int
    decreases k,
{
    if k <= 1 {
        0
    } else {
        let b = nearest_up_to(cs, p, k - 1);
        if dsq(cs[k - 1], p) < dsq(cs[b], p) {
            k - 1
        } else {
            b
        }
    }
}

pub proof fn lemma_nearest_in_range(cs: Seq<(i64, i64)>, p: (i64, i64), k: int)
    ensures
        0 <= nearest_up_to(cs, p, k) < if k <= 1 {
            1int
        } else {
            k
        },
    decreases k,
{
    if k > 1 {
        lemma_nearest_in_range(cs, p, k - 1);
    }
}

/// The cluster labels of all samples for the given centroids.
pub open spec fn assign_spec(ps: Seq<(i64, i64)>, cs: Seq<(i64, i64)>) -> Seq<usize> {
    Seq::new(ps.len(), |i: int| nearest_up_to(cs, ps[i], cs.len() as int) as usize)
}

/// Coordinate sums and the size of cluster `j` over the first `n` samples.
pub open spec fn cluster_sum(
    ps: Seq<(i64, i64)>,
    labels: Seq<usize>,
    j: int,
    n: int,
) -> (int, int, int)
    decreases n,
{
    if n <= 0 {
        (0, 0, 0)
    } else {
        let r = cluster_sum(ps, labels, j, n - 1);
        if labels[n - 1] == j {
            (r.0 + ps[n - 1].0, r.1 + ps[n - 1].1, r.2 + 1)
        } else {
            r
        }
    }
}

/// The updated centroid of cluster `j`: the mean of its samples, or the old
/// centroid when the cluster is empty.
pub open spec fn new_centroid(
    ps: Seq<(i64, i64)>,
    labels: Seq<usize>,
    old_c: (i64, i64),
    j: int,
) -> (i64, i64) {
    let s = cluster_sum(ps, labels, j, ps.len() as int);
    if s.2 == 0 {
        old_c
    } else {
        ((s.0 / s.2) as i64, (s.1 / s.2) as i64)
    }
}

/// One assignment-update round over all centroids.
pub open spec fn update_spec(ps: Seq<(i64, i64)>, cs: Seq<(i64, i64)>) -> Seq<(i64, i64)> {
    let labels = assign_spec(ps, cs);
    Seq::new(cs.len(), |j: int| new_centroid(ps, labels, cs[j], j))
}

/// The total squared movement between two centroid lists.
pub open spec fn movement_sq(a: Seq<(i64, i64)>, b: Seq<(i64, i64)>, k: int) -> int
    decreases k,
{
    if k <= 0 {
        0
    } else {
        movement_sq(a, b, k - 1) + dsq(a[k - 1], b[k - 1])
    }
}

/// Iterated assignment-update rounds: stop when the centroids move by less
/// than the squared tolerance, or when the round budget is exhausted.
pub open spec fn kmeans_loop(
    ps: Seq<(i64, i64)>,
    cs: Seq<(i64, i64)>,
    err_sq: u128,
    fuel: int,
) -> Seq<(i64, i64)>
    decreases fuel,
{
    if fuel <= 0 {
        cs
    } else {
        let ncs = update_spec(ps, cs);
        if movement_sq(cs, ncs, cs.len() as int) < err_sq {
            ncs
        } else {
            kmeans_loop(ps, ncs, err_sq, fuel - 1)
        }
    }
}

/// The within-cluster distortion: the sum over all samples of the squared
/// distance to the assigned centroid, over the first `n` samples.
pub open spec fn distortion_spec(
    ps: Seq<(i64, i64)>,
    cs: Seq<(i64, i64)>,
    labels: Seq<usize>,
    n: int,
) -> int
    decreases n,
{
    if n <= 0 {
        0
    } else {
        distortion_spec(ps, cs, labels, n - 1) + dsq(ps[n - 1], cs[labels[n - 1] as int])
    }
}

/// The smallest and largest value of one coordinate over the samples.
pub open spec fn coord_min(ps: Seq<(i64, i64)>, first: bool, n: int) -> int
    decreases n,
{
    if n <= 1 {
        if first {
            ps[0].0 as int
        } else {
            ps[0].1 as int
        }
    } else {
        let m = coord_min(ps, first, n - 1);
        let v = if first {
            ps[n - 1].0 as int
        } else {
            ps[n - 1].1 as int
        };
        if v < m {
            v
        } else {
            m
        }
    }
}

pub open spec fn coord_max(ps: Seq<(i64, i64)>, first: bool, n: int) -> int
    decreases n,
{
    if n <= 1 {
        if first {
            ps[0].0 as int
        } else {
            ps[0].1 as int
        }
    } else {
        let m = coord_max(ps, first, n - 1);
        let v = if first {
            ps[n - 1].0 as int
        } else {
            ps[n - 1].1 as int
        };
        if v > m {
            v
        } else {
            m
        }
    }
}

/// The equally spaced initial centroids: for `k >= 2` they divide the
/// per-coordinate range endpoint-to-endpoint; a single centroid sits at the
/// middle of the range.
pub open spec fn init_centroid(ps: Seq<(i64, i64)>, k: int, j: int) -> (i64, i64) {
    let lo0 = coord_min(ps, true, ps.len() as int);
    let hi0 = coord_max(ps, true, ps.len() as int);
    let lo1 = coord_min(ps, false, ps.len() as int);
    let hi1 = coord_max(ps, false, ps.len() as int);
    if k <= 1 {
        (((lo0 + hi0) / 2) as i64, ((lo1 + hi1) / 2) as i64)
    } else {
        (
            (lo0 + (hi0 - lo0) * j / (k - 1)) as i64,
            (lo1 + (hi1 - lo1) * j / (k - 1)) as i64,
        )
    }
}

pub open spec fn init_centroids(ps: Seq<(i64, i64)>, k: int) -> Seq<(i64, i64)> {
    Seq::new(k as nat, |j: int| init_centroid(ps, k, j))
}

/// The centroids the clustering run settles on.
pub open spec fn kmeans_centroids(
    ps: Seq<(i64, i64)>,
    k: int,
    err_sq: u128,
    max_iter: int,
) -> Seq<(i64, i64)> {
    kmeans_loop(ps, init_centroids(ps, k), err_sq, max_iter)
}

/// The labels the clustering run reports.
pub open spec fn kmeans_labels(ps: Seq<(i64, i64)>, k: int, err_sq: u128, max_iter: int) -> Seq<
    usize,
> {
    assign_spec(ps, kmeans_centroids(ps, k, err_sq, max_iter))
}

/// The distortion the clustering run reports.
pub open spec fn kmeans_distortion(ps: Seq<(i64, i64)>, k: int, err_sq: u128, max_iter: int) -> int {
    let cs = kmeans_centroids(ps, k, err_sq, max_iter);
    distortion_spec(ps, cs, assign_spec(ps, cs), ps.len() as int)
}

/// Centroid coordinates stay inside `[0, VALUE_LIMIT]`.
pub open spec fn centroids_ok(cs: Seq<(i64, i64)>) -> bool {
    forall|i: int|
        0 <= i < cs.len() ==> 0 <= (#[trigger] cs[i]).0 <= VALUE_LIMIT && 0 <= cs[i].1
            <= VALUE_LIMIT
}

pub proof fn lemma_coord_bounds(ps: Seq<(i64, i64)>, first: bool, n: int)
    requires
        samples_ok(ps),
        1 <= n <= ps.len(),
    ensures
        0 <= coord_min(ps, first, n) <= coord_max(ps, first, n) <= VALUE_LIMIT,
    decreases n,
{
    if n > 1 {
        lemma_coord_bounds(ps, first, n - 1);
    }
}

pub proof fn lemma_cluster_sum_bounds(ps: Seq<(i64, i64)>, labels: Seq<usize>, j: int, n: int)
    requires
        samples_ok(ps),
        0 <= n <= ps.len(),
    ensures
        ({
            let s = cluster_sum(ps, labels, j, n);
            0 <= s.2 <= n && 0 <= s.0 <= s.2 * VALUE_LIMIT && 0 <= s.1 <= s.2 * VALUE_LIMIT
        }),
    decreases n,
{
    if n > 0 {
        lemma_cluster_sum_bounds(ps, labels, j, n - 1);
        let s = cluster_sum(ps, labels, j, n - 1);
        if labels[n - 1] == j {
            assert(s.2 * VALUE_LIMIT + VALUE_LIMIT == (s.2 + 1) * VALUE_LIMIT)
                by (nonlinear_arith);
        }
    }
}

/// The squared distance between two in-range samples, computed exactly.
fn dsq_exec(a: (i64, i64), b: (i64, i64)) -> (r: u128)
    requires
        0 <= a.0 <= VALUE_LIMIT,
        0 <= a.1 <= VALUE_LIMIT,
        0 <= b.0 <= VALUE_LIMIT,
        0 <= b.1 <= VALUE_LIMIT,
    ensures
        r == dsq(a, b),
{
    proof {
        lemma_dsq_bounds(a, b);
        let dx = a.0 - b.0;
        let dy = a.1 - b.1;
        assert(0 <= dx * dx) by (nonlinear_arith);
        assert(0 <= dy * dy) by (nonlinear_arith);
        assert(dx * dx <= 0x100_0000_0000_0000_0000_0000_0000) by (nonlinear_arith)
            requires -0x8_0000_0000_0000 <= dx <= 0x8_0000_0000_0000;
        assert(dy * dy <= 0x100_0000_0000_0000_0000_0000_0000) by (nonlinear_arith)
            requires -0x8_0000_0000_0000 <= dy <= 0x8_0000_0000_0000;
    }
    let dx = a.0 as i128 - b.0 as i128;
    let dy = a.1 as i128 - b.1 as i128;
    let s = dx * dx + dy * dy;
    s as u128
}

/// The index of the centroid nearest to `p`; ties keep the lowest index.
fn nearest_centroid(cs: &Vec<(i64, i64)>, p: (i64, i64)) -> (r: usize)
    requires
        cs@.len() >= 1,
        centroids_ok(cs@),
        0 <= p.0 <= VALUE_LIMIT,
        0 <= p.1 <= VALUE_LIMIT,
    ensures
        r == nearest_up_to(cs@, p, cs@.len() as int),
        r < cs@.len(),
{
    let k = cs.len();
    let mut best: usize = 0;
    let mut best_d = dsq_exec(cs[0], p);
    let mut j: usize = 1;
    while j < k
        invariant
            1 <= j <= k,
            k == cs@.len(),
            centroids_ok(cs@),
            0 <= p.0 <= VALUE_LIMIT,
            0 <= p.1 <= VALUE_LIMIT,
            best == nearest_up_to(cs@, p, j as int),
            best < j,
            best_d == dsq(cs@[best as int], p),
        decreases k - j,
    {
        let d = dsq_exec(cs[j], p);
        if d < best_d {
            best = j;
            best_d = d;
        }
        j = j + 1;
    }
    best
}

/// The cluster labels of all samples for the given centroids.
fn assign_all(ps: &Vec<(i64, i64)>, cs: &Vec<(i64, i64)>) -> (labels: Vec<usize>)
    requires
        cs@.len() >= 1,
        samples_ok(ps@),
        centroids_ok(cs@),
    ensures
        labels@ == assign_spec(ps@, cs@),
        labels@.len() == ps@.len(),
        forall|i: int| 0 <= i < labels@.len() ==> #[trigger] labels@[i] < cs@.len(),
{
    let n = ps.len();
    let mut labels: Vec<usize> = Vec::new();
    let mut i: usize = 0;
    while i < n
        invariant
            0 <= i <= n,
            n == ps@.len(),
            cs@.len() >= 1,
            samples_ok(ps@),
            centroids_ok(cs@),
            labels@.len() == i,
            forall|q: int|
                0 <= q < i ==> #[trigger] labels@[q] == nearest_up_to(
                    cs@,
                    ps@[q],
                    cs@.len() as int,
                ) as usize,
            forall|q: int| 0 <= q < labels@.len() ==> #[trigger] labels@[q] < cs@.len(),
        decreases n - i,
    {
        let lab = nearest_centroid(cs, ps[i]);
        labels.push(lab);
        i = i + 1;
    }
    proof {
        assert(labels@ =~= assign_spec(ps@, cs@));
    }
    labels
}

/// One assignment-update round: every centroid moves to the mean of its
/// assigned samples; an empty cluster keeps its centroid.
fn update_centroids(ps: &Vec<(i64, i64)>, cs: &Vec<(i64, i64)>) -> (ncs: Vec<(i64, i64)>)
    requires
        cs@.len() >= 1,
        ps@.len() < LEN_LIMIT,
        samples_ok(ps@),
        centroids_ok(cs@),
    ensures
        ncs@ == update_spec(ps@, cs@),
        ncs@.len() == cs@.len(),
        centroids_ok(ncs@),
{
    let labels = assign_all(ps, cs);
    let n = ps.len();
    let k = cs.len();
    let mut ncs: Vec<(i64, i64)> = Vec::new();
    let mut j: usize = 0;
    while j < k
        invariant
            0 <= j <= k,
            k == cs@.len(),
            n == ps@.len(),
            n < LEN_LIMIT,
            samples_ok(ps@),
            centroids_ok(cs@),
            labels@ == assign_spec(ps@, cs@),
            ncs@.len() == j,
            forall|q: int|
                0 <= q < j ==> #[trigger] ncs@[q] == new_centroid(ps@, labels@, cs@[q], q),
            centroids_ok(ncs@),
        decreases k - j,
    {
        let mut sx: i128 = 0;
        let mut sy: i128 = 0;
        let mut cnt: u64 = 0;
        let mut i: usize = 0;
        while i < n
            invariant
                0 <= i <= n,
                n == ps@.len(),
                n < LEN_LIMIT,
                j < k,
                k == cs@.len(),
                samples_ok(ps@),
                labels@ == assign_spec(ps@, cs@),
                labels@.len() == n,
                (sx as int, sy as int, cnt as int) == cluster_sum(ps@, labels@, j as int, i as int),
                0 <= cnt <= i,
                0 <= sx <= (cnt as int) * (VALUE_LIMIT as int),
                0 <= sy <= (cnt as int) * (VALUE_LIMIT as int),
            decreases n - i,
        {
            proof {
                lemma_cluster_sum_bounds(ps@, labels@, j as int, i + 1);
            }
            if labels[i] == j {
                sx = sx + ps[i].0 as i128;
                sy = sy + ps[i].1 as i128;
                cnt = cnt + 1;
            }
            i = i + 1;
        }
        if cnt == 0 {
            ncs.push(cs[j]);
        } else {
            proof {
                vstd::arithmetic::div_mod::lemma_div_is_ordered(
                    sx as int,
                    (cnt as int) * (VALUE_LIMIT as int),
                    cnt as int,
                );
                vstd::arithmetic::div_mod::lemma_div_is_ordered(
                    sy as int,
                    (cnt as int) * (VALUE_LIMIT as int),
                    cnt as int,
                );
                vstd::arithmetic::div_mod::lemma_div_by_multiple(VALUE_LIMIT as int, cnt as int);
                vstd::arithmetic::div_mod::lemma_div_pos_is_pos(sx as int, cnt as int);
                vstd::arithmetic::div_mod::lemma_div_pos_is_pos(sy as int, cnt as int);
            }
            let mx = ((sx as u128) / (cnt as u128)) as i64;
            let my = ((sy as u128) / (cnt as u128)) as i64;
            ncs.push((mx, my));
        }
        j = j + 1;
    }
    proof {
        assert(ncs@ =~= update_spec(ps@, cs@));
    }
    ncs
}

/// The total squared movement between two centroid lists of equal length.
fn movement(a: &Vec<(i64, i64)>, b: &Vec<(i64, i64)>) -> (r: u128)
    requires
        a@.len() == b@.len(),
        a@.len() < LEN_LIMIT,
        centroids_ok(a@),
        centroids_ok(b@),
    ensures
        r == movement_sq(a@, b@, a@.len() as int),
{
    let k = a.len();
    let mut r: u128 = 0;
    let mut j: usize = 0;
    while j < k
        invariant
            0 <= j <= k,
            k == a@.len(),
            k == b@.len(),
            k < LEN_LIMIT,
            centroids_ok(a@),
            centroids_ok(b@),
            r == movement_sq(a@, b@, j as int),
            r <= (j as int) * 0x200_0000_0000_0000_0000_0000_0000,
        decreases k - j,
    {
        proof {
            lemma_dsq_bounds(a@[j as int], b@[j as int]);
            assert((j as int) * 0x200_0000_0000_0000_0000_0000_0000
                + 0x200_0000_0000_0000_0000_0000_0000 == (j + 1)
                * 0x200_0000_0000_0000_0000_0000_0000) by (nonlinear_arith);
            assert((j + 1) * 0x200_0000_0000_0000_0000_0000_0000 <= (LEN_LIMIT as int)
                * 0x200_0000_0000_0000_0000_0000_0000) by (nonlinear_arith)
                requires j + 1 <= LEN_LIMIT as int;
        }
        let d = dsq_exec(a[j], b[j]);
        r = r + d;
        j = j + 1;
    }
    r
}

/// The within-cluster distortion for the given centroids and labels.
fn compute_distortion(ps: &Vec<(i64, i64)>, cs: &Vec<(i64, i64)>, labels: &Vec<usize>) -> (r: u128)
    requires
        ps@.len() < LEN_LIMIT,
        labels@.len() == ps@.len(),
        samples_ok(ps@),
        centroids_ok(cs@),
        forall|i: int| 0 <= i < labels@.len() ==> #[trigger] labels@[i] < cs@.len(),
    ensures
        r == distortion_spec(ps@, cs@, labels@, ps@.len() as int),
        r <= ps@.len() * 0x200_0000_0000_0000_0000_0000_0000,
{
    let n = ps.len();
    let mut r: u128 = 0;
    let mut i: usize = 0;
    while i < n
        invariant
            0 <= i <= n,
            n == ps@.len(),
            n < LEN_LIMIT,
            labels@.len() == n,
            samples_ok(ps@),
            centroids_ok(cs@),
            forall|q: int| 0 <= q < labels@.len() ==> #[trigger] labels@[q] < cs@.len(),
            r == distortion_spec(ps@, cs@, labels@, i as int),
            r <= (i as int) * 0x200_0000_0000_0000_0000_0000_0000,
        decreases n - i,
    {
        proof {
            lemma_dsq_bounds(ps@[i as int], cs@[labels@[i as int] as int]);
            assert((i as int) * 0x200_0000_0000_0000_0000_0000_0000
                + 0x200_0000_0000_0000_0000_0000_0000 == (i + 1)
                * 0x200_0000_0000_0000_0000_0000_0000) by (nonlinear_arith);
            assert((i + 1) * 0x200_0000_0000_0000_0000_0000_0000 <= (LEN_LIMIT as int)
                * 0x200_0000_0000_0000_0000_0000_0000) by (nonlinear_arith)
                requires i + 1 <= LEN_LIMIT as int;
        }
        let d = dsq_exec(ps[i], cs[labels[i]]);
        r = r + d;
        i = i + 1;
    }
    r
}

/// Runs k-means over the 2-D samples with equally spaced initial centroids.
/// Returns the final cluster label of each sample and the within-cluster
/// distortion.
pub fn kmeans_equally_space_centroids(
    ps: &Vec<(i64, i64)>,
    k: usize,
    err_sq: u128,
    max_iter: usize,
) -> (r: (Vec<usize>, u128))
    requires
        1 <= k,
        k < LEN_LIMIT,
        1 <= ps@.len() < LEN_LIMIT,
        samples_ok(ps@),
    ensures
        r.0@ == kmeans_labels(ps@, k as int, err_sq, max_iter as int),
        r.1 == kmeans_distortion(ps@, k as int, err_sq, max_iter as int),
        r.0@.len() == ps@.len(),
        forall|i: int| 0 <= i < r.0@.len() ==> #[trigger] r.0@[i] < k,
        r.1 <= ps@.len() * 0x200_0000_0000_0000_0000_0000_0000,
{
    let n = ps.len();

    // The per-coordinate sample range.
    let mut lo0 = ps[0].0;
    let mut hi0 = ps[0].0;
    let mut lo1 = ps[0].1;
    let mut hi1 = ps[0].1;
    let mut i: usize = 1;
    while i < n
        invariant
            1 <= i <= n,
            n == ps@.len(),
            samples_ok(ps@),
            lo0 == coord_min(ps@, true, i as int),
            hi0 == coord_max(ps@, true, i as int),
            lo1 == coord_min(ps@, false, i as int),
            hi1 == coord_max(ps@, false, i as int),
            0 <= lo0 <= hi0 <= VALUE_LIMIT,
            0 <= lo1 <= hi1 <= VALUE_LIMIT,
        decreases n - i,
    {
        if ps[i].0 < lo0 {
            lo0 = ps[i].0;
        }
        if ps[i].0 > hi0 {
            hi0 = ps[i].0;
        }
        if ps[i].1 < lo1 {
            lo1 = ps[i].1;
        }
        if ps[i].1 > hi1 {
            hi1 = ps[i].1;
        }
        i = i + 1;
    }

    // Equally spaced initial centroids along the range.
    let mut cs: Vec<(i64, i64)> = Vec::new();
    let mut j: usize = 0;
    while j < k
        invariant
            0 <= j <= k,
            1 <= k < LEN_LIMIT,
            n == ps@.len(),
            n >= 1,
            samples_ok(ps@),
            lo0 == coord_min(ps@, true, n as int),
            hi0 == coord_max(ps@, true, n as int),
            lo1 == coord_min(ps@, false, n as int),
            hi1 == coord_max(ps@, false, n as int),
            0 <= lo0 <= hi0 <= VALUE_LIMIT,
            0 <= lo1 <= hi1 <= VALUE_LIMIT,
            cs@.len() == j,
            forall|q: int| 0 <= q < j ==> #[trigger] cs@[q] == init_centroid(ps@, k as int, q),
            centroids_ok(cs@),
        decreases k - j,
    {
        if k == 1 {
            cs.push((((lo0 as i128 + hi0 as i128) / 2) as i64, ((lo1 as i128 + hi1 as i128) / 2) as i64));
        } else {
            proof {
                let sp0 = (hi0 - lo0) as int;
                let sp1 = (hi1 - lo1) as int;
                let jj = j as int;
                let km1 = (k - 1) as int;
                assert(0 <= sp0 * jj <= sp0 * km1) by (nonlinear_arith)
                    requires 0 <= sp0 && 0 <= jj <= km1;
                assert(0 <= sp1 * jj <= sp1 * km1) by (nonlinear_arith)
                    requires 0 <= sp1 && 0 <= jj <= km1;
                assert(sp0 * km1 <= 0x80_0000_0000_0000_0000) by (nonlinear_arith)
                    requires 0 <= sp0 <= 0x8_0000_0000_0000 && 0 <= km1 <= 0x10_0000;
                assert(sp1 * km1 <= 0x80_0000_0000_0000_0000) by (nonlinear_arith)
                    requires 0 <= sp1 <= 0x8_0000_0000_0000 && 0 <= km1 <= 0x10_0000;
                vstd::arithmetic::div_mod::lemma_div_is_ordered(sp0 * jj, sp0 * km1, km1);
                vstd::arithmetic::div_mod::lemma_div_is_ordered(sp1 * jj, sp1 * km1, km1);
                vstd::arithmetic::div_mod::lemma_div_by_multiple(sp0, km1);
                vstd::arithmetic::div_mod::lemma_div_by_multiple(sp1, km1);
                vstd::arithmetic::div_mod::lemma_div_pos_is_pos(sp0 * jj, km1);
                vstd::arithmetic::div_mod::lemma_div_pos_is_pos(sp1 * jj, km1);
            }
            let d0 = (((hi0 - lo0) as i128 * j as i128) / ((k - 1) as i128)) as i64;
            let d1 = (((hi1 - lo1) as i128 * j as i128) / ((k - 1) as i128)) as i64;
            cs.push((lo0 + d0, lo1 + d1));
        }
        j = j + 1;
    }
    proof {
        assert(cs@ =~= init_centroids(ps@, k as int));
    }

    // Iterate until the centroids settle or the round budget runs out.
    let mut fuel = max_iter;
    let mut done = false;
    while fuel > 0 && !done
        invariant
            0 <= fuel <= max_iter,
            n == ps@.len(),
            1 <= n < LEN_LIMIT,
            1 <= k < LEN_LIMIT,
            samples_ok(ps@),
            cs@.len() == k,
            centroids_ok(cs@),
            !done ==> kmeans_centroids(ps@, k as int, err_sq, max_iter as int) == kmeans_loop(
                ps@,
                cs@,
                err_sq,
                fuel as int,
            ),
            done ==> kmeans_centroids(ps@, k as int, err_sq, max_iter as int) == cs@,
        decreases fuel + if done {
            0int
        } else {
            1int
        },
    {
        let ncs = update_centroids(ps, &cs);
        let moved = movement(&cs, &ncs);
        if moved < err_sq {
            done = true;
        } else {
            fuel = fuel - 1;
        }
        cs = ncs;
    }

    let labels = assign_all(ps, &cs);
    let distortion = compute_distortion(ps, &cs, &labels);
    (labels, distortion)
}

/// Squared centroid-movement tolerance of the clustering runs, in
/// milli-units squared.
pub const KMEANS_MAX_ERROR_SQ: u128 = 1_000_000;

/// Round budget of one clustering run.
pub const KMEANS_MAX_ITER: usize = 100;

/// The state the model-selection sweep threads from k to k: the best k so
/// far, its labels, the steepest slope seen, and all distortions.
pub struct SelectState {
    pub best_k: int,
    pub best_labels: Seq<usize>,
    pub steepest: int,
    pub distortions: Seq<int>,
}

/// One step of the sweep: run the clustering with `k` clusters, record its
/// distortion, and from the second k on keep the k whose elbow slope (the
/// mean of the last two distortions) is the steepest.
pub open spec fn select_step(ps: Seq<(i64, i64)>, st: SelectState, k: int) -> SelectState {
    let d = kmeans_distortion(ps, k, KMEANS_MAX_ERROR_SQ, KMEANS_MAX_ITER as int);
    let ds = st.distortions.push(d);
    if ds.len() >= 2 && k >= 2 {
        let slope = (ds[k - 1] + ds[k - 2]) / 2;
        if st.best_k == 0 || slope > st.steepest {
            SelectState {
                best_k: k,
                best_labels: kmeans_labels(ps, k, KMEANS_MAX_ERROR_SQ, KMEANS_MAX_ITER as int),
                steepest: slope,
                distortions: ds,
            }
        } else {
            SelectState { distortions: ds, ..st }
        }
    } else {
        SelectState { distortions: ds, ..st }
    }
}

/// The sweep over cluster counts 1 to `k` inclusive.
pub open spec fn select_sweep(ps: Seq<(i64, i64)>, k: int) -> SelectState
    decreases k,
{
    if k <= 0 {
        SelectState { best_k: 0, best_labels: Seq::empty(), steepest: 0, distortions: Seq::empty() }
    } else {
        select_step(ps, select_sweep(ps, k - 1), k)
    }
}

/// The labels chosen by the elbow method: cluster counts 1 up to one less
/// than `min(10, n)` are tried, and the labels of the steepest elbow win; a
/// sweep that never reaches two clusters selects nothing.
pub open spec fn select_labels_spec(ps: Seq<(i64, i64)>) -> Seq<usize> {
    let max_k = if ps.len() < 10 {
        ps.len() as int
    } else {
        10int
    };
    select_sweep(ps, max_k - 1).best_labels
}

pub proof fn lemma_select_sweep_len(ps: Seq<(i64, i64)>, k: int)
    ensures
        select_sweep(ps, k).best_labels.len() == 0 || select_sweep(ps, k).best_labels.len()
            == ps.len(),
        select_sweep(ps, k).distortions.len() == if k <= 0 {
            0int
        } else {
            k
        },
    decreases k,
{
    if k > 0 {
        lemma_select_sweep_len(ps, k - 1);
    }
}

/// Runs the clustering for each candidate cluster count and returns the
/// labels of the count the elbow method selects; empty when fewer than three
/// samples are given.
pub fn select_significant(ps: &Vec<(i64, i64)>) -> (labels: Vec<usize>)
    requires
        2 <= ps@.len() < LEN_LIMIT,
        samples_ok(ps@),
    ensures
        labels@ == select_labels_spec(ps@),
        labels@.len() == 0 || labels@.len() == ps@.len(),
{
    let n = ps.len();
    let max_k: usize = if n < 10 {
        n
    } else {
        10
    };
    let mut best_labels: Vec<usize> = Vec::new();
    let mut best_k: u64 = 0;
    let mut steepest: u128 = 0;
    let mut distortions: Vec<u128> = Vec::new();
    let mut k: usize = 1;
    while k < max_k
        invariant
            1 <= k <= max_k,
            max_k == if n < 10 { n } else { 10usize },
            2 <= n < LEN_LIMIT,
            n == ps@.len(),
            samples_ok(ps@),
            ({
                let st = select_sweep(ps@, k - 1);
                &&& best_labels@ == st.best_labels
                &&& best_k as int == st.best_k
                &&& steepest as int == st.steepest
                &&& distortions@.len() == st.distortions.len()
                &&& forall|q: int|
                    0 <= q < distortions@.len() ==> #[trigger] distortions@[q] as int
                        == st.distortions[q]
                &&& forall|q: int|
                    0 <= q < distortions@.len() ==> #[trigger] distortions@[q]
                        <= 0x2000_0000_0000_0000_0000_0000_0000_0000
            }),
        decreases max_k - k,
    {
        let (labels, distortion) = kmeans_equally_space_centroids(
            ps,
            k,
            KMEANS_MAX_ERROR_SQ,
            KMEANS_MAX_ITER,
        );
        distortions.push(distortion);
        proof {
            lemma_select_sweep_len(ps@, k - 1);
            assert(ps@.len() * 0x200_0000_0000_0000_0000_0000_0000 <= (LEN_LIMIT as int)
                * 0x200_0000_0000_0000_0000_0000_0000) by (nonlinear_arith)
                requires ps@.len() <= LEN_LIMIT as int;
        }
        if distortions.len() >= 2 && k >= 2 {
            let slope = (distortions[k - 1] + distortions[k - 2]) / 2;
            if best_k == 0 || slope > steepest {
                best_k = k as u64;
                best_labels = labels;
                steepest = slope;
            }
        }
        k = k + 1;
    }
    proof {
        lemma_select_sweep_len(ps@, if n < 10 { n as int } else { 10int } - 1);
    }
    best_labels
}

} // verus!
