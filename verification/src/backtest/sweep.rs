//! Parameter sweeps: every combination of the values given per parameter.

use vstd::prelude::*;

verus! {

/// Each row of `g` extended by each value of `vals` in turn (rows outermost).
pub open spec fn grid_step<T>(g: Seq<Seq<(String, T)>>, p: String, vals: Seq<T>) -> Seq<Seq<(String, T)>> {
    Seq::new(g.len() * vals.len(), |i: int| g[i / vals.len() as int].push((p, vals[i % vals.len() as int])))
}

/// All combinations of the first `n` parameters' values, earlier parameters
/// varying slowest.
pub open spec fn sweep_grid<T>(specs: Seq<(String, Vec<T>)>, n: int) -> Seq<Seq<(String, T)>>
    decreases n,
{
    if n <= 0 {
        seq![Seq::empty()]
    } else {
        grid_step(sweep_grid(specs, n - 1), specs[n - 1].0, specs[n - 1].1@)
    }
}

/// The views of a list of rows.
pub open spec fn rows<T>(g: Seq<Vec<(String, T)>>) -> Seq<Seq<(String, T)>> {
    g.map_values(|v: Vec<(String, T)>| v@)
}

/// `row` extended by `(p, x)`, as a fresh vector.
fn extend_row<T: Copy>(row: &Vec<(String, T)>, p: &String, x: T) -> (r: Vec<(String, T)>)
    ensures
        r@ == row@.push((*p, x)),
{
    let mut out: Vec<(String, T)> = Vec::new();
    let mut k: usize = 0;
    while k < row.len()
        invariant
            k <= row@.len(),
            out@ == row@.subrange(0, k as int),
        decreases row.len() - k,
    {
        let e = (row[k].0.clone(), row[k].1);
        out.push(e);
        k = k + 1;
        proof {
            assert(out@ =~= row@.subrange(0, k as int));
        }
    }
    out.push((p.clone(), x));
    proof {
        assert(row@.subrange(0, row@.len() as int) =~= row@);
        assert(out@ =~= row@.push((*p, x)));
    }
    out
}

/// Index arithmetic of a row-major grid.
proof fn lemma_grid_index(r: int, m: int, j: int)
    requires
        m > 0,
        0 <= r,
        0 <= j < m,
    ensures
        (r * m + j) / m == r,
        (r * m + j) % m == j,
{
    vstd::arithmetic::div_mod::lemma_fundamental_div_mod_converse_div(r * m + j, m, r, j);
    vstd::arithmetic::div_mod::lemma_fundamental_div_mod_converse_mod(r * m + j, m, r, j);
}

/// Every combination of the parameters' values, one row per combination:
/// the first parameter varies slowest.
pub fn build_sweep_grid<T: Copy>(specs: &[(String, Vec<T>)]) -> (r: Vec<Vec<(String, T)>>)
    requires
        forall|k: int| 0 <= k <= specs@.len() ==> (#[trigger] sweep_grid(specs@, k)).len() <= usize::MAX,
    ensures
        rows(r@) == sweep_grid(specs@, specs@.len() as int),
{
    let mut grid: Vec<Vec<(String, T)>> = Vec::new();
    grid.push(Vec::new());
    proof {
        assert(rows(grid@) =~= sweep_grid(specs@, 0));
    }
    let mut s: usize = 0;
    while s < specs.len()
        invariant
            s <= specs@.len(),
            forall|k: int| 0 <= k <= specs@.len() ==> (#[trigger] sweep_grid(specs@, k)).len() <= usize::MAX,
            rows(grid@) == sweep_grid(specs@, s as int),
        decreases specs.len() - s,
    {
        let p = &specs[s].0;
        let vals = &specs[s].1;
        let m = vals.len();
        let ghost g = rows(grid@);
        let ghost target = grid_step(g, *p, vals@);
        proof {
            assert(sweep_grid(specs@, s + 1) == target);
            assert(target.len() <= usize::MAX);
        }
        let mut next: Vec<Vec<(String, T)>> = Vec::new();
        let mut r: usize = 0;
        while r < grid.len()
            invariant
                m == vals@.len(),
                g == rows(grid@),
                target == grid_step(g, *p, vals@),
                target.len() <= usize::MAX,
                r <= grid@.len(),
                rows(next@) == target.subrange(0, r * m),
            decreases grid.len() - r,
        {
            proof {
                assert(r * m + m <= grid@.len() * m) by (nonlinear_arith)
                    requires r < grid@.len(), m >= 0;
            }
            let mut j: usize = 0;
            while j < m
                invariant
                    m == vals@.len(),
                    g == rows(grid@),
                    target == grid_step(g, *p, vals@),
                    target.len() <= usize::MAX,
                    r < grid@.len(),
                    r * m + m <= grid@.len() * m,
                    j <= m,
                    rows(next@) == target.subrange(0, r * m + j),
                decreases m - j,
            {
                let row = extend_row(&grid[r], p, vals[j]);
                let ghost pre = next@;
                next.push(row);
                proof {
                    lemma_grid_index(r as int, m as int, j as int);
                    assert(g.len() == grid@.len());
                    assert(target.len() == g.len() * m);
                    assert(r * m + j < target.len());
                    assert(g[r as int] == grid@[r as int]@);
                    assert(target[r * m + j] == g[(r * m + j) / (m as int)].push((*p, vals@[(r * m + j) % (m as int)])));
                    assert(target[r * m + j] == g[r as int].push((*p, vals@[j as int])));
                    assert(rows(next@) =~= rows(pre).push(next@[next@.len() - 1]@));
                    assert(rows(next@) =~= target.subrange(0, r * m + j + 1));
                }
                j = j + 1;
            }
            r = r + 1;
            proof {
                assert(r * m == (r - 1) * m + m) by (nonlinear_arith);
            }
        }
        proof {
            assert(target.subrange(0, grid@.len() * m) =~= target);
        }
        grid = next;
        s = s + 1;
    }
    grid
}

} // verus!
