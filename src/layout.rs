use vstd::prelude::*;

use crate::error::SimError;

verus! {

/// `2^k`.
pub open spec fn pow2(k: nat) -> nat
    decreases k,
{
    if k == 0 {
        1
    } else {
        2 * pow2((k - 1) as nat)
    }
}

/// `x` is a power of two.
pub open spec fn is_pow2(x: nat) -> bool {
    exists|k: nat| pow2(k) == x
}

/// The smallest power of two that is at least `n` (for `n >= 1`).
pub open spec fn is_padded_length(n: nat, p: nat) -> bool {
    &&& is_pow2(p)
    &&& n <= p
    &&& p < 2 * n
}

/// Smallest power of two that is not below `n`.
pub fn padded_length(n: usize) -> (p: usize)
    requires
        1 <= n,
        n <= usize::MAX / 4,
    ensures
        is_padded_length(n as nat, p as nat),
{
    let mut p: usize = 1;
    let ghost mut k: nat = 0;
    while p < n
        invariant
            1 <= n <= usize::MAX / 4,
            1 <= p,
            p as nat == pow2(k),
            p < 2 * n,
        decreases 2 * n - p,
    {
        p = p * 2;
        proof {
            k = k + 1;
        }
    }
    assert(pow2(k) == p as nat);
    p
}

proof fn lemma_pow2_monotone(a: nat, b: nat)
    requires
        a <= b,
    ensures
        pow2(a) <= pow2(b),
    decreases b - a,
{
    if a < b {
        lemma_pow2_monotone(a, (b - 1) as nat);
    }
}

/// No power of two lies in `[n, p)`: a padded length is the least power of
/// two that is at least `n`.
pub proof fn padded_length_is_least(n: nat, p: nat, k: nat)
    requires
        is_padded_length(n, p),
        n <= pow2(k),
    ensures
        p <= pow2(k),
{
    let j = choose|j: nat| pow2(j) == p;
    if pow2(k) < p {
        if j <= k {
            lemma_pow2_monotone(j, k);
        } else {
            lemma_pow2_monotone(k, (j - 1) as nat);
        }
    }
}

/// What a layout stands for: the requested path length `n`, the padded
/// length `padded` (a power of two), the offset `padded - n` and the
/// ensemble width, if one was configured.
pub struct LayoutModel {
    pub n: nat,
    pub padded: nat,
    pub offset: nat,
    pub m: Option<usize>,
}

/// Sizes of the circulant embedding behind one noise engine: the path
/// length, its padding to a power of two, and the ensemble width.
#[derive(Clone, Copy, Debug)]
pub struct EmbeddingLayout {
    n: usize,
    padded: usize,
    offset: usize,
    m: Option<usize>,
}

/// The circulant first row built from `r[0..=p]`: `r` itself, followed by
/// `r[p-1], ..., r[1]` (the two endpoints are not repeated).
pub open spec fn circulant_of<T>(r: Seq<T>) -> Seq<T> {
    let p = r.len() - 1;
    Seq::new(
        (2 * p) as nat,
        |j: int|
            if j <= p {
                r[j]
            } else {
                r[2 * p - j]
            },
    )
}

impl View for EmbeddingLayout {
    type V = LayoutModel;

    closed spec fn view(&self) -> LayoutModel {
        LayoutModel {
            n: self.n as nat,
            padded: self.padded as nat,
            offset: self.offset as nat,
            m: self.m,
        }
    }
}

impl EmbeddingLayout {
    /// The sizes agree with each other and the circulant length fits a `usize`.
    pub open spec fn wf(&self) -> bool {
        &&& 1 <= self@.n
        &&& is_padded_length(self@.n, self@.padded)
        &&& self@.offset == self@.padded - self@.n
        &&& 2 * self@.padded <= usize::MAX
    }

    /// Length of the circulant first row (and of every spectrum).
    pub open spec fn spec_circulant_len(&self) -> nat {
        2 * self@.padded
    }

    /// The part of a transformed vector that becomes the noise path.
    pub open spec fn window_of<T>(&self, v: Seq<T>) -> Seq<T> {
        v.subrange((self@.offset + 1) as int, (self@.offset + 1 + self@.n) as int)
    }

    /// Lays out a path of length `n`; fails on `n == 0`.
    pub fn new(n: usize, m: Option<usize>) -> (r: Result<EmbeddingLayout, SimError>)
        requires
            n <= usize::MAX / 4,
        ensures
            r is Err <==> n == 0,
            r is Err ==> r == Err::<EmbeddingLayout, SimError>(SimError::InvalidParameter),
            r is Ok ==> {
                let l = r->Ok_0;
                &&& l.wf()
                &&& l@.n == n
                &&& l@.m == m
            },
    {
        if n == 0 {
            return Err(SimError::InvalidParameter);
        }
        let padded = padded_length(n);
        Ok(EmbeddingLayout { n, padded, offset: padded - n, m })
    }

    /// The configured path length.
    pub fn n(&self) -> (r: usize)
        ensures
            r == self@.n,
    {
        self.n
    }

    /// The configured ensemble width, if any.
    pub fn m(&self) -> (r: Option<usize>)
        ensures
            r == self@.m,
    {
        self.m
    }

    /// The path length padded to a power of two.
    pub fn padded(&self) -> (r: usize)
        ensures
            r == self@.padded,
    {
        self.padded
    }

    /// How far the padded length exceeds the path length.
    pub fn offset(&self) -> (r: usize)
        ensures
            r == self@.offset,
    {
        self.offset
    }

    /// Length of the circulant row, twice the padded length.
    pub fn circulant_len(&self) -> (r: usize)
        requires
            self.wf(),
        ensures
            r == self.spec_circulant_len(),
    {
        2 * self.padded
    }

    /// The ensemble width, or `MissingConfiguration` where none was set.
    pub fn ensemble_width(&self) -> (r: Result<usize, SimError>)
        ensures
            self@.m is None <==> r == Err::<usize, SimError>(SimError::MissingConfiguration),
            self@.m is Some ==> r == Ok::<usize, SimError>(self@.m->Some_0),
    {
        match self.m {
            Some(m) => Ok(m),
            None => Err(SimError::MissingConfiguration),
        }
    }

    /// The lags `0, 1, ..., padded` at which the autocovariance is taken.
    pub fn lags(&self) -> (r: Vec<usize>)
        requires
            self.wf(),
        ensures
            r@.len() == self@.padded + 1,
            forall|k: int| 0 <= k < r@.len() ==> r@[k] == k,
    {
        let mut r: Vec<usize> = Vec::new();
        let mut k: usize = 0;
        while k <= self.padded
            invariant
                self.wf(),
                k <= self.padded + 1,
                r@.len() == k,
                forall|i: int| 0 <= i < r@.len() ==> r@[i] == i,
            decreases self.padded + 1 - k,
        {
            r.push(k);
            k = k + 1;
        }
        r
    }

    /// Mirrors the autocovariance `r[0..=padded]` into the circulant first row
    /// of length `2 * padded`.
    pub fn extend_circulant<T: Copy>(&self, r: &Vec<T>) -> (c: Vec<T>)
        requires
            self.wf(),
            r@.len() == self@.padded + 1,
        ensures
            c@ == circulant_of(r@),
            c@.len() == self.spec_circulant_len(),
    {
        let p = self.padded;
        let len = 2 * p;
        let mut c: Vec<T> = Vec::new();
        let mut j: usize = 0;
        while j < len
            invariant
                self.wf(),
                p == self@.padded,
                len == 2 * p,
                r@.len() == p + 1,
                j <= len,
                c@.len() == j,
                forall|i: int| 0 <= i < j ==> c@[i] == circulant_of(r@)[i],
            decreases len - j,
        {
            if j <= p {
                c.push(r[j]);
            } else {
                c.push(r[len - j]);
            }
            j = j + 1;
        }
        assert(c@ =~= circulant_of(r@));
        c
    }

    /// The entries `offset + 1 .. offset + n` of a transformed vector: the
    /// noise path, exactly `n` long.
    pub fn window<T: Copy>(&self, v: &Vec<T>) -> (w: Vec<T>)
        requires
            self.wf(),
            v@.len() == self.spec_circulant_len(),
        ensures
            w@ == self.window_of(v@),
            w@.len() == self@.n,
    {
        let start = self.offset + 1;
        let mut w: Vec<T> = Vec::new();
        let mut i: usize = 0;
        while i < self.n
            invariant
                self.wf(),
                v@.len() == self.spec_circulant_len(),
                start == self@.offset + 1,
                i <= self@.n,
                w@.len() == i,
                forall|k: int| 0 <= k < i ==> w@[k] == v@[start + k],
            decreases self.n - i,
        {
            w.push(v[start + i]);
            i = i + 1;
        }
        assert(w@ =~= self.window_of(v@));
        w
    }
}

/// A noise path cut from a transformed vector of the embedding's length is
/// exactly as long as the configured path length.
pub proof fn sample_length_is_n<T>(layout: EmbeddingLayout, v: Seq<T>)
    requires
        layout.wf(),
        v.len() == layout.spec_circulant_len(),
    ensures
        layout.window_of(v).len() == layout@.n,
{
}

/// The circulant first row is symmetric, `c[j] == c[len - j]`, so that its
/// discrete Fourier transform is real.
pub proof fn circulant_is_symmetric<T>(r: Seq<T>, j: int)
    requires
        2 <= r.len(),
        1 <= j < circulant_of(r).len(),
    ensures
        circulant_of(r)[j] == circulant_of(r)[circulant_of(r).len() - j],
{
}

} // verus!
