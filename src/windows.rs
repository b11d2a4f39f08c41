use vstd::prelude::*;

verus! {

/// The named window kinds that the engine can synthesize.
#[derive(Clone, Copy, Debug, PartialEq, Eq, Structural)]
pub enum Window {
    Hann,
    Hamming,
}

impl Default for Window {
    fn default() -> (r: Window)
        ensures
            r == Window::Hann,
    {
        Window::Hann
    }
}

/// Length of the symmetric window that is generated for a requested `size`:
/// a periodic window is the symmetric one of `size + 1` samples without its
/// last sample.
pub open spec fn symmetric_len(size: nat, sym: bool) -> nat {
    if sym {
        size
    } else {
        size + 1
    }
}

/// Number of distinct coefficients of a symmetric window of `n` samples:
/// the first half, middle sample included.
pub open spec fn half_len(n: nat) -> nat {
    (n + 1) / 2
}

/// Index in the first half that sample `i` of a symmetric window of `n`
/// samples mirrors.
pub open spec fn mirror_index(n: nat, i: nat) -> nat {
    if i < half_len(n) {
        i
    } else {
        (n - 1 - i) as nat
    }
}

/// The symmetric window of `n` samples whose first half is `half`.
pub open spec fn symmetric_window<T>(half: Seq<T>, n: nat) -> Seq<T> {
    Seq::new(n, |i: int| half[mirror_index(n, i as nat) as int])
}

/// The window of `size` samples built from the first half of its symmetric
/// generator: symmetric when `sym`, else periodic.
pub open spec fn window_from_half<T>(half: Seq<T>, size: nat, sym: bool) -> Seq<T> {
    symmetric_window(half, symmetric_len(size, sym)).take(size as int)
}

/// Length of the symmetric generator for `size` samples, and whether its last
/// sample is dropped afterwards.
pub fn extend(size: usize, sym: bool) -> (r: (usize, bool))
    requires
        size < usize::MAX,
    ensures
        r.0 == symmetric_len(size as nat, sym),
        r.1 == !sym,
{
    if sym {
        (size, false)
    } else {
        (size + 1, true)
    }
}

/// Number of coefficients that must be computed for a window of `size`
/// samples: the first half of its symmetric generator.
pub fn generator_half_len(size: usize, sym: bool) -> (r: usize)
    requires
        size < usize::MAX,
    ensures
        r == half_len(symmetric_len(size as nat, sym)),
{
    let (n, _) = extend(size, sym);
    n / 2 + n % 2
}

/// Drops the last sample of `w` when `needed` and `w` is not empty.
pub fn maybe_truncate<T>(w: &mut Vec<T>, needed: bool)
    ensures
        final(w)@ == if needed && old(w)@.len() > 0 {
            old(w)@.drop_last()
        } else {
            old(w)@
        },
{
    if needed && w.len() > 0 {
        w.pop();
    }
}

/// Mirrors the first half of a symmetric window into all of its `n` samples.
pub fn mirror_half<T: Copy>(half: &Vec<T>, n: usize) -> (r: Vec<T>)
    requires
        half@.len() == half_len(n as nat),
    ensures
        r@ == symmetric_window(half@, n as nat),
{
    let mut r: Vec<T> = Vec::with_capacity(n);
    let h = half.len();
    let mut i: usize = 0;
    while i < n
        invariant
            i <= n,
            h == half@.len(),
            h == half_len(n as nat),
            r@.len() == i,
            forall|j: int| 0 <= j < i ==> r@[j] == half@[mirror_index(n as nat, j as nat) as int],
        decreases n - i,
    {
        let k = if i < h {
            i
        } else {
            n - 1 - i
        };
        r.push(half[k]);
        i += 1;
    }
    assert(r@ =~= symmetric_window(half@, n as nat));
    r
}

/// Builds a window of `size` samples from the first half of its symmetric
/// generator (see `generator_half_len`): the symmetric window itself when
/// `sym`, else the periodic one, which drops the generator's last sample.
pub fn window_from_half_coefficients<T: Copy>(half: &Vec<T>, size: usize, sym: bool) -> (r: Vec<T>)
    requires
        size < usize::MAX,
        half@.len() == half_len(symmetric_len(size as nat, sym)),
    ensures
        r@ == window_from_half(half@, size as nat, sym),
        r@.len() == size,
{
    let (n, needs_trunc) = extend(size, sym);
    let mut w = mirror_half(half, n);
    maybe_truncate(&mut w, needs_trunc);
    assert(w@ =~= window_from_half(half@, size as nat, sym));
    w
}

/// A symmetric window reads the same forwards and backwards.
pub proof fn lemma_symmetric_window_is_symmetric<T>(half: Seq<T>, size: nat, i: nat)
    requires
        half.len() == half_len(size),
        i < size,
    ensures
        window_from_half(half, size, true)[i as int]
            == window_from_half(half, size, true)[size - 1 - i],
{
}

/// A periodic window of `size` samples is the symmetric window of
/// `size + 1` samples without its last sample.
pub proof fn lemma_periodic_is_truncated_symmetric<T>(half: Seq<T>, size: nat)
    requires
        half.len() == half_len(size + 1),
    ensures
        window_from_half(half, size, false) == window_from_half(half, size + 1, true).take(
            size as int,
        ),
{
    assert(window_from_half(half, size, false) =~= window_from_half(half, size + 1, true).take(
        size as int,
    ));
}

} // verus!
