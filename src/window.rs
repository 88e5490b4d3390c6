use vstd::prelude::*;
use vstd::seq_lib::lemma_flatten_concat;

verus! {

/// The complete analysis windows that `s` holds: consecutive, non-overlapping
/// runs of `size` samples, oldest first.
pub open spec fn windows_of<T>(s: Seq<T>, size: nat) -> Seq<Seq<T>>
    recommends
        size > 0,
{
    Seq::new(s.len() / size, |i: int| s.subrange(i * size, (i + 1) * size))
}

/// What is left of `s` once every complete window has been cut from it.
pub open spec fn remainder_of<T>(s: Seq<T>, size: nat) -> Seq<T>
    recommends
        size > 0,
{
    s.subrange(((s.len() / size) * size) as int, s.len() as int)
}

/// The contents of each vector in `v`, in order.
pub open spec fn views<T>(v: Seq<Vec<T>>) -> Seq<Seq<T>> {
    v.map_values(|w: Vec<T>| w@)
}

/// The windows handed out when `chunks` are pushed one after another into a
/// buffer of window size `size` whose backlog is `backlog`.
pub open spec fn stream_windows<T>(backlog: Seq<T>, chunks: Seq<Seq<T>>, size: nat) -> Seq<Seq<T>>
    decreases chunks.len(),
{
    if chunks.len() == 0 {
        Seq::empty()
    } else {
        let s = backlog + chunks[0];
        windows_of(s, size) + stream_windows(remainder_of(s, size), chunks.drop_first(), size)
    }
}

/// The backlog left once `chunks` have been pushed one after another into a
/// buffer of window size `size` whose backlog is `backlog`.
pub open spec fn stream_remainder<T>(backlog: Seq<T>, chunks: Seq<Seq<T>>, size: nat) -> Seq<T>
    decreases chunks.len(),
{
    if chunks.len() == 0 {
        backlog
    } else {
        let s = backlog + chunks[0];
        stream_remainder(remainder_of(s, size), chunks.drop_first(), size)
    }
}

/// The first `k` windows of `s`, laid end to end, are the first `k * size` samples.
proof fn lemma_windows_prefix<T>(s: Seq<T>, size: nat, k: nat)
    requires
        size > 0,
        k <= s.len() / size,
    ensures
        windows_of(s, size).take(k as int).flatten() =~= s.take((k * size) as int),
    decreases k,
{
    let w = windows_of(s, size);
    if k == 0 {
        assert(w.take(0) =~= Seq::<Seq<T>>::empty());
    } else {
        let j = (k - 1) as nat;
        lemma_windows_prefix(s, size, j);
        assert(w.take(k as int) =~= w.take(j as int).push(w[j as int]));
        w.take(j as int).lemma_flatten_push(w[j as int]);
        assert(k * size == j * size + size) by (nonlinear_arith)
            requires
                j == k - 1,
        ;
        assert(k * size <= s.len()) by (nonlinear_arith)
            requires
                k <= s.len() / size,
                size > 0,
        ;
    }
}

/// Cutting the windows out of `s` loses and repeats nothing: the windows laid
/// end to end, followed by what is left, are `s` again.
pub proof fn lemma_windows_then_remainder<T>(s: Seq<T>, size: nat)
    requires
        size > 0,
    ensures
        windows_of(s, size).flatten() + remainder_of(s, size) =~= s,
        windows_of(s, size).flatten().len() == windows_of(s, size).len() * size,
        remainder_of(s, size).len() < size,
{
    let n = s.len() / size;
    lemma_windows_prefix(s, size, n);
    assert(windows_of(s, size).take(n as int) =~= windows_of(s, size));
    assert(n * size <= s.len() < n * size + size) by (nonlinear_arith)
        requires
            n == s.len() / size,
            size > 0,
    ;
}

/// Pushing chunks one after another loses and repeats nothing: the windows
/// handed out, laid end to end and followed by the final backlog, are the
/// starting backlog followed by every pushed sample, and the final backlog
/// holds less than a window.
pub proof fn lemma_stream_preserves_samples<T>(backlog: Seq<T>, chunks: Seq<Seq<T>>, size: nat)
    requires
        size > 0,
        backlog.len() < size,
    ensures
        stream_windows(backlog, chunks, size).flatten() + stream_remainder(backlog, chunks, size)
            =~= backlog + chunks.flatten(),
        stream_windows(backlog, chunks, size).flatten().len()
            == stream_windows(backlog, chunks, size).len() * size,
        stream_remainder(backlog, chunks, size).len() < size,
        forall|i: int|
            0 <= i < stream_windows(backlog, chunks, size).len()
                ==> #[trigger] stream_windows(backlog, chunks, size)[i].len() == size,
    decreases chunks.len(),
{
    if chunks.len() > 0 {
        let s = backlog + chunks[0];
        let w = windows_of(s, size);
        let r = remainder_of(s, size);
        let rest = chunks.drop_first();
        lemma_windows_then_remainder(s, size);
        lemma_stream_preserves_samples(r, rest, size);
        let tail = stream_windows(r, rest, size);
        lemma_flatten_concat(w, tail);
        assert(chunks.flatten() == chunks[0] + rest.flatten());
        let rr = stream_remainder(r, rest, size);
        assert(stream_remainder(backlog, chunks, size) == rr);
        assert(w.flatten() + tail.flatten() + rr =~= w.flatten() + (tail.flatten() + rr));
        assert(w.flatten() + (r + rest.flatten()) =~= (w.flatten() + r) + rest.flatten());
        assert(s + rest.flatten() =~= backlog + (chunks[0] + rest.flatten()));
        assert((w.len() + tail.len()) * size == w.len() * size + tail.len() * size)
            by (nonlinear_arith);
        assert forall|i: int| 0 <= i < w.len() implies #[trigger] w[i].len() == size by {
            assert((i + 1) * size <= s.len()) by (nonlinear_arith)
                requires
                    0 <= i < w.len(),
                    w.len() == s.len() / size,
                    size > 0,
            ;
            assert((i + 1) * size == i * size + size) by (nonlinear_arith);
        }
        assert(stream_windows(backlog, chunks, size) == w + tail);
    }
}

/// Whatever the split of a stream into chunks, once the total number of
/// samples is a multiple of the window size, the windows handed out by a
/// fresh buffer, laid end to end, are exactly the samples pushed, and no
/// sample is left behind.
pub proof fn lemma_windows_cover_stream<T>(chunks: Seq<Seq<T>>, size: nat)
    requires
        size > 0,
        chunks.flatten().len() % size == 0,
    ensures
        stream_windows(Seq::empty(), chunks, size).flatten() == chunks.flatten(),
        stream_remainder(Seq::empty(), chunks, size) == Seq::<T>::empty(),
{
    let e = Seq::<T>::empty();
    lemma_stream_preserves_samples(e, chunks, size);
    let f = chunks.flatten();
    let w = stream_windows(e, chunks, size);
    let r = stream_remainder(e, chunks, size);
    assert(e + f =~= f);
    let q = f.len() / size;
    assert(f.len() == q * size) by {
        vstd::arithmetic::div_mod::lemma_fundamental_div_mod(f.len() as int, size as int);
    }
    assert(r.len() == 0) by (nonlinear_arith)
        requires
            w.flatten().len() + r.len() == f.len(),
            w.flatten().len() == w.len() * size,
            f.len() == q * size,
            r.len() < size,
            size > 0,
    ;
    assert(w.flatten() =~= f);
    assert(r =~= e);
}

/// In a sequence of runs that all have `size` elements, run `i` sits at
/// positions `i * size` to `(i + 1) * size` of the runs laid end to end.
proof fn lemma_flatten_uniform_index<T>(w: Seq<Seq<T>>, size: nat, i: int)
    requires
        0 <= i < w.len(),
        forall|j: int| 0 <= j < w.len() ==> #[trigger] w[j].len() == size,
    ensures
        (i + 1) * size <= w.flatten().len(),
        w.flatten().subrange(i * size, (i + 1) * size) == w[i],
    decreases w.len(),
{
    let rest = w.drop_first();
    assert forall|j: int| 0 <= j < rest.len() implies #[trigger] rest[j].len() == size by {
        assert(rest[j] == w[j + 1]);
    }
    assert(w.flatten() == w[0] + rest.flatten());
    if i == 0 {
        assert(i * size == 0 && (i + 1) * size == size) by (nonlinear_arith)
            requires
                i == 0,
        ;
        assert(w.flatten().subrange(0, size as int) =~= w[0]);
    } else {
        lemma_flatten_uniform_index(rest, size, i - 1);
        assert(rest[i - 1] == w[i]);
        assert(i * size == (i - 1) * size + size) by (nonlinear_arith);
        assert((i + 1) * size == i * size + size) by (nonlinear_arith);
        assert(w.flatten().subrange(i * size, (i + 1) * size) =~= rest.flatten().subrange(
            (i - 1) * size,
            i * size,
        ));
    }
}

/// Windows come out in arrival order: window `i` handed out by a fresh
/// buffer is exactly the samples at positions `i * size` to `(i + 1) * size`
/// of the stream, however the stream was split into chunks.
pub proof fn lemma_stream_window_order<T>(chunks: Seq<Seq<T>>, size: nat, i: int)
    requires
        size > 0,
        0 <= i < stream_windows(Seq::empty(), chunks, size).len(),
    ensures
        stream_windows(Seq::empty(), chunks, size)[i] == chunks.flatten().subrange(
            i * size,
            (i + 1) * size,
        ),
{
    let e = Seq::<T>::empty();
    let w = stream_windows(e, chunks, size);
    lemma_stream_preserves_samples(e, chunks, size);
    lemma_flatten_uniform_index(w, size, i);
    let f = chunks.flatten();
    assert(e + f =~= f);
    let r = stream_remainder(e, chunks, size);
    assert(w.flatten() + r == f);
    assert(0 <= i * size <= (i + 1) * size) by (nonlinear_arith)
        requires
            0 <= i,
    ;
    assert(f.subrange(i * size, (i + 1) * size) =~= w.flatten().subrange(i * size, (i + 1) * size));
}

/// Accumulates chunks of samples of any length and hands out fixed-size
/// analysis windows in arrival order, keeping the samples that do not yet
/// fill a window for the next push.
pub struct WindowBuffer<T> {
    backlog: Vec<T>,
    size: usize,
}

/// A copy of `src[lo..hi]`.
fn copy_range<T: Copy>(src: &Vec<T>, lo: usize, hi: usize) -> (r: Vec<T>)
    requires
        lo <= hi <= src@.len(),
    ensures
        r@ == src@.subrange(lo as int, hi as int),
{
    let mut r: Vec<T> = Vec::new();
    let mut i: usize = lo;
    while i < hi
        invariant
            lo <= i <= hi <= src@.len(),
            r@ == src@.subrange(lo as int, i as int),
        decreases hi - i,
    {
        r.push(src[i]);
        i = i + 1;
    }
    r
}

impl<T: Copy> WindowBuffer<T> {
    /// The samples received but not yet handed out in a window.
    pub closed spec fn backlog(&self) -> Seq<T> {
        self.backlog@
    }

    /// The number of samples in each window.
    pub closed spec fn size(&self) -> nat {
        self.size as nat
    }

    /// The window size is positive and the backlog never holds a whole window.
    pub closed spec fn wf(&self) -> bool {
        self.size > 0 && self.backlog@.len() < self.size
    }

    /// An empty buffer that cuts windows of `size` samples.
    pub fn new(size: usize) -> (r: Self)
        requires
            size > 0,
        ensures
            r.wf(),
            r.size() == size,
            r.backlog() == Seq::<T>::empty(),
    {
        WindowBuffer { backlog: Vec::new(), size }
    }

    /// The number of samples in each window.
    pub fn window_size(&self) -> (r: usize)
        ensures
            r == self.size(),
    {
        self.size
    }

    /// The number of samples waiting for a window to fill.
    pub fn pending(&self) -> (r: usize)
        ensures
            r == self.backlog().len(),
    {
        self.backlog.len()
    }

    /// Appends `chunk` to the backlog and cuts from the front every complete
    /// window that it now holds, in order; the rest stays for the next push.
    pub fn push(&mut self, chunk: &[T]) -> (r: Vec<Vec<T>>)
        requires
            old(self).wf(),
            old(self).backlog().len() + chunk@.len() <= usize::MAX,
        ensures
            final(self).wf(),
            final(self).size() == old(self).size(),
            views(r@) == windows_of(old(self).backlog() + chunk@, old(self).size()),
            final(self).backlog() == remainder_of(old(self).backlog() + chunk@, old(self).size()),
    {
        let ghost total = self.backlog@ + chunk@;
        let size = self.size;
        let mut all: Vec<T> = Vec::new();
        std::mem::swap(&mut all, &mut self.backlog);
        let mut j: usize = 0;
        while j < chunk.len()
            invariant
                j <= chunk@.len(),
                all@.len() + chunk@.len() - j <= usize::MAX,
                all@ == total.subrange(0, all@.len() as int),
                all@.len() == total.len() - chunk@.len() + j,
                total == old(self).backlog() + chunk@,
            decreases chunk@.len() - j,
        {
            all.push(chunk[j]);
            j = j + 1;
        }
        assert(all@ =~= total);
        let mut windows: Vec<Vec<T>> = Vec::new();
        let mut start: usize = 0;
        assert(windows@.len() * size == 0) by (nonlinear_arith)
            requires
                windows@.len() == 0,
        ;
        while all.len() - start >= size
            invariant
                size > 0,
                size == old(self).size(),
                all@ == total,
                start <= all@.len(),
                start as int == windows@.len() * size,
                windows@.len() <= total.len() / (size as nat),
                views(windows@) =~= windows_of(total, size as nat).take(windows@.len() as int),
            decreases all@.len() - start,
        {
            proof {
                assert(windows@.len() + 1 <= total.len() / (size as nat)) by (nonlinear_arith)
                    requires
                        start as int == windows@.len() * size,
                        total.len() - start >= size,
                        size > 0,
                ;
                assert((windows@.len() + 1) * size == windows@.len() * size + size) by (nonlinear_arith);
            }
            let w = copy_range(&all, start, start + size);
            windows.push(w);
            start = start + size;
            proof {
                assert(views(windows@) =~= windows_of(total, size as nat).take(windows@.len() as int));
            }
        }
        proof {
            let n = total.len() / (size as nat);
            assert(windows@.len() == n) by (nonlinear_arith)
                requires
                    start as int == windows@.len() * size,
                    total.len() - start < size,
                    windows@.len() <= n,
                    n == total.len() / (size as nat),
                    size > 0,
            ;
        }
        let rest = copy_range(&all, start, all.len());
        self.backlog = rest;
        assert(views(windows@) =~= windows_of(total, size as nat));
        windows
    }
}

} // verus!
