//! Watching a container's output stream for a marker.
//!
//! Output arrives in chunks of at most the marker's length. A window of twice that
//! length keeps the most recent bytes (it starts out zero-filled), and after every
//! chunk the window is searched for the marker. Because a chunk is never longer than
//! the marker, every occurrence of the marker is wholly inside the window at the moment
//! its last byte arrives, so the watch stops exactly when the marker first appears.
use vstd::prelude::*;

verus! {

/// `m` occurs in `s` starting at index `i`.
pub open spec fn occurs_at(s: Seq<u8>, m: Seq<u8>, i: int) -> bool {
    &&& 0 <= i
    &&& i + m.len() <= s.len()
    &&& s.subrange(i, i + m.len()) == m
}

/// `m` occurs somewhere in `s` as a contiguous run.
pub open spec fn occurs_in(s: Seq<u8>, m: Seq<u8>) -> bool {
    exists|i: int| occurs_at(s, m, i)
}

/// The last `n` elements of `s` (all of `s` when it is shorter).
pub open spec fn last_n(s: Seq<u8>, n: nat) -> Seq<u8> {
    if s.len() <= n {
        s
    } else {
        s.subrange(s.len() - n, s.len() as int)
    }
}

/// `n` zero bytes.
pub open spec fn zeros(n: nat) -> Seq<u8> {
    Seq::new(n, |i: int| 0u8)
}

/// What a step of the watch asks of the loop that reads the output.
#[derive(PartialEq, Eq, Structural, Clone, Copy, Debug)]
pub struct WaitStep {
    /// The read returned nothing: pause before the next read.
    pub pause: bool,
    /// The marker has been seen: stop watching.
    pub done: bool,
}

/// The state of a watch for a marker in a stream of bytes.
pub struct MarkerWatch {
    marker: Vec<u8>,
    window: Vec<u8>,
    seen: Ghost<Seq<u8>>,
}

impl MarkerWatch {
    /// The marker being watched for.
    pub closed spec fn marker(&self) -> Seq<u8> {
        self.marker@
    }

    /// Every byte of the stream received so far, in order.
    pub closed spec fn received(&self) -> Seq<u8> {
        self.seen@
    }

    /// The stream as the window sees it: twice the marker's length of zero bytes,
    /// then everything received.
    pub open spec fn padded(&self) -> Seq<u8> {
        zeros(2 * self.marker().len()) + self.received()
    }

    /// The bytes searched for the marker: the last twice-the-marker's-length bytes of
    /// the padded stream.
    pub open spec fn window(&self) -> Seq<u8> {
        last_n(self.padded(), 2 * self.marker().len())
    }

    #[verifier::type_invariant]
    spec fn inv(&self) -> bool {
        &&& self.marker@.len() > 0
        &&& 2 * self.marker@.len() <= usize::MAX
        &&& self.window@ == last_n(zeros(2 * self.marker@.len()) + self.seen@, 2 * self.marker@.len())
    }

    /// Starts watching for `marker` with nothing received yet.
    pub fn new(marker: &[u8]) -> (res: Self)
        requires
            marker@.len() > 0,
            2 * marker@.len() <= usize::MAX,
        ensures
            res.marker() == marker@,
            res.received() == Seq::<u8>::empty(),
    {
        let m = marker.len();
        let mut mk: Vec<u8> = Vec::new();
        let mut i: usize = 0;
        while i < m
            invariant
                i <= m,
                m == marker@.len(),
                mk@ == marker@.subrange(0, i as int),
            decreases m - i,
        {
            mk.push(marker[i]);
            i = i + 1;
            assert(mk@ == marker@.subrange(0, i as int));
        }
        assert(mk@ == marker@);
        let w = 2 * m;
        let mut window: Vec<u8> = Vec::new();
        let mut j: usize = 0;
        while j < w
            invariant
                j <= w,
                window@ == zeros(j as nat),
            decreases w - j,
        {
            window.push(0u8);
            j = j + 1;
            assert(window@ == zeros(j as nat));
        }
        let ghost z = zeros(w as nat);
        assert(z + Seq::<u8>::empty() == z);
        MarkerWatch { marker: mk, window, seen: Ghost(Seq::empty()) }
    }

    /// The number of bytes to ask for in each read: the marker's length.
    pub fn read_len(&self) -> (n: usize)
        ensures
            n == self.marker().len(),
            n > 0,
    {
        proof {
            use_type_invariant(self);
        }
        self.marker.len()
    }

    /// Whether `marker` occurs in `window` starting at `start`.
    fn matches_at(window: &Vec<u8>, marker: &Vec<u8>, start: usize) -> (res: bool)
        requires
            start + marker@.len() <= window@.len(),
        ensures
            res == (window@.subrange(start as int, start + marker@.len()) == marker@),
    {
        let m = marker.len();
        let wl = window.len();
        let mut k: usize = 0;
        while k < m
            invariant
                k <= m,
                m == marker@.len(),
                wl == window@.len(),
                start + m <= window@.len(),
                forall|t: int| 0 <= t < k ==> window@[start + t] == marker@[t],
            decreases m - k,
        {
            if window[start + k] != marker[k] {
                assert(window@.subrange(start as int, start + m)[k as int] != marker@[k as int]);
                return false;
            }
            k = k + 1;
        }
        assert(window@.subrange(start as int, start + m) =~= marker@);
        true
    }

    /// Whether the marker occurs in the current window.
    fn window_has_marker(&self) -> (res: bool)
        ensures
            res == occurs_in(self.window(), self.marker()),
    {
        proof {
            use_type_invariant(self);
            assert(self.window@ == self.window());
        }
        let m = self.marker.len();
        let w = self.window.len();
        let mut start: usize = 0;
        while start <= w - m
            invariant
                m == self.marker@.len(),
                w == self.window@.len(),
                m > 0,
                w == 2 * m,
                self.window@ == self.window(),
                start <= w,
                forall|i: int| 0 <= i < start ==> !occurs_at(self.window@, self.marker@, i),
            decreases w - start,
        {
            if Self::matches_at(&self.window, &self.marker, start) {
                assert(occurs_at(self.window(), self.marker(), start as int));
                return true;
            }
            start = start + 1;
        }
        assert forall|i: int| !occurs_at(self.window@, self.marker@, i) by {
            if 0 <= i && i >= start {
                assert(i + m > w);
            }
        }
        false
    }

    /// Takes in the bytes of one read and says whether to pause before the next read
    /// (the read returned nothing) and whether the marker has been seen, that is,
    /// whether it occurs in the window after the bytes have been taken in.
    pub fn step(&mut self, chunk: &[u8]) -> (res: WaitStep)
        requires
            chunk@.len() <= old(self).marker().len(),
        ensures
            final(self).marker() == old(self).marker(),
            final(self).received() == old(self).received() + chunk@,
            res.pause == (chunk@.len() == 0),
            res.done == occurs_in(final(self).window(), final(self).marker()),
            res.done ==> occurs_in(final(self).padded(), final(self).marker()),
            !occurs_in(old(self).padded(), old(self).marker()) ==> (res.done == occurs_in(
                final(self).padded(),
                final(self).marker(),
            )),
    {
        proof {
            use_type_invariant(&*self);
        }
        let ghost old_padded = self.padded();
        let ghost mk = self.marker@;
        let r = chunk.len();
        let w = self.window.len();
        assert(r <= w);
        let mut next: Vec<u8> = Vec::new();
        let mut i: usize = r;
        while i < w
            invariant
                r <= i <= w,
                w == self.window@.len(),
                next@ == self.window@.subrange(r as int, i as int),
            decreases w - i,
        {
            next.push(self.window[i]);
            i = i + 1;
            assert(next@ == self.window@.subrange(r as int, i as int));
        }
        let mut j: usize = 0;
        while j < r
            invariant
                j <= r,
                r <= w,
                w == self.window@.len(),
                r == chunk@.len(),
                next@ == self.window@.subrange(r as int, w as int) + chunk@.subrange(0, j as int),
            decreases r - j,
        {
            next.push(chunk[j]);
            j = j + 1;
            assert(next@ == self.window@.subrange(r as int, w as int) + chunk@.subrange(0, j as int));
        }
        proof {
            let p = old_padded;
            let n = 2 * mk.len();
            assert(chunk@.subrange(0, r as int) == chunk@);
            assert(p.len() >= n);
            assert(last_n(p + chunk@, n) =~= last_n(p, n).subrange(r as int, n as int) + chunk@);
            assert(zeros(n) + (self.seen@ + chunk@) =~= p + chunk@);
        }
        let ghost new_seen = self.seen@ + chunk@;
        *self = MarkerWatch { marker: self.marker.clone(), window: next, seen: Ghost(new_seen) };
        let done = self.window_has_marker();
        proof {
            let p = old_padded;
            lemma_window_occurrence_in_stream(p + chunk@, mk);
            if !occurs_in(p, mk) && occurs_in(p + chunk@, mk) {
                lemma_new_occurrence_in_window(p, chunk@, mk);
            }
        }
        WaitStep { pause: r == 0, done }
    }
}

/// An occurrence of `m` in the last `2 * |m|` bytes of a stream is an occurrence in
/// the stream.
pub proof fn lemma_window_occurrence_in_stream(s: Seq<u8>, m: Seq<u8>)
    ensures
        occurs_in(last_n(s, 2 * m.len()), m) ==> occurs_in(s, m),
{
    let n = 2 * m.len();
    if occurs_in(last_n(s, n), m) {
        let k = choose|k: int| occurs_at(last_n(s, n), m, k);
        if s.len() <= n {
            assert(occurs_at(s, m, k));
        } else {
            let off = s.len() - n;
            assert(s.subrange(off + k, off + k + m.len()) =~= last_n(s, n).subrange(k, k + m.len()));
            assert(occurs_at(s, m, off + k));
        }
    }
}

/// A marker that was not in the stream `p` but is in `p` extended by a chunk no longer
/// than the marker lies wholly within the last `2 * |m|` bytes of the extended stream.
pub proof fn lemma_new_occurrence_in_window(p: Seq<u8>, chunk: Seq<u8>, m: Seq<u8>)
    requires
        chunk.len() <= m.len(),
        !occurs_in(p, m),
        occurs_in(p + chunk, m),
    ensures
        occurs_in(last_n(p + chunk, 2 * m.len()), m),
{
    let s = p + chunk;
    let n = 2 * m.len();
    let i = choose|i: int| occurs_at(s, m, i);
    if i + m.len() <= p.len() {
        assert(p.subrange(i, i + m.len()) =~= s.subrange(i, i + m.len()));
        assert(occurs_at(p, m, i));
    }
    if s.len() <= n {
        assert(occurs_at(last_n(s, n), m, i));
    } else {
        let off = s.len() - n;
        assert(i >= off);
        assert(last_n(s, n).subrange(i - off, i - off + m.len()) =~= s.subrange(i, i + m.len()));
        assert(occurs_at(last_n(s, n), m, i - off));
    }
}

/// All the chunks of `chunks`, one after the other.
pub open spec fn concat_chunks(chunks: Seq<Seq<u8>>) -> Seq<u8>
    decreases chunks.len(),
{
    if chunks.len() == 0 {
        Seq::empty()
    } else {
        concat_chunks(chunks.drop_last()) + chunks.last()
    }
}

/// The padded stream a watch for `marker` has seen after taking in the first `k`
/// chunks of `chunks`.
pub open spec fn stream_after(marker: Seq<u8>, chunks: Seq<Seq<u8>>, k: int) -> Seq<u8> {
    zeros(2 * marker.len()) + concat_chunks(chunks.take(k))
}

/// Whether a watch for `marker` reports the marker seen at the step that takes in
/// chunk number `k` (counting from 1) of `chunks`.
pub open spec fn reported_at(marker: Seq<u8>, chunks: Seq<Seq<u8>>, k: int) -> bool {
    occurs_in(last_n(stream_after(marker, chunks, k), 2 * marker.len()), marker)
}

proof fn lemma_stream_after_step(marker: Seq<u8>, chunks: Seq<Seq<u8>>, k: int)
    requires
        1 <= k <= chunks.len(),
    ensures
        stream_after(marker, chunks, k) == stream_after(marker, chunks, k - 1) + chunks[k - 1],
{
    assert(chunks.take(k).drop_last() =~= chunks.take(k - 1));
    assert(chunks.take(k).last() == chunks[k - 1]);
    assert(stream_after(marker, chunks, k) =~= stream_after(marker, chunks, k - 1) + chunks[k - 1]);
}

/// A watch stops exactly when the marker first appears: when the stream arrives in
/// chunks no longer than the marker, and no earlier step reported the marker seen, the
/// step that takes in chunk `k` reports it seen if and only if the marker occurs in
/// the padded stream received so far.
pub proof fn law_watch_reports_first_occurrence(marker: Seq<u8>, chunks: Seq<Seq<u8>>, k: int)
    requires
        marker.len() > 0,
        forall|i: int| 0 <= i < chunks.len() ==> #[trigger] chunks[i].len() <= marker.len(),
        1 <= k <= chunks.len(),
        forall|j: int| 1 <= j < k ==> !#[trigger] reported_at(marker, chunks, j),
    ensures
        reported_at(marker, chunks, k) == occurs_in(stream_after(marker, chunks, k), marker),
    decreases k,
{
    let n = 2 * marker.len();
    let p = stream_after(marker, chunks, k - 1);
    let c = chunks[k - 1];
    lemma_stream_after_step(marker, chunks, k);
    lemma_window_occurrence_in_stream(p + c, marker);
    if occurs_in(p + c, marker) {
        if !occurs_in(p, marker) {
            lemma_new_occurrence_in_window(p, c, marker);
        } else if k >= 2 {
            law_watch_reports_first_occurrence(marker, chunks, k - 1);
            assert(!reported_at(marker, chunks, k - 1));
        } else {
            assert(chunks.take(0) =~= Seq::<Seq<u8>>::empty());
            assert(p =~= zeros(n));
            let i = choose|i: int| occurs_at(p, marker, i);
            let w = last_n(p + c, n);
            assert(w =~= (p + c).subrange(c.len() as int, (n + c.len()) as int));
            assert(w.subrange(0, marker.len() as int) =~= marker) by {
                assert forall|t: int| 0 <= t < marker.len() implies w[t] == marker[t] by {
                    assert(p.subrange(i, i + marker.len())[t] == marker[t]);
                }
            }
            assert(occurs_at(w, marker, 0));
        }
    }
}

/// The last `n` elements of a sequence: as many as it has, up to `n`, in their order,
/// ending with its last element.
pub proof fn law_last_n_is_tail(s: Seq<u8>, n: nat)
    ensures
        last_n(s, n).len() == if s.len() <= n { s.len() } else { n },
        forall|i: int| 0 <= i < last_n(s, n).len() ==> #[trigger] last_n(s, n)[i] == s[s.len()
            - last_n(s, n).len() + i],
{
}

/// `n` zero bytes are `n` bytes, each zero.
pub proof fn law_zeros(n: nat)
    ensures
        zeros(n).len() == n,
        forall|i: int| 0 <= i < n ==> #[trigger] zeros(n)[i] == 0u8,
{
}

/// The marker occurs at `i` exactly when it fits there and every byte of it equals the
/// stream's byte at the same offset from `i`.
pub proof fn law_occurs_at_bytewise(s: Seq<u8>, m: Seq<u8>, i: int)
    ensures
        occurs_at(s, m, i) <==> (0 <= i && i + m.len() <= s.len() && forall|k: int|
            0 <= k < m.len() ==> #[trigger] s[i + k] == m[k]),
{
    if 0 <= i && i + m.len() <= s.len() {
        if forall|k: int| 0 <= k < m.len() ==> #[trigger] s[i + k] == m[k] {
            assert forall|k: int| 0 <= k < m.len() implies s.subrange(i, i + m.len())[k]
                == m[k] by {
                assert(s[i + k] == m[k]);
            }
            assert(s.subrange(i, i + m.len()) =~= m);
        }
        if occurs_at(s, m, i) {
            assert forall|k: int| 0 <= k < m.len() implies #[trigger] s[i + k] == m[k] by {
                assert(s.subrange(i, i + m.len())[k] == m[k]);
            }
        }
    }
}

} // verus!
