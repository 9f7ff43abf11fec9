//! Streaming triangle-fan tessellation with bounded batches.
use vstd::prelude::*;

verus! {

/// Number of triangles in a fan over `n` points.
pub open spec fn fan_len(n: nat) -> nat {
    if n >= 3 {
        (n - 2) as nat
    } else {
        0
    }
}

/// The flat vertex list of the fan anchored at the first point:
/// triangle `t` is `(pts[0], pts[t + 1], pts[t + 2])`.
pub open spec fn fan_vertices<V>(pts: Seq<V>) -> Seq<V> {
    Seq::new(
        3 * fan_len(pts.len()),
        |i: int|
            if i % 3 == 0 {
                pts[0]
            } else {
                pts[i / 3 + i % 3]
            },
    )
}

/// Cuts `s` into consecutive pieces of `size` elements; the last piece
/// holds what is left and is never empty.
pub open spec fn batched<V>(s: Seq<V>, size: nat) -> Seq<Seq<V>>
    decreases s.len(),
{
    if s.len() == 0 || size == 0 {
        Seq::empty()
    } else if s.len() <= size {
        seq![s]
    } else {
        seq![s.take(size as int)] + batched(s.skip(size as int), size)
    }
}

/// Adding one point to a fan of at least two points adds the triangle
/// formed by the anchor, the previous point and the new one.
pub proof fn lemma_fan_push<V>(pts: Seq<V>, p: V)
    ensures
        pts.len() >= 2 ==> fan_vertices(pts.push(p)) == fan_vertices(pts) + seq![
            pts[0],
            pts.last(),
            p,
        ],
        pts.len() < 2 ==> fan_vertices(pts.push(p)) == Seq::<V>::empty(),
{
    let n = pts.len();
    let q = pts.push(p);
    if n >= 2 {
        let lhs = fan_vertices(q);
        let rhs = fan_vertices(pts) + seq![pts[0], pts.last(), p];
        assert(lhs.len() == rhs.len());
        assert forall|i: int| 0 <= i < lhs.len() implies lhs[i] == rhs[i] by {
            if i < 3 * fan_len(n) {
                assert(i / 3 + i % 3 < n);
            } else {
                assert(i / 3 == n - 2);
            }
        }
        assert(lhs =~= rhs);
    } else {
        assert(fan_vertices(q) =~= Seq::<V>::empty());
    }
}

/// Cutting a sequence whose length is a multiple of `size` and then the
/// rest gives the same pieces as cutting the whole.
pub proof fn lemma_batched_append<V>(a: Seq<V>, b: Seq<V>, size: nat)
    requires
        size > 0,
        a.len() % size == 0,
    ensures
        batched(a + b, size) == batched(a, size) + batched(b, size),
    decreases a.len(),
{
    if a.len() == 0 {
        assert(a + b =~= b);
        assert(batched(a, size) + batched(b, size) =~= batched(b, size));
    } else {
        assert(a.len() >= size) by (nonlinear_arith)
            requires a.len() % size == 0, a.len() > 0, size > 0;
        let ab = a + b;
        if ab.len() <= size {
            assert(b.len() == 0);
            assert(ab =~= a);
            assert(batched(b, size) =~= Seq::<Seq<V>>::empty());
            assert(batched(a, size) + batched(b, size) =~= batched(a, size));
        } else {
            assert(ab.take(size as int) =~= a.take(size as int));
            assert(ab.skip(size as int) =~= a.skip(size as int) + b);
            let rest = a.skip(size as int);
            assert(rest.len() % size == 0) by (nonlinear_arith)
                requires rest.len() == a.len() - size, a.len() % size == 0, size > 0, a.len() >= size;
            lemma_batched_append(rest, b, size);
            if a.len() == size {
                assert(rest =~= Seq::<V>::empty());
                assert(a.take(size as int) =~= a);
                assert(batched(rest, size) =~= Seq::<Seq<V>>::empty());
                assert(batched(rest, size) + batched(b, size) =~= batched(b, size));
                assert(seq![a] + batched(b, size) =~= seq![a.take(size as int)] + (batched(rest, size) + batched(b, size)));
            } else {
                assert(seq![a.take(size as int)] + (batched(rest, size) + batched(b, size))
                    =~= (seq![a.take(size as int)] + batched(rest, size)) + batched(b, size));
            }
        }
    }
}

/// Of a sequence no longer than `size`, and not empty, there is one piece.
pub proof fn lemma_batched_single<V>(s: Seq<V>, size: nat)
    requires
        0 < s.len() <= size,
    ensures
        batched(s, size) == seq![s],
{
}


/// Streaming fan tessellator: points go in one at a time, and the
/// triangles they form collect in a bounded batch, each vertex paired with
/// the uniform color. When the batch is full the caller hands it to its
/// sink and calls `flush`; when the points end, it flushes what is pending.
pub struct FanTessellator<V, C> {
    color: C,
    capacity: usize,
    first: Option<V>,
    prev: Option<V>,
    vertices: Vec<V>,
    colors: Vec<C>,
    points: Ghost<Seq<V>>,
    emitted: Ghost<Seq<V>>,
}

impl<V: Copy, C: Copy> FanTessellator<V, C> {
    /// The color attached to every vertex.
    pub closed spec fn color(&self) -> C {
        self.color
    }

    /// Triangles that one batch holds.
    pub closed spec fn capacity(&self) -> nat {
        self.capacity as nat
    }

    /// Every point pushed so far, in order.
    pub closed spec fn points(&self) -> Seq<V> {
        self.points@
    }

    /// Vertices already handed out by earlier flushes, in order.
    pub closed spec fn emitted(&self) -> Seq<V> {
        self.emitted@
    }

    /// Vertices of the current batch.
    pub closed spec fn pending(&self) -> Seq<V> {
        self.vertices@
    }

    /// Colors of the current batch, one per vertex.
    pub closed spec fn pending_colors(&self) -> Seq<C> {
        self.colors@
    }

    pub closed spec fn wf(&self) -> bool {
        &&& self.capacity > 0
        &&& 3 * self.capacity <= usize::MAX
        &&& self.vertices@.len() == self.colors@.len()
        &&& self.vertices@.len() % 3 == 0
        &&& self.vertices@.len() <= 3 * self.capacity
        &&& forall|i: int| 0 <= i < self.colors@.len() ==> self.colors@[i] == self.color
        &&& self.emitted@ + self.vertices@ == fan_vertices(self.points@)
        &&& (self.points@.len() == 0 <==> self.first is None)
        &&& (self.points@.len() >= 1 ==> self.first == Some(self.points@[0]))
        &&& (self.points@.len() >= 2 ==> self.prev == Some(self.points@.last()))
        &&& (self.points@.len() < 2 ==> self.prev is None)
    }

    /// What has been handed out and what is pending make up the fan over
    /// the points so far, each pending vertex with the uniform color, and
    /// the pending batch holds whole triangles, at most `capacity`.
    pub open spec fn consistent(&self) -> bool {
        &&& self.emitted() + self.pending() == fan_vertices(self.points())
        &&& self.pending_colors().len() == self.pending().len()
        &&& self.pending().len() % 3 == 0
        &&& self.pending().len() <= 3 * self.capacity()
        &&& forall|i: int|
            0 <= i < self.pending_colors().len() ==> #[trigger] self.pending_colors()[i]
                == self.color()
    }

    /// Whether the current batch holds `capacity` triangles.
    pub open spec fn spec_is_full(&self) -> bool {
        self.pending().len() == 3 * self.capacity()
    }

    /// A tessellator with no points yet, whose batches hold up to
    /// `capacity` triangles.
    pub fn new(color: C, capacity: usize) -> (r: Self)
        requires
            0 < capacity <= usize::MAX / 3,
        ensures
            r.wf(),
            r.consistent(),
            r.color() == color,
            r.capacity() == capacity,
            r.points() == Seq::<V>::empty(),
            r.emitted() == Seq::<V>::empty(),
            r.pending() == Seq::<V>::empty(),
    {
        let r = FanTessellator {
            color,
            capacity,
            first: None,
            prev: None,
            vertices: Vec::with_capacity(3 * capacity),
            colors: Vec::with_capacity(3 * capacity),
            points: Ghost(Seq::empty()),
            emitted: Ghost(Seq::empty()),
        };
        assert(r.emitted@ + r.vertices@ =~= fan_vertices(r.points@));
        r
    }

    /// Whether the current batch is full and must be flushed before the
    /// next point.
    pub fn is_full(&self) -> (r: bool)
        requires
            self.wf(),
        ensures
            r == self.spec_is_full(),
    {
        self.vertices.len() == 3 * self.capacity
    }

    /// Whether the current batch holds any triangle.
    pub fn has_pending(&self) -> (r: bool)
        requires
            self.wf(),
        ensures
            r == (self.pending().len() > 0),
    {
        self.vertices.len() > 0
    }

    /// Vertices of the current batch.
    pub fn batch_vertices(&self) -> (r: &[V])
        requires
            self.wf(),
        ensures
            r@ == self.pending(),
    {
        self.vertices.as_slice()
    }

    /// Colors of the current batch, one per vertex.
    pub fn batch_colors(&self) -> (r: &[C])
        requires
            self.wf(),
        ensures
            r@ == self.pending_colors(),
            r@.len() == self.pending().len(),
            forall|i: int| 0 <= i < r@.len() ==> r@[i] == self.color(),
    {
        self.colors.as_slice()
    }

    /// Takes the next point. The first two points only open the fan; each
    /// later one adds the triangle (first, previous, this one). Returns
    /// whether the batch is now full.
    pub fn push(&mut self, p: V) -> (full: bool)
        requires
            old(self).wf(),
            !old(self).spec_is_full(),
        ensures
            final(self).wf(),
            final(self).consistent(),
            final(self).color() == old(self).color(),
            final(self).capacity() == old(self).capacity(),
            final(self).points() == old(self).points().push(p),
            final(self).emitted() == old(self).emitted(),
            full == final(self).spec_is_full(),
    {
        proof {
            lemma_fan_push(self.points@, p);
        }
        match self.first {
            None => {
                self.first = Some(p);
            },
            Some(f) => {
                match self.prev {
                    Some(g) => {
                        self.vertices.push(f);
                        self.vertices.push(g);
                        self.vertices.push(p);
                        self.colors.push(self.color);
                        self.colors.push(self.color);
                        self.colors.push(self.color);
                    },
                    None => {},
                }
                self.prev = Some(p);
            },
        }
        self.points = Ghost(self.points@.push(p));
        assert(self.emitted@ + self.vertices@ =~= fan_vertices(self.points@));
        self.vertices.len() == 3 * self.capacity
    }

    /// Marks the current batch as handed out and starts an empty one.
    pub fn flush(&mut self)
        requires
            old(self).wf(),
        ensures
            final(self).wf(),
            final(self).consistent(),
            final(self).color() == old(self).color(),
            final(self).capacity() == old(self).capacity(),
            final(self).points() == old(self).points(),
            final(self).emitted() == old(self).emitted() + old(self).pending(),
            final(self).pending() == Seq::<V>::empty(),
    {
        self.emitted = Ghost(self.emitted@ + self.vertices@);
        self.vertices.clear();
        self.colors.clear();
        assert(self.emitted@ + self.vertices@ =~= fan_vertices(self.points@));
    }
}


/// One batch handed to a sink: the vertices of whole triangles and one
/// color per vertex.
pub struct FanBatch<V, C> {
    pub vertices: Vec<V>,
    pub colors: Vec<C>,
}

impl<V, C> FanBatch<V, C> {
    /// The batch holds exactly the vertices `vs`, each with `color`.
    pub open spec fn holds(&self, vs: Seq<V>, color: C) -> bool {
        &&& self.vertices@ == vs
        &&& self.colors@.len() == vs.len()
        &&& forall|i: int| 0 <= i < self.colors@.len() ==> self.colors@[i] == color
    }
}

fn copy_slice<T: Copy>(s: &[T]) -> (r: Vec<T>)
    ensures
        r@ == s@,
{
    let mut r: Vec<T> = Vec::with_capacity(s.len());
    let mut i: usize = 0;
    while i < s.len()
        invariant
            i <= s@.len(),
            r@ == s@.take(i as int),
        decreases s@.len() - i,
    {
        r.push(s[i]);
        i += 1;
        assert(r@ =~= s@.take(i as int));
    }
    assert(s@.take(i as int) =~= s@);
    r
}

/// Tessellates `points` as a fan, each point mapped through `transform`
/// into device space, and returns the batches that a sink would receive,
/// in order, when each batch holds up to `capacity` triangles. The device
/// points `tp` are those that `transform` gave, one per point.
pub fn fan_batches<P: Copy, V: Copy, C: Copy, F: Fn(P) -> V>(
    points: &[P],
    transform: &F,
    color: C,
    capacity: usize,
) -> (r: Vec<FanBatch<V, C>>)
    requires
        0 < capacity <= usize::MAX / 3,
        forall|p: P| #[trigger] transform.requires((p,)),
    ensures
        exists|tp: Seq<V>|
            {
                &&& tp.len() == points@.len()
                &&& forall|j: int|
                    0 <= j < tp.len() ==> #[trigger] transform.ensures((points@[j],), tp[j])
                &&& r@.len() == batched(fan_vertices(tp), 3 * capacity as nat).len()
                &&& forall|k: int|
                    0 <= k < r@.len() ==> #[trigger] r@[k].holds(
                        batched(fan_vertices(tp), 3 * capacity as nat)[k],
                        color,
                    )
            },
{
    let ghost size: nat = 3 * capacity as nat;
    let mut t: FanTessellator<V, C> = FanTessellator::new(color, capacity);
    let mut out: Vec<FanBatch<V, C>> = Vec::new();
    let mut i: usize = 0;
    let ghost mut tp: Seq<V> = Seq::empty();
    while i < points.len()
        invariant
            size == 3 * capacity as nat,
            i <= points@.len(),
            forall|p: P| #[trigger] transform.requires((p,)),
            tp.len() == i,
            forall|j: int| 0 <= j < i ==> #[trigger] transform.ensures((points@[j],), tp[j]),
            t.wf(),
            t.color() == color,
            t.capacity() == capacity,
            t.points() == tp,
            !t.spec_is_full(),
            t.emitted().len() % size == 0,
            out@.len() == batched(t.emitted(), size).len(),
            forall|k: int|
                0 <= k < out@.len() ==> #[trigger] out@[k].holds(batched(t.emitted(), size)[k], color),
        decreases points@.len() - i,
    {
        let v = transform(points[i]);
        proof {
            tp = tp.push(v);
        }
        let full = t.push(v);
        if full {
            let b = FanBatch { vertices: copy_slice(t.batch_vertices()), colors: copy_slice(t.batch_colors()) };
            proof {
                lemma_batched_append(t.emitted(), t.pending(), size);
                lemma_batched_single(t.pending(), size);
                assert((t.emitted() + t.pending()).len() % size == 0) by (nonlinear_arith)
                    requires t.emitted().len() % size == 0, t.pending().len() == size, size > 0;
            }
            let ghost before = out@;
            out.push(b);
            t.flush();
            assert forall|k: int| 0 <= k < out@.len() implies #[trigger] out@[k].holds(
                batched(t.emitted(), size)[k],
                color,
            ) by {
                if k < before.len() {
                    assert(out@[k] == before[k]);
                }
            }
        }
        i += 1;
    }
    if t.has_pending() {
        let b = FanBatch { vertices: copy_slice(t.batch_vertices()), colors: copy_slice(t.batch_colors()) };
        proof {
            lemma_batched_append(t.emitted(), t.pending(), size);
            lemma_batched_single(t.pending(), size);
        }
        let ghost before = out@;
        out.push(b);
        assert forall|k: int| 0 <= k < out@.len() implies #[trigger] out@[k].holds(
            batched(fan_vertices(tp), size)[k],
            color,
        ) by {
            if k < before.len() {
                assert(out@[k] == before[k]);
            }
        }
    } else {
        assert(t.emitted() + t.pending() =~= t.emitted());
    }
    assert(tp.len() == points@.len());
    out
}


/// Joining the pieces gives back the whole sequence; every piece is
/// non-empty and holds at most `size` elements, and all but the last hold
/// exactly `size`.
pub proof fn lemma_batched_pieces<V>(s: Seq<V>, size: nat)
    requires
        size > 0,
    ensures
        batched(s, size).flatten() == s,
        forall|k: int|
            0 <= k < batched(s, size).len() ==> 0 < #[trigger] batched(s, size)[k].len() <= size,
        forall|k: int|
            0 <= k < batched(s, size).len() - 1 ==> #[trigger] batched(s, size)[k].len() == size,
    decreases s.len(),
{
    let b = batched(s, size);
    if s.len() == 0 {
    } else if s.len() <= size {
        assert(b.drop_first() =~= Seq::<Seq<V>>::empty());
        assert(b.drop_first().flatten() =~= Seq::<V>::empty());
        assert(b.first() + b.drop_first().flatten() =~= s);
    } else {
        let rest = s.skip(size as int);
        lemma_batched_pieces(rest, size);
        assert(b.drop_first() =~= batched(rest, size));
        assert(s.take(size as int) + rest =~= s);
        assert forall|k: int| 0 < k < b.len() implies b[k] == batched(rest, size)[k - 1] by {}
    }
}

/// Tessellating a polygon of `n >= 3` points yields `n - 2` triangles,
/// triangle `t` being the first point, point `t + 1` and point `t + 2`; the
/// batches joined give exactly these vertices, whatever their size.
pub proof fn law_fan_triangle_count<V>(pts: Seq<V>, size: nat)
    requires
        pts.len() >= 3,
        size > 0,
    ensures
        batched(fan_vertices(pts), size).flatten().len() == 3 * (pts.len() - 2),
        forall|t: int|
            0 <= t < pts.len() - 2 ==> {
                &&& #[trigger] batched(fan_vertices(pts), size).flatten()[3 * t] == pts[0]
                &&& batched(fan_vertices(pts), size).flatten()[3 * t + 1] == pts[t + 1]
                &&& batched(fan_vertices(pts), size).flatten()[3 * t + 2] == pts[t + 2]
            },
{
    lemma_batched_pieces(fan_vertices(pts), size);
    assert forall|t: int| 0 <= t < pts.len() - 2 implies {
        &&& #[trigger] fan_vertices(pts)[3 * t] == pts[0]
        &&& fan_vertices(pts)[3 * t + 1] == pts[t + 1]
        &&& fan_vertices(pts)[3 * t + 2] == pts[t + 2]
    } by {
        assert((3 * t + 1) / 3 == t && (3 * t + 1) % 3 == 1);
        assert((3 * t + 2) / 3 == t && (3 * t + 2) % 3 == 2);
        assert((3 * t) % 3 == 0);
    }
}

/// A polygon of fewer than two points gives no triangle and no batch.
pub proof fn law_fan_degenerate<V>(pts: Seq<V>, size: nat)
    requires
        pts.len() < 2,
    ensures
        fan_vertices(pts).len() == 0,
        batched(fan_vertices(pts), size).len() == 0,
{
}

/// The batches are contiguous and in order: joined, they are the vertex
/// list that one unbounded buffer would hold. None is empty.
pub proof fn law_batches_contiguous<V>(pts: Seq<V>, size: nat)
    requires
        size > 0,
    ensures
        batched(fan_vertices(pts), size).flatten() == fan_vertices(pts),
        forall|k: int|
            0 <= k < batched(fan_vertices(pts), size).len() ==> #[trigger] batched(
                fan_vertices(pts),
                size,
            )[k].len() > 0,
{
    lemma_batched_pieces(fan_vertices(pts), size);
}

/// Points for exactly one triangle more than a batch holds give two
/// batches: a full one, then one with a single triangle.
pub proof fn law_flush_boundary<V>(pts: Seq<V>, capacity: nat)
    requires
        capacity > 0,
        pts.len() == capacity + 3,
    ensures
        batched(fan_vertices(pts), 3 * capacity).len() == 2,
        batched(fan_vertices(pts), 3 * capacity)[0].len() == 3 * capacity,
        batched(fan_vertices(pts), 3 * capacity)[1].len() == 3,
{
    let s = fan_vertices(pts);
    let size = 3 * capacity;
    assert(s.len() == size + 3);
    let rest = s.skip(size as int);
    assert(rest.len() == 3);
    assert(batched(rest, size) == seq![rest]);
    assert(batched(s, size) == seq![s.take(size as int)] + seq![rest]);
}

} // verus!
