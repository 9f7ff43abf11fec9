//! Point producers for each shape kind. Each producer walks an index and
//! tells, for every point of the outline, where it lies: which coordinates
//! of a flat array, or which angle on which arc. The trigonometry is left to
//! the caller.
use vstd::prelude::*;

verus! {

/// The kind of outline a sampler walks, with its size.
#[derive(Clone, Copy, Debug, PartialEq, Eq, Structural)]
pub enum ShapeKind {
    /// A flat `x, y, x, y, ...` array of `len` numbers; an odd last
    /// number is dropped.
    Polygon { len: usize },
    /// An ellipse of `resolution` points.
    Ellipse { resolution: usize },
    /// A rectangle with four quarter-circle corners of `resolution`
    /// points each.
    RoundRectangle { resolution: usize },
    /// A line with a half-circle cap of `resolution` points at each end.
    RoundBorder { resolution: usize },
}

/// Where one point of an outline lies.
#[derive(Clone, Copy, Debug, PartialEq, Eq, Structural)]
pub enum Sample {
    /// The point whose coordinates stand at `index` and `index + 1` of a
    /// flat array.
    Vertex { index: usize },
    /// The point at `step / steps` of a full turn around the ellipse's
    /// center, starting from the positive x axis.
    Turn { step: usize, steps: usize },
    /// The point at `corner + step / steps` quarter turns on the circle
    /// around inset corner `corner`: 0 is (right, bottom), 1 (left,
    /// bottom), 2 (left, top), 3 (right, top), in axes where y grows.
    Corner { corner: usize, step: usize, steps: usize },
    /// The point at `step / steps` half turns plus a quarter turn on the
    /// cap at the start of the line, or, where `end` holds, at one half turn
    /// more on the cap at its end.
    Cap { end: bool, step: usize, steps: usize },
}

/// Number of points of an outline.
pub open spec fn sample_count(kind: ShapeKind) -> nat {
    match kind {
        ShapeKind::Polygon { len } => (len / 2) as nat,
        ShapeKind::Ellipse { resolution } => resolution as nat,
        ShapeKind::RoundRectangle { resolution } => 4 * resolution as nat,
        ShapeKind::RoundBorder { resolution } => 2 * resolution as nat,
    }
}

/// Point `j` of an outline.
pub open spec fn sample_at(kind: ShapeKind, j: nat) -> Sample {
    match kind {
        ShapeKind::Polygon { .. } => Sample::Vertex { index: (2 * j) as usize },
        ShapeKind::Ellipse { resolution } => Sample::Turn { step: j as usize, steps: resolution },
        ShapeKind::RoundRectangle { resolution } => Sample::Corner {
            corner: (j / resolution as nat) as usize,
            step: (j % resolution as nat) as usize,
            steps: (resolution - 1) as usize,
        },
        ShapeKind::RoundBorder { resolution } => Sample::Cap {
            end: j >= resolution,
            step: (if j >= resolution { j - resolution } else { j as int }) as usize,
            steps: (resolution - 1) as usize,
        },
    }
}

/// A point lies where its outline has room: a vertex's two coordinates
/// inside the array, a corner among the four, a step within its arc.
pub open spec fn sample_within(kind: ShapeKind, s: Sample) -> bool {
    match s {
        Sample::Vertex { index } => match kind {
            ShapeKind::Polygon { len } => index + 1 < len,
            _ => false,
        },
        Sample::Turn { step, steps } => step < steps,
        Sample::Corner { corner, step, steps } => corner < 4 && step <= steps,
        Sample::Cap { step, steps, .. } => step <= steps,
    }
}

/// Sizes that describe an outline this library can walk: curved corners
/// and caps need at least two points each, and the count must fit.
pub open spec fn valid_kind(kind: ShapeKind) -> bool {
    match kind {
        ShapeKind::Polygon { .. } => true,
        ShapeKind::Ellipse { .. } => true,
        ShapeKind::RoundRectangle { resolution } => 2 <= resolution <= usize::MAX / 4,
        ShapeKind::RoundBorder { resolution } => 2 <= resolution <= usize::MAX / 2,
    }
}

/// Forward-only producer of the points of one outline.
pub struct ShapeSampler {
    kind: ShapeKind,
    next: usize,
    count: usize,
}

impl ShapeSampler {
    /// The outline walked.
    pub closed spec fn kind(&self) -> ShapeKind {
        self.kind
    }

    /// Index of the next point to be produced.
    pub closed spec fn position(&self) -> nat {
        self.next as nat
    }

    pub closed spec fn wf(&self) -> bool {
        &&& valid_kind(self.kind)
        &&& self.count as nat == sample_count(self.kind)
        &&& self.next <= self.count
    }

    /// A sampler at the first point of `kind`.
    pub fn new(kind: ShapeKind) -> (r: Self)
        requires
            valid_kind(kind),
        ensures
            r.wf(),
            r.kind() == kind,
            r.position() == 0,
    {
        let count = match kind {
            ShapeKind::Polygon { len } => len / 2,
            ShapeKind::Ellipse { resolution } => resolution,
            ShapeKind::RoundRectangle { resolution } => 4 * resolution,
            ShapeKind::RoundBorder { resolution } => 2 * resolution,
        };
        ShapeSampler { kind, next: 0, count }
    }

    /// Number of points that the outline has.
    pub fn count(&self) -> (r: usize)
        requires
            self.wf(),
        ensures
            r == sample_count(self.kind()),
    {
        self.count
    }

    /// The next point of the outline, or `None` once all were produced.
    pub fn next_sample(&mut self) -> (r: Option<Sample>)
        requires
            old(self).wf(),
        ensures
            final(self).wf(),
            final(self).kind() == old(self).kind(),
            old(self).position() < sample_count(old(self).kind()) ==> {
                &&& r == Some(sample_at(old(self).kind(), old(self).position()))
                &&& sample_within(old(self).kind(), sample_at(old(self).kind(), old(self).position()))
                &&& final(self).position() == old(self).position() + 1
            },
            old(self).position() >= sample_count(old(self).kind()) ==> {
                &&& r is None
                &&& final(self).position() == old(self).position()
            },
    {
        if self.next >= self.count {
            return None;
        }
        let j = self.next;
        self.next = j + 1;
        proof {
            match self.kind {
                ShapeKind::Polygon { len } => {
                    assert(2 * j + 1 < len) by (nonlinear_arith)
                        requires j < len / 2;
                },
                ShapeKind::RoundRectangle { resolution } => {
                    assert(j / resolution < 4) by (nonlinear_arith)
                        requires j < 4 * resolution, resolution >= 2;
                    assert(j % resolution <= resolution - 1) by (nonlinear_arith)
                        requires resolution >= 2;
                },
                _ => {},
            }
        }
        let s = match self.kind {
            ShapeKind::Polygon { .. } => Sample::Vertex { index: 2 * j },
            ShapeKind::Ellipse { resolution } => Sample::Turn { step: j, steps: resolution },
            ShapeKind::RoundRectangle { resolution } => Sample::Corner {
                corner: j / resolution,
                step: j % resolution,
                steps: resolution - 1,
            },
            ShapeKind::RoundBorder { resolution } => {
                if j >= resolution {
                    Sample::Cap { end: true, step: j - resolution, steps: resolution - 1 }
                } else {
                    Sample::Cap { end: false, step: j, steps: resolution - 1 }
                }
            },
        };
        Some(s)
    }
}

/// The pair of frames to blend for a tween: the frame `frame` and the one
/// after it, wrapping to the first after the last.
pub fn tween_frames(frame: usize, frame_count: usize) -> (r: (usize, usize))
    requires
        frame < frame_count,
    ensures
        r.0 == frame,
        r.1 == (frame + 1) % (frame_count as int),
{
    (frame, (frame + 1) % frame_count)
}

} // verus!
