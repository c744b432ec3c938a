//! Axis-aligned boxes, the static obstacle set, and a kinematic body that
//! moves among the obstacles with an accept-or-reject policy.
//!
//! Coordinates are points of an integer lattice: the caller picks the scale
//! (for instance a thousandth of a world unit). On a lattice every comparison
//! and translation is exact, so boundary cases (boxes that only touch) behave
//! the same on every machine.
use vstd::prelude::*;

verus! {

/// True when the integer fits in an `i64`.
pub open spec fn in_i64(v: int) -> bool {
    i64::MIN <= v <= i64::MAX
}

/// An extent as a box uses it: negative extents count as zero.
pub open spec fn clamp_extent(e: int) -> int {
    if e > 0 {
        e
    } else {
        0
    }
}

/// An axis-aligned box given by its minimum and maximum corners.
#[derive(Clone, Copy, Debug, PartialEq, Eq, Structural)]
pub struct BoundingBox {
    pub min_x: i64,
    pub min_y: i64,
    pub min_z: i64,
    pub max_x: i64,
    pub max_y: i64,
    pub max_z: i64,
}

impl BoundingBox {
    /// The minimum corner lies on or below the maximum corner on every axis.
    pub open spec fn wf(self) -> bool {
        &&& self.min_x <= self.max_x
        &&& self.min_y <= self.max_y
        &&& self.min_z <= self.max_z
    }

    /// The box has strictly positive extent on all three axes.
    pub open spec fn has_volume(self) -> bool {
        &&& self.min_x < self.max_x
        &&& self.min_y < self.max_y
        &&& self.min_z < self.max_z
    }

    /// The open intervals of the two boxes overlap on every axis: boxes that
    /// only share a boundary do not intersect.
    pub open spec fn overlaps(self, other: BoundingBox) -> bool {
        &&& self.min_x < other.max_x
        &&& self.max_x > other.min_x
        &&& self.min_y < other.max_y
        &&& self.max_y > other.min_y
        &&& self.min_z < other.max_z
        &&& self.max_z > other.min_z
    }

    /// The two boxes meet in a boundary plane: on some axis the maximum of
    /// one equals the minimum of the other.
    pub open spec fn touches_along_plane(self, other: BoundingBox) -> bool {
        ||| self.max_x == other.min_x
        ||| other.max_x == self.min_x
        ||| self.max_y == other.min_y
        ||| other.max_y == self.min_y
        ||| self.max_z == other.min_z
        ||| other.max_z == self.min_z
    }

    /// The same box moved by `(dx, dy, dz)`; its size is kept.
    pub open spec fn shifted(self, dx: int, dy: int, dz: int) -> BoundingBox {
        BoundingBox {
            min_x: (self.min_x + dx) as i64,
            min_y: (self.min_y + dy) as i64,
            min_z: (self.min_z + dz) as i64,
            max_x: (self.max_x + dx) as i64,
            max_y: (self.max_y + dy) as i64,
            max_z: (self.max_z + dz) as i64,
        }
    }

    /// Every corner coordinate of the box moved by `(dx, dy, dz)` fits in an `i64`.
    pub open spec fn shift_fits(self, dx: int, dy: int, dz: int) -> bool {
        &&& in_i64(self.min_x + dx)
        &&& in_i64(self.min_y + dy)
        &&& in_i64(self.min_z + dz)
        &&& in_i64(self.max_x + dx)
        &&& in_i64(self.max_y + dy)
        &&& in_i64(self.max_z + dz)
    }

    /// The box with minimum corner `(x, y, z)` and the given extents, a
    /// negative extent taken as zero.
    pub open spec fn from_extents(x: int, y: int, z: int, width: int, height: int, depth: int) -> BoundingBox {
        BoundingBox {
            min_x: x as i64,
            min_y: y as i64,
            min_z: z as i64,
            max_x: (x + clamp_extent(width)) as i64,
            max_y: (y + clamp_extent(height)) as i64,
            max_z: (z + clamp_extent(depth)) as i64,
        }
    }

    /// A box with minimum corner `(x, y, z)` and the given extents. A negative
    /// extent is taken as zero, which gives a flat box on that axis.
    pub fn new(x: i64, y: i64, z: i64, width: i64, height: i64, depth: i64) -> (r: BoundingBox)
        requires
            in_i64(x + clamp_extent(width as int)),
            in_i64(y + clamp_extent(height as int)),
            in_i64(z + clamp_extent(depth as int)),
        ensures
            r.wf(),
            r == BoundingBox::from_extents(x as int, y as int, z as int, width as int, height as int, depth as int),
            r.max_x == x + clamp_extent(width as int),
            r.max_y == y + clamp_extent(height as int),
            r.max_z == z + clamp_extent(depth as int),
    {
        let w: i64 = if width > 0 { width } else { 0 };
        let h: i64 = if height > 0 { height } else { 0 };
        let d: i64 = if depth > 0 { depth } else { 0 };
        BoundingBox { min_x: x, min_y: y, min_z: z, max_x: x + w, max_y: y + h, max_z: z + d }
    }

    /// Whether the two boxes overlap with positive depth on all three axes.
    pub fn intersects(&self, other: &BoundingBox) -> (r: bool)
        ensures
            r == self.overlaps(*other),
    {
        self.min_x < other.max_x && self.max_x > other.min_x && self.min_y < other.max_y
            && self.max_y > other.min_y && self.min_z < other.max_z && self.max_z > other.min_z
    }
}

/// Intersection does not depend on the order of the two boxes.
pub proof fn lemma_intersects_symmetric(a: BoundingBox, b: BoundingBox)
    ensures
        a.overlaps(b) == b.overlaps(a),
{
}

/// A box intersects itself exactly when it has positive extent on all three axes.
pub proof fn lemma_self_intersection_iff_volume(a: BoundingBox)
    ensures
        a.overlaps(a) <==> a.has_volume(),
{
}

/// Boxes that meet in a boundary plane do not intersect: touching is not overlapping.
pub proof fn lemma_touching_boxes_do_not_intersect(a: BoundingBox, b: BoundingBox)
    requires
        a.touches_along_plane(b),
    ensures
        !a.overlaps(b),
        !b.overlaps(a),
{
}

/// Some box of `blocks` overlaps `candidate`.
pub open spec fn hits_any(candidate: BoundingBox, blocks: Seq<BoundingBox>) -> bool {
    exists|i: int| 0 <= i < blocks.len() && candidate.overlaps(#[trigger] blocks[i])
}

/// Scans `blocks` in order and stops at the first box that `candidate` intersects.
pub fn collides_with_any(candidate: &BoundingBox, blocks: &[BoundingBox]) -> (r: bool)
    ensures
        r == hits_any(*candidate, blocks@),
{
    let mut i: usize = 0;
    while i < blocks.len()
        invariant
            i <= blocks@.len(),
            forall|j: int| 0 <= j < i ==> !candidate.overlaps(#[trigger] blocks@[j]),
        decreases blocks@.len() - i,
    {
        if candidate.intersects(&blocks[i]) {
            return true;
        }
        i = i + 1;
    }
    false
}

/// Displacement `velocity * delta_time` along one axis.
fn axis_displacement(velocity: i64, delta_time: u32) -> (d: i128)
    ensures
        d == velocity * delta_time,
{
    proof {
        let v = velocity as int;
        let t = delta_time as int;
        assert(-0x8000_0000_0000_0000 * 0x1_0000_0000 <= v * t <= 0x8000_0000_0000_0000 * 0x1_0000_0000)
            by (nonlinear_arith)
            requires
                -0x8000_0000_0000_0000 <= v < 0x8000_0000_0000_0000,
                0 <= t < 0x1_0000_0000,
        ;
    }
    (velocity as i128) * (delta_time as i128)
}

/// A body that occupies a box and moves with a velocity given in lattice units
/// per unit of time.
#[derive(Clone, Copy, Debug)]
pub struct Player {
    pub bounding_box: BoundingBox,
    pub velocity: (i64, i64, i64),
}

impl Player {
    /// The box the body would occupy after moving for `delta_time`.
    pub open spec fn tentative_box(self, delta_time: int) -> BoundingBox {
        self.bounding_box.shifted(
            self.velocity.0 * delta_time,
            self.velocity.1 * delta_time,
            self.velocity.2 * delta_time,
        )
    }

    /// The tentative box for `delta_time` has all its coordinates in range.
    pub open spec fn step_fits(self, delta_time: int) -> bool {
        self.bounding_box.shift_fits(
            self.velocity.0 * delta_time,
            self.velocity.1 * delta_time,
            self.velocity.2 * delta_time,
        )
    }

    /// A body at rest whose box has minimum corner `(x, y, z)` and the given
    /// extents (negative extents count as zero).
    pub fn new(x: i64, y: i64, z: i64, width: i64, height: i64, depth: i64) -> (r: Player)
        requires
            in_i64(x + clamp_extent(width as int)),
            in_i64(y + clamp_extent(height as int)),
            in_i64(z + clamp_extent(depth as int)),
        ensures
            r.bounding_box == BoundingBox::from_extents(x as int, y as int, z as int, width as int, height as int, depth as int),
            r.bounding_box.wf(),
            r.velocity == (0i64, 0i64, 0i64),
    {
        Player { bounding_box: BoundingBox::new(x, y, z, width, height, depth), velocity: (0, 0, 0) }
    }

    /// Advances the body by `velocity * delta_time` unless the box it would
    /// then occupy intersects one of `blocks`. On a collision the box stays
    /// where it was and the velocity becomes zero; otherwise the move is
    /// committed and the velocity is kept.
    pub fn update(&mut self, blocks: &[BoundingBox], delta_time: u32)
        requires
            old(self).step_fits(delta_time as int),
        ensures
            hits_any(old(self).tentative_box(delta_time as int), blocks@) ==> {
                &&& final(self).bounding_box == old(self).bounding_box
                &&& final(self).velocity == (0i64, 0i64, 0i64)
            },
            !hits_any(old(self).tentative_box(delta_time as int), blocks@) ==> {
                &&& final(self).bounding_box == old(self).tentative_box(delta_time as int)
                &&& final(self).velocity == old(self).velocity
            },
            old(self).bounding_box.wf() ==> final(self).bounding_box.wf(),
    {
        let (vx, vy, vz) = self.velocity;
        let dx = axis_displacement(vx, delta_time);
        let dy = axis_displacement(vy, delta_time);
        let dz = axis_displacement(vz, delta_time);
        let b = self.bounding_box;
        let tentative = BoundingBox {
            min_x: (b.min_x as i128 + dx) as i64,
            min_y: (b.min_y as i128 + dy) as i64,
            min_z: (b.min_z as i128 + dz) as i64,
            max_x: (b.max_x as i128 + dx) as i64,
            max_y: (b.max_y as i128 + dy) as i64,
            max_z: (b.max_z as i128 + dz) as i64,
        };
        if collides_with_any(&tentative, blocks) {
            self.velocity = (0, 0, 0);
        } else {
            self.bounding_box = tentative;
        }
    }
}

/// A collection of static obstacle boxes in which each box occurs at most once.
pub struct ObstacleSet {
    boxes: Vec<BoundingBox>,
}

impl View for ObstacleSet {
    type V = Seq<BoundingBox>;

    closed spec fn view(&self) -> Seq<BoundingBox> {
        self.boxes@
    }
}

impl ObstacleSet {
    /// No box occurs twice.
    pub open spec fn wf(&self) -> bool {
        self@.no_duplicates()
    }

    /// The empty set.
    pub fn new() -> (r: ObstacleSet)
        ensures
            r.wf(),
            r@ == Seq::<BoundingBox>::empty(),
    {
        ObstacleSet { boxes: Vec::new() }
    }

    /// Number of boxes held.
    pub fn len(&self) -> (r: usize)
        ensures
            r == self@.len(),
    {
        self.boxes.len()
    }

    /// Whether `block` is held, by a linear scan.
    pub fn contains(&self, block: &BoundingBox) -> (r: bool)
        ensures
            r == self@.contains(*block),
    {
        let mut i: usize = 0;
        while i < self.boxes.len()
            invariant
                i <= self@.len(),
                self@ == self.boxes@,
                forall|j: int| 0 <= j < i ==> self@[j] != *block,
            decreases self@.len() - i,
        {
            if self.boxes[i] == *block {
                return true;
            }
            i = i + 1;
        }
        false
    }

    /// Adds `block` unless an equal box is already held; returns whether it was added.
    pub fn insert(&mut self, block: BoundingBox) -> (added: bool)
        requires
            old(self).wf(),
        ensures
            final(self).wf(),
            added == !old(self)@.contains(block),
            final(self)@ == if added { old(self)@.push(block) } else { old(self)@ },
    {
        if self.contains(&block) {
            false
        } else {
            self.boxes.push(block);
            true
        }
    }

    /// The boxes held, in the order they were added.
    pub fn as_slice(&self) -> (r: &[BoundingBox])
        ensures
            r@ == self@,
    {
        self.boxes.as_slice()
    }
}

} // verus!
