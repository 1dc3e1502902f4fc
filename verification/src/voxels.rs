//! The voxel octree that the renderer traces.

use crate::octant::at_least;
use crate::octant::bitmask;
use crate::octant::spec_at_least;
use crate::octant::spec_bitmask;
use crate::octant::Point;
use crate::buffer::BufferBuild;
use crate::buffer::BufferBuilder;
use crate::buffer::GpuBuffer;
use crate::consts::BUFFER_USAGE_STORAGE_BUFFER;
use crate::consts::BUFFER_USAGE_TRANSFER_DST;
use crate::consts::BUFFER_USAGE_TRANSFER_SRC;
use crate::delete_queue::DeleteQueue;
use crate::delete_queue::DeletionEntry;
use crate::device::agrees;
use crate::device::refusal;
use crate::device::spec_refusal;
use crate::device::BufferCreateInfo;
use crate::device::Command;
use crate::device::Error;
use crate::device::MemoryLocation;
use crate::device::Reply;
use crate::device::Request;
use crate::device::RequestView;
use crate::device::Stated;
use crate::device::Step;
use crate::immediate::Immediate;
use crate::immediate::ImmediateStage;
use crate::immediate::ImmediateSubmit;
use vstd::prelude::*;

verus! {

/// One node of the octree.
#[derive(Clone, Copy, Debug, PartialEq, Eq, Structural)]
pub struct Voxel {
    /// The colour of a leaf.
    pub col: u32,
    /// Where the node's eight children start, counted in nodes.
    pub child_pointer: u16,
    /// Which of the children exist, one bit each.
    pub valid_mask: u8,
    /// Which of the children are leaves, one bit each.
    pub leaf_mask: u8,
}

/// The side of the world, in voxels.
pub const WORLD_SIDE: usize = 32;

/// The number of levels below the root.
pub const LEVELS: usize = 5;

/// The last place at which the children of a node can start: a child
/// pointer has 16 bits.
pub const LAST_POINTER: usize = 65535;

/// A node without colour and without children.
pub open spec fn spec_blank() -> Voxel {
    Voxel { col: 0, child_pointer: 0, valid_mask: 0, leaf_mask: 0 }
}

/// Whether the nodes form an octree that can be walked: there is a root,
/// and the eight children of every node that has any lie within the nodes.
pub open spec fn spec_walkable(octree: Seq<Voxel>) -> bool {
    &&& octree.len() >= 1
    &&& forall|i: int|
        0 <= i < octree.len() && (#[trigger] octree[i]).valid_mask != 0 ==> octree[i].child_pointer
            + 8 <= octree.len()
}

/// The centre of the octant of `at` one level down: half the span away from
/// `center`, towards `at` in each coordinate.
pub open spec fn spec_step(center: Point, half: u64, at: Point) -> Point {
    (
        (center.0 - half + (if at.0 >= center.0 {
            2 * half
        } else {
            0
        })) as u64,
        (center.1 - half + (if at.1 >= center.1 {
            2 * half
        } else {
            0
        })) as u64,
        (center.2 - half + (if at.2 >= center.2 {
            2 * half
        } else {
            0
        })) as u64,
    )
}

/// The span of a node `level` levels below the root: half the length of
/// its side.
pub open spec fn spec_span(level: usize) -> u64 {
    if level == 0 {
        16
    } else if level == 1 {
        8
    } else if level == 2 {
        4
    } else if level == 3 {
        2
    } else if level == 4 {
        1
    } else {
        0
    }
}

/// The octree with the children of node `current` made, where it has none:
/// eight blank nodes are added at the end and the node points to them.
pub open spec fn spec_with_children(octree: Seq<Voxel>, current: int) -> Seq<Voxel> {
    if octree[current].valid_mask == 0 {
        octree.update(
            current,
            Voxel { child_pointer: octree.len() as u16, ..octree[current] },
        ) + Seq::new(8, |i: int| spec_blank())
    } else {
        octree
    }
}

/// The octree after the walk from node `current`, `levels` levels above
/// the leaves, to the leaf at `at`, which gets the colour `col`. On the
/// way every node is given its children where it has none, and the child
/// that the walk goes through is marked as existing.
pub open spec fn spec_insert_from(
    octree: Seq<Voxel>,
    current: int,
    center: Point,
    span: u64,
    levels: nat,
    at: Point,
    col: u32,
) -> Seq<Voxel>
    decreases levels,
{
    if levels == 0 {
        octree.update(current, Voxel { col, ..octree[current] })
    } else {
        let grown = spec_with_children(octree, current);
        let child = spec_bitmask(spec_at_least(at, center)) as u32;
        let marked = grown.update(
            current,
            Voxel { valid_mask: grown[current].valid_mask | (1u8 << child), ..grown[current] },
        );
        spec_insert_from(
            marked,
            marked[current].child_pointer + child,
            spec_step(center, span / 2, at),
            span / 2,
            (levels - 1) as nat,
            at,
            col,
        )
    }
}

/// How many levels of nodes are missing on the walk from node `current`,
/// `levels` levels above the leaves, to the leaf at `at`: none where every
/// node on the way has its children, else all the levels from the first
/// node that has none.
pub open spec fn spec_missing_from(
    octree: Seq<Voxel>,
    current: int,
    center: Point,
    span: u64,
    levels: nat,
    at: Point,
) -> nat
    decreases levels,
{
    if levels == 0 {
        0
    } else if octree[current].valid_mask == 0 {
        levels
    } else {
        spec_missing_from(
            octree,
            octree[current].child_pointer + (spec_bitmask(spec_at_least(at, center)) as u32),
            spec_step(center, span / 2, at),
            span / 2,
            (levels - 1) as nat,
            at,
        )
    }
}

/// Whether the walk from node `current` to the leaf at `at` has room for
/// the nodes that it adds: each of the missing levels adds eight nodes at
/// the end, and the place at which they start must fit a child pointer.
pub open spec fn spec_room_from(
    octree: Seq<Voxel>,
    current: int,
    center: Point,
    span: u64,
    levels: nat,
    at: Point,
) -> bool {
    let missing = spec_missing_from(octree, current, center, span, levels, at);
    missing == 0 || octree.len() + 8 * (missing - 1) <= LAST_POINTER
}

/// Whether the octree has room for the nodes that putting in the voxel at
/// `at` adds.
pub open spec fn spec_room(octree: Seq<Voxel>, at: Point) -> bool {
    spec_room_from(octree, 0, (16, 16, 16), 16, LEVELS as nat, at)
}

/// Whether two octrees have the same shape: as many nodes, and node by node
/// the same children or none.
pub open spec fn spec_same_shape(a: Seq<Voxel>, b: Seq<Voxel>) -> bool {
    &&& a.len() == b.len()
    &&& forall|i: int|
        0 <= i < a.len() ==> (#[trigger] a[i]).child_pointer == b[i].child_pointer && (
        a[i].valid_mask == 0) == (b[i].valid_mask == 0)
}

/// What is missing on a walk depends on the shape of the octree alone.
pub proof fn lemma_missing_by_shape(
    a: Seq<Voxel>,
    b: Seq<Voxel>,
    current: int,
    center: Point,
    span: u64,
    levels: nat,
    at: Point,
)
    requires
        spec_same_shape(a, b),
        spec_walkable(a),
        0 <= current < a.len(),
    ensures
        spec_missing_from(a, current, center, span, levels, at) == spec_missing_from(
            b,
            current,
            center,
            span,
            levels,
            at,
        ),
    decreases levels,
{
    if levels > 0 && a[current].valid_mask != 0 {
        lemma_missing_by_shape(
            a,
            b,
            a[current].child_pointer + (spec_bitmask(spec_at_least(at, center)) as u32),
            spec_step(center, span / 2, at),
            span / 2,
            (levels - 1) as nat,
            at,
        );
    }
}

/// One step of a walk that has room: the node it stands on gets its
/// children at a place that fits a child pointer, the octree can still be
/// walked, the step leads to a node of the octree, and the rest of the
/// walk has room.
pub proof fn lemma_room_carries(
    octree: Seq<Voxel>,
    current: int,
    center: Point,
    span: u64,
    levels: nat,
    at: Point,
)
    requires
        spec_walkable(octree),
        0 <= current < octree.len(),
        levels > 0,
        spec_room_from(octree, current, center, span, levels, at),
    ensures
        octree[current].valid_mask == 0 ==> octree.len() <= LAST_POINTER,
        spec_walkable(spec_marked(octree, current, center, at)),
        octree.len() <= spec_marked(octree, current, center, at).len() <= octree.len() + 8,
        0 <= spec_marked(octree, current, center, at)[current].child_pointer + (spec_bitmask(
            spec_at_least(at, center),
        ) as u32) < spec_marked(octree, current, center, at).len(),
        spec_room_from(
            spec_marked(octree, current, center, at),
            spec_marked(octree, current, center, at)[current].child_pointer + (spec_bitmask(
                spec_at_least(at, center),
            ) as u32),
            spec_step(center, span / 2, at),
            span / 2,
            (levels - 1) as nat,
            at,
        ),
{
    let marked = spec_marked(octree, current, center, at);
    let child = spec_bitmask(spec_at_least(at, center)) as u32;
    let next = marked[current].child_pointer + child;
    lemma_marked_is_walkable(octree, current, center, at);
    if octree[current].valid_mask == 0 {
        assert(marked[next].valid_mask == 0);
    } else {
        assert(spec_same_shape(octree, marked));
        lemma_missing_by_shape(
            octree,
            marked,
            next,
            spec_step(center, span / 2, at),
            span / 2,
            (levels - 1) as nat,
            at,
        );
    }
}

/// Whether the octree has room for the nodes that putting in the voxel at
/// `at` adds. The octree must be walkable.
pub fn has_room(octree: &Vec<Voxel>, at: Point) -> (r: bool)
    requires
        spec_walkable(octree@),
    ensures
        r == spec_room(octree@, at),
{
    let mut current: usize = 0;
    let mut center: Point = (16, 16, 16);
    let mut span: u64 = 16;
    let mut level: usize = 0;
    while level < LEVELS && octree[current].valid_mask != 0
        invariant
            level <= LEVELS,
            spec_walkable(octree@),
            current < octree@.len(),
            span == spec_span(level),
            center.0 >= span && center.0 + span <= 32,
            center.1 >= span && center.1 + span <= 32,
            center.2 >= span && center.2 + span <= 32,
            spec_missing_from(octree@, 0, (16, 16, 16), 16, LEVELS as nat, at)
                == spec_missing_from(
                octree@,
                current as int,
                center,
                span,
                (LEVELS - level) as nat,
                at,
            ),
        decreases LEVELS - level,
    {
        let flags = at_least(at, center);
        let child = bitmask(flags);
        let half = span / 2;
        center = (
            center.0 - half + (if flags.0 {
                2 * half
            } else {
                0
            }),
            center.1 - half + (if flags.1 {
                2 * half
            } else {
                0
            }),
            center.2 - half + (if flags.2 {
                2 * half
            } else {
                0
            }),
        );
        span = half;
        current = octree[current].child_pointer as usize + child as usize;
        level += 1;
    }
    if level == LEVELS {
        true
    } else {
        let missing = LEVELS - level;
        octree.len() <= LAST_POINTER - 8 * (missing - 1)
    }
}

/// The octree after the voxel at `at` has got the colour `col`.
pub open spec fn spec_insert(octree: Seq<Voxel>, at: Point, col: u32) -> Seq<Voxel> {
    spec_insert_from(octree, 0, (16, 16, 16), 16, LEVELS as nat, at, col)
}

/// Gives the voxel at `at` the colour `col`, making the nodes on the way to
/// it where they are missing. The octree must be walkable and have room
/// for the nodes that this walk adds.
pub fn insert_voxel(octree: &mut Vec<Voxel>, at: Point, col: u32)
    requires
        spec_walkable(old(octree)@),
        spec_room(old(octree)@, at),
    ensures
        final(octree)@ == spec_insert(old(octree)@, at, col),
        spec_walkable(final(octree)@),
        old(octree)@.len() <= final(octree)@.len() <= old(octree)@.len() + 8 * LEVELS,
        spec_tree(old(octree)@) ==> spec_tree(final(octree)@) && spec_find(final(octree)@, at)
            == Some(col),
{
    proof {
        if spec_tree(old(octree)@) {
            lemma_insert_then_find(old(octree)@, at, col);
        }
    }
    let mut current: usize = 0;
    let mut center: Point = (16, 16, 16);
    let mut span: u64 = 16;
    let mut level: usize = 0;
    while level < LEVELS
        invariant
            level <= LEVELS,
            spec_walkable(octree@),
            current < octree@.len(),
            old(octree)@.len() <= octree@.len() <= old(octree)@.len() + 8 * level,
            spec_room_from(octree@, current as int, center, span, (LEVELS - level) as nat, at),
            span == spec_span(level),
            center.0 >= span && center.0 + span <= 32,
            center.1 >= span && center.1 + span <= 32,
            center.2 >= span && center.2 + span <= 32,
            spec_insert(old(octree)@, at, col) == spec_insert_from(
                octree@,
                current as int,
                center,
                span,
                (LEVELS - level) as nat,
                at,
                col,
            ),
        decreases LEVELS - level,
    {
        let ghost before = octree@;
        let ghost stood = current as int;
        let ghost around = center;
        proof {
            lemma_room_carries(before, stood, around, span, (LEVELS - level) as nat, at);
        }
        if octree[current].valid_mask == 0 {
            let first = octree.len() as u16;
            let node = octree[current];
            octree.set(current, Voxel { child_pointer: first, ..node });
            let mut made: usize = 0;
            let ghost pointed = octree@;
            while made < 8
                invariant
                    made <= 8,
                    octree@ == pointed + Seq::new(made as nat, |i: int| spec_blank()),
                decreases 8 - made,
            {
                octree.push(Voxel { col: 0, child_pointer: 0, valid_mask: 0, leaf_mask: 0 });
                assert(octree@ =~= pointed + Seq::new((made + 1) as nat, |i: int| spec_blank()));
                made += 1;
            }
        }
        assert(octree@ == spec_with_children(before, current as int));
        let flags = at_least(at, center);
        let child = bitmask(flags);
        let half = span / 2;
        center = (
            center.0 - half + (if flags.0 {
                2 * half
            } else {
                0
            }),
            center.1 - half + (if flags.1 {
                2 * half
            } else {
                0
            }),
            center.2 - half + (if flags.2 {
                2 * half
            } else {
                0
            }),
        );
        span = half;
        let node = octree[current];
        let bit: u8 = 1u8 << (child as u8);
        let mask: u8 = node.valid_mask;
        assert(mask | bit != 0) by (bit_vector)
            requires
                bit == 1u8 << (child as u8),
                child < 8,
        ;
        octree.set(current, Voxel { valid_mask: mask | bit, ..node });
        assert(1u8 << (child as u8) == 1u8 << child) by (bit_vector)
            requires
                child < 8,
        ;
        assert(octree@ == spec_marked(before, stood, around, at));
        current = node.child_pointer as usize + child as usize;
        level += 1;
    }
    let node = octree[current];
    octree.set(current, Voxel { col, ..node });
}


/// Whether the nodes form a tree: they can be walked, and the children of
/// every node lie behind it.
pub open spec fn spec_tree(octree: Seq<Voxel>) -> bool {
    &&& spec_walkable(octree)
    &&& forall|i: int|
        0 <= i < octree.len() && (#[trigger] octree[i]).valid_mask != 0 ==> octree[i].child_pointer
            > i
}

/// The colour that the walk from node `current`, `levels` levels above the
/// leaves, finds at `at`, or `None` where the walk comes to a child that
/// does not exist.
pub open spec fn spec_find_from(
    octree: Seq<Voxel>,
    current: int,
    center: Point,
    span: u64,
    levels: nat,
    at: Point,
) -> Option<u32>
    decreases levels,
{
    if levels == 0 {
        Some(octree[current].col)
    } else {
        let child = spec_bitmask(spec_at_least(at, center)) as u32;
        if octree[current].valid_mask & (1u8 << child) == 0 {
            None
        } else {
            spec_find_from(
                octree,
                octree[current].child_pointer + child,
                spec_step(center, span / 2, at),
                span / 2,
                (levels - 1) as nat,
                at,
            )
        }
    }
}

/// The colour of the voxel at `at`, or `None` where the octree has no such
/// voxel.
pub open spec fn spec_find(octree: Seq<Voxel>, at: Point) -> Option<u32> {
    spec_find_from(octree, 0, (16, 16, 16), 16, LEVELS as nat, at)
}

/// A walk that puts a voxel in changes no node before the one it starts
/// from, takes no node away, and leaves a tree a tree.
pub proof fn lemma_insert_keeps_the_tree(
    octree: Seq<Voxel>,
    current: int,
    center: Point,
    span: u64,
    levels: nat,
    at: Point,
    col: u32,
)
    requires
        spec_tree(octree),
        0 <= current < octree.len(),
        spec_room_from(octree, current, center, span, levels, at),
    ensures
        spec_tree(spec_insert_from(octree, current, center, span, levels, at, col)),
        spec_insert_from(octree, current, center, span, levels, at, col).len() >= octree.len(),
        forall|j: int|
            0 <= j < current ==> spec_insert_from(octree, current, center, span, levels, at, col)[j]
                == octree[j],
        levels > 0 ==> spec_insert_from(octree, current, center, span, levels, at, col)[current]
            == spec_marked(octree, current, center, at)[current],
    decreases levels,
{
    if levels > 0 {
        let marked = spec_marked(octree, current, center, at);
        let child = spec_bitmask(spec_at_least(at, center)) as u32;
        lemma_room_carries(octree, current, center, span, levels, at);
        lemma_marked_is_a_tree(octree, current, center, at);
        let next = marked[current].child_pointer + child;
        lemma_insert_keeps_the_tree(
            marked,
            next,
            spec_step(center, span / 2, at),
            span / 2,
            (levels - 1) as nat,
            at,
            col,
        );
    }
}

/// The octree after one step of a walk: node `current` has its children,
/// and the child towards `at` is marked as existing.
pub open spec fn spec_marked(octree: Seq<Voxel>, current: int, center: Point, at: Point) -> Seq<
    Voxel,
> {
    let grown = spec_with_children(octree, current);
    let child = spec_bitmask(spec_at_least(at, center)) as u32;
    grown.update(
        current,
        Voxel { valid_mask: grown[current].valid_mask | (1u8 << child), ..grown[current] },
    )
}

/// One step of a walk leaves an octree walkable, changes no node before the
/// one it stands on, and leads to a child that exists.
pub proof fn lemma_marked_is_walkable(octree: Seq<Voxel>, current: int, center: Point, at: Point)
    requires
        spec_walkable(octree),
        0 <= current < octree.len(),
        octree[current].valid_mask == 0 ==> octree.len() <= LAST_POINTER,
    ensures
        spec_walkable(spec_marked(octree, current, center, at)),
        octree.len() <= spec_marked(octree, current, center, at).len() <= octree.len() + 8,
        forall|j: int| 0 <= j < current ==> spec_marked(octree, current, center, at)[j] == octree[j],
        0 <= spec_marked(octree, current, center, at)[current].child_pointer + spec_bitmask(
            spec_at_least(at, center),
        ) < spec_marked(octree, current, center, at).len(),
        spec_marked(octree, current, center, at)[current].valid_mask & (1u8 << (spec_bitmask(
            spec_at_least(at, center),
        ) as u32)) != 0,
        spec_marked(octree, current, center, at)[current].valid_mask != 0,
        octree[current].valid_mask == 0 ==> spec_marked(octree, current, center, at)[current].child_pointer
            == octree.len() && spec_marked(octree, current, center, at).len() == octree.len() + 8
            && forall|j: int|
            octree.len() <= j < octree.len() + 8 ==> spec_marked(octree, current, center, at)[j]
                == spec_blank(),
        octree[current].valid_mask != 0 ==> spec_marked(octree, current, center, at).len()
            == octree.len() && spec_marked(octree, current, center, at)[current].child_pointer
            == octree[current].child_pointer,
        forall|j: int|
            0 <= j < octree.len() && j != current ==> spec_marked(octree, current, center, at)[j]
                == octree[j],
{
    let grown = spec_with_children(octree, current);
    let child = spec_bitmask(spec_at_least(at, center)) as u32;
    let mask = grown[current].valid_mask;
    assert(mask | (1u8 << child) != 0 && (mask | (1u8 << child)) & (1u8 << child) != 0)
        by (bit_vector)
        requires
            child < 8,
    ;
    let marked = spec_marked(octree, current, center, at);
    assert forall|i: int| 0 <= i < marked.len() && (#[trigger] marked[i]).valid_mask != 0 implies
        marked[i].child_pointer + 8 <= marked.len() by {
        if i != current && i < octree.len() {
            assert(marked[i] == octree[i]);
        }
    }
}

/// One step of a walk leaves a tree a tree, and leads to a child that lies
/// behind the node it stands on.
pub proof fn lemma_marked_is_a_tree(octree: Seq<Voxel>, current: int, center: Point, at: Point)
    requires
        spec_tree(octree),
        0 <= current < octree.len(),
        octree[current].valid_mask == 0 ==> octree.len() <= LAST_POINTER,
    ensures
        spec_tree(spec_marked(octree, current, center, at)),
        octree.len() <= spec_marked(octree, current, center, at).len() <= octree.len() + 8,
        forall|j: int| 0 <= j < current ==> spec_marked(octree, current, center, at)[j] == octree[j],
        current < spec_marked(octree, current, center, at)[current].child_pointer
            + spec_bitmask(spec_at_least(at, center)) < spec_marked(
            octree,
            current,
            center,
            at,
        ).len(),
        spec_marked(octree, current, center, at)[current].valid_mask & (1u8 << (spec_bitmask(
            spec_at_least(at, center),
        ) as u32)) != 0,
{
    lemma_marked_is_walkable(octree, current, center, at);
    let marked = spec_marked(octree, current, center, at);
    assert forall|i: int| 0 <= i < marked.len() && (#[trigger] marked[i]).valid_mask != 0 implies
        marked[i].child_pointer > i by {
        if i != current && i < octree.len() {
            assert(marked[i] == octree[i]);
        }
    }
}

/// A voxel that has been put in is found again, with its colour.
pub proof fn lemma_inserted_is_found(
    octree: Seq<Voxel>,
    current: int,
    center: Point,
    span: u64,
    levels: nat,
    at: Point,
    col: u32,
)
    requires
        spec_tree(octree),
        0 <= current < octree.len(),
        spec_room_from(octree, current, center, span, levels, at),
    ensures
        spec_find_from(
            spec_insert_from(octree, current, center, span, levels, at, col),
            current,
            center,
            span,
            levels,
            at,
        ) == Some(col),
    decreases levels,
{
    if levels > 0 {
        let marked = spec_marked(octree, current, center, at);
        let child = spec_bitmask(spec_at_least(at, center)) as u32;
        lemma_room_carries(octree, current, center, span, levels, at);
        lemma_marked_is_a_tree(octree, current, center, at);
        let next = marked[current].child_pointer + child;
        lemma_insert_keeps_the_tree(
            marked,
            next,
            spec_step(center, span / 2, at),
            span / 2,
            (levels - 1) as nat,
            at,
            col,
        );
        lemma_inserted_is_found(
            marked,
            next,
            spec_step(center, span / 2, at),
            span / 2,
            (levels - 1) as nat,
            at,
            col,
        );
    }
}

/// Of an octree that is a tree and has room: after `insert_voxel` it is
/// still a tree, and the voxel is found at its place with its colour.
pub proof fn lemma_insert_then_find(octree: Seq<Voxel>, at: Point, col: u32)
    requires
        spec_tree(octree),
        spec_room(octree, at),
    ensures
        spec_tree(spec_insert(octree, at, col)),
        spec_find(spec_insert(octree, at, col), at) == Some(col),
{
    lemma_insert_keeps_the_tree(octree, 0, (16, 16, 16), 16, LEVELS as nat, at, col);
    lemma_inserted_is_found(octree, 0, (16, 16, 16), 16, LEVELS as nat, at, col);
}

/// How far the coordinate `v` is from the middle of the world.
pub open spec fn spec_off_middle(v: usize) -> int {
    if v >= 16 {
        v - 16
    } else {
        16 - v
    }
}

/// Whether the world is solid at the voxel with the coordinates given: in
/// its eight corners and in a ball around its middle, but not along the
/// three axes through the middle.
pub open spec fn spec_is_solid(x: usize, y: usize, z: usize) -> bool {
    let corner = (x == 0 || x == 31) && (y == 0 || y == 31) && (z == 0 || z == 31);
    let ball = spec_off_middle(x) * spec_off_middle(x) + spec_off_middle(y) * spec_off_middle(y)
        + spec_off_middle(z) * spec_off_middle(z) <= 120;
    let cross = (spec_off_middle(x) <= 1 && spec_off_middle(y) <= 1) || (spec_off_middle(x) <= 1
        && spec_off_middle(z) <= 1) || (spec_off_middle(y) <= 1 && spec_off_middle(z) <= 1);
    (corner || ball) && !cross
}

/// How far the coordinate `v` is from the middle of the world.
fn off_middle(v: usize) -> (r: usize)
    requires
        v < WORLD_SIDE,
    ensures
        r == spec_off_middle(v),
        r <= 16,
{
    if v >= 16 {
        v - 16
    } else {
        16 - v
    }
}

/// Whether the world is solid at the voxel with the coordinates given.
pub fn is_solid(x: usize, y: usize, z: usize) -> (r: bool)
    requires
        x < WORLD_SIDE,
        y < WORLD_SIDE,
        z < WORLD_SIDE,
    ensures
        r == spec_is_solid(x, y, z),
{
    let dx = off_middle(x);
    let dy = off_middle(y);
    let dz = off_middle(z);
    assert(dx * dx <= 256 && dy * dy <= 256 && dz * dz <= 256) by (nonlinear_arith)
        requires
            dx <= 16,
            dy <= 16,
            dz <= 16,
    ;
    let corner = (x == 0 || x == 31) && (y == 0 || y == 31) && (z == 0 || z == 31);
    let ball = dx * dx + dy * dy + dz * dz <= 120;
    let cross = (dx <= 1 && dy <= 1) || (dx <= 1 && dz <= 1) || (dy <= 1 && dz <= 1);
    (corner || ball) && !cross
}

/// The number of voxels of the world.
pub const WORLD_VOXELS: usize = 32768;

/// The octree of the world once the first `n` of its voxels have been
/// looked at, in the order in which the first coordinate runs fastest and
/// the third slowest. A solid voxel gets one of three colours by its place
/// in that order. `None` where the octree has run out of room.
pub open spec fn spec_world_upto(n: nat) -> Option<Seq<Voxel>>
    decreases n,
{
    if n == 0 {
        Some(seq![spec_blank()])
    } else {
        let i = (n - 1) as usize;
        match spec_world_upto((n - 1) as nat) {
            None => None,
            Some(octree) => if !spec_is_solid(i % 32, (i / 32) % 32, (i / 1024) % 32) {
                Some(octree)
            } else if !spec_room(
                octree,
                ((i % 32) as u64, ((i / 32) % 32) as u64, ((i / 1024) % 32) as u64),
            ) {
                None
            } else {
                Some(
                    spec_insert(
                        octree,
                        ((i % 32) as u64, ((i / 32) % 32) as u64, ((i / 1024) % 32) as u64),
                        (1 + i % 3) as u32,
                    ),
                )
            },
        }
    }
}

/// Builds the octree of the world, or `None` where a voxel finds no room
/// for the nodes that it adds.
pub fn build_world() -> (r: Option<Vec<Voxel>>)
    ensures
        match (r, spec_world_upto(WORLD_VOXELS as nat)) {
            (Some(octree), Some(world)) => octree@ == world && spec_tree(octree@),
            (None, None) => true,
            _ => false,
        },
{
    let mut octree: Vec<Voxel> = Vec::new();
    octree.push(Voxel { col: 0, child_pointer: 0, valid_mask: 0, leaf_mask: 0 });
    assert(octree@ =~= seq![spec_blank()]);
    let mut i: usize = 0;
    while i < WORLD_VOXELS
        invariant
            i <= WORLD_VOXELS,
            spec_world_upto(i as nat) == Some(octree@),
            spec_tree(octree@),
        decreases WORLD_VOXELS - i,
    {
        let x = i % 32;
        let y = (i / 32) % 32;
        let z = (i / 1024) % 32;
        if is_solid(x, y, z) {
            if !has_room(&octree, (x as u64, y as u64, z as u64)) {
                proof {
                    lemma_world_stays_full((i + 1) as nat, WORLD_VOXELS as nat);
                }
                return None;
            }
            let col = (1 + i % 3) as u32;
            insert_voxel(&mut octree, (x as u64, y as u64, z as u64), col);
        }
        i += 1;
    }
    Some(octree)
}

/// Once the octree has run out of room it stays so.
pub proof fn lemma_world_stays_full(n: nat, m: nat)
    requires
        n <= m,
        spec_world_upto(n) is None,
    ensures
        spec_world_upto(m) is None,
    decreases m,
{
    if n < m {
        lemma_world_stays_full(n, (m - 1) as nat);
    }
}


/// The size of a node in bytes.
pub const VOXEL_BYTES: usize = 8;

/// The octree on the device.
#[derive(Clone, Copy, Debug)]
pub struct VoxelStructure {
    pub buffer: GpuBuffer,
}

impl View for VoxelStructure {
    type V = VoxelStructure;

    open spec fn view(&self) -> VoxelStructure {
        *self
    }
}

/// The stage of an upload, named by what is going on.
#[derive(Clone, Copy, Debug)]
pub enum UploadStage {
    /// The buffer on the device is being built.
    Target(BufferBuild),
    /// The host-visible staging buffer is being built.
    Staging(GpuBuffer, BufferBuild),
    /// The nodes are being written to the staging buffer.
    Write(GpuBuffer, GpuBuffer),
    /// The copy from the staging buffer is being submitted and waited for.
    Submit(GpuBuffer, GpuBuffer, ImmediateSubmit),
    /// The staging buffer is being destroyed.
    Flush(GpuBuffer),
}

/// The upload of an octree to the device in progress.
#[derive(Debug)]
pub struct Upload {
    pub path: Immediate,
    pub voxels: Vec<Voxel>,
    pub stage: UploadStage,
}

/// The upload as contracts see it.
pub struct UploadView {
    pub path: Immediate,
    pub voxels: Seq<Voxel>,
    pub stage: UploadStage,
}

impl View for Upload {
    type V = UploadView;

    open spec fn view(&self) -> UploadView {
        UploadView { path: self.path, voxels: self.voxels@, stage: self.stage }
    }
}

impl UploadView {
    /// The parameters of the staging buffer for as many bytes as the buffer
    /// on the device has: host-visible memory to copy from.
    pub open spec fn spec_staging(target: GpuBuffer) -> BufferBuilder {
        BufferBuilder {
            capacity: target.size as usize,
            usage: BUFFER_USAGE_TRANSFER_SRC,
            location: MemoryLocation::CpuToGpu,
        }
    }

    /// The request that a step of the submission asks for: where the
    /// caller is to record, the copy from the staging buffer is recorded.
    pub open spec fn spec_recorded(request: Request, target: GpuBuffer, staging: GpuBuffer) -> RequestView {
        match request {
            Request::RecordCaller(command_buffer) => RequestView::Record {
                command_buffer,
                commands: seq![
                    Command::CopyBuffer {
                        src: staging.buffer,
                        dst: target.buffer,
                        size: staging.size,
                    },
                ],
            },
            request => request@,
        }
    }

    /// What the upload ends with once the copy is done: the staging buffer
    /// is destroyed first, where the queue for it holds anything.
    pub open spec fn spec_finish(self, target: GpuBuffer, staging: Seq<DeletionEntry>) -> Stated<
        UploadView,
        VoxelStructure,
    > {
        if staging.len() == 0 {
            Stated::Done(VoxelStructure { buffer: target })
        } else {
            Stated::Next(
                UploadView { stage: UploadStage::Flush(target), ..self },
                RequestView::Destroy(staging.reverse()),
            )
        }
    }

    /// What follows from `reply` in this state, with `staging` waiting to
    /// be destroyed.
    ///
    /// The buffer on the device is built, then a staging buffer of the
    /// same size. The nodes are written to the staging buffer, which must
    /// be mapped, and copied from there in an immediate submission. Then
    /// the staging buffer is destroyed.
    pub open spec fn spec_advance(self, reply: Reply, staging: Seq<DeletionEntry>) -> Stated<
        UploadView,
        VoxelStructure,
    > {
        match self.stage {
            UploadStage::Target(build) => match build.spec_advance(reply) {
                Step::Next(m, request) => Stated::Next(
                    UploadView { stage: UploadStage::Target(m), ..self },
                    RequestView::Plain(request),
                ),
                Step::Done(target) => Stated::Next(
                    UploadView {
                        stage: UploadStage::Staging(
                            target,
                            BufferBuild::Create(Self::spec_staging(target)),
                        ),
                        ..self
                    },
                    RequestView::Plain(
                        Request::CreateBuffer(
                            BufferCreateInfo {
                                size: target.size as usize as u64,
                                usage: BUFFER_USAGE_TRANSFER_SRC,
                            },
                        ),
                    ),
                ),
                Step::Failed(e) => Stated::Failed(e),
            },
            UploadStage::Staging(target, build) => match build.spec_advance(reply) {
                Step::Next(m, request) => Stated::Next(
                    UploadView { stage: UploadStage::Staging(target, m), ..self },
                    RequestView::Plain(request),
                ),
                Step::Done(made) => match made.ptr {
                    Some(address) => Stated::Next(
                        UploadView {
                            stage: UploadStage::Write(target, made),
                            voxels: Seq::empty(),
                            ..self
                        },
                        RequestView::WriteMapped { address, voxels: self.voxels },
                    ),
                    None => Stated::Failed(Error::NotMapped),
                },
                Step::Failed(e) => Stated::Failed(e),
            },
            UploadStage::Write(target, made) => match reply {
                Reply::Done => Stated::Next(
                    UploadView {
                        stage: UploadStage::Submit(
                            target,
                            made,
                            ImmediateSubmit { path: self.path, stage: ImmediateStage::ResetFence },
                        ),
                        ..self
                    },
                    RequestView::Plain(
                        ImmediateSubmit::spec_request(self.path@, ImmediateStage::ResetFence),
                    ),
                ),
                reply => Stated::Failed(spec_refusal(reply)),
            },
            UploadStage::Submit(target, made, submit) => match submit.spec_advance(reply) {
                Step::Next(m, request) => Stated::Next(
                    UploadView { stage: UploadStage::Submit(target, made, m), ..self },
                    Self::spec_recorded(request, target, made),
                ),
                Step::Done(_) => self.spec_finish(target, staging),
                Step::Failed(e) => Stated::Failed(e),
            },
            UploadStage::Flush(target) => match reply {
                Reply::Done => Stated::Done(VoxelStructure { buffer: target }),
                reply => Stated::Failed(spec_refusal(reply)),
            },
        }
    }

    /// The entries that `reply` adds to the queue that owns the buffer on
    /// the device.
    pub open spec fn spec_registered(self, reply: Reply) -> Seq<DeletionEntry> {
        match self.stage {
            UploadStage::Target(build) => build.spec_registered(reply),
            _ => Seq::empty(),
        }
    }

    /// The queue for the staging buffer after `reply`: it gets the objects
    /// of the staging buffer as they come into being, and is emptied when
    /// the copy is done.
    pub open spec fn spec_staging_after(self, reply: Reply, staging: Seq<DeletionEntry>) -> Seq<
        DeletionEntry,
    > {
        match self.stage {
            UploadStage::Staging(_, build) => staging + build.spec_registered(reply),
            UploadStage::Submit(_, _, submit) => if submit.spec_advance(reply) is Done {
                Seq::empty()
            } else {
                staging
            },
            _ => staging,
        }
    }
}

impl Upload {
    /// Takes the reply to the pending request and says what comes next.
    /// What belongs to the buffer on the device is registered with
    /// `queue`, what belongs to the staging buffer with `staging`.
    pub fn advance(self, reply: Reply, queue: &mut DeleteQueue, staging: &mut DeleteQueue) -> (r:
        Step<Upload, VoxelStructure>)
        ensures
            agrees(r, self@.spec_advance(reply, old(staging)@)),
            final(queue)@ == old(queue)@ + self@.spec_registered(reply),
            final(staging)@ == self@.spec_staging_after(reply, old(staging)@),
    {
        proof {
            assert(old(queue)@ + Seq::<DeletionEntry>::empty() =~= old(queue)@);
        }
        let Upload { path, voxels, stage } = self;
        match stage {
            UploadStage::Target(build) => match build.advance(reply, queue) {
                Step::Next(m, request) => Step::Next(
                    Upload { path, voxels, stage: UploadStage::Target(m) },
                    request,
                ),
                Step::Done(target) => {
                    let mut builder = GpuBuffer::builder();
                    builder.capacity(target.size as usize).usage(BUFFER_USAGE_TRANSFER_SRC).location(
                        MemoryLocation::CpuToGpu,
                    );
                    let (build, request) = builder.build();
                    Step::Next(
                        Upload { path, voxels, stage: UploadStage::Staging(target, build) },
                        request,
                    )
                },
                Step::Failed(e) => Step::Failed(e),
            },
            UploadStage::Staging(target, build) => match build.advance(reply, staging) {
                Step::Next(m, request) => Step::Next(
                    Upload { path, voxels, stage: UploadStage::Staging(target, m) },
                    request,
                ),
                Step::Done(made) => match made.ptr {
                    Some(address) => Step::Next(
                        Upload { path, voxels: Vec::new(), stage: UploadStage::Write(target, made) },
                        Request::WriteMapped { address, voxels },
                    ),
                    None => Step::Failed(Error::NotMapped),
                },
                Step::Failed(e) => Step::Failed(e),
            },
            UploadStage::Write(target, made) => match reply {
                Reply::Done => {
                    let (submit, request) = path.submit();
                    Step::Next(
                        Upload { path, voxels, stage: UploadStage::Submit(target, made, submit) },
                        request,
                    )
                },
                reply => Step::Failed(refusal(reply)),
            },
            UploadStage::Submit(target, made, submit) => match submit.advance(reply) {
                Step::Next(m, request) => {
                    let request = match request {
                        Request::RecordCaller(command_buffer) => {
                            let mut commands: Vec<Command> = Vec::new();
                            commands.push(
                                Command::CopyBuffer {
                                    src: made.buffer,
                                    dst: target.buffer,
                                    size: made.size,
                                },
                            );
                            assert(commands@ =~= seq![
                                Command::CopyBuffer {
                                    src: made.buffer,
                                    dst: target.buffer,
                                    size: made.size,
                                },
                            ]);
                            Request::Record { command_buffer, commands }
                        },
                        request => request,
                    };
                    Step::Next(
                        Upload { path, voxels, stage: UploadStage::Submit(target, made, m) },
                        request,
                    )
                },
                Step::Done(_) => {
                    let entries = staging.flush();
                    if entries.len() == 0 {
                        Step::Done(VoxelStructure { buffer: target })
                    } else {
                        Step::Next(
                            Upload { path, voxels, stage: UploadStage::Flush(target) },
                            Request::Destroy(entries),
                        )
                    }
                },
                Step::Failed(e) => Step::Failed(e),
            },
            UploadStage::Flush(target) => match reply {
                Reply::Done => Step::Done(VoxelStructure { buffer: target }),
                reply => Step::Failed(refusal(reply)),
            },
        }
    }
}

impl VoxelStructure {
    /// Starts the upload of the octree `voxels` through the immediate path
    /// `imm`: the first request creates the buffer on the device, to be
    /// read by shaders and copied to. The nodes must fit a buffer.
    pub fn new(imm: &Immediate, voxels: Vec<Voxel>) -> (r: (Upload, Request))
        requires
            voxels@.len() * VOXEL_BYTES <= usize::MAX,
        ensures
            r.0@ == (UploadView {
                path: *imm,
                voxels: voxels@,
                stage: UploadStage::Target(
                    BufferBuild::Create(
                        BufferBuilder {
                            capacity: (voxels@.len() * VOXEL_BYTES) as usize,
                            usage: BUFFER_USAGE_STORAGE_BUFFER | BUFFER_USAGE_TRANSFER_DST,
                            location: MemoryLocation::GpuOnly,
                        },
                    ),
                ),
            }),
            r.1 == Request::CreateBuffer(
                BufferCreateInfo {
                    size: (voxels@.len() * VOXEL_BYTES) as u64,
                    usage: BUFFER_USAGE_STORAGE_BUFFER | BUFFER_USAGE_TRANSFER_DST,
                },
            ),
    {
        let mut builder = GpuBuffer::builder();
        builder.capacity(voxels.len() * VOXEL_BYTES).usage(
            BUFFER_USAGE_STORAGE_BUFFER | BUFFER_USAGE_TRANSFER_DST,
        ).location(MemoryLocation::GpuOnly);
        let (build, request) = builder.build();
        (Upload { path: *imm, voxels, stage: UploadStage::Target(build) }, request)
    }
}

} // verus!
