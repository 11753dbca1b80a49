//! Morph targets: where in the morph arrays of a geometry each one reads.
//!
//! A geometry of `n` vertices holds one array for each kind of displacement,
//! and each array is a row of blocks of `n` entries. The targets of a mesh
//! take the blocks of their kind in turn.

use crate::node::{Target, MAX_TARGETS};
use vstd::prelude::*;

verus! {

/// How many of the first `upto` targets displace what `kind` displaces.
pub open spec fn earlier(targets: Seq<Target>, upto: int, kind: Target) -> nat
    decreases upto,
{
    if upto <= 0 {
        0
    } else {
        earlier(targets, upto - 1, kind) + if targets[upto - 1] == kind {
            1nat
        } else {
            0nat
        }
    }
}

/// Where the target at `index` starts to read in the morph array of its
/// kind, each block holding `n` entries: behind the blocks of the targets of
/// the same kind that stand before it. `None` for a target that displaces
/// nothing.
pub open spec fn block_of(targets: Seq<Target>, index: int, n: int) -> Option<int> {
    if targets[index] is Unused {
        None
    } else {
        Some(earlier(targets, index, targets[index]) * n)
    }
}

/// The count of earlier targets of a kind is no more than their number.
proof fn lemma_earlier_bound(targets: Seq<Target>, upto: int, kind: Target)
    requires
        0 <= upto,
    ensures
        earlier(targets, upto, kind) <= upto,
    decreases upto,
{
    if upto > 0 {
        lemma_earlier_bound(targets, upto - 1, kind);
    }
}

/// Where each target starts to read in the morph array of its kind, for a
/// geometry of `n` vertices; the block that it reads is `n` entries long.
pub fn morph_blocks(targets: [Target; MAX_TARGETS], n: usize) -> (blocks: [Option<
    usize,
>; MAX_TARGETS])
    requires
        MAX_TARGETS * n <= usize::MAX,
    ensures
        forall|i: int|
            0 <= i < MAX_TARGETS ==> match #[trigger] blocks[i] {
                Some(start) => block_of(targets@, i, n as int) == Some(start as int) && start + n
                    <= MAX_TARGETS * n,
                None => block_of(targets@, i, n as int) is None,
            },
{
    let mut blocks: [Option<usize>; MAX_TARGETS] = [None; MAX_TARGETS];
    let mut positions: usize = 0;
    let mut normals: usize = 0;
    let mut tangents: usize = 0;
    let mut i: usize = 0;
    assert(earlier(targets@, 0, Target::Position) == 0 && earlier(targets@, 0, Target::Normal) == 0
        && earlier(targets@, 0, Target::Tangent) == 0);
    while i < MAX_TARGETS
        invariant
            i <= MAX_TARGETS,
            MAX_TARGETS * n <= usize::MAX,
            positions == earlier(targets@, i as int, Target::Position) * n,
            normals == earlier(targets@, i as int, Target::Normal) * n,
            tangents == earlier(targets@, i as int, Target::Tangent) * n,
            forall|j: int| i <= j < MAX_TARGETS ==> (#[trigger] blocks[j]) is None,
            forall|j: int|
                0 <= j < i ==> match #[trigger] blocks[j] {
                    Some(start) => block_of(targets@, j, n as int) == Some(start as int) && start
                        + n <= MAX_TARGETS * n,
                    None => block_of(targets@, j, n as int) is None,
                },
        decreases MAX_TARGETS - i,
    {
        proof {
            lemma_earlier_bound(targets@, i as int, Target::Position);
            lemma_earlier_bound(targets@, i as int, Target::Normal);
            lemma_earlier_bound(targets@, i as int, Target::Tangent);
            let p = earlier(targets@, i as int, Target::Position) as int;
            let q = earlier(targets@, i as int, Target::Normal) as int;
            let t = earlier(targets@, i as int, Target::Tangent) as int;
            let m = n as int;
            assert((p + 1) * m == p * m + m && (q + 1) * m == q * m + m && (t + 1) * m == t * m
                + m) by (nonlinear_arith);
            assert(p * m + m <= 8 * m && q * m + m <= 8 * m && t * m + m <= 8 * m)
                by (nonlinear_arith)
                requires
                    0 <= p < 8,
                    0 <= q < 8,
                    0 <= t < 8,
                    0 <= m,
            ;
        }
        match targets[i] {
            Target::Position => {
                blocks[i] = Some(positions);
                positions = positions + n;
            },
            Target::Normal => {
                blocks[i] = Some(normals);
                normals = normals + n;
            },
            Target::Tangent => {
                blocks[i] = Some(tangents);
                tangents = tangents + n;
            },
            Target::Unused => {},
        }
        i = i + 1;
    }
    blocks
}

} // verus!
