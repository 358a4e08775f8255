//! Pre-resolution checks.
//!
//! A caller validates a block tree before resolving it: a line block must
//! arrive with both point and size (absence is an input error, reported
//! before layout starts), and an image that will need its natural size
//! should have one recorded, since resolution substitutes a zero-sized
//! placeholder where it is missing.  [`unsized_image_paths`] names every
//! such image so that no substitution goes unobserved.

use vstd::prelude::*;
use crate::block::BlockType;

verus! {

/// Whether every line block in this subtree has a fully specified frame.
pub open spec fn block_lines_ok(b: BlockType) -> bool
    decreases b, 1int,
{
    match b {
        BlockType::Container(c) => blocks_lines_ok(c.blocks@),
        BlockType::Flexible(f) => blocks_lines_ok(f.blocks@),
        BlockType::FlexibleItem(fi) => block_lines_ok(fi.block),
        BlockType::Wrapper(w) => block_lines_ok(w.block),
        BlockType::Line(l) => l.frame.is_fully_specified(),
        _ => true,
    }
}

/// Whether every line block under any of `cs` has a fully specified frame.
pub open spec fn blocks_lines_ok(cs: Seq<BlockType>) -> bool
    decreases cs, 0int,
{
    if cs.len() == 0 {
        true
    } else {
        block_lines_ok(cs[0]) && blocks_lines_ok(cs.subrange(1, cs.len() as int))
    }
}

/// Checks one subtree for underspecified line blocks.
fn block_lines_ok_exec(b: &BlockType) -> (r: bool)
    ensures
        r == block_lines_ok(*b),
    decreases *b, 1int,
{
    match b {
        BlockType::Container(c) => {
            proof {
                assert(decreases_to!(*b, 1int => c.blocks, 0int));
            }
            blocks_lines_ok_exec(&c.blocks)
        },
        BlockType::Flexible(f) => {
            proof {
                assert(decreases_to!(*b, 1int => f.blocks, 0int));
            }
            blocks_lines_ok_exec(&f.blocks)
        },
        BlockType::FlexibleItem(fi) => block_lines_ok_exec(&fi.block),
        BlockType::Wrapper(w) => block_lines_ok_exec(&w.block),
        BlockType::Line(l) => l.frame.point.is_some() && l.frame.size.is_some(),
        _ => true,
    }
}

/// Whether every line block under any of `blocks` arrives with both point
/// and size; a tree that fails this check should be rejected before
/// resolution.
#[verifier::loop_isolation(false)]
pub fn blocks_lines_ok_exec(blocks: &Vec<BlockType>) -> (r: bool)
    ensures
        r == blocks_lines_ok(blocks@),
    decreases blocks@, 0int,
{
    let n = blocks.len();
    proof {
        assert(blocks@.subrange(0, n as int) =~= blocks@);
    }
    let mut i: usize = 0;
    while i < n
        invariant
            i <= n,
            n == blocks@.len(),
            blocks_lines_ok(blocks@) == blocks_lines_ok(blocks@.subrange(i as int, n as int)),
        decreases n - i,
    {
        proof {
            assert(blocks@.subrange(i as int, n as int)[0] == blocks@[i as int]);
            assert(blocks@.subrange(i as int, n as int).subrange(
                1,
                blocks@.subrange(i as int, n as int).len() as int,
            ) =~= blocks@.subrange(i as int + 1, n as int));
            assert(decreases_to!(blocks@, 0int => blocks@[i as int], 1int));
        }
        if !block_lines_ok_exec(&blocks[i]) {
            return false;
        }
        i = i + 1;
    }
    proof {
        assert(blocks@.subrange(n as int, n as int) =~= Seq::<BlockType>::empty());
    }
    true
}

/// The paths of the images in this subtree that will need their natural
/// size during resolution but have none recorded.
pub open spec fn block_unsized(b: BlockType) -> Seq<Seq<char>>
    decreases b, 1int,
{
    match b {
        BlockType::Image(im) => {
            if (im.frame is None || im.frame->0.size is None) && im.natural_size is None {
                seq![im.path@]
            } else {
                Seq::empty()
            }
        },
        BlockType::Container(c) => blocks_unsized(c.blocks@),
        BlockType::Flexible(f) => blocks_unsized(f.blocks@),
        BlockType::FlexibleItem(fi) => block_unsized(fi.block),
        BlockType::Wrapper(w) => block_unsized(w.block),
        _ => Seq::empty(),
    }
}

/// The paths of the images under any of `cs` that will need their natural
/// size during resolution but have none recorded, in tree order.
pub open spec fn blocks_unsized(cs: Seq<BlockType>) -> Seq<Seq<char>>
    decreases cs, 0int,
{
    if cs.len() == 0 {
        Seq::empty()
    } else {
        block_unsized(cs[0]) + blocks_unsized(cs.subrange(1, cs.len() as int))
    }
}

/// Appending a block appends its unsized-image paths.
proof fn lemma_blocks_unsized_snoc(cs: Seq<BlockType>, o: BlockType)
    ensures
        blocks_unsized(cs.push(o)) == blocks_unsized(cs) + block_unsized(o),
    decreases cs.len(),
{
    reveal_with_fuel(blocks_unsized, 3);
    let full = cs.push(o);
    if cs.len() == 0 {
        assert(full[0] == o);
        assert(full.subrange(1, full.len() as int) =~= Seq::<BlockType>::empty());
        assert(blocks_unsized(full) =~= blocks_unsized(cs) + block_unsized(o));
    } else {
        assert(full[0] == cs[0]);
        assert(full.subrange(1, full.len() as int) =~= cs.subrange(1, cs.len() as int).push(o));
        lemma_blocks_unsized_snoc(cs.subrange(1, cs.len() as int), o);
        assert(blocks_unsized(full) =~= blocks_unsized(cs) + block_unsized(o));
    }
}

/// Collects the unsized-image paths of one subtree into `out`.
fn block_unsized_exec(b: &BlockType, out: &mut Vec<String>)
    ensures
        final(out)@.len() == old(out)@.len() + block_unsized(*b).len(),
        forall|j: int| 0 <= j < old(out)@.len() ==> final(out)@[j] == old(out)@[j],
        forall|j: int|
            0 <= j < block_unsized(*b).len() ==> (#[trigger] final(out)@[old(out)@.len() + j])@
                == block_unsized(*b)[j],
    decreases *b, 1int,
{
    match b {
        BlockType::Image(im) => {
            let needs = match &im.frame {
                Some(f) => f.size.is_none(),
                None => true,
            };
            if needs && im.natural_size.is_none() {
                out.push(im.path.clone());
            }
        },
        BlockType::Container(c) => {
            proof {
                assert(decreases_to!(*b, 1int => c.blocks, 0int));
            }
            blocks_unsized_exec(&c.blocks, out);
        },
        BlockType::Flexible(f) => {
            proof {
                assert(decreases_to!(*b, 1int => f.blocks, 0int));
            }
            blocks_unsized_exec(&f.blocks, out);
        },
        BlockType::FlexibleItem(fi) => {
            block_unsized_exec(&fi.block, out);
        },
        BlockType::Wrapper(w) => {
            block_unsized_exec(&w.block, out);
        },
        _ => {},
    }
}

/// Collects the unsized-image paths under `blocks` into `out`, in tree
/// order.
#[verifier::loop_isolation(false)]
fn blocks_unsized_exec(blocks: &Vec<BlockType>, out: &mut Vec<String>)
    ensures
        final(out)@.len() == old(out)@.len() + blocks_unsized(blocks@).len(),
        forall|j: int| 0 <= j < old(out)@.len() ==> final(out)@[j] == old(out)@[j],
        forall|j: int|
            0 <= j < blocks_unsized(blocks@).len() ==> (#[trigger] final(out)@[old(out)@.len() + j])@
                == blocks_unsized(blocks@)[j],
    decreases blocks@, 0int,
{
    let n = blocks.len();
    let mut i: usize = 0;
    while i < n
        invariant
            i <= n,
            n == blocks@.len(),
            out@.len() == old(out)@.len() + blocks_unsized(blocks@.subrange(0, i as int)).len(),
            forall|j: int| 0 <= j < old(out)@.len() ==> out@[j] == old(out)@[j],
            forall|j: int|
                0 <= j < blocks_unsized(blocks@.subrange(0, i as int)).len() ==> (#[trigger] out@[old(
                    out,
                )@.len() + j])@ == blocks_unsized(blocks@.subrange(0, i as int))[j],
        decreases n - i,
    {
        proof {
            assert(decreases_to!(blocks@, 0int => blocks@[i as int], 1int));
        }
        let ghost prefix = blocks@.subrange(0, i as int);
        let ghost pre = out@;
        block_unsized_exec(&blocks[i], out);
        proof {
            lemma_blocks_unsized_snoc(prefix, blocks@[i as int]);
            assert(prefix.push(blocks@[i as int]) =~= blocks@.subrange(0, i as int + 1));
            let np = blocks_unsized(blocks@.subrange(0, i as int + 1));
            let base = old(out)@.len() as int;
            assert forall|j: int| 0 <= j < np.len() implies (#[trigger] out@[base + j])@ == np[j] by {
                if j < blocks_unsized(prefix).len() {
                    assert(out@[base + j] == pre[base + j]);
                } else {
                    let jj = j - blocks_unsized(prefix).len();
                    assert(out@[pre.len() + jj]@ == block_unsized(blocks@[i as int])[jj]);
                    assert(base + j == pre.len() + jj);
                }
            }
        }
        i = i + 1;
    }
    proof {
        assert(blocks@.subrange(0, n as int) =~= blocks@);
    }
}

/// The paths of every image under `blocks` that resolution would replace
/// with a zero-sized placeholder: it has no explicit frame size and no
/// recorded natural size.  A caller logs or fixes these before resolving,
/// so that no substitution is silent.
pub fn unsized_image_paths(blocks: &Vec<BlockType>) -> (r: Vec<String>)
    ensures
        r@.len() == blocks_unsized(blocks@).len(),
        forall|j: int|
            0 <= j < blocks_unsized(blocks@).len() ==> (#[trigger] r@[j])@ == blocks_unsized(
                blocks@,
            )[j],
{
    let mut out: Vec<String> = Vec::new();
    blocks_unsized_exec(blocks, &mut out);
    proof {
        assert forall|j: int| 0 <= j < blocks_unsized(blocks@).len() implies (#[trigger] out@[j])@
            == blocks_unsized(blocks@)[j] by {
            assert(out@[0 + j]@ == blocks_unsized(blocks@)[j]);
        }
    }
    out
}

} // verus!
