//! Which object stands in front where several lie over one pixel.

use super::pixel::{
    color_of_object, covers, front_object, lemma_front_object_shows, object_covers, object_shows,
    LineRegisters,
};
use super::{ObjectAttributes, OBJECTS_PER_LINE};
use vstd::prelude::*;

verus! {

/// The objects that lie over one pixel, each as the pair of its X and its
/// place in the list of the scanline's objects: a `smallvec::SmallVec` with
/// room for ten pairs before it allocates.
#[verifier::external_body]
pub struct Candidates {
    inner: smallvec::SmallVec<[(u8, u8); 10]>,
}

/// The pairs that a list of candidates holds, in its order.
pub uninterp spec fn candidate_pairs(candidates: Candidates) -> Seq<(u8, u8)>;

/// Whether the pair `a` comes before the pair `b` or is `b`: by the first
/// entry, and by the second where the first entries are equal.
pub open spec fn pair_le(a: (u8, u8), b: (u8, u8)) -> bool {
    a.0 < b.0 || (a.0 == b.0 && a.1 <= b.1)
}

/// `smallvec::SmallVec::new`: a list without a pair.
#[verifier::external_body]
fn candidates_new() -> (candidates: Candidates)
    ensures
        candidate_pairs(candidates) == Seq::<(u8, u8)>::empty(),
{
    Candidates { inner: smallvec::SmallVec::new() }
}

/// `smallvec::SmallVec::push`: appends one pair; the list moves to the
/// heap when its inline room is used up.
#[verifier::external_body]
fn candidates_push(candidates: &mut Candidates, pair: (u8, u8))
    ensures
        candidate_pairs(*final(candidates)) == candidate_pairs(*old(candidates)).push(pair),
{
    candidates.inner.push(pair)
}

/// `slice::sort` on the pairs of the list, reached through
/// `SmallVec::deref_mut`: the list then holds the pairs it held, each as
/// often as before, in ascending order, tuples being ordered entry by entry.
#[verifier::external_body]
fn candidates_sort(candidates: &mut Candidates)
    ensures
        candidate_pairs(*final(candidates)).to_multiset() == candidate_pairs(
            *old(candidates),
        ).to_multiset(),
        forall|i: int, j: int|
            0 <= i <= j < candidate_pairs(*final(candidates)).len() ==> pair_le(
                #[trigger] candidate_pairs(*final(candidates))[i],
                #[trigger] candidate_pairs(*final(candidates))[j],
            ),
{
    candidates.inner.sort()
}

/// `SmallVec::len`: the number of pairs.
#[verifier::external_body]
fn candidates_len(candidates: &Candidates) -> (len: usize)
    ensures
        len == candidate_pairs(*candidates).len(),
{
    candidates.inner.len()
}

/// `SmallVec::index`, which indexes the slice of the pairs: the pair at
/// `index`.
#[verifier::external_body]
fn candidates_get(candidates: &Candidates, index: usize) -> (pair: (u8, u8))
    requires
        index < candidate_pairs(*candidates).len(),
    ensures
        pair == candidate_pairs(*candidates)[index as int],
{
    candidates.inner[index]
}

/// The pairs of those among the first `count` of `objects` that lie over
/// the pixel in column `x`, in the order of the list.
pub open spec fn covering_pairs(
    objects: Seq<ObjectAttributes>,
    lcdc: u8,
    x: int,
    ly: int,
    count: nat,
) -> Seq<(u8, u8)>
    decreases count,
{
    if count == 0 {
        Seq::empty()
    } else {
        let earlier = covering_pairs(objects, lcdc, x, ly, (count - 1) as nat);
        if object_covers(objects[count - 1], lcdc, x, ly) {
            earlier.push((objects[count - 1].x, (count - 1) as u8))
        } else {
            earlier
        }
    }
}

/// A pair is among the covering pairs exactly if it is the pair of an
/// object that lies over the pixel.
#[verifier::rlimit(50)]
proof fn lemma_covering_pairs(
    objects: Seq<ObjectAttributes>,
    lcdc: u8,
    x: int,
    ly: int,
    count: nat,
    pair: (u8, u8),
)
    requires
        count <= objects.len() <= OBJECTS_PER_LINE,
    ensures
        covering_pairs(objects, lcdc, x, ly, count).contains(pair) <==> (pair.1 < count
            && pair.0 == objects[pair.1 as int].x && object_covers(
            objects[pair.1 as int],
            lcdc,
            x,
            ly,
        )),
        covering_pairs(objects, lcdc, x, ly, count).len() <= count,
    decreases count,
{
    if count > 0 {
        let earlier = covering_pairs(objects, lcdc, x, ly, (count - 1) as nat);
        lemma_covering_pairs(objects, lcdc, x, ly, (count - 1) as nat, pair);
        if object_covers(objects[count - 1], lcdc, x, ly) {
            let added = (objects[count - 1].x, (count - 1) as u8);
            let all = earlier.push(added);
            assert(all[all.len() - 1] == added);
            if all.contains(pair) {
                let k = choose|k: int| 0 <= k < all.len() && all[k] == pair;
                if k < earlier.len() {
                    assert(earlier[k] == pair);
                }
            }
            if earlier.contains(pair) {
                let k = choose|k: int| 0 <= k < earlier.len() && earlier[k] == pair;
                assert(all[k] == pair);
            }
        }
    }
}

/// The place in `objects` of the object in front over the pixel in column
/// `x` of the scanline: of the objects that show there, the one furthest
/// left and, of several that far left, the first in the list.
#[verifier::rlimit(50)]
pub fn first_visible(
    vram: &[u8],
    objects: &Vec<ObjectAttributes>,
    registers: &LineRegisters,
    x: u8,
) -> (front: Option<usize>)
    requires
        vram@.len() >= 0x2000,
        objects@.len() <= OBJECTS_PER_LINE,
    ensures
        front is Some <==> front_object(vram@, objects@, *registers, x as int, objects@.len())
            is Some,
        front matches Some(index) ==> index == front_object(
            vram@,
            objects@,
            *registers,
            x as int,
            objects@.len(),
        ).unwrap() && index < objects@.len(),
{
    let lcdc = registers.lcdc;
    let ly = registers.ly;
    let mut candidates = candidates_new();
    let mut i: usize = 0;
    while i < objects.len()
        invariant
            i <= objects@.len() <= OBJECTS_PER_LINE,
            candidate_pairs(candidates) == covering_pairs(
                objects@,
                lcdc,
                x as int,
                ly as int,
                i as nat,
            ),
        decreases objects@.len() - i,
    {
        if covers(&objects[i], lcdc, x, ly) {
            candidates_push(&mut candidates, (objects[i].x, i as u8));
        }
        i = i + 1;
    }
    let ghost unsorted = candidate_pairs(candidates);
    candidates_sort(&mut candidates);
    let ghost sorted = candidate_pairs(candidates);
    proof {
        unsorted.to_multiset_ensures();
        sorted.to_multiset_ensures();
        assert forall|pair: (u8, u8)| sorted.contains(pair) <==> unsorted.contains(pair) by {
            assert(sorted.to_multiset().count(pair) == unsorted.to_multiset().count(pair));
        }
        lemma_front_object_shows(vram@, objects@, *registers, x as int, objects@.len());
    }
    let count = candidates_len(&candidates);
    let mut k: usize = 0;
    while k < count
        invariant
            k <= count == sorted.len(),
            sorted == candidate_pairs(candidates),
            vram@.len() >= 0x2000,
            objects@.len() <= OBJECTS_PER_LINE,
            lcdc == registers.lcdc,
            ly == registers.ly,
            forall|pair: (u8, u8)|
                sorted.contains(pair) <==> covering_pairs(
                    objects@,
                    lcdc,
                    x as int,
                    ly as int,
                    objects@.len(),
                ).contains(pair),
            forall|i: int, j: int|
                0 <= i <= j < sorted.len() ==> pair_le(#[trigger] sorted[i], #[trigger] sorted[j]),
            forall|q: int|
                0 <= q < k ==> !object_shows(
                    vram@,
                    objects@[(#[trigger] sorted[q]).1 as int],
                    *registers,
                    x as int,
                ),
        decreases count - k,
    {
        let pair = candidates_get(&candidates, k);
        proof {
            assert(sorted.contains(pair));
            lemma_covering_pairs(objects@, lcdc, x as int, ly as int, objects@.len(), pair);
        }
        let index = pair.1 as usize;
        if color_of_object(vram, &objects[index], lcdc, x, ly) != 0 {
            proof {
                lemma_front_object_shows(vram@, objects@, *registers, x as int, objects@.len());
                let front = front_object(vram@, objects@, *registers, x as int, objects@.len());
                assert(object_shows(vram@, objects@[index as int], *registers, x as int));
                assert(front is Some);
                let winner = front.unwrap();
                let winning = (objects@[winner].x, winner as u8);
                lemma_covering_pairs(objects@, lcdc, x as int, ly as int, objects@.len(), winning);
                assert(sorted.contains(winning));
                let q = choose|q: int| 0 <= q < sorted.len() && sorted[q] == winning;
                assert(q >= k);
                assert(pair_le(sorted[k as int], sorted[q]));
                assert(winner == index);
            }
            return Some(index);
        }
        k = k + 1;
    }
    proof {
        let front = front_object(vram@, objects@, *registers, x as int, objects@.len());
        if front is Some {
            let winner = front.unwrap();
            let winning = (objects@[winner].x, winner as u8);
            lemma_covering_pairs(objects@, lcdc, x as int, ly as int, objects@.len(), winning);
            assert(sorted.contains(winning));
            let q = choose|q: int| 0 <= q < sorted.len() && sorted[q] == winning;
            assert(!object_shows(vram@, objects@[sorted[q].1 as int], *registers, x as int));
        }
    }
    None
}

} // verus!
