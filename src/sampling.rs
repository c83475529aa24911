use vstd::prelude::*;

verus! {

/// One point of an equal-area sphere partition: slot `index` of the
/// `ring_size` points on polar ring `ring`.
#[derive(Debug, Clone, Copy, PartialEq, Eq, Structural)]
pub struct RingSlot {
    pub ring: usize,
    pub index: usize,
    pub ring_size: usize,
}

/// The slots of ring `ring`, holding `size` points, in azimuth order.
pub open spec fn ring_seq(ring: int, size: usize) -> Seq<RingSlot> {
    Seq::new(size as nat, |k: int| RingSlot { ring: ring as usize, index: k as usize, ring_size: size })
}

/// The slots of the first `m` rings, ring after ring.
pub open spec fn slots_upto(sizes: Seq<usize>, m: int) -> Seq<RingSlot>
    decreases m,
{
    if m <= 0 {
        Seq::empty()
    } else {
        slots_upto(sizes, m - 1) + ring_seq(m - 1, sizes[m - 1])
    }
}

/// Every slot of every ring.
pub open spec fn all_slots(sizes: Seq<usize>) -> Seq<RingSlot> {
    slots_upto(sizes, sizes.len() as int)
}

/// The slots of the first `a` rings begin the slots of the first `b`.
proof fn lemma_slots_prefix(sizes: Seq<usize>, a: int, b: int)
    requires
        0 <= a <= b <= sizes.len(),
    ensures
        slots_upto(sizes, a).len() <= slots_upto(sizes, b).len(),
        slots_upto(sizes, a) == slots_upto(sizes, b).take(slots_upto(sizes, a).len() as int),
    decreases b,
{
    if a < b {
        lemma_slots_prefix(sizes, a, b - 1);
        let sb1 = slots_upto(sizes, b - 1);
        let sb = slots_upto(sizes, b);
        assert(sb == sb1 + ring_seq(b - 1, sizes[b - 1]));
        assert(sb1 =~= sb.take(sb1.len() as int));
        assert(slots_upto(sizes, a) =~= sb.take(slots_upto(sizes, a).len() as int));
    } else {
        assert(slots_upto(sizes, a) =~= slots_upto(sizes, b).take(slots_upto(sizes, a).len() as int));
    }
}

/// Emits the slots of the rings in order, ring after ring, and stops the
/// moment `point_count` slots are out, even in the middle of a ring: never
/// more than `point_count`, and exactly `point_count` whenever the rings
/// hold that many.
pub fn uniform_ring_slots(ring_sizes: &Vec<usize>, point_count: usize) -> (r: Vec<RingSlot>)
    ensures
        r@ == if point_count < all_slots(ring_sizes@).len() {
            all_slots(ring_sizes@).take(point_count as int)
        } else {
            all_slots(ring_sizes@)
        },
        r@.len() <= point_count,
        point_count <= all_slots(ring_sizes@).len() ==> r@.len() == point_count,
{
    let mut points: Vec<RingSlot> = Vec::new();
    if point_count == 0 {
        assert(points@ =~= all_slots(ring_sizes@).take(0));
        return points;
    }
    let mut m: usize = 0;
    while m < ring_sizes.len()
        invariant
            0 <= m <= ring_sizes@.len(),
            points@ == slots_upto(ring_sizes@, m as int),
            points@.len() < point_count,
        decreases ring_sizes@.len() - m,
    {
        let size = ring_sizes[m];
        let ghost before = points@;
        let mut n: usize = 0;
        while n < size
            invariant
                0 <= n <= size,
                size == ring_sizes@[m as int],
                m < ring_sizes@.len(),
                before == slots_upto(ring_sizes@, m as int),
                points@ == before + ring_seq(m as int, size).take(n as int),
                points@.len() < point_count,
            decreases size - n,
        {
            points.push(RingSlot { ring: m, index: n, ring_size: size });
            assert(ring_seq(m as int, size).take(n + 1) =~= ring_seq(m as int, size).take(
                n as int,
            ).push(RingSlot { ring: m, index: n, ring_size: size }));
            n = n + 1;
            if points.len() >= point_count {
                proof {
                    let full = slots_upto(ring_sizes@, m + 1);
                    assert(full == before + ring_seq(m as int, size));
                    assert(points@ =~= full.take(points@.len() as int));
                    lemma_slots_prefix(ring_sizes@, m + 1, ring_sizes@.len() as int);
                    assert(points@ =~= all_slots(ring_sizes@).take(point_count as int));
                }
                return points;
            }
        }
        assert(ring_seq(m as int, size).take(size as int) =~= ring_seq(m as int, size));
        m = m + 1;
    }
    points
}

} // verus!
