use vstd::prelude::*;

verus! {

/// The elements of `s` from position `i` on whose positions are not in `removed`.
pub open spec fn kept_from<T>(s: Seq<T>, removed: Set<int>, i: int) -> Seq<T>
    decreases s.len() - i,
{
    if i < 0 || i >= s.len() {
        Seq::empty()
    } else if removed.contains(i) {
        kept_from(s, removed, i + 1)
    } else {
        seq![s[i]] + kept_from(s, removed, i + 1)
    }
}

/// Strictly increasing, hence free of duplicates.
pub open spec fn strictly_sorted(s: Seq<usize>) -> bool {
    forall|a: int, b: int| 0 <= a < b < s.len() ==> s[a] < s[b]
}

/// Sorts distinct indices into increasing order.
fn sort_indices(indices: &Vec<usize>) -> (r: Vec<usize>)
    requires
        indices@.no_duplicates(),
    ensures
        strictly_sorted(r@),
        r@.len() == indices@.len(),
        forall|x: usize| r@.contains(x) <==> indices@.contains(x),
{
    let mut sorted: Vec<usize> = Vec::new();
    let mut i: usize = 0;
    while i < indices.len()
        invariant
            i <= indices@.len(),
            indices@.no_duplicates(),
            strictly_sorted(sorted@),
            sorted@.len() == i,
            forall|x: usize| sorted@.contains(x) <==> indices@.take(i as int).contains(x),
        decreases indices@.len() - i,
    {
        let x = indices[i];
        assert(!sorted@.contains(x)) by {
            let pre = indices@.take(i as int);
            if sorted@.contains(x) {
                let k = choose|k: int| 0 <= k < pre.len() && pre[k] == x;
                assert(indices@[k] == indices@[i as int]);
            }
        }
        let mut pos: usize = 0;
        while pos < sorted.len() && sorted[pos] < x
            invariant
                pos <= sorted@.len(),
                forall|k: int| 0 <= k < pos ==> sorted@[k] < x,
            decreases sorted@.len() - pos,
        {
            pos = pos + 1;
        }
        let ghost before = sorted@;
        sorted.insert(pos, x);
        proof {
            assert forall|a: int, b: int| 0 <= a < b < sorted@.len() implies sorted@[a]
                < sorted@[b] by {
                if pos < before.len() {
                    assert(before[pos as int] != x);
                }
            }
            let pre = indices@.take(i as int);
            let pre1 = indices@.take(i + 1);
            assert(pre1 =~= pre.push(x));
            assert forall|y: usize| sorted@.contains(y) <==> pre1.contains(y) by {
                if sorted@.contains(y) && y != x {
                    let k = choose|k: int| 0 <= k < sorted@.len() && sorted@[k] == y;
                    if k < pos {
                        assert(before[k] == y);
                    } else {
                        assert(before[k - 1] == y);
                    }
                    assert(before.contains(y));
                    assert(pre.contains(y));
                    let m = choose|m: int| 0 <= m < pre.len() && pre[m] == y;
                    assert(pre1[m] == y);
                }
                if pre1.contains(y) && y != x {
                    let m = choose|m: int| 0 <= m < pre1.len() && pre1[m] == y;
                    assert(m != i);
                    assert(pre[m] == y);
                    assert(before.contains(y));
                    let k = choose|k: int| 0 <= k < before.len() && before[k] == y;
                    if k < pos {
                        assert(sorted@[k] == y);
                    } else {
                        assert(sorted@[k + 1] == y);
                    }
                }
                if y == x {
                    assert(sorted@[pos as int] == x);
                    assert(pre1[i as int] == x);
                }
            }
        }
        i = i + 1;
    }
    assert(indices@.take(i as int) =~= indices@);
    sorted
}

/// Removes from `vec` the elements at the given distinct positions, keeping
/// the others in order; `indices` ends up sorted.
pub fn vec_remove_multiple<T>(vec: &mut Vec<T>, indices: &mut Vec<usize>)
    requires
        old(indices)@.no_duplicates(),
        forall|k: int| 0 <= k < old(indices)@.len() ==> old(indices)@[k] < old(vec)@.len(),
    ensures
        final(vec)@ == kept_from(
            old(vec)@,
            Set::new(|p: int| exists|k: int| 0 <= k < old(indices)@.len() && old(indices)@[k] == p),
            0,
        ),
        strictly_sorted(final(indices)@),
        final(indices)@.len() == old(indices)@.len(),
        forall|x: usize| final(indices)@.contains(x) <==> old(indices)@.contains(x),
{
    let ghost orig = vec@;
    let ghost removed = Set::new(
        |p: int| exists|k: int| 0 <= k < old(indices)@.len() && old(indices)@[k] == p,
    );
    let ghost given = indices@;
    let sorted = sort_indices(indices);
    *indices = sorted;
    proof {
        assert forall|k: int| 0 <= k < indices@.len() implies indices@[k] < orig.len() by {
            assert(indices@.contains(indices@[k]));
            let m = choose|m: int| 0 <= m < given.len() && given[m] == indices@[k];
        }
        assert forall|q: int| removed.contains(q) <==> exists|k: int|
            0 <= k < indices@.len() && indices@[k] == q by {
            if removed.contains(q) {
                let m = choose|m: int| 0 <= m < given.len() && given[m] == q;
                assert(given.contains(given[m]));
                let k = choose|k: int| 0 <= k < indices@.len() && indices@[k] == given[m];
            }
            if exists|k: int| 0 <= k < indices@.len() && indices@[k] == q {
                let k = choose|k: int| 0 <= k < indices@.len() && indices@[k] == q;
                assert(indices@.contains(indices@[k]));
                let m = choose|m: int| 0 <= m < given.len() && given[m] == indices@[k];
            }
        }
    }
    let mut i: usize = vec.len();
    let mut p: usize = indices.len();
    while i > 0
        invariant
            i <= orig.len(),
            p <= indices@.len(),
            strictly_sorted(indices@),
            forall|k: int| 0 <= k < indices@.len() ==> indices@[k] < orig.len(),
            forall|q: int| removed.contains(q) <==> exists|k: int|
                0 <= k < indices@.len() && indices@[k] == q,
            forall|k: int| 0 <= k < p ==> indices@[k] < i,
            forall|k: int| p <= k < indices@.len() ==> indices@[k] >= i,
            vec@ == orig.take(i as int) + kept_from(orig, removed, i as int),
        decreases i,
    {
        i = i - 1;
        let hit = p > 0 && indices[p - 1] == i;
        let ghost tail = kept_from(orig, removed, i + 1);
        if hit {
            assert(removed.contains(i as int)) by {
                assert(indices@[p - 1] == i);
            }
            vec.remove(i);
            p = p - 1;
            assert(vec@ =~= orig.take(i as int) + kept_from(orig, removed, i as int));
        } else {
            assert(!removed.contains(i as int)) by {
                if exists|k: int| 0 <= k < indices@.len() && indices@[k] == i {
                    let k = choose|k: int| 0 <= k < indices@.len() && indices@[k] == i;
                    if k < p - 1 {
                        assert(indices@[k] < indices@[p - 1]);
                    }
                }
            }
            assert(orig.take(i + 1) =~= orig.take(i as int).push(orig[i as int]));
            assert(vec@ =~= orig.take(i as int) + kept_from(orig, removed, i as int));
        }
    }
    assert(vec@ =~= kept_from(orig, removed, 0));
}

} // verus!

verus! {

/// Attachment point of a render target.
#[derive(Debug, Clone, Copy, PartialEq, Eq, Hash, Structural)]
pub enum GLRenderAttachment {
    Color(u32),
    Depth,
}

/// Stage a shader is compiled for.
#[derive(Debug, Clone, Copy, PartialEq, Eq, Structural)]
pub enum GLShaderType {
    VERTEX,
    FRAGMENT,
}

/// An active uniform of a linked shader program: its name, GL type and array size.
#[derive(Debug, Clone)]
pub struct GLUniform {
    name: String,
    sort: u32,
    size: i32,
}

impl GLUniform {
    pub fn new(name: String, sort: u32, size: i32) -> (r: Self)
        ensures
            r.name_view() == name@,
            r.sort_view() == sort,
            r.size_view() == size,
    {
        GLUniform { name, sort, size }
    }

    pub closed spec fn name_view(&self) -> Seq<char> {
        self.name@
    }

    pub closed spec fn sort_view(&self) -> u32 {
        self.sort
    }

    pub closed spec fn size_view(&self) -> i32 {
        self.size
    }

    pub fn name(&self) -> (r: &String)
        ensures
            r@ == self.name_view(),
    {
        &self.name
    }

    pub fn sort(&self) -> (r: u32)
        ensures
            r == self.sort_view(),
    {
        self.sort
    }

    pub fn size(&self) -> (r: i32)
        ensures
            r == self.size_view(),
    {
        self.size
    }
}

} // verus!
