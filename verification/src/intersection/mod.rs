//! Rays, the shapes they strike, and where they strike them.

pub mod precomputation;
pub mod ray;
pub mod shape;

use crate::intersection::shape::Shape;
use crate::scalar::Scalar;
use vstd::prelude::*;

verus! {

/// One meeting of a ray with a shape: the ray's parameter there, which is
/// negative behind the ray's origin, and the shape.
#[derive(Clone, Copy, Debug)]
pub struct Intersection<'a> {
    pub t: Scalar,
    pub object: &'a Shape,
}

impl<'a> Intersection<'a> {
    pub fn new(t: Scalar, object: &'a Shape) -> (r: Intersection<'a>)
        ensures
            r == (Intersection { t, object }),
    {
        Intersection { t, object }
    }

    pub fn t(&self) -> (r: Scalar)
        ensures
            r == self.t,
    {
        self.t
    }

    pub fn object(&self) -> (r: &'a Shape)
        ensures
            r == self.object,
    {
        self.object
    }
}

/// Whether the parameters of `s` never fall from one entry to the next.
pub open spec fn ascending(s: Seq<Intersection>) -> bool {
    forall|i: int, j: int| 0 <= i <= j < s.len() ==> s[i].t@ <= s[j].t@
}

/// The first index at or after `from` whose parameter exceeds `t`; the
/// length of `s` where there is none.
pub open spec fn position_after(s: Seq<Intersection>, t: Scalar, from: int) -> int
    decreases s.len() - from,
{
    if from < 0 || from >= s.len() || s[from].t@ > t@ {
        from
    } else {
        position_after(s, t, from + 1)
    }
}

/// `s` with `x` put before the first entry whose parameter exceeds that of
/// `x`, so behind every entry of the same parameter.
pub open spec fn insert_sorted<'a>(s: Seq<Intersection<'a>>, x: Intersection<'a>) -> Seq<
    Intersection<'a>,
> {
    s.insert(position_after(s, x.t, 0), x)
}

/// `acc` after the entries of `items` from index `from` on were put into it
/// one by one, each by `insert_sorted`.
pub open spec fn insert_all<'a>(
    acc: Seq<Intersection<'a>>,
    items: Seq<Intersection<'a>>,
    from: int,
) -> Seq<Intersection<'a>>
    decreases items.len() - from,
{
    if from < 0 || from >= items.len() {
        acc
    } else {
        insert_all(insert_sorted(acc, items[from]), items, from + 1)
    }
}

/// The parameters `ts`, each bound to `shape`.
pub open spec fn bind<'a>(ts: Seq<Scalar>, shape: &'a Shape) -> Seq<Intersection<'a>> {
    Seq::new(ts.len(), |i: int| Intersection { t: ts[i], object: shape })
}

/// The first index at or after `from` whose parameter is not negative; the
/// length of `s` where there is none.
pub open spec fn first_visible(s: Seq<Intersection>, from: int) -> int
    decreases s.len() - from,
{
    if from < 0 || from >= s.len() || s[from].t@ >= 0 {
        from
    } else {
        first_visible(s, from + 1)
    }
}

/// The visible intersection of `s`: the first whose parameter is not
/// negative.
pub open spec fn hit_spec<'a>(s: Seq<Intersection<'a>>) -> Option<Intersection<'a>> {
    let k = first_visible(s, 0);
    if k < s.len() {
        Some(s[k])
    } else {
        None
    }
}

/// What `position_after` finds: every entry from `from` up to it has a
/// parameter of at most `t`, and the entry at it, if any, exceeds `t`.
pub proof fn lemma_position_after(s: Seq<Intersection>, t: Scalar, from: int)
    requires
        0 <= from <= s.len(),
    ensures
        from <= position_after(s, t, from) <= s.len(),
        forall|i: int| from <= i < position_after(s, t, from) ==> s[i].t@ <= t@,
        position_after(s, t, from) < s.len() ==> s[position_after(s, t, from)].t@ > t@,
    decreases s.len() - from,
{
    if from < s.len() && s[from].t@ <= t@ {
        lemma_position_after(s, t, from + 1);
    }
}

/// Sorted insertion keeps an ascending sequence ascending.
pub proof fn lemma_insert_sorted_ascending<'a>(s: Seq<Intersection<'a>>, x: Intersection<'a>)
    requires
        ascending(s),
    ensures
        ascending(insert_sorted(s, x)),
        insert_sorted(s, x).len() == s.len() + 1,
{
    let k = position_after(s, x.t, 0);
    lemma_position_after(s, x.t, 0);
    let r = insert_sorted(s, x);
    assert forall|i: int, j: int| 0 <= i <= j < r.len() implies r[i].t@ <= r[j].t@ by {
        if i < k && j > k {
            assert(r[j] == s[j - 1]);
            assert(s[k].t@ <= s[j - 1].t@);
        } else if i == k && j > k {
            assert(r[j] == s[j - 1]);
            assert(s[k].t@ <= s[j - 1].t@);
        } else if i > k {
            assert(r[i] == s[i - 1]);
            assert(r[j] == s[j - 1]);
        }
    }
}

/// Inserting a run of entries keeps an ascending sequence ascending, and
/// lengthens it by the run.
pub proof fn lemma_insert_all_ascending<'a>(
    acc: Seq<Intersection<'a>>,
    items: Seq<Intersection<'a>>,
    from: int,
)
    requires
        ascending(acc),
        0 <= from <= items.len(),
    ensures
        ascending(insert_all(acc, items, from)),
        insert_all(acc, items, from).len() == acc.len() + items.len() - from,
    decreases items.len() - from,
{
    if from < items.len() {
        lemma_insert_sorted_ascending(acc, items[from]);
        lemma_insert_all_ascending(insert_sorted(acc, items[from]), items, from + 1);
    }
}

/// What `first_visible` finds: every entry from `from` up to it has a
/// negative parameter, and the entry at it, if any, has not.
pub proof fn lemma_first_visible(s: Seq<Intersection>, from: int)
    requires
        0 <= from <= s.len(),
    ensures
        from <= first_visible(s, from) <= s.len(),
        forall|i: int| from <= i < first_visible(s, from) ==> s[i].t@ < 0,
        first_visible(s, from) < s.len() ==> s[first_visible(s, from)].t@ >= 0,
    decreases s.len() - from,
{
    if from < s.len() && s[from].t@ < 0 {
        lemma_first_visible(s, from + 1);
    }
}

/// The visible intersection of an ascending sequence is the one of least
/// non-negative parameter, and the first of those that share it; there is
/// none exactly when every parameter is negative.
pub proof fn lemma_hit_is_nearest(s: Seq<Intersection>)
    requires
        ascending(s),
    ensures
        hit_spec(s) is None <==> (forall|i: int| 0 <= i < s.len() ==> s[i].t@ < 0),
        hit_spec(s) is Some ==> {
            let k = first_visible(s, 0);
            &&& 0 <= k < s.len()
            &&& hit_spec(s) == Some(s[k])
            &&& s[k].t@ >= 0
            &&& forall|i: int| 0 <= i < k ==> s[i].t@ < 0
            &&& forall|i: int| 0 <= i < s.len() && s[i].t@ >= 0 ==> s[k].t@ <= s[i].t@
        },
{
    lemma_first_visible(s, 0);
    let k = first_visible(s, 0);
    if k < s.len() {
        assert forall|i: int| 0 <= i < s.len() && s[i].t@ >= 0 implies s[k].t@ <= s[i].t@ by {
            if i < k {
                assert(s[i].t@ < 0);
            }
        }
    }
}

/// The intersections of one ray, kept in ascending order of parameter;
/// entries of equal parameter stay in the order in which they were pushed.
#[derive(Debug)]
pub struct IntersectionHeap<'a> {
    items: Vec<Intersection<'a>>,
}

impl<'a> View for IntersectionHeap<'a> {
    type V = Seq<Intersection<'a>>;

    closed spec fn view(&self) -> Seq<Intersection<'a>> {
        self.items@
    }
}

impl<'a> IntersectionHeap<'a> {
    #[verifier::type_invariant]
    spec fn in_order(self) -> bool {
        ascending(self.items@)
    }

    pub fn new() -> (r: IntersectionHeap<'a>)
        ensures
            r@ == Seq::<Intersection<'a>>::empty(),
            ascending(r@),
    {
        IntersectionHeap { items: Vec::new() }
    }

    pub fn len(&self) -> (r: usize)
        ensures
            r == self@.len(),
            ascending(self@),
    {
        proof {
            use_type_invariant(self);
        }
        self.items.len()
    }

    /// The entry at `index`, counted from the least parameter.
    pub fn get(&self, index: usize) -> (r: Intersection<'a>)
        requires
            index < self@.len(),
        ensures
            r == self@[index as int],
    {
        self.items[index]
    }

    /// Puts `x` behind the last entry whose parameter does not exceed its
    /// own.
    pub fn push(&mut self, x: Intersection<'a>)
        ensures
            final(self)@ == insert_sorted(old(self)@, x),
            ascending(old(self)@),
            ascending(final(self)@),
    {
        proof {
            use_type_invariant(&*self);
        }
        let n: usize = self.items.len();
        let mut k: usize = 0;
        let mut items: Vec<Intersection<'a>> = Vec::new();
        while k < n && self.items[k].t.raw <= x.t.raw
            invariant
                k <= n == self.items.len(),
                self.items == old(self).items,
                position_after(self.items@, x.t, k as int) == position_after(self.items@, x.t, 0),
                items@ == self.items@.subrange(0, k as int),
            decreases n - k,
        {
            items.push(self.items[k]);
            k = k + 1;
            assert(items@ =~= self.items@.subrange(0, k as int));
        }
        items.push(x);
        let mut i: usize = k;
        while i < n
            invariant
                k <= i <= n == self.items.len(),
                self.items == old(self).items,
                items@ == self.items@.insert(k as int, x).subrange(0, i + 1),
            decreases n - i,
        {
            items.push(self.items[i]);
            i = i + 1;
            assert(items@ =~= self.items@.insert(k as int, x).subrange(0, i + 1));
        }
        proof {
            lemma_insert_sorted_ascending(self.items@, x);
            assert(items@ =~= insert_sorted(self.items@, x));
        }
        self.items = items;
    }

    /// The visible intersection: the one of least non-negative parameter,
    /// the first pushed where several share it. Intersections behind the
    /// ray's origin are passed over.
    pub fn hit(&self) -> (r: Option<Intersection<'a>>)
        ensures
            r == hit_spec(self@),
            r is None <==> (forall|i: int| 0 <= i < self@.len() ==> self@[i].t@ < 0),
            r is Some ==> {
                let k = first_visible(self@, 0);
                &&& 0 <= k < self@.len()
                &&& r == Some(self@[k])
                &&& self@[k].t@ >= 0
                &&& forall|i: int| 0 <= i < k ==> self@[i].t@ < 0
                &&& forall|i: int|
                    0 <= i < self@.len() && self@[i].t@ >= 0 ==> self@[k].t@ <= self@[i].t@
            },
    {
        proof {
            use_type_invariant(self);
            lemma_hit_is_nearest(self.items@);
        }
        let mut k: usize = 0;
        while k < self.items.len() && self.items[k].t.raw < 0
            invariant
                k <= self.items.len(),
                first_visible(self.items@, k as int) == first_visible(self.items@, 0),
            decreases self.items.len() - k,
        {
            k = k + 1;
        }
        if k < self.items.len() {
            Some(self.items[k])
        } else {
            None
        }
    }
}

} // verus!
