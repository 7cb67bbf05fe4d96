//! The download queue: a first-in, first-out queue of Spotify items that
//! never holds the same item twice.
use vstd::prelude::*;

verus! {

/// The kind of Spotify object that a queued item names.
#[derive(PartialEq, Eq, Structural, Debug, Clone, Copy)]
pub enum ItemType {
    Album,
    Track,
    Artist,
    Playlist,
}

/// A request to download one Spotify object.
#[derive(Debug)]
pub struct Item {
    pub id: String,
    pub name: String,
    pub item_type: ItemType,
}

/// What an item is, as plain values.
pub struct ItemView {
    pub id: Seq<char>,
    pub name: Seq<char>,
    pub item_type: ItemType,
}

impl View for Item {
    type V = ItemView;

    open spec fn view(&self) -> ItemView {
        ItemView { id: self.id@, name: self.name@, item_type: self.item_type }
    }
}

impl PartialEq for Item {
    fn eq(&self, other: &Self) -> (r: bool) {
        self.id == other.id && self.name == other.name && self.item_type == other.item_type
    }
}

impl vstd::std_specs::cmp::PartialEqSpecImpl for Item {
    open spec fn obeys_eq_spec() -> bool {
        true
    }

    open spec fn eq_spec(&self, other: &Item) -> bool {
        self.id@ == other.id@ && self.name@ == other.name@ && self.item_type == other.item_type
    }
}

/// The queue that `add` leaves behind: unchanged when the item is already
/// queued, otherwise the item joins at the back.
pub open spec fn queue_after_add(q: Seq<ItemView>, x: ItemView) -> Seq<ItemView> {
    if q.contains(x) {
        q
    } else {
        q.push(x)
    }
}

/// What `next` hands out, and the queue that it leaves behind.
pub open spec fn queue_after_next(q: Seq<ItemView>) -> (Option<ItemView>, Seq<ItemView>) {
    if q.len() == 0 {
        (None, q)
    } else {
        (Some(q[0]), q.drop_first())
    }
}

/// A FIFO queue of items to download, with no item in it twice.
#[derive(Debug)]
pub struct DownloadQueue {
    queue: Vec<Item>,
}

impl View for DownloadQueue {
    type V = Seq<ItemView>;

    closed spec fn view(&self) -> Seq<ItemView> {
        self.queue@.map_values(|i: Item| i@)
    }
}

impl DownloadQueue {
    /// The queue's invariant: no item is queued twice.
    pub open spec fn wf(&self) -> bool {
        self@.no_duplicates()
    }

    /// An empty queue.
    pub fn new() -> (q: Self)
        ensures
            q.wf(),
            q@ == Seq::<ItemView>::empty(),
    {
        let q = DownloadQueue { queue: Vec::new() };
        assert(q@ =~= Seq::<ItemView>::empty());
        q
    }

    /// Whether an item equal to `item` is queued.
    fn contains(&self, item: &Item) -> (r: bool)
        ensures
            r == self@.contains(item@),
    {
        let n = self.queue.len();
        let mut i: usize = 0;
        while i < n
            invariant
                n == self.queue@.len(),
                i <= n,
                forall|j: int| 0 <= j < i ==> self@[j] != item@,
            decreases n - i,
        {
            if self.queue[i] == *item {
                assert(self@[i as int] == item@);
                return true;
            }
            i = i + 1;
        }
        false
    }

    /// Queues `item` at the back, unless an equal item is queued already.
    pub fn add(&mut self, item: Item)
        requires
            old(self).wf(),
        ensures
            final(self).wf(),
            final(self)@ == queue_after_add(old(self)@, item@),
    {
        let exists = self.contains(&item);
        if exists {
            return;
        }
        let ghost v = item@;
        self.queue.push(item);
        proof {
            assert(self@ =~= old(self)@.push(v));
            assert forall|a: int, b: int| 0 <= a < b < self@.len() implies self@[a] != self@[b] by {
                if b == self@.len() - 1 {
                    assert(old(self)@[a] == self@[a]);
                }
            }
        }
    }

    /// Takes the item at the front of the queue, if there is one.
    pub fn next(&mut self) -> (r: Option<Item>)
        requires
            old(self).wf(),
        ensures
            final(self).wf(),
            r matches Some(it) ==> queue_after_next(old(self)@) == (Some(it@), final(self)@),
            r is None ==> queue_after_next(old(self)@) == (None::<ItemView>, final(self)@),
    {
        if !self.queue.is_empty() {
            let it = self.queue.remove(0);
            proof {
                assert(self@ =~= old(self)@.drop_first());
                assert forall|a: int, b: int| 0 <= a < b < self@.len() implies self@[a] != self@[b] by {
                    assert(self@[a] == old(self)@[a + 1]);
                    assert(self@[b] == old(self)@[b + 1]);
                }
            }
            Some(it)
        } else {
            None
        }
    }
}

/// The queue left by offering each item of `xs` in turn, starting from `q`.
pub open spec fn queue_after_add_all(q: Seq<ItemView>, xs: Seq<ItemView>) -> Seq<ItemView>
    decreases xs.len(),
{
    if xs.len() == 0 {
        q
    } else {
        queue_after_add(queue_after_add_all(q, xs.drop_last()), xs.last())
    }
}

/// Offering an item a second time changes nothing.
pub proof fn law_add_idempotent(q: Seq<ItemView>, x: ItemView)
    ensures
        queue_after_add(queue_after_add(q, x), x) == queue_after_add(q, x),
{
    if !q.contains(x) {
        assert(q.push(x)[q.len() as int] == x);
    }
}

/// Adding an item behind a different front item does not change what `next`
/// hands out, and adding commutes with taking that front item.
pub proof fn law_add_keeps_front(q: Seq<ItemView>, x: ItemView)
    requires
        q.len() > 0,
        q[0] != x,
    ensures
        queue_after_next(queue_after_add(q, x)).0 == queue_after_next(q).0,
        queue_after_next(queue_after_add(q, x)).1 == queue_after_add(queue_after_next(q).1, x),
{
    if q.contains(x) {
        let k = choose|k: int| 0 <= k < q.len() && q[k] == x;
        assert(k > 0);
        assert(q.drop_first()[k - 1] == x);
    } else {
        assert(q.push(x).drop_first() =~= q.drop_first().push(x));
        assert forall|k: int| 0 <= k < q.drop_first().len() implies q.drop_first()[k] != x by {
            assert(q[k + 1] == q.drop_first()[k]);
        }
    }
}

/// In the offers `xs`, every offer of `v` comes after some offer of `u`.
pub open spec fn offered_before(xs: Seq<ItemView>, u: ItemView, v: ItemView) -> bool {
    forall|b: int| 0 <= b < xs.len() && xs[b] == v ==> exists|a: int| 0 <= a < b && xs[a] == u
}

/// Offering the items of `xs` one by one to an empty queue queues each
/// offered item exactly once, in the order of its first offer.
pub proof fn law_add_all_first_offer_order(xs: Seq<ItemView>)
    ensures
        queue_after_add_all(Seq::empty(), xs).no_duplicates(),
        forall|x: ItemView| queue_after_add_all(Seq::empty(), xs).contains(x) <==> xs.contains(x),
        forall|i: int, j: int|
            0 <= i < j < queue_after_add_all(Seq::empty(), xs).len() ==> offered_before(
                xs,
                #[trigger] queue_after_add_all(Seq::empty(), xs)[i],
                #[trigger] queue_after_add_all(Seq::empty(), xs)[j],
            ),
    decreases xs.len(),
{
    let r = queue_after_add_all(Seq::empty(), xs);
    if xs.len() == 0 {
        assert(r.len() == 0);
    } else {
        let ys = xs.drop_last();
        let x = xs.last();
        law_add_all_first_offer_order(ys);
        let r0 = queue_after_add_all(Seq::empty(), ys);
        assert forall|y: ItemView| xs.contains(y) <==> (ys.contains(y) || y == x) by {
            if xs.contains(y) && y != x {
                let k = choose|k: int| 0 <= k < xs.len() && xs[k] == y;
                assert(ys[k] == y);
            }
            if ys.contains(y) {
                let k = choose|k: int| 0 <= k < ys.len() && ys[k] == y;
                assert(xs[k] == y);
            }
            if y == x {
                assert(xs[xs.len() - 1] == y);
            }
        }
        if r0.contains(x) {
            assert(r == r0);
            assert forall|i: int, j: int| 0 <= i < j < r.len() implies offered_before(
                xs,
                r[i],
                r[j],
            ) by {
                assert(offered_before(ys, r0[i], r0[j]));
                assert forall|b: int| 0 <= b < xs.len() && xs[b] == r[j] implies exists|a: int|
                    0 <= a < b && xs[a] == r[i] by {
                    if b < ys.len() {
                        assert(ys[b] == r0[j]);
                        let a = choose|a: int| 0 <= a < b && ys[a] == r0[i];
                        assert(xs[a] == r[i]);
                    } else {
                        assert(ys.contains(x));
                        let b0 = choose|b0: int| 0 <= b0 < ys.len() && ys[b0] == x;
                        assert(ys[b0] == r0[j]);
                        let a = choose|a: int| 0 <= a < b0 && ys[a] == r0[i];
                        assert(xs[a] == r[i]);
                    }
                }
            }
        } else {
            assert(r == r0.push(x));
            assert(!ys.contains(x));
            assert forall|a: int, c: int| 0 <= a < c < r.len() implies r[a] != r[c] by {
                if c == r.len() - 1 {
                    assert(r0[a] == r[a]);
                    assert(r0.contains(r0[a]));
                }
            }
            assert forall|y: ItemView| r.contains(y) <==> xs.contains(y) by {
                if r.contains(y) && y != x {
                    let k = choose|k: int| 0 <= k < r.len() && r[k] == y;
                    assert(r0[k] == y);
                }
                if r0.contains(y) {
                    let k = choose|k: int| 0 <= k < r0.len() && r0[k] == y;
                    assert(r[k] == y);
                }
                if y == x {
                    assert(r[r.len() - 1] == y);
                }
            }
            assert forall|i: int, j: int| 0 <= i < j < r.len() implies offered_before(
                xs,
                r[i],
                r[j],
            ) by {
                assert(r[i] == r0[i]);
                assert forall|b: int| 0 <= b < xs.len() && xs[b] == r[j] implies exists|a: int|
                    0 <= a < b && xs[a] == r[i] by {
                    if j < r0.len() {
                        assert(r[j] == r0[j]);
                        assert(offered_before(ys, r0[i], r0[j]));
                        if b < ys.len() {
                            assert(ys[b] == r0[j]);
                            let a = choose|a: int| 0 <= a < b && ys[a] == r0[i];
                            assert(xs[a] == r[i]);
                        } else {
                            assert(r0.contains(r0[j]));
                            assert(false);
                        }
                    } else {
                        assert(r[j] == x);
                        if b < ys.len() {
                            assert(ys[b] == x);
                            assert(false);
                        }
                        assert(r0.contains(r0[i]));
                        assert(ys.contains(r0[i]));
                        let a = choose|a: int| 0 <= a < ys.len() && ys[a] == r0[i];
                        assert(xs[a] == r[i]);
                    }
                }
            }
        }
    }
}

} // verus!
