use vstd::prelude::*;
use crate::decimal::{decimal, decimal_text, lemma_decimal_injective};
use crate::types::{Toast, ToastType};

verus! {

/// `s` without the toasts whose id is `id`, in the same order.
pub open spec fn without_id(s: Seq<Toast>, id: Seq<char>) -> Seq<Toast>
    decreases s.len(),
{
    if s.len() == 0 {
        s
    } else if s[0].id@ == id {
        without_id(s.skip(1), id)
    } else {
        seq![s[0]] + without_id(s.skip(1), id)
    }
}

/// No two toasts of `s` share an id.
pub open spec fn ids_unique(s: Seq<Toast>) -> bool {
    forall|i: int, j: int| 0 <= i < j < s.len() ==> s[i].id@ != s[j].id@
}

/// Some toast of `s` has the id `id`.
pub open spec fn has_id(s: Seq<Toast>, id: Seq<char>) -> bool {
    exists|i: int| 0 <= i < s.len() && s[i].id@ == id
}

/// `id` is the decimal text of a number below `n`.
pub open spec fn issued_below(id: Seq<char>, n: nat) -> bool {
    exists|k: nat| k < n && id == decimal(k)
}

/// Removing an id twice leaves the same toasts as removing it once.
pub proof fn lemma_remove_idempotent(s: Seq<Toast>, id: Seq<char>)
    ensures
        without_id(without_id(s, id), id) == without_id(s, id),
    decreases s.len(),
{
    if s.len() > 0 {
        lemma_remove_idempotent(s.skip(1), id);
        if s[0].id@ != id {
            let w = without_id(s.skip(1), id);
            let t = seq![s[0]] + w;
            assert(t[0] == s[0]);
            assert(t.skip(1) =~= w);
        }
    }
}

/// Each toast left by a removal is a toast of the sequence it came from, and
/// none of them has the removed id.
proof fn lemma_without_id_members(s: Seq<Toast>, id: Seq<char>)
    ensures
        without_id(s, id).len() <= s.len(),
        forall|j: int|
            0 <= j < without_id(s, id).len() ==> exists|k: int|
                0 <= k < s.len() && #[trigger] without_id(s, id)[j] == s[k],
        !has_id(without_id(s, id), id),
        ids_unique(s) ==> ids_unique(without_id(s, id)),
    decreases s.len(),
{
    if s.len() > 0 {
        let tail = s.skip(1);
        lemma_without_id_members(tail, id);
        let w = without_id(tail, id);
        if s[0].id@ != id {
            let r = seq![s[0]] + w;
            assert forall|j: int| 0 <= j < r.len() implies exists|k: int|
                0 <= k < s.len() && #[trigger] r[j] == s[k] by {
                if j == 0 {
                    assert(r[j] == s[0]);
                } else {
                    assert(r[j] == w[j - 1]);
                    let k = choose|k: int| 0 <= k < tail.len() && w[j - 1] == tail[k];
                    assert(r[j] == s[k + 1]);
                }
            }
            assert(!has_id(r, id)) by {
                assert forall|j: int| 0 <= j < r.len() implies r[j].id@ != id by {
                    if j > 0 {
                        assert(r[j] == w[j - 1]);
                    }
                }
            }
            if ids_unique(s) {
                assert(ids_unique(tail)) by {
                    assert forall|i: int, j: int| 0 <= i < j < tail.len() implies tail[i].id@
                        != tail[j].id@ by {
                        assert(tail[i] == s[i + 1]);
                        assert(tail[j] == s[j + 1]);
                    }
                }
                assert forall|i: int, j: int| 0 <= i < j < r.len() implies r[i].id@
                    != r[j].id@ by {
                    assert(r[j] == w[j - 1]);
                    if i == 0 {
                        let k = choose|k: int| 0 <= k < tail.len() && w[j - 1] == tail[k];
                        assert(tail[k] == s[k + 1]);
                    } else {
                        assert(r[i] == w[i - 1]);
                    }
                }
            }
        } else {
            assert forall|j: int| 0 <= j < w.len() implies exists|k: int|
                0 <= k < s.len() && #[trigger] w[j] == s[k] by {
                let k = choose|k: int| 0 <= k < tail.len() && w[j] == tail[k];
                assert(w[j] == s[k + 1]);
            }
            if ids_unique(s) {
                assert(ids_unique(tail)) by {
                    assert forall|i: int, j: int| 0 <= i < j < tail.len() implies tail[i].id@
                        != tail[j].id@ by {
                        assert(tail[i] == s[i + 1]);
                        assert(tail[j] == s[j + 1]);
                    }
                }
            }
        }
    }
}

/// What a push of a toast of `kind` with `message` onto `old` leaves: `new`
/// and the returned id `r`. The id is the decimal text of the queue's counter;
/// only once the counter is spent does a push refuse, with `None`.
pub open spec fn push_outcome(
    old: ToastQueue,
    new: ToastQueue,
    kind: ToastType,
    message: Seq<char>,
    r: Option<String>,
) -> bool {
    &&& new.wf()
    &&& (old.next_id_spec() < u64::MAX <==> r.is_some())
    &&& r.is_none() ==> new == old
    &&& r matches Some(id) ==> {
        &&& new@.len() == old@.len() + 1
        &&& new@.take(old@.len() as int) == old@
        &&& new@.last().id@ == id@
        &&& new@.last().toast_type == kind
        &&& new@.last().message@ == message
        &&& new@.last().duration.is_none()
        &&& id@ == decimal(old.next_id_spec())
        &&& !has_id(old@, id@)
        &&& new.next_id_spec() == old.next_id_spec() + 1
    }
}

/// The notifications on display, in the order they were pushed (oldest
/// first), each with an id that no other toast of the queue has.
pub struct ToastQueue {
    toasts: Vec<Toast>,
    next_id: u64,
}

impl View for ToastQueue {
    type V = Seq<Toast>;

    closed spec fn view(&self) -> Seq<Toast> {
        self.toasts@
    }
}

impl ToastQueue {
    /// The number from which the next id is made.
    pub closed spec fn next_id_spec(&self) -> nat {
        self.next_id as nat
    }

    /// Ids are unique, and each is the decimal text of a number already
    /// handed out.
    pub open spec fn wf(&self) -> bool {
        &&& ids_unique(self@)
        &&& forall|i: int|
            0 <= i < self@.len() ==> #[trigger] issued_below(self@[i].id@, self.next_id_spec())
    }

    /// An empty queue.
    pub fn new() -> (r: Self)
        ensures
            r.wf(),
            r@.len() == 0,
            r.next_id_spec() == 0,
    {
        ToastQueue { toasts: Vec::new(), next_id: 0 }
    }

    pub fn toasts(&self) -> (r: &Vec<Toast>)
        ensures
            r@ == self@,
    {
        &self.toasts
    }

    pub fn len(&self) -> (r: usize)
        ensures
            r == self@.len(),
    {
        self.toasts.len()
    }

    /// Appends a toast of `kind` with `message` and a fresh id, and returns
    /// that id (see `push_outcome`).
    pub fn push(&mut self, kind: ToastType, message: String) -> (r: Option<String>)
        requires
            old(self).wf(),
        ensures
            push_outcome(*old(self), *final(self), kind, message@, r),
            r.is_some() ==> final(self)@.last().message == message,
    {
        if self.next_id == u64::MAX {
            return None;
        }
        let n = self.next_id;
        let id = decimal_text(n);
        let returned = id.clone();
        let ghost before = self.toasts@;
        proof {
            assert(before == old(self)@);
            assert forall|i: int| 0 <= i < before.len() implies before[i].id@ != id@ by {
                assert(issued_below(old(self)@[i].id@, old(self).next_id_spec()));
                let k = choose|k: nat| k < n && before[i].id@ == decimal(k);
                if before[i].id@ == id@ {
                    lemma_decimal_injective(k, n as nat);
                }
            }
        }
        self.toasts.push(Toast { id, toast_type: kind, message, duration: None });
        self.next_id = n + 1;
        proof {
            let after = self.toasts@;
            assert(after.take(before.len() as int) =~= before);
            assert forall|i: int| 0 <= i < after.len() implies #[trigger] issued_below(
                after[i].id@,
                self.next_id as nat,
            ) by {
                if i < before.len() {
                    assert(after[i] == before[i]);
                    assert(issued_below(old(self)@[i].id@, old(self).next_id_spec()));
                    let k = choose|k: nat| k < n && before[i].id@ == decimal(k);
                    assert(k < self.next_id);
                } else {
                    assert(after[i].id@ == decimal(n as nat));
                }
            }
            assert forall|i: int, j: int| 0 <= i < j < after.len() implies after[i].id@
                != after[j].id@ by {
                assert(after[i] == before[i]);
                if j < before.len() {
                    assert(after[j] == before[j]);
                }
            }
        }
        Some(returned)
    }

    /// Removes the toast whose id is `id`. Removing an id that the queue does
    /// not hold changes nothing and is no error.
    pub fn remove(&mut self, id: &String)
        requires
            old(self).wf(),
        ensures
            final(self).wf(),
            final(self)@ == without_id(old(self)@, id@),
            final(self).next_id_spec() == old(self).next_id_spec(),
    {
        let ghost orig = self.toasts@;
        let mut i: usize = self.toasts.len();
        assert(orig.skip(orig.len() as int) =~= Seq::<Toast>::empty());
        assert(orig.take(orig.len() as int) =~= orig);
        while i > 0
            invariant
                0 <= i <= orig.len(),
                self.next_id == old(self).next_id,
                self.toasts@ == orig.take(i as int) + without_id(orig.skip(i as int), id@),
            decreases i,
        {
            i = i - 1;
            let ghost rest = without_id(orig.skip(i as int + 1), id@);
            assert(orig.skip(i as int).skip(1) =~= orig.skip(i as int + 1));
            assert(orig.skip(i as int)[0] == orig[i as int]);
            assert(self.toasts@[i as int] == orig[i as int]);
            if self.toasts[i].id == *id {
                self.toasts.remove(i);
                assert(self.toasts@ =~= orig.take(i as int) + without_id(orig.skip(i as int), id@));
            } else {
                assert(self.toasts@ =~= orig.take(i as int) + without_id(orig.skip(i as int), id@));
            }
        }
        assert(orig.skip(0) =~= orig);
        assert(orig.take(0) + without_id(orig, id@) =~= without_id(orig, id@));
        proof {
            lemma_without_id_members(orig, id@);
            let w = self.toasts@;
            assert forall|j: int| 0 <= j < w.len() implies #[trigger] issued_below(
                w[j].id@,
                self.next_id as nat,
            ) by {
                let k = choose|k: int| 0 <= k < orig.len() && w[j] == orig[k];
                assert(orig == old(self)@);
                assert(issued_below(old(self)@[k].id@, old(self).next_id_spec()));
            }
        }
    }
}

} // verus!
