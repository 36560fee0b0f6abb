//! Signals and their receivers: a receiver connects to a signal, every emitted
//! value reaches each connected receiver in the order they connected, and a
//! receiver can disconnect by its id.
use crate::decimal::{dec_str, int_str, push_i64, push_u64};
use std::marker::PhantomData;
use vstd::prelude::*;

verus! {

/// A counter that hands out receiver ids.
#[derive(Copy, Clone)]
pub struct Ctr {
    pub cur: usize,
}

impl Ctr {
    /// A counter at 0.
    pub fn start() -> (r: Self)
        ensures
            r.cur == 0,
    {
        Ctr { cur: 0 }
    }

    /// The counter one further.
    pub fn next(self) -> (r: Self)
        requires
            self.cur < usize::MAX,
        ensures
            r.cur == self.cur + 1,
    {
        Ctr { cur: self.cur + 1 }
    }
}

impl From<Ctr> for usize {
    fn from(ctr: Ctr) -> (r: usize) {
        ctr.cur
    }
}

impl vstd::std_specs::convert::FromSpecImpl<Ctr> for usize {
    open spec fn obeys_from_spec() -> bool {
        true
    }

    open spec fn from_spec(ctr: Ctr) -> usize {
        ctr.cur
    }
}

/// A signal that receivers connect to.
pub trait Sig {
    type Data;

    type Receive: Rec;

    /// Whether another receiver can still be given an id.
    spec fn can_conn(&self) -> bool;

    /// Disconnects the receiver with id `id`.
    fn disc(&mut self, id: usize);

    /// Hands `data` to every connected receiver; gives the lines they report.
    fn emit(&self, data: Self::Data) -> Vec<String>;

    /// Connects a new receiver.
    fn conn(&mut self) -> Self::Receive
        requires
            old(self).can_conn(),
    ;
}

/// A receiver of a signal.
pub trait Rec {
    type Data;

    fn get_id(&self) -> usize;

    /// Takes emitted data; gives the line the receiver reports.
    fn on_emit(self, data: Self::Data) -> String;
}

/// What a kind of signal does with emitted data: the line that receiver `id`
/// reports on taking `data`.
pub trait SigHandler: Copy {
    type Data: Copy;

    /// The line that receiver `id` reports on taking `data`.
    spec fn line(id: usize, data: Self::Data) -> Seq<char>;

    fn handle(id: usize, data: Self::Data) -> (r: String)
        ensures
            r@ == Self::line(id, data),
    ;
}

/// A receiver of a signal of kind `H`, known by its id.
#[derive(Copy)]
pub struct Receiver<H: SigHandler> {
    pub id: usize,
    pub kind: PhantomData<H>,
}

impl<H: SigHandler> Clone for Receiver<H> {
    fn clone(&self) -> (r: Self)
        ensures
            r == *self,
    {
        *self
    }
}

/// A signal of kind `H`: the ids handed out so far, and the connected receivers
/// in the order they connected.
pub struct Signal<H: SigHandler> {
    ctr: Ctr,
    recs: Vec<Receiver<H>>,
}

impl<H: SigHandler> Receiver<H> {
    pub fn new(id: usize) -> (r: Self)
        ensures
            r.id == id,
    {
        Receiver { id, kind: PhantomData }
    }
}

impl<H: SigHandler> Rec for Receiver<H> {
    type Data = H::Data;

    fn get_id(&self) -> (r: usize)
        ensures
            r == self.id,
    {
        self.id
    }

    fn on_emit(self, data: Self::Data) -> (r: String)
        ensures
            r@ == H::line(self.id, data),
    {
        H::handle(self.id, data)
    }
}

/// The value that `MySig` carries.
#[derive(Copy, Clone)]
pub struct MySigData {
    pub num: i32,
}

/// The kind of `MySig`: a receiver reports the id and the number it got.
#[derive(Copy, Clone)]
pub struct MySigHandler;

/// A signal carrying `MySigData`.
pub type MySig = Signal<MySigHandler>;

/// A receiver of `MySig`.
pub type MyRec = Receiver<MySigHandler>;

/// The line that receiver `id` reports for the value `num`.
pub open spec fn rec_line(id: usize, num: i32) -> Seq<char> {
    "mySig receive R"@ + dec_str(id as nat) + " - num:"@ + int_str(num as int)
}

impl SigHandler for MySigHandler {
    type Data = MySigData;

    open spec fn line(id: usize, data: MySigData) -> Seq<char> {
        rec_line(id, data.num)
    }

    fn handle(id: usize, data: MySigData) -> (r: String) {
        let mut s = String::new();
        s.append("mySig receive R");
        push_u64(&mut s, id as u64);
        s.append(" - num:");
        push_i64(&mut s, data.num as i64);
        assert(s@ =~= rec_line(id, data.num));
        s
    }
}

/// The first index at or after `from` of a receiver with id `id`; -1 where
/// there is none.
pub open spec fn first_index<H: SigHandler>(s: Seq<Receiver<H>>, id: usize, from: int) -> int
    decreases s.len() - from,
{
    if from < 0 || from >= s.len() {
        -1
    } else if s[from].id == id {
        from
    } else {
        first_index(s, id, from + 1)
    }
}

/// The receivers once the first one with id `id` has gone, if there is one.
pub open spec fn without<H: SigHandler>(s: Seq<Receiver<H>>, id: usize) -> Seq<Receiver<H>> {
    let k = first_index(s, id, 0);
    if k >= 0 {
        s.remove(k)
    } else {
        s
    }
}

impl<H: SigHandler> Signal<H> {
    /// The number of ids handed out.
    pub closed spec fn spec_ctr(&self) -> usize {
        self.ctr.cur
    }

    /// The connected receivers, in the order they connected.
    pub closed spec fn spec_recs(&self) -> Seq<Receiver<H>> {
        self.recs@
    }

    /// The receivers' ids are distinct, rise in connection order, and are among
    /// the ids handed out (`1..=spec_ctr`).
    pub open spec fn wf(&self) -> bool {
        &&& forall|i: int, j: int|
            0 <= i < j < self.spec_recs().len() ==> #[trigger] self.spec_recs()[i].id
                < #[trigger] self.spec_recs()[j].id
        &&& forall|i: int|
            0 <= i < self.spec_recs().len() ==> 1 <= #[trigger] self.spec_recs()[i].id
                <= self.spec_ctr()
    }

    /// A signal with no receivers.
    pub fn new() -> (r: Self)
        ensures
            r.spec_ctr() == 0,
            r.spec_recs() == Seq::<Receiver<H>>::empty(),
            r.wf(),
    {
        Signal { recs: Vec::new(), ctr: Ctr::start() }
    }

    /// Hands out the next id.
    fn next(&mut self) -> (r: usize)
        requires
            old(self).spec_ctr() < usize::MAX,
        ensures
            final(self).spec_ctr() == old(self).spec_ctr() + 1,
            r == final(self).spec_ctr(),
            final(self).spec_recs() == old(self).spec_recs(),
    {
        self.ctr = self.ctr.next();
        self.ctr.into()
    }
}

/// What `conn` does: `r` has the next id and is connected last.
pub open spec fn conn_effect<H: SigHandler>(before: Signal<H>, after: Signal<H>, r: Receiver<H>) -> bool {
    &&& after.spec_ctr() == before.spec_ctr() + 1
    &&& r.id == after.spec_ctr()
    &&& after.spec_recs() == before.spec_recs().push(r)
}

/// What `disc` does: the first receiver with id `id` is gone, if there is one.
pub open spec fn disc_effect<H: SigHandler>(before: Signal<H>, after: Signal<H>, id: usize) -> bool {
    &&& after.spec_ctr() == before.spec_ctr()
    &&& after.spec_recs() == without(before.spec_recs(), id)
}

impl<H: SigHandler> Sig for Signal<H> {
    type Data = H::Data;

    type Receive = Receiver<H>;

    open spec fn can_conn(&self) -> bool {
        self.spec_ctr() < usize::MAX
    }

    fn emit(&self, data: Self::Data) -> (r: Vec<String>)
        ensures
            r@.len() == self.spec_recs().len(),
            forall|i: int|
                0 <= i < r@.len() ==> #[trigger] r@[i]@ == H::line(self.spec_recs()[i].id, data),
    {
        let mut out: Vec<String> = Vec::new();
        let mut i: usize = 0;
        while i < self.recs.len()
            invariant
                i <= self.recs@.len(),
                out@.len() == i,
                forall|k: int|
                    0 <= k < i ==> #[trigger] out@[k]@ == H::line(self.recs@[k].id, data),
            decreases self.recs@.len() - i,
        {
            let rec = self.recs[i];
            out.push(rec.on_emit(data));
            i = i + 1;
        }
        out
    }

    fn conn(&mut self) -> (r: Self::Receive)
        ensures
            conn_effect(*old(self), *final(self), r),
            old(self).wf() ==> final(self).wf(),
    {
        let id = self.next();
        let rec = Receiver::new(id);
        self.recs.push(rec);
        rec
    }

    fn disc(&mut self, id: usize)
        ensures
            disc_effect(*old(self), *final(self), id),
            old(self).wf() ==> final(self).wf(),
    {
        let mut i: usize = 0;
        while i < self.recs.len()
            invariant
                i <= self.recs@.len(),
                self.recs@ == old(self).recs@,
                self.ctr == old(self).ctr,
                first_index(self.recs@, id, 0) == first_index(self.recs@, id, i as int),
            decreases self.recs@.len() - i,
        {
            if self.recs[i].id == id {
                self.recs.remove(i);
                return;
            }
            i = i + 1;
        }
    }
}

/// A receiver that connects gets an id that no connected receiver has.
pub proof fn law_conn_fresh<H: SigHandler>(before: Signal<H>, after: Signal<H>, r: Receiver<H>)
    requires
        before.wf(),
        conn_effect(before, after, r),
    ensures
        forall|i: int| 0 <= i < before.spec_recs().len() ==> #[trigger] before.spec_recs()[i].id != r.id,
        after.wf(),
        after.spec_recs().last() == r,
{
    assert(after.spec_recs().last() == r);
    assert forall|i: int, j: int|
        0 <= i < j < after.spec_recs().len() implies #[trigger] after.spec_recs()[i].id
        < #[trigger] after.spec_recs()[j].id by {
        if j == before.spec_recs().len() {
            assert(after.spec_recs()[i] == before.spec_recs()[i]);
        } else {
            assert(after.spec_recs()[i] == before.spec_recs()[i]);
            assert(after.spec_recs()[j] == before.spec_recs()[j]);
        }
    }
    assert forall|i: int| 0 <= i < after.spec_recs().len() implies 1 <= #[trigger] after.spec_recs()[i].id
        <= after.spec_ctr() by {
        if i < before.spec_recs().len() {
            assert(after.spec_recs()[i] == before.spec_recs()[i]);
        }
    }
}

proof fn lemma_first_index<H: SigHandler>(s: Seq<Receiver<H>>, id: usize, from: int)
    requires
        0 <= from,
    ensures
        ({
            let k = first_index(s, id, from);
            &&& -1 <= k < s.len()
            &&& k >= 0 ==> from <= k && s[k].id == id
            &&& k >= 0 ==> forall|j: int| from <= j < k ==> #[trigger] s[j].id != id
            &&& k < 0 ==> forall|j: int| from <= j < s.len() ==> #[trigger] s[j].id != id
        }),
    decreases s.len() - from,
{
    if from < s.len() && s[from].id != id {
        lemma_first_index(s, id, from + 1);
    }
}

/// After a receiver disconnects, no connected receiver has its id, and the other
/// receivers stay connected in the same order.
pub proof fn law_disc_removes<H: SigHandler>(before: Signal<H>, after: Signal<H>, id: usize)
    requires
        before.wf(),
        disc_effect(before, after, id),
    ensures
        forall|i: int| 0 <= i < after.spec_recs().len() ==> #[trigger] after.spec_recs()[i].id != id,
        after.spec_recs() == before.spec_recs().filter(|r: Receiver<H>| r.id != id),
        after.wf(),
{
    let s = before.spec_recs();
    lemma_first_index(s, id, 0);
    let k = first_index(s, id, 0);
    let f = s.filter(|r: Receiver<H>| r.id != id);
    if k >= 0 {
        assert forall|i: int| 0 <= i < s.len() && i != k implies #[trigger] s[i].id != id by {
            if i < k {
            } else {
                assert(s[k].id < s[i].id);
            }
        }
        assert(after.spec_recs() =~= s.remove(k));
        lemma_filter_skip(s, id, k);
    } else {
        lemma_filter_none(s, id);
    }
    assert forall|i: int, j: int|
        0 <= i < j < after.spec_recs().len() implies #[trigger] after.spec_recs()[i].id
        < #[trigger] after.spec_recs()[j].id by {
        if k >= 0 {
            let ii = if i < k { i } else { i + 1 };
            let jj = if j < k { j } else { j + 1 };
            assert(after.spec_recs()[i] == s[ii]);
            assert(after.spec_recs()[j] == s[jj]);
            assert(s[ii].id < s[jj].id);
        }
    }
    assert forall|i: int| 0 <= i < after.spec_recs().len() implies 1 <= #[trigger] after.spec_recs()[i].id
        <= after.spec_ctr() by {
        if k >= 0 {
            let ii = if i < k { i } else { i + 1 };
            assert(after.spec_recs()[i] == s[ii]);
        }
    }
}

proof fn lemma_filter_none<H: SigHandler>(s: Seq<Receiver<H>>, id: usize)
    requires
        forall|j: int| 0 <= j < s.len() ==> #[trigger] s[j].id != id,
    ensures
        s.filter(|r: Receiver<H>| r.id != id) == s,
    decreases s.len(),
{
    reveal_with_fuel(Seq::filter, 1);
    if s.len() > 0 {
        let t = s.drop_last();
        assert forall|j: int| 0 <= j < t.len() implies #[trigger] t[j].id != id by {
            assert(t[j] == s[j]);
        }
        lemma_filter_none(t, id);
        assert(s =~= t.push(s.last()));
    } else {
        assert(s.filter(|r: Receiver<H>| r.id != id) =~= s);
    }
}

proof fn lemma_filter_skip<H: SigHandler>(s: Seq<Receiver<H>>, id: usize, k: int)
    requires
        0 <= k < s.len(),
        s[k].id == id,
        forall|j: int| 0 <= j < s.len() && j != k ==> #[trigger] s[j].id != id,
    ensures
        s.filter(|r: Receiver<H>| r.id != id) == s.remove(k),
    decreases s.len(),
{
    reveal_with_fuel(Seq::filter, 1);
    let t = s.drop_last();
    if k == s.len() - 1 {
        assert forall|j: int| 0 <= j < t.len() implies #[trigger] t[j].id != id by {
            assert(t[j] == s[j]);
        }
        lemma_filter_none(t, id);
        assert(s.remove(k) =~= t);
    } else {
        assert forall|j: int| 0 <= j < t.len() && j != k implies #[trigger] t[j].id != id by {
            assert(t[j] == s[j]);
        }
        lemma_filter_skip(t, id, k);
        assert(s.remove(k) =~= t.remove(k).push(s.last()));
    }
}

} // verus!
