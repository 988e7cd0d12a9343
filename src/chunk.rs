//! Cutting one positioned transfer into requests of bounded size.
//!
//! A platform may cap how many bytes a single read or write request can
//! carry. A transfer longer than that cap is made of several requests, each
//! at the position where the previous one stopped. A request that moves no
//! byte ends the transfer early: the count moved so far is its result, and
//! that is not an error.
use vstd::prelude::*;

verus! {

/// The state of a transfer, as a mathematical value.
pub ghost struct TransferModel {
    /// File offset of the first byte of the transfer.
    pub start: int,
    /// Number of bytes the caller asked to move.
    pub len: int,
    /// Largest number of bytes a single request may carry.
    pub max: int,
    /// Number of bytes moved so far.
    pub done: int,
    /// Whether a request has moved no byte.
    pub stopped: bool,
}

impl TransferModel {
    /// The state in which a transfer starts.
    pub open spec fn initial(start: int, len: int, max: int) -> TransferModel {
        TransferModel { start, len, max, done: 0, stopped: false }
    }

    pub open spec fn wf(self) -> bool {
        &&& 0 < self.max
        &&& 0 <= self.done <= self.len
        &&& 0 <= self.start
        &&& self.start + self.len <= u64::MAX + 1
    }

    /// No further request is made: everything was moved, or a request moved nothing.
    pub open spec fn finished(self) -> bool {
        self.stopped || self.done == self.len
    }

    /// Size of the next request: what is left, up to the cap.
    pub open spec fn chunk(self) -> int {
        if self.len - self.done <= self.max {
            self.len - self.done
        } else {
            self.max
        }
    }

    /// The state after the next request moved `moved` bytes.
    pub open spec fn after(self, moved: int) -> TransferModel {
        TransferModel { done: self.done + moved, stopped: moved == 0, ..self }
    }

    /// A request's report is admissible: it moved at most what it carried.
    pub open spec fn admits(self, moved: int) -> bool {
        0 <= moved <= self.chunk()
    }

    /// The state after feeding the reports in `moves` to the transfer, one per
    /// request, until it finishes. Reports left over once it has finished are
    /// ignored.
    pub open spec fn run(self, moves: Seq<int>) -> TransferModel
        decreases moves.len(),
    {
        if moves.len() == 0 || self.finished() {
            self
        } else {
            self.after(moves[0]).run(moves.drop_first())
        }
    }

    /// The state reached when every request moves all it carries.
    pub open spec fn run_full(self) -> TransferModel
        recommends
            self.wf(),
        decreases self.len - self.done,
        when self.wf()
    {
        if self.finished() {
            self
        } else {
            self.after(self.chunk()).run_full()
        }
    }

    /// How many requests are made when every request moves all it carries.
    pub open spec fn requests_full(self) -> int
        recommends
            self.wf(),
        decreases self.len - self.done,
        when self.wf()
    {
        if self.finished() {
            0
        } else {
            1 + self.after(self.chunk()).requests_full()
        }
    }
}

/// The largest number of bytes that one overlapped read or write request
/// can carry: its length is a 32-bit unsigned count.
pub const MAX_OVERLAPPED_REQUEST: usize = 0xffff_ffff;

/// One request of a transfer: move the bytes `start..end` of the caller's
/// buffer to or from file offset `pos`.
#[derive(Clone, Copy, Debug, PartialEq, Eq, Structural)]
pub struct Request {
    pub pos: u64,
    pub start: usize,
    pub end: usize,
}

/// A transfer of `len` bytes at a file offset, made of requests of at most
/// `max` bytes each.
#[derive(Debug)]
pub struct ChunkedTransfer {
    start: u64,
    len: usize,
    max: usize,
    done: usize,
    stopped: bool,
}

impl View for ChunkedTransfer {
    type V = TransferModel;

    closed spec fn view(&self) -> TransferModel {
        TransferModel {
            start: self.start as int,
            len: self.len as int,
            max: self.max as int,
            done: self.done as int,
            stopped: self.stopped,
        }
    }
}

impl ChunkedTransfer {
    pub open spec fn wf(&self) -> bool {
        self@.wf()
    }

    /// Starts a transfer of `len` bytes at offset `pos`, with requests of at
    /// most `max` bytes.
    pub fn new(pos: u64, len: usize, max: usize) -> (r: ChunkedTransfer)
        requires
            0 < max,
            pos + len <= u64::MAX + 1,
        ensures
            r.wf(),
            r@ == TransferModel::initial(pos as int, len as int, max as int),
    {
        ChunkedTransfer { start: pos, len, max, done: 0, stopped: false }
    }

    /// The next request to make, or `None` once the transfer is finished.
    pub fn next_request(&self) -> (r: Option<Request>)
        requires
            self.wf(),
        ensures
            self@.finished() <==> r is None,
            r matches Some(q) ==> {
                &&& q.pos == self@.start + self@.done
                &&& q.start == self@.done
                &&& q.end == self@.done + self@.chunk()
                &&& q.start < q.end
            },
    {
        if self.stopped || self.done == self.len {
            return None;
        }
        let left = self.len - self.done;
        let size = if left <= self.max { left } else { self.max };
        Some(Request { pos: self.start + self.done as u64, start: self.done, end: self.done + size })
    }

    /// Records that the current request moved `moved` bytes.
    pub fn complete(&mut self, moved: usize)
        requires
            old(self).wf(),
            !old(self)@.finished(),
            old(self)@.admits(moved as int),
        ensures
            final(self).wf(),
            final(self)@ == old(self)@.after(moved as int),
            moved == 0 ==> final(self)@.finished() && final(self)@.done == old(self)@.done,
    {
        self.done = self.done + moved;
        self.stopped = moved == 0;
    }

    /// Whether no further request is to be made.
    pub fn is_finished(&self) -> (r: bool)
        ensures
            r == self@.finished(),
    {
        self.stopped || self.done == self.len
    }

    /// Number of bytes moved so far: the result of the transfer once it is finished.
    pub fn total(&self) -> (r: usize)
        ensures
            r == self@.done,
    {
        self.done
    }
}

/// Sum of the reports in `moves`.
pub open spec fn moved_by(moves: Seq<int>) -> int
    decreases moves.len(),
{
    if moves.len() == 0 {
        0
    } else {
        moves[0] + moved_by(moves.drop_first())
    }
}

proof fn lemma_run_full_from(m: TransferModel)
    requires
        m.wf(),
        !m.stopped,
    ensures
        m.run_full().done == m.len,
        !m.run_full().stopped,
        m.requests_full() == (m.len - m.done + m.max - 1) / m.max,
    decreases m.len - m.done,
{
    let x = m.len - m.done;
    let b = m.max;
    if m.finished() {
        assert((x + b - 1) / b == 0) by (nonlinear_arith)
            requires
                x == 0,
                0 < b,
        ;
    } else {
        let n = m.after(m.chunk());
        lemma_run_full_from(n);
        if x <= b {
            assert((x + b - 1) / b == 1) by (nonlinear_arith)
                requires
                    0 < x <= b,
            ;
            assert((n.len - n.done + b - 1) / b == 0) by (nonlinear_arith)
                requires
                    n.len - n.done == 0,
                    0 < b,
            ;
        } else {
            assert((x + b - 1) / b == 1 + (x - b + b - 1) / b) by (nonlinear_arith)
                requires
                    0 < b < x,
            ;
        }
    }
}

/// When every request moves all the bytes it carries, a transfer of `len`
/// bytes with requests of at most `max` bytes moves the whole payload, in
/// `len / max` requests rounded up.
pub proof fn lemma_full_requests_move_everything(start: u64, len: usize, max: usize)
    requires
        0 < max,
        start + len <= u64::MAX + 1,
    ensures
        TransferModel::initial(start as int, len as int, max as int).run_full().done == len,
        !TransferModel::initial(start as int, len as int, max as int).run_full().stopped,
        TransferModel::initial(start as int, len as int, max as int).requests_full() == (len
            + max - 1) / max as int,
{
    lemma_run_full_from(TransferModel::initial(start as int, len as int, max as int));
}

proof fn lemma_run_positive(m: TransferModel, moves: Seq<int>)
    requires
        !m.stopped,
        forall|i: int| 0 <= i < moves.len() ==> moves[i] > 0,
        !m.run(moves).finished(),
    ensures
        m.run(moves) == (TransferModel { done: m.done + moved_by(moves), ..m }),
    decreases moves.len(),
{
    if moves.len() > 0 {
        if m.finished() {
            assert(m.run(moves) == m);
        } else {
            let rest = moves.drop_first();
            assert forall|i: int| 0 <= i < rest.len() implies rest[i] > 0 by {
                assert(rest[i] == moves[i + 1]);
            }
            lemma_run_positive(m.after(moves[0]), rest);
        }
    }
}

proof fn lemma_run_append(m: TransferModel, a: Seq<int>, b: Seq<int>)
    requires
        !m.run(a).finished(),
    ensures
        m.run(a + b) == m.run(a).run(b),
        !m.finished() || a.len() == 0,
    decreases a.len(),
{
    if a.len() > 0 {
        if m.finished() {
            assert(m.run(a) == m);
        } else {
            assert((a + b).drop_first() == a.drop_first() + b);
            lemma_run_append(m.after(a[0]), a.drop_first(), b);
        }
    } else {
        assert(a + b == b);
    }
}

/// A request that moves no byte ends the transfer: after requests that each
/// moved something, a request that moves nothing leaves the count at what
/// was moved before it, and no later request is made.
pub proof fn lemma_zero_request_ends_transfer(
    m: TransferModel,
    moved: Seq<int>,
    later: Seq<int>,
)
    requires
        !m.stopped,
        forall|i: int| 0 <= i < moved.len() ==> moved[i] > 0,
        !m.run(moved).finished(),
    ensures
        m.run(moved + seq![0int] + later).done == m.done + moved_by(moved),
        m.run(moved + seq![0int] + later).stopped,
        m.run(moved + seq![0int] + later).finished(),
{
    lemma_run_positive(m, moved);
    let z = seq![0int] + later;
    lemma_run_append(m, moved, z);
    let p = m.run(moved);
    assert(z[0] == 0);
    assert(p.run(z) == p.after(0).run(z.drop_first()));
    assert(p.after(0).finished());
    assert(moved + seq![0int] + later == moved + z);
}

} // verus!
