//! Frame-shipping replication: the frame log abstraction and the replica
//! apply/sync engine.
//!
//! A frame is one write-ahead-log page-delta unit with a monotonic frame
//! number. Frames must be applied in strictly increasing frame-number
//! order with no gaps; the replica's cursor records the last applied
//! frame number and advances only when a frame is applied.

use vstd::prelude::*;

use crate::errors::Error;

verus! {

/// Monotonic frame sequence number. `0` means "nothing applied yet";
/// the first frame of a stream is number `1`.
pub type FrameNo = u64;

/// One write-ahead-log frame: its sequence number, its page payload,
/// and whether it commits a transaction.
#[derive(Clone, Debug)]
pub struct Frame {
    pub frame_no: FrameNo,
    pub page: Vec<u8>,
    pub commit: bool,
}

/// A full-database image used to bootstrap or fast-forward a replica
/// when incremental frames are unavailable: the page payloads of the
/// image and the frame number the image corresponds to.
#[derive(Clone, Debug)]
pub struct TempSnapshot {
    pub baseline_frame_no: FrameNo,
    pub pages: Vec<Vec<u8>>,
}

/// What one sync attempt consumes: either an explicit ordered frame
/// batch or a snapshot image. Constructed per attempt, applied once.
#[derive(Clone, Debug)]
pub enum Frames {
    /// An ordered sequence of frames.
    Vec(Vec<Frame>),
    /// A snapshot image plus its baseline frame number.
    Snapshot(TempSnapshot),
}

/// Mathematical state of a replica: the cursor, the committed page log,
/// and the pages applied since the last committing frame.
pub ghost struct ReplicaModel {
    pub cursor: FrameNo,
    pub committed: Seq<Seq<u8>>,
    pub pending: Seq<Seq<u8>>,
}

/// A frame can be applied exactly when its number is one past the cursor.
pub open spec fn frame_applicable(m: ReplicaModel, f: Frame) -> bool {
    m.cursor < u64::MAX && f.frame_no == m.cursor + 1
}

/// Effect of applying one applicable frame: the page is staged; a
/// committing frame makes all staged pages durable.
pub open spec fn apply_one(m: ReplicaModel, f: Frame) -> ReplicaModel {
    if f.commit {
        ReplicaModel {
            cursor: f.frame_no,
            committed: m.committed + m.pending.push(f.page@),
            pending: Seq::empty(),
        }
    } else {
        ReplicaModel { cursor: f.frame_no, committed: m.committed, pending: m.pending.push(f.page@) }
    }
}

/// A frame sequence is valid from a cursor when its numbers are exactly
/// `cursor + 1, cursor + 2, ...` and the last one still fits in the
/// cursor's range.
pub open spec fn frames_valid_from(cursor: FrameNo, fs: Seq<Frame>) -> bool {
    &&& cursor + fs.len() <= u64::MAX
    &&& forall|i: int| 0 <= i < fs.len() ==> #[trigger] fs[i].frame_no == cursor + 1 + i
}

/// Effect of applying a whole valid frame sequence, first frame first.
pub open spec fn apply_seq(m: ReplicaModel, fs: Seq<Frame>) -> ReplicaModel
    decreases fs.len(),
{
    if fs.len() == 0 {
        m
    } else {
        apply_seq(apply_one(m, fs[0]), fs.drop_first())
    }
}

/// Effect of applying a snapshot: the local state is replaced wholesale
/// and incremental application resumes at the snapshot's baseline.
pub open spec fn apply_snapshot_model(m: ReplicaModel, s: TempSnapshot) -> ReplicaModel {
    ReplicaModel {
        cursor: s.baseline_frame_no,
        committed: s.pages.deep_view(),
        pending: Seq::empty(),
    }
}

/// Applying a sequence advances the cursor by its length.
pub proof fn lemma_apply_seq_cursor(m: ReplicaModel, fs: Seq<Frame>)
    requires
        frames_valid_from(m.cursor, fs),
    ensures
        apply_seq(m, fs).cursor == m.cursor + fs.len(),
    decreases fs.len(),
{
    if fs.len() > 0 {
        assert(fs[0].frame_no == m.cursor + 1);
        let m1 = apply_one(m, fs[0]);
        assert(forall|i: int|
            0 <= i < fs.drop_first().len() ==> #[trigger] fs.drop_first()[i].frame_no == m1.cursor
                + 1 + i);
        lemma_apply_seq_cursor(m1, fs.drop_first());
    }
}

/// Unfolding `apply_seq` one frame at a time from the right: applying a
/// prefix and then its next frame is applying the longer prefix.
pub proof fn lemma_apply_seq_snoc(m: ReplicaModel, fs: Seq<Frame>, f: Frame)
    ensures
        apply_seq(m, fs.push(f)) == apply_one(apply_seq(m, fs), f),
    decreases fs.len(),
{
    if fs.len() == 0 {
        assert(fs.push(f)[0] == f);
        assert(fs.push(f).drop_first() =~= Seq::<Frame>::empty());
        assert(apply_seq(m, fs.push(f)) == apply_seq(apply_one(m, f), Seq::<Frame>::empty()));
        assert(apply_seq(apply_one(m, f), Seq::<Frame>::empty()) == apply_one(m, f));
        assert(apply_seq(m, fs) == m);
    } else {
        assert(fs.push(f)[0] == fs[0]);
        assert(fs.push(f).drop_first() =~= fs.drop_first().push(f));
        assert(apply_seq(m, fs.push(f)) == apply_seq(apply_one(m, fs[0]), fs.drop_first().push(f)));
        assert(apply_seq(m, fs) == apply_seq(apply_one(m, fs[0]), fs.drop_first()));
        lemma_apply_seq_snoc(apply_one(m, fs[0]), fs.drop_first(), f);
    }
}

/// Sync is chunk-size-invariant: a valid frame sequence yields the same
/// replica state whether it is applied as one batch or split at any
/// boundary into two batches. Splitting into more batches follows by
/// applying this law repeatedly.
pub proof fn lemma_sync_chunk_invariant(m: ReplicaModel, a: Seq<Frame>, b: Seq<Frame>)
    requires
        frames_valid_from(m.cursor, a + b),
    ensures
        frames_valid_from(m.cursor, a),
        frames_valid_from(apply_seq(m, a).cursor, b),
        apply_seq(apply_seq(m, a), b) == apply_seq(m, a + b),
    decreases a.len(),
{
    if a.len() == 0 {
        assert(a + b =~= b);
        assert(frames_valid_from(m.cursor, a));
    } else {
        assert((a + b)[0] == a[0]);
        assert(a[0].frame_no == m.cursor + 1);
        let m1 = apply_one(m, a[0]);
        assert((a + b).drop_first() =~= a.drop_first() + b);
        assert(forall|i: int|
            0 <= i < (a.drop_first() + b).len() ==> #[trigger] (a.drop_first() + b)[i].frame_no
                == m1.cursor + 1 + i) by {
            assert(forall|i: int|
                0 <= i < (a + b).len() ==> #[trigger] (a + b)[i].frame_no == m.cursor + 1 + i);
            assert(forall|i: int|
                0 <= i < (a.drop_first() + b).len() ==> (a.drop_first() + b)[i] == (a + b)[i + 1]);
        }
        lemma_sync_chunk_invariant(m1, a.drop_first(), b);
        assert(forall|i: int| 0 <= i < a.len() ==> #[trigger] a[i].frame_no == m.cursor + 1 + i)
            by {
            assert(forall|i: int|
                0 <= i < (a + b).len() ==> #[trigger] (a + b)[i].frame_no == m.cursor + 1 + i);
            assert(forall|i: int| 0 <= i < a.len() ==> a[i] == (a + b)[i]);
        }
    }
}

/// A frame sequence delivered in chunks, in order.
pub open spec fn concat_chunks(chunks: Seq<Seq<Frame>>) -> Seq<Frame>
    decreases chunks.len(),
{
    if chunks.len() == 0 {
        Seq::empty()
    } else {
        chunks[0] + concat_chunks(chunks.drop_first())
    }
}

/// Effect of one sync call per chunk, first chunk first.
pub open spec fn apply_chunks(m: ReplicaModel, chunks: Seq<Seq<Frame>>) -> ReplicaModel
    decreases chunks.len(),
{
    if chunks.len() == 0 {
        m
    } else {
        apply_chunks(apply_seq(m, chunks[0]), chunks.drop_first())
    }
}

/// Sync is chunk-size-invariant at arbitrary boundaries: delivering a
/// valid frame sequence as any number of sync calls, split anywhere,
/// yields the same replica state as one batch.
pub proof fn lemma_sync_chunks_any_boundaries(m: ReplicaModel, chunks: Seq<Seq<Frame>>)
    requires
        frames_valid_from(m.cursor, concat_chunks(chunks)),
    ensures
        apply_chunks(m, chunks) == apply_seq(m, concat_chunks(chunks)),
    decreases chunks.len(),
{
    if chunks.len() > 0 {
        lemma_sync_chunk_invariant(m, chunks[0], concat_chunks(chunks.drop_first()));
        lemma_sync_chunks_any_boundaries(apply_seq(m, chunks[0]), chunks.drop_first());
    }
}

/// Sync is idempotent at a given cursor: a caught-up replica is handed
/// zero frames, and applying zero frames — any number of times — applies
/// nothing and leaves the state, its cursor included, unchanged.
pub proof fn lemma_sync_idempotent(m: ReplicaModel)
    ensures
        apply_seq(m, Seq::empty()) == m,
        apply_seq(apply_seq(m, Seq::empty()), Seq::empty()) == m,
{
}

/// An embedded replica: a local copy of a database kept current by
/// applying frames shipped from a remote primary.
#[derive(Clone, Debug)]
pub struct Replica {
    cursor: FrameNo,
    committed: Vec<Vec<u8>>,
    pending: Vec<Vec<u8>>,
}

impl View for Replica {
    type V = ReplicaModel;

    closed spec fn view(&self) -> ReplicaModel {
        ReplicaModel {
            cursor: self.cursor,
            committed: self.committed.deep_view(),
            pending: self.pending.deep_view(),
        }
    }
}

impl Replica {
    /// A fresh replica: nothing applied, cursor at zero.
    pub fn new() -> (r: Replica)
        ensures
            r@.cursor == 0,
            r@.committed == Seq::<Seq<u8>>::empty(),
            r@.pending == Seq::<Seq<u8>>::empty(),
    {
        let r = Replica { cursor: 0, committed: Vec::new(), pending: Vec::new() };
        proof {
            assert(r@.committed =~= Seq::<Seq<u8>>::empty());
            assert(r@.pending =~= Seq::<Seq<u8>>::empty());
        }
        r
    }

    /// A replica reopened at a persisted cursor: frames resume at
    /// `cursor + 1`, while the pages it already holds live in the
    /// database file the engine owns.
    pub fn with_cursor(cursor: FrameNo) -> (r: Replica)
        ensures
            r@.cursor == cursor,
            r@.committed == Seq::<Seq<u8>>::empty(),
            r@.pending == Seq::<Seq<u8>>::empty(),
    {
        let r = Replica { cursor, committed: Vec::new(), pending: Vec::new() };
        proof {
            assert(r@.committed =~= Seq::<Seq<u8>>::empty());
            assert(r@.pending =~= Seq::<Seq<u8>>::empty());
        }
        r
    }

    /// The last applied frame number.
    pub fn cursor(&self) -> (r: FrameNo)
        ensures
            r == self@.cursor,
    {
        self.cursor
    }

    /// How many committed pages the replica holds.
    pub fn committed_len(&self) -> (r: usize)
        ensures
            r == self@.committed.len(),
    {
        self.committed.len()
    }

    /// A committed page by its position in the committed log.
    pub fn committed_page(&self, i: usize) -> (r: &Vec<u8>)
        requires
            i < self@.committed.len(),
        ensures
            r@ == self@.committed[i as int],
    {
        &self.committed[i]
    }

    /// Applies one frame. The frame must be exactly the next one: on an
    /// out-of-order frame number the call fails and changes nothing —
    /// the cursor does not move and no page is staged.
    pub fn apply_frame(&mut self, f: &Frame) -> (r: Result<(), Error>)
        ensures
            frame_applicable(old(self)@, *f) ==> r is Ok && final(self)@ == apply_one(
                old(self)@,
                *f,
            ),
            !frame_applicable(old(self)@, *f) ==> r is Err && final(self)@ == old(self)@,
            r is Err ==> (r->Err_0 matches Error::FrameOutOfOrder(_, _) || r->Err_0
                matches Error::FrameNoOverflow),
    {
        if self.cursor == u64::MAX {
            return Err(Error::FrameNoOverflow);
        }
        if f.frame_no != self.cursor + 1 {
            return Err(Error::FrameOutOfOrder(self.cursor + 1, f.frame_no));
        }
        let page = f.page.clone();
        proof {
            assert(page@ =~= f.page@);
        }
        self.pending.push(page);
        self.cursor = f.frame_no;
        if f.commit {
            let ghost pre_committed = self.committed@;
            let ghost pre_pending = self.pending@;
            self.committed.append(&mut self.pending);
            proof {
                assert(self.committed@ == pre_committed + pre_pending);
                assert forall|i: int| 0 <= i < self.committed@.len() implies #[trigger] self.committed.deep_view()[i]
                    == (old(self)@.committed + old(self)@.pending.push(f.page@))[i] by {
                    if i < pre_committed.len() {
                        assert(self.committed@[i] == pre_committed[i]);
                    } else {
                        assert(self.committed@[i] == pre_pending[i - pre_committed.len()]);
                    }
                }
                assert(self@.committed =~= old(self)@.committed + old(self)@.pending.push(f.page@));
                assert(self@.pending =~= Seq::<Seq<u8>>::empty());
            }
        } else {
            proof {
                assert forall|i: int| 0 <= i < self.pending.deep_view().len() implies #[trigger] self.pending.deep_view()[i]
                    == old(self)@.pending.push(f.page@)[i] by {
                    if i < old(self).pending@.len() {
                        assert(self.pending@[i] == old(self).pending@[i]);
                    } else {
                        assert(self.pending@[i] == page);
                    }
                }
                assert(self@.pending =~= old(self)@.pending.push(f.page@));
            }
        }
        Ok(())
    }

    /// Replaces the local state with a snapshot image and positions the
    /// cursor at the snapshot's baseline frame number, atomically.
    pub fn apply_snapshot(&mut self, s: &TempSnapshot) -> (r: usize)
        ensures
            final(self)@ == apply_snapshot_model(old(self)@, *s),
            r == s.pages.len(),
    {
        self.committed = s.pages.clone();
        self.pending = Vec::new();
        self.cursor = s.baseline_frame_no;
        proof {
            assert(self@.committed =~= s.pages.deep_view());
            assert(self@.pending =~= Seq::<Seq<u8>>::empty());
        }
        s.pages.len()
    }

    /// Applies one batch of frames or one snapshot; returns how many
    /// frames (or snapshot pages) were applied. The whole batch is
    /// validated against the cursor first: on any gap or out-of-order
    /// number nothing at all is applied and the cursor does not move.
    /// `Ok(0)` is the valid "caller is caught up" outcome.
    pub fn sync_frames(&mut self, frames: Frames) -> (r: Result<usize, Error>)
        ensures
            match frames {
                Frames::Vec(fs) => {
                    &&& frames_valid_from(old(self)@.cursor, fs@) ==> r == Ok::<usize, Error>(
                        fs.len(),
                    ) && final(self)@ == apply_seq(old(self)@, fs@)
                    &&& !frames_valid_from(old(self)@.cursor, fs@) ==> r is Err && final(self)@
                        == old(self)@
                    &&& r is Err ==> (r->Err_0 matches Error::FrameOutOfOrder(_, _) || r->Err_0
                        matches Error::FrameNoOverflow)
                },
                Frames::Snapshot(s) => r == Ok::<usize, Error>(s.pages.len() as usize)
                    && final(self)@ == apply_snapshot_model(old(self)@, s),
            },
    {
        match &frames {
            Frames::Vec(fs) => {
                let n = fs.len();
                // Validate the whole batch before touching any state.
                let mut i: usize = 0;
                while i < n
                    invariant
                        frames == Frames::Vec(*fs),
                        n == fs.len(),
                        i <= n,
                        self == old(self),
                        self@.cursor + i <= u64::MAX,
                        forall|j: int| 0 <= j < i ==> #[trigger] fs@[j].frame_no == self@.cursor
                            + 1 + j,
                    decreases n - i,
                {
                    if self.cursor >= u64::MAX - (i as u64) {
                        proof {
                            assert(old(self)@.cursor + fs@.len() > u64::MAX);
                            assert(!frames_valid_from(old(self)@.cursor, fs@));
                        }
                        return Err(Error::FrameNoOverflow);
                    }
                    let expected = self.cursor + 1 + (i as u64);
                    if fs[i].frame_no != expected {
                        proof {
                            assert(fs@[i as int].frame_no != old(self)@.cursor + 1 + i);
                            assert(!frames_valid_from(old(self)@.cursor, fs@));
                        }
                        return Err(Error::FrameOutOfOrder(expected, fs[i].frame_no));
                    }
                    i = i + 1;
                }
                // Apply in order; each step is the next applicable frame.
                let mut k: usize = 0;
                while k < n
                    invariant
                        frames == Frames::Vec(*fs),
                        n == fs.len(),
                        k <= n,
                        frames_valid_from(old(self)@.cursor, fs@),
                        self@ == apply_seq(old(self)@, fs@.take(k as int)),
                        self@.cursor == old(self)@.cursor + k,
                    decreases n - k,
                {
                    proof {
                        lemma_apply_seq_cursor(old(self)@, fs@.take(k as int));
                        assert(frames_valid_from(old(self)@.cursor, fs@.take(k as int)));
                    }
                    let ghost pre = self@;
                    let res = self.apply_frame(&fs[k]);
                    proof {
                        assert(frame_applicable(pre, fs@[k as int]));
                        lemma_apply_seq_snoc(old(self)@, fs@.take(k as int), fs@[k as int]);
                        assert(fs@.take(k as int).push(fs@[k as int]) =~= fs@.take(k + 1 as int));
                        lemma_apply_seq_cursor(old(self)@, fs@.take(k + 1 as int));
                    }
                    match res {
                        Ok(()) => (),
                        Err(e) => {
                            // Unreachable: the batch was validated above.
                            return Err(e);
                        },
                    }
                    k = k + 1;
                }
                proof {
                    assert(fs@.take(n as int) =~= fs@);
                }
                Ok(n)
            },
            Frames::Snapshot(s) => {
                let applied = self.apply_snapshot(s);
                Ok(applied)
            },
        }
    }
}

} // verus!
