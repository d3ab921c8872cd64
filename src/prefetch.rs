use vstd::prelude::*;

use crate::decoder::{malformed_error, token_fits, DecoderModel};
use crate::error::DecoderError;
use crate::frame::Frame;
use crate::queue::{pushed_all, QueueModel};
use crate::session::{DecoderWorker, SessionModel};

verus! {

/// Tokens requested at a time.
pub const DEFAULT_CHUNK_SIZE: usize = 100;

/// Pause between two requests, in microseconds.
pub const PREFETCH_DELAY_MICROS: u64 = 100000;

/// What the prefetch loop does next.
#[derive(Clone, Copy, Debug, PartialEq, Eq, Structural)]
pub enum PrefetchAction {
    /// Request the tokens of frames `start..=end`.
    Fetch { start: usize, end: usize },
    /// The loop is over.
    Stop,
}

/// The prefetch loop's position: the first frame of the next chunk, the chunk size, and
/// whether the loop has ended.
pub struct PrefetchLoop {
    next_start: usize,
    chunk_size: usize,
    done: bool,
}

pub struct PrefetchModel {
    pub next_start: usize,
    pub chunk_size: usize,
    pub done: bool,
}

impl View for PrefetchLoop {
    type V = PrefetchModel;

    closed spec fn view(&self) -> PrefetchModel {
        PrefetchModel { next_start: self.next_start, chunk_size: self.chunk_size, done: self.done }
    }
}

/// The pixel bytes of the first token for frame `key`, if any.
pub open spec fn lookup(tokens: Seq<(usize, Vec<u8>)>, key: usize) -> Option<Vec<u8>>
    decreases tokens.len(),
{
    if tokens.len() == 0 {
        None
    } else if tokens[0].0 == key {
        Some(tokens[0].1)
    } else {
        lookup(tokens.drop_first(), key)
    }
}

/// How many frames the chunk from `start` covers: `chunk_size`, or fewer at the end of the
/// index range.
pub open spec fn chunk_len(start: usize, chunk_size: usize) -> nat {
    if start + chunk_size - 1 <= usize::MAX {
        chunk_size as nat
    } else {
        (usize::MAX - start + 1) as nat
    }
}

/// The frames of the first `n` indices from `start`, in index order, one per index that
/// has a token, with the index as timestamp.
pub open spec fn chunk_frames(
    tokens: Seq<(usize, Vec<u8>)>,
    start: usize,
    n: nat,
    width: u32,
    height: u32,
) -> Seq<Frame>
    decreases n,
{
    if n == 0 {
        Seq::empty()
    } else {
        let prev = chunk_frames(tokens, start, (n - 1) as nat, width, height);
        let key = (start + n - 1) as usize;
        match lookup(tokens, key) {
            Some(data) => prev.push(
                Frame {
                    width: width as usize,
                    height: height as usize,
                    data,
                    timestamp: key as u64,
                    is_keyframe: false,
                },
            ),
            None => prev,
        }
    }
}

/// Where the loop stands after a delivered chunk: the next chunk's start, and whether the
/// loop ends (past the last index, or past `total_frames`).
pub open spec fn advanced(p: PrefetchModel, total_frames: usize) -> PrefetchModel {
    if p.next_start + p.chunk_size > usize::MAX {
        PrefetchModel { done: true, ..p }
    } else {
        let s = (p.next_start + p.chunk_size) as usize;
        PrefetchModel { next_start: s, done: s >= total_frames, ..p }
    }
}

/// The session after pushing `fs`, as `DecoderWorker::push_frame` does while open.
pub open spec fn session_pushed(s: SessionModel, fs: Seq<Frame>) -> SessionModel {
    SessionModel {
        decoder: DecoderModel { queue: pushed_all(s.decoder.queue, fs), ..s.decoder },
        ..s
    }
}

proof fn lemma_lookup_found(s: Seq<(usize, Vec<u8>)>, key: usize, p: int)
    requires
        0 <= p < s.len(),
        s[p].0 == key,
        forall|m: int| 0 <= m < p ==> s[m].0 != key,
    ensures
        lookup(s, key) == Some(s[p].1),
    decreases p,
{
    if p > 0 {
        lemma_lookup_found(s.drop_first(), key, p - 1);
    }
}

proof fn lemma_lookup_absent(s: Seq<(usize, Vec<u8>)>, key: usize)
    requires
        forall|m: int| 0 <= m < s.len() ==> s[m].0 != key,
    ensures
        lookup(s, key) is None,
    decreases s.len(),
{
    if s.len() > 0 {
        lemma_lookup_absent(s.drop_first(), key);
    }
}

proof fn lemma_lookup_remove(s: Seq<(usize, Vec<u8>)>, p: int, key: usize)
    requires
        0 <= p < s.len(),
        s[p].0 != key,
    ensures
        lookup(s.remove(p), key) == lookup(s, key),
    decreases p,
{
    if p == 0 {
        assert(s.remove(0) =~= s.drop_first());
    } else {
        assert(s.remove(p).drop_first() =~= s.drop_first().remove(p - 1));
        lemma_lookup_remove(s.drop_first(), p - 1, key);
    }
}

proof fn lemma_pushed_all_step(q: QueueModel, fs: Seq<Frame>, f: Frame)
    ensures
        pushed_all(q, fs.push(f)) == pushed_all(q, fs).pushed(f),
{
    assert(fs.push(f).drop_last() =~= fs);
}

impl PrefetchLoop {
    /// A loop that starts at frame `start` with chunks of `chunk_size` tokens.
    pub fn new(start: usize, chunk_size: usize) -> (r: PrefetchLoop)
        requires
            chunk_size >= 1,
        ensures
            r@ == (PrefetchModel { next_start: start, chunk_size, done: false }),
    {
        PrefetchLoop { next_start: start, chunk_size, done: false }
    }

    pub fn is_done(&self) -> (r: bool)
        ensures
            r == self@.done,
    {
        self.done
    }

    pub fn next_start(&self) -> (r: usize)
        ensures
            r == self@.next_start,
    {
        self.next_start
    }

    /// The next request, checked against the session's running flag before it is issued:
    /// the chunk from `next_start` while the loop is live and the session lets it run.
    pub fn next_action(&self, session: &DecoderWorker) -> (r: PrefetchAction)
        requires
            self@.chunk_size >= 1,
        ensures
            r == if self@.done || !session@.running {
                PrefetchAction::Stop
            } else {
                PrefetchAction::Fetch {
                    start: self@.next_start,
                    end: (self@.next_start + chunk_len(self@.next_start, self@.chunk_size)
                        - 1) as usize,
                }
            },
    {
        if self.done || !session.is_running() {
            return PrefetchAction::Stop;
        }
        let end: usize = if self.chunk_size - 1 <= usize::MAX - self.next_start {
            self.next_start + (self.chunk_size - 1)
        } else {
            usize::MAX
        };
        PrefetchAction::Fetch { start: self.next_start, end }
    }

    /// A request failed: the loop ends and the failure goes to the host; no retry.
    pub fn on_failure(&mut self) -> (e: DecoderError)
        ensures
            e == DecoderError::NetworkFailure,
            final(self)@ == (PrefetchModel { done: true, ..old(self)@ }),
    {
        self.done = true;
        DecoderError::NetworkFailure
    }

    /// A chunk arrived: `tokens` pairs frame indices with pixel bytes, in any order, and
    /// `total_frames` is how many frames the stream has. If the loop is over or the session
    /// no longer lets it run, the loop ends and nothing is pushed. A token of the wrong size
    /// ends the loop with `MalformedFrameInput` and nothing pushed. Otherwise the frames of
    /// the chunk's indices are pushed in index order (rejected ones are dropped and counted
    /// by the queue), the loop moves to the next chunk, and the number admitted is returned.
    pub fn on_chunk(
        &mut self,
        session: &mut DecoderWorker,
        tokens: Vec<(usize, Vec<u8>)>,
        total_frames: usize,
    ) -> (r: Result<usize, DecoderError>)
        requires
            old(self)@.chunk_size >= 1,
            old(session).wf(),
        ensures
            final(session).wf(),
            final(self)@.chunk_size == old(self)@.chunk_size,
            old(self)@.done || !old(session)@.running ==> r == Ok::<usize, DecoderError>(0)
                && final(session)@ == old(session)@ && final(self)@ == (PrefetchModel {
                done: true,
                ..old(self)@
            }),
            !old(self)@.done && old(session)@.running ==> match r {
                Err(e) => {
                    &&& malformed_error(
                        old(session)@.decoder.width,
                        old(session)@.decoder.height,
                        tokens@.map_values(|t: (usize, Vec<u8>)| t.1),
                        e,
                    )
                    &&& final(session)@ == old(session)@
                    &&& final(self)@ == (PrefetchModel { done: true, ..old(self)@ })
                },
                Ok(admitted) => {
                    let fs = chunk_frames(
                        tokens@,
                        old(self)@.next_start,
                        chunk_len(old(self)@.next_start, old(self)@.chunk_size),
                        old(session)@.decoder.width,
                        old(session)@.decoder.height,
                    );
                    &&& forall|i: int|
                        0 <= i < tokens@.len() ==> token_fits(
                            old(session)@.decoder.width,
                            old(session)@.decoder.height,
                            (#[trigger] tokens@[i]).1@,
                        )
                    &&& final(session)@ == session_pushed(old(session)@, fs)
                    &&& admitted == final(session)@.decoder.queue.input.len()
                        - old(session)@.decoder.queue.input.len()
                    &&& final(self)@ == advanced(old(self)@, total_frames)
                },
            },
    {
        if self.done || !session.is_running() {
            self.done = true;
            return Ok(0);
        }
        let width: u32 = session.decoder().width();
        let height: u32 = session.decoder().height();
        let w: usize = width as usize;
        let h: usize = height as usize;
        let ghost datas = tokens@.map_values(|t: (usize, Vec<u8>)| t.1);
        let expected: Option<usize> = match w.checked_mul(h) {
            Some(a) => a.checked_mul(4),
            None => None,
        };
        let m: usize = tokens.len();
        let mut j: usize = 0;
        while j < m
            invariant
                m == tokens@.len(),
                j <= m,
                session.wf(),
                session@ == old(session)@,
                self@ == old(self)@,
                !old(self)@.done,
                old(session)@.running,
                width == old(session)@.decoder.width,
                height == old(session)@.decoder.height,
                datas == tokens@.map_values(|t: (usize, Vec<u8>)| t.1),
                w == width,
                h == height,
                match expected {
                    Some(len) => len == crate::frame::frame_len(w as nat, h as nat),
                    None => crate::frame::frame_len(w as nat, h as nat) > usize::MAX,
                },
                forall|i: int| 0 <= i < j ==> token_fits(width, height, #[trigger] datas[i]@),
            decreases m - j,
        {
            let actual: usize = tokens[j].1.len();
            let fits = match expected {
                Some(len) => actual == len,
                None => false,
            };
            if !fits {
                self.done = true;
                proof {
                    assert(datas[j as int] == tokens@[j as int].1);
                    assert(!token_fits(width, height, datas[j as int]@));
                    assert(malformed_error(
                        width,
                        height,
                        datas,
                        DecoderError::MalformedFrameInput { width: w, height: h, actual },
                    ));
                }
                return Err(DecoderError::MalformedFrameInput { width: w, height: h, actual });
            }
            j = j + 1;
        }
        assert forall|i: int| 0 <= i < tokens@.len() implies token_fits(
            width,
            height,
            (#[trigger] tokens@[i]).1@,
        ) by {
            assert(datas[i] == tokens@[i].1);
        }
        let start: usize = self.next_start;
        let n: usize = if self.chunk_size - 1 <= usize::MAX - start {
            self.chunk_size
        } else {
            usize::MAX - start + 1
        };
        let ghost orig = tokens@;
        let ghost s0 = session@;
        let mut rest = tokens;
        let mut admitted: usize = 0;
        let mut i: usize = 0;
        while i < n
            invariant
                i <= n,
                n == chunk_len(start, self@.chunk_size),
                start + n - 1 <= usize::MAX,
                s0.running,
                s0.status == crate::session::DecoderStatus::Open,
                w == s0.decoder.width,
                h == s0.decoder.height,
                width == s0.decoder.width,
                height == s0.decoder.height,
                session.wf(),
                session@ == session_pushed(s0, chunk_frames(orig, start, i as nat, width, height)),
                admitted == session@.decoder.queue.input.len() - s0.decoder.queue.input.len(),
                session@.decoder.queue.input.len() >= s0.decoder.queue.input.len(),
                forall|k: usize| #![trigger lookup(rest@, k)] k >= start + i ==> lookup(rest@, k) == lookup(orig, k),
            decreases n - i,
        {
            let key: usize = start + i;
            let mut p: usize = 0;
            while p < rest.len() && rest[p].0 != key
                invariant
                    p <= rest@.len(),
                    forall|q: int| 0 <= q < p ==> rest@[q].0 != key,
                decreases rest@.len() - p,
            {
                p = p + 1;
            }
            let ghost fs = chunk_frames(orig, start, i as nat, width, height);
            if p < rest.len() {
                proof {
                    lemma_lookup_found(rest@, key, p as int);
                    assert forall|k: usize| k >= start + i + 1 implies #[trigger] lookup(
                        rest@.remove(p as int),
                        k,
                    ) == lookup(orig, k) by {
                        lemma_lookup_remove(rest@, p as int, k);
                        assert(lookup(rest@, k) == lookup(orig, k));
                    }
                }
                let (_, data) = rest.remove(p);
                let frame = Frame {
                    width: w,
                    height: h,
                    data,
                    timestamp: key as u64,
                    is_keyframe: false,
                };
                proof {
                    assert(lookup(orig, key) == Some(data));
                    lemma_pushed_all_step(s0.decoder.queue, fs, frame);
                    assert(chunk_frames(orig, start, (i + 1) as nat, width, height) == fs.push(frame));
                }
                let pushed = session.push_frame(frame);
                if let Ok(true) = pushed {
                    admitted = admitted + 1;
                }
            } else {
                proof {
                    lemma_lookup_absent(rest@, key);
                    assert(lookup(orig, key) is None);
                    assert(chunk_frames(orig, start, (i + 1) as nat, width, height) == fs);
                }
            }
            i = i + 1;
        }
        match start.checked_add(self.chunk_size) {
            Some(s) => {
                self.next_start = s;
                self.done = s >= total_frames;
            },
            None => {
                self.done = true;
            },
        }
        Ok(admitted)
    }
}

} // verus!
