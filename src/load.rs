use crate::dfu::{poll_timeout, poll_timeout_of, state_of, DfuOp, DfuRequest, STATUS_LEN};
use crate::error::AppleDeviceError;
use crate::image::{has_img_header, prepare_image, prepared_image, MAX_PAYLOAD_LEN};
use crate::mode::Mode;
use vstd::prelude::*;

verus! {

/// Size of every chunk but possibly the last.
pub const CHUNK_LEN: usize = 0x800;
/// Protocol state "download idle": the device is ready for the next chunk.
pub const STATE_DNLOAD_IDLE: u8 = 5;

/// The only final status that means success: status OK, poll timeout
/// 3000 ms, state 7 (manifest complete), string index 0.
pub open spec fn final_status_ok() -> Seq<u8> {
    seq![0x00u8, 0xB8u8, 0x0Bu8, 0x00u8, 0x07u8, 0x00u8]
}

/// The consecutive chunks of `img`: `CHUNK_LEN` bytes each, the last one
/// possibly shorter, none empty.
pub open spec fn chunks(img: Seq<u8>) -> Seq<Seq<u8>>
    decreases img.len(),
{
    if img.len() == 0 {
        Seq::empty()
    } else if img.len() <= CHUNK_LEN {
        seq![img]
    } else {
        seq![img.subrange(0, CHUNK_LEN as int)] + chunks(
            img.subrange(CHUNK_LEN as int, img.len() as int),
        )
    }
}

/// Number of chunks of an image of `len` bytes.
pub open spec fn chunk_count(len: nat) -> nat {
    (len + CHUNK_LEN - 1) as nat / (CHUNK_LEN as nat)
}

/// The chunking of any image: every chunk but the last has exactly
/// `CHUNK_LEN` bytes, the last has 1 to `CHUNK_LEN`, the k-th starts at
/// k * `CHUNK_LEN`, and joined back together they give the image.
pub proof fn lemma_chunks(img: Seq<u8>)
    ensures
        chunks(img).len() == chunk_count(img.len()),
        forall|k: int|
            0 <= k < chunks(img).len() ==> #[trigger] chunks(img)[k] == img.subrange(
                k * CHUNK_LEN,
                chunk_end(img.len(), (k * CHUNK_LEN) as nat) as int,
            ),
        forall|k: int|
            0 <= k < chunks(img).len() - 1 ==> #[trigger] chunks(img)[k].len() == CHUNK_LEN,
        chunks(img).len() > 0 ==> 0 < chunks(img).last().len() <= CHUNK_LEN,
        chunks(img).flatten() == img,
    decreases img.len(),
{
    let c = chunks(img);
    if img.len() == 0 {
        assert(c.flatten() =~= img);
    } else if img.len() <= CHUNK_LEN {
        assert(c.drop_first() =~= Seq::<Seq<u8>>::empty());
        assert(c.drop_first().flatten() == Seq::<u8>::empty());
        assert(c.first() == img);
        assert(c.flatten() =~= img);
        assert(img.subrange(0, img.len() as int) =~= img);
    } else {
        let head = img.subrange(0, CHUNK_LEN as int);
        let rest = img.subrange(CHUNK_LEN as int, img.len() as int);
        lemma_chunks(rest);
        let cr = chunks(rest);
        assert(c == seq![head] + cr);
        assert(c.drop_first() =~= cr);
        assert(c.first() == head);
        assert(c.flatten() == head + cr.flatten());
        assert(head + rest =~= img);
        assert forall|k: int| 0 <= k < c.len() implies #[trigger] c[k] == img.subrange(
            k * CHUNK_LEN,
            chunk_end(img.len(), (k * CHUNK_LEN) as nat) as int,
        ) by {
            if k > 0 {
                assert(c[k] == cr[k - 1]);
                assert((k - 1) * CHUNK_LEN + CHUNK_LEN == k * CHUNK_LEN) by (nonlinear_arith);
                assert(cr[k - 1] =~= img.subrange(
                    k * CHUNK_LEN,
                    chunk_end(img.len(), (k * CHUNK_LEN) as nat) as int,
                ));
            }
        }
        assert forall|k: int| 0 <= k < c.len() - 1 implies #[trigger] c[k].len() == CHUNK_LEN by {
            if k > 0 {
                assert(c[k] == cr[k - 1]);
            }
        }
        assert(c.last() == cr.last());
    }
}

/// End of the chunk that starts at `pos` in an image of `len` bytes.
pub open spec fn chunk_end(len: nat, pos: nat) -> nat {
    if pos + CHUNK_LEN < len {
        (pos + CHUNK_LEN) as nat
    } else {
        len
    }
}

/// The downloads of a transfer from `pos` on while the device always
/// reports idle: the chunk at `pos`, then those after it.
pub open spec fn idle_downloads(img: Seq<u8>, pos: nat) -> Seq<Seq<u8>>
    decreases img.len() - pos,
{
    if pos >= img.len() {
        Seq::empty()
    } else {
        seq![img.subrange(pos as int, chunk_end(img.len(), pos) as int)] + idle_downloads(
            img,
            chunk_end(img.len(), pos),
        )
    }
}

/// A transfer that meets no busy device sends, from any chunk boundary on,
/// exactly the chunks of what remains; from the start, the chunks of the
/// whole image.
pub proof fn lemma_idle_transfer_sends_chunks(img: Seq<u8>, pos: nat)
    requires
        pos <= img.len(),
    ensures
        idle_downloads(img, pos) == chunks(img.subrange(pos as int, img.len() as int)),
        pos == 0 ==> idle_downloads(img, 0) == chunks(img),
    decreases img.len() - pos,
{
    let rest = img.subrange(pos as int, img.len() as int);
    if pos < img.len() {
        let end = chunk_end(img.len(), pos);
        lemma_idle_transfer_sends_chunks(img, end);
        if rest.len() > CHUNK_LEN {
            assert(rest.subrange(0, CHUNK_LEN as int) =~= img.subrange(pos as int, end as int));
            assert(rest.subrange(CHUNK_LEN as int, rest.len() as int) =~= img.subrange(
                end as int,
                img.len() as int,
            ));
        } else {
            assert(rest =~= img.subrange(pos as int, end as int));
            assert(img.subrange(end as int, img.len() as int) =~= Seq::<u8>::empty());
            assert(chunks(Seq::<u8>::empty()) == Seq::<Seq<u8>>::empty());
        }
    } else {
        assert(rest =~= Seq::<u8>::empty());
    }
    assert(img.subrange(0, img.len() as int) =~= img);
}

/// Where a transfer stands.
#[derive(Debug, Clone, Copy, PartialEq, Eq, Structural)]
pub enum LoadPhase {
    /// Send the chunk that starts at the current position.
    SendChunk,
    /// Ask for the status after a chunk.
    PollStatus,
    /// The device is busy: wait this many milliseconds, then ask again.
    Wait(u64),
    /// Send the empty download that ends the transfer.
    SendEnd,
    /// Ask for the final status.
    FinalStatus,
    /// The transfer is over: successful or not.
    Finished(bool),
}

/// What the caller is to do next for a transfer.
#[derive(Debug)]
pub enum LoadAction {
    /// Issue this request and report back.
    Request(DfuRequest),
    /// Sleep this many milliseconds and report back.
    Sleep(u64),
    /// The transfer is over with this result.
    Done(Result<(), AppleDeviceError>),
}

/// A chunked image transfer in the DFU stage, driven one event at a time.
pub struct ImageLoad {
    image: Vec<u8>,
    pos: usize,
    phase: LoadPhase,
}

/// Phase after the device reported idle following the chunk that ended at `pos`.
pub open spec fn after_chunk(len: nat, pos: nat) -> LoadPhase {
    if pos < len {
        LoadPhase::SendChunk
    } else {
        LoadPhase::SendEnd
    }
}

impl ImageLoad {
    /// The bytes being transferred.
    pub closed spec fn image(&self) -> Seq<u8> {
        self.image@
    }

    /// Start of the next chunk to send.
    pub closed spec fn pos(&self) -> nat {
        self.pos as nat
    }

    /// The current phase.
    pub closed spec fn phase(&self) -> LoadPhase {
        self.phase
    }

    /// Positions stay on chunk boundaries inside the image, and a chunk is
    /// only due while bytes remain.
    pub open spec fn wf(&self) -> bool {
        &&& self.pos() <= self.image().len()
        &&& (self.pos() % (CHUNK_LEN as nat) == 0 || self.pos() == self.image().len())
        &&& (self.phase() == LoadPhase::SendChunk ==> self.pos() < self.image().len())
    }

    /// Starts the transfer of `payload`, wrapped when it carries no header;
    /// only in the DFU stage.
    pub fn new(mode: Mode, payload: &[u8]) -> (r: Result<ImageLoad, AppleDeviceError>)
        requires
            mode == Mode::DFU && !has_img_header(payload@) ==> payload@.len() <= MAX_PAYLOAD_LEN,
        ensures
            mode != Mode::DFU <==> r is Err,
            mode != Mode::DFU ==> r == Err::<ImageLoad, AppleDeviceError>(
                AppleDeviceError::WrongMode,
            ),
            r matches Ok(l) ==> {
                &&& l.wf()
                &&& l.image() == prepared_image(payload@)
                &&& l.pos() == 0
                &&& l.phase() == after_chunk(l.image().len(), 0)
            },
    {
        if mode != Mode::DFU {
            return Err(AppleDeviceError::WrongMode);
        }
        let image = prepare_image(payload);
        let phase = if image.len() > 0 {
            LoadPhase::SendChunk
        } else {
            LoadPhase::SendEnd
        };
        Ok(ImageLoad { image, pos: 0, phase })
    }

    /// The current phase.
    pub fn current_phase(&self) -> (r: LoadPhase)
        ensures
            r == self.phase(),
    {
        self.phase
    }

    /// What to do next: send the current chunk, poll, sleep for the poll
    /// timeout, send the empty end-of-transfer download, read the final
    /// status, or stop with the result.
    pub fn next_action(&self) -> (r: LoadAction)
        requires
            self.wf(),
        ensures
            match self.phase() {
                LoadPhase::SendChunk => r matches LoadAction::Request(q) && q@ == DfuOp::Dnload(
                    self.image().subrange(
                        self.pos() as int,
                        chunk_end(self.image().len(), self.pos()) as int,
                    ),
                ),
                LoadPhase::PollStatus | LoadPhase::FinalStatus => r matches LoadAction::Request(
                    q,
                ) && q@ == DfuOp::GetStatus,
                LoadPhase::Wait(ms) => r == LoadAction::Sleep(ms),
                LoadPhase::SendEnd => r matches LoadAction::Request(q) && q@ == DfuOp::Dnload(
                    Seq::empty(),
                ),
                LoadPhase::Finished(ok) => if ok {
                    r == LoadAction::Done(Ok(()))
                } else {
                    r == LoadAction::Done(Err(AppleDeviceError::Unknown))
                },
            },
    {
        match self.phase {
            LoadPhase::SendChunk => {
                let end = if self.image.len() - self.pos > CHUNK_LEN {
                    self.pos + CHUNK_LEN
                } else {
                    self.image.len()
                };
                let mut data: Vec<u8> = Vec::with_capacity(end - self.pos);
                let mut i: usize = self.pos;
                while i < end
                    invariant
                        self.pos <= i <= end <= self.image@.len(),
                        data@ == self.image@.subrange(self.pos as int, i as int),
                    decreases end - i,
                {
                    data.push(self.image[i]);
                    i = i + 1;
                    assert(data@ =~= self.image@.subrange(self.pos as int, i as int));
                }
                LoadAction::Request(DfuRequest::Dnload(data))
            },
            LoadPhase::PollStatus | LoadPhase::FinalStatus => LoadAction::Request(
                DfuRequest::GetStatus,
            ),
            LoadPhase::Wait(ms) => LoadAction::Sleep(ms),
            LoadPhase::SendEnd => LoadAction::Request(DfuRequest::Dnload(Vec::new())),
            LoadPhase::Finished(ok) => if ok {
                LoadAction::Done(Ok(()))
            } else {
                LoadAction::Done(Err(AppleDeviceError::Unknown))
            },
        }
    }

    /// A download went through: after a chunk, move past it and poll; after
    /// the end-of-transfer download, read the final status. In any other
    /// phase nothing changes.
    pub fn on_sent(&mut self)
        requires
            old(self).wf(),
        ensures
            final(self).wf(),
            final(self).image() == old(self).image(),
            old(self).phase() == LoadPhase::SendChunk ==> {
                &&& final(self).pos() == chunk_end(old(self).image().len(), old(self).pos())
                &&& final(self).phase() == LoadPhase::PollStatus
            },
            old(self).phase() == LoadPhase::SendEnd ==> {
                &&& final(self).pos() == old(self).pos()
                &&& final(self).phase() == LoadPhase::FinalStatus
            },
            old(self).phase() != LoadPhase::SendChunk && old(self).phase() != LoadPhase::SendEnd
                ==> *final(self) == *old(self),
    {
        match self.phase {
            LoadPhase::SendChunk => {
                self.pos = if self.image.len() - self.pos > CHUNK_LEN {
                    self.pos + CHUNK_LEN
                } else {
                    self.image.len()
                };
                self.phase = LoadPhase::PollStatus;
            },
            LoadPhase::SendEnd => {
                self.phase = LoadPhase::FinalStatus;
            },
            _ => {},
        }
    }

    /// A status reply arrived. After a chunk: idle (state 5) moves on to the
    /// next chunk or to the end of transfer, any other state waits for the
    /// reported poll timeout. After the end of transfer: the transfer
    /// succeeds exactly when the reply is the expected final status. In any
    /// other phase nothing changes.
    pub fn on_status(&mut self, status: &[u8])
        requires
            old(self).wf(),
            status@.len() == STATUS_LEN,
        ensures
            final(self).wf(),
            final(self).image() == old(self).image(),
            final(self).pos() == old(self).pos(),
            old(self).phase() == LoadPhase::PollStatus ==> final(self).phase() == if state_of(
                status@,
            ) == STATE_DNLOAD_IDLE {
                after_chunk(old(self).image().len(), old(self).pos())
            } else {
                LoadPhase::Wait(poll_timeout_of(status@) as u64)
            },
            old(self).phase() == LoadPhase::FinalStatus ==> final(self).phase()
                == LoadPhase::Finished(status@ == final_status_ok()),
            old(self).phase() != LoadPhase::PollStatus && old(self).phase()
                != LoadPhase::FinalStatus ==> *final(self) == *old(self),
    {
        match self.phase {
            LoadPhase::PollStatus => {
                if status[4] == STATE_DNLOAD_IDLE {
                    self.phase = if self.pos < self.image.len() {
                        LoadPhase::SendChunk
                    } else {
                        LoadPhase::SendEnd
                    };
                } else {
                    self.phase = LoadPhase::Wait(poll_timeout(status));
                }
            },
            LoadPhase::FinalStatus => {
                let ok = status[0] == 0x00 && status[1] == 0xB8 && status[2] == 0x0B && status[3]
                    == 0x00 && status[4] == 0x07 && status[5] == 0x00;
                assert(ok == (status@ =~= final_status_ok()));
                self.phase = LoadPhase::Finished(ok);
            },
            _ => {},
        }
    }

    /// The wait for a busy device is over: poll again. In any other phase
    /// nothing changes.
    pub fn on_slept(&mut self)
        requires
            old(self).wf(),
        ensures
            final(self).wf(),
            final(self).image() == old(self).image(),
            final(self).pos() == old(self).pos(),
            old(self).phase() is Wait ==> final(self).phase() == LoadPhase::PollStatus,
            !(old(self).phase() is Wait) ==> *final(self) == *old(self),
    {
        if let LoadPhase::Wait(_) = self.phase {
            self.phase = LoadPhase::PollStatus;
        }
    }
}

} // verus!
