//! Scanning one container file frame by frame.
//!
//! The scanner holds what the scan of one file has found so far and decides
//! what comes next; the caller reads the bytes that it asks for and hands them
//! back.
use crate::error::Error;
use crate::frame::{
    body_accepted, check_frame_body, header_accepted, le_value, read_frame_length, FOOTER_LEN,
    HEADER_LEN,
};
use vstd::prelude::*;

verus! {

/// Where one record's payload lies within its container: `len` bytes from
/// byte `offset`.
#[derive(Clone, Copy, Debug, PartialEq, Eq, Structural, Hash)]
pub struct FrameSpan {
    pub offset: u64,
    pub len: u64,
}

/// Whether the spans come in file order without overlapping, each ending no
/// later than `end`.
pub open spec fn spans_ordered(spans: Seq<FrameSpan>, end: nat) -> bool {
    &&& forall|i: int| 0 <= i < spans.len() ==> spans[i].offset + spans[i].len <= end
    &&& forall|i: int, j: int|
        0 <= i < j < spans.len() ==> #[trigger] spans[i].offset + spans[i].len <= #[trigger] spans[j].offset
}

/// Whether a frame with `len` payload bytes starting at `position` ends at an
/// offset that a file can have.
pub open spec fn frame_fits(position: nat, len: nat) -> bool {
    position + HEADER_LEN + len + FOOTER_LEN <= u64::MAX
}

/// The scan of one container file.
pub struct FrameScanner {
    check_integrity: bool,
    position: u64,
    pending: Option<u64>,
    spans: Vec<FrameSpan>,
    finished: bool,
}

impl FrameScanner {
    /// Whether checksums are compared.
    pub closed spec fn checked(&self) -> bool {
        self.check_integrity
    }

    /// The offset of the next frame: every byte before it has been read.
    pub closed spec fn position(&self) -> nat {
        self.position as nat
    }

    /// The payload length announced by a header whose body is awaited.
    pub closed spec fn pending(&self) -> Option<u64> {
        self.pending
    }

    /// The payloads found so far, in file order.
    pub closed spec fn spans(&self) -> Seq<FrameSpan> {
        self.spans@
    }

    /// Whether the clean end of the container has been reached.
    pub closed spec fn finished(&self) -> bool {
        self.finished
    }

    /// The scanner's invariant.
    pub closed spec fn wf(&self) -> bool {
        &&& spans_ordered(self.spans@, self.position as nat)
        &&& self.pending matches Some(len) ==> frame_fits(self.position as nat, len as nat)
        &&& self.finished ==> self.pending is None
    }

    /// A scanner at the start of a file.
    pub fn new(check_integrity: bool) -> (r: FrameScanner)
        ensures
            r.wf(),
            r.checked() == check_integrity,
            r.position() == 0,
            r.pending() is None,
            r.spans() == Seq::<FrameSpan>::empty(),
            !r.finished(),
    {
        FrameScanner {
            check_integrity,
            position: 0,
            pending: None,
            spans: Vec::new(),
            finished: false,
        }
    }

    /// Takes the bytes found at the next frame boundary, `HEADER_LEN` of them
    /// or fewer where the file ends sooner.
    ///
    /// No bytes ends the scan with `Ok(None)`. A complete header that passes
    /// its check asks for the rest of the frame: `Ok(Some(n))`, where `n` is
    /// the number of bytes to read next. Anything else is a corruption error.
    pub fn on_header(&mut self, header: &[u8]) -> (r: Result<Option<u64>, Error>)
        requires
            old(self).wf(),
            !old(self).finished(),
            old(self).pending() is None,
            header@.len() <= HEADER_LEN,
        ensures
            final(self).wf(),
            final(self).checked() == old(self).checked(),
            final(self).position() == old(self).position(),
            final(self).spans() == old(self).spans(),
            r matches Ok(None) <==> header@.len() == 0,
            r matches Ok(None) ==> final(self).finished() && final(self).pending() is None,
            r matches Ok(Some(n)) <==> {
                &&& header_accepted(header@, old(self).checked())
                &&& frame_fits(old(self).position(), le_value(header@.subrange(0, 8)))
            },
            r matches Ok(Some(n)) ==> {
                &&& n as nat == le_value(header@.subrange(0, 8)) + FOOTER_LEN
                &&& final(self).pending() == Some((n - FOOTER_LEN) as u64)
                &&& !final(self).finished()
            },
            r is Err ==> r->Err_0 is Corruption,
    {
        let len = match read_frame_length(header, self.check_integrity) {
            Err(e) => return Err(e),
            Ok(None) => {
                self.finished = true;
                return Ok(None);
            },
            Ok(Some(len)) => len,
        };
        let room: u64 = u64::MAX - self.position;
        if room < (HEADER_LEN + FOOTER_LEN) as u64 || room - ((HEADER_LEN + FOOTER_LEN) as u64)
            < len {
            return Err(Error::corruption("frame length exceeds any file size"));
        }
        self.pending = Some(len);
        Ok(Some(len + FOOTER_LEN as u64))
    }

    /// Takes the bytes that follow an accepted header: the payload and its
    /// checksum, or fewer where the file ends sooner.
    ///
    /// A body that passes its check records the payload's span and moves to
    /// the next frame; anything else is a corruption error.
    pub fn on_body(&mut self, body: &[u8]) -> (r: Result<(), Error>)
        requires
            old(self).wf(),
            old(self).pending() is Some,
        ensures
            final(self).wf(),
            final(self).checked() == old(self).checked(),
            !final(self).finished(),
            r is Ok <==> body_accepted(
                body@,
                old(self).pending()->Some_0 as nat,
                old(self).checked(),
            ),
            r is Ok ==> {
                let len = old(self).pending()->Some_0;
                let start = old(self).position() + HEADER_LEN;
                &&& final(self).spans() == old(self).spans().push(
                    FrameSpan { offset: start as u64, len },
                )
                &&& final(self).position() == start + len + FOOTER_LEN
                &&& final(self).pending() is None
            },
            r is Err ==> r->Err_0 is Corruption,
    {
        let len = match self.pending {
            Some(len) => len,
            None => 0,
        };
        match check_frame_body(body, len, self.check_integrity) {
            Err(e) => return Err(e),
            Ok(()) => {},
        }
        let offset = self.position + HEADER_LEN as u64;
        let span = FrameSpan { offset, len };
        let ghost before = self.spans@;
        self.spans.push(span);
        self.position = offset + len + FOOTER_LEN as u64;
        self.pending = None;
        assert(spans_ordered(self.spans@, self.position as nat)) by {
            assert forall|i: int, j: int| 0 <= i < j < self.spans@.len() implies
                #[trigger] self.spans@[i].offset + self.spans@[i].len <= #[trigger] self.spans@[j].offset by {
                if j < before.len() {
                    assert(self.spans@[j] == before[j]);
                }
            }
        }
        Ok(())
    }

    /// The payloads found, in file order.
    pub fn into_spans(self) -> (r: Vec<FrameSpan>)
        ensures
            r@ == self.spans(),
    {
        self.spans
    }
}

/// Integrity checking refuses a frame for its checksum and for nothing else:
/// a body of the announced length whose payload checksum does not match is
/// refused when checked and accepted when not.
pub proof fn lemma_checksum_matters_only_when_checked(body: Seq<u8>, len: nat)
    requires
        body.len() == len + FOOTER_LEN,
        crate::frame::masked_crc_of(body.subrange(0, len as int)) as nat != le_value(
            body.subrange(len as int, len + FOOTER_LEN),
        ),
    ensures
        !body_accepted(body, len, true),
        body_accepted(body, len, false),
{
}

} // verus!
