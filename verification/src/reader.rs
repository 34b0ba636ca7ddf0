//! Reading the clipboard after a trigger: when a polled payload is taken as
//! final, and how a raw image becomes a capture.

use vstd::prelude::*;
use crate::clip::{Clip, ClipView};
use crate::text::opt_view;

verus! {

/// Why a capture could not be produced.
#[derive(Clone, Copy, Debug, PartialEq, Eq, Structural)]
pub enum CaptureError {
    /// No attempt found text or an image on the clipboard.
    ClipboardUnavailable,
    /// The pixel buffer does not match its dimensions, or cannot be encoded.
    MalformedImageBuffer,
    /// The encoded image is too large to be written as text.
    PayloadTooLarge,
}

/// What to do after one read of the clipboard.
#[derive(Clone, Copy, Debug, PartialEq, Eq, Structural)]
pub enum PollDecision {
    /// The payload just read is the capture.
    Accept,
    /// Wait, then read again.
    Retry,
    /// No attempt is left and nothing was accepted.
    GiveUp,
}

/// Where a polling run stands: how many attempts it has in all, how many
/// were made, and the size of the last payload that was read and not
/// accepted.
#[derive(Clone, Copy, Debug, PartialEq, Eq, Structural)]
pub struct PollState {
    pub attempts: usize,
    pub attempt: usize,
    pub last_len: Option<usize>,
}

/// A payload of `size` bytes is accepted unless it is as large as the
/// previous one and another attempt is left.
pub open spec fn accepts(attempts: int, attempt: int, last: Option<usize>, size: usize) -> bool {
    last != Some(size) || attempt + 1 == attempts
}

/// The decision after the read numbered `state.attempt`. A run whose
/// attempts are used up gives up.
pub open spec fn step_decision(state: PollState, read: Option<usize>) -> PollDecision {
    if state.attempt >= state.attempts {
        PollDecision::GiveUp
    } else {
        match read {
            Some(size) => if accepts(
                state.attempts as int,
                state.attempt as int,
                state.last_len,
                size,
            ) {
                PollDecision::Accept
            } else {
                PollDecision::Retry
            },
            None => if state.attempt + 1 == state.attempts {
                PollDecision::GiveUp
            } else {
                PollDecision::Retry
            },
        }
    }
}

/// The state after the read numbered `state.attempt`. A run whose attempts
/// are used up stays as it is.
pub open spec fn step_state(state: PollState, read: Option<usize>) -> PollState {
    if state.attempt >= state.attempts {
        state
    } else {
        PollState {
            attempts: state.attempts,
            attempt: (state.attempt + 1) as usize,
            last_len: match read {
                Some(size) => Some(size),
                None => state.last_len,
            },
        }
    }
}

impl PollState {
    /// A run of `attempts` reads of which none was made.
    pub fn new(attempts: usize) -> (state: PollState)
        ensures
            state == (PollState { attempts, attempt: 0, last_len: None }),
    {
        PollState { attempts, attempt: 0, last_len: None }
    }

    /// Whether every attempt was made.
    pub fn exhausted(&self) -> (done: bool)
        ensures
            done == (self.attempt >= self.attempts),
    {
        self.attempt >= self.attempts
    }

    /// Takes in the outcome of one read, the size of the payload or `None`
    /// where the clipboard gave nothing, and says how to go on.
    pub fn poll_step(&mut self, read: Option<usize>) -> (decision: PollDecision)
        ensures
            decision == step_decision(*old(self), read),
            *final(self) == step_state(*old(self), read),
    {
        if self.attempt >= self.attempts {
            return PollDecision::GiveUp;
        }
        let last_attempt: bool = self.attempt + 1 == self.attempts;
        let decision: PollDecision = match read {
            Some(size) => {
                let same: bool = match self.last_len {
                    Some(previous) => previous == size,
                    None => false,
                };
                self.last_len = Some(size);
                if !same || last_attempt {
                    PollDecision::Accept
                } else {
                    PollDecision::Retry
                }
            },
            None => if last_attempt {
                PollDecision::GiveUp
            } else {
                PollDecision::Retry
            },
        };
        self.attempt = self.attempt + 1;
        decision
    }
}

/// The index of the read that a polling run accepts, given what each read
/// would find, when it stands at `attempt` with `last` as the previous size.
pub open spec fn poll_outcome(
    reads: Seq<Option<usize>>,
    attempts: int,
    attempt: int,
    last: Option<usize>,
) -> Option<int>
    decreases attempts - attempt,
{
    if attempt < 0 || attempt >= attempts || attempt >= reads.len() {
        None
    } else {
        match reads[attempt] {
            Some(size) => if accepts(attempts, attempt, last, size) {
                Some(attempt)
            } else {
                poll_outcome(reads, attempts, attempt + 1, Some(size))
            },
            None => poll_outcome(reads, attempts, attempt + 1, last),
        }
    }
}

/// Runs the polling decisions over a given series of reads and returns the
/// index of the read that is accepted.
pub fn read_clipboard_with_retry(reads: &Vec<Option<usize>>, attempts: usize) -> (accepted: Option<
    usize,
>)
    ensures
        match accepted {
            Some(i) => poll_outcome(reads@, attempts as int, 0, None) == Some(i as int),
            None => poll_outcome(reads@, attempts as int, 0, None) is None,
        },
{
    let mut state: PollState = PollState::new(attempts);
    while state.attempt < attempts && state.attempt < reads.len()
        invariant
            state.attempts == attempts,
            state.attempt <= attempts,
            poll_outcome(reads@, attempts as int, 0, None) == poll_outcome(
                reads@,
                attempts as int,
                state.attempt as int,
                state.last_len,
            ),
        decreases attempts - state.attempt,
    {
        let index: usize = state.attempt;
        match state.poll_step(reads[index]) {
            PollDecision::Accept => {
                return Some(index);
            },
            PollDecision::Retry => {},
            PollDecision::GiveUp => {
                return None;
            },
        }
    }
    None
}

/// A polling run that starts without a previous size accepts the first read
/// that finds a payload.
pub proof fn lemma_first_payload_is_accepted(
    reads: Seq<Option<usize>>,
    attempts: int,
    from: int,
    i: int,
)
    requires
        0 <= from <= i < attempts,
        i < reads.len(),
        reads[i] is Some,
        forall|j: int| from <= j < i ==> reads[j] is None,
    ensures
        poll_outcome(reads, attempts, from, None) == Some(i),
    decreases i - from,
{
    if from < i {
        lemma_first_payload_is_accepted(reads, attempts, from + 1, i);
    }
}

/// On the last attempt whatever was read is accepted, whatever its size.
pub proof fn lemma_last_attempt_accepts(state: PollState, size: usize)
    requires
        state.attempt + 1 == state.attempts,
    ensures
        step_decision(state, Some(size)) == PollDecision::Accept,
{
}

/// A payload as large as the previous one is read again while attempts are
/// left; one of another size is accepted at once.
pub proof fn lemma_same_size_polls_again(state: PollState, size: usize)
    requires
        state.attempt + 1 < state.attempts,
    ensures
        step_decision(state, Some(size)) == (if state.last_len == Some(size) {
            PollDecision::Retry
        } else {
            PollDecision::Accept
        }),
{
}

/// The PNG file that the encoder writes for RGBA pixels of the given
/// dimensions, or `None` where it refuses them.
pub uninterp spec fn png_encoding(pixels: Seq<u8>, width: u32, height: u32) -> Option<Seq<u8>>;

/// The text that the standard base64 alphabet, with padding, gives for
/// `bytes`.
pub uninterp spec fn base64_text(bytes: Seq<u8>) -> Seq<char>;

/// Calls `image::ImageBuffer::from_raw` for RGBA pixels and `write_to` with
/// the PNG format. The buffer must hold exactly four bytes for each pixel;
/// the contract names the file written, and `None` stands for an encoder
/// error.
#[verifier::external_body]
fn encode_png(pixels: &[u8], width: u32, height: u32) -> (png: Option<Vec<u8>>)
    requires
        pixels@.len() == 4 * width * height,
    ensures
        match png {
            Some(bytes) => png_encoding(pixels@, width, height) == Some(bytes@),
            None => png_encoding(pixels@, width, height) is None,
        },
{
    let buffer = image::ImageBuffer::<image::Rgba<u8>, &[u8]>::from_raw(width, height, pixels)?;
    let mut png: Vec<u8> = Vec::new();
    buffer.write_to(&mut std::io::Cursor::new(&mut png), image::ImageFormat::Png).ok()?;
    Some(png)
}

/// Calls `encode` of `base64`'s standard engine. The input must be short
/// enough for the encoded length to fit in `usize`; the contract names the
/// text.
#[verifier::external_body]
fn encode_base64(bytes: &[u8]) -> (text: String)
    requires
        (bytes@.len() / 3 + 1) * 4 <= usize::MAX,
    ensures
        text@ == base64_text(bytes@),
{
    base64::Engine::encode(&base64::engine::general_purpose::STANDARD, bytes)
}

/// Whether a pixel buffer of `len` bytes holds exactly `width` by `height`
/// RGBA pixels, with dimensions that an image can have.
pub open spec fn dimensions_fit(len: nat, width: nat, height: nat) -> bool {
    width <= u32::MAX && height <= u32::MAX && len == 4 * width * height
}

/// The PNG file for a raw pixel buffer.
pub open spec fn png_of(pixels: Seq<u8>, width: nat, height: nat) -> Result<Seq<u8>, CaptureError> {
    if !dimensions_fit(pixels.len(), width, height) {
        Err(CaptureError::MalformedImageBuffer)
    } else {
        match png_encoding(pixels, width as u32, height as u32) {
            Some(bytes) => Ok(bytes),
            None => Err(CaptureError::MalformedImageBuffer),
        }
    }
}

/// Whether `bytes` is short enough to be written as base64 text.
pub open spec fn encodable(bytes: Seq<u8>) -> bool {
    bytes.len() / 3 < usize::MAX / 4
}

/// The capture that a raw image becomes.
pub open spec fn normalized_image(pixels: Seq<u8>, width: nat, height: nat) -> Result<
    ClipView,
    CaptureError,
> {
    match png_of(pixels, width, height) {
        Ok(bytes) => if encodable(bytes) {
            Ok(ClipView::Image { data: base64_text(bytes), width, height })
        } else {
            Err(CaptureError::PayloadTooLarge)
        },
        Err(e) => Err(e),
    }
}

/// Encodes raw RGBA pixels as a PNG file. A buffer whose length is not four
/// bytes for each pixel is rejected before the encoder sees it.
pub fn raw_pixels_to_png(pixels: &[u8], width: usize, height: usize) -> (png: Result<
    Vec<u8>,
    CaptureError,
>)
    ensures
        match png {
            Ok(bytes) => png_of(pixels@, width as nat, height as nat) == Ok::<
                Seq<u8>,
                CaptureError,
            >(bytes@),
            Err(e) => png_of(pixels@, width as nat, height as nat) == Err::<Seq<u8>, CaptureError>(
                e,
            ),
        },
{
    if width > 0xFFFF_FFFF || height > 0xFFFF_FFFF {
        return Err(CaptureError::MalformedImageBuffer);
    }
    let w: u128 = width as u128;
    let h: u128 = height as u128;
    assert(4 * w * h <= 4 * 0xFFFF_FFFF * 0xFFFF_FFFF) by (nonlinear_arith)
        requires
            w <= 0xFFFF_FFFF,
            h <= 0xFFFF_FFFF,
    ;
    let wanted: u128 = 4 * w * h;
    if pixels.len() as u128 != wanted {
        return Err(CaptureError::MalformedImageBuffer);
    }
    match encode_png(pixels, width as u32, height as u32) {
        Some(bytes) => Ok(bytes),
        None => Err(CaptureError::MalformedImageBuffer),
    }
}

/// Turns a raw image from the clipboard into a capture: PNG, then base64
/// text, with the dimensions it came with.
pub fn normalize_image(pixels: &[u8], width: usize, height: usize) -> (capture: Result<
    Clip,
    CaptureError,
>)
    ensures
        match capture {
            Ok(clip) => normalized_image(pixels@, width as nat, height as nat) == Ok::<
                ClipView,
                CaptureError,
            >(clip@),
            Err(e) => normalized_image(pixels@, width as nat, height as nat) == Err::<
                ClipView,
                CaptureError,
            >(e),
        },
{
    match raw_pixels_to_png(pixels, width, height) {
        Ok(png) => {
            if png.len() / 3 < usize::MAX / 4 {
                let data: String = encode_base64(png.as_slice());
                Ok(Clip::Image { data, width, height })
            } else {
                Err(CaptureError::PayloadTooLarge)
            }
        },
        Err(e) => Err(e),
    }
}

/// A raw image as the clipboard hands it out.
#[derive(Debug, PartialEq, Eq)]
pub struct RawImage {
    pub bytes: Vec<u8>,
    pub width: usize,
    pub height: usize,
}

/// What one read of the clipboard yields.
pub open spec fn read_once(text: Option<Seq<char>>, image: Option<RawImage>) -> Result<
    Option<ClipView>,
    CaptureError,
> {
    match text {
        Some(plain) => Ok(Some(ClipView::Text { plain })),
        None => match image {
            Some(raw) => match normalized_image(raw.bytes@, raw.width as nat, raw.height as nat) {
                Ok(clip) => Ok(Some(clip)),
                Err(e) => Err(e),
            },
            None => Ok(None),
        },
    }
}

/// Makes a capture of what one read of the clipboard found. Text goes
/// before an image; an image that cannot be normalized fails the capture;
/// with neither there is nothing yet.
pub fn read_clipboard_once(text: Option<String>, image: Option<RawImage>) -> (capture: Result<
    Option<Clip>,
    CaptureError,
>)
    ensures
        match capture {
            Ok(Some(clip)) => read_once(opt_view(text), image) == Ok::<
                Option<ClipView>,
                CaptureError,
            >(Some(clip@)),
            Ok(None) => read_once(opt_view(text), image) == Ok::<
                Option<ClipView>,
                CaptureError,
            >(None),
            Err(e) => read_once(opt_view(text), image) == Err::<
                Option<ClipView>,
                CaptureError,
            >(e),
        },
{
    match text {
        Some(plain) => Ok(Some(Clip::Text { plain })),
        None => match image {
            Some(raw) => match normalize_image(raw.bytes.as_slice(), raw.width, raw.height) {
                Ok(clip) => Ok(Some(clip)),
                Err(e) => Err(e),
            },
            None => Ok(None),
        },
    }
}

/// Closes a polling run: a run that accepted nothing failed for want of a
/// payload.
pub fn finish_capture(polled: Result<Option<Clip>, CaptureError>) -> (capture: Result<
    Clip,
    CaptureError,
>)
    ensures
        match polled {
            Ok(Some(clip)) => capture == Ok::<Clip, CaptureError>(clip),
            Ok(None) => capture == Err::<Clip, CaptureError>(CaptureError::ClipboardUnavailable),
            Err(e) => capture == Err::<Clip, CaptureError>(e),
        },
{
    match polled {
        Ok(Some(clip)) => Ok(clip),
        Ok(None) => Err(CaptureError::ClipboardUnavailable),
        Err(e) => Err(e),
    }
}

} // verus!
