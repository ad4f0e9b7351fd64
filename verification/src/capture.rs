//! Decisions of the loopback capture loop: which mix format to open the
//! device with, where a device name ends, and how captured samples are
//! gathered into the fixed-size blocks that the display analyses.
use vstd::prelude::*;

verus! {

/// Block length handed to the display while it draws the waveform.
pub const WAVEFORM_BLOCK_LEN: usize = 1024;
/// Block length handed to the display while it draws the spectrum.
pub const SPECTRUM_BLOCK_LEN: usize = 1536;

/// The block length that the given display mode asks for.
pub open spec fn block_len(spectrum_mode: bool) -> nat {
    if spectrum_mode { SPECTRUM_BLOCK_LEN as nat } else { WAVEFORM_BLOCK_LEN as nat }
}

/// Picks the format to open the capture stream with: the device's mix
/// format when the device supports it as it is, else the closest match
/// that the device proposed, else still the mix format.
pub fn select_capture_format<F>(mix_supported: bool, closest_match: Option<F>, mix_format: F) -> (f: F)
    ensures
        f == (if mix_supported {
            mix_format
        } else {
            match closest_match {
                Some(c) => c,
                None => mix_format,
            }
        }),
{
    if mix_supported {
        mix_format
    } else {
        match closest_match {
            Some(c) => c,
            None => mix_format,
        }
    }
}

/// Length of a NUL-terminated UTF-16 name held in a fixed buffer: the
/// position of the first zero unit, or the whole buffer if there is none.
pub fn name_len(buf: &[u16]) -> (n: usize)
    ensures
        n <= buf@.len(),
        forall|j: int| 0 <= j < n ==> buf@[j] != 0u16,
        n < buf@.len() ==> buf@[n as int] == 0u16,
{
    let mut i: usize = 0;
    while i < buf.len()
        invariant
            i <= buf@.len(),
            forall|j: int| 0 <= j < i ==> buf@[j] != 0u16,
        decreases buf@.len() - i,
    {
        if buf[i] == 0 {
            return i;
        }
        i = i + 1;
    }
    i
}

/// The bins of a spectrum of real samples that carry information: the
/// first half (the second half mirrors it).
pub fn unique_bins<T: Copy>(spectrum: &Vec<T>) -> (half: Vec<T>)
    ensures
        half@ == spectrum@.take((spectrum@.len() / 2) as int),
{
    let n = spectrum.len() / 2;
    let mut half: Vec<T> = Vec::new();
    let mut i: usize = 0;
    while i < n
        invariant
            n == spectrum@.len() / 2,
            i <= n,
            half@ == spectrum@.take(i as int),
        decreases n - i,
    {
        half.push(spectrum[i]);
        i = i + 1;
        assert(half@ =~= spectrum@.take(i as int));
    }
    half
}

/// Captured mono samples waiting to be handed to the display, and the
/// display mode that was last seen (which fixes the block length).
pub struct BlockAccumulator<T> {
    pending: Vec<T>,
    spectrum_mode: bool,
}

impl<T: Copy> BlockAccumulator<T> {
    /// The samples waiting, oldest first.
    pub closed spec fn pending(&self) -> Seq<T> {
        self.pending@
    }

    /// The display mode last seen.
    pub closed spec fn spectrum_mode(&self) -> bool {
        self.spectrum_mode
    }

    /// An empty accumulator in waveform mode.
    pub fn new() -> (a: Self)
        ensures
            a.pending() == Seq::<T>::empty(),
            !a.spectrum_mode(),
    {
        BlockAccumulator { pending: Vec::new(), spectrum_mode: false }
    }

    /// Number of samples waiting.
    pub fn len(&self) -> (n: usize)
        ensures
            n == self.pending().len(),
    {
        self.pending.len()
    }

    /// Whether the display was last seen in spectrum mode.
    pub fn is_spectrum_mode(&self) -> (m: bool)
        ensures
            m == self.spectrum_mode(),
    {
        self.spectrum_mode
    }

    /// Appends one captured sample.
    pub fn push(&mut self, sample: T)
        ensures
            final(self).pending() == old(self).pending().push(sample),
            final(self).spectrum_mode() == old(self).spectrum_mode(),
    {
        self.pending.push(sample);
    }

    /// The block length for the mode last seen: 1536 samples in spectrum
    /// mode, 1024 otherwise.
    pub fn required_elements(&self) -> (n: usize)
        ensures
            n == block_len(self.spectrum_mode()),
    {
        if self.spectrum_mode {
            SPECTRUM_BLOCK_LEN
        } else {
            WAVEFORM_BLOCK_LEN
        }
    }

    /// Hands out the oldest block when enough samples are waiting: the
    /// first `required_elements()` samples leave the accumulator, in
    /// order, and the rest stay. With fewer samples waiting nothing
    /// changes.
    pub fn take_block(&mut self) -> (block: Option<Vec<T>>)
        ensures
            final(self).spectrum_mode() == old(self).spectrum_mode(),
            ({
                let req = block_len(old(self).spectrum_mode());
                if old(self).pending().len() >= req {
                    &&& block is Some
                    &&& block.unwrap()@ == old(self).pending().take(req as int)
                    &&& final(self).pending() == old(self).pending().skip(req as int)
                } else {
                    &&& block is None
                    &&& final(self).pending() == old(self).pending()
                }
            }),
    {
        let req = self.required_elements();
        if self.pending.len() >= req {
            let mut rest = self.pending.split_off(req);
            std::mem::swap(&mut self.pending, &mut rest);
            Some(rest)
        } else {
            None
        }
    }

    /// Records the display mode read from the shared flag (`None` when the
    /// flag could not be read this time, which keeps the mode last seen),
    /// and tells whether the block just handed out is to be turned into a
    /// spectrum: only when the flag was read and asks for one.
    pub fn observe_display_mode(&mut self, flag: Option<bool>) -> (transform: bool)
        ensures
            final(self).pending() == old(self).pending(),
            final(self).spectrum_mode() == (match flag {
                Some(m) => m,
                None => old(self).spectrum_mode(),
            }),
            transform == (flag == Some(true)),
    {
        match flag {
            Some(m) => {
                self.spectrum_mode = m;
                m
            },
            None => false,
        }
    }
}

/// Blocks are 1536 samples while the spectrum is shown and 1024 while
/// the waveform is, so a spectrum block always holds more samples.
pub proof fn lemma_block_lengths(spectrum_mode: bool)
    ensures
        block_len(spectrum_mode) == (if spectrum_mode { 1536nat } else { 1024nat }),
        block_len(false) < block_len(true),
{
}

/// The sample stream survives intact: if everything received so far is
/// what was handed out followed by what is waiting, then that stays true
/// after `push` appends a sample to what is waiting, and after
/// `take_block` moves the first `req` waiting samples, as one block, to
/// the end of what was handed out. No sample is lost, duplicated or
/// reordered.
pub proof fn lemma_stream_order_kept<T>(
    received: Seq<T>,
    handed_out: Seq<T>,
    pending: Seq<T>,
    sample: T,
    req: nat,
)
    requires
        received == handed_out + pending,
    ensures
        received.push(sample) == handed_out + pending.push(sample),
        req <= pending.len() ==> received == (handed_out + pending.take(req as int)) + pending.skip(
            req as int,
        ),
{
    assert(received.push(sample) =~= handed_out + pending.push(sample));
    if req <= pending.len() {
        assert(received =~= (handed_out + pending.take(req as int)) + pending.skip(req as int));
    }
}

} // verus!
