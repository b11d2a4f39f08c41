use vstd::prelude::*;

use crate::windows::Window;
use crate::StftNum;

verus! {

/// How the signal is extended before it is cut into frames.
#[derive(Clone, Copy, Debug, PartialEq, Eq, Structural)]
pub enum PadMode {
    /// No padding: a trailing partial frame is dropped.
    Truncate,
    /// Zeros are appended at the end of the signal.
    End,
    /// Zeros are split between the front and the end of the signal.
    Center,
}

impl Default for PadMode {
    fn default() -> (r: PadMode)
        ensures
            r == PadMode::Truncate,
    {
        PadMode::Truncate
    }
}

/// Why a configuration or an input was refused.
#[derive(Clone, Copy, Debug, PartialEq, Eq, Structural)]
pub enum StftError {
    /// The transform size is zero.
    ZeroFftSize,
    /// The frame advance is zero.
    ZeroHopLength,
    /// The window support is longer than the transform.
    WinLengthExceedsFftSize { win_length: usize, n_fft: usize },
    /// An explicit window does not have `win_length` coefficients.
    WindowLengthMismatch { expected: usize, found: usize },
    /// End or Center padding was asked for a signal shorter than the transform.
    SignalShorterThanFftSize { len: usize, n_fft: usize },
    /// The lower decibel level of a normalization is not negative.
    NonNegativeMinLevel { min_level_db: i16 },
}


/// Where the window coefficients come from.
pub enum WindowSource<T> {
    /// A named kind, synthesized with `win_length` coefficients.
    Named(Window),
    /// Coefficients supplied by the caller, `win_length` of them.
    Coefficients(Vec<T>),
}

/// Default transform size.
pub const DEFAULT_N_FFT: usize = 2048;

/// Accumulates the options of an STFT; `build` validates them.
/// An option left `None` takes its default.
pub struct StftBuilder<T> {
    pub n_fft: Option<usize>,
    pub hop_length: Option<usize>,
    pub win_length: Option<usize>,
    pub pad_mode: Option<PadMode>,
    pub window: Option<Vec<T>>,
    pub window_named: Option<Window>,
    pub normalize: Option<bool>,
}

/// A validated STFT configuration.
pub struct Stft<T> {
    pub n_fft: usize,
    pub hop_length: usize,
    pub win_length: usize,
    pub pad_mode: PadMode,
    pub window: WindowSource<T>,
    /// Whether the spectrum is divided by the L2 norm of the window.
    pub normalize: bool,
}

impl<T: StftNum> StftBuilder<T> {
    pub open spec fn spec_n_fft(&self) -> usize {
        match self.n_fft {
            Some(n) => n,
            None => DEFAULT_N_FFT,
        }
    }

    pub open spec fn spec_win_length(&self) -> usize {
        match self.win_length {
            Some(w) => w,
            None => self.spec_n_fft(),
        }
    }

    pub open spec fn spec_hop_length(&self) -> usize {
        match self.hop_length {
            Some(h) => h,
            None => (self.spec_win_length() / 4) as usize,
        }
    }

    pub open spec fn spec_pad_mode(&self) -> PadMode {
        match self.pad_mode {
            Some(p) => p,
            None => PadMode::Truncate,
        }
    }

    pub open spec fn spec_window(&self) -> WindowSource<T> {
        match self.window {
            Some(w) => WindowSource::Coefficients(w),
            None => WindowSource::Named(
                match self.window_named {
                    Some(k) => k,
                    None => Window::Hann,
                },
            ),
        }
    }

    pub open spec fn spec_normalize(&self) -> bool {
        match self.normalize {
            Some(b) => b,
            None => true,
        }
    }

    /// The error that `build` reports, if any, checked in this order.
    pub open spec fn spec_error(&self) -> Option<StftError> {
        let n = self.spec_n_fft();
        let w = self.spec_win_length();
        if n == 0 {
            Some(StftError::ZeroFftSize)
        } else if w > n {
            Some(StftError::WinLengthExceedsFftSize { win_length: w, n_fft: n })
        } else if self.spec_window() is Coefficients
            && self.spec_window()->Coefficients_0@.len() != w {
            Some(
                StftError::WindowLengthMismatch {
                    expected: w,
                    found: self.spec_window()->Coefficients_0@.len() as usize,
                },
            )
        } else if self.spec_hop_length() == 0 {
            Some(StftError::ZeroHopLength)
        } else {
            None
        }
    }

    /// A builder with every option left to its default.
    pub fn new() -> (r: StftBuilder<T>)
        ensures
            r.n_fft is None,
            r.hop_length is None,
            r.win_length is None,
            r.pad_mode is None,
            r.window is None,
            r.window_named is None,
            r.normalize is None,
            r.spec_n_fft() == DEFAULT_N_FFT,
            r.spec_win_length() == DEFAULT_N_FFT,
            r.spec_hop_length() == DEFAULT_N_FFT / 4,
            r.spec_pad_mode() == PadMode::Truncate,
            r.spec_window() == WindowSource::<T>::Named(Window::Hann),
            r.spec_normalize(),
    {
        StftBuilder {
            n_fft: None,
            hop_length: None,
            win_length: None,
            pad_mode: None,
            window: None,
            window_named: None,
            normalize: None,
        }
    }

    pub fn n_fft(self, n_fft: usize) -> (r: StftBuilder<T>)
        ensures
            r == (StftBuilder { n_fft: Some(n_fft), ..self }),
    {
        StftBuilder { n_fft: Some(n_fft), ..self }
    }

    pub fn hop_length(self, hop_length: usize) -> (r: StftBuilder<T>)
        ensures
            r == (StftBuilder { hop_length: Some(hop_length), ..self }),
    {
        StftBuilder { hop_length: Some(hop_length), ..self }
    }

    pub fn win_length(self, win_length: usize) -> (r: StftBuilder<T>)
        ensures
            r == (StftBuilder { win_length: Some(win_length), ..self }),
    {
        StftBuilder { win_length: Some(win_length), ..self }
    }

    pub fn pad_mode(self, pad_mode: PadMode) -> (r: StftBuilder<T>)
        ensures
            r == (StftBuilder { pad_mode: Some(pad_mode), ..self }),
    {
        StftBuilder { pad_mode: Some(pad_mode), ..self }
    }

    /// Uses explicit coefficients; they take precedence over a named kind.
    pub fn window(self, window: Vec<T>) -> (r: StftBuilder<T>)
        ensures
            r == (StftBuilder { window: Some(window), ..self }),
    {
        StftBuilder { window: Some(window), ..self }
    }

    /// Same as `window`.
    pub fn window_from_vec(self, window: Vec<T>) -> (r: StftBuilder<T>)
        ensures
            r == (StftBuilder { window: Some(window), ..self }),
    {
        self.window(window)
    }

    pub fn window_named(self, window: Window) -> (r: StftBuilder<T>)
        ensures
            r == (StftBuilder { window_named: Some(window), ..self }),
    {
        StftBuilder { window_named: Some(window), ..self }
    }

    pub fn normalize(self, normalize: bool) -> (r: StftBuilder<T>)
        ensures
            r == (StftBuilder { normalize: Some(normalize), ..self }),
    {
        StftBuilder { normalize: Some(normalize), ..self }
    }

    /// Resolves the defaults and validates the configuration.
    pub fn build(self) -> (r: Result<Stft<T>, StftError>)
        ensures
            match r {
                Ok(s) => {
                    &&& self.spec_error().is_none()
                    &&& s.wf()
                    &&& s.n_fft == self.spec_n_fft()
                    &&& s.win_length == self.spec_win_length()
                    &&& s.hop_length == self.spec_hop_length()
                    &&& s.pad_mode == self.spec_pad_mode()
                    &&& s.window == self.spec_window()
                    &&& s.normalize == self.spec_normalize()
                },
                Err(e) => self.spec_error() == Some(e),
            },
    {
        let n_fft = match self.n_fft {
            Some(n) => n,
            None => DEFAULT_N_FFT,
        };
        let win_length = match self.win_length {
            Some(w) => w,
            None => n_fft,
        };
        let hop_length = match self.hop_length {
            Some(h) => h,
            None => win_length / 4,
        };
        if n_fft == 0 {
            return Err(StftError::ZeroFftSize);
        }
        if win_length > n_fft {
            return Err(StftError::WinLengthExceedsFftSize { win_length, n_fft });
        }
        let window = match self.window {
            Some(w) => {
                if w.len() != win_length {
                    return Err(
                        StftError::WindowLengthMismatch { expected: win_length, found: w.len() },
                    );
                }
                WindowSource::Coefficients(w)
            },
            None => WindowSource::Named(
                match self.window_named {
                    Some(k) => k,
                    None => Window::Hann,
                },
            ),
        };
        if hop_length == 0 {
            return Err(StftError::ZeroHopLength);
        }
        let pad_mode = match self.pad_mode {
            Some(p) => p,
            None => PadMode::Truncate,
        };
        let normalize = match self.normalize {
            Some(b) => b,
            None => true,
        };
        Ok(Stft { n_fft, hop_length, win_length, pad_mode, window, normalize })
    }
}

impl<T: StftNum> Stft<T> {
    /// The configuration invariants: a non-empty transform, a window support
    /// that fits in it, a positive frame advance, and explicit coefficients
    /// of the support's length.
    pub open spec fn wf(&self) -> bool {
        &&& 0 < self.n_fft
        &&& self.win_length <= self.n_fft
        &&& 0 < self.hop_length
        &&& (self.window matches WindowSource::Coefficients(c) ==> c@.len() == self.win_length)
    }

    /// Tests the configuration invariants.
    pub fn is_valid(&self) -> (r: bool)
        ensures
            r == self.wf(),
    {
        let coefficients_fit = match &self.window {
            WindowSource::Coefficients(c) => c.len() == self.win_length,
            WindowSource::Named(_) => true,
        };
        0 < self.n_fft && self.win_length <= self.n_fft && 0 < self.hop_length && coefficients_fit
    }

    /// First index of the window support inside the transform buffer.
    pub open spec fn spec_window_offset(&self) -> nat {
        ((self.n_fft - self.win_length) / 2) as nat
    }

    /// The transform-length window: `coeffs` centered, zeros elsewhere.
    pub open spec fn placed_window(&self, coeffs: Seq<T>, zero: T) -> Seq<T> {
        let off = self.spec_window_offset() as int;
        Seq::new(
            self.n_fft as nat,
            |i: int|
                if off <= i < off + self.win_length {
                    coeffs[i - off]
                } else {
                    zero
                },
        )
    }

    /// Number of padding samples that End and Center add to a signal of
    /// `len` samples.
    pub open spec fn spec_n_pad(&self, len: nat) -> nat {
        (self.hop_length - ((len - self.n_fft) as nat % (self.hop_length as nat))) as nat
    }

    /// The signal after padding.
    pub open spec fn padded(&self, s: Seq<T>, zero: T) -> Seq<T> {
        let n_pad = self.spec_n_pad(s.len());
        let front = n_pad / 2;
        match self.pad_mode {
            PadMode::Truncate => s,
            PadMode::End => s + Seq::new(n_pad, |i: int| zero),
            PadMode::Center => Seq::new(front, |i: int| zero) + s + Seq::new(
                (n_pad - front) as nat,
                |i: int| zero,
            ),
        }
    }

    /// Whether padding refuses a signal of `len` samples.
    pub open spec fn pad_refuses(&self, len: nat) -> bool {
        self.pad_mode != PadMode::Truncate && len < self.n_fft
    }

    /// Number of whole frames in a padded signal of `len` samples; none when
    /// it is shorter than one frame.
    pub open spec fn spec_n_frames(&self, len: nat) -> nat {
        if len < self.n_fft {
            0
        } else {
            1 + ((len - self.n_fft) as nat / (self.hop_length as nat))
        }
    }

    /// Frame `f` of a padded signal: `n_fft` samples from `f * hop_length`.
    pub open spec fn spec_frame(&self, padded: Seq<T>, f: nat) -> Seq<T> {
        padded.subrange(f * self.hop_length, f * self.hop_length + self.n_fft)
    }

    /// Number of frequency bins of the one-sided spectrum.
    pub open spec fn spec_n_freqs(&self) -> nat {
        self.n_fft as nat / 2 + 1
    }

    pub fn window_offset(&self) -> (r: usize)
        requires
            self.wf(),
        ensures
            r == self.spec_window_offset(),
    {
        (self.n_fft - self.win_length) / 2
    }

    pub fn n_freqs(&self) -> (r: usize)
        requires
            self.wf(),
        ensures
            r == self.spec_n_freqs(),
    {
        self.n_fft / 2 + 1
    }

    /// Places `win_length` coefficients in a zero buffer of `n_fft` samples,
    /// starting at `window_offset`.
    pub fn place_window(&self, coeffs: &Vec<T>, zero: T) -> (r: Vec<T>)
        requires
            self.wf(),
            coeffs@.len() == self.win_length,
        ensures
            r@ == self.placed_window(coeffs@, zero),
    {
        let off = self.window_offset();
        let mut r: Vec<T> = Vec::with_capacity(self.n_fft);
        let mut i: usize = 0;
        while i < self.n_fft
            invariant
                self.wf(),
                coeffs@.len() == self.win_length,
                off == self.spec_window_offset(),
                i <= self.n_fft,
                r@.len() == i,
                forall|j: int| 0 <= j < i ==> r@[j] == self.placed_window(coeffs@, zero)[j],
            decreases self.n_fft - i,
        {
            if off <= i && i < off + self.win_length {
                r.push(coeffs[i - off]);
            } else {
                r.push(zero);
            }
            i += 1;
        }
        assert(r@ =~= self.placed_window(coeffs@, zero));
        r
    }

    /// Number of frames in a padded signal of `len` samples.
    pub fn n_frames(&self, len: usize) -> (r: usize)
        requires
            self.wf(),
        ensures
            r == self.spec_n_frames(len as nat),
    {
        if len < self.n_fft {
            0
        } else {
            1 + (len - self.n_fft) / self.hop_length
        }
    }

    /// Pads the signal as `pad_mode` says. End and Center refuse a signal
    /// shorter than one frame.
    pub fn pad(&self, signal: Vec<T>, zero: T) -> (r: Result<Vec<T>, StftError>)
        requires
            self.wf(),
            signal@.len() + self.hop_length <= usize::MAX,
        ensures
            match r {
                Ok(p) => !self.pad_refuses(signal@.len()) && p@ == self.padded(signal@, zero),
                Err(e) => self.pad_refuses(signal@.len()) && e == (
                StftError::SignalShorterThanFftSize { len: signal@.len() as usize, n_fft: self.n_fft }),
            },
    {
        let len = signal.len();
        if self.pad_mode == PadMode::Truncate {
            return Ok(signal);
        }
        if len < self.n_fft {
            return Err(StftError::SignalShorterThanFftSize { len, n_fft: self.n_fft });
        }
        let n_pad = self.hop_length - (len - self.n_fft) % self.hop_length;
        let front = if self.pad_mode == PadMode::Center {
            n_pad / 2
        } else {
            0
        };
        let mut out: Vec<T> = Vec::with_capacity(len + n_pad);
        let mut i: usize = 0;
        while i < front
            invariant
                i <= front,
                out@ =~= Seq::new(i as nat, |k: int| zero),
            decreases front - i,
        {
            out.push(zero);
            i += 1;
        }
        let mut j: usize = 0;
        while j < len
            invariant
                len == signal@.len(),
                j <= len,
                out@ =~= Seq::new(front as nat, |k: int| zero) + signal@.subrange(0, j as int),
            decreases len - j,
        {
            out.push(signal[j]);
            j += 1;
        }
        let mut k: usize = 0;
        while k < n_pad - front
            invariant
                len == signal@.len(),
                front <= n_pad,
                k <= n_pad - front,
                out@ =~= Seq::new(front as nat, |x: int| zero) + signal@ + Seq::new(
                    k as nat,
                    |x: int| zero,
                ),
            decreases n_pad - front - k,
        {
            out.push(zero);
            k += 1;
        }
        assert(out@ =~= self.padded(signal@, zero));
        Ok(out)
    }

    /// Copies frame `f` out of a padded signal.
    pub fn frame(&self, padded: &Vec<T>, f: usize) -> (r: Vec<T>)
        requires
            self.wf(),
            f < self.spec_n_frames(padded@.len()),
        ensures
            r@ == self.spec_frame(padded@, f as nat),
    {
        let len = padded.len();
        proof {
            lemma_frame_in_bounds(self.n_fft as nat, self.hop_length as nat, padded@.len(), f as nat);
        }
        let start = f * self.hop_length;
        let mut r: Vec<T> = Vec::with_capacity(self.n_fft);
        let mut i: usize = 0;
        while i < self.n_fft
            invariant
                self.wf(),
                start == f * self.hop_length,
                start + self.n_fft <= padded@.len(),
                len == padded@.len(),
                i <= self.n_fft,
                r@ =~= padded@.subrange(start as int, start + i),
            decreases self.n_fft - i,
        {
            r.push(padded[start + i]);
            i += 1;
        }
        r
    }

    /// Pads the signal and cuts it into frames of `n_fft` samples, one every
    /// `hop_length` samples; samples after the last whole frame are dropped.
    pub fn frames(&self, signal: Vec<T>, zero: T) -> (r: Result<Vec<Vec<T>>, StftError>)
        requires
            self.wf(),
            signal@.len() + self.hop_length <= usize::MAX,
        ensures
            match r {
                Ok(frames) => {
                    let p = self.padded(signal@, zero);
                    &&& !self.pad_refuses(signal@.len())
                    &&& frames@.len() == self.spec_n_frames(p.len())
                    &&& forall|f: int|
                        0 <= f < frames@.len() ==> #[trigger] frames@[f]@ == self.spec_frame(
                            p,
                            f as nat,
                        )
                },
                Err(e) => self.pad_refuses(signal@.len()) && e == (
                StftError::SignalShorterThanFftSize { len: signal@.len() as usize, n_fft: self.n_fft }),
            },
    {
        let padded = match self.pad(signal, zero) {
            Ok(p) => p,
            Err(e) => return Err(e),
        };
        let n_frames = self.n_frames(padded.len());
        let mut out: Vec<Vec<T>> = Vec::with_capacity(n_frames);
        let mut f: usize = 0;
        while f < n_frames
            invariant
                self.wf(),
                n_frames == self.spec_n_frames(padded@.len()),
                f <= n_frames,
                out@.len() == f,
                forall|g: int|
                    0 <= g < f ==> #[trigger] out@[g]@ == self.spec_frame(padded@, g as nat),
            decreases n_frames - f,
        {
            let fr = self.frame(&padded, f);
            out.push(fr);
            f += 1;
        }
        Ok(out)
    }

    /// Shape of the spectrogram of a signal of `len` samples: frequency bins
    /// by frames.
    pub fn output_shape(&self, len: usize) -> (r: Result<(usize, usize), StftError>)
        requires
            self.wf(),
            len + self.hop_length <= usize::MAX,
        ensures
            match r {
                Ok((rows, cols)) => {
                    &&& !self.pad_refuses(len as nat)
                    &&& rows == self.spec_n_freqs()
                    &&& cols == self.spec_n_frames(self.padded_len(len as nat))
                },
                Err(e) => self.pad_refuses(len as nat) && e == (
                StftError::SignalShorterThanFftSize { len, n_fft: self.n_fft }),
            },
    {
        if self.pad_mode != PadMode::Truncate && len < self.n_fft {
            return Err(StftError::SignalShorterThanFftSize { len, n_fft: self.n_fft });
        }
        let padded_len = if self.pad_mode == PadMode::Truncate {
            len
        } else {
            len + (self.hop_length - (len - self.n_fft) % self.hop_length)
        };
        Ok((self.n_freqs(), self.n_frames(padded_len)))
    }

    /// Length of a signal of `len` samples after padding.
    pub open spec fn padded_len(&self, len: nat) -> nat {
        if self.pad_mode == PadMode::Truncate {
            len
        } else {
            len + self.spec_n_pad(len)
        }
    }
}


/// Without padding, a signal of at least one frame yields
/// `(len - n_fft) / hop_length + 1` frames, and a shorter one none.
pub proof fn lemma_truncate_frame_count<T: StftNum>(stft: Stft<T>, signal: Seq<T>, zero: T)
    requires
        stft.wf(),
        stft.pad_mode == PadMode::Truncate,
    ensures
        !stft.pad_refuses(signal.len()),
        stft.padded(signal, zero) == signal,
        signal.len() >= stft.n_fft ==> stft.spec_n_frames(stft.padded(signal, zero).len()) == (
        signal.len() - stft.n_fft) as nat / (stft.hop_length as nat) + 1,
        signal.len() < stft.n_fft ==> stft.spec_n_frames(stft.padded(signal, zero).len()) == 0,
{
}

/// Every frame holds `n_fft` samples, so every column of the spectrogram
/// has `n_fft / 2 + 1` bins, whatever the signal's length.
pub proof fn lemma_frames_have_fft_length<T: StftNum>(stft: Stft<T>, padded: Seq<T>, f: nat)
    requires
        stft.wf(),
        f < stft.spec_n_frames(padded.len()),
    ensures
        stft.spec_frame(padded, f).len() == stft.n_fft,
        stft.spec_n_freqs() == stft.n_fft / 2 + 1,
{
    lemma_frame_in_bounds(stft.n_fft as nat, stft.hop_length as nat, padded.len(), f);
}

/// End and Center padding leave no partial frame: the last frame ends on
/// the last padded sample.
pub proof fn lemma_padding_fills_last_frame<T: StftNum>(stft: Stft<T>, signal: Seq<T>, zero: T)
    requires
        stft.wf(),
        stft.pad_mode != PadMode::Truncate,
        signal.len() >= stft.n_fft,
    ensures
        ({
            let p = stft.padded(signal, zero);
            (stft.spec_n_frames(p.len()) - 1) * stft.hop_length + stft.n_fft == p.len()
        }),
{
    let h = stft.hop_length as int;
    let x = (signal.len() - stft.n_fft) as int;
    let p = stft.padded(signal, zero);
    vstd::arithmetic::div_mod::lemma_fundamental_div_mod(x, h);
    vstd::arithmetic::div_mod::lemma_mod_pos_bound(x, h);
    let q = x / h;
    let rem = x % h;
    assert(p.len() == signal.len() + h - rem);
    assert(p.len() - stft.n_fft == h * (q + 1)) by (nonlinear_arith)
        requires
            x == h * q + rem,
            p.len() == signal.len() + h - rem,
            x == signal.len() - stft.n_fft,
    {
    }
    vstd::arithmetic::div_mod::lemma_div_multiples_vanish(q + 1, h);
    assert((p.len() - stft.n_fft) / h == q + 1);
    assert((q + 1) * h + stft.n_fft == p.len()) by (nonlinear_arith)
        requires
            p.len() - stft.n_fft == h * (q + 1),
    {
    }
}

/// A frame that starts at a multiple of the hop below the last whole frame
/// ends inside the signal.
proof fn lemma_frame_in_bounds(n_fft: nat, hop: nat, len: nat, f: nat)
    requires
        0 < hop,
        n_fft <= len,
        f < 1 + (len - n_fft) as nat / hop,
    ensures
        f * hop + n_fft <= len,
{
    let x = (len - n_fft) as int;
    let q = x / (hop as int);
    assert(f <= q);
    vstd::arithmetic::div_mod::lemma_fundamental_div_mod(x, hop as int);
    vstd::arithmetic::div_mod::lemma_mod_pos_bound(x, hop as int);
    assert(f * hop <= x) by (nonlinear_arith)
        requires
            f <= q,
            x == hop * q + x % (hop as int),
            0 <= x % (hop as int),
            0 <= f,
            0 < hop,
    {
    }
}

} // verus!
