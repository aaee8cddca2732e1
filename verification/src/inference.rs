//! The inference engine: a fixed-topology linear classifier over one audio
//! frame, loaded once from a model artifact and then pure.
//!
//! Scores are fixed-point thousandths: the declared output range is
//! `0 ..= SCORE_SCALE`, and `WAKE_THRESHOLD` is the 0.5 detection threshold.
//! Samples are 16-bit PCM.

use vstd::prelude::*;

verus! {

/// Greatest input width (in samples) a model artifact may declare.
pub const MAX_FRAME_LEN: usize = 1048576;

/// The classifier's declared output range is `0 ..= SCORE_SCALE`
/// (fixed-point thousandths of full confidence).
pub const SCORE_SCALE: u32 = 1000;

/// Scores strictly above this raise the wake event (one half of full
/// confidence).
pub const WAKE_THRESHOLD: u32 = 500;

/// One fixed-duration window of 16-bit PCM samples, delivered by the OS
/// audio subsystem and consumed exactly once.
pub struct AudioFrame {
    pub samples: Vec<i16>,
}

impl View for AudioFrame {
    type V = Seq<i16>;

    open spec fn view(&self) -> Seq<i16> {
        self.samples@
    }
}

impl AudioFrame {
    pub fn new(samples: Vec<i16>) -> (f: AudioFrame)
        ensures
            f@ == samples@,
    {
        AudioFrame { samples }
    }

    pub fn len(&self) -> (n: usize)
        ensures
            n == self@.len(),
    {
        self.samples.len()
    }
}

/// The loaded classifier: one weight per sample position and an offset.
/// Weights lie in `-128 ..= 127`, the offset in `-32768 ..= 32767`; both are
/// fixed once the artifact is parsed.
#[derive(Debug, PartialEq, Eq, Clone)]
pub struct Model {
    pub input_len: usize,
    pub weights: Vec<i16>,
    pub bias: i32,
}

impl Model {
    /// Well-formedness established by [`parse_model`] and preserved ever
    /// after: the declared input width is positive and bounded, and there is
    /// exactly one bounded weight per sample position.
    pub open spec fn wf(&self) -> bool {
        &&& 1 <= self.input_len <= MAX_FRAME_LEN
        &&& self.weights@.len() == self.input_len
        &&& forall|i: int|
            0 <= i < self.weights@.len() ==> -128 <= #[trigger] self.weights@[i] <= 127
        &&& -32768 <= self.bias <= 32767
    }
}

/// Sum of the first `n` weight/sample products.
pub open spec fn dot_prefix(w: Seq<i16>, s: Seq<i16>, n: int) -> int
    decreases n,
{
    if n <= 0 {
        0
    } else {
        dot_prefix(w, s, n - 1) + w[n - 1] * s[n - 1]
    }
}

/// The model's unclamped response to a frame.
pub open spec fn raw_score(m: Model, frame: Seq<i16>) -> int {
    m.bias + dot_prefix(m.weights@, frame, m.weights@.len() as int)
}

/// Clamp a raw response into the declared output range.
pub open spec fn clamp_score(raw: int) -> int {
    if raw < 0 {
        0
    } else if raw > SCORE_SCALE {
        SCORE_SCALE as int
    } else {
        raw
    }
}

/// What `classify` returns on a frame of the model's declared width.
pub open spec fn spec_classify(m: Model, frame: Seq<i16>) -> int {
    clamp_score(raw_score(m, frame))
}

proof fn lemma_dot_prefix_bound(w: Seq<i16>, s: Seq<i16>, n: int)
    requires
        0 <= n <= w.len(),
        n <= s.len(),
        forall|i: int| 0 <= i < w.len() ==> -128 <= #[trigger] w[i] <= 127,
    ensures
        -(n * 4194304) <= dot_prefix(w, s, n) <= n * 4194304,
    decreases n,
{
    if n > 0 {
        lemma_dot_prefix_bound(w, s, n - 1);
        assert(-4194304 <= w[n - 1] * s[n - 1] <= 4194304) by (nonlinear_arith)
            requires
                -128 <= w[n - 1] <= 127,
                -32768 <= s[n - 1] <= 32767,
        ;
    }
}

impl Model {
    /// Run the classifier on one frame of exactly the declared width.
    /// Pure and deterministic; the result always lies in the declared
    /// output range `0 ..= SCORE_SCALE`.
    pub fn classify(&self, frame: &AudioFrame) -> (score: u32)
        requires
            self.wf(),
            frame@.len() == self.input_len,
        ensures
            score <= SCORE_SCALE,
            score as int == spec_classify(*self, frame@),
    {
        let n = self.input_len;
        let mut acc: i64 = self.bias as i64;
        let mut i: usize = 0;
        while i < n
            invariant
                self.wf(),
                frame@.len() == self.input_len,
                n == self.input_len,
                i <= n,
                acc as int == self.bias + dot_prefix(self.weights@, frame@, i as int),
                -32768 - (i as int) * 4194304 <= acc as int <= 32767 + (i as int) * 4194304,
            decreases n - i,
        {
            let w = self.weights[i];
            let s = frame.samples[i];
            proof {
                assert(-4194304 <= w * s <= 4194304) by (nonlinear_arith)
                    requires
                        -128 <= w <= 127,
                        -32768 <= s <= 32767,
                ;
            }
            acc = acc + (w as i64) * (s as i64);
            i = i + 1;
        }
        proof {
            lemma_dot_prefix_bound(self.weights@, frame@, n as int);
        }
        if acc < 0 {
            0
        } else if acc > SCORE_SCALE as i64 {
            SCORE_SCALE
        } else {
            acc as u32
        }
    }
}

/// Why a model artifact was rejected.
#[derive(Clone, Copy, PartialEq, Eq, Structural, Debug)]
pub enum ModelError {
    /// Fewer than the four header bytes.
    TooShort,
    /// The declared input width is zero or beyond `MAX_FRAME_LEN`.
    BadShape,
    /// The artifact's length does not match its declared width.
    LengthMismatch,
}

/// The artifact's declared input width: its first four bytes, little endian.
pub open spec fn artifact_width(b: Seq<u8>) -> int {
    b[0] + 256 * b[1] + 65536 * b[2] + 16777216 * b[3]
}

/// A well-formed artifact: four header bytes declaring a positive, bounded
/// width `n`, then one weight byte per sample position, then two offset
/// bytes — `6 + n` bytes in all.
pub open spec fn artifact_wf(b: Seq<u8>) -> bool {
    &&& b.len() >= 4
    &&& 1 <= artifact_width(b) <= MAX_FRAME_LEN
    &&& b.len() == 6 + artifact_width(b)
}

/// The weight a weight byte encodes, biased by 128.
pub open spec fn weight_of(byte: u8) -> int {
    byte - 128
}

/// The offset the two trailing bytes encode, little endian, biased by 32768.
pub open spec fn bias_of(lo: u8, hi: u8) -> int {
    lo + 256 * hi - 32768
}

/// Parse a model artifact read from the local resource path. A missing or
/// malformed artifact is fatal to the engine: the caller gets the exact
/// reason and no partially-built model.
pub fn parse_model(bytes: &[u8]) -> (r: Result<Model, ModelError>)
    ensures
        r is Ok <==> artifact_wf(bytes@),
        r matches Ok(m) ==> {
            &&& m.wf()
            &&& m.input_len == artifact_width(bytes@)
            &&& m.weights@.len() == m.input_len
            &&& forall|i: int|
                0 <= i < m.input_len ==> #[trigger] m.weights@[i] == weight_of(
                    bytes@[4 + i],
                )
            &&& m.bias == bias_of(bytes@[4 + m.input_len], bytes@[5 + m.input_len])
        },
        bytes@.len() < 4 ==> r == Err::<Model, ModelError>(ModelError::TooShort),
        bytes@.len() >= 4 && !(1 <= artifact_width(bytes@) <= MAX_FRAME_LEN) ==> r == Err::<
            Model,
            ModelError,
        >(ModelError::BadShape),
        bytes@.len() >= 4 && 1 <= artifact_width(bytes@) <= MAX_FRAME_LEN && bytes@.len() != 6
            + artifact_width(bytes@) ==> r == Err::<Model, ModelError>(ModelError::LengthMismatch),
{
    if bytes.len() < 4 {
        return Err(ModelError::TooShort);
    }
    let b0 = bytes[0] as u32;
    let b1 = bytes[1] as u32;
    let b2 = bytes[2] as u32;
    let b3 = bytes[3] as u32;
    let width: u32 = b0 + 256 * b1 + 65536 * b2 + 16777216 * b3;
    if width == 0 || width > MAX_FRAME_LEN as u32 {
        return Err(ModelError::BadShape);
    }
    let n = width as usize;
    if bytes.len() != 6 + n {
        return Err(ModelError::LengthMismatch);
    }
    let mut weights: Vec<i16> = Vec::new();
    let mut i: usize = 0;
    while i < n
        invariant
            n == artifact_width(bytes@),
            1 <= n <= MAX_FRAME_LEN,
            bytes@.len() == 6 + n,
            i <= n,
            weights@.len() == i,
            forall|j: int| 0 <= j < i ==> #[trigger] weights@[j] == weight_of(bytes@[4 + j]),
        decreases n - i,
    {
        let w: i16 = (bytes[4 + i] as i16) - 128;
        weights.push(w);
        i = i + 1;
    }
    let lo = bytes[4 + n] as i32;
    let hi = bytes[5 + n] as i32;
    let bias: i32 = lo + 256 * hi - 32768;
    Ok(Model { input_len: n, weights, bias })
}

} // verus!
