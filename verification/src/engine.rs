//! The distribution engine: one stereo input block is passed through to the
//! main output untouched and written, scaled by a per-destination gain
//! snapshot, into four auxiliary output buffers.

use vstd::prelude::*;

use crate::params::{GainParams, GainSnapshot};
use crate::NANO;

verus! {

/// The largest sample magnitude the engine accepts. Scaling such a sample by
/// the largest amplitude (just under four times unity) still fits in `i64`.
pub const MAX_SAMPLE_ABS: i64 = 1_000_000_000_000_000_000;

/// One stereo sample pair at a single time index.
#[derive(Clone, Copy, PartialEq, Eq, Structural, Debug)]
pub struct StereoFrame {
    pub left: i64,
    pub right: i64,
}

/// Whether the host is running live or rendering offline.
#[derive(Clone, Copy, PartialEq, Eq, Structural, Debug)]
pub enum ProcessMode {
    Realtime,
    Offline,
}

/// The block configuration negotiated with the host; replaced wholesale on
/// reconfiguration, never partially mutated.
#[derive(Clone, Copy)]
pub struct BufferConfig {
    pub sample_rate_hz: u32,
    pub min_buffer_size: Option<u32>,
    pub max_buffer_size: u32,
    pub process_mode: ProcessMode,
}

/// The status a processing call reports back to the host. This engine has no
/// error states of its own.
#[derive(Clone, Copy, PartialEq, Eq, Structural, Debug)]
pub enum ProcessStatus {
    Normal,
}

/// The four host-provided auxiliary output buffers, one per destination.
pub struct AuxOutputs {
    pub foh: Vec<StereoFrame>,
    pub axel: Vec<StereoFrame>,
    pub sebi: Vec<StereoFrame>,
    pub volki: Vec<StereoFrame>,
}

/// A sample scaled by a linear amplitude in nano units, truncating the
/// remainder toward zero.
pub open spec fn scaled(s: int, g: int) -> int {
    if s >= 0 {
        (s * g) / (NANO as int)
    } else {
        -(((-s) * g) / (NANO as int))
    }
}

/// One frame with both channels scaled by the same amplitude.
pub open spec fn scale_frame_spec(f: StereoFrame, g: int) -> StereoFrame {
    StereoFrame { left: scaled(f.left as int, g) as i64, right: scaled(f.right as int, g) as i64 }
}

/// Whether every sample of the block is within the magnitude the engine accepts.
pub open spec fn frames_bounded(s: Seq<StereoFrame>) -> bool {
    forall|i: int|
        0 <= i < s.len() ==> -MAX_SAMPLE_ABS <= #[trigger] s[i].left <= MAX_SAMPLE_ABS
            && -MAX_SAMPLE_ABS <= s[i].right <= MAX_SAMPLE_ABS
}

/// The block that one destination receives: the input with every frame scaled
/// by that destination's amplitude.
pub open spec fn sends_spec(input: Seq<StereoFrame>, g: int) -> Seq<StereoFrame> {
    Seq::new(input.len(), |i: int| scale_frame_spec(input[i], g))
}

proof fn lemma_scaled_bounded(s: int, g: int)
    requires
        -MAX_SAMPLE_ABS <= s <= MAX_SAMPLE_ABS,
        0 <= g <= 4 * (NANO as int),
    ensures
        -4 * MAX_SAMPLE_ABS <= scaled(s, g) <= 4 * MAX_SAMPLE_ABS,
{
    let n = NANO as int;
    if s >= 0 {
        assert(s * g <= MAX_SAMPLE_ABS * (4 * n)) by (nonlinear_arith)
            requires 0 <= s <= MAX_SAMPLE_ABS && 0 <= g <= 4 * n;
        assert(s * g >= 0) by (nonlinear_arith)
            requires s >= 0 && g >= 0;
        assert(MAX_SAMPLE_ABS * (4 * n) / n == 4 * MAX_SAMPLE_ABS) by (nonlinear_arith)
            requires n == NANO as int;
        vstd::arithmetic::div_mod::lemma_div_is_ordered(s * g, MAX_SAMPLE_ABS * (4 * n), n);
        vstd::arithmetic::div_mod::lemma_div_is_ordered(0, s * g, n);
    } else {
        assert((-s) * g <= MAX_SAMPLE_ABS * (4 * n)) by (nonlinear_arith)
            requires 0 <= -s <= MAX_SAMPLE_ABS && 0 <= g <= 4 * n;
        assert((-s) * g >= 0) by (nonlinear_arith)
            requires -s >= 0 && g >= 0;
        assert(MAX_SAMPLE_ABS * (4 * n) / n == 4 * MAX_SAMPLE_ABS) by (nonlinear_arith)
            requires n == NANO as int;
        vstd::arithmetic::div_mod::lemma_div_is_ordered((-s) * g, MAX_SAMPLE_ABS * (4 * n), n);
        vstd::arithmetic::div_mod::lemma_div_is_ordered(0, (-s) * g, n);
    }
}

/// One sample times one amplitude, in 128-bit intermediate arithmetic.
pub fn scale_sample(s: i64, g: u64) -> (r: i64)
    requires
        -MAX_SAMPLE_ABS <= s <= MAX_SAMPLE_ABS,
        g <= 4 * NANO,
    ensures
        r == scaled(s as int, g as int),
{
    proof {
        lemma_scaled_bounded(s as int, g as int);
    }
    if s >= 0 {
        (((s as i128) * (g as i128)) / (NANO as i128)) as i64
    } else {
        let m: i128 = -(s as i128);
        (-((m * (g as i128)) / (NANO as i128))) as i64
    }
}


/// The amplitude a snapshot holds for destination `d`, in destination order:
/// front of house, then the three personal monitors.
pub open spec fn dest_gain(s: GainSnapshot, d: int) -> u64 {
    if d == 0 {
        s.foh
    } else if d == 1 {
        s.axel
    } else if d == 2 {
        s.sebi
    } else {
        s.volki
    }
}

/// Distribution correctness, sample by sample: the block a destination
/// receives is exactly as long as the input, and each of its frames is the
/// input frame at the same index with both channels scaled by that one
/// destination's amplitude.
pub proof fn lemma_distribution_pointwise(input: Seq<StereoFrame>, g: int, i: int)
    requires
        0 <= i < input.len(),
        frames_bounded(input),
        0 <= g <= 4 * (NANO as int),
    ensures
        sends_spec(input, g).len() == input.len(),
        sends_spec(input, g)[i].left == scaled(input[i].left as int, g),
        sends_spec(input, g)[i].right == scaled(input[i].right as int, g),
{
    lemma_scaled_bounded(input[i].left as int, g);
    lemma_scaled_bounded(input[i].right as int, g);
}

/// Mid-block gain stability: the block a destination receives is computed
/// from the snapshot taken at the start of the block, so every one of its
/// samples, the last as much as the first, is scaled with `at_start`'s
/// amplitude. `moved`, the state the controls hold by the end of the block,
/// does not occur on the right-hand side at all: moving a control after the
/// snapshot cannot affect any sample of the running block.
pub proof fn lemma_mid_block_gain_stability(
    input: Seq<StereoFrame>,
    at_start: GainParams,
    moved: GainParams,
    d: int,
    i: int,
)
    requires
        0 <= d < 4,
        0 <= i < input.len(),
    ensures
        sends_spec(input, dest_gain(at_start.snapshot_spec(), d) as int)[i] == scale_frame_spec(
            input[i],
            dest_gain(at_start.snapshot_spec(), d) as int,
        ),
{
}

/// Writes the input block, scaled by one destination's amplitude, into that
/// destination's output buffer in place.
fn distribute_into(input: &Vec<StereoFrame>, g: u64, out: &mut Vec<StereoFrame>)
    requires
        old(out)@.len() == input@.len(),
        frames_bounded(input@),
        g <= 4 * NANO,
    ensures
        final(out)@ == sends_spec(input@, g as int),
{
    let len: usize = input.len();
    let mut i: usize = 0;
    while i < len
        invariant
            i <= len,
            len == input@.len(),
            out@.len() == input@.len(),
            frames_bounded(input@),
            g <= 4 * NANO,
            forall|j: int| 0 <= j < i ==> out@[j] == sends_spec(input@, g as int)[j],
        decreases len - i,
    {
        let f = input[i];
        out[i] = StereoFrame { left: scale_sample(f.left, g), right: scale_sample(f.right, g) };
        i = i + 1;
    }
    proof {
        assert(out@ =~= sends_spec(input@, g as int));
    }
}

/// One sample-accurate distribution pass over a block, from an explicit gain
/// snapshot: the main buffer is passed through untouched, and every
/// destination receives the input scaled by its snapshot amplitude.
pub fn process_with_snapshot(
    snap: &GainSnapshot,
    main_io: &mut Vec<StereoFrame>,
    aux: &mut AuxOutputs,
)
    requires
        GainParams::snapshot_wf(*snap),
        old(aux).foh@.len() == old(main_io)@.len(),
        old(aux).axel@.len() == old(main_io)@.len(),
        old(aux).sebi@.len() == old(main_io)@.len(),
        old(aux).volki@.len() == old(main_io)@.len(),
        frames_bounded(old(main_io)@),
    ensures
        *final(main_io) == *old(main_io),
        final(aux).foh@ == sends_spec(old(main_io)@, snap.foh as int),
        final(aux).axel@ == sends_spec(old(main_io)@, snap.axel as int),
        final(aux).sebi@ == sends_spec(old(main_io)@, snap.sebi as int),
        final(aux).volki@ == sends_spec(old(main_io)@, snap.volki as int),
{
    distribute_into(main_io, snap.foh, &mut aux.foh);
    distribute_into(main_io, snap.axel, &mut aux.axel);
    distribute_into(main_io, snap.sebi, &mut aux.sebi);
    distribute_into(main_io, snap.volki, &mut aux.volki);
}

/// The monitoring sender: the four gain controls and the block configuration
/// the host negotiated.
pub struct MonitoringSender {
    pub params: GainParams,
    pub config: BufferConfig,
}

impl MonitoringSender {
    /// The gain controls are inside the curve's range.
    pub open spec fn wf(&self) -> bool {
        self.params.wf()
    }

    /// A sender with every gain exactly at unity (0 dB) and a placeholder
    /// configuration (sample rate one, no minimum size, maximum size zero,
    /// live mode); the host replaces the configuration through `initialize`
    /// before the first block.
    pub fn new() -> (r: Self)
        ensures
            r.wf(),
            r.params.foh.cdb_spec() == 0 && r.params.axel.cdb_spec() == 0
                && r.params.sebi.cdb_spec() == 0 && r.params.volki.cdb_spec() == 0,
            r.params.foh.amp_spec() == NANO && r.params.axel.amp_spec() == NANO
                && r.params.sebi.amp_spec() == NANO && r.params.volki.amp_spec() == NANO,
            r.config.sample_rate_hz == 1,
            r.config.min_buffer_size is None,
            r.config.max_buffer_size == 0,
            r.config.process_mode == ProcessMode::Realtime,
    {
        MonitoringSender {
            params: GainParams::new_unity(),
            config: BufferConfig {
                sample_rate_hz: 1,
                min_buffer_size: None,
                max_buffer_size: 0,
                process_mode: ProcessMode::Realtime,
            },
        }
    }

    /// Accepts the buffer configuration the host negotiated; this design
    /// never rejects one.
    pub fn initialize(&mut self, config: &BufferConfig) -> (r: bool)
        ensures
            r == true,
            final(self).config == *config,
            final(self).params == old(self).params,
    {
        self.config = *config;
        true
    }

    /// The parameter surface the host automates: the four gain controls.
    pub fn params(&self) -> (r: &GainParams)
        ensures
            r == &self.params,
    {
        &self.params
    }

    /// The host's transport reset: the engine keeps no per-voice or filter
    /// state, so nothing changes.
    pub fn reset(&mut self)
        ensures
            *final(self) == *old(self),
    {
    }

    /// One processing block. In offline mode (a bounce or render pass) the
    /// call performs no work: every auxiliary buffer keeps exactly its
    /// previous contents. Live, the four current amplitudes are read once at
    /// the start of the block and every input frame is written to every
    /// destination scaled by that destination's snapshot amplitude. The main
    /// buffer is passed through untouched in either mode, and the call always
    /// reports normal completion.
    pub fn process(&self, main_io: &mut Vec<StereoFrame>, aux: &mut AuxOutputs) -> (r:
        ProcessStatus)
        requires
            self.wf(),
            old(aux).foh@.len() == old(main_io)@.len(),
            old(aux).axel@.len() == old(main_io)@.len(),
            old(aux).sebi@.len() == old(main_io)@.len(),
            old(aux).volki@.len() == old(main_io)@.len(),
            frames_bounded(old(main_io)@),
        ensures
            r == ProcessStatus::Normal,
            *final(main_io) == *old(main_io),
            self.config.process_mode == ProcessMode::Offline ==> *final(aux) == *old(aux),
            self.config.process_mode == ProcessMode::Realtime ==> {
                &&& final(aux).foh@ == sends_spec(old(main_io)@, self.params.foh.amp_spec() as int)
                &&& final(aux).axel@ == sends_spec(
                    old(main_io)@,
                    self.params.axel.amp_spec() as int,
                )
                &&& final(aux).sebi@ == sends_spec(
                    old(main_io)@,
                    self.params.sebi.amp_spec() as int,
                )
                &&& final(aux).volki@ == sends_spec(
                    old(main_io)@,
                    self.params.volki.amp_spec() as int,
                )
            },
    {
        if self.config.process_mode == ProcessMode::Offline {
            return ProcessStatus::Normal;
        }
        let snap = self.params.snapshot();
        process_with_snapshot(&snap, main_io, aux);
        ProcessStatus::Normal
    }
}

impl Default for MonitoringSender {
    /// The construction-time default: every gain exactly at unity, and the
    /// placeholder configuration the host replaces through `initialize`.
    fn default() -> (r: Self)
        ensures
            r.wf(),
            r.params.foh.cdb_spec() == 0 && r.params.axel.cdb_spec() == 0
                && r.params.sebi.cdb_spec() == 0 && r.params.volki.cdb_spec() == 0,
            r.params.foh.amp_spec() == NANO && r.params.axel.amp_spec() == NANO
                && r.params.sebi.amp_spec() == NANO && r.params.volki.amp_spec() == NANO,
            r.config.sample_rate_hz == 1,
            r.config.min_buffer_size is None,
            r.config.max_buffer_size == 0,
            r.config.process_mode == ProcessMode::Realtime,
    {
        MonitoringSender::new()
    }
}

} // verus!
