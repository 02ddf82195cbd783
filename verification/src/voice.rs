use vstd::prelude::*;

use crate::channel::Channel;
use crate::generator::{GenEntry, GenParam, GEN_COUNT, GEN_VAL_MAX};

verus! {

/// Samples rendered per audio block; every render step advances a voice by
/// this many ticks.
pub const BLOCK_SIZE: u32 = 64;

/// Sentinel channel id meaning "unassigned".
pub const NO_CHANNEL: usize = 0xff;

/// Full scale of envelope amplitudes and gains, in thousandths.
pub const ENV_MAX: u32 = 1000;

/// Gain a freshly constructed voice starts with (unity).
pub const GAIN_DEFAULT: u32 = 1000;

/// Most modulators a single voice may carry.
pub const MOD_MAX: usize = 64;

/// Modulation source selector: note-on velocity.
pub const MOD_VELOCITY: u16 = 2;

/// Modulation source selector: polyphonic key pressure.
pub const MOD_KEYPRESSURE: u16 = 10;

/// Largest magnitude of a single modulator contribution:
/// `i16` amount times a `u8` source value.
pub const MOD_CONTRIB_MAX: i64 = 8_355_840;

/// Opaque handle to a voice: an index into the pool's collection. Not
/// stable across a polyphony-limit shrink or a sample-rate reset.
#[derive(Clone, Copy, PartialEq, Eq, Structural, Debug)]
pub struct VoiceId(pub usize);

/// Lifecycle state of a voice slot.
#[derive(Clone, Copy, PartialEq, Eq, Structural, Debug)]
pub enum VoiceStatus {
    /// Not currently sounding; eligible for reuse.
    Available,
    /// Actively generating sound, possibly already releasing.
    On,
    /// Note-off received while the channel sustain pedal was held.
    Sustained,
    /// Hard-stopped; no transitions pending, eligible for reuse.
    Off,
}

/// Segment of the volume envelope.
#[derive(Clone, Copy, PartialEq, Eq, Structural, Debug)]
pub enum VoiceEnvelope {
    Delay,
    Attack,
    Hold,
    Decay,
    Sustain,
    Release,
    Finished,
}

impl VoiceEnvelope {
    pub open spec fn rank(self) -> int {
        match self {
            VoiceEnvelope::Delay => 0,
            VoiceEnvelope::Attack => 1,
            VoiceEnvelope::Hold => 2,
            VoiceEnvelope::Decay => 3,
            VoiceEnvelope::Sustain => 4,
            VoiceEnvelope::Release => 5,
            VoiceEnvelope::Finished => 6,
        }
    }

    /// Whether the segment ends on its own after a duration taken from the
    /// generator table. `Sustain` holds until note-off and `Finished` is
    /// terminal.
    pub open spec fn timed(self) -> bool {
        match self {
            VoiceEnvelope::Sustain => false,
            VoiceEnvelope::Finished => false,
            _ => true,
        }
    }

    /// The segment entered when a timed segment runs out.
    pub open spec fn next_sect(self) -> VoiceEnvelope {
        match self {
            VoiceEnvelope::Delay => VoiceEnvelope::Attack,
            VoiceEnvelope::Attack => VoiceEnvelope::Hold,
            VoiceEnvelope::Hold => VoiceEnvelope::Decay,
            VoiceEnvelope::Decay => VoiceEnvelope::Sustain,
            VoiceEnvelope::Sustain => VoiceEnvelope::Sustain,
            VoiceEnvelope::Release => VoiceEnvelope::Finished,
            VoiceEnvelope::Finished => VoiceEnvelope::Finished,
        }
    }

    pub fn is_timed(self) -> (r: bool)
        ensures
            r == self.timed(),
    {
        match self {
            VoiceEnvelope::Sustain => false,
            VoiceEnvelope::Finished => false,
            _ => true,
        }
    }

    pub fn next(self) -> (r: VoiceEnvelope)
        ensures
            r == self.next_sect(),
    {
        match self {
            VoiceEnvelope::Delay => VoiceEnvelope::Attack,
            VoiceEnvelope::Attack => VoiceEnvelope::Hold,
            VoiceEnvelope::Hold => VoiceEnvelope::Decay,
            VoiceEnvelope::Decay => VoiceEnvelope::Sustain,
            VoiceEnvelope::Sustain => VoiceEnvelope::Sustain,
            VoiceEnvelope::Release => VoiceEnvelope::Finished,
            VoiceEnvelope::Finished => VoiceEnvelope::Finished,
        }
    }
}

/// One modulator carried by a voice: it feeds `amount` scaled by a source
/// value (a controller or a fixed source) into the modulation accumulator
/// of the destination generator.
#[derive(Clone, Copy, PartialEq, Eq, Structural, Debug)]
pub struct VoiceMod {
    pub src_is_cc: bool,
    pub src: u16,
    pub dest: GenParam,
    pub amount: i16,
}

/// Immutable initialization bundle for a voice, supplied by the preset
/// layer and consumed exactly once when a voice is (re)initialized. It
/// must supply a baseline for every entry of the generator enumeration.
#[derive(Clone, Debug)]
pub struct VoiceDescriptor {
    pub channel_id: usize,
    pub key: u8,
    pub vel: u8,
    pub note_id: usize,
    pub start_time: u32,
    pub sample_id: usize,
    pub gens: Vec<i64>,
    pub mods: Vec<VoiceMod>,
}

impl VoiceDescriptor {
    pub open spec fn wf(self) -> bool {
        &&& self.gens@.len() == GEN_COUNT
        &&& forall|gi: int| 0 <= gi < GEN_COUNT ==> -GEN_VAL_MAX <= #[trigger] self.gens@[gi] <= GEN_VAL_MAX
        &&& self.mods@.len() <= MOD_MAX
        &&& self.key < 128
        &&& self.vel < 128
    }
}

/// One synthesis unit: owns its generator table, modulators and envelope
/// state, and exposes lifecycle transitions plus a per-block render step.
#[derive(Clone, PartialEq, Debug)]
pub struct Voice {
    pub channel_id: usize,
    pub key: u8,
    pub vel: u8,
    pub note_id: usize,
    pub status: VoiceStatus,
    pub volenv_section: VoiceEnvelope,
    pub volenv_count: u32,
    pub volenv_val: u32,
    pub release_from: u32,
    pub ticks: u32,
    pub start_time: u32,
    pub noteoff_ticks: u32,
    pub sample_rate: u32,
    pub sample_id: usize,
    pub gain: u32,
    pub gen: Vec<GenEntry>,
    pub mods: Vec<VoiceMod>,
}

pub open spec fn sat_add_u32(a: u32, b: u32) -> u32 {
    if a + b > u32::MAX { u32::MAX } else { (a + b) as u32 }
}

pub open spec fn min_i(a: int, b: int) -> int {
    if a < b { a } else { b }
}

/// Clamp a generator total to a non-negative tick duration.
pub open spec fn clamp_dur(x: int) -> int {
    if x < 0 { 0 } else if x > GEN_VAL_MAX { GEN_VAL_MAX as int } else { x }
}

/// Clamp a generator total to an envelope level in thousandths.
pub open spec fn clamp_env(x: int) -> int {
    if x < 0 { 0 } else if x > ENV_MAX { ENV_MAX as int } else { x }
}

impl Voice {
    pub open spec fn wf(self) -> bool {
        &&& self.gen@.len() == GEN_COUNT
        &&& forall|gi: int| 0 <= gi < GEN_COUNT ==> (#[trigger] self.gen@[gi]).bounded()
        &&& self.mods@.len() <= MOD_MAX
        &&& self.key < 128
        &&& self.vel < 128
        &&& self.volenv_val <= ENV_MAX
        &&& self.release_from <= ENV_MAX
    }

    /// Effective value of a generator parameter: baseline plus modulation
    /// plus NRPN override.
    pub open spec fn gen_total(self, p: GenParam) -> int {
        self.gen@[p.index_spec()].total_spec()
    }

    /// The exclusive class of this voice. In this integer model the
    /// truncation of the combined value is the identity.
    pub open spec fn excl_class(self) -> int {
        self.gen_total(GenParam::ExclusiveClass)
    }

    pub open spec fn is_available_spec(self) -> bool {
        self.status == VoiceStatus::Available || self.status == VoiceStatus::Off
    }

    pub open spec fn is_playing_spec(self) -> bool {
        self.status == VoiceStatus::On || self.status == VoiceStatus::Sustained
    }

    /// "On" in the narrow sense: actively held, not yet releasing.
    pub open spec fn is_on_spec(self) -> bool {
        self.status == VoiceStatus::On && self.volenv_section.rank() < VoiceEnvelope::Release.rank()
    }

    /// Duration, in ticks, of a timed envelope segment, from the
    /// generator table.
    pub open spec fn env_dur(self, s: VoiceEnvelope) -> int {
        match s {
            VoiceEnvelope::Delay => clamp_dur(self.gen_total(GenParam::VolEnvDelay)),
            VoiceEnvelope::Attack => clamp_dur(self.gen_total(GenParam::VolEnvAttack)),
            VoiceEnvelope::Hold => clamp_dur(self.gen_total(GenParam::VolEnvHold)),
            VoiceEnvelope::Decay => clamp_dur(self.gen_total(GenParam::VolEnvDecay)),
            VoiceEnvelope::Release => clamp_dur(self.gen_total(GenParam::VolEnvRelease)),
            _ => 0,
        }
    }

    /// Level the envelope settles at during `Sustain`, in thousandths.
    pub open spec fn sustain_level(self) -> int {
        clamp_env(self.gen_total(GenParam::VolEnvSustain))
    }

    /// Envelope amplitude, in thousandths, of segment `s` after `cnt`
    /// ticks inside it.
    pub open spec fn env_value(self, s: VoiceEnvelope, cnt: int) -> int {
        let dur = self.env_dur(s);
        match s {
            VoiceEnvelope::Delay => 0,
            VoiceEnvelope::Attack => if dur <= 0 {
                ENV_MAX as int
            } else {
                min_i(ENV_MAX as int, ENV_MAX * cnt / dur)
            },
            VoiceEnvelope::Hold => ENV_MAX as int,
            VoiceEnvelope::Decay => {
                let drop = ENV_MAX - self.sustain_level();
                if dur <= 0 {
                    self.sustain_level()
                } else {
                    ENV_MAX - min_i(drop, drop * cnt / dur)
                }
            },
            VoiceEnvelope::Sustain => self.sustain_level(),
            VoiceEnvelope::Release => {
                let from = self.release_from as int;
                if dur <= 0 {
                    0
                } else {
                    from - min_i(from, from * cnt / dur)
                }
            },
            VoiceEnvelope::Finished => 0,
        }
    }
}

/// Step timed envelope segments forward until the elapsed count no longer
/// covers the current segment's duration.
pub open spec fn env_settle(v: Voice, s: VoiceEnvelope, cnt: int) -> (VoiceEnvelope, int)
    decreases 6 - s.rank(),
{
    if s.timed() && cnt >= v.env_dur(s) {
        env_settle(v, s.next_sect(), cnt - v.env_dur(s))
    } else {
        (s, cnt)
    }
}

/// After settling from a non-negative count: the count is still
/// non-negative, has not grown, and is short of the segment's duration
/// whenever the segment is timed.
pub proof fn lemma_env_settle_props(v: Voice, s: VoiceEnvelope, cnt: int)
    requires
        cnt >= 0,
    ensures
        env_settle(v, s, cnt).1 >= 0,
        env_settle(v, s, cnt).1 <= cnt,
        env_settle(v, s, cnt).0.timed() ==> env_settle(v, s, cnt).1 < v.env_dur(env_settle(v, s, cnt).0),
    decreases 6 - s.rank(),
{
    if s.timed() && cnt >= v.env_dur(s) {
        lemma_env_settle_props(v, s.next_sect(), cnt - v.env_dur(s));
    }
}

/// Envelope amplitudes stay within full scale.
pub proof fn lemma_env_value_range(v: Voice, s: VoiceEnvelope, cnt: int)
    requires
        cnt >= 0,
        v.release_from <= ENV_MAX,
    ensures
        0 <= v.env_value(s, cnt) <= ENV_MAX,
{
    let dur = v.env_dur(s);
    if dur > 0 {
        assert(ENV_MAX * cnt / dur >= 0) by (nonlinear_arith)
            requires
                cnt >= 0,
                dur > 0,
        ;
        let drop = ENV_MAX - v.sustain_level();
        assert(drop * cnt / dur >= 0) by (nonlinear_arith)
            requires
                cnt >= 0,
                dur > 0,
                drop >= 0,
        ;
        let from = v.release_from as int;
        assert(from * cnt / dur >= 0) by (nonlinear_arith)
            requires
                cnt >= 0,
                dur > 0,
                from >= 0,
        ;
    }
}

/// Hard stop, bypassing release: the slot is immediately eligible for
/// reuse.
pub open spec fn off_spec(v: Voice) -> Voice {
    Voice {
        status: VoiceStatus::Off,
        volenv_section: VoiceEnvelope::Finished,
        volenv_count: 0,
        volenv_val: 0,
        noteoff_ticks: 0,
        ..v
    }
}

/// Note-off: deferred while the voice is younger than the minimum note
/// length, diverted to `Sustained` while the pedal is held, and otherwise
/// the start of the release segment.
pub open spec fn noteoff_spec(v: Voice, ch: Channel, min_note_length_ticks: u32) -> Voice {
    if v.ticks < min_note_length_ticks {
        Voice { noteoff_ticks: min_note_length_ticks, ..v }
    } else if ch.sustained() {
        Voice { status: VoiceStatus::Sustained, noteoff_ticks: 0, ..v }
    } else {
        Voice {
            status: VoiceStatus::On,
            volenv_section: VoiceEnvelope::Release,
            volenv_count: 0,
            release_from: v.volenv_val,
            noteoff_ticks: 0,
            ..v
        }
    }
}

/// One render step: advance the age, honour a pending deferred note-off,
/// advance the envelope by one block, and turn the voice off if the
/// envelope has finished.
pub open spec fn write_step_spec(v: Voice, ch: Channel, min_note_length_ticks: u32) -> Voice {
    let v1 = Voice { ticks: sat_add_u32(v.ticks, BLOCK_SIZE), ..v };
    let v2 = if v1.noteoff_ticks != 0 && v1.ticks >= v1.noteoff_ticks {
        noteoff_spec(v1, ch, min_note_length_ticks)
    } else {
        v1
    };
    let c0 = sat_add_u32(v2.volenv_count, BLOCK_SIZE);
    let settled = env_settle(v2, v2.volenv_section, c0 as int);
    let v3 = Voice {
        volenv_section: settled.0,
        volenv_count: settled.1 as u32,
        volenv_val: v2.env_value(settled.0, settled.1) as u32,
        ..v2
    };
    if settled.0 == VoiceEnvelope::Finished {
        off_spec(v3)
    } else {
        v3
    }
}

/// Whether a modulator listens to the given controller event.
pub open spec fn mod_matches(m: VoiceMod, is_cc: i32, ctrl: u16) -> bool {
    (m.src_is_cc <==> is_cc != 0) && m.src == ctrl
}

/// Current value of a modulator's source, from the channel's controller
/// state or the voice's own note data.
pub open spec fn mod_source_value(m: VoiceMod, ch: Channel, vel: u8, key: u8) -> int {
    if m.src_is_cc {
        if m.src < 128 { ch.cc@[m.src as int] as int } else { 0 }
    } else if m.src == MOD_VELOCITY {
        vel as int
    } else if m.src == MOD_KEYPRESSURE {
        ch.key_pressure@[key as int] as int
    } else {
        0
    }
}

pub open spec fn mod_contribution(m: VoiceMod, ch: Channel, vel: u8, key: u8) -> int {
    m.amount * mod_source_value(m, ch, vel, key)
}

/// Sum of the contributions of the first `n` modulators whose destination
/// is the generator at index `gi`.
pub open spec fn mod_total_prefix(
    mods: Seq<VoiceMod>,
    ch: Channel,
    vel: u8,
    key: u8,
    gi: int,
    n: int,
) -> int
    decreases n,
{
    if n <= 0 {
        0
    } else {
        mod_total_prefix(mods, ch, vel, key, gi, n - 1) + if mods[n - 1].dest.index_spec() == gi {
            mod_contribution(mods[n - 1], ch, vel, key)
        } else {
            0
        }
    }
}

/// Recomputed modulation accumulator for the generator at index `gi`.
pub open spec fn mod_total(mods: Seq<VoiceMod>, ch: Channel, vel: u8, key: u8, gi: int) -> int {
    mod_total_prefix(mods, ch, vel, key, gi, mods.len() as int)
}

/// Some modulator listening to this controller event targets the
/// generator at index `gi`.
pub open spec fn mod_affects(mods: Seq<VoiceMod>, is_cc: i32, ctrl: u16, gi: int) -> bool {
    exists|j: int|
        0 <= j < mods.len() && mod_matches(#[trigger] mods[j], is_cc, ctrl)
            && mods[j].dest.index_spec() == gi
}

/// Some modulator targets the generator at index `gi`.
pub open spec fn mod_has_dest(mods: Seq<VoiceMod>, gi: int) -> bool {
    exists|j: int| 0 <= j < mods.len() && (#[trigger] mods[j]).dest.index_spec() == gi
}

pub proof fn lemma_mod_contribution_bound(m: VoiceMod, ch: Channel, vel: u8, key: u8)
    ensures
        -MOD_CONTRIB_MAX <= mod_contribution(m, ch, vel, key) <= MOD_CONTRIB_MAX,
{
    let sv = mod_source_value(m, ch, vel, key);
    assert(0 <= sv <= 255);
    assert(-MOD_CONTRIB_MAX <= m.amount * sv <= MOD_CONTRIB_MAX) by (nonlinear_arith)
        requires
            -32768 <= m.amount <= 32767,
            0 <= sv <= 255,
            MOD_CONTRIB_MAX == 8_355_840,
    ;
}

pub proof fn lemma_mod_total_prefix_bound(
    mods: Seq<VoiceMod>,
    ch: Channel,
    vel: u8,
    key: u8,
    gi: int,
    n: int,
)
    requires
        n >= 0,
    ensures
        -n * MOD_CONTRIB_MAX <= mod_total_prefix(mods, ch, vel, key, gi, n) <= n * MOD_CONTRIB_MAX,
    decreases n,
{
    if n > 0 {
        lemma_mod_total_prefix_bound(mods, ch, vel, key, gi, n - 1);
        lemma_mod_contribution_bound(mods[n - 1], ch, vel, key);
    }
}

/// `v1` agrees with `v0` on everything except its generator table.
pub open spec fn same_but_gen(v0: Voice, v1: Voice) -> bool {
    v1 == Voice { gen: v1.gen, ..v0 }
}

/// Generator table of `v1`: the modulation accumulator of every selected
/// destination recomputed against channel `ch`, everything else carried
/// over from `v0`. With `all` every modulated destination is selected;
/// otherwise those of modulators listening to the `(is_cc, ctrl)` event.
pub open spec fn gen_refreshed(v0: Voice, ch: Channel, v1: Voice, is_cc: i32, ctrl: u16, all: bool) -> bool {
    &&& v1.gen@.len() == v0.gen@.len()
    &&& forall|gi: int|
        0 <= gi < v0.gen@.len() ==> {
            &&& (#[trigger] v1.gen@[gi]).val == v0.gen@[gi].val
            &&& v1.gen@[gi].nrpn == v0.gen@[gi].nrpn
            &&& v1.gen@[gi].mod_amount == if (all && mod_has_dest(v0.mods@, gi)) || (!all
                && mod_affects(v0.mods@, is_cc, ctrl, gi)) {
                mod_total(v0.mods@, ch, v0.vel, v0.key, gi)
            } else {
                v0.gen@[gi].mod_amount as int
            }
        }
}

/// Fields a (re)initialized voice takes from its descriptor, and the state
/// it is armed in: eligible, envelope at the start, pending `start`.
pub open spec fn init_fields(desc: VoiceDescriptor, v1: Voice) -> bool {
    &&& v1.channel_id == desc.channel_id
    &&& v1.key == desc.key
    &&& v1.vel == desc.vel
    &&& v1.note_id == desc.note_id
    &&& v1.start_time == desc.start_time
    &&& v1.sample_id == desc.sample_id
    &&& v1.status == VoiceStatus::Available
    &&& v1.volenv_section == VoiceEnvelope::Delay
    &&& v1.volenv_count == 0
    &&& v1.volenv_val == 0
    &&& v1.release_from == 0
    &&& v1.ticks == 0
    &&& v1.noteoff_ticks == 0
    &&& v1.gen@.len() == GEN_COUNT
    &&& forall|gi: int|
        0 <= gi < GEN_COUNT ==> #[trigger] v1.gen@[gi] == (GenEntry {
            val: desc.gens@[gi],
            mod_amount: 0,
            nrpn: 0,
        })
    &&& v1.mods@ == desc.mods@
}

/// Reinitialization of an existing slot: everything from the descriptor,
/// but the slot keeps its sample rate and gain.
pub open spec fn reinit_rel(v0: Voice, desc: VoiceDescriptor, v1: Voice) -> bool {
    &&& init_fields(desc, v1)
    &&& v1.sample_rate == v0.sample_rate
    &&& v1.gain == v0.gain
}

/// A brand-new voice: everything from the descriptor, at the pool's
/// sample rate and unity gain.
pub open spec fn new_rel(sample_rate: u32, desc: VoiceDescriptor, v1: Voice) -> bool {
    &&& init_fields(desc, v1)
    &&& v1.sample_rate == sample_rate
    &&& v1.gain == GAIN_DEFAULT
}

/// `start`: every modulated generator recomputed from the channel state,
/// envelope armed from the top, rendering begun.
pub open spec fn start_rel(v0: Voice, ch: Channel, v1: Voice) -> bool {
    &&& gen_refreshed(v0, ch, v1, 0, 0, true)
    &&& v1 == Voice {
        gen: v1.gen,
        status: VoiceStatus::On,
        volenv_section: VoiceEnvelope::Delay,
        volenv_count: 0,
        volenv_val: 0,
        release_from: 0,
        ticks: 0,
        noteoff_ticks: 0,
        ..v0
    }
}

impl Voice {
    pub fn new(sample_rate: u32, desc: VoiceDescriptor) -> (r: Voice)
        requires
            desc.wf(),
        ensures
            r.wf(),
            new_rel(sample_rate, desc, r),
    {
        let gen = build_gen_table(&desc.gens);
        Voice {
            channel_id: desc.channel_id,
            key: desc.key,
            vel: desc.vel,
            note_id: desc.note_id,
            status: VoiceStatus::Available,
            volenv_section: VoiceEnvelope::Delay,
            volenv_count: 0,
            volenv_val: 0,
            release_from: 0,
            ticks: 0,
            start_time: desc.start_time,
            noteoff_ticks: 0,
            sample_rate,
            sample_id: desc.sample_id,
            gain: GAIN_DEFAULT,
            gen,
            mods: desc.mods,
        }
    }

    pub fn reinit(&mut self, desc: VoiceDescriptor)
        requires
            desc.wf(),
        ensures
            final(self).wf(),
            reinit_rel(*old(self), desc, *final(self)),
    {
        let gen = build_gen_table(&desc.gens);
        self.channel_id = desc.channel_id;
        self.key = desc.key;
        self.vel = desc.vel;
        self.note_id = desc.note_id;
        self.status = VoiceStatus::Available;
        self.volenv_section = VoiceEnvelope::Delay;
        self.volenv_count = 0;
        self.volenv_val = 0;
        self.release_from = 0;
        self.ticks = 0;
        self.start_time = desc.start_time;
        self.noteoff_ticks = 0;
        self.sample_id = desc.sample_id;
        self.gen = gen;
        self.mods = desc.mods;
    }

    pub fn get_channel_id(&self) -> (r: usize)
        ensures
            r == self.channel_id,
    {
        self.channel_id
    }

    pub fn get_note_id(&self) -> (r: usize)
        ensures
            r == self.note_id,
    {
        self.note_id
    }

    pub fn is_available(&self) -> (r: bool)
        ensures
            r == self.is_available_spec(),
    {
        match self.status {
            VoiceStatus::Available => true,
            VoiceStatus::Off => true,
            _ => false,
        }
    }

    pub fn is_playing(&self) -> (r: bool)
        ensures
            r == self.is_playing_spec(),
    {
        match self.status {
            VoiceStatus::On => true,
            VoiceStatus::Sustained => true,
            _ => false,
        }
    }

    pub fn is_on(&self) -> (r: bool)
        ensures
            r == self.is_on_spec(),
    {
        let early = match self.volenv_section {
            VoiceEnvelope::Release => false,
            VoiceEnvelope::Finished => false,
            _ => true,
        };
        match self.status {
            VoiceStatus::On => early,
            _ => false,
        }
    }

    /// Effective value of one generator parameter.
    pub fn gen_total_at(&self, p: GenParam) -> (r: i64)
        requires
            self.wf(),
        ensures
            r == self.gen_total(p),
    {
        let gi = p.index();
        self.gen[gi].total()
    }

    /// Immediate hard stop, bypassing release; used for kills and resets.
    pub fn off(&mut self)
        ensures
            *final(self) == off_spec(*old(self)),
    {
        self.status = VoiceStatus::Off;
        self.volenv_section = VoiceEnvelope::Finished;
        self.volenv_count = 0;
        self.volenv_val = 0;
        self.noteoff_ticks = 0;
    }

    /// Hard stop on exclusive-class preemption; same effect as `off`, kept
    /// as a separate call site.
    pub fn kill_excl(&mut self)
        ensures
            *final(self) == off_spec(*old(self)),
    {
        self.off();
    }

    pub fn noteoff(&mut self, channel: &Channel, min_note_length_ticks: u32)
        requires
            channel.wf(),
        ensures
            *final(self) == noteoff_spec(*old(self), *channel, min_note_length_ticks),
    {
        if self.ticks < min_note_length_ticks {
            self.noteoff_ticks = min_note_length_ticks;
        } else if channel.is_sustained() {
            self.status = VoiceStatus::Sustained;
            self.noteoff_ticks = 0;
        } else {
            self.status = VoiceStatus::On;
            self.volenv_section = VoiceEnvelope::Release;
            self.volenv_count = 0;
            self.release_from = self.volenv_val;
            self.noteoff_ticks = 0;
        }
    }

    /// Override one generator parameter's NRPN value.
    pub fn set_param(&mut self, param: GenParam, value: i64)
        requires
            old(self).wf(),
            -GEN_VAL_MAX <= value <= GEN_VAL_MAX,
        ensures
            final(self).wf(),
            same_but_gen(*old(self), *final(self)),
            final(self).gen@ == old(self).gen@.update(
                param.index_spec(),
                GenEntry { nrpn: value, ..old(self).gen@[param.index_spec()] },
            ),
    {
        let gi = param.index();
        let mut e = self.gen[gi];
        e.nrpn = value;
        self.gen.set(gi, e);
    }

    pub fn set_gain(&mut self, gain: u32)
        ensures
            *final(self) == (Voice { gain, ..*old(self) }),
    {
        self.gain = gain;
    }

    /// Recomputed modulation accumulator for one destination.
    fn mod_total_exec(&self, channel: &Channel, gi: usize) -> (r: i64)
        requires
            self.wf(),
            channel.wf(),
        ensures
            r == mod_total(self.mods@, *channel, self.vel, self.key, gi as int),
    {
        let mut sum: i64 = 0;
        let mut k: usize = 0;
        let n = self.mods.len();
        while k < n
            invariant
                self.wf(),
                channel.wf(),
                k <= n,
                n == self.mods@.len(),
                sum == mod_total_prefix(self.mods@, *channel, self.vel, self.key, gi as int, k as int),
                -(k as int) * MOD_CONTRIB_MAX <= sum <= (k as int) * MOD_CONTRIB_MAX,
            decreases n - k,
        {
            let m = self.mods[k];
            proof {
                lemma_mod_contribution_bound(m, *channel, self.vel, self.key);
            }
            if m.dest.index() == gi {
                let sv = mod_source_value_exec(m, channel, self.vel, self.key);
                let c: i64 = (m.amount as i64) * (sv as i64);
                assert(c == mod_contribution(m, *channel, self.vel, self.key));
                sum = sum + c;
            }
            k += 1;
        }
        sum
    }

    /// Recompute the modulation accumulators of the destinations selected
    /// by the event: all modulated destinations when `all`, else those of
    /// modulators listening to `(is_cc, ctrl)`.
    fn refresh_mods(&mut self, channel: &Channel, is_cc: i32, ctrl: u16, all: bool)
        requires
            old(self).wf(),
            channel.wf(),
        ensures
            final(self).wf(),
            same_but_gen(*old(self), *final(self)),
            gen_refreshed(*old(self), *channel, *final(self), is_cc, ctrl, all),
    {
        let n = self.mods.len();
        let mut k: usize = 0;
        while k < n
            invariant
                self.wf(),
                channel.wf(),
                k <= n,
                n == self.mods@.len(),
                same_but_gen(*old(self), *self),
                self.gen@.len() == GEN_COUNT,
                forall|gi: int|
                    0 <= gi < GEN_COUNT ==> {
                        &&& (#[trigger] self.gen@[gi]).val == old(self).gen@[gi].val
                        &&& self.gen@[gi].nrpn == old(self).gen@[gi].nrpn
                        &&& self.gen@[gi].mod_amount == if exists|j: int|
                            0 <= j < k && (all || mod_matches(#[trigger] self.mods@[j], is_cc, ctrl))
                                && self.mods@[j].dest.index_spec() == gi {
                            mod_total(self.mods@, *channel, self.vel, self.key, gi)
                        } else {
                            old(self).gen@[gi].mod_amount as int
                        }
                    },
            decreases n - k,
        {
            let m = self.mods[k];
            let selected = if all {
                true
            } else {
                let cc_event: bool = is_cc != 0;
                m.src_is_cc == cc_event && m.src == ctrl
            };
            if selected {
                let gi = m.dest.index();
                let t = self.mod_total_exec(channel, gi);
                proof {
                    lemma_mod_total_prefix_bound(
                        self.mods@,
                        *channel,
                        self.vel,
                        self.key,
                        gi as int,
                        self.mods@.len() as int,
                    );
                }
                let mut e = self.gen[gi];
                e.mod_amount = t;
                self.gen.set(gi, e);
            }
            k += 1;
        }
    }

    /// Forward one modulation event: recompute every generator targeted by
    /// a modulator whose source is the given controller.
    pub fn modulate(&mut self, channel: &Channel, is_cc: i32, ctrl: u16)
        requires
            old(self).wf(),
            channel.wf(),
        ensures
            final(self).wf(),
            same_but_gen(*old(self), *final(self)),
            gen_refreshed(*old(self), *channel, *final(self), is_cc, ctrl, false),
    {
        self.refresh_mods(channel, is_cc, ctrl, false);
    }

    /// Recompute every modulated generator from the channel state.
    pub fn modulate_all(&mut self, channel: &Channel)
        requires
            old(self).wf(),
            channel.wf(),
        ensures
            final(self).wf(),
            same_but_gen(*old(self), *final(self)),
            gen_refreshed(*old(self), *channel, *final(self), 0, 0, true),
    {
        self.refresh_mods(channel, 0, 0, true);
    }

    /// Arm oscillator and envelope state from the current generator values
    /// and channel state, and begin rendering.
    pub fn start(&mut self, channel: &Channel)
        requires
            old(self).wf(),
            channel.wf(),
        ensures
            final(self).wf(),
            start_rel(*old(self), *channel, *final(self)),
    {
        self.refresh_mods(channel, 0, 0, true);
        self.status = VoiceStatus::On;
        self.volenv_section = VoiceEnvelope::Delay;
        self.volenv_count = 0;
        self.volenv_val = 0;
        self.release_from = 0;
        self.ticks = 0;
        self.noteoff_ticks = 0;
    }

    /// Duration in ticks of a timed envelope segment.
    fn env_dur_exec(&self, s: VoiceEnvelope) -> (r: u32)
        requires
            self.wf(),
        ensures
            r == self.env_dur(s),
    {
        let p = match s {
            VoiceEnvelope::Delay => GenParam::VolEnvDelay,
            VoiceEnvelope::Attack => GenParam::VolEnvAttack,
            VoiceEnvelope::Hold => GenParam::VolEnvHold,
            VoiceEnvelope::Decay => GenParam::VolEnvDecay,
            VoiceEnvelope::Release => GenParam::VolEnvRelease,
            _ => {
                return 0;
            },
        };
        let t = self.gen_total_at(p);
        if t < 0 {
            0
        } else if t > GEN_VAL_MAX {
            GEN_VAL_MAX as u32
        } else {
            t as u32
        }
    }

    fn sustain_level_exec(&self) -> (r: u32)
        requires
            self.wf(),
        ensures
            r == self.sustain_level(),
            r <= ENV_MAX,
    {
        let t = self.gen_total_at(GenParam::VolEnvSustain);
        if t < 0 {
            0
        } else if t > ENV_MAX as i64 {
            ENV_MAX
        } else {
            t as u32
        }
    }

    /// Envelope amplitude of segment `s` after `cnt` ticks inside it.
    fn env_value_exec(&self, s: VoiceEnvelope, cnt: u32) -> (r: u32)
        requires
            self.wf(),
            s.timed() ==> cnt < self.env_dur(s),
        ensures
            r == self.env_value(s, cnt as int),
            r <= ENV_MAX,
    {
        proof {
            lemma_env_value_range(*self, s, cnt as int);
        }
        match s {
            VoiceEnvelope::Delay => 0,
            VoiceEnvelope::Attack => {
                let dur = self.env_dur_exec(s);
                if dur == 0 {
                    ENV_MAX
                } else {
                    let x: u64 = (ENV_MAX as u64) * (cnt as u64) / (dur as u64);
                    if x > ENV_MAX as u64 {
                        ENV_MAX
                    } else {
                        x as u32
                    }
                }
            },
            VoiceEnvelope::Hold => ENV_MAX,
            VoiceEnvelope::Decay => {
                let sus = self.sustain_level_exec();
                let dur = self.env_dur_exec(s);
                if dur == 0 {
                    sus
                } else {
                    let drop: u64 = (ENV_MAX - sus) as u64;
                    proof {
                        assert(drop * (cnt as u64) <= 1000 * 0xffff_ffffu64) by (nonlinear_arith)
                            requires
                                drop <= 1000,
                                cnt as u64 <= 0xffff_ffffu64,
                        ;
                    }
                    let x: u64 = drop * (cnt as u64) / (dur as u64);
                    let m: u64 = if x > drop {
                        drop
                    } else {
                        x
                    };
                    ENV_MAX - (m as u32)
                }
            },
            VoiceEnvelope::Sustain => self.sustain_level_exec(),
            VoiceEnvelope::Release => {
                let dur = self.env_dur_exec(s);
                if dur == 0 {
                    0
                } else {
                    let from: u64 = self.release_from as u64;
                    proof {
                        assert(from * (cnt as u64) <= 1000 * 0xffff_ffffu64) by (nonlinear_arith)
                            requires
                                from <= 1000,
                                cnt as u64 <= 0xffff_ffffu64,
                        ;
                    }
                    let x: u64 = from * (cnt as u64) / (dur as u64);
                    let m: u64 = if x > from {
                        from
                    } else {
                        x
                    };
                    self.release_from - (m as u32)
                }
            },
            VoiceEnvelope::Finished => 0,
        }
    }

    /// Advance the voice by one audio block: age it, honour a pending
    /// deferred note-off, advance the volume envelope, and hand the slot
    /// back when the envelope has finished. The caller mixes the block's
    /// samples; this step owns the lifecycle.
    pub fn write_block(&mut self, channel: &Channel, min_note_length_ticks: u32)
        requires
            old(self).wf(),
            channel.wf(),
        ensures
            final(self).wf(),
            *final(self) == write_step_spec(*old(self), *channel, min_note_length_ticks),
    {
        self.ticks = sat_add_u32_exec(self.ticks, BLOCK_SIZE);
        if self.noteoff_ticks != 0 && self.ticks >= self.noteoff_ticks {
            self.noteoff(channel, min_note_length_ticks);
        }
        let ghost v2 = *self;
        let mut cnt: u32 = sat_add_u32_exec(self.volenv_count, BLOCK_SIZE);
        let mut sect = self.volenv_section;
        let ghost c0 = cnt;
        proof {
            lemma_env_settle_props(v2, sect, c0 as int);
        }
        let mut go = sect.is_timed();
        while go && cnt >= self.env_dur_exec(sect)
            invariant
                self.wf(),
                *self == v2,
                go == sect.timed(),
                env_settle(v2, v2.volenv_section, c0 as int) == env_settle(v2, sect, cnt as int),
            decreases 7 - sect.rank(),
        {
            let d = self.env_dur_exec(sect);
            cnt = cnt - d;
            sect = sect.next();
            go = sect.is_timed();
        }
        proof {
            assert(env_settle(v2, sect, cnt as int) == (sect, cnt as int));
            lemma_env_settle_props(v2, v2.volenv_section, c0 as int);
        }
        let val = self.env_value_exec(sect, cnt);
        self.volenv_section = sect;
        self.volenv_count = cnt;
        self.volenv_val = val;
        let finished = match sect {
            VoiceEnvelope::Finished => true,
            _ => false,
        };
        if finished {
            self.off();
        }
    }
}

/// Current value of a modulator's source.
fn mod_source_value_exec(m: VoiceMod, channel: &Channel, vel: u8, key: u8) -> (r: u8)
    requires
        channel.wf(),
        vel < 128,
        key < 128,
    ensures
        r as int == mod_source_value(m, *channel, vel, key),
{
    if m.src_is_cc {
        if m.src < 128 {
            channel.cc[m.src as usize]
        } else {
            0
        }
    } else if m.src == MOD_VELOCITY {
        vel
    } else if m.src == MOD_KEYPRESSURE {
        channel.key_pressure[key as usize]
    } else {
        0
    }
}

fn sat_add_u32_exec(a: u32, b: u32) -> (r: u32)
    ensures
        r == sat_add_u32(a, b),
{
    if a > u32::MAX - b {
        u32::MAX
    } else {
        a + b
    }
}

/// Build a generator table from descriptor baselines.
fn build_gen_table(gens: &Vec<i64>) -> (r: Vec<GenEntry>)
    requires
        gens@.len() == GEN_COUNT,
        forall|gi: int| 0 <= gi < GEN_COUNT ==> -GEN_VAL_MAX <= #[trigger] gens@[gi] <= GEN_VAL_MAX,
    ensures
        r@.len() == GEN_COUNT,
        forall|gi: int|
            0 <= gi < GEN_COUNT ==> #[trigger] r@[gi] == (GenEntry {
                val: gens@[gi],
                mod_amount: 0,
                nrpn: 0,
            }),
        forall|gi: int| 0 <= gi < GEN_COUNT ==> (#[trigger] r@[gi]).bounded(),
{
    let mut r: Vec<GenEntry> = Vec::new();
    let mut i: usize = 0;
    while i < GEN_COUNT
        invariant
            i <= GEN_COUNT,
            gens@.len() == GEN_COUNT,
            forall|gi: int|
                0 <= gi < GEN_COUNT ==> -GEN_VAL_MAX <= #[trigger] gens@[gi] <= GEN_VAL_MAX,
            r@.len() == i,
            forall|gi: int|
                0 <= gi < i ==> #[trigger] r@[gi] == (GenEntry {
                    val: gens@[gi],
                    mod_amount: 0,
                    nrpn: 0,
                }),
        decreases GEN_COUNT - i,
    {
        r.push(GenEntry { val: gens[i], mod_amount: 0, nrpn: 0 });
        i += 1;
    }
    r
}

} // verus!
