use vstd::prelude::*;

use crate::channel::Channel;
use crate::generator::{GenEntry, GenParam, GEN_VAL_MAX};
use crate::voice::{
    gen_refreshed, new_rel, noteoff_spec, off_spec, reinit_rel, same_but_gen, start_rel,
    write_step_spec, Voice, VoiceDescriptor, VoiceEnvelope, VoiceId, VoiceStatus, MOD_KEYPRESSURE,
    NO_CHANNEL,
};

verus! {

/// One entry of the render plan produced by `write_voices`: which voice
/// renders this block, into which audio group its dry signal is mixed,
/// the envelope amplitude of the block (in thousandths), and whether the
/// effect sends are accumulated.
#[derive(Clone, Copy, PartialEq, Eq, Structural, Debug)]
pub struct RenderTask {
    pub voice: VoiceId,
    pub audio_group: usize,
    pub amplitude: u32,
    pub reverb: bool,
    pub chorus: bool,
}

/// The single authority over which voice occupies which synthesis slot,
/// and the broadcast point for all per-channel and per-note control
/// operations. Its collection never outgrows the polyphony limit.
#[derive(Clone, PartialEq, Debug)]
pub struct VoicePool {
    pub voices: Vec<Voice>,
    pub sample_rate: u32,
    pub polyphony_limit: usize,
}

/// Effect of a `noteoff` broadcast on one voice: on-voices on the given
/// channel and key go through the note-off transition, all others are
/// untouched.
pub open spec fn noteoff_one(v: Voice, ch: Channel, min_note_length_ticks: u32, key: u8) -> Voice {
    if v.is_on_spec() && v.channel_id == ch.id && v.key == key {
        noteoff_spec(v, ch, min_note_length_ticks)
    } else {
        v
    }
}

/// Effect of `all_notes_off` on one voice: playing voices of the channel
/// are released.
pub open spec fn all_notes_off_one(v: Voice, ch: Channel, min_note_length_ticks: u32, chan: usize) -> Voice {
    if v.channel_id == chan && v.is_playing_spec() {
        noteoff_spec(v, ch, min_note_length_ticks)
    } else {
        v
    }
}

/// Effect of `all_sounds_off` on one voice: playing voices of the channel
/// are hard-silenced.
pub open spec fn sounds_off_one(v: Voice, chan: usize) -> Voice {
    if v.channel_id == chan && v.is_playing_spec() {
        off_spec(v)
    } else {
        v
    }
}

/// Effect of `damp_voices` on one voice: sustained voices of the channel
/// are released (not silenced).
pub open spec fn damp_one(v: Voice, ch: Channel, min_note_length_ticks: u32) -> Voice {
    if v.channel_id == ch.id && v.status == VoiceStatus::Sustained {
        noteoff_spec(v, ch, min_note_length_ticks)
    } else {
        v
    }
}

/// Effect of `release_voice_on_same_note` on one voice: playing voices of
/// the channel on the same key but with a different note id are released.
pub open spec fn release_same_note_one(
    v: Voice,
    ch: Channel,
    key: u8,
    noteid: usize,
    min_note_length_ticks: u32,
) -> Voice {
    if v.channel_id == ch.id && v.is_playing_spec() && v.key == key && v.note_id != noteid {
        noteoff_spec(v, ch, min_note_length_ticks)
    } else {
        v
    }
}

/// Age of a voice relative to the allocation counter, with unsigned
/// wrap-around: older notes give a larger difference.
pub open spec fn wrap_age(noteid: usize, voice_note_id: usize) -> int {
    if noteid >= voice_note_id {
        noteid - voice_note_id
    } else {
        noteid - voice_note_id + usize::MAX + 1
    }
}

/// Eviction priority of a voice: lower scores are evicted first. Base
/// 10000; unassigned-channel voices score 2000 lower, sustained voices
/// 1000 lower; older notes score lower by their age; and past the attack
/// segment the envelope amplitude (in thousandths) is added back, so
/// louder voices are kept.
pub open spec fn steal_score(v: Voice, noteid: usize) -> int {
    let base = 10000 - (if v.channel_id == NO_CHANNEL {
        2000int
    } else {
        0int
    }) - (if v.status == VoiceStatus::Sustained {
        1000int
    } else {
        0int
    }) - wrap_age(noteid, v.note_id);
    if v.volenv_section != VoiceEnvelope::Attack {
        base + v.volenv_val as int
    } else {
        base
    }
}

/// Whether one voice is hard-silenced by an exclusive-class kill for a
/// new voice `nv` of class `excl`: it is playing, on the same channel,
/// of the same class, and is not the new note itself.
pub open spec fn kill_excl_cond(v: Voice, nv: Voice, excl: int) -> bool {
    &&& v.is_playing_spec()
    &&& v.channel_id == nv.channel_id
    &&& v.excl_class() == excl
    &&& v.note_id != nv.note_id
}

/// Effect of `kill_by_exclusive_class` (for new voice at `nvi`) on the
/// voice at index `i`.
pub open spec fn kill_one(vs: Seq<Voice>, nvi: int, i: int) -> Voice {
    let nv = vs[nvi];
    if nv.excl_class() != 0 && kill_excl_cond(vs[i], nv, nv.excl_class()) {
        off_spec(vs[i])
    } else {
        vs[i]
    }
}

/// Effect of a render pass on one voice: playing voices advance by one
/// block against their channel, others are untouched.
pub open spec fn write_one(v: Voice, channels: Seq<Channel>, min_note_length_ticks: u32) -> Voice {
    if v.is_playing_spec() {
        write_step_spec(v, channels[v.channel_id as int], min_note_length_ticks)
    } else {
        v
    }
}

/// Render plan over the first `n` voices: one task per playing voice, in
/// slot order; the dry signal of channel `c` is routed to audio group
/// `c mod audio_groups`.
pub open spec fn render_plan(
    voices: Seq<Voice>,
    channels: Seq<Channel>,
    min_note_length_ticks: u32,
    audio_groups: u8,
    reverb_active: bool,
    chorus_active: bool,
    n: int,
) -> Seq<RenderTask>
    decreases n,
{
    if n <= 0 {
        Seq::empty()
    } else {
        let rest = render_plan(
            voices,
            channels,
            min_note_length_ticks,
            audio_groups,
            reverb_active,
            chorus_active,
            n - 1,
        );
        let v = voices[n - 1];
        if v.is_playing_spec() {
            rest.push(
                RenderTask {
                    voice: VoiceId((n - 1) as usize),
                    audio_group: ((v.channel_id as int) % (audio_groups as int)) as usize,
                    amplitude: write_step_spec(
                        v,
                        channels[v.channel_id as int],
                        min_note_length_ticks,
                    ).volenv_val,
                    reverb: reverb_active,
                    chorus: chorus_active,
                },
            )
        } else {
            rest
        }
    }
}

impl VoicePool {
    /// The pool invariant: the collection never exceeds the polyphony
    /// limit, and every held voice is well formed.
    pub open spec fn wf(self) -> bool {
        &&& self.voices@.len() <= self.polyphony_limit
        &&& forall|i: int| 0 <= i < self.voices@.len() ==> (#[trigger] self.voices@[i]).wf()
    }

    pub fn new(len: usize, sample_rate: u32) -> (r: Self)
        ensures
            r.wf(),
            r.voices@.len() == 0,
            r.sample_rate == sample_rate,
            r.polyphony_limit == len,
    {
        VoicePool { voices: Vec::new(), sample_rate, polyphony_limit: len }
    }

    /// Changing the sample rate resets the pool: every voice is dropped
    /// and every outstanding handle is invalidated.
    pub fn set_sample_rate(&mut self, sample_rate: u32)
        ensures
            final(self).wf(),
            final(self).voices@.len() == 0,
            final(self).sample_rate == sample_rate,
            final(self).polyphony_limit == old(self).polyphony_limit,
    {
        self.voices.clear();
        self.sample_rate = sample_rate;
    }

    /// Set the polyphony limit; voices above the new limit are cut off
    /// without mercy, and outstanding handles are invalidated.
    pub fn set_polyphony_limit(&mut self, polyphony: usize)
        requires
            old(self).wf(),
        ensures
            final(self).wf(),
            final(self).polyphony_limit == polyphony,
            final(self).sample_rate == old(self).sample_rate,
            final(self).voices@ == old(self).voices@.take(
                if polyphony <= old(self).voices@.len() {
                    polyphony as int
                } else {
                    old(self).voices@.len() as int
                },
            ),
    {
        self.voices.truncate(polyphony);
        self.polyphony_limit = polyphony;
        proof {
            if polyphony <= old(self).voices@.len() {
                assert(self.voices@ =~= old(self).voices@.take(polyphony as int));
            } else {
                assert(self.voices@ =~= old(self).voices@.take(old(self).voices@.len() as int));
            }
        }
    }

    /// Poke one generator parameter's NRPN override on every voice of a
    /// channel.
    #[verifier::loop_isolation(false)]
    pub fn set_gen(&mut self, chan: usize, param: GenParam, value: i64)
        requires
            old(self).wf(),
            -GEN_VAL_MAX <= value <= GEN_VAL_MAX,
        ensures
            final(self).wf(),
            final(self).sample_rate == old(self).sample_rate,
            final(self).polyphony_limit == old(self).polyphony_limit,
            final(self).voices@.len() == old(self).voices@.len(),
            forall|i: int|
                0 <= i < old(self).voices@.len() && old(self).voices@[i].channel_id == chan ==> {
                    let v0 = old(self).voices@[i];
                    let v1 = #[trigger] final(self).voices@[i];
                    &&& same_but_gen(v0, v1)
                    &&& v1.gen@ == v0.gen@.update(
                        param.index_spec(),
                        GenEntry { nrpn: value, ..v0.gen@[param.index_spec()] },
                    )
                },
            forall|i: int|
                0 <= i < old(self).voices@.len() && old(self).voices@[i].channel_id != chan
                    ==> #[trigger] final(self).voices@[i] == old(self).voices@[i],
    {
        let n = self.voices.len();
        let mut i: usize = 0;
        while i < n
            invariant
                i <= n,
                n == self.voices@.len(),
                self.sample_rate == old(self).sample_rate,
                self.polyphony_limit == old(self).polyphony_limit,
                forall|j: int| 0 <= j < n ==> (#[trigger] self.voices@[j]).wf(),
                forall|j: int|
                    0 <= j < i && old(self).voices@[j].channel_id == chan ==> {
                        let v0 = old(self).voices@[j];
                        let v1 = #[trigger] self.voices@[j];
                        &&& same_but_gen(v0, v1)
                        &&& v1.gen@ == v0.gen@.update(
                            param.index_spec(),
                            GenEntry { nrpn: value, ..v0.gen@[param.index_spec()] },
                        )
                    },
                forall|j: int|
                    0 <= j < i && old(self).voices@[j].channel_id != chan
                        ==> #[trigger] self.voices@[j] == old(self).voices@[j],
                forall|j: int| i <= j < n ==> #[trigger] self.voices@[j] == old(self).voices@[j],
            decreases n - i,
        {
            let matches_chan = self.voices[i].get_channel_id() == chan;
            if matches_chan {
                let ghost prev = self.voices@;
                let mut v = self.voices.remove(i);
                v.set_param(param, value);
                self.voices.insert(i, v);
                proof {
                    assert(self.voices@ =~= prev.update(i as int, self.voices@[i as int]));
                }
            }
            i += 1;
        }
    }

    /// Set the synthesis gain of every playing voice.
    #[verifier::loop_isolation(false)]
    pub fn set_gain(&mut self, gain: u32)
        requires
            old(self).wf(),
        ensures
            final(self).wf(),
            final(self).sample_rate == old(self).sample_rate,
            final(self).polyphony_limit == old(self).polyphony_limit,
            final(self).voices@.len() == old(self).voices@.len(),
            forall|i: int|
                0 <= i < old(self).voices@.len() ==> #[trigger] final(self).voices@[i] == (
                if old(self).voices@[i].is_playing_spec() {
                    Voice { gain, ..old(self).voices@[i] }
                } else {
                    old(self).voices@[i]
                }),
    {
        let n = self.voices.len();
        let mut i: usize = 0;
        while i < n
            invariant
                i <= n,
                n == self.voices@.len(),
                self.sample_rate == old(self).sample_rate,
                self.polyphony_limit == old(self).polyphony_limit,
                forall|j: int| 0 <= j < n ==> (#[trigger] self.voices@[j]).wf(),
                forall|j: int|
                    0 <= j < i ==> #[trigger] self.voices@[j] == (
                    if old(self).voices@[j].is_playing_spec() {
                        Voice { gain, ..old(self).voices@[j] }
                    } else {
                        old(self).voices@[j]
                    }),
                forall|j: int| i <= j < n ==> #[trigger] self.voices@[j] == old(self).voices@[j],
            decreases n - i,
        {
            let playing = self.voices[i].is_playing();
            if playing {
                let ghost prev = self.voices@;
                let mut v = self.voices.remove(i);
                v.set_gain(gain);
                self.voices.insert(i, v);
                proof {
                    assert(self.voices@ =~= prev.update(i as int, self.voices@[i as int]));
                }
            }
            i += 1;
        }
    }

    /// Release every on-voice of the channel holding the given key,
    /// subject to the minimum note length.
    #[verifier::loop_isolation(false)]
    pub fn noteoff(&mut self, channel: &Channel, min_note_length_ticks: u32, key: u8)
        requires
            old(self).wf(),
            channel.wf(),
        ensures
            final(self).wf(),
            final(self).sample_rate == old(self).sample_rate,
            final(self).polyphony_limit == old(self).polyphony_limit,
            final(self).voices@.len() == old(self).voices@.len(),
            forall|i: int|
                0 <= i < old(self).voices@.len() ==> #[trigger] final(self).voices@[i]
                    == noteoff_one(old(self).voices@[i], *channel, min_note_length_ticks, key),
    {
        let n = self.voices.len();
        let mut i: usize = 0;
        while i < n
            invariant
                i <= n,
                n == self.voices@.len(),
                self.sample_rate == old(self).sample_rate,
                self.polyphony_limit == old(self).polyphony_limit,
                forall|j: int| 0 <= j < n ==> (#[trigger] self.voices@[j]).wf(),
                forall|j: int|
                    0 <= j < i ==> #[trigger] self.voices@[j] == noteoff_one(
                        old(self).voices@[j],
                        *channel,
                        min_note_length_ticks,
                        key,
                    ),
                forall|j: int| i <= j < n ==> #[trigger] self.voices@[j] == old(self).voices@[j],
            decreases n - i,
        {
            let sel = self.voices[i].is_on() && self.voices[i].get_channel_id()
                == channel.get_id() && self.voices[i].key == key;
            if sel {
                let ghost prev = self.voices@;
                let mut v = self.voices.remove(i);
                v.noteoff(channel, min_note_length_ticks);
                self.voices.insert(i, v);
                proof {
                    assert(self.voices@ =~= prev.update(i as int, self.voices@[i as int]));
                }
            }
            i += 1;
        }
    }

    /// Release every playing voice of channel `chan`, looking its channel
    /// up in `channels`.
    #[verifier::loop_isolation(false)]
    pub fn all_notes_off(&mut self, channels: &Vec<Channel>, min_note_length_ticks: u32, chan: usize)
        requires
            old(self).wf(),
            forall|c: int| 0 <= c < channels@.len() ==> (#[trigger] channels@[c]).wf(),
            (exists|i: int|
                0 <= i < old(self).voices@.len() && (#[trigger] old(self).voices@[i]).channel_id
                    == chan && old(self).voices@[i].is_playing_spec()) ==> chan < channels@.len(),
        ensures
            final(self).wf(),
            final(self).sample_rate == old(self).sample_rate,
            final(self).polyphony_limit == old(self).polyphony_limit,
            final(self).voices@.len() == old(self).voices@.len(),
            forall|i: int|
                0 <= i < old(self).voices@.len() ==> #[trigger] final(self).voices@[i]
                    == all_notes_off_one(
                    old(self).voices@[i],
                    channels@[chan as int],
                    min_note_length_ticks,
                    chan,
                ),
    {
        let n = self.voices.len();
        let mut i: usize = 0;
        while i < n
            invariant
                i <= n,
                n == self.voices@.len(),
                self.sample_rate == old(self).sample_rate,
                self.polyphony_limit == old(self).polyphony_limit,
                forall|j: int| 0 <= j < n ==> (#[trigger] self.voices@[j]).wf(),
                forall|j: int|
                    0 <= j < i ==> #[trigger] self.voices@[j] == all_notes_off_one(
                        old(self).voices@[j],
                        channels@[chan as int],
                        min_note_length_ticks,
                        chan,
                    ),
                forall|j: int| i <= j < n ==> #[trigger] self.voices@[j] == old(self).voices@[j],
            decreases n - i,
        {
            let sel = self.voices[i].get_channel_id() == chan && self.voices[i].is_playing();
            if sel {
                let ghost prev = self.voices@;
                let chan_id = self.voices[i].get_channel_id();
                let mut v = self.voices.remove(i);
                v.noteoff(&channels[chan_id], min_note_length_ticks);
                self.voices.insert(i, v);
                proof {
                    assert(self.voices@ =~= prev.update(i as int, self.voices@[i as int]));
                }
            }
            i += 1;
        }
    }

    /// Hard-silence every playing voice of a channel.
    #[verifier::loop_isolation(false)]
    pub fn all_sounds_off(&mut self, chan: usize)
        requires
            old(self).wf(),
        ensures
            final(self).wf(),
            final(self).sample_rate == old(self).sample_rate,
            final(self).polyphony_limit == old(self).polyphony_limit,
            final(self).voices@.len() == old(self).voices@.len(),
            forall|i: int|
                0 <= i < old(self).voices@.len() ==> #[trigger] final(self).voices@[i]
                    == sounds_off_one(old(self).voices@[i], chan),
    {
        let n = self.voices.len();
        let mut i: usize = 0;
        while i < n
            invariant
                i <= n,
                n == self.voices@.len(),
                self.sample_rate == old(self).sample_rate,
                self.polyphony_limit == old(self).polyphony_limit,
                forall|j: int| 0 <= j < n ==> (#[trigger] self.voices@[j]).wf(),
                forall|j: int|
                    0 <= j < i ==> #[trigger] self.voices@[j] == sounds_off_one(
                        old(self).voices@[j],
                        chan,
                    ),
                forall|j: int| i <= j < n ==> #[trigger] self.voices@[j] == old(self).voices@[j],
            decreases n - i,
        {
            let sel = self.voices[i].get_channel_id() == chan && self.voices[i].is_playing();
            if sel {
                let ghost prev = self.voices@;
                let mut v = self.voices.remove(i);
                v.off();
                self.voices.insert(i, v);
                proof {
                    assert(self.voices@ =~= prev.update(i as int, self.voices@[i as int]));
                }
            }
            i += 1;
        }
    }

    /// Hard-silence every voice in the pool unconditionally.
    #[verifier::loop_isolation(false)]
    pub fn system_reset(&mut self)
        requires
            old(self).wf(),
        ensures
            final(self).wf(),
            final(self).sample_rate == old(self).sample_rate,
            final(self).polyphony_limit == old(self).polyphony_limit,
            final(self).voices@.len() == old(self).voices@.len(),
            forall|i: int|
                0 <= i < old(self).voices@.len() ==> #[trigger] final(self).voices@[i] == off_spec(
                    old(self).voices@[i],
                ),
    {
        let n = self.voices.len();
        let mut i: usize = 0;
        while i < n
            invariant
                i <= n,
                n == self.voices@.len(),
                self.sample_rate == old(self).sample_rate,
                self.polyphony_limit == old(self).polyphony_limit,
                forall|j: int| 0 <= j < n ==> (#[trigger] self.voices@[j]).wf(),
                forall|j: int|
                    0 <= j < i ==> #[trigger] self.voices@[j] == off_spec(old(self).voices@[j]),
                forall|j: int| i <= j < n ==> #[trigger] self.voices@[j] == old(self).voices@[j],
            decreases n - i,
        {
            let ghost prev = self.voices@;
            let mut v = self.voices.remove(i);
            v.off();
            self.voices.insert(i, v);
            proof {
                assert(self.voices@ =~= prev.update(i as int, self.voices@[i as int]));
            }
            i += 1;
        }
    }

    /// Forward a key-pressure (polyphonic aftertouch) event to every
    /// voice of the channel holding the given key.
    #[verifier::loop_isolation(false)]
    pub fn key_pressure(&mut self, channel: &Channel, key: u8)
        requires
            old(self).wf(),
            channel.wf(),
        ensures
            final(self).wf(),
            final(self).sample_rate == old(self).sample_rate,
            final(self).polyphony_limit == old(self).polyphony_limit,
            final(self).voices@.len() == old(self).voices@.len(),
            forall|i: int|
                0 <= i < old(self).voices@.len() && (old(self).voices@[i].channel_id == channel.id
                    && old(self).voices@[i].key == key) ==> {
                    let v0 = old(self).voices@[i];
                    let v1 = #[trigger] final(self).voices@[i];
                    &&& same_but_gen(v0, v1)
                    &&& gen_refreshed(v0, *channel, v1, 0, MOD_KEYPRESSURE, false)
                },
            forall|i: int|
                0 <= i < old(self).voices@.len() && !(old(self).voices@[i].channel_id == channel.id
                    && old(self).voices@[i].key == key) ==> #[trigger] final(self).voices@[i]
                    == old(self).voices@[i],
    {
        let n = self.voices.len();
        let mut i: usize = 0;
        while i < n
            invariant
                i <= n,
                n == self.voices@.len(),
                self.sample_rate == old(self).sample_rate,
                self.polyphony_limit == old(self).polyphony_limit,
                forall|j: int| 0 <= j < n ==> (#[trigger] self.voices@[j]).wf(),
                forall|j: int|
                    0 <= j < i && (old(self).voices@[j].channel_id == channel.id && old(
                        self,
                    ).voices@[j].key == key) ==> {
                        let v0 = old(self).voices@[j];
                        let v1 = #[trigger] self.voices@[j];
                        &&& same_but_gen(v0, v1)
                        &&& gen_refreshed(v0, *channel, v1, 0, MOD_KEYPRESSURE, false)
                    },
                forall|j: int|
                    0 <= j < i && !(old(self).voices@[j].channel_id == channel.id && old(
                        self,
                    ).voices@[j].key == key) ==> #[trigger] self.voices@[j] == old(self).voices@[j],
                forall|j: int| i <= j < n ==> #[trigger] self.voices@[j] == old(self).voices@[j],
            decreases n - i,
        {
            let sel = self.voices[i].get_channel_id() == channel.get_id() && self.voices[i].key
                == key;
            if sel {
                let ghost prev = self.voices@;
                let mut v = self.voices.remove(i);
                v.modulate(channel, 0, MOD_KEYPRESSURE);
                self.voices.insert(i, v);
                proof {
                    assert(self.voices@ =~= prev.update(i as int, self.voices@[i as int]));
                }
            }
            i += 1;
        }
    }

    /// Release every sustained voice of a channel; used when the sustain
    /// pedal is lifted.
    #[verifier::loop_isolation(false)]
    pub fn damp_voices(&mut self, channel: &Channel, min_note_length_ticks: u32)
        requires
            old(self).wf(),
            channel.wf(),
        ensures
            final(self).wf(),
            final(self).sample_rate == old(self).sample_rate,
            final(self).polyphony_limit == old(self).polyphony_limit,
            final(self).voices@.len() == old(self).voices@.len(),
            forall|i: int|
                0 <= i < old(self).voices@.len() ==> #[trigger] final(self).voices@[i] == damp_one(
                    old(self).voices@[i],
                    *channel,
                    min_note_length_ticks,
                ),
    {
        let n = self.voices.len();
        let mut i: usize = 0;
        while i < n
            invariant
                i <= n,
                n == self.voices@.len(),
                self.sample_rate == old(self).sample_rate,
                self.polyphony_limit == old(self).polyphony_limit,
                forall|j: int| 0 <= j < n ==> (#[trigger] self.voices@[j]).wf(),
                forall|j: int|
                    0 <= j < i ==> #[trigger] self.voices@[j] == damp_one(
                        old(self).voices@[j],
                        *channel,
                        min_note_length_ticks,
                    ),
                forall|j: int| i <= j < n ==> #[trigger] self.voices@[j] == old(self).voices@[j],
            decreases n - i,
        {
            let sustained = match self.voices[i].status {
                VoiceStatus::Sustained => true,
                _ => false,
            };
            let sel = self.voices[i].get_channel_id() == channel.get_id() && sustained;
            if sel {
                let ghost prev = self.voices@;
                let mut v = self.voices.remove(i);
                v.noteoff(channel, min_note_length_ticks);
                self.voices.insert(i, v);
                proof {
                    assert(self.voices@ =~= prev.update(i as int, self.voices@[i as int]));
                }
            }
            i += 1;
        }
    }

    /// Forward a controller-change event to every voice of the channel.
    #[verifier::loop_isolation(false)]
    pub fn modulate_voices(&mut self, channel: &Channel, is_cc: i32, ctrl: u16)
        requires
            old(self).wf(),
            channel.wf(),
        ensures
            final(self).wf(),
            final(self).sample_rate == old(self).sample_rate,
            final(self).polyphony_limit == old(self).polyphony_limit,
            final(self).voices@.len() == old(self).voices@.len(),
            forall|i: int|
                0 <= i < old(self).voices@.len() && old(self).voices@[i].channel_id == channel.id
                    ==> {
                    let v0 = old(self).voices@[i];
                    let v1 = #[trigger] final(self).voices@[i];
                    &&& same_but_gen(v0, v1)
                    &&& gen_refreshed(v0, *channel, v1, is_cc, ctrl, false)
                },
            forall|i: int|
                0 <= i < old(self).voices@.len() && old(self).voices@[i].channel_id != channel.id
                    ==> #[trigger] final(self).voices@[i] == old(self).voices@[i],
    {
        let n = self.voices.len();
        let mut i: usize = 0;
        while i < n
            invariant
                i <= n,
                n == self.voices@.len(),
                self.sample_rate == old(self).sample_rate,
                self.polyphony_limit == old(self).polyphony_limit,
                forall|j: int| 0 <= j < n ==> (#[trigger] self.voices@[j]).wf(),
                forall|j: int|
                    0 <= j < i && old(self).voices@[j].channel_id == channel.id ==> {
                        let v0 = old(self).voices@[j];
                        let v1 = #[trigger] self.voices@[j];
                        &&& same_but_gen(v0, v1)
                        &&& gen_refreshed(v0, *channel, v1, is_cc, ctrl, false)
                    },
                forall|j: int|
                    0 <= j < i && old(self).voices@[j].channel_id != channel.id
                        ==> #[trigger] self.voices@[j] == old(self).voices@[j],
                forall|j: int| i <= j < n ==> #[trigger] self.voices@[j] == old(self).voices@[j],
            decreases n - i,
        {
            let sel = self.voices[i].get_channel_id() == channel.get_id();
            if sel {
                let ghost prev = self.voices@;
                let mut v = self.voices.remove(i);
                v.modulate(channel, is_cc, ctrl);
                self.voices.insert(i, v);
                proof {
                    assert(self.voices@ =~= prev.update(i as int, self.voices@[i as int]));
                }
            }
            i += 1;
        }
    }

    /// Recompute every modulated generator of every voice of the channel.
    #[verifier::loop_isolation(false)]
    pub fn modulate_voices_all(&mut self, channel: &Channel)
        requires
            old(self).wf(),
            channel.wf(),
        ensures
            final(self).wf(),
            final(self).sample_rate == old(self).sample_rate,
            final(self).polyphony_limit == old(self).polyphony_limit,
            final(self).voices@.len() == old(self).voices@.len(),
            forall|i: int|
                0 <= i < old(self).voices@.len() && old(self).voices@[i].channel_id == channel.id
                    ==> {
                    let v0 = old(self).voices@[i];
                    let v1 = #[trigger] final(self).voices@[i];
                    &&& same_but_gen(v0, v1)
                    &&& gen_refreshed(v0, *channel, v1, 0, 0, true)
                },
            forall|i: int|
                0 <= i < old(self).voices@.len() && old(self).voices@[i].channel_id != channel.id
                    ==> #[trigger] final(self).voices@[i] == old(self).voices@[i],
    {
        let n = self.voices.len();
        let mut i: usize = 0;
        while i < n
            invariant
                i <= n,
                n == self.voices@.len(),
                self.sample_rate == old(self).sample_rate,
                self.polyphony_limit == old(self).polyphony_limit,
                forall|j: int| 0 <= j < n ==> (#[trigger] self.voices@[j]).wf(),
                forall|j: int|
                    0 <= j < i && old(self).voices@[j].channel_id == channel.id ==> {
                        let v0 = old(self).voices@[j];
                        let v1 = #[trigger] self.voices@[j];
                        &&& same_but_gen(v0, v1)
                        &&& gen_refreshed(v0, *channel, v1, 0, 0, true)
                    },
                forall|j: int|
                    0 <= j < i && old(self).voices@[j].channel_id != channel.id
                        ==> #[trigger] self.voices@[j] == old(self).voices@[j],
                forall|j: int| i <= j < n ==> #[trigger] self.voices@[j] == old(self).voices@[j],
            decreases n - i,
        {
            let sel = self.voices[i].get_channel_id() == channel.get_id();
            if sel {
                let ghost prev = self.voices@;
                let mut v = self.voices.remove(i);
                v.modulate_all(channel);
                self.voices.insert(i, v);
                proof {
                    assert(self.voices@ =~= prev.update(i as int, self.voices@[i as int]));
                }
            }
            i += 1;
        }
    }

    /// Release other playing voices on the same key but with a different
    /// note id, supporting retrigger semantics.
    #[verifier::loop_isolation(false)]
    pub fn release_voice_on_same_note(
        &mut self,
        channel: &Channel,
        key: u8,
        noteid: usize,
        min_note_length_ticks: u32,
    )
        requires
            old(self).wf(),
            channel.wf(),
        ensures
            final(self).wf(),
            final(self).sample_rate == old(self).sample_rate,
            final(self).polyphony_limit == old(self).polyphony_limit,
            final(self).voices@.len() == old(self).voices@.len(),
            forall|i: int|
                0 <= i < old(self).voices@.len() ==> #[trigger] final(self).voices@[i]
                    == release_same_note_one(
                    old(self).voices@[i],
                    *channel,
                    key,
                    noteid,
                    min_note_length_ticks,
                ),
    {
        let n = self.voices.len();
        let mut i: usize = 0;
        while i < n
            invariant
                i <= n,
                n == self.voices@.len(),
                self.sample_rate == old(self).sample_rate,
                self.polyphony_limit == old(self).polyphony_limit,
                forall|j: int| 0 <= j < n ==> (#[trigger] self.voices@[j]).wf(),
                forall|j: int|
                    0 <= j < i ==> #[trigger] self.voices@[j] == release_same_note_one(
                        old(self).voices@[j],
                        *channel,
                        key,
                        noteid,
                        min_note_length_ticks,
                    ),
                forall|j: int| i <= j < n ==> #[trigger] self.voices@[j] == old(self).voices@[j],
            decreases n - i,
        {
            let sel = self.voices[i].get_channel_id() == channel.get_id()
                && self.voices[i].is_playing() && self.voices[i].key == key
                && self.voices[i].get_note_id() != noteid;
            if sel {
                let ghost prev = self.voices@;
                let mut v = self.voices.remove(i);
                v.noteoff(channel, min_note_length_ticks);
                self.voices.insert(i, v);
                proof {
                    assert(self.voices@ =~= prev.update(i as int, self.voices@[i as int]));
                }
            }
            i += 1;
        }
    }

    /// Eviction priority of the voice at `i`, as an executable score.
    fn steal_score_exec(&self, i: usize, noteid: usize) -> (s: i128)
        requires
            self.wf(),
            i < self.voices@.len(),
        ensures
            s == steal_score(self.voices@[i as int], noteid),
    {
        let v = &self.voices[i];
        let vid = v.get_note_id();
        let age: u128 = if noteid >= vid {
            (noteid - vid) as u128
        } else {
            (usize::MAX - vid) as u128 + (noteid as u128) + 1
        };
        let mut s: i128 = 10000;
        if v.get_channel_id() == NO_CHANNEL {
            s = s - 2000;
        }
        let sustained = match v.status {
            VoiceStatus::Sustained => true,
            _ => false,
        };
        if sustained {
            s = s - 1000;
        }
        s = s - (age as i128);
        let in_attack = match v.volenv_section {
            VoiceEnvelope::Attack => true,
            _ => false,
        };
        if !in_attack {
            s = s + (v.volenv_val as i128);
        }
        s
    }

    /// Voice stealing: a single linear pass. The first already-available
    /// slot short-circuits; otherwise the first slot of minimum eviction
    /// score is hard-silenced and returned. Fails only on an empty pool.
    /// The victim is a pure function of the pool state and `noteid`.
    #[verifier::loop_isolation(false)]
    pub fn free_voice_by_kill(&mut self, noteid: usize) -> (r: Option<VoiceId>)
        requires
            old(self).wf(),
        ensures
            final(self).wf(),
            final(self).sample_rate == old(self).sample_rate,
            final(self).polyphony_limit == old(self).polyphony_limit,
            final(self).voices@.len() == old(self).voices@.len(),
            old(self).voices@.len() == 0 ==> r is None && *final(self) == *old(self),
            old(self).voices@.len() > 0 ==> r is Some,
            (exists|j: int|
                0 <= j < old(self).voices@.len() && (#[trigger] old(
                    self,
                ).voices@[j]).is_available_spec()) ==> *final(self) == *old(self) && (exists|i: int|
                {
                    &&& 0 <= i < old(self).voices@.len()
                    &&& (#[trigger] old(self).voices@[i]).is_available_spec()
                    &&& forall|j: int|
                        0 <= j < i ==> !(#[trigger] old(self).voices@[j]).is_available_spec()
                    &&& r == Some(VoiceId(i as usize))
                }),
            (old(self).voices@.len() > 0 && (forall|j: int|
                0 <= j < old(self).voices@.len() ==> !(#[trigger] old(
                    self,
                ).voices@[j]).is_available_spec())) ==> (exists|k: int|
                {
                    &&& 0 <= k < old(self).voices@.len()
                    &&& forall|j: int|
                        0 <= j < old(self).voices@.len() ==> steal_score(
                            old(self).voices@[k],
                            noteid,
                        ) <= steal_score(#[trigger] old(self).voices@[j], noteid)
                    &&& forall|j: int|
                        0 <= j < k ==> steal_score(#[trigger] old(self).voices@[j], noteid)
                            > steal_score(old(self).voices@[k], noteid)
                    &&& r == Some(VoiceId(k as usize))
                    &&& final(self).voices@ == old(self).voices@.update(
                        k,
                        off_spec(old(self).voices@[k]),
                    )
                }),
    {
        let n = self.voices.len();
        if n == 0 {
            return None;
        }
        let mut best: usize = 0;
        let mut best_prio: i128 = 999_999;
        let mut i: usize = 0;
        while i < n
            invariant
                i <= n,
                n == self.voices@.len(),
                *self == *old(self),
                forall|j: int| 0 <= j < i ==> !(#[trigger] self.voices@[j]).is_available_spec(),
                i > 0 ==> {
                    &&& best < i
                    &&& best_prio == steal_score(self.voices@[best as int], noteid)
                    &&& forall|j: int|
                        0 <= j < i ==> steal_score(self.voices@[best as int], noteid)
                            <= steal_score(#[trigger] self.voices@[j], noteid)
                    &&& forall|j: int|
                        0 <= j < best ==> steal_score(#[trigger] self.voices@[j], noteid)
                            > steal_score(self.voices@[best as int], noteid)
                },
                i == 0 ==> best_prio == 999_999,
            decreases n - i,
        {
            if self.voices[i].is_available() {
                return Some(VoiceId(i));
            }
            let s = self.steal_score_exec(i, noteid);
            proof {
                let v = self.voices@[i as int];
                assert(wrap_age(noteid, v.note_id) >= 0);
                assert(steal_score(v, noteid) <= 11000);
            }
            if s < best_prio {
                best = i;
                best_prio = s;
            }
            i += 1;
        }
        let ghost prev = self.voices@;
        let mut v = self.voices.remove(best);
        v.off();
        self.voices.insert(best, v);
        proof {
            assert(self.voices@ =~= prev.update(best as int, off_spec(prev[best as int])));
        }
        Some(VoiceId(best))
    }

    /// After a voice is chosen, hard-silence every other playing voice of
    /// the same channel and the same non-zero exclusive class but a
    /// different note id.
    #[verifier::loop_isolation(false)]
    pub fn kill_by_exclusive_class(&mut self, new_voice: VoiceId)
        requires
            old(self).wf(),
            new_voice.0 < old(self).voices@.len(),
        ensures
            final(self).wf(),
            final(self).sample_rate == old(self).sample_rate,
            final(self).polyphony_limit == old(self).polyphony_limit,
            final(self).voices@.len() == old(self).voices@.len(),
            forall|i: int|
                0 <= i < old(self).voices@.len() ==> #[trigger] final(self).voices@[i] == kill_one(
                    old(self).voices@,
                    new_voice.0 as int,
                    i,
                ),
    {
        let excl = self.voices[new_voice.0].gen_total_at(GenParam::ExclusiveClass);
        let nv_chan = self.voices[new_voice.0].get_channel_id();
        let nv_note = self.voices[new_voice.0].get_note_id();
        if excl == 0 {
            return;
        }
        let n = self.voices.len();
        let mut i: usize = 0;
        while i < n
            invariant
                i <= n,
                n == self.voices@.len(),
                self.sample_rate == old(self).sample_rate,
                self.polyphony_limit == old(self).polyphony_limit,
                forall|j: int| 0 <= j < n ==> (#[trigger] self.voices@[j]).wf(),
                forall|j: int|
                    0 <= j < i ==> #[trigger] self.voices@[j] == kill_one(
                        old(self).voices@,
                        new_voice.0 as int,
                        j,
                    ),
                forall|j: int| i <= j < n ==> #[trigger] self.voices@[j] == old(self).voices@[j],
            decreases n - i,
        {
            let sel = self.voices[i].is_playing() && self.voices[i].get_channel_id() == nv_chan
                && self.voices[i].gen_total_at(GenParam::ExclusiveClass) == excl
                && self.voices[i].get_note_id() != nv_note;
            if sel {
                let ghost prev = self.voices@;
                let mut v = self.voices.remove(i);
                v.kill_excl();
                self.voices.insert(i, v);
                proof {
                    assert(self.voices@ =~= prev.update(i as int, self.voices@[i as int]));
                }
            }
            i += 1;
        }
    }

    /// Run the exclusive-class kill for the chosen voice, then start it
    /// against its channel's current state.
    pub fn start_voice(&mut self, channels: &Vec<Channel>, voice_id: VoiceId)
        requires
            old(self).wf(),
            voice_id.0 < old(self).voices@.len(),
            old(self).voices@[voice_id.0 as int].channel_id < channels@.len(),
            forall|c: int| 0 <= c < channels@.len() ==> (#[trigger] channels@[c]).wf(),
        ensures
            final(self).wf(),
            final(self).sample_rate == old(self).sample_rate,
            final(self).polyphony_limit == old(self).polyphony_limit,
            final(self).voices@.len() == old(self).voices@.len(),
            forall|i: int|
                0 <= i < old(self).voices@.len() && i != voice_id.0 ==> #[trigger] final(self).voices@[i] == kill_one(old(self).voices@, voice_id.0 as int, i),
            start_rel(
                old(self).voices@[voice_id.0 as int],
                channels@[old(self).voices@[voice_id.0 as int].channel_id as int],
                final(self).voices@[voice_id.0 as int],
            ),
    {
        self.kill_by_exclusive_class(voice_id);
        proof {
            assert(kill_one(old(self).voices@, voice_id.0 as int, voice_id.0 as int) == old(
                self,
            ).voices@[voice_id.0 as int]);
        }
        let chan_id = self.voices[voice_id.0].get_channel_id();
        let ghost prev = self.voices@;
        let mut v = self.voices.remove(voice_id.0);
        v.start(&channels[chan_id]);
        self.voices.insert(voice_id.0, v);
        proof {
            assert(self.voices@ =~= prev.update(voice_id.0 as int, self.voices@[voice_id.0 as int]));
        }
    }

    /// Render dispatch, once per audio block: every playing voice is
    /// advanced one block against its channel, and the returned plan
    /// routes each one's output to audio group
    /// `channel_id mod audio_groups`, with the block's envelope amplitude
    /// and the effect-send gates. The caller accumulates the samples.
    #[verifier::loop_isolation(false)]
    pub fn write_voices(
        &mut self,
        channels: &Vec<Channel>,
        min_note_length_ticks: u32,
        audio_groups: u8,
        reverb_active: bool,
        chorus_active: bool,
    ) -> (plan: Vec<RenderTask>)
        requires
            old(self).wf(),
            audio_groups >= 1,
            forall|c: int| 0 <= c < channels@.len() ==> (#[trigger] channels@[c]).wf(),
            forall|i: int|
                0 <= i < old(self).voices@.len() && (#[trigger] old(
                    self,
                ).voices@[i]).is_playing_spec() ==> old(self).voices@[i].channel_id
                    < channels@.len(),
        ensures
            final(self).wf(),
            final(self).sample_rate == old(self).sample_rate,
            final(self).polyphony_limit == old(self).polyphony_limit,
            final(self).voices@.len() == old(self).voices@.len(),
            forall|i: int|
                0 <= i < old(self).voices@.len() ==> #[trigger] final(self).voices@[i] == write_one(
                    old(self).voices@[i],
                    channels@,
                    min_note_length_ticks,
                ),
            plan@ == render_plan(
                old(self).voices@,
                channels@,
                min_note_length_ticks,
                audio_groups,
                reverb_active,
                chorus_active,
                old(self).voices@.len() as int,
            ),
    {
        let mut plan: Vec<RenderTask> = Vec::new();
        let n = self.voices.len();
        let mut i: usize = 0;
        while i < n
            invariant
                i <= n,
                n == self.voices@.len(),
                self.sample_rate == old(self).sample_rate,
                self.polyphony_limit == old(self).polyphony_limit,
                forall|j: int| 0 <= j < n ==> (#[trigger] self.voices@[j]).wf(),
                forall|j: int|
                    0 <= j < i ==> #[trigger] self.voices@[j] == write_one(
                        old(self).voices@[j],
                        channels@,
                        min_note_length_ticks,
                    ),
                forall|j: int| i <= j < n ==> #[trigger] self.voices@[j] == old(self).voices@[j],
                plan@ == render_plan(
                    old(self).voices@,
                    channels@,
                    min_note_length_ticks,
                    audio_groups,
                    reverb_active,
                    chorus_active,
                    i as int,
                ),
            decreases n - i,
        {
            let playing = self.voices[i].is_playing();
            if playing {
                let chan_id = self.voices[i].get_channel_id();
                let group = chan_id % (audio_groups as usize);
                let ghost prev = self.voices@;
                let mut v = self.voices.remove(i);
                v.write_block(&channels[chan_id], min_note_length_ticks);
                let amp = v.volenv_val;
                self.voices.insert(i, v);
                proof {
                    assert(self.voices@ =~= prev.update(i as int, self.voices@[i as int]));
                }
                plan.push(
                    RenderTask {
                        voice: VoiceId(i),
                        audio_group: group,
                        amplitude: amp,
                        reverb: reverb_active,
                        chorus: chorus_active,
                    },
                );
            }
            i += 1;
        }
        plan
    }
}

impl VoicePool {
    /// Allocation: reuse the lowest-indexed available slot; else append a
    /// new voice while under the polyphony limit; else steal. Fails
    /// exactly when the pool has zero slots configured.
    #[verifier::loop_isolation(false)]
    pub fn request_new_voice(&mut self, noteid: usize, desc: VoiceDescriptor) -> (r: Result<
        VoiceId,
        (),
    >)
        requires
            old(self).wf(),
            desc.wf(),
        ensures
            final(self).wf(),
            final(self).sample_rate == old(self).sample_rate,
            final(self).polyphony_limit == old(self).polyphony_limit,
            r is Err <==> (old(self).polyphony_limit == 0 && old(self).voices@.len() == 0),
            r is Err ==> *final(self) == *old(self),
            (exists|j: int|
                0 <= j < old(self).voices@.len() && (#[trigger] old(
                    self,
                ).voices@[j]).is_available_spec()) ==> (exists|i: int|
                {
                    &&& 0 <= i < old(self).voices@.len()
                    &&& (#[trigger] old(self).voices@[i]).is_available_spec()
                    &&& forall|j: int|
                        0 <= j < i ==> !(#[trigger] old(self).voices@[j]).is_available_spec()
                    &&& r == Ok::<VoiceId, ()>(VoiceId(i as usize))
                    &&& final(self).voices@.len() == old(self).voices@.len()
                    &&& forall|j: int|
                        0 <= j < old(self).voices@.len() && j != i ==> #[trigger] final(self).voices@[j] == old(self).voices@[j]
                    &&& reinit_rel(old(self).voices@[i], desc, final(self).voices@[i])
                }),
            ((forall|j: int|
                0 <= j < old(self).voices@.len() ==> !(#[trigger] old(
                    self,
                ).voices@[j]).is_available_spec()) && old(self).voices@.len()
                < old(self).polyphony_limit) ==> {
                &&& final(self).voices@.len() == old(self).voices@.len() + 1
                &&& forall|j: int|
                    0 <= j < old(self).voices@.len() ==> #[trigger] final(self).voices@[j] == old(
                        self,
                    ).voices@[j]
                &&& new_rel(
                    old(self).sample_rate,
                    desc,
                    final(self).voices@[old(self).voices@.len() as int],
                )
                &&& r == Ok::<VoiceId, ()>(VoiceId(old(self).voices@.len() as usize))
            },
            ((forall|j: int|
                0 <= j < old(self).voices@.len() ==> !(#[trigger] old(
                    self,
                ).voices@[j]).is_available_spec()) && old(self).voices@.len() >= old(
                self,
            ).polyphony_limit && old(self).voices@.len() > 0) ==> (exists|k: int|
                {
                    &&& 0 <= k < old(self).voices@.len()
                    &&& forall|j: int|
                        0 <= j < old(self).voices@.len() ==> steal_score(
                            old(self).voices@[k],
                            noteid,
                        ) <= steal_score(#[trigger] old(self).voices@[j], noteid)
                    &&& forall|j: int|
                        0 <= j < k ==> steal_score(#[trigger] old(self).voices@[j], noteid)
                            > steal_score(old(self).voices@[k], noteid)
                    &&& r == Ok::<VoiceId, ()>(VoiceId(k as usize))
                    &&& final(self).voices@.len() == old(self).voices@.len()
                    &&& forall|j: int|
                        0 <= j < old(self).voices@.len() && j != k ==> #[trigger] final(self).voices@[j] == old(self).voices@[j]
                    &&& reinit_rel(old(self).voices@[k], desc, final(self).voices@[k])
                }),
    {
        let n = self.voices.len();
        let mut i: usize = 0;
        while i < n
            invariant
                i <= n,
                n == self.voices@.len(),
                *self == *old(self),
                forall|j: int| 0 <= j < i ==> !(#[trigger] self.voices@[j]).is_available_spec(),
            decreases n - i,
        {
            if self.voices[i].is_available() {
                let ghost prev = self.voices@;
                let mut v = self.voices.remove(i);
                v.reinit(desc);
                self.voices.insert(i, v);
                proof {
                    assert(self.voices@ =~= prev.update(i as int, self.voices@[i as int]));
                }
                return Ok(VoiceId(i));
            }
            i += 1;
        }
        if n < self.polyphony_limit {
            let v = Voice::new(self.sample_rate, desc);
            self.voices.push(v);
            return Ok(VoiceId(n));
        }
        let stolen = self.free_voice_by_kill(noteid);
        match stolen {
            Some(id) => {
                let ghost prev = self.voices@;
                let mut v = self.voices.remove(id.0);
                v.reinit(desc);
                self.voices.insert(id.0, v);
                proof {
                    assert(self.voices@ =~= prev.update(id.0 as int, self.voices@[id.0 as int]));
                }
                Ok(id)
            },
            None => Err(()),
        }
    }
}

/// The steal victim is unique: two indices that both satisfy the
/// first-minimum characterization of the eviction scan coincide. With
/// `free_voice_by_kill`'s contract this makes stealing a pure function of
/// the pool state and the allocation counter: equal states give equal
/// victims.
pub proof fn lemma_steal_victim_unique(vs: Seq<Voice>, noteid: usize, k1: int, k2: int)
    requires
        0 <= k1 < vs.len(),
        0 <= k2 < vs.len(),
        forall|j: int|
            0 <= j < vs.len() ==> steal_score(vs[k1], noteid) <= steal_score(
                #[trigger] vs[j],
                noteid,
            ),
        forall|j: int| 0 <= j < k1 ==> steal_score(#[trigger] vs[j], noteid) > steal_score(vs[k1], noteid),
        forall|j: int|
            0 <= j < vs.len() ==> steal_score(vs[k2], noteid) <= steal_score(
                #[trigger] vs[j],
                noteid,
            ),
        forall|j: int| 0 <= j < k2 ==> steal_score(#[trigger] vs[j], noteid) > steal_score(vs[k2], noteid),
    ensures
        k1 == k2,
{
    if k1 < k2 {
        assert(steal_score(vs[k1], noteid) > steal_score(vs[k2], noteid));
        assert(steal_score(vs[k1], noteid) <= steal_score(vs[k2], noteid));
    }
    if k2 < k1 {
        assert(steal_score(vs[k2], noteid) > steal_score(vs[k1], noteid));
        assert(steal_score(vs[k2], noteid) <= steal_score(vs[k1], noteid));
    }
}

/// `all_sounds_off` is idempotent on each voice: a second pass over an
/// already hard-silenced voice changes nothing.
pub proof fn lemma_all_sounds_off_idempotent(v: Voice, chan: usize)
    ensures
        sounds_off_one(sounds_off_one(v, chan), chan) == sounds_off_one(v, chan),
{
}

/// `damp_voices` releases a sustained voice rather than silencing it:
/// past the minimum note length, with the pedal lifted, the voice enters
/// its release segment and keeps playing.
pub proof fn lemma_damp_releases(v: Voice, ch: Channel, min_note_length_ticks: u32)
    requires
        v.status == VoiceStatus::Sustained,
        v.channel_id == ch.id,
        !ch.sustained(),
        v.ticks >= min_note_length_ticks,
    ensures
        damp_one(v, ch, min_note_length_ticks).volenv_section == VoiceEnvelope::Release,
        damp_one(v, ch, min_note_length_ticks).status == VoiceStatus::On,
        damp_one(v, ch, min_note_length_ticks).is_playing_spec(),
{
}

} // verus!
