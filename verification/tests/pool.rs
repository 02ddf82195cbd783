use polysynth::channel::Channel;
use polysynth::generator::{GenEntry, GenParam};
use polysynth::voice::{
    Voice, VoiceDescriptor, VoiceEnvelope, VoiceId, VoiceMod, VoiceStatus,
};
use polysynth::voice_pool::VoicePool;

fn zero_gens() -> Vec<i64> {
    vec![0i64; 13]
}

fn desc(channel_id: usize, key: u8, note_id: usize) -> VoiceDescriptor {
    VoiceDescriptor {
        channel_id,
        key,
        vel: 100,
        note_id,
        start_time: 0,
        sample_id: 0,
        gens: zero_gens(),
        mods: Vec::new(),
    }
}

fn desc_full(
    channel_id: usize,
    key: u8,
    note_id: usize,
    gens: Vec<i64>,
    mods: Vec<VoiceMod>,
) -> VoiceDescriptor {
    VoiceDescriptor {
        channel_id,
        key,
        vel: 100,
        note_id,
        start_time: 0,
        sample_id: 0,
        gens,
        mods,
    }
}

fn zero_gen_table() -> Vec<GenEntry> {
    (0..13)
        .map(|_| GenEntry { val: 0, mod_amount: 0, nrpn: 0 })
        .collect()
}

fn raw_voice(
    channel_id: usize,
    note_id: usize,
    status: VoiceStatus,
    section: VoiceEnvelope,
    volenv_val: u32,
) -> Voice {
    Voice {
        channel_id,
        key: 60,
        vel: 100,
        note_id,
        status,
        volenv_section: section,
        volenv_count: 0,
        volenv_val,
        release_from: 0,
        ticks: 1000,
        start_time: 0,
        noteoff_ticks: 0,
        sample_rate: 44100,
        sample_id: 0,
        gain: 1000,
        gen: zero_gen_table(),
        mods: Vec::new(),
    }
}

fn one_channel() -> Vec<Channel> {
    vec![Channel::new(0)]
}

#[test]
fn capacity_invariant_under_request_and_limit() {
    let channels = one_channel();
    let mut pool = VoicePool::new(3, 44100);
    for note in 1..6usize {
        if let Ok(id) = pool.request_new_voice(note, desc(0, 60 + note as u8, note)) {
            pool.start_voice(&channels, id);
        }
        assert!(pool.voices.len() <= pool.polyphony_limit);
    }
    assert_eq!(pool.voices.len(), 3);
    pool.set_polyphony_limit(2);
    assert!(pool.voices.len() <= pool.polyphony_limit);
    assert_eq!(pool.voices.len(), 2);
    pool.set_polyphony_limit(0);
    assert_eq!(pool.voices.len(), 0);
    assert_eq!(pool.request_new_voice(9, desc(0, 70, 9)), Err(()));
}

#[test]
fn reuse_before_grow() {
    let channels = vec![Channel::new(0), Channel::new(1), Channel::new(2)];
    let mut pool = VoicePool::new(3, 44100);
    for chan in 0..3usize {
        let id = pool
            .request_new_voice(chan + 1, desc(chan, 60, chan + 1))
            .unwrap();
        pool.start_voice(&channels, id);
    }
    assert_eq!(pool.voices.len(), 3);
    pool.all_sounds_off(1);
    assert_eq!(pool.voices[1].status, VoiceStatus::Off);
    let id = pool.request_new_voice(7, desc(1, 72, 7)).unwrap();
    assert_eq!(id, VoiceId(1));
    assert_eq!(pool.voices.len(), 3);
    assert_eq!(pool.voices[1].key, 72);
}

#[test]
fn stealing_determinism() {
    let pool1 = VoicePool {
        voices: vec![
            raw_voice(0, 1, VoiceStatus::On, VoiceEnvelope::Sustain, 400),
            raw_voice(0, 2, VoiceStatus::On, VoiceEnvelope::Sustain, 400),
            raw_voice(0, 3, VoiceStatus::Sustained, VoiceEnvelope::Sustain, 400),
        ],
        sample_rate: 44100,
        polyphony_limit: 3,
    };
    let mut a = pool1.clone();
    let mut b = pool1.clone();
    let ra = a.free_voice_by_kill(9);
    let rb = b.free_voice_by_kill(9);
    assert_eq!(ra, rb);
    assert_eq!(a, b);
}

#[test]
fn steal_priority_example() {
    // A is older but still in attack; B is sustained with a silent
    // envelope: the sustained bonus outweighs the age difference.
    let mut pool = VoicePool {
        voices: vec![
            raw_voice(0, 1, VoiceStatus::On, VoiceEnvelope::Attack, 1000),
            raw_voice(0, 2, VoiceStatus::Sustained, VoiceEnvelope::Sustain, 0),
        ],
        sample_rate: 44100,
        polyphony_limit: 2,
    };
    let victim = pool.free_voice_by_kill(3);
    assert_eq!(victim, Some(VoiceId(1)));
    assert_eq!(pool.voices[1].status, VoiceStatus::Off);
    assert_eq!(pool.voices[0].status, VoiceStatus::On);
}

#[test]
fn exclusive_class_kills_other_notes_only() {
    let channels = one_channel();
    let mut pool = VoicePool::new(3, 44100);
    let v1 = pool.request_new_voice(1, desc(0, 60, 1)).unwrap();
    pool.start_voice(&channels, v1);
    let v2 = pool.request_new_voice(2, desc(0, 61, 2)).unwrap();
    pool.start_voice(&channels, v2);
    // give both playing voices exclusive class 5 through the NRPN poke
    let excl = GenParam::ExclusiveClass;
    pool.set_gen(0, excl, 5);
    let mut gens = zero_gens();
    gens[excl.index()] = 5;
    let v3 = pool
        .request_new_voice(3, desc_full(0, 62, 3, gens, Vec::new()))
        .unwrap();
    assert_eq!(v3, VoiceId(2));
    pool.start_voice(&channels, v3);
    assert_eq!(pool.voices[0].status, VoiceStatus::Off);
    assert_eq!(pool.voices[1].status, VoiceStatus::Off);
    assert_eq!(pool.voices[2].status, VoiceStatus::On);
}

#[test]
fn minimum_note_length_defers_release() {
    let channels = one_channel();
    let mut pool = VoicePool::new(1, 44100);
    let mut gens = zero_gens();
    gens[GenParam::VolEnvRelease.index()] = 10_000;
    let id = pool
        .request_new_voice(1, desc_full(0, 60, 1, gens, Vec::new()))
        .unwrap();
    pool.start_voice(&channels, id);
    assert_eq!(pool.voices[0].ticks, 0);

    pool.noteoff(&channels[0], 100, 60);
    // too young: release deferred, the voice keeps ringing
    assert_eq!(pool.voices[0].status, VoiceStatus::On);
    assert_eq!(pool.voices[0].noteoff_ticks, 100);
    assert_ne!(pool.voices[0].volenv_section, VoiceEnvelope::Release);

    pool.write_voices(&channels, 100, 1, false, false);
    // 64 ticks: still short of the floor
    assert_ne!(pool.voices[0].volenv_section, VoiceEnvelope::Release);
    assert_eq!(pool.voices[0].status, VoiceStatus::On);

    pool.write_voices(&channels, 100, 1, false, false);
    // 128 ticks: the deferred note-off is honoured
    assert_eq!(pool.voices[0].volenv_section, VoiceEnvelope::Release);
    assert_eq!(pool.voices[0].status, VoiceStatus::On);
}

#[test]
fn sustain_damp_releases_not_silences() {
    let mut channel = Channel::new(0);
    let mut pool = VoicePool::new(1, 44100);
    let mut gens = zero_gens();
    gens[GenParam::VolEnvRelease.index()] = 10_000;
    let id = pool
        .request_new_voice(1, desc_full(0, 60, 1, gens, Vec::new()))
        .unwrap();
    let channels = vec![channel.clone()];
    pool.start_voice(&channels, id);

    channel.set_cc(64, 127); // sustain pedal down
    pool.noteoff(&channel, 0, 60);
    assert_eq!(pool.voices[0].status, VoiceStatus::Sustained);

    // a note-off naming a different key leaves the sustained voice alone
    pool.noteoff(&channel, 0, 61);
    assert_eq!(pool.voices[0].status, VoiceStatus::Sustained);

    channel.set_cc(64, 0); // pedal lifted
    pool.damp_voices(&channel, 0);
    assert_eq!(pool.voices[0].status, VoiceStatus::On);
    assert_eq!(pool.voices[0].volenv_section, VoiceEnvelope::Release);
}

#[test]
fn all_sounds_off_idempotent() {
    let mut pool = VoicePool {
        voices: vec![
            raw_voice(0, 1, VoiceStatus::On, VoiceEnvelope::Sustain, 300),
            raw_voice(0, 2, VoiceStatus::Sustained, VoiceEnvelope::Sustain, 300),
            raw_voice(1, 3, VoiceStatus::On, VoiceEnvelope::Sustain, 300),
        ],
        sample_rate: 44100,
        polyphony_limit: 3,
    };
    pool.all_sounds_off(0);
    assert_eq!(pool.voices[0].status, VoiceStatus::Off);
    assert_eq!(pool.voices[1].status, VoiceStatus::Off);
    assert_eq!(pool.voices[2].status, VoiceStatus::On);
    let snapshot = pool.clone();
    pool.all_sounds_off(0);
    assert_eq!(pool, snapshot);
}

#[test]
fn routing_by_channel_modulo_groups() {
    let channels: Vec<Channel> = (0..7).map(Channel::new).collect();
    let mut pool = VoicePool::new(6, 44100);
    for chan in 1..7usize {
        let id = pool.request_new_voice(chan, desc(chan, 60, chan)).unwrap();
        pool.start_voice(&channels, id);
    }
    let plan = pool.write_voices(&channels, 0, 2, false, false);
    assert_eq!(plan.len(), 6);
    for (slot, task) in plan.iter().enumerate() {
        let chan = slot + 1;
        assert_eq!(task.voice, VoiceId(slot));
        assert_eq!(task.audio_group, chan % 2);
    }
    // channels 2, 4, 6 land on group 0; channels 1, 3, 5 on group 1
    assert_eq!(plan[1].audio_group, 0);
    assert_eq!(plan[3].audio_group, 0);
    assert_eq!(plan[5].audio_group, 0);
    assert_eq!(plan[0].audio_group, 1);
    assert_eq!(plan[2].audio_group, 1);
    assert_eq!(plan[4].audio_group, 1);
}

#[test]
fn zero_pool_request_fails() {
    let mut pool = VoicePool::new(0, 44100);
    assert_eq!(pool.request_new_voice(1, desc(0, 60, 1)), Err(()));
    assert_eq!(pool.voices.len(), 0);
}

#[test]
fn shrink_truncates_collection() {
    let channels = one_channel();
    let mut pool = VoicePool::new(3, 44100);
    for note in 1..4usize {
        let id = pool
            .request_new_voice(note, desc(0, 59 + note as u8, note))
            .unwrap();
        pool.start_voice(&channels, id);
    }
    pool.set_polyphony_limit(1);
    assert_eq!(pool.voices.len(), 1);
    assert_eq!(pool.polyphony_limit, 1);
    assert_eq!(pool.voices[0].key, 60);
}

#[test]
fn sample_rate_reset_clears_voices() {
    let channels = one_channel();
    let mut pool = VoicePool::new(2, 44100);
    let id = pool.request_new_voice(1, desc(0, 60, 1)).unwrap();
    pool.start_voice(&channels, id);
    pool.set_sample_rate(48000);
    assert_eq!(pool.voices.len(), 0);
    assert_eq!(pool.sample_rate, 48000);
}

#[test]
fn key_pressure_modulates_target_generator() {
    let mut channel = Channel::new(0);
    let mut pool = VoicePool::new(1, 44100);
    let mods = vec![VoiceMod {
        src_is_cc: false,
        src: 10,
        dest: GenParam::Pan,
        amount: 100,
    }];
    let id = pool
        .request_new_voice(1, desc_full(0, 60, 1, zero_gens(), mods))
        .unwrap();
    let channels = vec![channel.clone()];
    pool.start_voice(&channels, id);
    assert_eq!(pool.voices[0].gen[GenParam::Pan.index()].mod_amount, 0);

    channel.set_key_pressure(60, 50);
    pool.key_pressure(&channel, 60);
    assert_eq!(pool.voices[0].gen[GenParam::Pan.index()].mod_amount, 5000);
}

#[test]
fn controller_change_modulates_only_its_channel() {
    let mut channel = Channel::new(0);
    let mut pool = VoicePool::new(2, 44100);
    let cc_mod = vec![VoiceMod {
        src_is_cc: true,
        src: 7,
        dest: GenParam::Attenuation,
        amount: -20,
    }];
    let id = pool
        .request_new_voice(1, desc_full(0, 60, 1, zero_gens(), cc_mod.clone()))
        .unwrap();
    let channels = vec![channel.clone(), Channel::new(1)];
    pool.start_voice(&channels, id);
    let other = pool
        .request_new_voice(2, desc_full(1, 61, 2, zero_gens(), cc_mod))
        .unwrap();
    pool.start_voice(&channels, other);

    channel.set_cc(7, 100);
    pool.modulate_voices(&channel, 1, 7);
    let gi = GenParam::Attenuation.index();
    assert_eq!(pool.voices[0].gen[gi].mod_amount, -2000);
    assert_eq!(pool.voices[1].gen[gi].mod_amount, 0);
}

#[test]
fn attack_ramp_exact_value() {
    let channels = one_channel();
    let mut pool = VoicePool::new(1, 44100);
    let mut gens = zero_gens();
    gens[GenParam::VolEnvAttack.index()] = 128;
    let id = pool
        .request_new_voice(1, desc_full(0, 60, 1, gens, Vec::new()))
        .unwrap();
    pool.start_voice(&channels, id);
    let plan = pool.write_voices(&channels, 0, 1, false, false);
    assert_eq!(pool.voices[0].volenv_section, VoiceEnvelope::Attack);
    assert_eq!(pool.voices[0].volenv_val, 500); // 1000 * 64 / 128
    assert_eq!(plan.len(), 1);
    assert_eq!(plan[0].amplitude, 500);
}

#[test]
fn finished_voice_returns_to_available() {
    let channels = one_channel();
    let mut pool = VoicePool::new(1, 44100);
    let id = pool.request_new_voice(1, desc(0, 60, 1)).unwrap();
    pool.start_voice(&channels, id);
    pool.noteoff(&channels[0], 0, 60);
    // zero release time: the envelope finishes within the next block
    pool.write_voices(&channels, 0, 1, false, false);
    assert_eq!(pool.voices[0].status, VoiceStatus::Off);
    // the slot is reused by the next allocation
    let id2 = pool.request_new_voice(2, desc(0, 72, 2)).unwrap();
    assert_eq!(id2, VoiceId(0));
    assert_eq!(pool.voices.len(), 1);
    assert_eq!(pool.voices[0].key, 72);
}

#[test]
fn release_voice_on_same_note_spares_new_note() {
    let channels = one_channel();
    let mut pool = VoicePool::new(2, 44100);
    let mut gens = zero_gens();
    gens[GenParam::VolEnvRelease.index()] = 10_000;
    let a = pool
        .request_new_voice(1, desc_full(0, 60, 1, gens.clone(), Vec::new()))
        .unwrap();
    pool.start_voice(&channels, a);
    let b = pool
        .request_new_voice(2, desc_full(0, 60, 2, gens, Vec::new()))
        .unwrap();
    pool.start_voice(&channels, b);

    pool.release_voice_on_same_note(&channels[0], 60, 2, 0);
    assert_eq!(pool.voices[0].volenv_section, VoiceEnvelope::Release);
    assert_ne!(pool.voices[1].volenv_section, VoiceEnvelope::Release);
}

#[test]
fn all_notes_off_releases_all_sounds_off_silences() {
    let channels = one_channel();
    let mut gens = zero_gens();
    gens[GenParam::VolEnvRelease.index()] = 10_000;

    let mut released = VoicePool::new(1, 44100);
    let id = released
        .request_new_voice(1, desc_full(0, 60, 1, gens.clone(), Vec::new()))
        .unwrap();
    released.start_voice(&channels, id);
    released.all_notes_off(&channels, 0, 0);
    assert_eq!(released.voices[0].status, VoiceStatus::On);
    assert_eq!(released.voices[0].volenv_section, VoiceEnvelope::Release);

    let mut silenced = VoicePool::new(1, 44100);
    let id = silenced
        .request_new_voice(1, desc_full(0, 60, 1, gens, Vec::new()))
        .unwrap();
    silenced.start_voice(&channels, id);
    silenced.all_sounds_off(0);
    assert_eq!(silenced.voices[0].status, VoiceStatus::Off);
}

#[test]
fn set_gain_touches_playing_voices_only() {
    let channels = one_channel();
    let mut pool = VoicePool::new(2, 44100);
    let id = pool.request_new_voice(1, desc(0, 60, 1)).unwrap();
    pool.start_voice(&channels, id);
    pool.request_new_voice(2, desc(0, 61, 2)).unwrap();
    // slot 1 was prepared but never started: it is not playing
    pool.voices[1].status = VoiceStatus::Available;
    pool.set_gain(500);
    assert_eq!(pool.voices[0].gain, 500);
    assert_eq!(pool.voices[1].gain, 1000);
}

#[test]
fn system_reset_silences_everything() {
    let mut pool = VoicePool {
        voices: vec![
            raw_voice(0, 1, VoiceStatus::On, VoiceEnvelope::Decay, 700),
            raw_voice(3, 2, VoiceStatus::Sustained, VoiceEnvelope::Sustain, 200),
            raw_voice(5, 3, VoiceStatus::Available, VoiceEnvelope::Delay, 0),
        ],
        sample_rate: 44100,
        polyphony_limit: 3,
    };
    pool.system_reset();
    for v in pool.voices.iter() {
        assert_eq!(v.status, VoiceStatus::Off);
        assert_eq!(v.volenv_section, VoiceEnvelope::Finished);
        assert_eq!(v.volenv_val, 0);
    }
}

#[test]
fn set_gen_pokes_nrpn_on_channel() {
    let mut pool = VoicePool {
        voices: vec![
            raw_voice(0, 1, VoiceStatus::On, VoiceEnvelope::Sustain, 300),
            raw_voice(1, 2, VoiceStatus::On, VoiceEnvelope::Sustain, 300),
        ],
        sample_rate: 44100,
        polyphony_limit: 2,
    };
    pool.set_gen(0, GenParam::FilterCutoff, 42);
    let gi = GenParam::FilterCutoff.index();
    assert_eq!(pool.voices[0].gen[gi].nrpn, 42);
    assert_eq!(pool.voices[0].gen[gi].val, 0);
    assert_eq!(pool.voices[1].gen[gi].nrpn, 0);
}

#[test]
fn broadcasts_on_empty_pool_are_noops() {
    let mut pool = VoicePool::new(4, 44100);
    let ch = Channel::new(0);
    pool.noteoff(&ch, 0, 60);
    pool.all_sounds_off(0);
    pool.damp_voices(&ch, 0);
    pool.system_reset();
    let channels = vec![ch];
    // a channel with no voices at all is a no-op, not an error
    pool.all_notes_off(&channels, 0, 3);
    let plan = pool.write_voices(&channels, 0, 2, true, true);
    assert!(plan.is_empty());
    assert_eq!(pool.voices.len(), 0);
}

#[test]
fn steal_prefers_wrapped_age() {
    // an allocation counter behind a voice's note id wraps around and
    // marks that voice as extremely old
    let mut pool = VoicePool {
        voices: vec![
            raw_voice(0, 1, VoiceStatus::On, VoiceEnvelope::Sustain, 0),
            raw_voice(0, 2, VoiceStatus::On, VoiceEnvelope::Sustain, 0),
        ],
        sample_rate: 44100,
        polyphony_limit: 2,
    };
    let victim = pool.free_voice_by_kill(1);
    assert_eq!(victim, Some(VoiceId(1)));
}

#[test]
fn steal_prefers_unassigned_channel() {
    let mut pool = VoicePool {
        voices: vec![
            raw_voice(0, 1, VoiceStatus::On, VoiceEnvelope::Sustain, 0),
            raw_voice(0xff, 1, VoiceStatus::On, VoiceEnvelope::Sustain, 0),
        ],
        sample_rate: 44100,
        polyphony_limit: 2,
    };
    let victim = pool.free_voice_by_kill(2);
    assert_eq!(victim, Some(VoiceId(1)));
    assert_eq!(pool.voices[0].status, VoiceStatus::On);
}

#[test]
fn request_at_capacity_steals_and_reinits() {
    let channels = one_channel();
    let mut pool = VoicePool::new(1, 44100);
    let id = pool.request_new_voice(1, desc(0, 60, 1)).unwrap();
    pool.start_voice(&channels, id);
    let id2 = pool.request_new_voice(2, desc(0, 72, 2)).unwrap();
    assert_eq!(id2, VoiceId(0));
    assert_eq!(pool.voices.len(), 1);
    assert_eq!(pool.voices[0].key, 72);
    assert_eq!(pool.voices[0].note_id, 2);
    // the reinitialized slot is armed, pending start
    assert_eq!(pool.voices[0].status, VoiceStatus::Available);
}
