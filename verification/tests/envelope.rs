use polysynth::envelope::{Stage, Target};

const STAGES: [Stage; 5] =
    [Stage::Idle, Stage::Attack, Stage::Decay, Stage::Sustain, Stage::Release];

#[test]
fn envelope_starts_in_attack() {
    assert_eq!(Stage::start(), Stage::Attack);
}

#[test]
fn tick_that_reaches_the_target_moves_to_the_next_stage() {
    assert_eq!(Stage::Attack.tick(true), Stage::Decay);
    assert_eq!(Stage::Decay.tick(true), Stage::Sustain);
    assert_eq!(Stage::Release.tick(true), Stage::Idle);
}

#[test]
fn tick_that_does_not_reach_the_target_stays() {
    for s in STAGES {
        assert_eq!(s.tick(false), s);
    }
}

#[test]
fn sustain_and_idle_hold_whatever_the_tick_reports() {
    assert_eq!(Stage::Sustain.tick(true), Stage::Sustain);
    assert_eq!(Stage::Idle.tick(true), Stage::Idle);
    assert_eq!(Stage::Sustain.target(), None);
    assert_eq!(Stage::Idle.target(), None);
}

#[test]
fn idle_is_terminal_under_ticks() {
    let mut s = Stage::Idle;
    for k in 0..100 {
        s = s.tick(k % 3 == 0);
        assert_eq!(s, Stage::Idle);
    }
}

#[test]
fn note_off_leads_to_release_from_every_running_stage() {
    for s in [Stage::Attack, Stage::Decay, Stage::Sustain, Stage::Release] {
        assert_eq!(s.note_off(), Stage::Release);
    }
}

#[test]
fn note_off_does_not_lead_out_of_idle() {
    assert_eq!(Stage::Idle.note_off(), Stage::Idle);
    assert_eq!(Stage::Idle.note_off().tick(true), Stage::Idle);
    assert!(Stage::Idle.note_off().is_finished());
}

#[test]
fn moving_stages_head_for_their_targets() {
    assert_eq!(Stage::Attack.target(), Some(Target::Peak));
    assert_eq!(Stage::Decay.target(), Some(Target::SustainLevel));
    assert_eq!(Stage::Release.target(), Some(Target::Silence));
}

#[test]
fn only_idle_is_finished() {
    for s in STAGES {
        assert_eq!(s.is_finished(), s == Stage::Idle);
    }
}

#[test]
fn released_envelope_runs_out_at_the_first_tick_that_reaches_silence() {
    let mut s = Stage::Attack.note_off();
    for _ in 0..5 {
        s = s.tick(false);
        assert_eq!(s, Stage::Release);
    }
    s = s.tick(true);
    assert_eq!(s, Stage::Idle);
    assert!(s.is_finished());
}

#[test]
fn full_life_of_an_envelope() {
    let mut s = Stage::start();
    s = s.tick(false);
    s = s.tick(true);
    assert_eq!(s, Stage::Decay);
    s = s.tick(true);
    assert_eq!(s, Stage::Sustain);
    s = s.tick(true);
    assert_eq!(s, Stage::Sustain);
    s = s.note_off();
    assert_eq!(s, Stage::Release);
    s = s.tick(true);
    assert_eq!(s, Stage::Idle);
}
