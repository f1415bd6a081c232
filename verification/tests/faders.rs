use rustylight::configuration::BaseConfig;
use rustylight::faders::{Fader, FaderType, MidiParams};
use rustylight::waveform::{Movement, MovementSettings, Shape, SineTable};

fn table() -> SineTable {
    SineTable::new(vec![0, 32768, 65535, 32768]).unwrap()
}

fn config(midi_faders: bool) -> BaseConfig {
    let mut c = BaseConfig::default();
    c.midi_faders = midi_faders;
    c
}

fn gated(value: u8, note: u8, timeout: u64) -> Fader {
    let mut f = Fader::new(7, value);
    f.fader_type = FaderType::Midi;
    f.midi_params = Some(MidiParams { note, timeout });
    f
}

fn with_note(note: usize, velocity: u8) -> [Option<u8>; 128] {
    let mut notes = [None; 128];
    notes[note] = Some(velocity);
    notes
}

#[test]
fn default_config_values() {
    let c = BaseConfig::default();
    assert_eq!(c.version, 0);
    assert_eq!(c.dmx_serial_port_win, "COM-1");
    assert_eq!(c.dmx_serial_port_osx, "/dev/tty.usbserial-ENVVVC0F");
    assert_eq!(c.dmx_serial_port_other, "/dev/ttyUSB0");
    assert_eq!(c.show_path, "default_show");
    assert_eq!(c.midi_channel, 1);
    assert_eq!(c.midi_port, "M-Audio MIDISPORT Uno");
    assert!(!c.midi_faders);
    assert_eq!(c.fps, 20);
    assert_eq!(c.log_level, "info");
}

#[test]
fn static_fader_puts_out_its_value_at_any_tempo() {
    let mut f = Fader::new(3, 99);
    assert_eq!(f.get_channel(), 3);
    assert_eq!(f.get_value(), 0);
    for tempo in [0u8, 1, 120, 255] {
        f.update_state(tempo, 0, 5000, &[None; 128], &config(false), &table());
        assert_eq!(f.get_value(), 99);
    }
}

#[test]
fn moving_fader_follows_its_movement_from_the_scene_start() {
    let mut s = MovementSettings::new();
    s.shape = Shape::Saw;
    let mut f = Fader::new(3, 99);
    f.movement = Some(Movement::new(s));
    f.update_state(120, 10_000, 10_500, &[None; 128], &config(false), &table());
    assert_eq!(f.get_value(), 63);
    f.update_state(120, 10_000, 11_000, &[None; 128], &config(false), &table());
    assert_eq!(f.get_value(), 127);
    f.update_state(120, 10_000, 9_000, &[None; 128], &config(false), &table());
    assert_eq!(f.get_value(), 0);
    assert_eq!(f.value, 99);
}

#[test]
fn gate_opens_on_note_on_and_closes_on_timeout() {
    let c = config(true);
    let mut f = gated(200, 60, 500);
    f.update_state(120, 0, 900, &[None; 128], &c, &table());
    assert_eq!(f.get_value(), 0);
    assert_eq!(f.timeout_start, None);
    f.update_state(120, 0, 1000, &with_note(60, 10), &c, &table());
    assert_eq!(f.get_value(), 200);
    assert_eq!(f.timeout_start, Some(1000));
    f.update_state(120, 0, 1499, &[None; 128], &c, &table());
    assert_eq!(f.get_value(), 200);
    f.update_state(120, 0, 1500, &[None; 128], &c, &table());
    assert_eq!(f.get_value(), 0);
    assert_eq!(f.timeout_start, None);
    f.update_state(120, 0, 1600, &[None; 128], &c, &table());
    assert_eq!(f.get_value(), 0);
}

#[test]
fn gate_closes_on_note_off() {
    let c = config(true);
    let mut f = gated(200, 60, 500);
    f.update_state(120, 0, 1000, &with_note(60, 127), &c, &table());
    assert_eq!(f.get_value(), 200);
    f.update_state(120, 0, 1100, &with_note(60, 0), &c, &table());
    assert_eq!(f.get_value(), 0);
    assert_eq!(f.timeout_start, None);
}

#[test]
fn gate_ignores_other_notes_and_restarts_on_a_new_note_on() {
    let c = config(true);
    let mut f = gated(200, 60, 500);
    f.update_state(120, 0, 1000, &with_note(61, 100), &c, &table());
    assert_eq!(f.get_value(), 0);
    f.update_state(120, 0, 1000, &with_note(60, 1), &c, &table());
    f.update_state(120, 0, 1400, &with_note(60, 1), &c, &table());
    f.update_state(120, 0, 1899, &[None; 128], &c, &table());
    assert_eq!(f.get_value(), 200);
    f.update_state(120, 0, 1900, &[None; 128], &c, &table());
    assert_eq!(f.get_value(), 0);
}

#[test]
fn gate_puts_out_nothing_while_midi_faders_are_disabled() {
    let mut f = gated(200, 60, 500);
    f.update_state(120, 0, 1000, &with_note(60, 10), &config(false), &table());
    assert_eq!(f.get_value(), 0);
    assert_eq!(f.timeout_start, Some(1000));
    f.update_state(120, 0, 1100, &[None; 128], &config(true), &table());
    assert_eq!(f.get_value(), 200);
}

#[test]
fn gate_with_a_note_past_127_or_without_params_stays_closed() {
    let c = config(true);
    let mut f = gated(200, 200, 500);
    f.update_state(120, 0, 1000, &[Some(100); 128], &c, &table());
    assert_eq!(f.get_value(), 0);
    let mut g = Fader::new(1, 50);
    g.fader_type = FaderType::Midi;
    g.update_state(120, 0, 1000, &[Some(100); 128], &c, &table());
    assert_eq!(g.get_value(), 0);
}

#[test]
fn gate_with_no_timeout_closes_in_the_cycle_that_opens_it() {
    let c = config(true);
    let mut f = gated(200, 60, 0);
    f.update_state(120, 0, 1000, &with_note(60, 10), &c, &table());
    assert_eq!(f.get_value(), 0);
    assert_eq!(f.timeout_start, None);
}
