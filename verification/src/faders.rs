//! Faders: one output channel each, static, animated by a movement, or
//! latched by a MIDI note.

use crate::configuration::BaseConfig;
use crate::waveform::{calculate_movement, movement_value, Movement, SineTable};
use vstd::prelude::*;

verus! {

/// Number of MIDI notes, and of slots in a velocity snapshot.
pub const NOTES: usize = 128;

/// What drives a fader.
#[derive(Clone, Copy, PartialEq, Eq, Debug, Structural)]
pub enum FaderType {
    /// The static value, or the movement if there is one.
    Default,
    /// A latch that a MIDI note opens and closes.
    Midi,
}

impl FaderType {
    /// The type's name, as it is written in logs.
    pub fn name(&self) -> (name: String)
        ensures
            name@ == match *self {
                FaderType::Default => "Default"@,
                FaderType::Midi => "Midi"@,
            },
    {
        match self {
            FaderType::Default => "Default".to_owned(),
            FaderType::Midi => "Midi".to_owned(),
        }
    }
}

/// The note that opens a latched fader, and how long it stays open.
#[derive(Clone, Copy, Debug)]
pub struct MidiParams {
    pub note: u8,
    /// Milliseconds after the note-on at which the latch closes by itself.
    pub timeout: u64,
}

/// One channel of a scene.
pub struct Fader {
    pub fader_type: FaderType,
    pub channel: usize,
    /// The static value.
    pub value: u8,
    /// The value rendered in the current cycle.
    pub current_value: u8,
    pub movement: Option<Movement>,
    pub midi_params: Option<MidiParams>,
    /// Time of the note-on that opened the latch; `None` while it is closed.
    pub timeout_start: Option<u64>,
}

/// Milliseconds from `start` to `now`; none if `now` lies before `start`.
pub open spec fn elapsed_between(start: u64, now: u64) -> u64 {
    if now >= start {
        (now - start) as u64
    } else {
        0
    }
}

/// The velocity that the snapshot holds for `note`, if the note is one of
/// the 128 and the snapshot has an event for it.
pub open spec fn note_event(notes: Seq<Option<u8>>, note: u8) -> Option<u8> {
    if (note as int) < notes.len() {
        notes[note as int]
    } else {
        None
    }
}

/// The latch after the snapshot's event for its note, before the timeout is
/// looked at: a note-on opens it at `now`, a note-off closes it.
pub open spec fn latch_after_event(latch: Option<u64>, event: Option<u8>, now: u64) -> Option<u64> {
    match event {
        Some(velocity) => if velocity > 0 {
            Some(now)
        } else {
            None
        },
        None => latch,
    }
}

/// The latch at `now`: closed if it was opened `timeout` or more
/// milliseconds ago.
pub open spec fn latch_after_timeout(latch: Option<u64>, timeout: u64, now: u64) -> Option<u64> {
    match latch {
        Some(opened) => if elapsed_between(opened, now) >= timeout {
            None
        } else {
            latch
        },
        None => None,
    }
}

impl Fader {
    /// The latch after one cycle at `now` with the velocity snapshot `notes`.
    pub open spec fn next_latch(&self, now: u64, notes: Seq<Option<u8>>) -> Option<u64> {
        match (self.fader_type, self.midi_params) {
            (FaderType::Midi, Some(params)) => latch_after_timeout(
                latch_after_event(self.timeout_start, note_event(notes, params.note), now),
                params.timeout,
                now,
            ),
            (FaderType::Midi, None) => None,
            (FaderType::Default, _) => self.timeout_start,
        }
    }

    /// The value rendered in a cycle at `now`, for a scene activated at
    /// `start_time`.
    pub open spec fn next_value(
        &self,
        tempo: u8,
        start_time: u64,
        now: u64,
        notes: Seq<Option<u8>>,
        midi_faders: bool,
        table: Seq<u16>,
    ) -> int {
        match self.fader_type {
            FaderType::Default => match self.movement {
                Some(movement) => movement_value(
                    movement@,
                    tempo,
                    elapsed_between(start_time, now) as int,
                    table,
                ),
                None => self.value as int,
            },
            FaderType::Midi => if midi_faders && self.next_latch(now, notes) is Some {
                self.value as int
            } else {
                0
            },
        }
    }

    /// The fader after one cycle: the rendered value and the latch are new,
    /// everything else stays.
    pub open spec fn next_state(
        self,
        tempo: u8,
        start_time: u64,
        now: u64,
        notes: Seq<Option<u8>>,
        midi_faders: bool,
        table: Seq<u16>,
    ) -> Fader {
        Fader {
            current_value: self.next_value(tempo, start_time, now, notes, midi_faders, table) as u8,
            timeout_start: self.next_latch(now, notes),
            ..self
        }
    }

    /// A fader that holds `value` on `channel`.
    pub fn new(channel: usize, value: u8) -> (fader: Fader)
        ensures
            fader.fader_type == FaderType::Default,
            fader.channel == channel,
            fader.value == value,
            fader.current_value == 0,
            fader.movement is None,
            fader.midi_params is None,
            fader.timeout_start is None,
    {
        Fader {
            fader_type: FaderType::Default,
            channel,
            value,
            current_value: 0,
            movement: None,
            midi_params: None,
            timeout_start: None,
        }
    }

    /// The value rendered in the current cycle.
    pub fn get_value(&self) -> (value: u8)
        ensures
            value == self.current_value,
    {
        self.current_value
    }

    /// Renders the fader for a cycle at `now_ms`: a movement is evaluated
    /// `now_ms - start_time` after the activation of its scene, a latch reads
    /// the event for its note and then its timeout. Only the rendered value
    /// and the latch change.
    pub fn update_state(
        &mut self,
        selected_tempo: u8,
        start_time: u64,
        now_ms: u64,
        notes: &[Option<u8>; 128],
        config: &BaseConfig,
        table: &SineTable,
    )
        ensures
            *final(self) == old(self).next_state(
                selected_tempo,
                start_time,
                now_ms,
                notes@,
                config.midi_faders,
                table@,
            ),
            final(self).current_value == old(self).next_value(
                selected_tempo,
                start_time,
                now_ms,
                notes@,
                config.midi_faders,
                table@,
            ),
            final(self).timeout_start == old(self).next_latch(now_ms, notes@),
            final(self).fader_type == old(self).fader_type,
            final(self).channel == old(self).channel,
            final(self).value == old(self).value,
            final(self).movement == old(self).movement,
            final(self).midi_params == old(self).midi_params,
    {
        match self.fader_type {
            FaderType::Default => {
                match &self.movement {
                    Some(movement) => {
                        let elapsed: u64 = if now_ms >= start_time {
                            now_ms - start_time
                        } else {
                            0
                        };
                        self.current_value =
                        calculate_movement(movement, selected_tempo, elapsed, table);
                    },
                    None => {
                        self.current_value = self.value;
                    },
                }
            },
            FaderType::Midi => {
                match self.midi_params {
                    Some(params) => {
                        if (params.note as usize) < NOTES {
                            match notes[params.note as usize] {
                                Some(velocity) => {
                                    if velocity > 0 {
                                        self.timeout_start = Some(now_ms);
                                    } else {
                                        self.timeout_start = None;
                                    }
                                },
                                None => {},
                            }
                        }
                        match self.timeout_start {
                            Some(opened) => {
                                let waited: u64 = if now_ms >= opened {
                                    now_ms - opened
                                } else {
                                    0
                                };
                                if waited >= params.timeout {
                                    self.timeout_start = None;
                                }
                            },
                            None => {},
                        }
                        if config.midi_faders && self.timeout_start.is_some() {
                            self.current_value = self.value;
                        } else {
                            self.current_value = 0;
                        }
                    },
                    None => {
                        self.timeout_start = None;
                        self.current_value = 0;
                    },
                }
            },
        }
    }

    /// The channel that the fader writes to.
    pub fn get_channel(&self) -> (channel: usize)
        ensures
            channel == self.channel,
    {
        self.channel
    }
}

/// A note-on for its note opens a latched fader: while MIDI faders are
/// enabled and the timeout is not zero, the fader puts out its static value.
pub proof fn lemma_note_on_opens(
    fader: Fader,
    tempo: u8,
    start_time: u64,
    now: u64,
    notes: Seq<Option<u8>>,
    table: Seq<u16>,
)
    requires
        fader.fader_type == FaderType::Midi,
        fader.midi_params is Some,
        fader.midi_params.unwrap().timeout > 0,
        note_event(notes, fader.midi_params.unwrap().note) is Some,
        note_event(notes, fader.midi_params.unwrap().note).unwrap() > 0,
    ensures
        fader.next_latch(now, notes) == Some(now),
        fader.next_value(tempo, start_time, now, notes, true, table) == fader.value,
        fader.next_value(tempo, start_time, now, notes, false, table) == 0,
{
}

/// An open latch closes by itself: once the timeout has passed since the
/// note-on, and no new note-on has come, the fader puts out 0. No note-off
/// is needed. Until then it keeps putting out its static value.
pub proof fn lemma_timeout_closes(
    fader: Fader,
    tempo: u8,
    start_time: u64,
    now: u64,
    notes: Seq<Option<u8>>,
    table: Seq<u16>,
)
    requires
        fader.fader_type == FaderType::Midi,
        fader.midi_params is Some,
        fader.timeout_start is Some,
        now >= fader.timeout_start.unwrap(),
        note_event(notes, fader.midi_params.unwrap().note) is None,
    ensures
        now - fader.timeout_start.unwrap() >= fader.midi_params.unwrap().timeout ==> {
            &&& fader.next_latch(now, notes) is None
            &&& fader.next_value(tempo, start_time, now, notes, true, table) == 0
        },
        now - fader.timeout_start.unwrap() < fader.midi_params.unwrap().timeout ==> {
            &&& fader.next_latch(now, notes) == fader.timeout_start
            &&& fader.next_value(tempo, start_time, now, notes, true, table) == fader.value
        },
{
}

/// A note-off for its note closes a latched fader at once.
pub proof fn lemma_note_off_closes(
    fader: Fader,
    tempo: u8,
    start_time: u64,
    now: u64,
    notes: Seq<Option<u8>>,
    midi_faders: bool,
    table: Seq<u16>,
)
    requires
        fader.fader_type == FaderType::Midi,
        fader.midi_params is Some,
        note_event(notes, fader.midi_params.unwrap().note) == Some(0u8),
    ensures
        fader.next_latch(now, notes) is None,
        fader.next_value(tempo, start_time, now, notes, midi_faders, table) == 0,
{
}

/// A fader without a movement puts out its static value in every cycle,
/// whatever the tempo and the time.
pub proof fn lemma_static_value(
    fader: Fader,
    tempo: u8,
    start_time: u64,
    now: u64,
    notes: Seq<Option<u8>>,
    midi_faders: bool,
    table: Seq<u16>,
)
    requires
        fader.fader_type == FaderType::Default,
        fader.movement is None,
    ensures
        fader.next_value(tempo, start_time, now, notes, midi_faders, table) == fader.value,
{
}

} // verus!
