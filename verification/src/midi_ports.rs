//! The trigger side: MIDI messages as they come off the wire, and the merge
//! of everything that arrived since the last cycle into one patch.

use crate::configuration::BaseConfig;
use crate::shows::ShowUpdate;
use crossbeam_channel::Receiver;
use vstd::prelude::*;

verus! {

/// The receiving half of a `crossbeam_channel` channel. Nothing is known of
/// what it holds: the sending half lives in another thread.
#[verifier::external_type_specification]
#[verifier::external_body]
#[verifier::reject_recursive_types(T)]
pub struct ExReceiver<T>(Receiver<T>);

/// `Receiver::len`: the number of messages in the channel at the moment of
/// the call. Nothing is promised of it: the sender may add to the channel at
/// any time.
#[verifier::external_body]
fn queued(receiver: &Receiver<MidiMessage>) -> (count: usize) {
    receiver.len()
}

/// `Receiver::try_recv`: takes a message out of the channel without waiting;
/// `None` if the channel is empty or its sender is gone. Nothing is promised
/// of the message: it is whatever the sender put in.
#[verifier::external_body]
fn try_receive(receiver: &Receiver<MidiMessage>) -> (message: Option<MidiMessage>) {
    receiver.try_recv().ok()
}

/// Program changes have a status from 192 to 207, one per channel.
pub const PROGRAMM_CHANGE: u8 = 192;

/// Control changes have a status from 176 to 191.
pub const CONTROL_CHANGE: u8 = 176;

/// Note-on events have a status from 144 to 159.
pub const NOTE_ON: u8 = 144;

/// Note-off events have a status from 128 to 143.
pub const NOTE_OFF: u8 = 128;

/// Controller that selects the song.
pub const SONG_SELECT: u8 = 0;

/// Controller that mutes the show.
pub const ALL_NOTES_OFF: u8 = 123;

/// Controllers that carry the two halves of the tempo.
pub const TEMPO_CONTROL_1: u8 = 12;

pub const TEMPO_CONTROL_2: u8 = 13;

/// One MIDI message: the status byte and up to two data bytes.
#[derive(Clone, Copy, Debug)]
pub struct MidiMessage {
    pub status: u8,
    pub data1: u8,
    pub data2: Option<u8>,
}

/// The trigger link: the channel to listen on, counted from 0, the name of
/// the port, and the queue that the port's callback fills.
pub struct MidiPort {
    pub midi_channel: u8,
    pub midi_port: String,
    pub receiver: Option<Receiver<MidiMessage>>,
}

/// What a run of messages merges to: the last value of each field, the two
/// halves of the tempo apart, and the last velocity of each note.
pub ghost struct Merged {
    pub song: Option<usize>,
    pub scene: Option<usize>,
    pub tempo1: Option<u8>,
    pub tempo2: Option<u8>,
    pub off: Option<bool>,
    pub notes: Seq<Option<u8>>,
}

/// Nothing received: no field set, no note touched.
pub open spec fn merged_none() -> Merged {
    Merged {
        song: None,
        scene: None,
        tempo1: None,
        tempo2: None,
        off: None,
        notes: Seq::new(128, |i: int| None::<u8>),
    }
}

/// `merged` after one more message on the channel `channel`. A message for
/// another channel, of another kind, or for a note past 127 changes nothing.
pub open spec fn merge_message(merged: Merged, message: MidiMessage, channel: u8) -> Merged {
    let status = message.status as int;
    if status == PROGRAMM_CHANGE + channel {
        Merged { scene: Some(message.data1 as usize), ..merged }
    } else if status == CONTROL_CHANGE + channel && message.data1 == SONG_SELECT && message.data2
        is Some {
        Merged { song: Some(message.data2.unwrap() as usize), ..merged }
    } else if status == CONTROL_CHANGE + channel && message.data1 == TEMPO_CONTROL_1
        && message.data2 is Some {
        Merged { tempo1: message.data2, ..merged }
    } else if status == CONTROL_CHANGE + channel && message.data1 == TEMPO_CONTROL_2
        && message.data2 is Some {
        Merged { tempo2: message.data2, ..merged }
    } else if status == CONTROL_CHANGE + channel && message.data1 == ALL_NOTES_OFF {
        Merged { off: Some(true), ..merged }
    } else if status == NOTE_ON + channel && message.data2 is Some {
        if message.data1 < 128 {
            Merged { notes: merged.notes.update(message.data1 as int, message.data2), ..merged }
        } else {
            merged
        }
    } else if status == NOTE_OFF + channel {
        if message.data1 < 128 {
            Merged { notes: merged.notes.update(message.data1 as int, Some(0u8)), ..merged }
        } else {
            merged
        }
    } else {
        merged
    }
}

/// The merge of all `messages`, taken in the order in which they arrived.
pub open spec fn merge_all(messages: Seq<MidiMessage>, channel: u8) -> Merged
    decreases messages.len(),
{
    if messages.len() == 0 {
        merged_none()
    } else {
        merge_message(merge_all(messages.drop_last(), channel), messages.last(), channel)
    }
}

/// The tempo of a merge: the sum of the two halves if both arrived and the
/// sum is a byte, else none.
pub open spec fn merged_tempo(merged: Merged) -> Option<u8> {
    if merged.tempo1 is Some && merged.tempo2 is Some && merged.tempo1.unwrap()
        + merged.tempo2.unwrap() <= 255 {
        Some((merged.tempo1.unwrap() + merged.tempo2.unwrap()) as u8)
    } else {
        None
    }
}

/// Whether `update` is the patch that `merged` stands for.
pub open spec fn is_patch_of(update: ShowUpdate, merged: Merged) -> bool {
    &&& update.song == merged.song
    &&& update.scene == merged.scene
    &&& update.tempo == merged_tempo(merged)
    &&& update.off == merged.off
    &&& update.notes@ == merged.notes
}

/// The trigger link that `config` asks for, not yet connected to a queue, if
/// its channel is one of the sixteen MIDI channels, 1 to 16.
pub fn new(config: &BaseConfig) -> (port: Option<MidiPort>)
    ensures
        port is Some <==> 1 <= config.midi_channel <= 16,
        port is Some ==> port.unwrap().midi_channel == config.midi_channel - 1
            && port.unwrap().midi_port@ == config.midi_port@ && port.unwrap().receiver is None,
{
    if 1 <= config.midi_channel && config.midi_channel <= 16 {
        Some(
            MidiPort {
                midi_channel: config.midi_channel - 1,
                midi_port: config.midi_port.clone(),
                receiver: None,
            },
        )
    } else {
        None
    }
}

/// Reads one message off the wire: the first two bytes are the status and
/// the first data byte, a third is the second data byte. Fewer than two
/// bytes are no message.
pub fn parse_midi_message(midi_message: &[u8]) -> (parsed: Option<MidiMessage>)
    ensures
        parsed is Some <==> midi_message@.len() >= 2,
        parsed is Some ==> {
            &&& parsed.unwrap().status == midi_message@[0]
            &&& parsed.unwrap().data1 == midi_message@[1]
            &&& parsed.unwrap().data2 == if midi_message@.len() >= 3 {
                Some(midi_message@[2])
            } else {
                None
            }
        },
{
    if midi_message.len() >= 2 {
        let mut result = MidiMessage { status: midi_message[0], data1: midi_message[1], data2: None };
        if midi_message.len() >= 3 {
            result.data2 = Some(midi_message[2]);
        }
        Some(result)
    } else {
        None
    }
}

/// Whether `message` has the status `base` on the channel `channel`.
fn has_status(message: &MidiMessage, base: u8, channel: u8) -> (matches: bool)
    ensures
        matches == (message.status as int == base + channel),
{
    let wanted: u16 = (base as u16) + (channel as u16);
    (message.status as u16) == wanted
}

/// Merges a run of messages into one patch, for the channel `midi_channel`
/// counted from 0. Of each field the last value wins; a tempo is delivered
/// only if both of its halves are in the run.
pub fn merge_messages(messages: &Vec<MidiMessage>, midi_channel: u8) -> (update: ShowUpdate)
    ensures
        is_patch_of(update, merge_all(messages@, midi_channel)),
{
    let channel: u8 = midi_channel;
    let mut update = ShowUpdate {
        song: None,
        scene: None,
        tempo: None,
        off: None,
        notes: [None; 128],
    };
    let mut tempo1: Option<u8> = None;
    let mut tempo2: Option<u8> = None;
    assert(update.notes@ =~= merged_none().notes);
    let mut i: usize = 0;
    while i < messages.len()
        invariant
            i <= messages@.len(),
            channel == midi_channel,
            update.tempo is None,
            ({
                let merged = merge_all(messages@.take(i as int), channel);
                &&& update.song == merged.song
                &&& update.scene == merged.scene
                &&& update.off == merged.off
                &&& update.notes@ == merged.notes
                &&& tempo1 == merged.tempo1
                &&& tempo2 == merged.tempo2
            }),
        decreases messages@.len() - i,
    {
        let message: MidiMessage = messages[i];
        assert(messages@.take(i + 1).drop_last() =~= messages@.take(i as int));
        let control: bool = has_status(&message, CONTROL_CHANGE, channel);
        if has_status(&message, PROGRAMM_CHANGE, channel) {
            update.scene = Some(message.data1 as usize);
        } else if control && message.data1 == SONG_SELECT && message.data2.is_some() {
            update.song = Some(message.data2.unwrap() as usize);
        } else if control && message.data1 == TEMPO_CONTROL_1 && message.data2.is_some() {
            tempo1 = message.data2;
        } else if control && message.data1 == TEMPO_CONTROL_2 && message.data2.is_some() {
            tempo2 = message.data2;
        } else if control && message.data1 == ALL_NOTES_OFF {
            update.off = Some(true);
        } else if has_status(&message, NOTE_ON, channel) && message.data2.is_some() {
            if message.data1 < 128 {
                update.notes[message.data1 as usize] = message.data2;
            }
        } else if has_status(&message, NOTE_OFF, channel) {
            if message.data1 < 128 {
                update.notes[message.data1 as usize] = Some(0);
            }
        }
        i += 1;
    }
    assert(messages@.take(i as int) =~= messages@);
    match (tempo1, tempo2) {
        (Some(first), Some(second)) => {
            if second <= 255 - first {
                update.tempo = Some(first + second);
            }
        },
        _ => {},
    }
    update
}

impl MidiPort {
    /// Takes out of the queue what was in it when the call began, without
    /// waiting, in the order of arrival. What arrives meanwhile stays for the
    /// next cycle. Without a queue there is nothing to take.
    pub fn pending(&self) -> (messages: Vec<MidiMessage>)
        ensures
            self.receiver is None ==> messages@.len() == 0,
    {
        let mut messages: Vec<MidiMessage> = Vec::new();
        match &self.receiver {
            Some(receiver) => {
                let count: usize = queued(receiver);
                let mut taken: usize = 0;
                let mut empty: bool = false;
                while taken < count && !empty
                    invariant
                        taken <= count,
                    decreases count - taken + if empty { 0int } else { 1int },
                {
                    match try_receive(receiver) {
                        Some(message) => {
                            messages.push(message);
                            taken += 1;
                        },
                        None => {
                            empty = true;
                        },
                    }
                }
            },
            None => {},
        }
        messages
    }

    /// Drains the queue once and merges what was in it into one patch. The
    /// patch is the merge of some run of messages, whatever the queue held;
    /// without a queue it is the patch that changes nothing.
    pub fn read_all(&self) -> (update: ShowUpdate)
        ensures
            exists|messages: Seq<MidiMessage>| #[trigger]
                is_patch_of(update, merge_all(messages, self.midi_channel)),
            self.receiver is None ==> is_patch_of(update, merged_none()),
    {
        let messages: Vec<MidiMessage> = self.pending();
        let update: ShowUpdate = merge_messages(&messages, self.midi_channel);
        assert(is_patch_of(update, merge_all(messages@, self.midi_channel)));
        update
    }
}

/// What arrives last decides: after a program change on the channel the
/// patch asks for that scene, whatever came before.
pub proof fn lemma_last_scene_wins(messages: Seq<MidiMessage>, channel: u8)
    requires
        messages.len() > 0,
        messages.last().status == PROGRAMM_CHANGE + channel,
    ensures
        merge_all(messages, channel).scene == Some(messages.last().data1 as usize),
{
}

} // verus!
