//! Cues as text datagrams, for a sequencer on the same machine: `song_3`,
//! `scene_1`, `tempo1_60`, `tempo2_60`, `off`. Whoever owns the socket hands
//! over the text of each datagram.

use crate::shows::ShowUpdate;
use vstd::prelude::*;

verus! {

/// Whether `pattern` stands somewhere in `text`.
pub open spec fn occurs_in(text: Seq<char>, pattern: Seq<char>) -> bool {
    exists|i: int|
        0 <= i && i + pattern.len() <= text.len() && #[trigger] text.subrange(
            i,
            i + pattern.len(),
        ) == pattern
}

/// What `str::replace` returns for a text, a pattern and its replacement.
pub uninterp spec fn replaced(text: Seq<char>, from: Seq<char>, to: Seq<char>) -> Seq<char>;

/// What `str::parse::<u64>` returns for a text: the number that it spells
/// out in decimal, if it does.
pub uninterp spec fn parsed_index(text: Seq<char>) -> Option<u64>;

/// What `str::parse::<u8>` returns for a text: the number that it spells out
/// in decimal, if it does and the number is a byte.
pub uninterp spec fn parsed_byte(text: Seq<char>) -> Option<u8>;

/// `str::contains` with a string as the pattern: whether the pattern matches
/// a part of the text.
#[verifier::external_body]
fn contains_text(text: &str, pattern: &str) -> (found: bool)
    ensures
        found == occurs_in(text@, pattern@),
{
    text.contains(pattern)
}

/// `str::replace`: the text with every match of `from` replaced by `to`.
/// The contract only names the result.
#[verifier::external_body]
fn replace_text(text: &str, from: &str, to: &str) -> (result: String)
    ensures
        result@ == replaced(text@, from@, to@),
{
    text.replace(from, to)
}

/// `str::parse::<u64>`: the number that the text spells out, `None` where
/// the standard library reports an error. The contract only names the
/// result.
#[verifier::external_body]
fn parse_index(text: &str) -> (number: Option<u64>)
    ensures
        number == parsed_index(text@),
{
    text.parse::<u64>().ok()
}

/// `str::parse::<u8>`: the byte that the text spells out, `None` where the
/// standard library reports an error. The contract only names the result.
#[verifier::external_body]
fn parse_byte(text: &str) -> (number: Option<u8>)
    ensures
        number == parsed_byte(text@),
{
    text.parse::<u8>().ok()
}

/// What a run of datagrams merges to: the last value of each field, the two
/// halves of the tempo apart.
pub ghost struct Cues {
    pub song: Option<usize>,
    pub scene: Option<usize>,
    pub tempo1: Option<u8>,
    pub tempo2: Option<u8>,
    pub off: Option<bool>,
}

/// Nothing received.
pub open spec fn cues_none() -> Cues {
    Cues { song: None, scene: None, tempo1: None, tempo2: None, off: None }
}

/// The index that a datagram gives under `prefix`: the number that is left
/// when the prefix is taken out of the text, if the text holds the prefix,
/// what is left is a number, and the number is an index on this machine.
pub open spec fn index_under(text: Seq<char>, prefix: Seq<char>) -> Option<usize> {
    if occurs_in(text, prefix) {
        match parsed_index(replaced(text, prefix, Seq::empty())) {
            Some(n) => if n <= usize::MAX {
                Some(n as usize)
            } else {
                None
            },
            None => None,
        }
    } else {
        None
    }
}

/// The byte that a datagram gives under `prefix`, in the same way.
pub open spec fn byte_under(text: Seq<char>, prefix: Seq<char>) -> Option<u8> {
    if occurs_in(text, prefix) {
        parsed_byte(replaced(text, prefix, Seq::empty()))
    } else {
        None
    }
}

/// `older` unless `newer` holds a value.
pub open spec fn latest<T>(older: Option<T>, newer: Option<T>) -> Option<T> {
    if newer is Some {
        newer
    } else {
        older
    }
}

/// `cues` after one more datagram. A field that the datagram does not name,
/// or names with something that is no number, stays as it was.
pub open spec fn merge_datagram(cues: Cues, text: Seq<char>) -> Cues {
    Cues {
        song: latest(cues.song, index_under(text, "song_"@)),
        scene: latest(cues.scene, index_under(text, "scene_"@)),
        tempo1: latest(cues.tempo1, byte_under(text, "tempo1_"@)),
        tempo2: latest(cues.tempo2, byte_under(text, "tempo2_"@)),
        off: if text == "off"@ {
            Some(true)
        } else {
            cues.off
        },
    }
}

/// The merge of all datagrams, taken in the order in which they arrived.
pub open spec fn merge_datagrams(datagrams: Seq<String>) -> Cues
    decreases datagrams.len(),
{
    if datagrams.len() == 0 {
        cues_none()
    } else {
        merge_datagram(merge_datagrams(datagrams.drop_last()), datagrams.last()@)
    }
}

/// The tempo of a merge: the sum of the two halves if both arrived and the
/// sum is a byte, else none.
pub open spec fn cues_tempo(cues: Cues) -> Option<u8> {
    if cues.tempo1 is Some && cues.tempo2 is Some && cues.tempo1.unwrap() + cues.tempo2.unwrap()
        <= 255 {
        Some((cues.tempo1.unwrap() + cues.tempo2.unwrap()) as u8)
    } else {
        None
    }
}

/// The index that `text` gives under `prefix`.
pub fn read_index(text: &str, prefix: &str) -> (index: Option<usize>)
    ensures
        index == index_under(text@, prefix@),
{
    if contains_text(text, prefix) {
        let rest: String = replace_text(text, prefix, "");
        proof {
            reveal_strlit("");
            assert(""@ =~= Seq::<char>::empty());
        }
        match parse_index(rest.as_str()) {
            Some(n) => if n <= usize::MAX as u64 {
                Some(n as usize)
            } else {
                None
            },
            None => None,
        }
    } else {
        None
    }
}

/// The byte that `text` gives under `prefix`.
pub fn read_byte(text: &str, prefix: &str) -> (byte: Option<u8>)
    ensures
        byte == byte_under(text@, prefix@),
{
    if contains_text(text, prefix) {
        let rest: String = replace_text(text, prefix, "");
        proof {
            reveal_strlit("");
            assert(""@ =~= Seq::<char>::empty());
        }
        parse_byte(rest.as_str())
    } else {
        None
    }
}

/// Merges the datagrams that arrived since the last cycle into one patch.
/// Of each field the last value wins; a tempo is delivered only if both of
/// its halves arrived; no note is touched.
pub fn read_all_from_udp_socket(datagrams: &Vec<String>) -> (update: ShowUpdate)
    ensures
        update.song == merge_datagrams(datagrams@).song,
        update.scene == merge_datagrams(datagrams@).scene,
        update.tempo == cues_tempo(merge_datagrams(datagrams@)),
        update.off == merge_datagrams(datagrams@).off,
        forall|note: int| 0 <= note < 128 ==> update.notes@[note] is None,
{
    let mut update = ShowUpdate {
        song: None,
        scene: None,
        tempo: None,
        off: None,
        notes: [None; 128],
    };
    let mut tempo1: Option<u8> = None;
    let mut tempo2: Option<u8> = None;
    let off_text: String = "off".to_owned();
    let mut i: usize = 0;
    while i < datagrams.len()
        invariant
            i <= datagrams@.len(),
            off_text@ == "off"@,
            update.tempo is None,
            forall|note: int| 0 <= note < 128 ==> update.notes@[note] is None,
            ({
                let cues = merge_datagrams(datagrams@.take(i as int));
                &&& update.song == cues.song
                &&& update.scene == cues.scene
                &&& update.off == cues.off
                &&& tempo1 == cues.tempo1
                &&& tempo2 == cues.tempo2
            }),
        decreases datagrams@.len() - i,
    {
        assert(datagrams@.take(i + 1).drop_last() =~= datagrams@.take(i as int));
        let input_string: &String = &datagrams[i];
        match read_index(input_string.as_str(), "song_") {
            Some(song) => {
                update.song = Some(song);
            },
            None => {},
        }
        match read_index(input_string.as_str(), "scene_") {
            Some(scene) => {
                update.scene = Some(scene);
            },
            None => {},
        }
        match read_byte(input_string.as_str(), "tempo1_") {
            Some(half) => {
                tempo1 = Some(half);
            },
            None => {},
        }
        match read_byte(input_string.as_str(), "tempo2_") {
            Some(half) => {
                tempo2 = Some(half);
            },
            None => {},
        }
        if *input_string == off_text {
            update.off = Some(true);
        }
        i += 1;
    }
    assert(datagrams@.take(i as int) =~= datagrams@);
    match (tempo1, tempo2) {
        (Some(first), Some(second)) => {
            if second <= 255 - first {
                update.tempo = Some(first + second);
            }
        },
        _ => {},
    }
    update
}

} // verus!
