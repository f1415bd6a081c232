//! Show definitions: the tree of settings that a show is built from, and how
//! its faders, movements, scenes and songs are read out of it. The settings
//! are plain values; whoever decodes the definition files hands them over.

use crate::configuration::{named, BaseConfig};
use crate::faders::{Fader, FaderType, MidiParams};
use crate::shows::{Scene, Show, Song};
use crate::waveform::{Movement, MovementSettings, Shape};
use vstd::prelude::*;

verus! {

/// A number of a definition, in every form in which it is read.
#[derive(Clone, Copy, Debug)]
pub struct Number {
    /// The number, if it is whole and lies between 0 and 2^64 - 1.
    pub unsigned: Option<u64>,
    /// The number, if it is whole and lies between -2^63 and 2^63 - 1.
    pub signed: Option<i64>,
    /// The number taken as a percentage of 255: `number / 100 * 255` with the
    /// fraction cut off, kept within the range of `i64`.
    pub share: i64,
}

/// One value of a definition.
pub enum Setting {
    Number(Number),
    Bool(bool),
    Text(String),
    Mapping(Vec<Entry>),
    /// Anything else: nothing, a list, a tagged value.
    Other,
}

/// One key of a mapping with its value.
pub struct Entry {
    pub key: Setting,
    pub value: Setting,
}

/// One scene file: its name without the extension, and its top-level mapping.
pub struct SceneFile {
    pub stem: String,
    pub document: Vec<Entry>,
}

/// One song directory: its name, and its scene files in playing order.
pub struct SongDirectory {
    pub name: String,
    pub scenes: Vec<SceneFile>,
}

/// One show directory: its name, and its song directories in playing order.
pub struct ShowDirectory {
    pub name: String,
    pub songs: Vec<SongDirectory>,
}

/// The low byte of a whole number that is not negative.
pub open spec fn low_byte(number: Number) -> Option<u8> {
    match number.unsigned {
        Some(v) => Some((v % 256) as u8),
        None => None,
    }
}

/// A percentage of 255 as a byte: 0 below 0, 255 above 255.
pub open spec fn share_byte(number: Number) -> u8 {
    if number.share < 0 {
        0
    } else if number.share > 255 {
        255
    } else {
        number.share as u8
    }
}

/// A whole number of milliseconds or percent; what does not fit is taken as
/// the largest value that does.
pub open spec fn span_of(number: Number) -> Option<u32> {
    match number.unsigned {
        Some(v) => Some(
            if v > u32::MAX {
                u32::MAX
            } else {
                v as u32
            },
        ),
        None => None,
    }
}

/// The shape with the given name; a sine for any other name.
pub open spec fn shape_named(name: Seq<char>) -> Shape {
    if name == "saw"@ {
        Shape::Saw
    } else if name == "sine"@ {
        Shape::Sine
    } else if name == "square"@ {
        Shape::Square
    } else if name == "triangle"@ {
        Shape::Triangle
    } else {
        Shape::Sine
    }
}

/// The settings of a movement before any key is read.
pub open spec fn movement_defaults() -> MovementSettings {
    MovementSettings {
        shape: Shape::Sine,
        min: 0,
        max: 255,
        curve_min: None,
        curve_max: None,
        duration_ms: None,
        duration_percentage: None,
        delay_ms: None,
        delay_percentage: None,
        repetition: 0,
        reverse: false,
    }
}

/// The settings after a number was read under `key`. A key that is not
/// known, or a number that the key cannot take, changes nothing.
pub open spec fn movement_number(s: MovementSettings, key: Seq<char>, n: Number) -> MovementSettings {
    if key == "max"@ {
        match low_byte(n) {
            Some(v) => MovementSettings { max: v, ..s },
            None => s,
        }
    } else if key == "min"@ {
        match low_byte(n) {
            Some(v) => MovementSettings { min: v, ..s },
            None => s,
        }
    } else if key == "max_percentage"@ {
        MovementSettings { max: share_byte(n), ..s }
    } else if key == "min_percentage"@ {
        MovementSettings { min: share_byte(n), ..s }
    } else if key == "curve_max"@ {
        MovementSettings { curve_max: n.signed, ..s }
    } else if key == "curve_min"@ {
        MovementSettings { curve_min: n.signed, ..s }
    } else if key == "curve_max_percentage"@ {
        MovementSettings { curve_max: Some(n.share), ..s }
    } else if key == "curve_min_percentage"@ {
        MovementSettings { curve_min: Some(n.share), ..s }
    } else if key == "repetition"@ {
        match low_byte(n) {
            Some(v) => MovementSettings { repetition: v, ..s },
            None => s,
        }
    } else if key == "delay_percentage"@ {
        match span_of(n) {
            Some(v) => MovementSettings { delay_percentage: Some(v), ..s },
            None => s,
        }
    } else if key == "delay_ms"@ {
        match span_of(n) {
            Some(v) => MovementSettings { delay_ms: Some(v), ..s },
            None => s,
        }
    } else if key == "duration_percentage"@ {
        MovementSettings { duration_percentage: span_of(n), ..s }
    } else if key == "duration_ms"@ {
        MovementSettings { duration_ms: span_of(n), ..s }
    } else {
        s
    }
}

/// The settings after one entry of a movement's mapping was read.
pub open spec fn movement_entry(s: MovementSettings, entry: Entry) -> MovementSettings {
    match (entry.key, entry.value) {
        (Setting::Text(key), Setting::Number(n)) => movement_number(s, key@, n),
        (Setting::Text(key), Setting::Bool(b)) => if key@ == "reverse"@ {
            MovementSettings { reverse: b, ..s }
        } else {
            s
        },
        (Setting::Text(key), Setting::Text(name)) => if key@ == "shape"@ {
            MovementSettings { shape: shape_named(name@), ..s }
        } else {
            s
        },
        _ => s,
    }
}

/// The settings after every entry was read in turn: of a key that occurs
/// twice, and of two keys that set the same field, the later one counts.
pub open spec fn movement_settings(entries: Seq<Entry>) -> MovementSettings
    decreases entries.len(),
{
    if entries.len() == 0 {
        movement_defaults()
    } else {
        movement_entry(movement_settings(entries.drop_last()), entries.last())
    }
}

/// The parameters of a latch before any key is read: note 0, two seconds.
pub open spec fn midi_defaults() -> MidiParams {
    MidiParams { note: 0, timeout: 2000 }
}

/// The parameters after one entry of a latch's mapping was read.
pub open spec fn midi_entry(p: MidiParams, entry: Entry) -> MidiParams {
    match (entry.key, entry.value) {
        (Setting::Text(key), Setting::Number(n)) => if key@ == "note"@ {
            match low_byte(n) {
                Some(v) => MidiParams { note: v, ..p },
                None => p,
            }
        } else if key@ == "timeout_ms"@ {
            match n.unsigned {
                Some(v) => MidiParams { timeout: v, ..p },
                None => p,
            }
        } else {
            p
        },
        _ => p,
    }
}

/// The parameters after every entry was read in turn.
pub open spec fn midi_settings(entries: Seq<Entry>) -> MidiParams
    decreases entries.len(),
{
    if entries.len() == 0 {
        midi_defaults()
    } else {
        midi_entry(midi_settings(entries.drop_last()), entries.last())
    }
}

/// The fader type with the given name; the default type for any other name.
pub open spec fn type_named(name: Seq<char>) -> FaderType {
    if name == "default"@ {
        FaderType::Default
    } else if name == "midi"@ {
        FaderType::Midi
    } else {
        FaderType::Default
    }
}

/// A fader on `channel` before any property is read.
pub open spec fn fader_defaults(channel: usize) -> Fader {
    Fader {
        fader_type: FaderType::Default,
        channel,
        value: 0,
        current_value: 0,
        movement: None,
        midi_params: None,
        timeout_start: None,
    }
}

/// The fader after one of its properties was read.
pub open spec fn fader_entry(f: Fader, entry: Entry) -> Fader {
    match (entry.key, entry.value) {
        (Setting::Text(key), Setting::Number(n)) => if key@ == "value"@ {
            match low_byte(n) {
                Some(v) => Fader { value: v, ..f },
                None => f,
            }
        } else {
            f
        },
        (Setting::Text(key), Setting::Text(name)) => if key@ == "type"@ {
            Fader { fader_type: type_named(name@), ..f }
        } else {
            f
        },
        (Setting::Text(key), Setting::Mapping(entries)) => if key@ == "movement"@ {
            Fader { movement: Some(Movement::of(movement_settings(entries@))), ..f }
        } else if key@ == "params"@ {
            Fader { midi_params: Some(midi_settings(entries@)), ..f }
        } else {
            f
        },
        _ => f,
    }
}

/// The fader after every property was read in turn.
pub open spec fn fader_settings(channel: usize, entries: Seq<Entry>) -> Fader
    decreases entries.len(),
{
    if entries.len() == 0 {
        fader_defaults(channel)
    } else {
        fader_entry(fader_settings(channel, entries.drop_last()), entries.last())
    }
}

/// The fader that a channel and its properties describe: none unless the
/// channel is a whole number that is not negative; a fader with nothing but
/// its channel set if the properties are no mapping.
pub open spec fn fader_of(channel: Setting, properties: Setting) -> Option<Fader> {
    match channel {
        Setting::Number(n) => match n.unsigned {
            Some(c) => if c <= usize::MAX {
                Some(
                    match properties {
                        Setting::Mapping(entries) => fader_settings(c as usize, entries@),
                        _ => fader_defaults(c as usize),
                    },
                )
            } else {
                None
            },
            None => None,
        },
        _ => None,
    }
}

/// The faders that a mapping from channels to properties describes, in the
/// order of the mapping; entries that describe no fader are left out.
pub open spec fn faders_of(entries: Seq<Entry>) -> Seq<Fader>
    decreases entries.len(),
{
    if entries.len() == 0 {
        Seq::empty()
    } else {
        let before = faders_of(entries.drop_last());
        match fader_of(entries.last().key, entries.last().value) {
            Some(fader) => before.push(fader),
            None => before,
        }
    }
}

/// The name of a scene: the text under the last `01_name` key, else `stem`.
pub open spec fn scene_name(stem: Seq<char>, document: Seq<Entry>) -> Seq<char>
    decreases document.len(),
{
    if document.len() == 0 {
        stem
    } else {
        match (document.last().key, document.last().value) {
            (Setting::Text(key), Setting::Text(name)) => if key@ == "01_name"@ {
                name@
            } else {
                scene_name(stem, document.drop_last())
            },
            _ => scene_name(stem, document.drop_last()),
        }
    }
}

/// The faders of a scene: those of every `faders` mapping of the document,
/// one after the other.
pub open spec fn scene_faders(document: Seq<Entry>) -> Seq<Fader>
    decreases document.len(),
{
    if document.len() == 0 {
        Seq::empty()
    } else {
        let before = scene_faders(document.drop_last());
        match (document.last().key, document.last().value) {
            (Setting::Text(key), Setting::Mapping(entries)) => if key@ == "faders"@ {
                before + faders_of(entries@)
            } else {
                before
            },
            _ => before,
        }
    }
}

fn read_low_byte(number: &Number) -> (byte: Option<u8>)
    ensures
        byte == low_byte(*number),
{
    match number.unsigned {
        Some(v) => Some((v % 256) as u8),
        None => None,
    }
}

fn read_share_byte(number: &Number) -> (byte: u8)
    ensures
        byte == share_byte(*number),
{
    if number.share < 0 {
        0
    } else if number.share > 255 {
        255
    } else {
        number.share as u8
    }
}

fn read_span(number: &Number) -> (span: Option<u32>)
    ensures
        span == span_of(*number),
{
    match number.unsigned {
        Some(v) => Some(
            if v > 0xFFFF_FFFF {
                0xFFFF_FFFFu32
            } else {
                v as u32
            },
        ),
        None => None,
    }
}

fn read_shape(name: &String) -> (shape: Shape)
    ensures
        shape == shape_named(name@),
{
    if named(name, "saw") {
        Shape::Saw
    } else if named(name, "sine") {
        Shape::Sine
    } else if named(name, "square") {
        Shape::Square
    } else if named(name, "triangle") {
        Shape::Triangle
    } else {
        Shape::Sine
    }
}

fn read_movement_number(settings: MovementSettings, key: &String, n: &Number) -> (next:
    MovementSettings)
    ensures
        next == movement_number(settings, key@, *n),
{
    let mut s = settings;
    if named(key, "max") {
        match read_low_byte(n) {
            Some(v) => {
                s.max = v;
            },
            None => {},
        }
    } else if named(key, "min") {
        match read_low_byte(n) {
            Some(v) => {
                s.min = v;
            },
            None => {},
        }
    } else if named(key, "max_percentage") {
        s.max = read_share_byte(n);
    } else if named(key, "min_percentage") {
        s.min = read_share_byte(n);
    } else if named(key, "curve_max") {
        s.curve_max = n.signed;
    } else if named(key, "curve_min") {
        s.curve_min = n.signed;
    } else if named(key, "curve_max_percentage") {
        s.curve_max = Some(n.share);
    } else if named(key, "curve_min_percentage") {
        s.curve_min = Some(n.share);
    } else if named(key, "repetition") {
        match read_low_byte(n) {
            Some(v) => {
                s.repetition = v;
            },
            None => {},
        }
    } else if named(key, "delay_percentage") {
        match read_span(n) {
            Some(v) => {
                s.delay_percentage = Some(v);
            },
            None => {},
        }
    } else if named(key, "delay_ms") {
        match read_span(n) {
            Some(v) => {
                s.delay_ms = Some(v);
            },
            None => {},
        }
    } else if named(key, "duration_percentage") {
        s.duration_percentage = read_span(n);
    } else if named(key, "duration_ms") {
        s.duration_ms = read_span(n);
    }
    s
}

fn read_movement_entry(settings: MovementSettings, entry: &Entry) -> (next: MovementSettings)
    ensures
        next == movement_entry(settings, *entry),
{
    let mut s = settings;
    match (&entry.key, &entry.value) {
        (Setting::Text(key), Setting::Number(n)) => {
            s = read_movement_number(settings, key, n);
        },
        (Setting::Text(key), Setting::Bool(b)) => {
            if named(key, "reverse") {
                s.reverse = *b;
            }
        },
        (Setting::Text(key), Setting::Text(name)) => {
            if named(key, "shape") {
                s.shape = read_shape(name);
            }
        },
        _ => {},
    }
    s
}

/// Reads a movement out of its mapping. Keys are read in turn, the later
/// one winning; what is left open takes its default.
pub fn movement_from_mapping(movement_input: &Vec<Entry>) -> (movement: Movement)
    ensures
        movement == Movement::of(movement_settings(movement_input@)),
{
    let mut settings = MovementSettings::new();
    let mut i: usize = 0;
    while i < movement_input.len()
        invariant
            i <= movement_input@.len(),
            settings == movement_settings(movement_input@.take(i as int)),
        decreases movement_input@.len() - i,
    {
        assert(movement_input@.take(i + 1).drop_last() =~= movement_input@.take(i as int));
        settings = read_movement_entry(settings, &movement_input[i]);
        i += 1;
    }
    assert(movement_input@.take(i as int) =~= movement_input@);
    Movement::new(settings)
}

/// Reads the parameters of a latch out of their mapping.
pub fn midi_params_from_mapping(midi_params_input: &Vec<Entry>) -> (midi_params: MidiParams)
    ensures
        midi_params == midi_settings(midi_params_input@),
{
    let mut midi_params = MidiParams { note: 0, timeout: 2000 };
    let mut i: usize = 0;
    while i < midi_params_input.len()
        invariant
            i <= midi_params_input@.len(),
            midi_params == midi_settings(midi_params_input@.take(i as int)),
        decreases midi_params_input@.len() - i,
    {
        assert(midi_params_input@.take(i + 1).drop_last() =~= midi_params_input@.take(i as int));
        let entry: &Entry = &midi_params_input[i];
        match (&entry.key, &entry.value) {
            (Setting::Text(key), Setting::Number(n)) => {
                if named(key, "note") {
                    match read_low_byte(n) {
                        Some(v) => {
                            midi_params.note = v;
                        },
                        None => {},
                    }
                } else if named(key, "timeout_ms") {
                    match n.unsigned {
                        Some(v) => {
                            midi_params.timeout = v;
                        },
                        None => {},
                    }
                }
            },
            _ => {},
        }
        i += 1;
    }
    assert(midi_params_input@.take(i as int) =~= midi_params_input@);
    midi_params
}

fn read_fader_type(name: &String) -> (fader_type: FaderType)
    ensures
        fader_type == type_named(name@),
{
    if named(name, "default") {
        FaderType::Default
    } else if named(name, "midi") {
        FaderType::Midi
    } else {
        FaderType::Default
    }
}

/// Reads a fader out of its channel and its properties.
pub fn fader_from_mapping(channel: &Setting, properties: &Setting) -> (fader: Option<Fader>)
    ensures
        fader == fader_of(*channel, *properties),
{
    let number: u64 = match channel {
        Setting::Number(n) => match n.unsigned {
            Some(c) => c,
            None => {
                return None;
            },
        },
        _ => {
            return None;
        },
    };
    if number > usize::MAX as u64 {
        return None;
    }
    let mut fader = Fader::new(number as usize, 0);
    match properties {
        Setting::Mapping(entries) => {
            let mut i: usize = 0;
            while i < entries.len()
                invariant
                    i <= entries@.len(),
                    fader == fader_settings(number as usize, entries@.take(i as int)),
                decreases entries@.len() - i,
            {
                assert(entries@.take(i + 1).drop_last() =~= entries@.take(i as int));
                let entry: &Entry = &entries[i];
                match (&entry.key, &entry.value) {
                    (Setting::Text(key), Setting::Number(n)) => {
                        if named(key, "value") {
                            match read_low_byte(n) {
                                Some(v) => {
                                    fader.value = v;
                                },
                                None => {},
                            }
                        }
                    },
                    (Setting::Text(key), Setting::Text(name)) => {
                        if named(key, "type") {
                            fader.fader_type = read_fader_type(name);
                        }
                    },
                    (Setting::Text(key), Setting::Mapping(inner)) => {
                        if named(key, "movement") {
                            fader.movement = Some(movement_from_mapping(inner));
                        } else if named(key, "params") {
                            fader.midi_params = Some(midi_params_from_mapping(inner));
                        }
                    },
                    _ => {},
                }
                i += 1;
            }
            assert(entries@.take(i as int) =~= entries@);
        },
        _ => {},
    }
    Some(fader)
}

/// Reads the faders out of a mapping from channels to properties.
pub fn faders_from_mapping(entries: &Vec<Entry>) -> (faders: Vec<Fader>)
    ensures
        faders@ == faders_of(entries@),
{
    let mut faders: Vec<Fader> = Vec::new();
    let mut i: usize = 0;
    while i < entries.len()
        invariant
            i <= entries@.len(),
            faders@ == faders_of(entries@.take(i as int)),
        decreases entries@.len() - i,
    {
        assert(entries@.take(i + 1).drop_last() =~= entries@.take(i as int));
        match fader_from_mapping(&entries[i].key, &entries[i].value) {
            Some(fader) => {
                faders.push(fader);
            },
            None => {},
        }
        i += 1;
    }
    assert(entries@.take(i as int) =~= entries@);
    faders
}

/// Reads a scene out of a scene file. The scene is named after the file
/// unless the document names it, and its clock starts at 0.
pub fn load_scene(file: &SceneFile) -> (scene: Scene)
    ensures
        scene_matches(scene, *file),
{
    let mut name: String = file.stem.clone();
    let mut faders: Vec<Fader> = Vec::new();
    let mut i: usize = 0;
    while i < file.document.len()
        invariant
            i <= file.document@.len(),
            name@ == scene_name(file.stem@, file.document@.take(i as int)),
            faders@ == scene_faders(file.document@.take(i as int)),
        decreases file.document@.len() - i,
    {
        assert(file.document@.take(i + 1).drop_last() =~= file.document@.take(i as int));
        let entry: &Entry = &file.document[i];
        match (&entry.key, &entry.value) {
            (Setting::Text(key), Setting::Text(text)) => {
                if named(key, "01_name") {
                    name = text.clone();
                }
            },
            (Setting::Text(key), Setting::Mapping(entries)) => {
                if named(key, "faders") {
                    let mut more: Vec<Fader> = faders_from_mapping(entries);
                    faders.append(&mut more);
                }
            },
            _ => {},
        }
        i += 1;
    }
    assert(file.document@.take(i as int) =~= file.document@);
    Scene::new(name, faders)
}

/// Whether `scene` is the scene that `file` describes, not yet activated.
pub open spec fn scene_matches(scene: Scene, file: SceneFile) -> bool {
    &&& scene.name@ == scene_name(file.stem@, file.document@)
    &&& scene.faders@ == scene_faders(file.document@)
    &&& scene.start_time == 0
}

/// Whether `song` is the song that `directory` describes: named after it,
/// one scene per scene file in the order of the files, the first selected.
pub open spec fn song_matches(song: Song, directory: SongDirectory) -> bool {
    &&& song.name@ == directory.name@
    &&& song.selected_scene == 0
    &&& song.scenes@.len() == directory.scenes@.len()
    &&& forall|i: int|
        0 <= i < directory.scenes@.len() ==> scene_matches(
            #[trigger] song.scenes@[i],
            directory.scenes@[i],
        )
}

/// Reads a song out of a song directory. A directory without scene files is
/// no song.
pub fn load_song(directory: &SongDirectory) -> (song: Option<Song>)
    ensures
        song is Some <==> directory.scenes@.len() > 0,
        song is Some ==> song_matches(song.unwrap(), *directory),
{
    let mut scenes: Vec<Scene> = Vec::new();
    let mut i: usize = 0;
    while i < directory.scenes.len()
        invariant
            i <= directory.scenes@.len(),
            scenes@.len() == i,
            forall|k: int| 0 <= k < i ==> scene_matches(#[trigger] scenes@[k], directory.scenes@[k]),
        decreases directory.scenes@.len() - i,
    {
        scenes.push(load_scene(&directory.scenes[i]));
        i += 1;
    }
    if scenes.len() > 0 {
        Some(Song::new(directory.name.clone(), scenes))
    } else {
        None
    }
}

/// The song directories that hold at least one scene file, in order.
pub open spec fn playable(songs: Seq<SongDirectory>) -> Seq<SongDirectory> {
    songs.filter(|d: SongDirectory| d.scenes@.len() > 0)
}

/// Builds the show that `config` asks for out of its directory, if there is
/// one: no show if the configured path is empty or `directory` is `None`
/// because the path leads to no directory. The show holds a song for every
/// song directory with a scene file, in order; it starts at its first song,
/// at 120 beats per minute, not muted.
pub fn load_show(config: &BaseConfig, directory: Option<ShowDirectory>) -> (show: Option<Show>)
    ensures
        show is Some <==> config.show_path@.len() > 0 && directory is Some,
        show is Some ==> {
            &&& show.unwrap().name@ == directory.unwrap().name@
            &&& show.unwrap().selected_song == 0
            &&& show.unwrap().selected_tempo == 120
            &&& !show.unwrap().off
            &&& show.unwrap().songs@.len() == playable(directory.unwrap().songs@).len()
            &&& forall|i: int|
                0 <= i < show.unwrap().songs@.len() ==> song_matches(
                    #[trigger] show.unwrap().songs@[i],
                    playable(directory.unwrap().songs@)[i],
                )
        },
{
    if config.show_path.as_str().is_empty() {
        return None;
    }
    match directory {
        Some(directory) => {
            let mut songs: Vec<Song> = Vec::new();
            let mut i: usize = 0;
            while i < directory.songs.len()
                invariant
                    i <= directory.songs@.len(),
                    songs@.len() == playable(directory.songs@.take(i as int)).len(),
                    forall|k: int|
                        0 <= k < songs@.len() ==> song_matches(
                            #[trigger] songs@[k],
                            playable(directory.songs@.take(i as int))[k],
                        ),
                decreases directory.songs@.len() - i,
            {
                proof {
                    let before = directory.songs@.take(i as int);
                    let upto = directory.songs@.take(i + 1);
                    assert(upto.drop_last() =~= before);
                    assert(upto =~= before.push(directory.songs@[i as int]));
                    reveal(Seq::filter);
                }
                match load_song(&directory.songs[i]) {
                    Some(song) => {
                        songs.push(song);
                    },
                    None => {},
                }
                i += 1;
            }
            assert(directory.songs@.take(i as int) =~= directory.songs@);
            Some(Show::new(directory.name.clone(), songs))
        },
        None => None,
    }
}

} // verus!
