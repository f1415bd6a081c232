//! The scene graph: a show of songs, each a list of scenes, each a list of
//! faders. One song and one scene are selected at a time; patches move the
//! selection, and each cycle renders the selected scene.

use crate::configuration::BaseConfig;
use crate::dmx_buffer::{blank_frame, DmxBuffer};
use crate::faders::Fader;
use crate::waveform::SineTable;
use vstd::prelude::*;

verus! {

/// Tempo of a show that has not been given one, in beats per minute.
pub const DEFAULT_TEMPO: u8 = 120;

/// Everything that arrived since the last cycle, merged into one patch.
pub struct ShowUpdate {
    pub song: Option<usize>,
    pub scene: Option<usize>,
    pub tempo: Option<u8>,
    pub off: Option<bool>,
    /// The last velocity seen for each note; 0 stands for a note-off.
    pub notes: [Option<u8>; 128],
}

/// A list of faders with the time at which it was last activated.
pub struct Scene {
    pub name: String,
    /// Milliseconds on the caller's clock; the anchor of every movement.
    pub start_time: u64,
    pub faders: Vec<Fader>,
}

/// The frame that the faders give when each writes its rendered value to its
/// channel in turn, onto a dark frame. A fader whose channel lies outside
/// the universe writes nothing.
pub open spec fn render_faders(faders: Seq<Fader>) -> Seq<u8>
    decreases faders.len(),
{
    if faders.len() == 0 {
        blank_frame()
    } else {
        let before = render_faders(faders.drop_last());
        let fader = faders.last();
        if fader.channel < 512 {
            before.update(fader.channel as int, fader.current_value)
        } else {
            before
        }
    }
}

/// Whether some fader from index `from` on writes to `channel`.
pub open spec fn written_after(faders: Seq<Fader>, from: int, channel: int) -> bool {
    exists|j: int| from <= j < faders.len() && #[trigger] faders[j].channel == channel
}

/// A rendered frame has 512 channels. A fader's value stands at its channel
/// unless a later fader writes there too, and a channel that no fader writes
/// to is dark.
pub proof fn lemma_render_last_write_wins(faders: Seq<Fader>)
    ensures
        render_faders(faders).len() == 512,
        forall|i: int|
            0 <= i < faders.len() && (#[trigger] faders[i]).channel < 512 && !written_after(
                faders,
                i + 1,
                faders[i].channel as int,
            ) ==> render_faders(faders)[faders[i].channel as int] == faders[i].current_value,
        forall|c: int|
            0 <= c < 512 && !written_after(faders, 0, c) ==> (#[trigger] render_faders(faders)[c])
                == 0,
    decreases faders.len(),
{
    if faders.len() > 0 {
        let front = faders.drop_last();
        let last = faders.last();
        lemma_render_last_write_wins(front);
        assert forall|i: int|
            0 <= i < faders.len() && (#[trigger] faders[i]).channel < 512 && !written_after(
                faders,
                i + 1,
                faders[i].channel as int,
            ) implies render_faders(faders)[faders[i].channel as int]
            == faders[i].current_value by {
            if i < faders.len() - 1 {
                let c = faders[i].channel as int;
                assert(front[i] == faders[i]);
                if written_after(front, i + 1, c) {
                    let j = choose|j: int| i + 1 <= j < front.len() && front[j].channel == c;
                    assert(faders[j].channel == c);
                    assert(false);
                }
                if last.channel == c {
                    assert(faders[faders.len() - 1].channel == c);
                    assert(false);
                }
            }
        }
        assert forall|c: int| 0 <= c < 512 && !written_after(faders, 0, c) implies (
        #[trigger] render_faders(faders)[c]) == 0 by {
            if written_after(front, 0, c) {
                let j = choose|j: int| 0 <= j < front.len() && front[j].channel == c;
                assert(faders[j].channel == c);
                assert(false);
            }
            if last.channel == c {
                assert(faders[faders.len() - 1].channel == c);
                assert(false);
            }
        }
    }
}

impl Scene {
    /// The frame of this scene.
    pub open spec fn rendered(&self) -> Seq<u8> {
        render_faders(self.faders@)
    }

    /// `self` is `old` after one cycle at `now`: every fader was rendered,
    /// nothing else changed.
    pub open spec fn advanced_from(
        &self,
        old: Scene,
        tempo: u8,
        now: u64,
        notes: Seq<Option<u8>>,
        midi_faders: bool,
        table: Seq<u16>,
    ) -> bool {
        &&& self.name == old.name
        &&& self.start_time == old.start_time
        &&& self.faders@.len() == old.faders@.len()
        &&& forall|i: int|
            0 <= i < old.faders@.len() ==> #[trigger] self.faders@[i] == old.faders@[i].next_state(
                tempo,
                old.start_time,
                now,
                notes,
                midi_faders,
                table,
            )
    }

    /// A scene over the given faders, activated at time 0.
    pub fn new(name: String, faders: Vec<Fader>) -> (scene: Scene)
        ensures
            scene.name == name,
            scene.start_time == 0,
            scene.faders == faders,
    {
        Scene { name, start_time: 0, faders }
    }

    /// Restarts the scene's clock at `now_ms`.
    pub fn reset(&mut self, now_ms: u64)
        ensures
            final(self).start_time == now_ms,
            final(self).name == old(self).name,
            final(self).faders == old(self).faders,
    {
        self.start_time = now_ms;
    }

    /// Renders every fader for a cycle at `now_ms`, at the patch's tempo or,
    /// where it has none, at 120 beats per minute.
    pub fn update_state(
        &mut self,
        patch: &ShowUpdate,
        now_ms: u64,
        config: &BaseConfig,
        table: &SineTable,
    )
        ensures
            final(self).advanced_from(
                *old(self),
                patch_tempo(*patch),
                now_ms,
                patch.notes@,
                config.midi_faders,
                table@,
            ),
    {
        let current_tempo: u8 = match patch.tempo {
            Some(tempo) => tempo,
            None => DEFAULT_TEMPO,
        };
        let start_time: u64 = self.start_time;
        let mut i: usize = 0;
        while i < self.faders.len()
            invariant
                i <= self.faders@.len(),
                self.name == old(self).name,
                self.start_time == old(self).start_time,
                start_time == self.start_time,
                self.faders@.len() == old(self).faders@.len(),
                forall|k: int|
                    0 <= k < i ==> #[trigger] self.faders@[k] == old(self).faders@[k].next_state(
                        current_tempo,
                        start_time,
                        now_ms,
                        patch.notes@,
                        config.midi_faders,
                        table@,
                    ),
                forall|k: int|
                    i <= k < self.faders@.len() ==> #[trigger] self.faders@[k] == old(
                        self,
                    ).faders@[k],
            decreases self.faders@.len() - i,
        {
            self.faders[i].update_state(
                current_tempo,
                start_time,
                now_ms,
                &patch.notes,
                config,
                table,
            );
            i += 1;
        }
    }

    /// The frame of this scene: each fader's rendered value at its channel,
    /// the later fader winning where two share a channel.
    pub fn get_dmx_data(&self) -> (frame: [u8; 512])
        ensures
            frame@ == self.rendered(),
    {
        let mut buffer = DmxBuffer::new();
        let mut i: usize = 0;
        while i < self.faders.len()
            invariant
                i <= self.faders@.len(),
                buffer@ == render_faders(self.faders@.take(i as int)),
            decreases self.faders@.len() - i,
        {
            assert(self.faders@.take(i + 1).drop_last() =~= self.faders@.take(i as int));
            buffer.set_value(self.faders[i].get_channel(), self.faders[i].get_value());
            i += 1;
        }
        assert(self.faders@.take(i as int) =~= self.faders@);
        buffer.get_values()
    }
}

/// The tempo that a patch carries down to a scene.
pub open spec fn patch_tempo(patch: ShowUpdate) -> u8 {
    match patch.tempo {
        Some(tempo) => tempo,
        None => DEFAULT_TEMPO,
    }
}

/// A list of scenes, one of them selected.
pub struct Song {
    pub name: String,
    pub scenes: Vec<Scene>,
    pub selected_scene: usize,
}

impl Song {
    /// The frame of the selected scene; dark if the selection points at no
    /// scene.
    pub open spec fn rendered(&self) -> Seq<u8> {
        if self.selected_scene < self.scenes@.len() {
            self.scenes@[self.selected_scene as int].rendered()
        } else {
            blank_frame()
        }
    }

    /// Whether a request for `scene` moves the selection away from
    /// `current`: it names another scene, and one that exists.
    pub open spec fn scene_switch(&self, current: usize, scene: Option<usize>) -> bool {
        scene is Some && scene.unwrap() != current && scene.unwrap() < self.scenes@.len()
    }

    /// The selection after a request for `scene`, starting from `current`.
    pub open spec fn scene_after(&self, current: usize, scene: Option<usize>) -> usize {
        if self.scene_switch(current, scene) {
            scene.unwrap()
        } else {
            current
        }
    }

    /// `self` is `old` after a request for `scene` at `now`. With `restart`
    /// the song was itself just switched to: its selection first went back to
    /// scene 0, whose clock restarted. A scene that is switched to has its
    /// clock restarted; no other clock moves, and no fader changes.
    pub open spec fn selected_from(
        &self,
        old: Song,
        restart: bool,
        scene: Option<usize>,
        now: u64,
    ) -> bool {
        let base = if restart {
            0usize
        } else {
            old.selected_scene
        };
        let selected = old.scene_after(base, scene);
        &&& self.name == old.name
        &&& self.selected_scene == selected
        &&& self.scenes@.len() == old.scenes@.len()
        &&& forall|i: int|
            0 <= i < old.scenes@.len() ==> {
                &&& (#[trigger] self.scenes@[i]).name == old.scenes@[i].name
                &&& self.scenes@[i].faders == old.scenes@[i].faders
                &&& self.scenes@[i].start_time == if (restart && i == 0) || (old.scene_switch(
                    base,
                    scene,
                ) && i == selected) {
                    now
                } else {
                    old.scenes@[i].start_time
                }
            }
    }

    /// `self` is `old` after one cycle at `now`: the selected scene was
    /// rendered, the others were not touched.
    pub open spec fn advanced_from(
        &self,
        old: Song,
        tempo: u8,
        now: u64,
        notes: Seq<Option<u8>>,
        midi_faders: bool,
        table: Seq<u16>,
    ) -> bool {
        &&& self.name == old.name
        &&& self.selected_scene == old.selected_scene
        &&& self.scenes@.len() == old.scenes@.len()
        &&& forall|i: int|
            0 <= i < old.scenes@.len() && i != old.selected_scene ==> #[trigger] self.scenes@[i]
                == old.scenes@[i]
        &&& old.selected_scene < old.scenes@.len() ==> self.scenes@[old.selected_scene as int].advanced_from(
            old.scenes@[old.selected_scene as int],
            tempo,
            now,
            notes,
            midi_faders,
            table,
        )
    }

    /// A song over the given scenes, with the first one selected.
    pub fn new(name: String, scenes: Vec<Scene>) -> (song: Song)
        ensures
            song.name == name,
            song.scenes == scenes,
            song.selected_scene == 0,
    {
        Song { name, scenes, selected_scene: 0 }
    }

    /// Goes back to the first scene and restarts its clock at `now_ms`.
    pub fn reset(&mut self, now_ms: u64)
        ensures
            final(self).selected_from(*old(self), true, None, now_ms),
    {
        self.selected_scene = 0;
        if self.scenes.len() > 0 {
            self.scenes[0].reset(now_ms);
        }
    }

    /// Moves the selection to `scene` if that is another scene and one that
    /// exists, and restarts that scene's clock at `now_ms`. Any other request
    /// changes nothing. Returns whether the selection moved.
    pub fn select_scene(&mut self, scene: Option<usize>, now_ms: u64) -> (switched: bool)
        ensures
            final(self).selected_from(*old(self), false, scene, now_ms),
            switched == old(self).scene_switch(old(self).selected_scene, scene),
    {
        match scene {
            Some(next_scene) => {
                if self.selected_scene != next_scene && next_scene < self.scenes.len() {
                    self.selected_scene = next_scene;
                    self.scenes[next_scene].reset(now_ms);
                    true
                } else {
                    false
                }
            },
            None => false,
        }
    }

    /// Renders the selected scene for a cycle at `now_ms`.
    pub fn advance(
        &mut self,
        patch: &ShowUpdate,
        now_ms: u64,
        config: &BaseConfig,
        table: &SineTable,
    )
        ensures
            final(self).advanced_from(
                *old(self),
                patch_tempo(*patch),
                now_ms,
                patch.notes@,
                config.midi_faders,
                table@,
            ),
    {
        let selected: usize = self.selected_scene;
        if selected < self.scenes.len() {
            self.scenes[selected].update_state(patch, now_ms, config, table);
        }
    }

    /// One cycle of the song: the patch's scene request is served, then the
    /// selected scene is rendered.
    pub fn update_state(
        &mut self,
        patch: &ShowUpdate,
        now_ms: u64,
        config: &BaseConfig,
        table: &SineTable,
    )
        ensures
            exists|selected: Song|
                {
                    &&& #[trigger] selected.selected_from(*old(self), false, patch.scene, now_ms)
                    &&& final(self).advanced_from(
                        selected,
                        patch_tempo(*patch),
                        now_ms,
                        patch.notes@,
                        config.midi_faders,
                        table@,
                    )
                },
    {
        self.select_scene(patch.scene, now_ms);
        let ghost selected = *self;
        self.advance(patch, now_ms, config, table);
        assert(selected.selected_from(*old(self), false, patch.scene, now_ms));
    }

    /// The frame of the selected scene; dark if there is none.
    pub fn get_dmx_data(&self) -> (frame: [u8; 512])
        ensures
            frame@ == self.rendered(),
    {
        if self.selected_scene < self.scenes.len() {
            self.scenes[self.selected_scene].get_dmx_data()
        } else {
            let frame: [u8; 512] = [0u8; 512];
            assert(frame@ =~= blank_frame());
            frame
        }
    }
}

/// The whole performance: a list of songs, one of them selected, a tempo and
/// a mute switch.
pub struct Show {
    pub name: String,
    pub songs: Vec<Song>,
    pub selected_song: usize,
    /// Beats per minute.
    pub selected_tempo: u8,
    /// While set, every rendered frame is dark.
    pub off: bool,
}

impl Show {
    /// The frame of the show: dark while it is muted or the selection points
    /// at no song, else the frame of the selected song.
    pub open spec fn rendered(&self) -> Seq<u8> {
        if !self.off && self.selected_song < self.songs@.len() {
            self.songs@[self.selected_song as int].rendered()
        } else {
            blank_frame()
        }
    }

    /// Whether the patch moves the song selection: it names another song,
    /// and one that exists.
    pub open spec fn song_switch(&self, patch: ShowUpdate) -> bool {
        patch.song is Some && patch.song.unwrap() != self.selected_song && patch.song.unwrap()
            < self.songs@.len()
    }

    /// The song selection after the patch.
    pub open spec fn song_after(&self, patch: ShowUpdate) -> usize {
        if self.song_switch(patch) {
            patch.song.unwrap()
        } else {
            self.selected_song
        }
    }

    /// Whether the patch moves the scene selection of the song that is
    /// selected after it.
    pub open spec fn scene_switch(&self, patch: ShowUpdate) -> bool {
        let song = self.song_after(patch);
        song < self.songs@.len() && self.songs@[song as int].scene_switch(
            if self.song_switch(patch) {
                0
            } else {
                self.songs@[song as int].selected_scene
            },
            patch.scene,
        )
    }

    /// The mute switch after the patch: set by `off`, whatever it holds, else
    /// cleared by a switch of song or scene, else as it was.
    pub open spec fn off_after(&self, patch: ShowUpdate) -> bool {
        if patch.off is Some {
            true
        } else if self.song_switch(patch) || self.scene_switch(patch) {
            false
        } else {
            self.off
        }
    }

    /// `self` is `old` after the patch was applied at `now`. A song that is
    /// switched to starts at its first scene; the patch's scene request goes
    /// to the song that is selected in the end; a tempo replaces the tempo.
    /// Songs that are not selected are not touched, and no fader changes.
    pub open spec fn applied_from(&self, old: Show, patch: ShowUpdate, now: u64) -> bool {
        let song = old.song_after(patch);
        &&& self.name == old.name
        &&& self.selected_song == song
        &&& self.selected_tempo == match patch.tempo {
            Some(tempo) => tempo,
            None => old.selected_tempo,
        }
        &&& self.off == old.off_after(patch)
        &&& self.songs@.len() == old.songs@.len()
        &&& forall|i: int|
            0 <= i < old.songs@.len() && i != song ==> #[trigger] self.songs@[i] == old.songs@[i]
        &&& song < old.songs@.len() ==> self.songs@[song as int].selected_from(
            old.songs@[song as int],
            old.song_switch(patch),
            patch.scene,
            now,
        )
    }

    /// `self` is `old` after one cycle at `now`: the selected scene of the
    /// selected song was rendered at the show's tempo, nothing else changed.
    pub open spec fn advanced_from(
        &self,
        old: Show,
        now: u64,
        notes: Seq<Option<u8>>,
        midi_faders: bool,
        table: Seq<u16>,
    ) -> bool {
        &&& self.name == old.name
        &&& self.selected_song == old.selected_song
        &&& self.selected_tempo == old.selected_tempo
        &&& self.off == old.off
        &&& self.songs@.len() == old.songs@.len()
        &&& forall|i: int|
            0 <= i < old.songs@.len() && i != old.selected_song ==> #[trigger] self.songs@[i]
                == old.songs@[i]
        &&& old.selected_song < old.songs@.len() ==> self.songs@[old.selected_song as int].advanced_from(
            old.songs@[old.selected_song as int],
            old.selected_tempo,
            now,
            notes,
            midi_faders,
            table,
        )
    }

    /// A show over the given songs: the first song selected, 120 beats per
    /// minute, not muted.
    pub fn new(name: String, songs: Vec<Song>) -> (show: Show)
        ensures
            show.name == name,
            show.songs == songs,
            show.selected_song == 0,
            show.selected_tempo == DEFAULT_TEMPO,
            !show.off,
    {
        Show { name, songs, selected_song: 0, selected_tempo: DEFAULT_TEMPO, off: false }
    }

    /// Applies a patch at `now_ms`. An index that names the selected song or
    /// scene, or none that exists, is ignored.
    pub fn apply(&mut self, patch: &ShowUpdate, now_ms: u64)
        ensures
            final(self).applied_from(*old(self), *patch, now_ms),
    {
        let mut switched: bool = false;
        match patch.song {
            Some(next_song) => {
                if self.selected_song != next_song && next_song < self.songs.len() {
                    self.selected_song = next_song;
                    self.songs[next_song].reset(now_ms);
                    switched = true;
                }
            },
            None => {},
        }
        match patch.tempo {
            Some(next_tempo) => {
                self.selected_tempo = next_tempo;
            },
            None => {},
        }
        let selected: usize = self.selected_song;
        if selected < self.songs.len() {
            let scene_switched: bool = self.songs[selected].select_scene(patch.scene, now_ms);
            switched = switched || scene_switched;
        }
        if patch.off.is_some() {
            self.off = true;
        } else if switched {
            self.off = false;
        }
    }

    /// Renders the selected scene of the selected song for a cycle at
    /// `now_ms`, with the velocity snapshot `notes`.
    pub fn advance(
        &mut self,
        notes: [Option<u8>; 128],
        now_ms: u64,
        config: &BaseConfig,
        table: &SineTable,
    )
        ensures
            final(self).advanced_from(*old(self), now_ms, notes@, config.midi_faders, table@),
    {
        let selected: usize = self.selected_song;
        if selected < self.songs.len() {
            let patch = ShowUpdate {
                song: None,
                scene: None,
                tempo: Some(self.selected_tempo),
                off: None,
                notes,
            };
            self.songs[selected].advance(&patch, now_ms, config, table);
        }
    }

    /// One cycle of the show: the patch is applied, then the selected scene
    /// is rendered.
    pub fn update_state(
        &mut self,
        patch: ShowUpdate,
        now_ms: u64,
        config: &BaseConfig,
        table: &SineTable,
    )
        ensures
            exists|applied: Show|
                {
                    &&& #[trigger] applied.applied_from(*old(self), patch, now_ms)
                    &&& final(self).advanced_from(
                        applied,
                        now_ms,
                        patch.notes@,
                        config.midi_faders,
                        table@,
                    )
                },
    {
        self.apply(&patch, now_ms);
        let ghost applied = *self;
        self.advance(patch.notes, now_ms, config, table);
        assert(applied.applied_from(*old(self), patch, now_ms));
    }

    /// The frame of the show, 512 channels: dark while the show is muted or
    /// nothing is selected.
    pub fn get_dmx_data(&self) -> (frame: [u8; 512])
        ensures
            frame@ == self.rendered(),
    {
        if !self.off && self.selected_song < self.songs.len() {
            self.songs[self.selected_song].get_dmx_data()
        } else {
            let frame: [u8; 512] = [0u8; 512];
            assert(frame@ =~= blank_frame());
            frame
        }
    }
}

/// A patch that switches neither song nor scene and carries no `off` leaves
/// the selection, the mute switch, every scene's clock and every fader as
/// they were, and so the frame.
pub proof fn lemma_no_switch_no_change(old: Show, new: Show, patch: ShowUpdate, now: u64)
    requires
        new.applied_from(old, patch, now),
        !old.song_switch(patch),
        !old.scene_switch(patch),
        patch.off is None,
    ensures
        new.selected_song == old.selected_song,
        new.off == old.off,
        new.songs@.len() == old.songs@.len(),
        forall|i: int|
            0 <= i < old.songs@.len() ==> {
                &&& (#[trigger] new.songs@[i]).selected_scene == old.songs@[i].selected_scene
                &&& new.songs@[i].scenes@.len() == old.songs@[i].scenes@.len()
                &&& forall|j: int|
                    0 <= j < old.songs@[i].scenes@.len() ==> {
                        &&& (#[trigger] new.songs@[i].scenes@[j]).start_time
                            == old.songs@[i].scenes@[j].start_time
                        &&& new.songs@[i].scenes@[j].faders == old.songs@[i].scenes@[j].faders
                    }
            },
        new.rendered() == old.rendered(),
{
    let song = old.selected_song as int;
    assert forall|i: int| 0 <= i < old.songs@.len() implies {
        &&& (#[trigger] new.songs@[i]).selected_scene == old.songs@[i].selected_scene
        &&& new.songs@[i].scenes@.len() == old.songs@[i].scenes@.len()
        &&& forall|j: int|
            0 <= j < old.songs@[i].scenes@.len() ==> {
                &&& (#[trigger] new.songs@[i].scenes@[j]).start_time
                    == old.songs@[i].scenes@[j].start_time
                &&& new.songs@[i].scenes@[j].faders == old.songs@[i].scenes@[j].faders
            }
    } by {
        if i != song {
            assert(new.songs@[i] == old.songs@[i]);
        }
    }
    if song < old.songs@.len() {
        let scene = old.songs@[song].selected_scene as int;
        if scene < old.songs@[song].scenes@.len() {
            assert(new.songs@[song].scenes@[scene].faders == old.songs@[song].scenes@[scene].faders);
        }
    }
}

/// Asking again for the song and the scene that are selected restarts no
/// clock and changes nothing.
pub proof fn lemma_reselect_changes_nothing(old: Show, new: Show, patch: ShowUpdate, now: u64)
    requires
        new.applied_from(old, patch, now),
        patch.song is None || patch.song == Some(old.selected_song),
        patch.scene is Some && old.selected_song < old.songs@.len() ==> patch.scene == Some(
            old.songs@[old.selected_song as int].selected_scene,
        ),
        patch.tempo is None,
        patch.off is None,
    ensures
        new.selected_song == old.selected_song,
        new.selected_tempo == old.selected_tempo,
        new.off == old.off,
        forall|i: int|
            0 <= i < old.songs@.len() ==> {
                &&& (#[trigger] new.songs@[i]).selected_scene == old.songs@[i].selected_scene
                &&& forall|j: int|
                    0 <= j < old.songs@[i].scenes@.len() ==> (
                    #[trigger] new.songs@[i].scenes@[j]).start_time
                        == old.songs@[i].scenes@[j].start_time
            },
        new.rendered() == old.rendered(),
{
    lemma_no_switch_no_change(old, new, patch, now);
}

/// Asking for a song or a scene that does not exist leaves the selection
/// and the frame as they were.
pub proof fn lemma_out_of_range_ignored(old: Show, new: Show, patch: ShowUpdate, now: u64)
    requires
        new.applied_from(old, patch, now),
        patch.off is None,
        patch.song is Some ==> patch.song.unwrap() >= old.songs@.len(),
        patch.scene is Some && old.selected_song < old.songs@.len() ==> patch.scene.unwrap()
            >= old.songs@[old.selected_song as int].scenes@.len(),
    ensures
        new.selected_song == old.selected_song,
        forall|i: int|
            0 <= i < old.songs@.len() ==> (#[trigger] new.songs@[i]).selected_scene
                == old.songs@[i].selected_scene,
        new.off == old.off,
        new.rendered() == old.rendered(),
{
    lemma_no_switch_no_change(old, new, patch, now);
}

/// A patch with `off` makes the frame dark on every channel.
pub proof fn lemma_off_darkens(old: Show, new: Show, patch: ShowUpdate, now: u64)
    requires
        new.applied_from(old, patch, now),
        patch.off is Some,
    ensures
        new.off,
        new.rendered() == blank_frame(),
        forall|c: int| 0 <= c < 512 ==> new.rendered()[c] == 0,
{
}

/// A patch that switches the song and carries no `off` clears the mute
/// switch, whatever it was.
pub proof fn lemma_switch_unmutes(old: Show, new: Show, patch: ShowUpdate, now: u64)
    requires
        new.applied_from(old, patch, now),
        old.song_switch(patch) || old.scene_switch(patch),
        patch.off is None,
    ensures
        !new.off,
{
}

/// Rendering a cycle moves neither the selection nor the mute switch, and a
/// muted show stays dark.
pub proof fn lemma_advance_keeps_selection(
    old: Show,
    new: Show,
    now: u64,
    notes: Seq<Option<u8>>,
    midi_faders: bool,
    table: Seq<u16>,
)
    requires
        new.advanced_from(old, now, notes, midi_faders, table),
    ensures
        new.selected_song == old.selected_song,
        new.off == old.off,
        forall|i: int|
            0 <= i < old.songs@.len() ==> (#[trigger] new.songs@[i]).selected_scene
                == old.songs@[i].selected_scene,
        old.off ==> new.rendered() == blank_frame(),
{
    assert forall|i: int| 0 <= i < old.songs@.len() implies (#[trigger] new.songs@[i]).selected_scene
        == old.songs@[i].selected_scene by {
        if i != old.selected_song {
            assert(new.songs@[i] == old.songs@[i]);
        }
    }
}

} // verus!
