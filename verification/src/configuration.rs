//! The runtime parameters of the engine.

use vstd::prelude::*;

verus! {

/// What the engine is started with.
#[derive(Debug)]
pub struct BaseConfig {
    pub version: u8,
    pub dmx_serial_port_win: String,
    pub dmx_serial_port_osx: String,
    pub dmx_serial_port_other: String,
    pub show_path: String,
    /// MIDI channel that carries the cues, counted from 1.
    pub midi_channel: u8,
    pub midi_port: String,
    /// Whether faders that follow MIDI notes put out anything at all.
    pub midi_faders: bool,
    /// Frames per second.
    pub fps: u64,
    pub log_level: String,
}

/// How much is logged.
#[derive(Clone, Copy, PartialEq, Eq, Debug, Structural)]
pub enum LogLevel {
    Info,
    Warn,
    Trace,
    Debug,
    Error,
}

/// The level with the given name, if there is one.
pub open spec fn level_named(name: Seq<char>) -> Option<LogLevel> {
    if name == "info"@ {
        Some(LogLevel::Info)
    } else if name == "warn"@ {
        Some(LogLevel::Warn)
    } else if name == "trace"@ {
        Some(LogLevel::Trace)
    } else if name == "debug"@ {
        Some(LogLevel::Debug)
    } else if name == "error"@ {
        Some(LogLevel::Error)
    } else {
        None
    }
}

/// Whether `text` is exactly `name`.
pub fn named(text: &String, name: &str) -> (same: bool)
    ensures
        same == (text@ == name@),
{
    let wanted: String = name.to_owned();
    *text == wanted
}

impl BaseConfig {
    /// The level that `log_level` names; `None` if it names none, in which
    /// case warnings and errors are to be logged.
    pub fn level(&self) -> (level: Option<LogLevel>)
        ensures
            level == level_named(self.log_level@),
    {
        if named(&self.log_level, "info") {
            Some(LogLevel::Info)
        } else if named(&self.log_level, "warn") {
            Some(LogLevel::Warn)
        } else if named(&self.log_level, "trace") {
            Some(LogLevel::Trace)
        } else if named(&self.log_level, "debug") {
            Some(LogLevel::Debug)
        } else if named(&self.log_level, "error") {
            Some(LogLevel::Error)
        } else {
            None
        }
    }
}

impl Default for BaseConfig {
    fn default() -> (config: BaseConfig)
        ensures
            config.version == 0,
            config.dmx_serial_port_win@ == "COM-1"@,
            config.dmx_serial_port_osx@ == "/dev/tty.usbserial-ENVVVC0F"@,
            config.dmx_serial_port_other@ == "/dev/ttyUSB0"@,
            config.show_path@ == "default_show"@,
            config.midi_channel == 1,
            config.midi_port@ == "M-Audio MIDISPORT Uno"@,
            !config.midi_faders,
            config.fps == 20,
            config.log_level@ == "info"@,
    {
        BaseConfig {
            version: 0,
            dmx_serial_port_win: "COM-1".to_owned(),
            dmx_serial_port_osx: "/dev/tty.usbserial-ENVVVC0F".to_owned(),
            dmx_serial_port_other: "/dev/ttyUSB0".to_owned(),
            show_path: "default_show".to_owned(),
            midi_channel: 1,
            midi_port: "M-Audio MIDISPORT Uno".to_owned(),
            midi_faders: false,
            fps: 20,
            log_level: "info".to_owned(),
        }
    }
}

} // verus!
