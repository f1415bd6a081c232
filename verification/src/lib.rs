//! A real-time lighting-control engine: a show of songs, scenes and faders is
//! animated frame by frame and rendered into one DMX512 universe.

pub mod configuration;
pub mod definitions;
pub mod dmx_buffer;
pub mod enttec_devices;
pub mod faders;
pub mod midi_ports;
pub mod scheduler;
pub mod shows;
pub mod udp_sockets;
pub mod waveform;
