use rustylight::dmx_buffer::DmxBuffer;
use rustylight::enttec_devices::{encode, size_frame, Dmxis, Error};

fn opened() -> Dmxis {
    let mut d = Dmxis::new("/dev/ttyUSB0");
    d.open(Ok(())).unwrap();
    d
}

#[test]
fn short_frame_is_padded_to_24() {
    let frame: Vec<u8> = (1..=10).collect();
    let bytes = opened().write(&frame).unwrap();
    assert_eq!(bytes.len(), 30);
    assert_eq!(&bytes[..5], &[0x7E, 6, 25, 0, 0]);
    assert_eq!(&bytes[5..15], &frame[..]);
    assert_eq!(&bytes[15..29], &[0u8; 14]);
    assert_eq!(bytes[29], 0xE7);
}

#[test]
fn long_frame_is_cut_to_512() {
    let frame: Vec<u8> = (0..600u32).map(|i| (i % 251) as u8).collect();
    let bytes = opened().write(&frame).unwrap();
    assert_eq!(bytes.len(), 518);
    assert_eq!(&bytes[..5], &[0x7E, 6, 1, 2, 0]);
    assert_eq!(&bytes[5..517], &frame[..512]);
    assert_eq!(bytes[517], 0xE7);
}

#[test]
fn frame_in_range_passes_unchanged() {
    let frame: Vec<u8> = (0..100).collect();
    let bytes = opened().write(&frame).unwrap();
    assert_eq!(bytes.len(), 106);
    assert_eq!(&bytes[..5], &[0x7E, 6, 101, 0, 0]);
    assert_eq!(&bytes[5..105], &frame[..]);
    assert_eq!(bytes[105], 0xE7);
    assert_eq!(size_frame(&[7u8; 24]), vec![7u8; 24]);
    assert_eq!(size_frame(&[7u8; 512]), vec![7u8; 512]);
    assert_eq!(size_frame(&[7u8; 513]), vec![7u8; 512]);
    assert_eq!(size_frame(&[]), vec![0u8; 24]);
    let mut padded = vec![7u8; 23];
    padded.push(0);
    assert_eq!(size_frame(&[7u8; 23]), padded);
}

#[test]
fn closed_encoder_refuses_to_write() {
    let d = Dmxis::new("/dev/ttyUSB0");
    assert!(!d.is_open());
    assert_eq!(d.port_name(), "/dev/ttyUSB0");
    assert_eq!(d.write(&[1, 2, 3]), Err(Error::PortClosed));
    assert_eq!(d.set_dmx_params(), Err(Error::PortClosed));
    assert_eq!(d.write_packet(6, &[1], true), Err(Error::PortClosed));
}

#[test]
fn open_sends_the_parameters_once() {
    let mut d = Dmxis::new("COM-1");
    let first = d.open(Ok(())).unwrap();
    assert_eq!(first, vec![0x7E, 4, 5, 0, 0, 0, 9, 1, 40, 0xE7]);
    assert!(d.is_open());
    assert_eq!(d.open(Ok(())).unwrap(), Vec::<u8>::new());
    assert_eq!(d.open(Err(Error::Serial)).unwrap(), Vec::<u8>::new());
    assert!(d.is_open());
    assert_eq!(d.set_dmx_params().unwrap(), first);
}

#[test]
fn failed_open_leaves_the_encoder_closed() {
    let mut d = Dmxis::new("COM-1");
    assert_eq!(d.open(Err(Error::Serial)), Err(Error::Serial));
    assert!(!d.is_open());
    assert_eq!(d.open(Err(Error::IO)), Err(Error::IO));
    d.open(Ok(())).unwrap();
    d.close();
    assert!(!d.is_open());
    assert_eq!(d.write(&[0]), Err(Error::PortClosed));
}

#[test]
fn packet_layout() {
    assert_eq!(encode(9, &[], false), vec![0x7E, 9, 0, 0, 0xE7]);
    assert_eq!(encode(9, &[], true), vec![0x7E, 9, 1, 0, 0, 0xE7]);
    assert_eq!(encode(6, &[1, 2, 3], true), vec![0x7E, 6, 4, 0, 0, 1, 2, 3, 0xE7]);
    assert_eq!(encode(6, &[1, 2, 3], false), vec![0x7E, 6, 3, 0, 1, 2, 3, 0xE7]);
    let long = encode(6, &[5u8; 255], true);
    assert_eq!(&long[..4], &[0x7E, 6, 0, 1]);
    let longer = encode(6, &vec![5u8; 70000], false);
    assert_eq!(&longer[..4], &[0x7E, 6, 112, 17]);
    assert_eq!(longer.len(), 70005);
}

#[test]
fn buffer_starts_dark_and_takes_values() {
    let mut b = DmxBuffer::new();
    assert_eq!(b.get_values(), [0u8; 512]);
    b.set_value(0, 1);
    b.set_value(511, 2);
    b.set_value(512, 3);
    b.set_value(usize::MAX, 4);
    let v = b.get_values();
    assert_eq!((v[0], v[511]), (1, 2));
    assert_eq!(v.iter().filter(|x| **x != 0).count(), 2);
    b.reset();
    assert_eq!(b.get_values(), [0u8; 512]);
    b.set_values([9u8; 512]);
    assert_eq!(b.get_values(), [9u8; 512]);
}

#[test]
fn buffer_writes_a_run_at_an_offset() {
    let mut b = DmxBuffer::new();
    b.write_at_index(10, vec![1, 2, 3]);
    let v = b.get_values();
    assert_eq!(&v[9..14], &[0, 1, 2, 3, 0]);
    b.write_at_index(255, vec![7u8; 300]);
    let v = b.get_values();
    assert_eq!(v[254], 0);
    assert_eq!(&v[255..512], &[7u8; 257][..]);
    assert_eq!(&v[10..13], &[1, 2, 3]);
    b.write_at_index(0, Vec::new());
    assert_eq!(b.get_values(), v);
}
