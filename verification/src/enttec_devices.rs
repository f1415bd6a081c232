//! The protocol encoder: frames channel data for an Enttec-style DMX
//! interface on a serial line. The encoder keeps track of whether the line
//! is open and produces the bytes to put on it; the caller owns the line.

use vstd::prelude::*;

verus! {

pub const SET_PARAMETERS_COMMAND: u8 = 4;

pub const SEND_PACKET_COMMAND: u8 = 6;

/// First byte of every message.
pub const START_VAL: u8 = 0x7E;

/// Last byte of every message.
pub const END_VAL: u8 = 0xE7;

/// The interface takes no frame shorter than this.
pub const MIN_FRAME_SIZE: usize = 24;

/// Channels in one universe.
pub const MAX_FRAME_SIZE: usize = 512;

/// Why the interface could not be used.
#[derive(Clone, Copy, PartialEq, Eq, Debug, Structural)]
pub enum Error {
    /// The serial line could not be opened.
    Serial,
    /// A write to the serial line failed.
    IO,
    /// The interface has not been opened.
    PortClosed,
}

/// The frame as it is sent: filled with zeros up to 24 channels, cut after
/// 512, and unchanged in between.
pub open spec fn sized_frame(frame: Seq<u8>) -> Seq<u8> {
    if frame.len() < 24 {
        frame + Seq::new((24 - frame.len()) as nat, |i: int| 0u8)
    } else if frame.len() <= 512 {
        frame
    } else {
        frame.subrange(0, 512)
    }
}

/// The length that a message announces: the payload, and the pad byte if
/// there is one.
pub open spec fn announced_size(payload: Seq<u8>, pad: bool) -> int {
    payload.len() + if pad {
        1int
    } else {
        0int
    }
}

/// One message on the wire: start byte, command, the announced length with
/// its low byte first, a zero pad byte if asked for, the payload, end byte.
pub open spec fn encode_packet(command: u8, payload: Seq<u8>, pad: bool) -> Seq<u8> {
    let size = announced_size(payload, pad);
    seq![START_VAL, command, (size % 256) as u8, ((size / 256) % 256) as u8] + (if pad {
        seq![0u8]
    } else {
        Seq::<u8>::empty()
    }) + payload + seq![END_VAL]
}

/// The payload of the message that sets the interface's parameters.
pub open spec fn params_payload(break_time: u8, mark_after_break_time: u8, output_rate: u8) -> Seq<
    u8,
> {
    seq![0u8, 0u8, break_time, mark_after_break_time, output_rate]
}

/// Fills or cuts a frame to a length that the interface takes.
pub fn size_frame(frame: &[u8]) -> (sized: Vec<u8>)
    ensures
        sized@ == sized_frame(frame@),
        24 <= sized@.len() <= 512,
{
    let input_size: usize = frame.len();
    let capacity: usize = if input_size < MIN_FRAME_SIZE {
        MIN_FRAME_SIZE
    } else if input_size <= MAX_FRAME_SIZE {
        input_size
    } else {
        MAX_FRAME_SIZE
    };
    let mut sized: Vec<u8> = Vec::with_capacity(capacity);
    let mut i: usize = 0;
    while i < capacity
        invariant
            i <= capacity,
            input_size == frame@.len(),
            24 <= capacity <= 512,
            capacity == sized_frame(frame@).len(),
            sized@.len() == i,
            forall|k: int| 0 <= k < i ==> sized@[k] == sized_frame(frame@)[k],
        decreases capacity - i,
    {
        if i < input_size {
            sized.push(frame[i]);
        } else {
            sized.push(0);
        }
        i += 1;
    }
    assert(sized@ =~= sized_frame(frame@));
    sized
}

/// Encodes one message.
pub fn encode(command: u8, paket: &[u8], add_pad_byte: bool) -> (bytes: Vec<u8>)
    requires
        paket@.len() + 6 <= usize::MAX,
    ensures
        bytes@ == encode_packet(command, paket@, add_pad_byte),
        bytes@.len() == paket@.len() + 5 + if add_pad_byte {
            1int
        } else {
            0int
        },
{
    let paket_size: usize = if add_pad_byte {
        paket.len() + 1
    } else {
        paket.len()
    };
    let mut bytes: Vec<u8> = Vec::new();
    bytes.push(START_VAL);
    bytes.push(command);
    bytes.push((paket_size % 256) as u8);
    bytes.push(((paket_size / 256) % 256) as u8);
    if add_pad_byte {
        bytes.push(0);
    }
    let ghost head = bytes@;
    let mut i: usize = 0;
    while i < paket.len()
        invariant
            i <= paket@.len(),
            bytes@ == head + paket@.take(i as int),
        decreases paket@.len() - i,
    {
        bytes.push(paket[i]);
        assert(paket@.take(i + 1) =~= paket@.take(i as int).push(paket@[i as int]));
        assert(bytes@ =~= head + paket@.take(i + 1));
        i += 1;
    }
    assert(paket@.take(i as int) =~= paket@);
    bytes.push(END_VAL);
    assert(bytes@ =~= encode_packet(command, paket@, add_pad_byte));
    bytes
}

/// The encoder's side of one interface.
pub struct Dmxis {
    open: bool,
    port_name: String,
    break_time: u8,
    mark_after_break_time: u8,
    output_rate: u8,
}

impl Dmxis {
    pub closed spec fn is_open_spec(&self) -> bool {
        self.open
    }

    pub closed spec fn port_name_spec(&self) -> Seq<char> {
        self.port_name@
    }

    /// The payload that this encoder sends when the interface is opened.
    pub closed spec fn params(&self) -> Seq<u8> {
        params_payload(self.break_time, self.mark_after_break_time, self.output_rate)
    }

    /// A closed encoder for the interface at `port_name_input`: a break of 9
    /// units, a mark after break of 1, 40 frames per second.
    pub fn new(port_name_input: &str) -> (dmxis: Dmxis)
        ensures
            !dmxis.is_open_spec(),
            dmxis.port_name_spec() == port_name_input@,
            dmxis.params() == params_payload(9, 1, 40),
    {
        Dmxis {
            open: false,
            port_name: port_name_input.to_owned(),
            break_time: 9,
            mark_after_break_time: 1,
            output_rate: 40,
        }
    }

    #[verifier::when_used_as_spec(is_open_spec)]
    pub fn is_open(&self) -> (open: bool)
        ensures
            open == self.is_open_spec(),
    {
        self.open
    }

    /// Name of the serial line.
    pub fn port_name(&self) -> (name: &String)
        ensures
            name@ == self.port_name_spec(),
    {
        &self.port_name
    }

    /// Opens the encoder. `link` says whether the caller could open the
    /// serial line. An open encoder stays as it is and has nothing to send.
    /// A closed one stays closed and hands the error back if the line failed;
    /// else it is open, and the result is the message that sets the
    /// interface's parameters, to be written first.
    pub fn open(&mut self, link: Result<(), Error>) -> (first: Result<Vec<u8>, Error>)
        ensures
            final(self).port_name_spec() == old(self).port_name_spec(),
            final(self).params() == old(self).params(),
            final(self).is_open_spec() == (old(self).is_open_spec() || link is Ok),
            first is Err <==> !old(self).is_open_spec() && link is Err,
            first is Err ==> first == Err::<Vec<u8>, Error>(link->Err_0),
            first is Ok && old(self).is_open_spec() ==> first->Ok_0@ == Seq::<u8>::empty(),
            first is Ok && !old(self).is_open_spec() ==> first->Ok_0@ == encode_packet(
                SET_PARAMETERS_COMMAND,
                old(self).params(),
                false,
            ),
    {
        if self.open {
            return Ok(Vec::new());
        }
        match link {
            Err(e) => Err(e),
            Ok(()) => {
                self.open = true;
                self.set_dmx_params()
            },
        }
    }

    /// Closes the encoder, as after a failed first write.
    pub fn close(&mut self)
        ensures
            !final(self).is_open_spec(),
            final(self).port_name_spec() == old(self).port_name_spec(),
            final(self).params() == old(self).params(),
    {
        self.open = false;
    }

    /// The message that sets the interface's parameters.
    pub fn set_dmx_params(&self) -> (message: Result<Vec<u8>, Error>)
        ensures
            self.is_open_spec() ==> message is Ok && message->Ok_0@ == encode_packet(
                SET_PARAMETERS_COMMAND,
                self.params(),
                false,
            ),
            !self.is_open_spec() ==> message == Err::<Vec<u8>, Error>(Error::PortClosed),
    {
        let packet: [u8; 5] = [0, 0, self.break_time, self.mark_after_break_time, self.output_rate];
        assert(packet@ =~= self.params());
        self.write_packet(SET_PARAMETERS_COMMAND, packet.as_slice(), false)
    }

    /// One message for the interface; `PortClosed` while the encoder is not
    /// open.
    pub fn write_packet(&self, command: u8, paket: &[u8], add_pad_byte: bool) -> (message: Result<
        Vec<u8>,
        Error,
    >)
        requires
            paket@.len() + 6 <= usize::MAX,
        ensures
            self.is_open_spec() ==> message is Ok && message->Ok_0@ == encode_packet(
                command,
                paket@,
                add_pad_byte,
            ),
            !self.is_open_spec() ==> message == Err::<Vec<u8>, Error>(Error::PortClosed),
    {
        if !self.open {
            return Err(Error::PortClosed);
        }
        Ok(encode(command, paket, add_pad_byte))
    }

    /// The message that sends one frame: the frame is filled or cut to a
    /// length between 24 and 512 and sent behind a pad byte. `PortClosed`
    /// while the encoder is not open.
    pub fn write(&self, frame: &[u8]) -> (message: Result<Vec<u8>, Error>)
        ensures
            self.is_open_spec() ==> message is Ok && message->Ok_0@ == encode_packet(
                SEND_PACKET_COMMAND,
                sized_frame(frame@),
                true,
            ),
            !self.is_open_spec() ==> message == Err::<Vec<u8>, Error>(Error::PortClosed),
    {
        let padded_frame: Vec<u8> = size_frame(frame);
        self.write_packet(SEND_PACKET_COMMAND, padded_frame.as_slice(), true)
    }
}

/// A message for a sized frame has the start byte first, then the command,
/// the length with its low byte first, the pad byte, the frame and the end
/// byte, and nothing else.
pub proof fn lemma_frame_layout(frame: Seq<u8>)
    ensures
        24 <= sized_frame(frame).len() <= 512,
        ({
            let payload = sized_frame(frame);
            let bytes = encode_packet(SEND_PACKET_COMMAND, payload, true);
            &&& bytes.len() == payload.len() + 6
            &&& bytes[0] == START_VAL
            &&& bytes[1] == SEND_PACKET_COMMAND
            &&& bytes[2] + 256 * bytes[3] == payload.len() + 1
            &&& bytes[4] == 0
            &&& bytes.subrange(5, 5 + payload.len() as int) == payload
            &&& bytes[bytes.len() - 1] == END_VAL
        }),
        frame.len() < 24 ==> sized_frame(frame).len() == 24 && sized_frame(frame).subrange(
            0,
            frame.len() as int,
        ) == frame && forall|i: int| frame.len() <= i < 24 ==> sized_frame(frame)[i] == 0,
        24 <= frame.len() <= 512 ==> sized_frame(frame) == frame,
        frame.len() > 512 ==> sized_frame(frame) == frame.subrange(0, 512),
{
    let payload = sized_frame(frame);
    let bytes = encode_packet(SEND_PACKET_COMMAND, payload, true);
    assert(bytes.subrange(5, 5 + payload.len() as int) =~= payload);
    if frame.len() < 24 {
        assert(sized_frame(frame).subrange(0, frame.len() as int) =~= frame);
    }
}

} // verus!
