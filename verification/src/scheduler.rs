//! The fixed-rate scheduler: how long a frame lasts, and what to do with the
//! rest of it once a cycle's work is done.

use crate::configuration::BaseConfig;
use crate::enttec_devices::{encode_packet, sized_frame, Dmxis, Error, SEND_PACKET_COMMAND};
use crate::shows::{Show, ShowUpdate};
use crate::waveform::SineTable;
use vstd::prelude::*;

verus! {

/// How a cycle ends.
#[derive(Clone, Copy, PartialEq, Eq, Debug, Structural)]
pub struct FramePlan {
    /// Whole frames that the cycle overran.
    pub dropped: u64,
    /// Milliseconds to sleep before the next cycle.
    pub sleep_ms: u64,
}

/// The plan for a cycle that took `elapsed` of a frame of `frame_duration`
/// milliseconds: within the frame, sleep for the rest of it; past it, count
/// the whole frames that were missed and sleep for what the cycle has used
/// of the frame it ended in.
pub open spec fn frame_plan(elapsed: u64, frame_duration: u64) -> FramePlan {
    if elapsed < frame_duration {
        FramePlan { dropped: 0, sleep_ms: (frame_duration - elapsed) as u64 }
    } else {
        FramePlan {
            dropped: (elapsed as int / frame_duration as int) as u64,
            sleep_ms: (elapsed as int % frame_duration as int) as u64,
        }
    }
}

/// Milliseconds per frame at `fps` frames per second, rounded down; none if
/// that is no rate (0) or leaves a frame no millisecond (over 1000).
pub fn frame_duration(fps: u64) -> (duration: Option<u64>)
    ensures
        duration is Some <==> 1 <= fps <= 1000,
        duration is Some ==> duration.unwrap() == 1000int / fps as int && duration.unwrap() >= 1,
{
    if 1 <= fps && fps <= 1000 {
        assert(1000int / (fps as int) >= 1) by (nonlinear_arith)
            requires
                1 <= fps <= 1000,
        ;
        Some(1000 / fps)
    } else {
        None
    }
}

/// Decides how a cycle ends. The scheduler never catches up: after an
/// overrun it waits for less than one frame.
pub fn plan_sleep(elapsed: u64, frame_duration: u64) -> (plan: FramePlan)
    requires
        frame_duration > 0,
    ensures
        plan == frame_plan(elapsed, frame_duration),
        plan.sleep_ms <= frame_duration,
        plan.dropped * frame_duration <= elapsed,
{
    if elapsed < frame_duration {
        FramePlan { dropped: 0, sleep_ms: frame_duration - elapsed }
    } else {
        proof {
            vstd::arithmetic::div_mod::lemma_fundamental_div_mod(
                elapsed as int,
                frame_duration as int,
            );
            vstd::arithmetic::div_mod::lemma_mod_bound(elapsed as int, frame_duration as int);
            assert((elapsed as int / frame_duration as int) * frame_duration
                == frame_duration as int * (elapsed as int / frame_duration as int))
                by (nonlinear_arith);
        }
        FramePlan { dropped: elapsed / frame_duration, sleep_ms: elapsed % frame_duration }
    }
}

/// The work of one cycle at `now_ms`: the patch is applied, the selected
/// scene is rendered, and the frame is encoded for the interface. The result
/// is the message to put on the serial line, or `PortClosed` if the interface
/// is not open; the show is updated either way.
pub fn run_cycle(
    show: &mut Show,
    dmx_port: &Dmxis,
    update: ShowUpdate,
    now_ms: u64,
    config: &BaseConfig,
    table: &SineTable,
) -> (message: Result<Vec<u8>, Error>)
    ensures
        exists|applied: Show|
            {
                &&& #[trigger] applied.applied_from(*old(show), update, now_ms)
                &&& final(show).advanced_from(
                    applied,
                    now_ms,
                    update.notes@,
                    config.midi_faders,
                    table@,
                )
            },
        dmx_port.is_open_spec() ==> message is Ok && message->Ok_0@ == encode_packet(
            SEND_PACKET_COMMAND,
            sized_frame(final(show).rendered()),
            true,
        ),
        !dmx_port.is_open_spec() ==> message == Err::<Vec<u8>, Error>(Error::PortClosed),
{
    show.update_state(update, now_ms, config, table);
    let dmx_data: [u8; 512] = show.get_dmx_data();
    dmx_port.write(dmx_data.as_slice())
}

} // verus!
