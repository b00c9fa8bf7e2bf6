//! Binary framing of the host-facing status protocol.
//!
//! Every frame starts with one tag byte that selects the variant; the
//! two host-to-device commands carry no payload, and the two
//! device-to-host frames carry the flattened measurement payload as a
//! fixed-order, fixed-width, big-endian field sequence with no length
//! prefixes. Subscription is a single boolean per session, toggled only
//! by the two commands. Frames longer than one bus packet are split
//! into maximal packets for the endpoint writer.

use vstd::prelude::*;

use crate::data_types::AllMeasurementsUsbPayload;

verus! {

pub const USB_TAG_SUBSCRIBE: u8 = 0x00;
pub const USB_TAG_UNSUBSCRIBE: u8 = 0x01;
pub const USB_TAG_STATUS_RESPONSE: u8 = 0x80;
pub const USB_TAG_STATUS_PUSH: u8 = 0xC0;

/// A frame of the host protocol: two host-to-device commands and two
/// device-to-host status frames.
#[derive(Clone, Copy, Debug, PartialEq, Eq, Structural)]
pub enum UsbData {
    SubscribeStatus,
    UnsubscribeStatus,
    StatusResponse(AllMeasurementsUsbPayload),
    StatusPush(AllMeasurementsUsbPayload),
}

/// Big-endian bytes of a 16-bit value.
pub open spec fn spec_u16_be(v: u16) -> Seq<u8> {
    seq![(v >> 8) as u8, v as u8]
}

/// Big-endian bytes of a 16-bit signed value: its two's-complement image.
pub open spec fn spec_i16_be(v: i16) -> Seq<u8> {
    spec_u16_be(v as u16)
}

/// Big-endian bytes of a 32-bit value.
pub open spec fn spec_u32_be(v: u32) -> Seq<u8> {
    seq![(v >> 24) as u8, (v >> 16) as u8, (v >> 8) as u8, v as u8]
}

/// Big-endian bytes of a 32-bit signed value: its two's-complement image.
pub open spec fn spec_i32_be(v: i32) -> Seq<u8> {
    spec_u32_be(v as u32)
}

/// The big-endian image of a 16-bit value determines the value: the
/// encoding loses nothing.
pub proof fn lemma_u16_be_reconstruct(v: u16)
    ensures
        (spec_u16_be(v)[0] as u16) * 256 + (spec_u16_be(v)[1] as u16) == v,
{
    assert(((v >> 8) as u8 as u16) * 256 + (v as u8 as u16) == v) by (bit_vector);
}

/// The big-endian image of a 32-bit value determines the value.
pub proof fn lemma_u32_be_reconstruct(v: u32)
    ensures
        (spec_u32_be(v)[0] as u32) * 0x1000000 + (spec_u32_be(v)[1] as u32) * 0x10000 + (
        spec_u32_be(v)[2] as u32) * 0x100 + (spec_u32_be(v)[3] as u32) == v,
{
    assert(((v >> 24) as u8 as u32) * 0x1000000 + ((v >> 16) as u8 as u32) * 0x10000 + ((v
        >> 8) as u8 as u32) * 0x100 + (v as u8 as u32) == v) by (bit_vector);
}

fn push_u8(buf: &mut Vec<u8>, v: u8)
    ensures
        final(buf)@ == old(buf)@ + seq![v],
{
    buf.push(v);
    proof {
        assert(buf@ =~= old(buf)@ + seq![v]);
    }
}

fn push_u16_be(buf: &mut Vec<u8>, v: u16)
    ensures
        final(buf)@ == old(buf)@ + spec_u16_be(v),
{
    buf.push((v >> 8) as u8);
    buf.push(#[verifier::truncate] (v as u8));
    proof {
        assert(buf@ =~= old(buf)@ + spec_u16_be(v));
    }
}

fn push_i16_be(buf: &mut Vec<u8>, v: i16)
    ensures
        final(buf)@ == old(buf)@ + spec_i16_be(v),
{
    push_u16_be(buf, #[verifier::truncate] (v as u16));
}

fn push_u32_be(buf: &mut Vec<u8>, v: u32)
    ensures
        final(buf)@ == old(buf)@ + spec_u32_be(v),
{
    buf.push((v >> 24) as u8);
    buf.push(#[verifier::truncate] ((v >> 16) as u8));
    buf.push(#[verifier::truncate] ((v >> 8) as u8));
    buf.push(#[verifier::truncate] (v as u8));
    proof {
        assert(buf@ =~= old(buf)@ + spec_u32_be(v));
    }
}

fn push_i32_be(buf: &mut Vec<u8>, v: i32)
    ensures
        final(buf)@ == old(buf)@ + spec_i32_be(v),
{
    push_u32_be(buf, #[verifier::truncate] (v as u32));
}

/// The wire image of the measurement payload: every field in declaration
/// order, big-endian, with nothing between the fields.
pub open spec fn spec_payload_bytes(p: AllMeasurementsUsbPayload) -> Seq<u8> {
    spec_u16_be(p.bq25730_adc_vbat_mv) + spec_u16_be(p.bq25730_adc_vsys_mv) + spec_u16_be(
        p.bq25730_adc_ichg_ma,
    ) + spec_u16_be(p.bq25730_adc_idchg_ma) + spec_u16_be(p.bq25730_adc_iin_ma) + spec_u16_be(
        p.bq25730_adc_psys_mv,
    ) + spec_u16_be(p.bq25730_adc_vbus_mv) + spec_u16_be(p.bq25730_adc_cmpin_mv) + spec_i32_be(
        p.bq76920_cell1_mv,
    ) + spec_i32_be(p.bq76920_cell2_mv) + spec_i32_be(p.bq76920_cell3_mv) + spec_i32_be(
        p.bq76920_cell4_mv,
    ) + spec_i32_be(p.bq76920_cell5_mv) + spec_i16_be(p.bq76920_ts1_temp_0_01c) + seq![
        p.bq76920_ts2_present,
    ] + spec_i16_be(p.bq76920_ts2_temp_0_01c) + seq![p.bq76920_ts3_present] + spec_i16_be(
        p.bq76920_ts3_temp_0_01c,
    ) + seq![p.bq76920_is_thermistor] + spec_i32_be(p.bq76920_current_ma) + seq![
        p.bq76920_system_status_mask,
    ] + seq![p.bq76920_mos_status_mask] + spec_i32_be(p.ina226_voltage_mv) + spec_i32_be(
        p.ina226_current_ma,
    ) + spec_i32_be(p.ina226_power_mw) + spec_u16_be(p.bq25730_charger_status_flags) + spec_u16_be(
        p.bq25730_prochot_status_flags,
    ) + seq![p.bq76920_alerts_system_status_mask]
}

/// Append the payload's wire image to `buf`.
fn write_payload(buf: &mut Vec<u8>, p: &AllMeasurementsUsbPayload)
    ensures
        final(buf)@ == old(buf)@ + spec_payload_bytes(*p),
{
    push_u16_be(buf, p.bq25730_adc_vbat_mv);
    push_u16_be(buf, p.bq25730_adc_vsys_mv);
    push_u16_be(buf, p.bq25730_adc_ichg_ma);
    push_u16_be(buf, p.bq25730_adc_idchg_ma);
    push_u16_be(buf, p.bq25730_adc_iin_ma);
    push_u16_be(buf, p.bq25730_adc_psys_mv);
    push_u16_be(buf, p.bq25730_adc_vbus_mv);
    push_u16_be(buf, p.bq25730_adc_cmpin_mv);
    push_i32_be(buf, p.bq76920_cell1_mv);
    push_i32_be(buf, p.bq76920_cell2_mv);
    push_i32_be(buf, p.bq76920_cell3_mv);
    push_i32_be(buf, p.bq76920_cell4_mv);
    push_i32_be(buf, p.bq76920_cell5_mv);
    push_i16_be(buf, p.bq76920_ts1_temp_0_01c);
    push_u8(buf, p.bq76920_ts2_present);
    push_i16_be(buf, p.bq76920_ts2_temp_0_01c);
    push_u8(buf, p.bq76920_ts3_present);
    push_i16_be(buf, p.bq76920_ts3_temp_0_01c);
    push_u8(buf, p.bq76920_is_thermistor);
    push_i32_be(buf, p.bq76920_current_ma);
    push_u8(buf, p.bq76920_system_status_mask);
    push_u8(buf, p.bq76920_mos_status_mask);
    push_i32_be(buf, p.ina226_voltage_mv);
    push_i32_be(buf, p.ina226_current_ma);
    push_i32_be(buf, p.ina226_power_mw);
    push_u16_be(buf, p.bq25730_charger_status_flags);
    push_u16_be(buf, p.bq25730_prochot_status_flags);
    push_u8(buf, p.bq76920_alerts_system_status_mask);
}

/// The wire image of a whole frame: its tag byte, then the payload where
/// the variant carries one.
pub open spec fn spec_usb_data_bytes(d: UsbData) -> Seq<u8> {
    match d {
        UsbData::SubscribeStatus => seq![USB_TAG_SUBSCRIBE],
        UsbData::UnsubscribeStatus => seq![USB_TAG_UNSUBSCRIBE],
        UsbData::StatusResponse(p) => seq![USB_TAG_STATUS_RESPONSE] + spec_payload_bytes(p),
        UsbData::StatusPush(p) => seq![USB_TAG_STATUS_PUSH] + spec_payload_bytes(p),
    }
}

impl UsbData {
    /// Serialize this frame for the wire.
    pub fn encode(&self) -> (r: Vec<u8>)
        ensures
            r@ == spec_usb_data_bytes(*self),
    {
        let mut buf: Vec<u8> = Vec::new();
        match self {
            UsbData::SubscribeStatus => {
                push_u8(&mut buf, USB_TAG_SUBSCRIBE);
            },
            UsbData::UnsubscribeStatus => {
                push_u8(&mut buf, USB_TAG_UNSUBSCRIBE);
            },
            UsbData::StatusResponse(p) => {
                push_u8(&mut buf, USB_TAG_STATUS_RESPONSE);
                write_payload(&mut buf, p);
            },
            UsbData::StatusPush(p) => {
                push_u8(&mut buf, USB_TAG_STATUS_PUSH);
                write_payload(&mut buf, p);
            },
        }
        proof {
            assert(buf@ =~= spec_usb_data_bytes(*self));
        }
        buf
    }
}

/// What a received host-to-device buffer means: the subscribe command,
/// the unsubscribe command, or nothing the protocol knows.
pub open spec fn spec_parse_command(data: Seq<u8>) -> Option<UsbData> {
    if data.len() >= 1 && data[0] == USB_TAG_SUBSCRIBE {
        Some(UsbData::SubscribeStatus)
    } else if data.len() >= 1 && data[0] == USB_TAG_UNSUBSCRIBE {
        Some(UsbData::UnsubscribeStatus)
    } else {
        None
    }
}

/// Parse a received buffer as a host command; only the two command tags
/// are accepted, anything else is rejected.
pub fn parse_command(data: &[u8]) -> (r: Option<UsbData>)
    ensures
        r == spec_parse_command(data@),
{
    if data.len() >= 1 {
        let tag = data[0];
        if tag == USB_TAG_SUBSCRIBE {
            Some(UsbData::SubscribeStatus)
        } else if tag == USB_TAG_UNSUBSCRIBE {
            Some(UsbData::UnsubscribeStatus)
        } else {
            None
        }
    } else {
        None
    }
}

/// Effect of one host command on a session.
#[derive(Clone, Copy, Debug, PartialEq, Eq, Structural)]
pub struct CommandOutcome {
    /// The session's subscription flag after the command.
    pub subscription_active: bool,
    /// Whether a status response frame is owed to the host now.
    pub respond_with_status: bool,
}

/// How a session reacts to a frame: subscribing turns the flag on and
/// owes an immediate status response, unsubscribing turns it off with no
/// response, and a device-to-host frame arriving as a command changes
/// nothing.
pub open spec fn spec_process_command(subscription_active: bool, cmd: UsbData) -> CommandOutcome {
    match cmd {
        UsbData::SubscribeStatus => CommandOutcome {
            subscription_active: true,
            respond_with_status: true,
        },
        UsbData::UnsubscribeStatus => CommandOutcome {
            subscription_active: false,
            respond_with_status: false,
        },
        _ => CommandOutcome { subscription_active, respond_with_status: false },
    }
}

/// Apply one received command to the session's subscription flag.
pub fn process_command(subscription_active: bool, cmd: &UsbData) -> (r: CommandOutcome)
    ensures
        r == spec_process_command(subscription_active, *cmd),
{
    match cmd {
        UsbData::SubscribeStatus => CommandOutcome {
            subscription_active: true,
            respond_with_status: true,
        },
        UsbData::UnsubscribeStatus => CommandOutcome {
            subscription_active: false,
            respond_with_status: false,
        },
        _ => CommandOutcome { subscription_active, respond_with_status: false },
    }
}

/// The push frame owed this cycle: the payload framed as a status push
/// while a subscription is active, nothing while it is not.
pub fn status_push_frame(subscription_active: bool, payload: &AllMeasurementsUsbPayload) -> (r:
    Option<Vec<u8>>)
    ensures
        subscription_active <==> r is Some,
        r matches Some(v) ==> v@ == spec_usb_data_bytes(UsbData::StatusPush(*payload)),
{
    if subscription_active {
        Some(UsbData::StatusPush(*payload).encode())
    } else {
        None
    }
}

/// Split a frame into bus packets: every packet is full except possibly
/// the last, no packet exceeds `max_packet`, and the packets concatenate
/// back to the frame.
pub fn packetize(frame: &Vec<u8>, max_packet: usize) -> (r: Vec<Vec<u8>>)
    requires
        max_packet >= 1,
    ensures
        r@.map_values(|c: Vec<u8>| c@).flatten() == frame@,
        forall|i: int| 0 <= i < r@.len() ==> 1 <= #[trigger] r@[i]@.len() <= max_packet,
        forall|i: int| 0 <= i < r@.len() - 1 ==> #[trigger] r@[i]@.len() == max_packet,
{
    let n = frame.len();
    let mut r: Vec<Vec<u8>> = Vec::new();
    let mut cur: usize = 0;
    proof {
        assert(r@.map_values(|c: Vec<u8>| c@).flatten() =~= frame@.subrange(0, 0));
    }
    while cur < n
        invariant
            n == frame@.len(),
            cur <= frame@.len(),
            max_packet >= 1,
            r@.map_values(|c: Vec<u8>| c@).flatten() == frame@.subrange(0, cur as int),
            forall|i: int| 0 <= i < r@.len() ==> 1 <= #[trigger] r@[i]@.len() <= max_packet,
            forall|i: int| 0 <= i < r@.len() ==> #[trigger] r@[i]@.len() == max_packet,
        decreases frame@.len() - cur,
    {
        let remaining = n - cur;
        let size = if remaining < max_packet {
            remaining
        } else {
            max_packet
        };
        let mut chunk: Vec<u8> = Vec::new();
        let mut j: usize = 0;
        proof {
            assert(chunk@ =~= frame@.subrange(cur as int, cur as int));
        }
        while j < size
            invariant
                j <= size,
                n == frame@.len(),
                cur + size <= n,
                chunk@ == frame@.subrange(cur as int, cur + j),
            decreases size - j,
        {
            chunk.push(frame[cur + j]);
            proof {
                assert(chunk@ =~= frame@.subrange(cur as int, cur + j + 1));
            }
            j = j + 1;
        }
        proof {
            let ghost seqs = r@.map_values(|c: Vec<u8>| c@);
            seqs.lemma_flatten_push(chunk@);
            assert(r@.push(chunk).map_values(|c: Vec<u8>| c@) =~= seqs.push(chunk@));
            assert(seqs.flatten() + chunk@ =~= frame@.subrange(0, cur + size));
        }
        r.push(chunk);
        if size < max_packet {
            // Only the last packet may be partial; the loop ends here.
            proof {
                assert(r@.map_values(|c: Vec<u8>| c@).flatten() =~= frame@.subrange(
                    0,
                    frame@.len() as int,
                ));
                assert(frame@.subrange(0, frame@.len() as int) =~= frame@);
            }
            return r;
        }
        cur = cur + size;
    }
    proof {
        assert(frame@.subrange(0, cur as int) =~= frame@);
    }
    r
}

} // verus!
