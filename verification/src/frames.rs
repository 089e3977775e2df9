//! GIP frames sent to and received from the controller's ring buffer.
//!
//! Every frame starts with the 4-byte GIP header `[command, flags, sequence,
//! payload length]`. The functions here build the frames the tools send and
//! decide what to do with the frames read back.

use vstd::prelude::*;

verus! {

/// A GIP frame: the 4-byte header followed by the payload. The length
/// byte holds the payload length modulo 256.
pub open spec fn spec_frame(cmd: u8, flags: u8, seq: u8, payload: Seq<u8>) -> Seq<u8> {
    seq![cmd, flags, seq, (payload.len() % 256) as u8] + payload
}

/// Build a GIP frame.
pub fn build_frame(cmd: u8, flags: u8, seq: u8, payload: &[u8]) -> (res: Vec<u8>)
    ensures
        res@ == spec_frame(cmd, flags, seq, payload@),
{
    let mut pkt: Vec<u8> = Vec::new();
    pkt.push(cmd);
    pkt.push(flags);
    pkt.push(seq);
    pkt.push((payload.len() % 256) as u8);
    let mut i: usize = 0;
    while i < payload.len()
        invariant
            i <= payload.len(),
            pkt@ == seq![cmd, flags, seq, (payload@.len() % 256) as u8] + payload@.subrange(
                0,
                i as int,
            ),
        decreases payload.len() - i,
    {
        pkt.push(payload[i]);
        i = i + 1;
        proof {
            assert(pkt@ =~= seq![cmd, flags, seq, (payload@.len() % 256) as u8] + payload@.subrange(
                0,
                i as int,
            ));
        }
    }
    proof {
        assert(payload@.subrange(0, payload.len() as int) =~= payload@);
    }
    pkt
}

/// A 0x4D vendor command frame.
pub fn vendor_frame(seq: u8, payload: &[u8]) -> (res: Vec<u8>)
    ensures
        res@ == spec_frame(0x4D, 0x10, seq, payload@),
{
    build_frame(0x4D, 0x10, seq, payload)
}

/// A 0x1E system command frame.
pub fn system_frame(seq: u8, payload: &[u8]) -> (res: Vec<u8>)
    ensures
        res@ == spec_frame(0x1E, 0x30, seq, payload@),
{
    build_frame(0x1E, 0x30, seq, payload)
}

/// The payload of a profile page read request: sub 0x02, page, size.
pub open spec fn spec_read_page_payload(page: u8, size: u8) -> Seq<u8> {
    seq![0x02u8, page, size]
}

/// The vendor payload of a page read request.
pub fn read_page_request(page: u8, size: u8) -> (res: [u8; 3])
    ensures
        res@ == spec_read_page_payload(page, size),
{
    let r: [u8; 3] = [0x02, page, size];
    proof {
        assert(r@ =~= spec_read_page_payload(page, size));
    }
    r
}

/// A profile page write frame: vendor sub 0x01, the page address, its size
/// and the page bytes.
pub open spec fn spec_write_page_frame(seq: u8, page: u8, data: Seq<u8>) -> Seq<u8> {
    spec_frame(0x4D, 0x10, seq, seq![0x01u8, page, (data.len() % 256) as u8] + data)
}

/// Build the frame that writes a profile page.
pub fn write_page_frame(seq: u8, page: u8, data: &[u8]) -> (res: Vec<u8>)
    requires
        data@.len() + 3 <= usize::MAX,
    ensures
        res@ == spec_write_page_frame(seq, page, data@),
{
    let mut payload: Vec<u8> = Vec::new();
    payload.push(0x01);
    payload.push(page);
    payload.push((data.len() % 256) as u8);
    let mut i: usize = 0;
    while i < data.len()
        invariant
            i <= data.len(),
            payload@ == seq![0x01u8, page, (data@.len() % 256) as u8] + data@.subrange(0, i as int),
        decreases data.len() - i,
    {
        payload.push(data[i]);
        i = i + 1;
        proof {
            assert(payload@ =~= seq![0x01u8, page, (data@.len() % 256) as u8] + data@.subrange(
                0,
                i as int,
            ));
        }
    }
    proof {
        assert(data@.subrange(0, data.len() as int) =~= data@);
    }
    build_frame(0x4D, 0x10, seq, payload.as_slice())
}

/// The page bytes carried by a page read response: the response payload
/// (after the 4-byte header) must be at least 4 bytes and start with sub
/// 0x02; the page follows its 4-byte sub-header.
pub open spec fn spec_page_from_response(resp: Seq<u8>) -> Option<Seq<u8>> {
    let payload = resp.subrange(4, resp.len() as int);
    if payload.len() < 4 || payload[0] != 0x02 {
        None
    } else {
        Some(payload.subrange(4, payload.len() as int))
    }
}

/// Extract the page bytes from a page read response.
pub fn page_from_response(resp: &[u8]) -> (res: Option<Vec<u8>>)
    requires
        resp@.len() >= 4,
    ensures
        match spec_page_from_response(resp@) {
            Some(p) => res matches Some(v) && v@ == p,
            None => res is None,
        },
{
    if resp.len() < 8 || resp[4] != 0x02 {
        return None;
    }
    let mut v: Vec<u8> = Vec::new();
    let mut i: usize = 8;
    while i < resp.len()
        invariant
            8 <= i <= resp.len(),
            v@ == resp@.subrange(8, i as int),
        decreases resp.len() - i,
    {
        v.push(resp[i]);
        i = i + 1;
        proof {
            assert(v@ =~= resp@.subrange(8, i as int));
        }
    }
    proof {
        let payload = resp@.subrange(4, resp@.len() as int);
        assert(payload.subrange(4, payload.len() as int) =~= resp@.subrange(8, resp@.len() as int));
    }
    Some(v)
}

/// What to do with a frame read while waiting for a command response.
#[derive(Debug, Clone, Copy, PartialEq, Eq, Structural)]
pub enum FrameVerdict {
    /// The awaited response.
    Accept,
    /// Input, status or ACK noise, or another command: keep reading.
    Skip,
    /// An empty frame: stop waiting.
    Stop,
}

/// Commands that are skipped while waiting for a response: input (0x20),
/// hello (0x02), ACK (0x01), elite input (0x0C), status (0x03) and guide (0x07).
pub open spec fn is_noise_command(cmd: u8) -> bool {
    cmd == 0x20 || cmd == 0x02 || cmd == 0x01 || cmd == 0x0C || cmd == 0x03 || cmd == 0x07
}

/// The verdict on a frame while waiting for command `want`.
pub open spec fn spec_classify_frame(frame: Seq<u8>, want: u8) -> FrameVerdict {
    if frame.len() == 0 {
        FrameVerdict::Stop
    } else if is_noise_command(frame[0]) {
        FrameVerdict::Skip
    } else if frame[0] == want {
        FrameVerdict::Accept
    } else {
        FrameVerdict::Skip
    }
}

/// Decide what to do with a frame read while waiting for command `want`.
pub fn classify_frame(frame: &[u8], want: u8) -> (res: FrameVerdict)
    ensures
        res == spec_classify_frame(frame@, want),
{
    if frame.len() == 0 {
        return FrameVerdict::Stop;
    }
    let cmd = frame[0];
    if cmd == 0x20 || cmd == 0x02 || cmd == 0x01 || cmd == 0x0C || cmd == 0x03 || cmd == 0x07 {
        FrameVerdict::Skip
    } else if cmd == want {
        FrameVerdict::Accept
    } else {
        FrameVerdict::Skip
    }
}

/// The payload length announced by a ring buffer record's 2-byte
/// little-endian prefix, when it is usable (1 to `max` bytes).
pub open spec fn spec_record_len(lo: u8, hi: u8, max: usize) -> Option<usize> {
    let n = lo as int + 256 * (hi as int);
    if n == 0 || n > max {
        None
    } else {
        Some(n as usize)
    }
}

/// The payload length of a ring buffer record from its 2-byte prefix;
/// `None` for an empty or oversized record (which is skipped).
pub fn record_len(lo: u8, hi: u8, max: usize) -> (res: Option<usize>)
    ensures
        res == spec_record_len(lo, hi, max),
{
    let n: usize = lo as usize + 256 * (hi as usize);
    if n == 0 || n > max {
        None
    } else {
        Some(n)
    }
}

/// Commands the kernel forwards to user space: input (0x20), guide (0x07),
/// elite input (0x0C), vendor (0x4D), system (0x1E), ACK (0x01), hello
/// (0x02) and status (0x03).
pub open spec fn is_forwarded_command(cmd: u8) -> bool {
    cmd == 0x20 || cmd == 0x07 || cmd == 0x0C || cmd == 0x4D || cmd == 0x1E || cmd == 0x01 || cmd
        == 0x02 || cmd == 0x03
}

/// Whether a GIP message from the controller is passed on to user space.
pub fn forward_gip_message(data: &[u8]) -> (res: bool)
    ensures
        res == (data@.len() >= 1 && is_forwarded_command(data@[0])),
{
    if data.len() < 1 {
        return false;
    }
    let cmd = data[0];
    cmd == 0x20 || cmd == 0x07 || cmd == 0x0C || cmd == 0x4D || cmd == 0x1E || cmd == 0x01 || cmd
        == 0x02 || cmd == 0x03
}

/// Sequence numbers for outgoing frames: each frame takes the next number,
/// wrapping from 0xFF to 0x00.
#[derive(Debug)]
pub struct SeqCounter {
    pub next: u8,
}

impl SeqCounter {
    /// A counter whose first number is `start`.
    pub fn new(start: u8) -> (res: SeqCounter)
        ensures
            res.next == start,
    {
        SeqCounter { next: start }
    }

    /// Take the next sequence number.
    pub fn next_seq(&mut self) -> (res: u8)
        ensures
            res == old(self).next,
            final(self).next == (old(self).next + 1) % 256,
    {
        let s = self.next;
        self.next = s.wrapping_add(1);
        s
    }
}

/// The unlock sequence sent before profile writes: re-init (sub 0x07)
/// twice, unlock (sub 0x03), re-init, unlock twice, with consecutive
/// sequence numbers.
pub open spec fn spec_begin_write_frames(s: u8) -> Seq<Seq<u8>> {
    let reinit = seq![0x07u8, 0x00];
    let unlock = seq![0x03u8];
    seq![
        spec_frame(0x4D, 0x10, s, reinit),
        spec_frame(0x4D, 0x10, ((s + 1) % 256) as u8, reinit),
        spec_frame(0x4D, 0x10, ((s + 2) % 256) as u8, unlock),
        spec_frame(0x4D, 0x10, ((s + 3) % 256) as u8, reinit),
        spec_frame(0x4D, 0x10, ((s + 4) % 256) as u8, unlock),
        spec_frame(0x4D, 0x10, ((s + 5) % 256) as u8, unlock),
    ]
}

/// The frames of the unlock sequence sent before profile writes.
pub fn begin_write_frames(counter: &mut SeqCounter) -> (res: Vec<Vec<u8>>)
    ensures
        res@.len() == 6,
        forall|i: int|
            0 <= i < 6 ==> (#[trigger] res@[i])@ == spec_begin_write_frames(old(counter).next)[i],
        final(counter).next == (old(counter).next + 6) % 256,
{
    let ghost s = counter.next;
    let reinit: [u8; 2] = [0x07, 0x00];
    let unlock: [u8; 1] = [0x03];
    proof {
        assert(reinit@ =~= seq![0x07u8, 0x00]);
        assert(unlock@ =~= seq![0x03u8]);
    }
    let mut out: Vec<Vec<u8>> = Vec::new();
    let s0 = counter.next_seq();
    out.push(vendor_frame(s0, &reinit));
    let s1 = counter.next_seq();
    out.push(vendor_frame(s1, &reinit));
    let s2 = counter.next_seq();
    out.push(vendor_frame(s2, &unlock));
    let s3 = counter.next_seq();
    out.push(vendor_frame(s3, &reinit));
    let s4 = counter.next_seq();
    out.push(vendor_frame(s4, &unlock));
    let s5 = counter.next_seq();
    out.push(vendor_frame(s5, &unlock));
    proof {
        assert(s1 == ((s + 1) % 256) as u8);
        assert(s2 == ((s + 2) % 256) as u8);
        assert(s3 == ((s + 3) % 256) as u8);
        assert(s4 == ((s + 4) % 256) as u8);
        assert(s5 == ((s + 5) % 256) as u8);
    }
    out
}

/// The commit sequence sent after profile writes: re-init extended reports
/// (sub 0x07) then persist (sub 0x03).
pub open spec fn spec_commit_frames(s: u8) -> Seq<Seq<u8>> {
    seq![
        spec_frame(0x4D, 0x10, s, seq![0x07u8, 0x00]),
        spec_frame(0x4D, 0x10, ((s + 1) % 256) as u8, seq![0x03u8]),
    ]
}

/// The frames of the commit sequence sent after profile writes.
pub fn commit_frames(counter: &mut SeqCounter) -> (res: Vec<Vec<u8>>)
    ensures
        res@.len() == 2,
        forall|i: int|
            0 <= i < 2 ==> (#[trigger] res@[i])@ == spec_commit_frames(old(counter).next)[i],
        final(counter).next == (old(counter).next + 2) % 256,
{
    let ghost s = counter.next;
    let reinit: [u8; 2] = [0x07, 0x00];
    let unlock: [u8; 1] = [0x03];
    proof {
        assert(reinit@ =~= seq![0x07u8, 0x00]);
        assert(unlock@ =~= seq![0x03u8]);
    }
    let mut out: Vec<Vec<u8>> = Vec::new();
    let s0 = counter.next_seq();
    out.push(vendor_frame(s0, &reinit));
    let s1 = counter.next_seq();
    out.push(vendor_frame(s1, &unlock));
    out
}

/// The payload of a live LED color command (0x0E): mode 0 sets the color.
pub fn led_color_payload(r: u8, g: u8, b: u8) -> (res: [u8; 5])
    ensures
        res@ == seq![0x00u8, 0x00, r, g, b],
{
    let p: [u8; 5] = [0x00, 0x00, r, g, b];
    proof {
        assert(p@ =~= seq![0x00u8, 0x00, r, g, b]);
    }
    p
}

/// The payload of the LED off command (0x0E mode 1): back to the profile color.
pub fn led_off_payload() -> (res: [u8; 5])
    ensures
        res@ == seq![0x01u8, 0x00, 0x00, 0x00, 0x00],
{
    let p: [u8; 5] = [0x01, 0x00, 0x00, 0x00, 0x00];
    proof {
        assert(p@ =~= seq![0x01u8, 0x00, 0x00, 0x00, 0x00]);
    }
    p
}

/// Length of the GIP header of a frame. Frames shorter than 4 bytes are all
/// header. A chunk-start frame (flags bit 0x40) carries extra chunk header
/// bytes: its payload begins at the first `{` or zero byte among bytes 4
/// to 15, or at byte 8 when there is none.
pub open spec fn spec_gip_header_len(data: Seq<u8>) -> int {
    if data.len() < 4 {
        data.len() as int
    } else if data[1] & 0x40 != 0 {
        match first_payload_start(data, 4) {
            Some(i) => i,
            None => 8,
        }
    } else {
        4
    }
}

/// The first index `i >= from` below `min(len, 16)` holding `{` or 0.
pub open spec fn first_payload_start(data: Seq<u8>, from: int) -> Option<int>
    decreases 16 - from,
{
    if from >= 16 || from >= data.len() {
        None
    } else if data[from] == 0x7B || data[from] == 0x00 {
        Some(from)
    } else {
        first_payload_start(data, from + 1)
    }
}

/// Length of the GIP header of a frame.
pub fn gip_header_len(data: &[u8]) -> (res: usize)
    ensures
        res as int == spec_gip_header_len(data@),
{
    if data.len() < 4 {
        return data.len();
    }
    if data[1] & 0x40 != 0 {
        let end = if data.len() < 16 {
            data.len()
        } else {
            16
        };
        let mut i: usize = 4;
        while i < end
            invariant
                4 <= i <= end,
                data@.len() >= 4,
                data@[1] & 0x40 != 0,
                end == (if data@.len() < 16 {
                    data@.len()
                } else {
                    16
                }),
                first_payload_start(data@, 4) == first_payload_start(data@, i as int),
            decreases end - i,
        {
            if data[i] == 0x7B || data[i] == 0x00 {
                proof {
                    assert(first_payload_start(data@, i as int) == Some(i as int));
                    assert(first_payload_start(data@, 4) == Some(i as int));
                    assert(data@[1] & 0x40 != 0);
                    assert(spec_gip_header_len(data@) == i as int);
                }
                return i;
            }
            i = i + 1;
        }
        8
    } else {
        4
    }
}

} // verus!
