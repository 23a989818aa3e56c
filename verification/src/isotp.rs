//! ISO-TP (ISO 15765-2) segmentation and reassembly.
//!
//! A service payload travels over CAN in 8-byte frames.  A payload of up to
//! seven bytes goes in one Single frame; a longer payload (up to 4095 bytes)
//! goes in a First frame carrying the total length and the first six bytes,
//! followed by Consecutive frames of seven bytes each whose sequence numbers
//! start at 1 and wrap modulo 16.  Flow Control frames pace the sender.

use vstd::prelude::*;

verus! {

/// ISO-TP frame kinds, distinguished by the top nibble of the first byte.
#[derive(Debug, Clone, Copy, PartialEq, Eq, Structural)]
pub enum FrameType {
    Single,
    First,
    Consecutive,
    FlowControl,
}

/// Errors of segmentation and reassembly.
#[derive(Debug, Clone, Copy, PartialEq, Eq, Structural)]
pub enum IsoTpError {
    /// A payload must hold at least one byte.
    EmptyPayload,
    /// A payload of more than 4095 bytes does not fit the 12-bit length
    /// field of a First frame.
    PayloadTooLong,
    /// A frame of the wrong kind arrived where a Single, First or
    /// Consecutive frame was expected.
    UnexpectedFrame,
    /// A Consecutive frame carried the wrong sequence number.
    SequenceError,
    /// The frames ended before the announced length was reached.
    Incomplete,
}

/// A sequence of `n` zero bytes.
pub open spec fn zeros(n: int) -> Seq<u8> {
    Seq::new(n as nat, |i: int| 0u8)
}

/// Pads a sequence of at most eight bytes to exactly eight with zeros.
pub open spec fn pad8(s: Seq<u8>) -> Seq<u8>
    recommends
        s.len() <= 8,
{
    s + zeros(8 - s.len())
}

/// The CAN bytes of a Single frame: length nibble, payload, zero padding.
pub open spec fn sf_can(p: Seq<u8>) -> Seq<u8>
    recommends
        p.len() <= 7,
{
    pad8(seq![p.len() as u8] + p)
}

/// The CAN bytes of a First frame for a payload `p` of 8 to 4095 bytes:
/// 0x10 plus the high four bits of the length, the low length byte, and the
/// first six payload bytes.
pub open spec fn ff_can(p: Seq<u8>) -> Seq<u8>
    recommends
        8 <= p.len() <= 4095,
{
    seq![(0x10 + p.len() / 256) as u8, (p.len() % 256) as u8] + p.take(6)
}

/// The CAN bytes of a Consecutive frame: 0x20 plus the sequence number,
/// up to seven payload bytes, zero padding.
pub open spec fn cf_can(chunk: Seq<u8>, sn: u8) -> Seq<u8>
    recommends
        chunk.len() <= 7,
{
    pad8(seq![(0x20 + sn % 16) as u8] + chunk)
}

/// The CAN bytes of a Flow Control frame: 0x30 plus the flag nibble, the
/// block size, the separation time, zero padding.
pub open spec fn fc_can(flag: u8, block_size: u8, separation_time: u8) -> Seq<u8> {
    pad8(seq![(0x30 + flag % 16) as u8, block_size, separation_time])
}

/// The Consecutive frames that carry `p` from offset `off` on, with sequence
/// numbers starting at `sn`.
pub open spec fn cf_frames(p: Seq<u8>, off: int, sn: u8) -> Seq<Seq<u8>>
    recommends
        0 <= off,
        sn < 16,
    decreases p.len() + 7 - off,
{
    if off < 0 || off >= p.len() {
        Seq::empty()
    } else {
        let end = if off + 7 <= p.len() {
            off + 7
        } else {
            p.len() as int
        };
        seq![cf_can(p.subrange(off, end), sn)] + cf_frames(p, off + 7, ((sn + 1) % 16) as u8)
    }
}

/// The frames the sender emits for a payload of 1 to 4095 bytes: one Single
/// frame, or a First frame followed by Consecutive frames.
pub open spec fn segment_spec(p: Seq<u8>) -> Seq<Seq<u8>>
    recommends
        1 <= p.len() <= 4095,
{
    if p.len() <= 7 {
        seq![sf_can(p)]
    } else {
        seq![ff_can(p)] + cf_frames(p, 6, 1)
    }
}

/// The views of a list of CAN frames.
pub open spec fn views_of(frames: Seq<[u8; 8]>) -> Seq<Seq<u8>> {
    frames.map_values(|f: [u8; 8]| f@)
}

/// Consumes Consecutive frames until `total` bytes have been gathered,
/// checking each sequence number; the result is truncated to `total`.
pub open spec fn reassemble_cfs(
    frames: Seq<Seq<u8>>,
    expected: u8,
    acc: Seq<u8>,
    total: int,
) -> Result<Seq<u8>, IsoTpError>
    decreases frames.len(),
{
    if acc.len() >= total {
        Ok(acc.take(total))
    } else if frames.len() == 0 {
        Err(IsoTpError::Incomplete)
    } else if frames[0].len() != 8 {
        Err(IsoTpError::UnexpectedFrame)
    } else if frames[0][0] / 16 != 2 {
        Err(IsoTpError::UnexpectedFrame)
    } else if frames[0][0] % 16 != expected {
        Err(IsoTpError::SequenceError)
    } else {
        reassemble_cfs(
            frames.drop_first(),
            ((expected + 1) % 16) as u8,
            acc + frames[0].subrange(1, 8),
            total,
        )
    }
}

/// What the receiver makes of a list of CAN frames: the payload of a Single
/// frame, or the reassembly of a First frame and its Consecutive frames.
pub open spec fn reassemble_spec(frames: Seq<Seq<u8>>) -> Result<Seq<u8>, IsoTpError> {
    if frames.len() == 0 {
        Err(IsoTpError::Incomplete)
    } else if frames[0].len() != 8 {
        Err(IsoTpError::UnexpectedFrame)
    } else if frames[0][0] / 16 == 0 {
        if frames[0][0] % 16 > 7 {
            Err(IsoTpError::UnexpectedFrame)
        } else {
            Ok(frames[0].subrange(1, 1 + (frames[0][0] % 16) as int))
        }
    } else if frames[0][0] / 16 == 1 {
        reassemble_cfs(
            frames.drop_first(),
            1,
            frames[0].subrange(2, 8),
            (frames[0][0] % 16) * 256 + frames[0][1],
        )
    } else {
        Err(IsoTpError::UnexpectedFrame)
    }
}

fn make_sf(chunk: &[u8]) -> (r: [u8; 8])
    requires
        chunk@.len() <= 7,
    ensures
        r@ == sf_can(chunk@),
{
    let mut out: [u8; 8] = [0u8; 8];
    out[0] = chunk.len() as u8;
    let mut i: usize = 0;
    while i < chunk.len()
        invariant
            chunk@.len() <= 7,
            0 <= i <= chunk@.len(),
            out@.len() == 8,
            out@[0] == chunk@.len() as u8,
            forall|j: int| 0 <= j < i ==> out@[j + 1] == chunk@[j],
            forall|j: int| i + 1 <= j < 8 ==> out@[j] == 0u8,
        decreases chunk@.len() - i,
    {
        out[i + 1] = chunk[i];
        i = i + 1;
    }
    proof {
        assert(out@ =~= sf_can(chunk@));
    }
    out
}

fn make_ff(p: &[u8]) -> (r: [u8; 8])
    requires
        8 <= p@.len() <= 4095,
    ensures
        r@ == ff_can(p@),
{
    let mut out: [u8; 8] = [0u8; 8];
    out[0] = 0x10 + (p.len() / 256) as u8;
    out[1] = (p.len() % 256) as u8;
    let mut i: usize = 0;
    while i < 6
        invariant
            8 <= p@.len() <= 4095,
            0 <= i <= 6,
            out@.len() == 8,
            out@[0] == (0x10 + p@.len() / 256) as u8,
            out@[1] == (p@.len() % 256) as u8,
            forall|j: int| 0 <= j < i ==> out@[j + 2] == p@[j],
        decreases 6 - i,
    {
        out[i + 2] = p[i];
        i = i + 1;
    }
    proof {
        assert(out@ =~= ff_can(p@));
    }
    out
}

fn make_cf(chunk: &[u8], sn: u8) -> (r: [u8; 8])
    requires
        chunk@.len() <= 7,
        sn < 16,
    ensures
        r@ == cf_can(chunk@, sn),
{
    let mut out: [u8; 8] = [0u8; 8];
    out[0] = 0x20 + sn;
    let mut i: usize = 0;
    while i < chunk.len()
        invariant
            chunk@.len() <= 7,
            sn < 16,
            0 <= i <= chunk@.len(),
            out@.len() == 8,
            out@[0] == 0x20 + sn,
            forall|j: int| 0 <= j < i ==> out@[j + 1] == chunk@[j],
            forall|j: int| i + 1 <= j < 8 ==> out@[j] == 0u8,
        decreases chunk@.len() - i,
    {
        out[i + 1] = chunk[i];
        i = i + 1;
    }
    proof {
        assert(out@ =~= cf_can(chunk@, sn));
    }
    out
}

/// Splits a payload into the CAN frames the sender puts on the wire.
pub fn segment_payload(data: &[u8]) -> (r: Result<Vec<[u8; 8]>, IsoTpError>)
    ensures
        match r {
            Ok(frames) => 1 <= data@.len() <= 4095 && views_of(frames@) == segment_spec(data@),
            Err(e) => (data@.len() == 0 && e == IsoTpError::EmptyPayload) || (data@.len() > 4095
                && e == IsoTpError::PayloadTooLong),
        },
{
    if data.len() == 0 {
        return Err(IsoTpError::EmptyPayload);
    }
    if data.len() > 4095 {
        return Err(IsoTpError::PayloadTooLong);
    }
    let mut frames: Vec<[u8; 8]> = Vec::new();
    if data.len() <= 7 {
        frames.push(make_sf(data));
        proof {
            assert(views_of(frames@) =~~= segment_spec(data@));
        }
        return Ok(frames);
    }
    frames.push(make_ff(data));
    let mut off: usize = 6;
    let mut sn: u8 = 1;
    proof {
        assert(views_of(frames@) =~~= seq![ff_can(data@)]);
    }
    while off < data.len()
        invariant
            8 <= data@.len() <= 4095,
            6 <= off,
            sn < 16,
            views_of(frames@) + cf_frames(data@, off as int, sn) =~~= segment_spec(data@),
        decreases data@.len() + 7 - off,
    {
        let end: usize = if off + 7 <= data.len() {
            off + 7
        } else {
            data.len()
        };
        let chunk = vstd::slice::slice_subrange(data, off, end);
        let frame = make_cf(chunk, sn);
        let ghost old_views = views_of(frames@);
        frames.push(frame);
        proof {
            assert(views_of(frames@) =~~= old_views.push(frame@));
            assert(cf_frames(data@, off as int, sn) =~~= seq![
                cf_can(data@.subrange(off as int, end as int), sn),
            ] + cf_frames(data@, off as int + 7, ((sn + 1) % 16) as u8));
            assert(old_views.push(frame@) + cf_frames(data@, off as int + 7, ((sn + 1) % 16) as u8)
                =~~= old_views + cf_frames(data@, off as int, sn));
        }
        off = off + 7;
        sn = (sn + 1) % 16;
    }
    proof {
        assert(cf_frames(data@, off as int, sn) =~~= Seq::<Seq<u8>>::empty());
        assert(views_of(frames@) =~~= segment_spec(data@));
    }
    Ok(frames)
}

/// Rebuilds a payload from the CAN frames the receiver took off the wire.
pub fn reassemble_frames(frames: &Vec<[u8; 8]>) -> (r: Result<Vec<u8>, IsoTpError>)
    ensures
        match r {
            Ok(v) => reassemble_spec(views_of(frames@)) == Ok::<Seq<u8>, IsoTpError>(v@),
            Err(e) => reassemble_spec(views_of(frames@)) == Err::<Seq<u8>, IsoTpError>(e),
        },
{
    if frames.len() == 0 {
        return Err(IsoTpError::Incomplete);
    }
    let f0: [u8; 8] = frames[0];
    proof {
        assert(views_of(frames@)[0] == f0@);
        assert(f0@.len() == 8);
    }
    let pci = f0[0];
    if pci / 16 == 0 {
        let l = (pci % 16) as usize;
        if l > 7 {
            return Err(IsoTpError::UnexpectedFrame);
        }
        let payload = vstd::slice::slice_to_vec(vstd::slice::slice_subrange(f0.as_slice(), 1, 1 + l));
        return Ok(payload);
    }
    if pci / 16 != 1 {
        return Err(IsoTpError::UnexpectedFrame);
    }
    let total: usize = ((pci % 16) as usize) * 256 + f0[1] as usize;
    let mut acc: Vec<u8> = vstd::slice::slice_to_vec(vstd::slice::slice_subrange(f0.as_slice(), 2, 8));
    let mut expected: u8 = 1;
    let mut i: usize = 1;
    proof {
        assert(views_of(frames@).skip(1) =~~= views_of(frames@).drop_first());
    }
    while acc.len() < total
        invariant
            expected < 16,
            1 <= i <= frames@.len(),
            reassemble_cfs(views_of(frames@).skip(i as int), expected, acc@, total as int)
                == reassemble_spec(views_of(frames@)),
        decreases frames@.len() - i + (if total - acc@.len() >= 0 { total - acc@.len() } else { 0 }),
    {
        if i >= frames.len() {
            proof {
                assert(views_of(frames@).skip(i as int) =~~= Seq::<Seq<u8>>::empty());
            }
            return Err(IsoTpError::Incomplete);
        }
        let fi: [u8; 8] = frames[i];
        proof {
            assert(views_of(frames@).skip(i as int)[0] == views_of(frames@)[i as int]);
            assert(views_of(frames@)[i as int] == fi@);
        }
        let pci2 = fi[0];
        if pci2 / 16 != 2 {
            return Err(IsoTpError::UnexpectedFrame);
        }
        if pci2 % 16 != expected {
            return Err(IsoTpError::SequenceError);
        }
        let ghost old_acc = acc@;
        acc.extend_from_slice(vstd::slice::slice_subrange(fi.as_slice(), 1, 8));
        proof {
            assert(acc@ =~= old_acc + fi@.subrange(1, 8));
            assert(views_of(frames@).skip(i as int).drop_first() =~~= views_of(frames@).skip(
                i as int + 1,
            ));
        }
        expected = (expected + 1) % 16;
        i = i + 1;
    }
    let ghost pre = acc@;
    acc.truncate(total);
    proof {
        assert(reassemble_cfs(views_of(frames@).skip(i as int), expected, pre, total as int)
            == Ok::<Seq<u8>, IsoTpError>(pre.take(total as int)));
        assert(acc@ == pre.take(total as int));
    }
    Ok(acc)
}

proof fn lemma_reassemble_cfs(p: Seq<u8>, off: int, sn: u8)
    requires
        6 <= off <= p.len(),
        p.len() <= 4095,
        sn < 16,
    ensures
        reassemble_cfs(cf_frames(p, off, sn), sn, p.take(off), p.len() as int) == Ok::<
            Seq<u8>,
            IsoTpError,
        >(p),
    decreases p.len() - off,
{
    let total = p.len() as int;
    let acc = p.take(off);
    if off == p.len() {
        assert(acc =~= p);
        assert(acc.take(total) =~= p);
    } else {
        let end = if off + 7 <= p.len() {
            off + 7
        } else {
            p.len() as int
        };
        let chunk = p.subrange(off, end);
        let head = cf_can(chunk, sn);
        let sn2 = ((sn + 1) % 16) as u8;
        let rest = cf_frames(p, off + 7, sn2);
        assert(cf_frames(p, off, sn) =~~= seq![head] + rest);
        assert(head.len() == 8);
        assert(head[0] == 0x20 + sn);
        assert((0x20 + sn) / 16 == 2);
        assert((0x20 + sn) % 16 == sn);
        assert((seq![head] + rest).drop_first() =~~= rest);
        let acc2 = acc + head.subrange(1, 8);
        assert(head.subrange(1, 8) =~= chunk + zeros(7 - (end - off)));
        if end == off + 7 {
            assert(acc2 =~= p.take(off + 7));
            lemma_reassemble_cfs(p, off + 7, sn2);
        } else {
            // The last frame: the accumulated bytes are the whole payload
            // followed by padding, and truncation to the announced length
            // recovers the payload.
            assert(acc2.len() == off + 7 >= total);
            assert(reassemble_cfs(rest, sn2, acc2, total) == Ok::<Seq<u8>, IsoTpError>(
                acc2.take(total),
            ));
            assert(acc2.take(total) =~= p);
        }
    }
}

/// Round trip: the frames the sender produces for any payload of 1 to 4095
/// bytes are reassembled by the receiver to exactly that payload.
pub proof fn lemma_isotp_round_trip(p: Seq<u8>)
    requires
        1 <= p.len() <= 4095,
    ensures
        reassemble_spec(segment_spec(p)) == Ok::<Seq<u8>, IsoTpError>(p),
{
    if p.len() <= 7 {
        let f = sf_can(p);
        assert(segment_spec(p) =~~= seq![f]);
        assert(f.len() == 8);
        assert(f[0] == p.len() as u8);
        assert(f[0] / 16 == 0);
        assert(f[0] % 16 == p.len());
        assert(f.subrange(1, 1 + p.len() as int) =~= p);
    } else {
        let f = ff_can(p);
        let cfs = cf_frames(p, 6, 1);
        assert(segment_spec(p) =~~= seq![f] + cfs);
        assert((seq![f] + cfs)[0] == f);
        assert(f.len() == 8);
        let hi = p.len() as int / 256;
        let lo = p.len() as int % 256;
        assert(0 <= hi <= 15);
        assert(f[0] == (0x10 + hi) as u8);
        assert((0x10 + hi) / 16 == 1);
        assert((0x10 + hi) % 16 == hi);
        assert(f[1] == lo as u8);
        assert(hi * 256 + lo == p.len()) by {
            vstd::arithmetic::div_mod::lemma_fundamental_div_mod(p.len() as int, 256);
        }
        assert((seq![f] + cfs).drop_first() =~~= cfs);
        assert(f.subrange(2, 8) =~= p.take(6));
        lemma_reassemble_cfs(p, 6, 1);
    }
}

/// An ISO-TP frame as handled above the CAN layer.
#[derive(Debug, Clone)]
pub struct IsoTpFrame {
    pub frame_type: u8,
    pub data: Vec<u8>,
    pub sequence: Option<u8>,
    pub total_length: Option<u16>,
}

/// The CAN bytes of a First frame with an explicit length field.
pub open spec fn ff_bytes(total: u16, data: Seq<u8>) -> Seq<u8>
    recommends
        data.len() <= 6,
{
    seq![(0x10 + (total / 256) % 16) as u8, (total % 256) as u8] + data + zeros(6 - data.len())
}

impl IsoTpFrame {
    /// A frame the constructors produce: the kind nibble is valid and the
    /// payload, sequence number and total length fit that kind.
    pub open spec fn wf(self) -> bool {
        if self.frame_type == 0x00 {
            self.data@.len() <= 7 && self.sequence is None && self.total_length is None
        } else if self.frame_type == 0x10 {
            self.data@.len() <= 6 && self.sequence is None && self.total_length is Some
        } else if self.frame_type == 0x20 {
            self.data@.len() <= 7 && self.total_length is None && match self.sequence {
                Some(s) => s < 16,
                None => false,
            }
        } else if self.frame_type == 0x30 {
            self.data@.len() == 3 && self.sequence is None && self.total_length is None
        } else {
            false
        }
    }

    /// The eight CAN bytes of a well-formed frame.
    pub open spec fn can_bytes(self) -> Seq<u8>
        recommends
            self.wf(),
    {
        if self.frame_type == 0x00 {
            sf_can(self.data@)
        } else if self.frame_type == 0x10 {
            ff_bytes(
                match self.total_length {
                    Some(l) => l,
                    None => 0,
                },
                self.data@,
            )
        } else if self.frame_type == 0x20 {
            cf_can(
                self.data@,
                match self.sequence {
                    Some(s) => s,
                    None => 0,
                },
            )
        } else {
            fc_can(self.data@[0], self.data@[1], self.data@[2])
        }
    }

    /// Builds a Single frame; the payload must fit in seven bytes.
    pub fn single(data: Vec<u8>) -> (r: Result<Self, String>)
        ensures
            data@.len() <= 7 ==> (r matches Ok(f) && f.frame_type == 0x00 && f.data@ == data@
                && f.wf()),
            data@.len() > 7 ==> r is Err,
    {
        if data.len() > 7 {
            return Err("Data too long for single frame".to_owned());
        }
        Ok(Self { frame_type: 0x00, data, sequence: None, total_length: None })
    }

    /// Builds a First frame carrying the total length and the first six
    /// payload bytes.
    pub fn first(data: &[u8], total_length: u16) -> (r: Self)
        ensures
            r.frame_type == 0x10,
            r.data@ == data@.take(if data@.len() < 6 {
                data@.len() as int
            } else {
                6
            }),
            r.total_length == Some(total_length),
            r.wf(),
    {
        let end: usize = if data.len() < 6 {
            data.len()
        } else {
            6
        };
        let frame_data = vstd::slice::slice_to_vec(vstd::slice::slice_subrange(data, 0, end));
        Self { frame_type: 0x10, data: frame_data, sequence: None, total_length: Some(total_length) }
    }

    /// Builds a Consecutive frame; the sequence number is kept modulo 16.
    pub fn consecutive(data: Vec<u8>, sequence: u8) -> (r: Result<Self, String>)
        ensures
            data@.len() <= 7 ==> (r matches Ok(f) && f.frame_type == 0x20 && f.data@ == data@
                && f.sequence == Some((sequence % 16) as u8) && f.wf()),
            data@.len() > 7 ==> r is Err,
    {
        if data.len() > 7 {
            return Err("Data too long for consecutive frame".to_owned());
        }
        Ok(Self { frame_type: 0x20, data, sequence: Some(sequence % 16), total_length: None })
    }

    /// Builds a Flow Control frame from the flag, block size and separation
    /// time.
    pub fn flow_control(flag: u8, block_size: u8, separation_time: u8) -> (r: Self)
        ensures
            r.frame_type == 0x30,
            r.data@ == seq![flag, block_size, separation_time],
            r.wf(),
    {
        let data = vec![flag, block_size, separation_time];
        proof {
            assert(data@ =~= seq![flag, block_size, separation_time]);
        }
        Self { frame_type: 0x30, data, sequence: None, total_length: None }
    }

    /// Serializes a well-formed frame to its eight CAN bytes.
    pub fn to_can_data(&self) -> (r: [u8; 8])
        requires
            self.wf(),
        ensures
            r@ == self.can_bytes(),
    {
        if self.frame_type == 0x00 {
            make_sf(self.data.as_slice())
        } else if self.frame_type == 0x10 {
            let total: u16 = match self.total_length {
                Some(l) => l,
                None => 0,
            };
            let mut out: [u8; 8] = [0u8; 8];
            out[0] = 0x10 + ((total / 256) % 16) as u8;
            out[1] = (total % 256) as u8;
            let mut i: usize = 0;
            while i < self.data.len()
                invariant
                    self.data@.len() <= 6,
                    0 <= i <= self.data@.len(),
                    out@.len() == 8,
                    out@[0] == (0x10 + (total / 256) % 16) as u8,
                    out@[1] == (total % 256) as u8,
                    forall|j: int| 0 <= j < i ==> out@[j + 2] == self.data@[j],
                    forall|j: int| i + 2 <= j < 8 ==> out@[j] == 0u8,
                decreases self.data@.len() - i,
            {
                out[i + 2] = self.data[i];
                i = i + 1;
            }
            proof {
                assert(out@ =~= self.can_bytes());
            }
            out
        } else if self.frame_type == 0x20 {
            let sn: u8 = match self.sequence {
                Some(s) => s,
                None => 0,
            };
            make_cf(self.data.as_slice(), sn)
        } else {
            let mut out: [u8; 8] = [0u8; 8];
            out[0] = 0x30 + self.data[0] % 16;
            out[1] = self.data[1];
            out[2] = self.data[2];
            proof {
                assert(out@ =~= self.can_bytes());
            }
            out
        }
    }
}

/// What parsing eight (or fewer) CAN bytes yields: frame kind, payload,
/// sequence number, total length.
pub open spec fn parse_can(data: Seq<u8>) -> Option<(u8, Seq<u8>, Option<u8>, Option<u16>)> {
    if data.len() == 0 {
        None
    } else if data[0] / 16 == 0 {
        let l = (data[0] % 16) as int;
        if data.len() < l + 1 {
            None
        } else {
            Some((0x00u8, data.subrange(1, 1 + l), None, None))
        }
    } else if data[0] / 16 == 1 {
        if data.len() < 8 {
            None
        } else {
            Some(
                (
                    0x10u8,
                    data.subrange(2, 8),
                    None,
                    Some(((data[0] % 16) * 256 + data[1]) as u16),
                ),
            )
        }
    } else if data[0] / 16 == 2 {
        Some((0x20u8, data.subrange(1, data.len() as int), Some((data[0] % 16) as u8), None))
    } else if data[0] / 16 == 3 {
        let bs: u8 = if data.len() >= 2 {
            data[1]
        } else {
            0
        };
        let st: u8 = if data.len() >= 3 {
            data[2]
        } else {
            0
        };
        Some((0x30u8, seq![(data[0] % 16) as u8, bs, st], None, None))
    } else {
        None
    }
}

impl IsoTpFrame {
    /// Parses a frame from received CAN bytes.
    pub fn from_can_data(data: &[u8]) -> (r: Result<Self, String>)
        ensures
            match r {
                Ok(f) => parse_can(data@) == Some((f.frame_type, f.data@, f.sequence, f.total_length)),
                Err(_) => parse_can(data@) is None,
            },
    {
        if data.len() == 0 {
            return Err("Empty data".to_owned());
        }
        let pci = data[0];
        let kind = pci / 16;
        if kind == 0 {
            let l = (pci % 16) as usize;
            if data.len() < l + 1 {
                return Err("Data too short for single frame".to_owned());
            }
            let payload = vstd::slice::slice_to_vec(vstd::slice::slice_subrange(data, 1, 1 + l));
            Ok(Self { frame_type: 0x00, data: payload, sequence: None, total_length: None })
        } else if kind == 1 {
            if data.len() < 8 {
                return Err("Data too short for first frame".to_owned());
            }
            let total: u16 = ((pci % 16) as u16) * 256 + data[1] as u16;
            let payload = vstd::slice::slice_to_vec(vstd::slice::slice_subrange(data, 2, 8));
            Ok(Self { frame_type: 0x10, data: payload, sequence: None, total_length: Some(total) })
        } else if kind == 2 {
            let payload = vstd::slice::slice_to_vec(
                vstd::slice::slice_subrange(data, 1, data.len()),
            );
            Ok(
                Self {
                    frame_type: 0x20,
                    data: payload,
                    sequence: Some(pci % 16),
                    total_length: None,
                },
            )
        } else if kind == 3 {
            let bs: u8 = if data.len() >= 2 {
                data[1]
            } else {
                0
            };
            let st: u8 = if data.len() >= 3 {
                data[2]
            } else {
                0
            };
            let payload = vec![pci % 16, bs, st];
            proof {
                assert(payload@ =~= seq![(pci % 16) as u8, bs, st]);
            }
            Ok(Self { frame_type: 0x30, data: payload, sequence: None, total_length: None })
        } else {
            Err("Unknown frame type".to_owned())
        }
    }
}

/// What the sender does with a received Flow Control frame.
#[derive(Debug, Clone, Copy, PartialEq, Eq, Structural)]
pub enum FlowControlAction {
    /// Flag 0: send the Consecutive frames, honoring block size and
    /// separation time.
    Continue(u8, u8),
    /// Flag 1: restart the Flow Control wait with a fresh timeout.
    Wait,
    /// Flag 2: the receiver cannot take the message; abort.
    Overflow,
    /// Any other flag, or a frame that is not Flow Control: abort.
    Invalid,
}

/// Classifies a received frame as a Flow Control directive.
pub fn flow_control_action(frame: &IsoTpFrame) -> (r: FlowControlAction)
    requires
        frame.wf(),
    ensures
        frame.frame_type != 0x30 ==> r == FlowControlAction::Invalid,
        frame.frame_type == 0x30 && frame.data@[0] == 0 ==> r == FlowControlAction::Continue(
            frame.data@[1],
            frame.data@[2],
        ),
        frame.frame_type == 0x30 && frame.data@[0] == 1 ==> r == FlowControlAction::Wait,
        frame.frame_type == 0x30 && frame.data@[0] == 2 ==> r == FlowControlAction::Overflow,
        frame.frame_type == 0x30 && frame.data@[0] > 2 ==> r == FlowControlAction::Invalid,
{
    if frame.frame_type != 0x30 {
        return FlowControlAction::Invalid;
    }
    let flag = frame.data[0];
    if flag == 0 {
        FlowControlAction::Continue(frame.data[1], frame.data[2])
    } else if flag == 1 {
        FlowControlAction::Wait
    } else if flag == 2 {
        FlowControlAction::Overflow
    } else {
        FlowControlAction::Invalid
    }
}

/// Decodes the separation-time byte of a Flow Control frame into
/// microseconds: 0x00 to 0x7F are milliseconds, 0xF1 to 0xF9 are hundreds
/// of microseconds, anything else means no delay.
pub fn separation_time_micros(st: u8) -> (r: u32)
    ensures
        st <= 0x7F ==> r == st as u32 * 1000,
        0xF1 <= st <= 0xF9 ==> r == (st - 0xF0) as u32 * 100,
        0x7F < st < 0xF1 || st > 0xF9 ==> r == 0,
{
    if st <= 0x7F {
        st as u32 * 1000
    } else if 0xF1 <= st && st <= 0xF9 {
        (st - 0xF0) as u32 * 100
    } else {
        0
    }
}

} // verus!
