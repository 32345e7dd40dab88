//! APDU transceiver core: request framing, response-buffer sizing, and
//! status-word interpretation.
//!
//! A request frame is `[class=0x00][ins][p1][p2]`, followed by
//! `[len][data...]` when the data payload is non-empty, followed by the
//! expected-length byte when one is requested. A response always ends in the
//! two status bytes SW1 SW2; success is exactly `90 00`.

use vstd::prelude::*;

verus! {

/// A failure at the APDU command layer.
#[derive(Clone, Copy, Debug, PartialEq, Eq, Structural)]
pub enum ApduError {
    /// The data payload does not fit the one-byte length prefix: a
    /// configuration error, never sent to the card.
    DataTooLong,
    /// The transport failed to carry the request to the card.
    Transmit,
    /// The response is shorter than the mandatory two status bytes.
    ResponseTooShort,
    /// A status word other than `90 00` came back; both bytes are kept
    /// verbatim for diagnostics.
    Command { sw1: u8, sw2: u8 },
}

/// The bytes of a framed request for the given header, payload, and
/// expected response length.
pub open spec fn request_spec(ins: u8, p1: u8, p2: u8, data: Seq<u8>, le: Option<u8>) -> Seq<u8> {
    seq![0u8, ins, p1, p2]
        + (if data.len() > 0 {
            seq![data.len() as u8] + data
        } else {
            Seq::<u8>::empty()
        })
        + (match le {
            Some(v) => seq![v],
            None => Seq::<u8>::empty(),
        })
}

/// Frames a request. The payload length must fit in the single length
/// byte; a longer payload is refused before anything is transmitted.
pub fn build_request(ins: u8, p1: u8, p2: u8, data: &Vec<u8>, le: Option<u8>) -> (r: Result<
    Vec<u8>,
    ApduError,
>)
    ensures
        data@.len() <= 255 ==> (r matches Ok(req) && req@ == request_spec(
            ins,
            p1,
            p2,
            data@,
            le,
        )),
        data@.len() > 255 ==> r == Result::<Vec<u8>, ApduError>::Err(ApduError::DataTooLong),
{
    if data.len() > 255 {
        return Err(ApduError::DataTooLong);
    }
    let mut req: Vec<u8> = Vec::new();
    req.push(0x00);
    req.push(ins);
    req.push(p1);
    req.push(p2);
    if data.len() > 0 {
        req.push(data.len() as u8);
        let mut i: usize = 0;
        while i < data.len()
            invariant
                i <= data@.len() <= 255,
                req@ == seq![0u8, ins, p1, p2, data@.len() as u8] + data@.subrange(0, i as int),
            decreases data@.len() - i,
        {
            req.push(data[i]);
            i = i + 1;
            assert(req@ == seq![0u8, ins, p1, p2, data@.len() as u8] + data@.subrange(0, i as int));
        }
        assert(data@.subrange(0, data@.len() as int) == data@);
    }
    match le {
        Some(v) => {
            req.push(v);
        },
        None => {},
    }
    assert(req@ == request_spec(ins, p1, p2, data@, le));
    Ok(req)
}

/// Law: for every payload that fits the one-byte length prefix, the frame
/// opens with the four header bytes; when the payload is non-empty its
/// length stands in the fifth byte and the payload itself follows
/// unchanged, with the expected-length byte, when one is requested, at the
/// very end.
pub proof fn lemma_request_framing(ins: u8, p1: u8, p2: u8, data: Seq<u8>, le: Option<u8>)
    requires
        data.len() <= 255,
    ensures
        request_spec(ins, p1, p2, data, le)[0] == 0,
        request_spec(ins, p1, p2, data, le)[1] == ins,
        request_spec(ins, p1, p2, data, le)[2] == p1,
        request_spec(ins, p1, p2, data, le)[3] == p2,
        data.len() == 0 ==> request_spec(ins, p1, p2, data, le).len() == 4 + (
        if le is Some {
            1int
        } else {
            0int
        }),
        data.len() > 0 ==> request_spec(ins, p1, p2, data, le).len() == 5 + data.len() + (
        if le is Some {
            1int
        } else {
            0int
        }),
        data.len() > 0 ==> request_spec(ins, p1, p2, data, le)[4] == data.len() as u8,
        data.len() > 0 ==> request_spec(ins, p1, p2, data, le).subrange(5, 5 + data.len() as int) == data,
        le matches Some(v) ==> request_spec(ins, p1, p2, data, le).last() == v,
{
    if data.len() > 0 {
        assert(request_spec(ins, p1, p2, data, le).subrange(5, 5 + data.len() as int) =~= data);
    }
}

/// How much response space a command reserves: two bytes for the status
/// word, plus nothing when no response is expected, plus a full 256 bytes
/// when the expected-length byte is the literal `0` ("give me everything"),
/// plus the expected length itself otherwise.
pub open spec fn capacity_spec(le: Option<u8>) -> int {
    match le {
        None => 0,
        Some(v) => if v == 0 {
            256
        } else {
            v as int
        },
    }
}

/// The size of the buffer reserved for a response to a command with the
/// given expected length.
pub fn response_capacity(le: Option<u8>) -> (n: usize)
    ensures
        n == 2 + capacity_spec(le),
{
    match le {
        None => 2,
        Some(v) => if v == 0 {
            258
        } else {
            2 + (v as usize)
        },
    }
}

/// Whether a raw response carries the success status word `90 00` in its
/// two trailing bytes.
pub open spec fn response_ok(raw: Seq<u8>) -> bool {
    raw.len() >= 2 && raw[raw.len() - 2] == 0x90 && raw[raw.len() - 1] == 0x00
}

/// The command payload of a successful response: everything before the two
/// trailing status bytes.
pub open spec fn response_payload(raw: Seq<u8>) -> Seq<u8>
    recommends
        raw.len() >= 2,
{
    raw.subrange(0, raw.len() - 2)
}

/// Splits a raw response into payload and status word. A response shorter
/// than the status word is a framing error; a status word other than
/// `90 00` is a command failure carrying both bytes; on success the
/// payload, with the status word removed from its tail, is returned.
pub fn parse_response(raw: &Vec<u8>) -> (r: Result<Vec<u8>, ApduError>)
    ensures
        raw@.len() < 2 ==> r == Result::<Vec<u8>, ApduError>::Err(ApduError::ResponseTooShort),
        response_ok(raw@) ==> (r matches Ok(payload) && payload@ == response_payload(raw@)),
        raw@.len() >= 2 && !response_ok(raw@) ==> r == Result::<Vec<u8>, ApduError>::Err(
            ApduError::Command { sw1: raw@[raw@.len() - 2], sw2: raw@[raw@.len() - 1] },
        ),
{
    if raw.len() < 2 {
        return Err(ApduError::ResponseTooShort);
    }
    let sw1 = raw[raw.len() - 2];
    let sw2 = raw[raw.len() - 1];
    if sw1 == 0x90 && sw2 == 0x00 {
        let mut payload: Vec<u8> = Vec::new();
        let end = raw.len() - 2;
        let mut i: usize = 0;
        while i < end
            invariant
                i <= end,
                end == raw@.len() - 2,
                payload@ == raw@.subrange(0, i as int),
            decreases end - i,
        {
            payload.push(raw[i]);
            i = i + 1;
            assert(payload@ == raw@.subrange(0, i as int));
        }
        Ok(payload)
    } else {
        Err(ApduError::Command { sw1, sw2 })
    }
}

} // verus!
