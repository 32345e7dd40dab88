//! Reader classification: deciding, for every PC/SC-visible reader name,
//! whether it hosts the device in firmware mode, matched the expected name
//! but failed the selection/identity chain, or is some other reader.
//!
//! The transport itself (connect, transaction, transmit) is driven by the
//! surrounding application; this module supplies the decisions: the name
//! gate, the request for each step of the per-reader session, the
//! interpretation of each raw response, and the final verdict.

use vstd::prelude::*;
use crate::apdu::ApduError;
use crate::apdu::request_spec;
use crate::apdu::response_ok;
use crate::apdu::response_capacity;
use crate::apdu::build_request;
use crate::identity::IdentityError;
use crate::identity::identity_of_response;
use crate::identity::parse_identity_response;

verus! {

/// The bytes of the reader name prefix that firmware-mode devices present:
/// the ASCII string `SoloKeys Solo 2 [CCID/ICCD Interface]`.
pub open spec fn firmware_reader_prefix() -> Seq<u8> {
    seq![
        0x53u8, 0x6f, 0x6c, 0x6f, 0x4b, 0x65, 0x79, 0x73, 0x20, 0x53, 0x6f, 0x6c, 0x6f, 0x20,
        0x32, 0x20, 0x5b, 0x43, 0x43, 0x49, 0x44, 0x2f, 0x49, 0x43, 0x43, 0x44, 0x20, 0x49, 0x6e,
        0x74, 0x65, 0x72, 0x66, 0x61, 0x63, 0x65, 0x5d,
    ]
}

/// The application identifier of the primary ("admin") application.
pub open spec fn admin_aid() -> Seq<u8> {
    seq![0xA0u8, 0x00, 0x00, 0x08, 0x47, 0x00, 0x00, 0x00, 0x01]
}

/// The application identifier of the secondary ("provisioner") application.
pub open spec fn provisioner_aid() -> Seq<u8> {
    seq![0xA0u8, 0x00, 0x00, 0x08, 0x47, 0x01, 0x00, 0x00, 0x01]
}

/// The firmware reader name prefix as bytes.
pub fn firmware_reader_name_prefix() -> (r: Vec<u8>)
    ensures
        r@ == firmware_reader_prefix(),
{
    let r: Vec<u8> = vec![
        0x53u8, 0x6f, 0x6c, 0x6f, 0x4b, 0x65, 0x79, 0x73, 0x20, 0x53, 0x6f, 0x6c, 0x6f, 0x20,
        0x32, 0x20, 0x5b, 0x43, 0x43, 0x49, 0x44, 0x2f, 0x49, 0x43, 0x43, 0x44, 0x20, 0x49, 0x6e,
        0x74, 0x65, 0x72, 0x66, 0x61, 0x63, 0x65, 0x5d,
    ];
    proof {
        assert(r@ =~= firmware_reader_prefix());
    }
    r
}

/// The admin application identifier as bytes.
pub fn admin_aid_bytes() -> (r: Vec<u8>)
    ensures
        r@ == admin_aid(),
{
    let r: Vec<u8> = vec![0xA0u8, 0x00, 0x00, 0x08, 0x47, 0x00, 0x00, 0x00, 0x01];
    proof {
        assert(r@ =~= admin_aid());
    }
    r
}

/// The provisioner application identifier as bytes.
pub fn provisioner_aid_bytes() -> (r: Vec<u8>)
    ensures
        r@ == provisioner_aid(),
{
    let r: Vec<u8> = vec![0xA0u8, 0x00, 0x00, 0x08, 0x47, 0x01, 0x00, 0x00, 0x01];
    proof {
        assert(r@ =~= provisioner_aid());
    }
    r
}

/// Whether a reader name begins with the firmware reader name prefix.
pub open spec fn matches_firmware_prefix(name: Seq<u8>) -> bool {
    firmware_reader_prefix().is_prefix_of(name)
}

/// The cheap gate of the classifier: only names with the firmware prefix
/// are worth opening a channel to; every other reader is classified
/// without touching it.
pub fn is_firmware_reader_name(name: &Vec<u8>) -> (r: bool)
    ensures
        r == matches_firmware_prefix(name@),
{
    let prefix = firmware_reader_name_prefix();
    if name.len() < prefix.len() {
        return false;
    }
    let mut i: usize = 0;
    while i < prefix.len()
        invariant
            i <= prefix@.len(),
            prefix@ == firmware_reader_prefix(),
            name@.len() >= prefix@.len(),
            forall|k: int| 0 <= k < i ==> name@[k] == prefix@[k],
        decreases prefix@.len() - i,
    {
        if name[i] != prefix[i] {
            proof {
                assert(name@.subrange(0, prefix@.len() as int)[i as int] != prefix@[i as int]);
            }
            return false;
        }
        i = i + 1;
    }
    proof {
        assert(prefix@ =~= name@.subrange(0, prefix@.len() as int));
    }
    true
}

/// A reader that hosts the device in firmware mode: its 128-bit identity,
/// and whether the secondary provisioner application was also selectable.
#[derive(Clone, Copy, Debug, PartialEq, Eq, Structural)]
pub struct FirmwareReader {
    pub uuid: u128,
    pub provisioner: bool,
}

/// The first failure met while probing a reader whose name matched the
/// firmware prefix; the cause is kept so no detail is lost when the
/// verdict is reported.
#[derive(Clone, Copy, Debug, PartialEq, Eq, Structural)]
pub enum ReaderFailure {
    /// Connecting a shared-mode channel to the reader failed.
    Connect,
    /// Starting the exclusive transaction failed.
    Transaction,
    /// Selecting the admin application failed.
    SelectAdmin(ApduError),
    /// Querying the card identity failed.
    QueryUuid(IdentityError),
}

/// The verdict on one reader: exactly one of the three shapes.
#[derive(Debug)]
pub enum Reader {
    /// The device in firmware mode.
    Firmware(FirmwareReader),
    /// The name matched the firmware prefix but the probe failed.
    Unsupported(ReaderFailure),
    /// The name did not match the firmware prefix; it is kept verbatim.
    Other(Vec<u8>),
}

/// The state of the per-reader session: which exchange comes next.
#[derive(Clone, Copy, Debug, PartialEq, Eq, Structural)]
pub enum Session {
    /// Select the admin application.
    SelectAdmin,
    /// The admin application is selected; query the card identity.
    QueryIdentity,
    /// The identity is known; probe for the provisioner application.
    ProbeProvisioner { uuid: u128 },
}

/// One exchange the application must perform: the framed request, and the
/// response buffer size to reserve.
#[derive(Debug)]
pub struct Transmission {
    pub request: Vec<u8>,
    pub response_capacity: usize,
}

/// What the session does after a response: continue with another exchange,
/// deliver the verdict, or report the first failure.
#[derive(Clone, Copy, Debug, PartialEq, Eq, Structural)]
pub enum Step {
    Next(Session),
    Done(FirmwareReader),
    Failed(ReaderFailure),
}

/// The request sent in the given session state.
pub open spec fn session_request_spec(s: Session) -> Seq<u8> {
    match s {
        Session::SelectAdmin => request_spec(0xA4, 0x04, 0x00, admin_aid(), None),
        Session::QueryIdentity => request_spec(0x62, 0x00, 0x00, Seq::<u8>::empty(), Some(16)),
        Session::ProbeProvisioner { .. } => request_spec(0xA4, 0x04, 0x00, provisioner_aid(), Some(16)),
    }
}

/// The response buffer reserved in the given session state.
pub open spec fn session_capacity_spec(s: Session) -> int {
    match s {
        Session::SelectAdmin => 2,
        Session::QueryIdentity => 18,
        Session::ProbeProvisioner { .. } => 18,
    }
}

/// Frames a request whose payload is known to fit the length byte.
fn framed_request(ins: u8, p1: u8, p2: u8, data: &Vec<u8>, le: Option<u8>) -> (r: Vec<u8>)
    requires
        data@.len() <= 255,
    ensures
        r@ == request_spec(ins, p1, p2, data@, le),
{
    match build_request(ins, p1, p2, data, le) {
        Ok(req) => req,
        Err(_) => {
            proof {
                assert(false);
            }
            Vec::new()
        },
    }
}

/// The exchange to perform in the given session state: a plain select of
/// the admin application, the identity query expecting 16 bytes, or the
/// select-with-expected-length probe of the provisioner application.
pub fn session_request(s: &Session) -> (t: Transmission)
    ensures
        t.request@ == session_request_spec(*s),
        t.response_capacity == session_capacity_spec(*s),
{
    match s {
        Session::SelectAdmin => {
            let aid = admin_aid_bytes();
            Transmission {
                request: framed_request(0xA4, 0x04, 0x00, &aid, None),
                response_capacity: response_capacity(None),
            }
        },
        Session::QueryIdentity => {
            let empty_data: Vec<u8> = Vec::new();
            Transmission {
                request: framed_request(0x62, 0x00, 0x00, &empty_data, Some(16)),
                response_capacity: response_capacity(Some(16)),
            }
        },
        Session::ProbeProvisioner { .. } => {
            let aid = provisioner_aid_bytes();
            Transmission {
                request: framed_request(0xA4, 0x04, 0x00, &aid, Some(16)),
                response_capacity: response_capacity(Some(16)),
            }
        },
    }
}

/// The view of a transport outcome: the raw bytes received, or nothing
/// when the transmit itself failed.
pub open spec fn outcome_view(response: Option<Vec<u8>>) -> Option<Seq<u8>> {
    match response {
        Some(raw) => Some(raw@),
        None => None,
    }
}

/// What the session decides on the given response in the given state.
///
/// A failed transmit or a bad status word during admin select or identity
/// query ends the session with that failure; the provisioner probe is the
/// one deliberate exception: its failure only clears the provisioner flag.
pub open spec fn step_spec(s: Session, response: Option<Seq<u8>>) -> Step {
    match s {
        Session::SelectAdmin => match response {
            None => Step::Failed(ReaderFailure::SelectAdmin(ApduError::Transmit)),
            Some(raw) => if raw.len() < 2 {
                Step::Failed(ReaderFailure::SelectAdmin(ApduError::ResponseTooShort))
            } else if response_ok(raw) {
                Step::Next(Session::QueryIdentity)
            } else {
                Step::Failed(
                    ReaderFailure::SelectAdmin(
                        ApduError::Command { sw1: raw[raw.len() - 2], sw2: raw[raw.len() - 1] },
                    ),
                )
            },
        },
        Session::QueryIdentity => match response {
            None => Step::Failed(ReaderFailure::QueryUuid(IdentityError::Apdu(ApduError::Transmit))),
            Some(raw) => match identity_of_response(raw) {
                Ok(u) => Step::Next(Session::ProbeProvisioner { uuid: u }),
                Err(e) => Step::Failed(ReaderFailure::QueryUuid(e)),
            },
        },
        Session::ProbeProvisioner { uuid } => Step::Done(
            FirmwareReader {
                uuid,
                provisioner: response matches Some(raw) && response_ok(raw),
            },
        ),
    }
}

/// Advances the session on the outcome of one exchange; `None` stands for
/// a transmit that the transport could not carry out.
pub fn session_step(s: Session, response: Option<Vec<u8>>) -> (r: Step)
    ensures
        r == step_spec(s, outcome_view(response)),
{
    match s {
        Session::SelectAdmin => match response {
            None => Step::Failed(ReaderFailure::SelectAdmin(ApduError::Transmit)),
            Some(raw) => match crate::apdu::parse_response(&raw) {
                Ok(_) => Step::Next(Session::QueryIdentity),
                Err(e) => Step::Failed(ReaderFailure::SelectAdmin(e)),
            },
        },
        Session::QueryIdentity => match response {
            None => Step::Failed(
                ReaderFailure::QueryUuid(IdentityError::Apdu(ApduError::Transmit)),
            ),
            Some(raw) => match parse_identity_response(&raw) {
                Ok(u) => Step::Next(Session::ProbeProvisioner { uuid: u }),
                Err(e) => Step::Failed(ReaderFailure::QueryUuid(e)),
            },
        },
        Session::ProbeProvisioner { uuid } => {
            let provisioner = match response {
                Some(raw) => match crate::apdu::parse_response(&raw) {
                    Ok(_) => true,
                    Err(_) => false,
                },
                None => false,
            };
            Step::Done(FirmwareReader { uuid, provisioner })
        },
    }
}

/// The verdict on a reader name, given the outcome of the probe when one
/// was made. A name without the firmware prefix is Other, always; a
/// matching name takes the verdict of its probe.
pub open spec fn classify_spec(name: Vec<u8>, outcome: Option<Result<FirmwareReader, ReaderFailure>>) -> Reader {
    if !matches_firmware_prefix(name@) {
        Reader::Other(name)
    } else {
        match outcome {
            Some(Ok(fw)) => Reader::Firmware(fw),
            Some(Err(f)) => Reader::Unsupported(f),
            None => Reader::Other(name),
        }
    }
}

/// Classifies one reader. A probe outcome is handed in exactly when the
/// name matched the firmware prefix, since only then was a channel opened.
pub fn classify_reader(name: Vec<u8>, outcome: Option<Result<FirmwareReader, ReaderFailure>>) -> (r: Reader)
    requires
        matches_firmware_prefix(name@) <==> outcome is Some,
    ensures
        r == classify_spec(name, outcome),
{
    if !is_firmware_reader_name(&name) {
        Reader::Other(name)
    } else {
        match outcome {
            Some(Ok(fw)) => Reader::Firmware(fw),
            Some(Err(f)) => Reader::Unsupported(f),
            None => {
                proof {
                    assert(false);
                }
                Reader::Other(name)
            },
        }
    }
}

/// Law: classification is total and exclusive. Every reader name yields
/// exactly one of the three verdicts, and a name without the firmware
/// prefix is always Other, whatever outcome a probe would have had.
pub proof fn lemma_classification_total_exclusive(
    name: Vec<u8>,
    outcome: Option<Result<FirmwareReader, ReaderFailure>>,
)
    ensures
        classify_spec(name, outcome) is Firmware || classify_spec(name, outcome) is Unsupported
            || classify_spec(name, outcome) is Other,
        !(classify_spec(name, outcome) is Firmware && classify_spec(name, outcome) is Unsupported),
        !(classify_spec(name, outcome) is Firmware && classify_spec(name, outcome) is Other),
        !(classify_spec(name, outcome) is Unsupported && classify_spec(name, outcome) is Other),
        !matches_firmware_prefix(name@) ==> classify_spec(name, outcome) == Reader::Other(name),
        matches_firmware_prefix(name@) ==> (outcome matches Some(Ok(fw)) ==> classify_spec(
            name,
            outcome,
        ) == Reader::Firmware(fw)),
        matches_firmware_prefix(name@) ==> (outcome matches Some(Err(f)) ==> classify_spec(
            name,
            outcome,
        ) == Reader::Unsupported(f)),
{
}

/// The aggregate of one classification pass: the three verdict lists,
/// rebuilt fresh on every invocation, in the order the readers were
/// listed.
#[derive(Debug)]
pub struct ReaderStatus {
    pub firmware_readers: Vec<FirmwareReader>,
    pub unsupported_readers: Vec<ReaderFailure>,
    pub other_readers: Vec<Vec<u8>>,
}

/// The firmware verdicts among a sequence of readers, in order.
pub open spec fn firmware_part(rs: Seq<Reader>) -> Seq<FirmwareReader>
    decreases rs.len(),
{
    if rs.len() == 0 {
        Seq::<FirmwareReader>::empty()
    } else {
        firmware_part(rs.drop_last()) + (match rs.last() {
            Reader::Firmware(f) => seq![f],
            _ => Seq::<FirmwareReader>::empty(),
        })
    }
}

/// The failures among a sequence of readers, in order.
pub open spec fn unsupported_part(rs: Seq<Reader>) -> Seq<ReaderFailure>
    decreases rs.len(),
{
    if rs.len() == 0 {
        Seq::<ReaderFailure>::empty()
    } else {
        unsupported_part(rs.drop_last()) + (match rs.last() {
            Reader::Unsupported(f) => seq![f],
            _ => Seq::<ReaderFailure>::empty(),
        })
    }
}

/// The other reader names among a sequence of readers, in order.
pub open spec fn other_part(rs: Seq<Reader>) -> Seq<Vec<u8>>
    decreases rs.len(),
{
    if rs.len() == 0 {
        Seq::<Vec<u8>>::empty()
    } else {
        other_part(rs.drop_last()) + (match rs.last() {
            Reader::Other(n) => seq![n],
            _ => Seq::<Vec<u8>>::empty(),
        })
    }
}

/// Sorts the per-reader verdicts into the three lists of the aggregate,
/// preserving the order in which the readers were listed.
pub fn get_reader_status(readers: Vec<Reader>) -> (status: ReaderStatus)
    ensures
        status.firmware_readers@ == firmware_part(readers@),
        status.unsupported_readers@ == unsupported_part(readers@),
        status.other_readers@ == other_part(readers@),
{
    let ghost all = readers@;
    let mut rest = readers;
    let mut firmware_readers: Vec<FirmwareReader> = Vec::new();
    let mut unsupported_readers: Vec<ReaderFailure> = Vec::new();
    let mut other_readers: Vec<Vec<u8>> = Vec::new();
    while rest.len() > 0
        invariant
            rest@.len() <= all.len(),
            rest@ == all.subrange(all.len() - rest@.len(), all.len() as int),
            firmware_readers@ == firmware_part(all.subrange(0, all.len() - rest@.len())),
            unsupported_readers@ == unsupported_part(all.subrange(0, all.len() - rest@.len())),
            other_readers@ == other_part(all.subrange(0, all.len() - rest@.len())),
        decreases rest@.len(),
    {
        let ghost prefix_before = all.subrange(0, all.len() - rest@.len());
        let r = rest.remove(0);
        let ghost prefix_now = all.subrange(0, all.len() - rest@.len());
        proof {
            assert(rest@ =~= all.subrange(all.len() - rest@.len(), all.len() as int));
            assert(prefix_now.drop_last() =~= prefix_before);
            assert(prefix_now.last() == r);
        }
        match r {
            Reader::Firmware(f) => {
                firmware_readers.push(f);
                proof {
                    assert(firmware_readers@ =~= firmware_part(prefix_now));
                    assert(unsupported_readers@ =~= unsupported_part(prefix_now));
                    assert(other_readers@ =~= other_part(prefix_now));
                }
            },
            Reader::Unsupported(f) => {
                unsupported_readers.push(f);
                proof {
                    assert(firmware_readers@ =~= firmware_part(prefix_now));
                    assert(unsupported_readers@ =~= unsupported_part(prefix_now));
                    assert(other_readers@ =~= other_part(prefix_now));
                }
            },
            Reader::Other(n) => {
                other_readers.push(n);
                proof {
                    assert(firmware_readers@ =~= firmware_part(prefix_now));
                    assert(unsupported_readers@ =~= unsupported_part(prefix_now));
                    assert(other_readers@ =~= other_part(prefix_now));
                }
            },
        }
    }
    proof {
        assert(all.subrange(0, all.len() as int) =~= all);
    }
    ReaderStatus { firmware_readers, unsupported_readers, other_readers }
}

} // verus!
