//! The exchange that opens a session: the kernel sends its protocol version, and the filesystem
//! accepts the connection or does not.
use vstd::pervasive::unreached;
use vstd::prelude::*;

use crate::errno::{Errno, Errnos};
use crate::error::{raised, Error, ErrorKind, ErrorView};
use crate::operation::{AnyRequest, Operation, RequestHeader, Version};
use crate::text::{decimal, lemma_decimal_is_injective, lemma_decimal_is_signed, write_decimal};

verus! {

/// The major version of the FUSE protocol that the library speaks.
pub const FUSE_KERNEL_VERSION: u32 = 7;

/// The oldest minor version that the library supports.
pub const FUSE_MINIMUM_MINOR_VERSION: u32 = 6;

/// What the library makes of the protocol version that the kernel offers.
#[derive(Clone, Copy, Debug, PartialEq, Eq, Structural)]
pub enum VersionVerdict {
    /// The kernel is ahead: it is told the library's version and asked again.
    Newer,
    /// The kernel is too old.
    Unsupported,
    /// The library speaks this version.
    Supported,
}

/// Where the handshake stands.
#[derive(Clone, Copy, Debug, PartialEq, Eq, Structural)]
pub enum HandshakePhase {
    /// Waiting for the kernel to open the exchange.
    AwaitingInit,
    /// The filesystem has been asked whether it accepts.
    CallingInit { unique: u64, version: Version },
    /// The session is open.
    Established { version: Version },
    /// The handshake failed.
    Failed,
}

/// What the session does next.
#[derive(Debug)]
pub enum HandshakeAction {
    /// Give up, without a reply.
    Fail { error: Error },
    /// Answer with an error, and give up.
    ReplyErrnoAndFail { unique: u64, errno: Errno, error: Error },
    /// Answer with the library's version, and wait for the next request.
    ReplyVersionAndWait { unique: u64 },
    /// Ask the filesystem whether it accepts, with what the kernel offers.
    CallInit { header: RequestHeader, version: Version, capabilities: u64, max_readahead: u32 },
    /// Answer with the negotiated settings. The session is open.
    ReplyInit { unique: u64 },
}

/// The handshake of one session.
#[derive(Debug)]
pub struct Handshake {
    /// The error codes of the system.
    pub errnos: Errnos,
    /// Where it stands.
    pub phase: HandshakePhase,
}

/// Whether `version` is 7.6 or later, within the major version 7.
pub open spec fn is_supported(version: Version) -> bool {
    version.major == FUSE_KERNEL_VERSION && version.minor >= FUSE_MINIMUM_MINOR_VERSION
}

/// A later major version than the library's is newer, whatever its minor version is; anything
/// else that is not supported is too old.
pub open spec fn version_verdict(version: Version) -> VersionVerdict {
    if version.major > FUSE_KERNEL_VERSION {
        VersionVerdict::Newer
    } else if is_supported(version) {
        VersionVerdict::Supported
    } else {
        VersionVerdict::Unsupported
    }
}

/// How a version is written: `7.31`.
pub open spec fn version_text(version: Version) -> Seq<char> {
    decimal(version.major as int) + "."@ + decimal(version.minor as int)
}

impl Handshake {
    /// The versions that the handshake has settled on are ones that the library speaks.
    pub open spec fn wf(self) -> bool {
        match self.phase {
            HandshakePhase::CallingInit { version, .. } => is_supported(version),
            HandshakePhase::Established { version } => is_supported(version),
            _ => true,
        }
    }
}

/// The phase that a request leads to from `AwaitingInit`.
pub open spec fn phase_after_request(
    request: Result<AnyRequest, Seq<char>>,
    filesystem_present: bool,
) -> HandshakePhase {
    match request {
        Ok(AnyRequest { header, operation: Some(Operation::Init { version, .. }) }) => {
            match version_verdict(version) {
                VersionVerdict::Newer => HandshakePhase::AwaitingInit,
                VersionVerdict::Unsupported => HandshakePhase::Failed,
                VersionVerdict::Supported => if filesystem_present {
                    HandshakePhase::CallingInit { unique: header.unique, version }
                } else {
                    HandshakePhase::Failed
                },
            }
        },
        _ => HandshakePhase::Failed,
    }
}

/// The phase that the filesystem's answer leads to.
pub open spec fn phase_after_init(phase: HandshakePhase, accepted: bool) -> HandshakePhase {
    match phase {
        HandshakePhase::CallingInit { version, .. } if accepted => HandshakePhase::Established {
            version,
        },
        _ => HandshakePhase::Failed,
    }
}

/// The error with which a handshake ends on a request that it cannot accept.
pub open spec fn rejection(request: Result<AnyRequest, Seq<char>>) -> ErrorView {
    match request {
        Err(text) => raised(ErrorKind::InvalidData, text),
        Ok(AnyRequest { operation: None, .. }) => raised(
            ErrorKind::InvalidData,
            "Failed to parse FUSE operation"@,
        ),
        Ok(AnyRequest { operation: Some(Operation::Init { version, .. }), .. }) => {
            if is_supported(version) {
                raised(
                    ErrorKind::InvalidInput,
                    "Bug: filesystem must be initialized during handshake"@,
                )
            } else {
                raised(
                    ErrorKind::Unsupported,
                    "Unsupported FUSE ABI version "@ + version_text(version),
                )
            }
        },
        Ok(_) => raised(
            ErrorKind::InvalidData,
            "Received non-init FUSE operation during handshake"@,
        ),
    }
}

/// The error that the kernel is sent for a request that the handshake cannot accept: none for one
/// that does not decode (there is nothing to answer) and none for a missing filesystem.
pub open spec fn rejection_reply(errnos: Errnos, request: AnyRequest) -> Option<Errno> {
    match request.operation {
        None => None,
        Some(Operation::Init { version, .. }) => if is_supported(version) {
            None
        } else {
            Some(Errno { raw: errnos.eproto })
        },
        Some(_) => Some(Errno { raw: errnos.eio }),
    }
}

/// The error that the kernel is sent if the filesystem refuses: the code of its error, or zero if it
/// has none.
pub open spec fn refusal_reply(cause: ErrorView) -> Errno {
    Errno {
        raw: if cause.os is Some {
            cause.os->0
        } else {
            0
        },
    }
}

/// A request as the handshake's specification sees it: decoding has failed with a text, or not.
pub open spec fn request_view(request: Result<AnyRequest, String>) -> Result<
    AnyRequest,
    Seq<char>,
> {
    match request {
        Ok(request) => Ok(request),
        Err(text) => Err(text@),
    }
}

/// What the library makes of the protocol version that the kernel offers.
pub fn judge_version(version: Version) -> (verdict: VersionVerdict)
    ensures
        verdict == version_verdict(version),
        verdict == VersionVerdict::Newer <==> version.major > 7,
        verdict == VersionVerdict::Unsupported <==> version.major < 7 || (version.major == 7
            && version.minor < 6),
        verdict == VersionVerdict::Supported <==> version.major == 7 && version.minor >= 6,
{
    if version.major > FUSE_KERNEL_VERSION {
        VersionVerdict::Newer
    } else if version.major < FUSE_KERNEL_VERSION || (version.major == FUSE_KERNEL_VERSION
        && version.minor < FUSE_MINIMUM_MINOR_VERSION) {
        VersionVerdict::Unsupported
    } else {
        VersionVerdict::Supported
    }
}

/// Writes a version.
pub fn write_version(version: Version) -> (text: String)
    ensures
        text@ == version_text(version),
{
    let mut text = write_decimal(version.major as i64);
    text.append(".");
    text.append(write_decimal(version.minor as i64).as_str());
    text
}

/// What the handshake makes of an attempt to receive a request.
pub open spec fn handshake_reception(errnos: Errnos, received: Result<usize, ErrorView>) -> Result<
    usize,
    ErrorView,
> {
    match received {
        Ok(size) => Ok(size),
        Err(error) => if error.os == Some(errnos.enodev) {
            Err(raised(ErrorKind::NotConnected, "FUSE device disconnected during handshake"@))
        } else {
            Err(error)
        },
    }
}

/// A request that is received comes through with its size, and a failure stays the failure that it
/// is, but for a device that has gone away, which is "not connected".
pub proof fn lemma_only_a_lost_device_is_renamed(
    errnos: Errnos,
    received: Result<usize, ErrorView>,
)
    ensures
        received is Ok <==> handshake_reception(errnos, received) is Ok,
        handshake_reception(errnos, received) != received ==> received->Err_0.os == Some(
            errnos.enodev,
        ),
        (received matches Err(error) && error.os == Some(errnos.enodev)) ==> (handshake_reception(
            errnos,
            received,
        ) matches Err(cause) && cause.kind == ErrorKind::NotConnected && cause.os is None),
{
}

/// What the handshake makes of an attempt to receive a request: a device that has gone away is
/// "not connected", and any other failure is handed on.
pub fn received_during_handshake(errnos: Errnos, received: Result<usize, Error>) -> (outcome:
    Result<usize, Error>)
    ensures
        match (handshake_reception(
            errnos,
            match received {
                Ok(size) => Ok(size),
                Err(error) => Err(error@),
            },
        )) {
            Ok(size) => outcome == Ok::<usize, Error>(size),
            Err(view) => outcome matches Err(cause) && cause@ == view,
        },
        match received {
            Ok(size) => outcome == Ok::<usize, Error>(size),
            Err(error) => outcome matches Err(cause) && cause@ == (if error.os == Some(errnos.enodev) {
                raised(ErrorKind::NotConnected, "FUSE device disconnected during handshake"@)
            } else {
                error@
            }),
        },
{
    match received {
        Ok(size) => Ok(size),
        Err(error) => {
            match error.raw_os_error() {
                Some(code) if code == errnos.enodev => Err(
                    Error::new(
                        ErrorKind::NotConnected,
                        "FUSE device disconnected during handshake",
                    ),
                ),
                _ => Err(error),
            }
        },
    }
}

impl Handshake {
    /// A handshake that waits for the kernel.
    pub fn new(errnos: Errnos) -> (handshake: Handshake)
        ensures
            handshake.errnos == errnos,
            handshake.phase == HandshakePhase::AwaitingInit,
            handshake.wf(),
    {
        Handshake { errnos, phase: HandshakePhase::AwaitingInit }
    }

    /// The protocol version of the session, as reported by the kernel, once it is open.
    pub fn proto_version(&self) -> (version: Option<Version>)
        ensures
            version == (match self.phase {
                HandshakePhase::Established { version } => Some(version),
                _ => None::<Version>,
            }),
    {
        match self.phase {
            HandshakePhase::Established { version } => Some(version),
            _ => None,
        }
    }

    /// Takes a request of the kernel, or the text of the error that its bytes decode to.
    pub fn on_request(
        &mut self,
        request: Result<AnyRequest, String>,
        filesystem_present: bool,
    ) -> (action: HandshakeAction)
        requires
            old(self).phase == HandshakePhase::AwaitingInit,
        ensures
            final(self).errnos == old(self).errnos,
            final(self).wf(),
            final(self).phase == phase_after_request(request_view(request), filesystem_present),
            (request matches Ok(parsed) && parsed.operation matches Some(
                Operation::Init { version, .. },
            )) ==> {
                let version = request->Ok_0.operation->0->Init_version;
                let old_version = version.major < 7 || (version.major == 7 && version.minor < 6);
                &&& action is ReplyVersionAndWait <==> version.major > 7
                &&& action is ReplyErrnoAndFail <==> old_version
                &&& action is CallInit <==> version.major == 7 && version.minor >= 6
                    && filesystem_present
                &&& action is Fail <==> version.major == 7 && version.minor >= 6
                    && !filesystem_present
                &&& action is CallInit ==> action->version == version
            },
            match final(self).phase {
                HandshakePhase::AwaitingInit => action == HandshakeAction::ReplyVersionAndWait {
                    unique: request->Ok_0.header.unique,
                },
                HandshakePhase::CallingInit { .. } => action matches HandshakeAction::CallInit {
                    header,
                    version,
                    capabilities,
                    max_readahead,
                } && header == request->Ok_0.header && request->Ok_0.operation == Some(
                    Operation::Init { version, capabilities, max_readahead },
                ),
                _ => if request matches Ok(parsed) && rejection_reply(old(self).errnos, parsed) matches Some(reply) {
                    action matches HandshakeAction::ReplyErrnoAndFail { unique, errno, error }
                        && unique == request->Ok_0.header.unique && Some(errno) == rejection_reply(
                        old(self).errnos,
                        request->Ok_0,
                    ) && error@ == rejection(request_view(request))
                } else {
                    action matches HandshakeAction::Fail { error } && error@ == rejection(
                        request_view(request),
                    )
                },
            },
    {
        self.phase = HandshakePhase::Failed;
        let request = match request {
            Ok(request) => request,
            Err(text) => {
                return HandshakeAction::Fail {
                    error: Error::new(ErrorKind::InvalidData, text.as_str()),
                };
            },
        };
        let header = request.header;
        let op = match request.operation {
            Some(op) => op,
            None => {
                return HandshakeAction::Fail {
                    error: Error::new(ErrorKind::InvalidData, "Failed to parse FUSE operation"),
                };
            },
        };
        match op {
            Operation::Init { version, capabilities, max_readahead } => {
                match judge_version(version) {
                    VersionVerdict::Newer => {
                        self.phase = HandshakePhase::AwaitingInit;
                        HandshakeAction::ReplyVersionAndWait { unique: header.unique }
                    },
                    VersionVerdict::Unsupported => {
                        let mut text = "Unsupported FUSE ABI version ".to_owned();
                        text.append(write_version(version).as_str());
                        HandshakeAction::ReplyErrnoAndFail {
                            unique: header.unique,
                            errno: Errno { raw: self.errnos.eproto },
                            error: Error::new(ErrorKind::Unsupported, text.as_str()),
                        }
                    },
                    VersionVerdict::Supported => {
                        if filesystem_present {
                            self.phase = HandshakePhase::CallingInit {
                                unique: header.unique,
                                version,
                            };
                            HandshakeAction::CallInit { header, version, capabilities, max_readahead }
                        } else {
                            HandshakeAction::Fail {
                                error: Error::new(
                                    ErrorKind::InvalidInput,
                                    "Bug: filesystem must be initialized during handshake",
                                ),
                            }
                        }
                    },
                }
            },
            _ => HandshakeAction::ReplyErrnoAndFail {
                unique: header.unique,
                errno: Errno { raw: self.errnos.eio },
                error: Error::new(
                    ErrorKind::InvalidData,
                    "Received non-init FUSE operation during handshake",
                ),
            },
        }
    }

    /// Takes the filesystem's answer. A filesystem that refuses ends the handshake with its own
    /// error, and the reply is made for the code of that error, or for zero if it has none.
    pub fn on_init(&mut self, answer: Result<(), Error>) -> (action: HandshakeAction)
        requires
            old(self).wf(),
            old(self).phase is CallingInit,
        ensures
            final(self).errnos == old(self).errnos,
            final(self).wf(),
            final(self).phase == phase_after_init(old(self).phase, answer is Ok),
            match answer {
                Ok(()) => action == HandshakeAction::ReplyInit {
                    unique: old(self).phase->unique,
                },
                Err(cause) => action == HandshakeAction::ReplyErrnoAndFail {
                    unique: old(self).phase->unique,
                    errno: Errno {
                        raw: if cause.os is Some {
                            cause.os->0
                        } else {
                            0
                        },
                    },
                    error: cause,
                },
            },
            answer matches Err(cause) ==> (action matches HandshakeAction::ReplyErrnoAndFail {
                errno,
                ..
            } && errno == refusal_reply(cause@)),
    {
        match self.phase {
            HandshakePhase::CallingInit { unique, version } => match answer {
                Ok(()) => {
                    self.phase = HandshakePhase::Established { version };
                    HandshakeAction::ReplyInit { unique }
                },
                Err(error) => {
                    self.phase = HandshakePhase::Failed;
                    let raw: i32 = error.raw_os_error().unwrap_or(0);
                    HandshakeAction::ReplyErrnoAndFail { unique, errno: Errno { raw }, error }
                },
            },
            _ => unreached(),
        }
    }
}

/// Something that happens to a handshake.
pub enum HandshakeEvent {
    /// A request arrives.
    Request { request: Result<AnyRequest, Seq<char>>, filesystem_present: bool },
    /// The filesystem answers.
    Answer { accepted: bool },
}

/// The phase that an event leads to. An open session and a failed handshake stay what they are,
/// and an event that the phase does not wait for changes nothing.
pub open spec fn phase_after(phase: HandshakePhase, event: HandshakeEvent) -> HandshakePhase {
    match (phase, event) {
        (
            HandshakePhase::AwaitingInit,
            HandshakeEvent::Request { request, filesystem_present },
        ) => phase_after_request(request, filesystem_present),
        (
            HandshakePhase::CallingInit { .. },
            HandshakeEvent::Answer { accepted },
        ) => phase_after_init(phase, accepted),
        _ => phase,
    }
}

/// The phase of a new handshake after a number of events.
pub open spec fn phase_after_all(events: Seq<HandshakeEvent>) -> HandshakePhase
    decreases events.len(),
{
    if events.len() == 0 {
        HandshakePhase::AwaitingInit
    } else {
        phase_after(phase_after_all(events.drop_last()), events.last())
    }
}

/// Whether an event is the kernel's offer of a protocol version.
pub open spec fn offers(event: HandshakeEvent, version: Version) -> bool {
    event matches HandshakeEvent::Request { request: Ok(request), .. } && request.operation matches
        Some(Operation::Init { version: offered, .. }) && offered == version
}

/// A session opens with a version that the kernel offered and that the library speaks, and only
/// after the filesystem accepted it.
pub proof fn lemma_open_session_is_negotiated(events: Seq<HandshakeEvent>, version: Version)
    requires
        phase_after_all(events) == (HandshakePhase::Established { version }),
    ensures
        is_supported(version),
        exists|i: int, j: int|
            0 <= i < j < events.len() && #[trigger] offers(events[i], version)
                && #[trigger] events[j] == (HandshakeEvent::Answer { accepted: true }),
    decreases events.len(),
{
    let earlier = events.drop_last();
    let last = events.len() - 1;
    if phase_after_all(earlier) is Established {
        lemma_open_session_is_negotiated(earlier, version);
        let (i, j) = choose|i: int, j: int|
            0 <= i < j < earlier.len() && #[trigger] offers(earlier[i], version)
                && #[trigger] earlier[j] == (HandshakeEvent::Answer { accepted: true });
        assert(offers(events[i], version) && events[j] == earlier[j]);
    } else {
        let unique = phase_after_all(earlier)->unique;
        lemma_pending_version_was_offered(earlier, unique, version);
        let i = choose|i: int| 0 <= i < earlier.len() && #[trigger] offers(earlier[i], version);
        assert(offers(events[i], version) && events[last] == (HandshakeEvent::Answer {
            accepted: true,
        }));
    }
}

/// The version that the filesystem is asked about is one that the kernel offered and that the
/// library speaks.
pub proof fn lemma_pending_version_was_offered(
    events: Seq<HandshakeEvent>,
    unique: u64,
    version: Version,
)
    requires
        phase_after_all(events) == (HandshakePhase::CallingInit { unique, version }),
    ensures
        is_supported(version),
        exists|i: int| 0 <= i < events.len() && #[trigger] offers(events[i], version),
    decreases events.len(),
{
    let earlier = events.drop_last();
    if phase_after_all(earlier) is CallingInit {
        lemma_pending_version_was_offered(earlier, unique, version);
        let i = choose|i: int| 0 <= i < earlier.len() && #[trigger] offers(earlier[i], version);
        assert(offers(events[i], version));
    } else {
        assert(offers(events[events.len() - 1], version));
    }
}

/// Whether an event is the kernel's offer of a later major version than the library's.
pub open spec fn offers_newer(event: HandshakeEvent) -> bool {
    event matches HandshakeEvent::Request { request: Ok(request), .. } && request.operation matches
        Some(Operation::Init { version, .. }) && version.major > FUSE_KERNEL_VERSION
}

/// However often a kernel offers a later major version, the handshake waits for its next offer.
pub proof fn lemma_newer_kernel_is_asked_again(events: Seq<HandshakeEvent>)
    requires
        forall|i: int| 0 <= i < events.len() ==> #[trigger] offers_newer(events[i]),
    ensures
        phase_after_all(events) == HandshakePhase::AwaitingInit,
    decreases events.len(),
{
    if events.len() > 0 {
        let earlier = events.drop_last();
        assert forall|i: int| 0 <= i < earlier.len() implies #[trigger] offers_newer(
            earlier[i],
        ) by {
            assert(offers_newer(events[i]));
        }
        lemma_newer_kernel_is_asked_again(earlier);
        assert(offers_newer(events[events.len() - 1]));
    }
}

/// A handshake that has ended, well or badly, is not changed by anything that comes after.
pub proof fn lemma_ended_handshake_stays(phase: HandshakePhase, event: HandshakeEvent)
    requires
        phase is Established || phase is Failed,
    ensures
        phase_after(phase, event) == phase,
{
}

/// How a capability of the protocol came out.
#[derive(Clone, Copy, Debug, PartialEq, Eq, Structural)]
pub enum CapabilityStatus {
    /// Asked for, and supported by the kernel.
    Enabled,
    /// Asked for, and not supported by the kernel.
    NotSupported,
    /// Supported by the kernel, and not asked for.
    NotRequested,
    /// Neither.
    Unused,
}

/// Whether a set of capabilities, one to a bit, holds capability `bit`.
pub open spec fn has_capability(set: u64, bit: u32) -> bool {
    (set >> bit) & 1 == 1
}

/// How capability `bit` came out, between a kernel that supports the set `kernel` and a
/// filesystem that asks for the set `requested`.
pub open spec fn capability_outcome(kernel: u64, requested: u64, bit: u32) -> CapabilityStatus {
    match (has_capability(requested, bit), has_capability(kernel, bit)) {
        (true, true) => CapabilityStatus::Enabled,
        (true, false) => CapabilityStatus::NotSupported,
        (false, true) => CapabilityStatus::NotRequested,
        (false, false) => CapabilityStatus::Unused,
    }
}

/// How capability `bit` came out, if that is worth a note.
pub open spec fn noted_outcome(
    kernel: u64,
    requested: u64,
    bit: u32,
    named: bool,
    init_ext: bool,
) -> Option<CapabilityStatus> {
    if init_ext || (!named && capability_outcome(kernel, requested, bit)
        == CapabilityStatus::Unused) {
        None
    } else {
        Some(capability_outcome(kernel, requested, bit))
    }
}

/// How capability `bit` came out, if that is worth a note. It is not for the bit that extends the
/// set itself (`init_ext`), nor for a capability without a name that nobody asks for or supports.
pub fn capability_status(kernel: u64, requested: u64, bit: u32, named: bool, init_ext: bool) -> (
    status: Option<CapabilityStatus>)
    requires
        bit < 64,
    ensures
        status == (if init_ext || (!named && capability_outcome(kernel, requested, bit)
            == CapabilityStatus::Unused) {
            None
        } else {
            Some(capability_outcome(kernel, requested, bit))
        }),
        capability_outcome(kernel, requested, bit) == CapabilityStatus::Enabled <==> has_capability(
            kernel & requested,
            bit,
        ),
        status == noted_outcome(kernel, requested, bit, named, init_ext),
{
    assert(((kernel & requested) >> bit) & 1 == 1 <==> (kernel >> bit) & 1 == 1 && (requested
        >> bit) & 1 == 1) by (bit_vector);
    if init_ext {
        return None;
    }
    let supported: bool = (kernel >> bit) & 1 == 1;
    let wanted: bool = (requested >> bit) & 1 == 1;
    if wanted && supported {
        Some(CapabilityStatus::Enabled)
    } else if wanted {
        Some(CapabilityStatus::NotSupported)
    } else if supported {
        Some(CapabilityStatus::NotRequested)
    } else if named {
        Some(CapabilityStatus::Unused)
    } else {
        None
    }
}

/// What capability `bit` is called in notes: by its name, if it has one.
pub fn capability_name(name: Option<String>, bit: u32) -> (text: String)
    ensures
        text@ == (match name {
            Some(known) => known@,
            None => "(1 << "@ + decimal(bit as int) + ")"@,
        }),
{
    match name {
        Some(known) => known,
        None => {
            let mut text = "(1 << ".to_owned();
            text.append(write_decimal(bit as i64).as_str());
            text.append(")");
            text
        },
    }
}

/// Versions are judged by the numbers: before 7.6 they are unsupported, with a later major version
/// than 7 they are newer, and all others are supported. So within the major version, whatever is
/// later than a supported version is supported.
pub proof fn lemma_versions_are_judged_in_order(version: Version, later: Version)
    ensures
        version_verdict(version) == VersionVerdict::Unsupported <==> version.major < 7 || (
        version.major == 7 && version.minor < 6),
        version_verdict(version) == VersionVerdict::Newer <==> version.major > 7,
        version_verdict(version) == VersionVerdict::Supported <==> version.major == 7
            && version.minor >= 6,
        is_supported(version) <==> version_verdict(version) == VersionVerdict::Supported,
        version_verdict(version) == VersionVerdict::Supported && later.major == version.major
            && later.minor >= version.minor ==> version_verdict(later)
            == VersionVerdict::Supported,
{
}

/// Two versions that are written alike are the same, and a version is written with its major version
/// first.
pub proof fn lemma_version_text_tells_versions_apart(a: Version, b: Version)
    ensures
        decimal(a.major as int).is_prefix_of(version_text(a)),
        version_text(a)[decimal(a.major as int).len() as int] == '.',
        version_text(a).skip(decimal(a.major as int).len() as int + 1) == decimal(a.minor as int),
        version_text(a) == version_text(b) ==> a == b,
{
    reveal_strlit(".");
    let (high_a, high_b) = (decimal(a.major as int), decimal(b.major as int));
    let (low_a, low_b) = (decimal(a.minor as int), decimal(b.minor as int));
    lemma_decimal_is_signed(a.major as int);
    lemma_decimal_is_signed(b.major as int);
    assert(version_text(a) =~= high_a + seq!['.'] + low_a);
    assert(version_text(b) =~= high_b + seq!['.'] + low_b);
    assert(version_text(a).skip(high_a.len() as int + 1) =~= low_a);
    if version_text(a) == version_text(b) {
        if high_a.len() < high_b.len() {
            assert(version_text(b)[high_a.len() as int] == high_b[high_a.len() as int]);
        }
        if high_b.len() < high_a.len() {
            assert(version_text(a)[high_b.len() as int] == high_a[high_b.len() as int]);
        }
        assert(high_a =~= high_b) by {
            assert forall|i: int| 0 <= i < high_a.len() implies high_a[i] == high_b[i] by {
                assert(version_text(a)[i] == high_a[i]);
                assert(version_text(b)[i] == high_b[i]);
            }
        }
        assert(version_text(b).skip(high_b.len() as int + 1) =~= low_b);
        lemma_decimal_is_injective(a.major as int, b.major as int);
        lemma_decimal_is_injective(a.minor as int, b.minor as int);
    }
}

/// A kernel that offers a version from 7.6 on, within the major version 7, gets a session with that
/// version if there is a filesystem and it accepts, however often the kernel offered a later major
/// version before; and gets none if the filesystem refuses.
pub proof fn lemma_accepted_offer_opens_the_session(
    earlier: Seq<HandshakeEvent>,
    request: AnyRequest,
    accepted: bool,
)
    requires
        forall|i: int| 0 <= i < earlier.len() ==> #[trigger] offers_newer(earlier[i]),
        request.operation is Some,
        request.operation->0 is Init,
        request.operation->0->Init_version.major == 7,
        request.operation->0->Init_version.minor >= 6,
    ensures
        ({
            let version = request.operation->0->Init_version;
            let offer = HandshakeEvent::Request { request: Ok(request), filesystem_present: true };
            let offered = earlier.push(offer);
            let answered = offered.push(HandshakeEvent::Answer { accepted });
            &&& phase_after_all(offered) == (HandshakePhase::CallingInit {
                unique: request.header.unique,
                version,
            })
            &&& accepted ==> phase_after_all(answered) == (HandshakePhase::Established { version })
            &&& !accepted ==> phase_after_all(answered) == HandshakePhase::Failed
        }),
{
    let offer = HandshakeEvent::Request { request: Ok(request), filesystem_present: true };
    let offered = earlier.push(offer);
    let answered = offered.push(HandshakeEvent::Answer { accepted });
    lemma_newer_kernel_is_asked_again(earlier);
    assert(offered.drop_last() =~= earlier);
    assert(answered.drop_last() =~= offered);
}

/// A request that the handshake cannot accept ends it, with an error that says why: bytes that do
/// not decode, in the words of the decoder; a request that names no operation; an operation other
/// than the opening; and a version before 7.6, which it names. The kernel is answered only where
/// there is an operation to answer, with an input/output error or, for a version, a protocol error.
pub proof fn lemma_unacceptable_requests_end_the_handshake(
    errnos: Errnos,
    request: Result<AnyRequest, Seq<char>>,
    present: bool,
)
    requires
        match request {
            Ok(parsed) => match parsed.operation {
                Some(Operation::Init { version, .. }) => version.major < 7 || (version.major == 7
                    && version.minor < 6),
                _ => true,
            },
            Err(_) => true,
        },
    ensures
        phase_after_request(request, present) == HandshakePhase::Failed,
        rejection(request).os is None,
        match request {
            Err(text) => rejection(request).kind == ErrorKind::InvalidData
                && rejection(request).message == text,
            Ok(parsed) => match parsed.operation {
                None => rejection_reply(errnos, parsed) is None && rejection(request).kind
                    == ErrorKind::InvalidData && rejection(request).message
                    == "Failed to parse FUSE operation"@,
                Some(Operation::Init { version, .. }) => rejection_reply(errnos, parsed) == Some(
                    Errno { raw: errnos.eproto },
                ) && rejection(request).kind == ErrorKind::Unsupported
                    && rejection(request).message == "Unsupported FUSE ABI version "@
                    + version_text(version),
                Some(_) => rejection_reply(errnos, parsed) == Some(Errno { raw: errnos.eio })
                    && rejection(request).kind == ErrorKind::InvalidData
                    && rejection(request).message
                    == "Received non-init FUSE operation during handshake"@,
            },
        },
{
}

/// A set of capabilities holds what it was made of: a single capability is in it under its own bit
/// and no other, and two sets together hold what either does.
pub proof fn lemma_capabilities_are_single_bits(a: u64, b: u64, bit: u32, other: u32)
    requires
        bit < 64,
        other < 64,
    ensures
        has_capability(1u64 << bit, other) <==> bit == other,
        !has_capability(0, bit),
        has_capability(a | b, bit) <==> has_capability(a, bit) || has_capability(b, bit),
        capability_outcome(a, b, bit) == CapabilityStatus::Enabled <==> has_capability(b, bit)
            && has_capability(a, bit),
        capability_outcome(a, b, bit) == CapabilityStatus::NotSupported <==> has_capability(b, bit)
            && !has_capability(a, bit),
        capability_outcome(a, b, bit) == CapabilityStatus::NotRequested <==> !has_capability(b, bit)
            && has_capability(a, bit),
{
    assert(((1u64 << bit) >> other) & 1 == 1 <==> bit == other) by (bit_vector)
        requires
            bit < 64,
            other < 64,
    ;
    assert((0u64 >> bit) & 1 == 0) by (bit_vector);
    assert(((a | b) >> bit) & 1 == 1 <==> (a >> bit) & 1 == 1 || (b >> bit) & 1 == 1)
        by (bit_vector);
}

/// A filesystem that refuses has the code of its error sent to the kernel: different codes are told
/// apart, and an error without a code is sent as zero.
pub proof fn lemma_refusal_is_sent_as_its_code(cause: ErrorView, other: ErrorView)
    ensures
        cause.os matches Some(code) ==> refusal_reply(cause).raw == code,
        cause.os is None ==> refusal_reply(cause).raw == 0,
        cause.os is Some && other.os is Some && cause.os != other.os ==> refusal_reply(cause)
            != refusal_reply(other),
{
}

/// A version that the library speaks, where there is no filesystem to open a session for, ends the
/// handshake with an error of its own, and the kernel is not answered.
pub proof fn lemma_missing_filesystem_ends_the_handshake(errnos: Errnos, request: AnyRequest)
    requires
        request.operation is Some,
        request.operation->0 is Init,
        request.operation->0->Init_version.major == 7,
        request.operation->0->Init_version.minor >= 6,
    ensures
        phase_after_request(Ok(request), false) == HandshakePhase::Failed,
        rejection_reply(errnos, request) is None,
        rejection(Ok(request)) == (ErrorView {
            kind: ErrorKind::InvalidInput,
            os: None,
            message: "Bug: filesystem must be initialized during handshake"@,
        }),
{
}

/// Of the capabilities, the one that extends the set is never noted; of the others, one that has a
/// name is always noted, and one that has none exactly if the kernel supports it or the filesystem
/// asks for it.
pub proof fn lemma_which_capabilities_are_noted(
    kernel: u64,
    requested: u64,
    bit: u32,
    named: bool,
)
    ensures
        noted_outcome(kernel, requested, bit, named, true) is None,
        noted_outcome(kernel, requested, bit, true, false) is Some,
        noted_outcome(kernel, requested, bit, false, false) is Some <==> has_capability(kernel, bit)
            || has_capability(requested, bit),
        noted_outcome(kernel, requested, bit, named, false) matches Some(status) ==> {
            &&& status == CapabilityStatus::Enabled <==> has_capability(kernel, bit)
                && has_capability(requested, bit)
            &&& status == CapabilityStatus::NotSupported <==> !has_capability(kernel, bit)
                && has_capability(requested, bit)
            &&& status == CapabilityStatus::NotRequested <==> has_capability(kernel, bit)
                && !has_capability(requested, bit)
        },
{
}

} // verus!
