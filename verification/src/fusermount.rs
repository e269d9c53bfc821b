//! The set-user-ID helper that mounts and unmounts for users who may not: which program it is,
//! how it is called, and what its answers mean.
use vstd::pervasive::unreached;
use vstd::prelude::*;
use vstd::utf8::{decode_utf8, valid_utf8};

use crate::errno::Errnos;
use crate::error::{os_error, raised, Error, ErrorKind, ErrorView};
use crate::mount_options::{has_auto_unmount, wants_auto_unmount, MountOption};
use crate::platform::Platform;
use crate::text::{
    contains_text, decimal, ends_in, ends_with_text, occurs, stands_at, write_decimal,
};

verus! {

/// What the standard library makes of bytes that should be text.
pub uninterp spec fn utf8_lossy(bytes: Seq<u8>) -> Seq<char>;

/// Calls `String::from_utf8_lossy`. The text is a function of the bytes, and is what they encode
/// if they are valid UTF-8; what stands in for other bytes is not stated.
#[verifier::external_body]
fn lossy_text(bytes: &[u8]) -> (text: String)
    ensures
        text@ == utf8_lossy(bytes@),
        valid_utf8(bytes@) ==> text@ == decode_utf8(bytes@),
{
    String::from_utf8_lossy(bytes).into_owned()
}

/// What a search for the first match of a regular expression captures as group `group`: `None` if
/// nothing matches, `Some(None)` if the group took no part in the match.
pub uninterp spec fn regex_capture(
    pattern: Seq<char>,
    haystack: Seq<u8>,
    group: nat,
) -> Option<Option<Seq<u8>>>;

/// The bytes that a search captured, as a sequence.
pub open spec fn capture_view(captured: Option<Option<Vec<u8>>>) -> Option<Option<Seq<u8>>> {
    match captured {
        None => None,
        Some(None) => Some(None),
        Some(Some(bytes)) => Some(Some(bytes@)),
    }
}

/// Whether `part` stands in one piece somewhere in `whole`.
pub open spec fn is_part_of(part: Seq<u8>, whole: Seq<u8>) -> bool {
    exists|from: int, to: int|
        0 <= from <= to <= whole.len() && part == #[trigger] whole.subrange(from, to)
}

/// The words that stand between the helper's name and the mount point in a report, as bytes:
/// `: failed to unmount `.
pub open spec fn report_words() -> Seq<u8> {
    seq![
        ':' as u8,
        ' ' as u8,
        'f' as u8,
        'a' as u8,
        'i' as u8,
        'l' as u8,
        'e' as u8,
        'd' as u8,
        ' ' as u8,
        't' as u8,
        'o' as u8,
        ' ' as u8,
        'u' as u8,
        'n' as u8,
        'm' as u8,
        'o' as u8,
        'u' as u8,
        'n' as u8,
        't' as u8,
        ' ' as u8,
    ]
}

/// Where `byte` stands in `text` for the first time, at `from` or later; the end, if it does not.
pub open spec fn next_byte(text: Seq<u8>, byte: u8, from: int) -> int
    decreases text.len() - from,
{
    if from >= text.len() {
        text.len() as int
    } else if text[from] == byte {
        from
    } else {
        next_byte(text, byte, from + 1)
    }
}

/// Where the mount point ends in a report whose words stand at `at`: at the next colon.
pub open spec fn mount_point_end(text: Seq<u8>, at: int) -> int {
    next_byte(text, ':' as u8, at + report_words().len())
}

/// Whether the words of a report stand at `at`: after something other than a colon, and before a
/// mount point, which is not empty, a colon, a space, and an error, which is not empty either.
pub open spec fn is_report_at(text: Seq<u8>, at: int) -> bool {
    let from = at + report_words().len();
    let end = mount_point_end(text, at);
    &&& 1 <= at
    &&& from <= text.len()
    &&& text[at - 1] != ':' as u8
    &&& text.subrange(at, from) == report_words()
    &&& from < end
    &&& end + 2 < text.len()
    &&& text[end + 1] == ' ' as u8
    &&& text[end + 2] != '\n' as u8
}

/// The error of the first report in `text` whose words stand at `at` or later: the rest of the line
/// after the mount point.
pub open spec fn first_report(text: Seq<u8>, at: int) -> Option<Seq<u8>>
    decreases text.len() - at,
{
    if at >= text.len() {
        None
    } else if is_report_at(text, at) {
        let error = mount_point_end(text, at) + 2;
        Some(text.subrange(error, next_byte(text, '\n' as u8, error)))
    } else {
        first_report(text, at + 1)
    }
}

/// What the third group of the library's own pattern captures in `text`: the error of the first
/// report.
pub open spec fn reported_group(text: Seq<u8>) -> Option<Option<Seq<u8>>> {
    match first_report(text, 0) {
        Some(error) => Some(Some(error)),
        None => None,
    }
}

/// Calls `regex::bytes::Regex::new`, then `captures` on the haystack and `get` on what was
/// captured. The result is a function of the pattern, the haystack and the group, and a group that
/// took part in the match is a piece of the haystack. Of the library's own pattern, it is stated
/// that it compiles, and what its third group captures in a haystack that is valid UTF-8. Of other
/// patterns and haystacks it is not stated whether they compile or what they match; nor is the text
/// of the error of a pattern that does not compile.
#[verifier::external_body]
fn capture_group(pattern: &str, haystack: &[u8], group: usize) -> (captured: Result<
    Option<Option<Vec<u8>>>,
    String,
>)
    ensures
        pattern@ == unmount_error_pattern() ==> captured is Ok,
        captured matches Ok(found) ==> capture_view(found) == regex_capture(
            pattern@,
            haystack@,
            group as nat,
        ),
        captured matches Ok(Some(Some(bytes))) ==> is_part_of(bytes@, haystack@),
        pattern@ == unmount_error_pattern() && group == 3 && valid_utf8(haystack@)
            ==> captured is Ok && capture_view(captured->Ok_0) == reported_group(haystack@),
{
    let compiled = regex::bytes::Regex::new(pattern).map_err(|e| e.to_string())?;
    let captures = compiled.captures(haystack);
    Ok(captures.map(|c| c.get(group).map(|m| m.as_bytes().to_vec())))
}

/// The programs that may be the helper, in the order in which they are tried.
pub open spec fn helper_candidate_names() -> Seq<Seq<char>> {
    seq![
        "fusermount3"@,
        "fusermount"@,
        "mount_fusefs"@,
        "/sbin/fusermount3"@,
        "/sbin/fusermount"@,
        "/sbin/mount_fusefs"@,
        "/bin/fusermount3"@,
        "/bin/fusermount"@,
    ]
}

/// The programs that may be the helper, in the order in which they are tried.
pub fn helper_candidates() -> (names: Vec<String>)
    ensures
        names.deep_view() == helper_candidate_names(),
{
    let mut names: Vec<String> = Vec::new();
    names.push("fusermount3".to_owned());
    names.push("fusermount".to_owned());
    names.push("mount_fusefs".to_owned());
    names.push("/sbin/fusermount3".to_owned());
    names.push("/sbin/fusermount".to_owned());
    names.push("/sbin/mount_fusefs".to_owned());
    names.push("/bin/fusermount3".to_owned());
    names.push("/bin/fusermount".to_owned());
    assert(names.deep_view() =~= helper_candidate_names());
    names
}

/// Whether candidate `at` is the first that could be run, where `ran[i]` says whether candidate
/// `i` could.
pub open spec fn is_first_that_ran(ran: Seq<bool>, at: int) -> bool {
    0 <= at < ran.len() && ran[at] && forall|earlier: int| 0 <= earlier < at ==> !ran[earlier]
}

/// Decides which program is the helper: the one that the user names, if any, else the first
/// candidate that could be run, else the first candidate of all. `ran[i]` says whether candidate
/// `i` could be run; the candidates beyond the end of `ran` have not been tried.
pub fn detect_fusermount_bin(named: Option<String>, ran: &Vec<bool>) -> (program: String)
    requires
        ran@.len() <= helper_candidate_names().len(),
    ensures
        named matches Some(name) ==> program@ == name@,
        named is None ==> forall|at: int| #[trigger]
            is_first_that_ran(ran@, at) ==> program@ == helper_candidate_names()[at],
        named is None && (forall|i: int| 0 <= i < ran@.len() ==> !ran@[i]) ==> program@
            == "fusermount3"@,
{
    match named {
        Some(name) => name,
        None => first_candidate_that_ran(ran),
    }
}

fn first_candidate_that_ran(ran: &Vec<bool>) -> (program: String)
    requires
        ran@.len() <= helper_candidate_names().len(),
    ensures
        forall|at: int| #[trigger]
            is_first_that_ran(ran@, at) ==> program@ == helper_candidate_names()[at],
        (forall|i: int| 0 <= i < ran@.len() ==> !ran@[i]) ==> program@ == "fusermount3"@,
{
    let names = helper_candidates();
    assert(names.len() == helper_candidate_names().len()) by {
        assert(names.deep_view().len() == names.len());
    }
    let mut i: usize = 0;
    while i < ran.len()
        invariant
            i <= ran.len() <= names.len(),
            names.deep_view() == helper_candidate_names(),
            forall|j: int| 0 <= j < i ==> !ran@[j],
        decreases ran.len() - i,
    {
        if ran[i] {
            let program = names[i].clone();
            assert(program@ == names.deep_view()[i as int]);
            return program;
        }
        i = i + 1;
    }
    "fusermount3".to_owned()
}

/// Whether the helper is the one of the BSDs, which is handed an open device and takes other
/// arguments.
pub fn is_mount_fusefs(program: &str) -> (yes: bool)
    ensures
        yes == ends_in(program@, "mount_fusefs"@),
{
    ends_with_text(program, "mount_fusefs")
}

/// How a filesystem comes to be mounted.
#[derive(Clone, Copy, Debug, PartialEq, Eq, Structural)]
pub enum MountRoute {
    /// By the helper.
    Helper,
    /// By the mount call, and by the helper if that is not permitted.
    DirectThenHelper,
}

/// Decides how to mount. The mount call is tried first where the library knows it, unless the
/// filesystem is to be unmounted when the process goes away, which only the helper can see to.
pub fn mount_route(options: &Vec<MountOption>, platform: Platform) -> (route: MountRoute)
    ensures
        route == MountRoute::DirectThenHelper <==> (!wants_auto_unmount(options@) && (platform
            == Platform::Linux || platform == Platform::MacOs)),
{
    if has_auto_unmount(options) {
        MountRoute::Helper
    } else {
        match platform {
            Platform::Linux | Platform::MacOs => MountRoute::DirectThenHelper,
            Platform::Other => MountRoute::Helper,
        }
    }
}

/// What a mount call that did not fail for good comes to.
#[derive(Clone, Copy, Debug, PartialEq, Eq, Structural)]
pub enum DirectMount {
    /// The filesystem is mounted.
    Mounted,
    /// The user may not mount: the helper has to.
    UseHelper,
}

/// The text of the error of a mount call.
pub open spec fn mount_call_error_text(
    mountpoint: Seq<char>,
    data: Seq<char>,
    flags: Seq<char>,
    cause: Seq<char>,
) -> Seq<char> {
    "Error calling mount() at "@ + mountpoint + " with "@ + data + " and flags="@ + flags + ": "@
        + cause
}

/// Decides what a mount call comes to, from its error code if it failed. The texts are those of
/// the mount point, of the option list, of the flags and of the error.
pub fn direct_mount_outcome(
    errnos: Errnos,
    result: Result<(), i32>,
    mountpoint: &str,
    data: &str,
    flags: &str,
    cause: &str,
) -> (outcome: Result<DirectMount, Error>)
    ensures
        result is Ok <==> outcome == Ok::<DirectMount, Error>(DirectMount::Mounted),
        result == Err::<(), i32>(errnos.eperm) <==> outcome == Ok::<DirectMount, Error>(
            DirectMount::UseHelper,
        ),
        outcome matches Err(error) ==> error@ == raised(
            ErrorKind::Other,
            mount_call_error_text(mountpoint@, data@, flags@, cause@),
        ),
        outcome matches Err(error) ==> error.kind is Other && error.os is None && error.message@
            == "Error calling mount() at "@ + mountpoint@ + " with "@ + data@ + " and flags="@
            + flags@ + ": "@ + cause@,
{
    match result {
        Ok(()) => Ok(DirectMount::Mounted),
        Err(code) => {
            if code == errnos.eperm {
                Ok(DirectMount::UseHelper)
            } else {
                let mut text = "Error calling mount() at ".to_owned();
                text.append(mountpoint);
                text.append(" with ");
                text.append(data);
                text.append(" and flags=");
                text.append(flags);
                text.append(": ");
                text.append(cause);
                Err(Error::other(text.as_str()))
            }
        },
    }
}

/// What an attempt to receive the helper's answer comes to.
#[derive(Debug)]
pub enum ReceiveStep {
    /// A message of so many bytes.
    Received { bytes: usize },
    /// Nothing: the attempt was interrupted, and has to be made again.
    Retry,
    /// The answer cannot be received.
    Fail { error: Error },
}

/// Whether an attempt to receive the helper's answer has to be made again.
pub open spec fn has_to_receive_again(errnos: Errnos, received: Result<usize, i32>) -> bool {
    received == Err::<usize, i32>(errnos.eintr)
}

/// Decides what an attempt to receive the helper's answer comes to, from the number of bytes that
/// were received or the error code.
pub fn receive_step(errnos: Errnos, received: Result<usize, i32>) -> (step: ReceiveStep)
    ensures
        match received {
            Ok(bytes) => step == ReceiveStep::Received { bytes },
            Err(code) => if code == errnos.eintr {
                step == ReceiveStep::Retry
            } else {
                step matches ReceiveStep::Fail { error } && error@ == os_error(code)
            },
        },
        step is Retry <==> has_to_receive_again(errnos, received),
        step is Received <==> received is Ok,
{
    match received {
        Ok(bytes) => ReceiveStep::Received { bytes },
        Err(code) => {
            if code == errnos.eintr {
                ReceiveStep::Retry
            } else {
                ReceiveStep::Fail { error: Error::from_raw_os_error(code) }
            }
        },
    }
}

/// What the variable that names the helper's socket is set to: the number of its descriptor.
pub fn socket_variable_value(fd: i32) -> (text: String)
    ensures
        text@ == decimal(fd as int),
{
    write_decimal(fd as i64)
}

/// A control message that came with the helper's answer.
#[derive(Debug)]
pub enum ControlMessage {
    /// Open file descriptors.
    ScmRights(Vec<i32>),
    /// Anything else, as text.
    Other(String),
}

/// The descriptor that a list of control messages hands over: the first of the first message that
/// has any. A message of another kind before that one is an error.
pub open spec fn descriptor_in(messages: Seq<ControlMessage>) -> Result<i32, ErrorView>
    decreases messages.len(),
{
    if messages.len() == 0 {
        Err(raised(ErrorKind::InvalidData, "No SCM_RIGHTS message received from fusermount"@))
    } else {
        match messages[0] {
            ControlMessage::ScmRights(fds) => if fds@.len() == 0 {
                descriptor_in(messages.drop_first())
            } else if fds@[0] < 0 {
                Err(raised(ErrorKind::InvalidData, Seq::empty()))
            } else {
                Ok(fds@[0])
            },
            ControlMessage::Other(text) => Err(
                raised(
                    ErrorKind::InvalidData,
                    "Unknown control message from fusermount: "@ + text@,
                ),
            ),
        }
    }
}

/// The outcome of reading the helper's answer.
pub open spec fn descriptor_outcome(
    bytes: usize,
    messages: Result<Vec<ControlMessage>, String>,
) -> Result<i32, ErrorView> {
    if bytes == 0 {
        Err(raised(ErrorKind::UnexpectedEof, "Unexpected EOF reading from fusermount"@))
    } else {
        match messages {
            Ok(messages) => descriptor_in(messages@),
            Err(text) => Err(raised(ErrorKind::InvalidData, text@)),
        }
    }
}

/// Finds the descriptor of the device in the helper's answer: a message of so many bytes, with
/// control messages, or the text of the error that those decode to.
pub fn received_descriptor(bytes: usize, messages: Result<Vec<ControlMessage>, String>) -> (fd:
    Result<i32, Error>)
    ensures
        match descriptor_outcome(bytes, messages) {
            Ok(value) => fd == Ok::<i32, Error>(value),
            Err(view) => fd matches Err(error) && error@ == view,
        },
{
    if bytes == 0 {
        return Err(Error::new(ErrorKind::UnexpectedEof, "Unexpected EOF reading from fusermount"));
    }
    match messages {
        Ok(messages) => find_descriptor(&messages),
        Err(text) => Err(Error::new(ErrorKind::InvalidData, text.as_str())),
    }
}

fn find_descriptor(messages: &Vec<ControlMessage>) -> (fd: Result<i32, Error>)
    ensures
        match descriptor_in(messages@) {
            Ok(value) => fd == Ok::<i32, Error>(value),
            Err(view) => fd matches Err(error) && error@ == view,
        },
{
    let mut i: usize = 0;
    assert(messages@.skip(0) =~= messages@);
    while i < messages.len()
        invariant
            i <= messages.len(),
            descriptor_in(messages@) == descriptor_in(messages@.skip(i as int)),
        decreases messages.len() - i,
    {
        assert(messages@.skip(i as int).drop_first() =~= messages@.skip(i as int + 1));
        match &messages[i] {
            ControlMessage::ScmRights(fds) => {
                if fds.len() > 0 {
                    if fds[0] < 0 {
                        proof {
                            reveal_strlit("");
                            assert(""@ =~= Seq::empty());
                        }
                        return Err(Error::new(ErrorKind::InvalidData, ""));
                    }
                    return Ok(fds[0]);
                }
            },
            ControlMessage::Other(other) => {
                let mut text = "Unknown control message from fusermount: ".to_owned();
                text.append(other.as_str());
                return Err(Error::new(ErrorKind::InvalidData, text.as_str()));
            },
        }
        i = i + 1;
    }
    Err(Error::new(ErrorKind::InvalidData, "No SCM_RIGHTS message received from fusermount"))
}

/// What the helper prints if the system does not let users open a filesystem to others.
pub open spec fn allow_other_complaint() -> Seq<char> {
    "only allowed if 'user_allow_other' is set"@
}

/// The error that a mount by the helper failed with, from what it printed.
pub open spec fn helper_mount_error(text: Seq<char>) -> ErrorView {
    raised(
        if occurs(text, allow_other_complaint()) {
            ErrorKind::PermissionDenied
        } else {
            ErrorKind::Other
        },
        text,
    )
}

/// The error that a mount by the helper failed with, from the text that it printed.
pub fn helper_mount_failure_of_text(text: String) -> (error: Error)
    ensures
        error@ == helper_mount_error(text@),
{
    if contains_text(text.as_str(), "only allowed if 'user_allow_other' is set") {
        Error::new(ErrorKind::PermissionDenied, text.as_str())
    } else {
        Error::new(ErrorKind::Other, text.as_str())
    }
}

/// The error that a mount by the helper failed with, from what it printed.
pub fn helper_mount_failure(stderr: &[u8]) -> (error: Error)
    ensures
        error@ == helper_mount_error(utf8_lossy(stderr@)),
        valid_utf8(stderr@) ==> error@ == helper_mount_error(decode_utf8(stderr@)),
{
    helper_mount_failure_of_text(lossy_text(stderr))
}

/// Decides what a mount by the helper of the BSDs comes to, from its exit status and the text that
/// it printed.
pub fn mount_fusefs_outcome_of_text(success: bool, text: String) -> (outcome: Result<(), Error>)
    ensures
        success <==> outcome is Ok,
        outcome matches Err(error) ==> error@ == raised(ErrorKind::Other, text@),
{
    if success {
        Ok(())
    } else {
        Err(Error::other(text.as_str()))
    }
}

/// Decides what a mount by the helper of the BSDs comes to, from its exit status and what it
/// printed.
pub fn mount_fusefs_outcome(success: bool, stderr: &[u8]) -> (outcome: Result<(), Error>)
    ensures
        success <==> outcome is Ok,
        outcome matches Err(error) ==> error@ == raised(ErrorKind::Other, utf8_lossy(stderr@)) && (
        valid_utf8(stderr@) ==> error@ == raised(ErrorKind::Other, decode_utf8(stderr@))),
{
    mount_fusefs_outcome_of_text(success, lossy_text(stderr))
}

/// The arguments of those options that the helper has one for, in order.
pub open spec fn present_args(option_args: Seq<Option<String>>) -> Seq<Seq<char>>
    decreases option_args.len(),
{
    if option_args.len() == 0 {
        seq![]
    } else {
        match option_args.last() {
            Some(arg) => present_args(option_args.drop_last()).push(arg@),
            None => present_args(option_args.drop_last()),
        }
    }
}

/// The present arguments are as many as the options that have one, and each stands behind those of
/// the options before it.
proof fn lemma_present_arg_keeps_its_place(option_args: Seq<Option<String>>, i: int)
    ensures
        present_args(option_args).len() == option_args.filter(
            |arg: Option<String>| arg is Some,
        ).len(),
        0 <= i < option_args.len() && option_args[i] is Some ==> {
            let at = option_args.take(i).filter(|arg: Option<String>| arg is Some).len();
            &&& at < present_args(option_args).len()
            &&& present_args(option_args)[at as int] == option_args[i]->0@
        },
    decreases option_args.len(),
{
    reveal(Seq::filter);
    let present = |arg: Option<String>| arg is Some;
    if option_args.len() > 0 {
        let shorter = option_args.drop_last();
        lemma_present_arg_keeps_its_place(shorter, i);
        if 0 <= i < option_args.len() - 1 {
            assert(shorter.take(i) =~= option_args.take(i));
        } else {
            assert(option_args.take(option_args.len() - 1) =~= shorter);
        }
    }
}

/// The helper is told to unmount: every argument that is present stands between `-u` and `--`, in
/// the order of the options, nothing else does, and the mount point comes last.
pub proof fn lemma_unmount_args_hold_every_present_arg(
    option_args: Seq<Option<String>>,
    mountpoint: Seq<char>,
)
    ensures
        (seq!["-u"@] + present_args(option_args) + seq!["--"@, mountpoint]).len() == 3
            + option_args.filter(|arg: Option<String>| arg is Some).len(),
        (seq!["-u"@] + present_args(option_args) + seq!["--"@, mountpoint])[0] == "-u"@,
        forall|i: int|
            #![trigger option_args[i]]
            0 <= i < option_args.len() && option_args[i] is Some ==> (seq!["-u"@] + present_args(
                option_args,
            ) + seq!["--"@, mountpoint])[1int + option_args.take(i).filter(
                |arg: Option<String>| arg is Some,
            ).len()] == option_args[i]->0@,
        forall|i: int, j: int|
            #![trigger option_args.take(i), option_args.take(j)]
            0 <= i < j < option_args.len() && option_args[i] is Some ==> option_args.take(i).filter(
                |arg: Option<String>| arg is Some,
            ).len() < option_args.take(j).filter(|arg: Option<String>| arg is Some).len(),
        (seq!["-u"@] + present_args(option_args) + seq!["--"@, mountpoint]).last()
            == mountpoint,
        (seq!["-u"@] + present_args(option_args) + seq!["--"@, mountpoint]).drop_last().last()
            == "--"@,
{
    lemma_present_arg_keeps_its_place(option_args, 0);
    assert forall|i: int|
        #![trigger option_args[i]]
        0 <= i < option_args.len() && option_args[i] is Some implies (seq!["-u"@] + present_args(
        option_args,
    ) + seq!["--"@, mountpoint])[1int + option_args.take(i).filter(
        |arg: Option<String>| arg is Some,
    ).len()] == option_args[i]->0@ by {
        lemma_present_arg_keeps_its_place(option_args, i);
    }
    assert forall|i: int, j: int|
        #![trigger option_args.take(i), option_args.take(j)]
        0 <= i < j < option_args.len() && option_args[i] is Some implies option_args.take(i).filter(
        |arg: Option<String>| arg is Some,
    ).len() < option_args.take(j).filter(|arg: Option<String>| arg is Some).len() by {
        let longer = option_args.take(j);
        lemma_present_arg_keeps_its_place(longer, i);
        assert(longer.take(i) =~= option_args.take(i));
        assert(longer[i] == option_args[i]);
    }
}

/// The arguments of the helper for unmounting the filesystem at `mountpoint`, where
/// `option_args[i]` is the argument that the helper has for unmount option `i`, if any.
pub fn unmount_args_for_text(option_args: &Vec<Option<String>>, mountpoint: &str) -> (args: Vec<
    String,
>)
    ensures
        args.deep_view() == seq!["-u"@] + present_args(option_args@) + seq!["--"@, mountpoint@],
        args.len() == 3 + option_args@.filter(|arg: Option<String>| arg is Some).len(),
        args[0]@ == "-u"@,
        forall|i: int|
            #![trigger option_args[i]]
            0 <= i < option_args.len() && option_args[i] is Some ==> args[1int
                + option_args@.take(i).filter(|arg: Option<String>| arg is Some).len()]@
                == option_args[i]->0@,
        args[args.len() - 2]@ == "--"@,
        args[args.len() - 1]@ == mountpoint@,
{
    let mut args: Vec<String> = Vec::new();
    args.push("-u".to_owned());
    assert(args.deep_view() =~= seq!["-u"@] + present_args(option_args@.take(0)));
    let mut i: usize = 0;
    while i < option_args.len()
        invariant
            i <= option_args.len(),
            args.deep_view() == seq!["-u"@] + present_args(option_args@.take(i as int)),
        decreases option_args.len() - i,
    {
        let ghost before = args.deep_view();
        proof {
            let longer = option_args@.take(i as int + 1);
            assert(longer.drop_last() =~= option_args@.take(i as int));
            assert(longer.last() == option_args@[i as int]);
        }
        match &option_args[i] {
            Some(arg) => {
                args.push(arg.clone());
                assert(args.deep_view() =~= before.push(arg@));
                assert(args.deep_view() =~= seq!["-u"@] + present_args(
                    option_args@.take(i as int + 1),
                ));
            },
            None => {},
        }
        i = i + 1;
    }
    assert(option_args@.take(i as int) =~= option_args@);
    args.push("--".to_owned());
    args.push(mountpoint.to_owned());
    assert(args.deep_view() =~= seq!["-u"@] + present_args(option_args@) + seq![
        "--"@,
        mountpoint@,
    ]);
    proof {
        lemma_unmount_args_hold_every_present_arg(option_args@, mountpoint@);
        assert(args.deep_view().len() == args.len());
        assert forall|i: int| 0 <= i < args.len() implies args.deep_view()[i] == (
        #[trigger] args[i])@ by {}
        assert forall|i: int|
            #![trigger option_args[i]]
            0 <= i < option_args.len() && option_args[i] is Some implies args[1int
            + option_args@.take(i).filter(|arg: Option<String>| arg is Some).len()]@
            == option_args[i]->0@ by {
            lemma_present_arg_keeps_its_place(option_args@, i);
        }
    }
    args
}

/// The arguments of the helper for unmounting the filesystem at the path `mountpoint`, where
/// `option_args[i]` is the argument that the helper has for unmount option `i`, if any.
pub fn unmount_args(option_args: &Vec<Option<String>>, mountpoint: &[u8]) -> (args: Vec<String>)
    ensures
        args.deep_view() == seq!["-u"@] + present_args(option_args@) + seq![
            "--"@,
            utf8_lossy(mountpoint@),
        ],
        valid_utf8(mountpoint@) ==> args.deep_view() == seq!["-u"@] + present_args(option_args@)
            + seq!["--"@, decode_utf8(mountpoint@)],
{
    let path = lossy_text(mountpoint);
    unmount_args_for_text(option_args, path.as_str())
}

/// How the helper reports that it could not unmount: its name, the mount point and the error.
pub open spec fn unmount_error_pattern() -> Seq<char> {
    "([^:]+): failed to unmount ([^:]+): (.+)"@
}

/// The error in what the helper printed, if it reports one: the third group of the pattern.
pub open spec fn reported_error(stderr: Seq<u8>) -> Option<Seq<u8>> {
    match regex_capture(unmount_error_pattern(), stderr, 3) {
        Some(Some(bytes)) => Some(bytes),
        Some(None) => Some(Seq::empty()),
        None => None,
    }
}

/// The error that a search captured: empty, if something matched and the group took no part.
pub fn captured_error(captured: Option<Option<Vec<u8>>>) -> (error: Option<Vec<u8>>)
    ensures
        match captured {
            Some(Some(bytes)) => error == Some(bytes),
            Some(None) => error matches Some(bytes) && bytes@ == Seq::<u8>::empty(),
            None => error is None,
        },
{
    match captured {
        Some(Some(bytes)) => Some(bytes),
        Some(None) => Some(Vec::new()),
        None => None,
    }
}

/// Finds the error in what the helper printed when it could not unmount.
pub fn parse_fusermount_unmount_stderr(stderr: &[u8]) -> (error: Option<Vec<u8>>)
    ensures
        match reported_error(stderr@) {
            Some(bytes) => error matches Some(found) && found@ == bytes && is_part_of(
                found@,
                stderr@,
            ),
            None => error is None,
        },
        valid_utf8(stderr@) ==> reported_error(stderr@) == first_report(stderr@, 0),
{
    assert(stderr@.subrange(0, 0) =~= Seq::<u8>::empty());
    match capture_group("([^:]+): failed to unmount ([^:]+): (.+)", stderr, 3) {
        Ok(captured) => captured_error(captured),
        Err(_) => unreached(),
    }
}

/// What an unmount by the helper comes to.
#[derive(Debug)]
pub enum HelperUnmount {
    /// The filesystem is unmounted.
    Unmounted,
    /// The helper reports this error, in the words of the C locale.
    Reported(Vec<u8>),
    /// The helper failed for reasons that it does not report.
    Failed(Error),
}

/// What an unmount by the helper comes to: nothing, if it succeeded; else the error that it reports,
/// or else one that quotes it.
pub open spec fn helper_unmount_view(
    success: bool,
    reported: Option<Seq<u8>>,
    text: Seq<char>,
) -> Result<(), Result<Seq<u8>, ErrorView>> {
    if success {
        Ok(())
    } else {
        match reported {
            Some(bytes) => Err(Ok(bytes)),
            None => Err(
                Err(
                    raised(
                        ErrorKind::Other,
                        "Failed to parse fusermount umount error message: "@ + text,
                    ),
                ),
            ),
        }
    }
}

impl View for HelperUnmount {
    type V = Result<(), Result<Seq<u8>, ErrorView>>;

    open spec fn view(&self) -> Result<(), Result<Seq<u8>, ErrorView>> {
        match self {
            HelperUnmount::Unmounted => Ok(()),
            HelperUnmount::Reported(bytes) => Err(Ok(bytes@)),
            HelperUnmount::Failed(error) => Err(Err(error@)),
        }
    }
}

/// Decides what an unmount by the helper comes to, from its exit status, the error found in what
/// it printed, and what it printed as text.
pub fn judge_helper_unmount(success: bool, reported: Option<Vec<u8>>, text: &str) -> (outcome:
    HelperUnmount)
    ensures
        success <==> outcome is Unmounted,
        !success ==> match reported {
            Some(bytes) => outcome == HelperUnmount::Reported(bytes),
            None => outcome matches HelperUnmount::Failed(error) && error@ == raised(
                ErrorKind::Other,
                "Failed to parse fusermount umount error message: "@ + text@,
            ),
        },
        outcome@ == helper_unmount_view(
            success,
            match reported {
                Some(bytes) => Some(bytes@),
                None => None,
            },
            text@,
        ),
{
    if success {
        return HelperUnmount::Unmounted;
    }
    match reported {
        Some(bytes) => HelperUnmount::Reported(bytes),
        None => {
            let mut message = "Failed to parse fusermount umount error message: ".to_owned();
            message.append(text);
            HelperUnmount::Failed(Error::other(message.as_str()))
        },
    }
}

/// Decides what an unmount by the helper comes to, from its exit status and what it printed.
pub fn helper_unmount_outcome(success: bool, stderr: &[u8]) -> (outcome: HelperUnmount)
    ensures
        success <==> outcome is Unmounted,
        !success ==> match reported_error(stderr@) {
            Some(bytes) => outcome matches HelperUnmount::Reported(found) && found@ == bytes
                && is_part_of(found@, stderr@),
            None => outcome matches HelperUnmount::Failed(error) && error@ == raised(
                ErrorKind::Other,
                "Failed to parse fusermount umount error message: "@ + utf8_lossy(stderr@),
            ),
        },
        outcome@ == helper_unmount_view(
            success,
            if success {
                None
            } else {
                reported_error(stderr@)
            },
            utf8_lossy(stderr@),
        ),
        !success && valid_utf8(stderr@) ==> reported_error(stderr@) == first_report(stderr@, 0) && (
        outcome matches HelperUnmount::Failed(error) ==> error@ == raised(
            ErrorKind::Other,
            "Failed to parse fusermount umount error message: "@ + decode_utf8(stderr@),
        )),
{
    if success {
        return HelperUnmount::Unmounted;
    }
    let reported = parse_fusermount_unmount_stderr(stderr);
    judge_helper_unmount(success, reported, lossy_text(stderr).as_str())
}

/// The error that a failed unmount by the helper ends with, by the code that the reported words
/// belong to, if they could be looked up.
pub open spec fn looked_up_error(found: Result<Option<i32>, ()>) -> ErrorView {
    match found {
        Ok(Some(code)) => os_error(code),
        Ok(None) => raised(ErrorKind::Other, "errno not found for fusermount umount message"@),
        Err(()) => raised(ErrorKind::Other, "failed to get errno by fusermount umount message"@),
    }
}

/// The error that a failed unmount by the helper ends with, from what a search for the reported
/// words among the system's error texts found: the code they belong to, nothing, or a failure of
/// the search itself.
pub fn reported_unmount_error(found: Result<Option<i32>, ()>) -> (error: Error)
    ensures
        error@ == (match found {
            Ok(Some(code)) => os_error(code),
            Ok(None) => raised(ErrorKind::Other, "errno not found for fusermount umount message"@),
            Err(()) => raised(
                ErrorKind::Other,
                "failed to get errno by fusermount umount message"@,
            ),
        }),
        error@ == looked_up_error(found),
{
    match found {
        Ok(Some(code)) => Error::from_raw_os_error(code),
        Ok(None) => Error::other("errno not found for fusermount umount message"),
        Err(()) => Error::other("failed to get errno by fusermount umount message"),
    }
}

/// The candidates are the two names of `fusermount` and the helper of the BSDs, first as the search
/// path finds them, then in `/sbin`; of `/bin`, `fusermount` alone is looked for.
pub proof fn lemma_candidates_stand_in_two_directories()
    ensures
        helper_candidate_names().len() == 8,
        helper_candidate_names()[0] == "fusermount3"@,
        helper_candidate_names()[1] == "fusermount"@,
        helper_candidate_names()[2] == "mount_fusefs"@,
        forall|i: int|
            0 <= i < 3 ==> #[trigger] helper_candidate_names()[i + 3] == "/sbin/"@
                + helper_candidate_names()[i],
        forall|i: int|
            0 <= i < 2 ==> #[trigger] helper_candidate_names()[i + 6] == "/bin/"@
                + helper_candidate_names()[i],
{
    reveal_strlit("fusermount3");
    reveal_strlit("fusermount");
    reveal_strlit("mount_fusefs");
    reveal_strlit("/sbin/");
    reveal_strlit("/bin/");
    reveal_strlit("/sbin/fusermount3");
    reveal_strlit("/sbin/fusermount");
    reveal_strlit("/sbin/mount_fusefs");
    reveal_strlit("/bin/fusermount3");
    reveal_strlit("/bin/fusermount");
    assert("/sbin/fusermount3"@ =~= "/sbin/"@ + "fusermount3"@);
    assert("/sbin/fusermount"@ =~= "/sbin/"@ + "fusermount"@);
    assert("/sbin/mount_fusefs"@ =~= "/sbin/"@ + "mount_fusefs"@);
    assert("/bin/fusermount3"@ =~= "/bin/"@ + "fusermount3"@);
    assert("/bin/fusermount"@ =~= "/bin/"@ + "fusermount"@);
}

/// If some candidate could be run, there is exactly one that counts as the first: one that could be
/// run, and not behind any other that could.
pub proof fn lemma_first_that_ran_is_the_earliest(ran: Seq<bool>, at: int, other: int)
    requires
        0 <= other < ran.len(),
        ran[other],
    ensures
        exists|first: int| first <= other && #[trigger] is_first_that_ran(ran, first),
        is_first_that_ran(ran, at) ==> 0 <= at <= other && ran[at],
    decreases other,
{
    if exists|earlier: int| 0 <= earlier < other && ran[earlier] {
        let earlier = choose|earlier: int| 0 <= earlier < other && ran[earlier];
        lemma_first_that_ran_is_the_earliest(ran, at, earlier);
    } else {
        assert(is_first_that_ran(ran, other));
    }
}

proof fn lemma_descriptor_is_looked_for_in_order(messages: Seq<ControlMessage>, i: int)
    requires
        0 <= i <= messages.len(),
        forall|j: int|
            0 <= j < i ==> (#[trigger] messages[j] matches ControlMessage::ScmRights(fds)
                && fds@.len() == 0),
    ensures
        descriptor_in(messages) == descriptor_in(messages.skip(i)),
    decreases i,
{
    if i == 0 {
        assert(messages.skip(0) =~= messages);
    } else {
        let rest = messages.drop_first();
        assert(messages[0] is ScmRights);
        assert forall|j: int| 0 <= j < i - 1 implies (
        #[trigger] rest[j] matches ControlMessage::ScmRights(fds) && fds@.len() == 0) by {
            assert(rest[j] == messages[j + 1]);
        }
        lemma_descriptor_is_looked_for_in_order(rest, i - 1);
        assert(rest.skip(i - 1) =~= messages.skip(i));
    }
}

/// The device is the first descriptor of the first message that has any: message `i`, where those
/// before it have none. A message of another kind in that place, or a descriptor that is no number
/// of a file, is an error; so is an answer without bytes, and one in which no message has a
/// descriptor.
pub proof fn lemma_device_is_the_first_descriptor(
    bytes: usize,
    messages: Vec<ControlMessage>,
    i: int,
)
    requires
        0 <= i <= messages.len(),
        forall|j: int|
            0 <= j < i ==> (#[trigger] messages[j] matches ControlMessage::ScmRights(fds)
                && fds@.len() == 0),
    ensures
        bytes == 0 ==> descriptor_outcome(bytes, Ok(messages)) == Err::<i32, ErrorView>(
            raised(ErrorKind::UnexpectedEof, "Unexpected EOF reading from fusermount"@),
        ),
        bytes > 0 && i < messages.len() ==> match messages[i] {
            ControlMessage::ScmRights(fds) => {
                &&& fds@.len() > 0 && fds@[0] >= 0 ==> descriptor_outcome(bytes, Ok(messages))
                    == Ok::<i32, ErrorView>(fds@[0])
                &&& fds@.len() > 0 && fds@[0] < 0 ==> descriptor_outcome(bytes, Ok(messages))
                    == Err::<i32, ErrorView>(raised(ErrorKind::InvalidData, seq![]))
            },
            ControlMessage::Other(text) => descriptor_outcome(bytes, Ok(messages)) == Err::<
                i32,
                ErrorView,
            >(
                raised(
                    ErrorKind::InvalidData,
                    "Unknown control message from fusermount: "@ + text@,
                ),
            ),
        },
        bytes > 0 && i == messages.len() ==> descriptor_outcome(bytes, Ok(messages)) == Err::<
            i32,
            ErrorView,
        >(raised(ErrorKind::InvalidData, "No SCM_RIGHTS message received from fusermount"@)),
{
    assert forall|j: int| 0 <= j < i implies (
    #[trigger] messages@[j] matches ControlMessage::ScmRights(fds) && fds@.len() == 0) by {
        assert(messages@[j] == messages[j]);
    }
    lemma_descriptor_is_looked_for_in_order(messages@, i);
    if i < messages.len() {
        assert(messages@.skip(i)[0] == messages[i]);
    }
}

/// An answer that does not decode is an error with the text that the decoding ends with; one without
/// bytes is the end of the stream, whatever else came.
pub proof fn lemma_answer_without_messages_has_no_device(bytes: usize, text: String)
    ensures
        descriptor_outcome(bytes, Err(text)) is Err,
        bytes > 0 ==> descriptor_outcome(bytes, Err(text)) == Err::<i32, ErrorView>(
            raised(ErrorKind::InvalidData, text@),
        ),
        bytes == 0 ==> descriptor_outcome(bytes, Err(text)) == Err::<i32, ErrorView>(
            raised(ErrorKind::UnexpectedEof, "Unexpected EOF reading from fusermount"@),
        ),
{
}

/// What the helper printed is the text of the error, and the error is one of permission exactly if
/// the complaint about `user_allow_other` stands in it, after any `before` and before any `after`.
pub proof fn lemma_complaint_anywhere_is_a_lack_of_permission(
    text: Seq<char>,
    before: Seq<char>,
    after: Seq<char>,
)
    ensures
        helper_mount_error(text).message == text,
        helper_mount_error(text).os is None,
        helper_mount_error(text).kind == ErrorKind::PermissionDenied
            || helper_mount_error(text).kind == ErrorKind::Other,
        helper_mount_error(
            before + "only allowed if 'user_allow_other' is set"@ + after,
        ).kind == ErrorKind::PermissionDenied,
        helper_mount_error(text).kind == ErrorKind::PermissionDenied ==> exists|at: int|
            0 <= at <= text.len() - "only allowed if 'user_allow_other' is set"@.len()
                && #[trigger] text.subrange(
                at,
                at + "only allowed if 'user_allow_other' is set"@.len(),
            ) == "only allowed if 'user_allow_other' is set"@,
{
    let complaint = "only allowed if 'user_allow_other' is set"@;
    let whole = before + complaint + after;
    assert(whole.subrange(before.len() as int, before.len() as int + complaint.len()) =~= complaint);
    assert(stands_at(whole, complaint, before.len() as int));
    if occurs(text, complaint) {
        let at = choose|at: int| #[trigger] stands_at(text, complaint, at);
        assert(text.subrange(at, at + complaint.len()) =~= complaint);
    }
}

proof fn lemma_next_byte_is_found(text: Seq<u8>, byte: u8, from: int, at: int)
    requires
        0 <= from <= at <= text.len(),
        forall|j: int| from <= j < at ==> text[j] != byte,
        at == text.len() || text[at] == byte,
    ensures
        next_byte(text, byte, from) == at,
    decreases at - from,
{
    if from < at {
        lemma_next_byte_is_found(text, byte, from + 1, at);
    }
}

proof fn lemma_first_report_is_looked_for_in_order(text: Seq<u8>, from: int, at: int)
    requires
        0 <= from <= at < text.len(),
        forall|j: int| from <= j < at ==> !is_report_at(text, j),
    ensures
        first_report(text, from) == first_report(text, at),
    decreases at - from,
{
    if from < at {
        lemma_first_report_is_looked_for_in_order(text, from + 1, at);
    }
}

/// A report is read back: of a line made of the helper's name, the words of a report, a mount point
/// and an error, the error is what is found, up to the end of the line.
pub proof fn lemma_report_is_read_back(
    name: Seq<u8>,
    mountpoint: Seq<u8>,
    error: Seq<u8>,
    more: Seq<u8>,
)
    requires
        name.len() > 0,
        !name.contains(':' as u8),
        mountpoint.len() > 0,
        !mountpoint.contains(':' as u8),
        error.len() > 0,
        !error.contains('\n' as u8),
        more.len() > 0 ==> more[0] == '\n' as u8,
    ensures
        first_report(
            name + report_words() + mountpoint + seq![':' as u8, ' ' as u8] + error + more,
            0,
        ) == Some(error),
{
    let words = report_words();
    let text = name + words + mountpoint + seq![':' as u8, ' ' as u8] + error + more;
    let at = name.len() as int;
    let from = at + words.len();
    let end = from + mountpoint.len();
    assert(words.len() == 20);
    assert forall|j: int| 0 <= j < at implies !is_report_at(text, j) by {
        if is_report_at(text, j) {
            assert(text.subrange(j, j + 20)[0] == text[j]);
            assert(words[0] == ':' as u8);
            assert(name[j] == ':' as u8);
        }
    }
    lemma_first_report_is_looked_for_in_order(text, 0, at);
    assert(text.subrange(at, from) =~= words);
    assert forall|j: int| from <= j < end implies text[j] != ':' as u8 by {
        assert(text[j] == mountpoint[j - from]);
    }
    lemma_next_byte_is_found(text, ':' as u8, from, end);
    assert(text[at - 1] == name[at - 1]);
    assert(text[end + 1] == ' ' as u8);
    assert(text[end + 2] == error[0]);
    assert(is_report_at(text, at));
    let start = end + 2;
    let stop = start + error.len();
    assert forall|j: int| start <= j < stop implies text[j] != '\n' as u8 by {
        assert(text[j] == error[j - start]);
    }
    lemma_next_byte_is_found(text, '\n' as u8, start, stop);
    assert(text.subrange(start, stop) =~= error);
}

/// An answer is received again exactly if the attempt was interrupted.
pub proof fn lemma_only_an_interruption_is_received_again(errnos: Errnos, bytes: usize, code: i32)
    ensures
        !has_to_receive_again(errnos, Ok(bytes)),
        has_to_receive_again(errnos, Err(code)) <==> code == errnos.eintr,
{
}

/// A helper that succeeds has unmounted the filesystem, whatever it printed; one that fails never
/// has, and what it reports is handed on as it is. Without a report, all that it printed is quoted.
pub proof fn lemma_helper_that_fails_is_quoted(
    success: bool,
    reported: Option<Seq<u8>>,
    text: Seq<char>,
)
    ensures
        helper_unmount_view(success, reported, text) is Ok <==> success,
        !success && reported is Some ==> helper_unmount_view(success, reported, text)
            == Err::<(), Result<Seq<u8>, ErrorView>>(Ok(reported->0)),
        !success && reported is None ==> {
            &&& helper_unmount_view(success, reported, text) matches Err(Err(error))
            &&& error.kind == ErrorKind::Other
            &&& error.os is None
            &&& error.message == "Failed to parse fusermount umount error message: "@ + text
        },
{
}

/// Words that belong to a code end an unmount with that very code, and others with an error that has
/// none.
pub proof fn lemma_reported_words_give_their_code(code: i32)
    ensures
        looked_up_error(Ok(Some(code))).os == Some(code),
        looked_up_error(Ok(Some(code))) == os_error(code),
        looked_up_error(Ok(None)).os is None,
        looked_up_error(Ok(None)).kind == ErrorKind::Other,
        looked_up_error(Ok(None)).message == "errno not found for fusermount umount message"@,
        looked_up_error(Err(())).os is None,
        looked_up_error(Err(())).kind == ErrorKind::Other,
        looked_up_error(Err(())).message == "failed to get errno by fusermount umount message"@,
{
}

} // verus!
