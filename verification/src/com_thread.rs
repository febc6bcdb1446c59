//! The worker that serializes all connection-manager work, and the
//! adapter-resolution algorithm it runs.
//!
//! The platform's connection-manager object must be driven from the one
//! thread holding the process's COM apartment, so every request travels
//! as a command to a dedicated worker: the worker initializes the
//! apartment, constructs one manager, and then answers commands one at a
//! time in submission order until the queue closes. This module holds
//! the verified decisions of that worker — command processing, the
//! two-pass connection resolution, and the lifecycle from start to exit
//! notification — while the thread, the channels, and the native calls
//! stay with the embedding program.

use crate::connection::{NetConnection, NetConnectionManager};
use crate::guid::{guid_chars, Guid};
use crate::hex::{push_hex_byte, push_hex_u16, push_hex_u32};
use crate::hresult::HResult;
use crate::logger::{LogEvent, LogSink};
use crate::properties::NetConProperties;
use vstd::prelude::*;

verus! {

/// How many commands the worker's queue holds before submitters block:
/// the queue is bounded so that a stalled worker back-pressures its
/// callers instead of buffering unboundedly.
pub const MAX_BUFFERED_COMMANDS: usize = 32;

/// Render a GUID in its canonical hyphenated, uppercase, 36-character
/// form: 8-4-4-4-12 hexadecimal digit groups.
pub fn fmt_guid_to_string(guid: &Guid) -> (r: String)
    ensures
        r@ == guid_chars(*guid),
{
    let mut s = String::new();
    push_hex_u32(&mut s, guid.data1);
    s.append("-");
    push_hex_u16(&mut s, guid.data2);
    s.append("-");
    push_hex_u16(&mut s, guid.data3);
    s.append("-");
    push_hex_byte(&mut s, guid.data4[0]);
    push_hex_byte(&mut s, guid.data4[1]);
    s.append("-");
    push_hex_byte(&mut s, guid.data4[2]);
    push_hex_byte(&mut s, guid.data4[3]);
    push_hex_byte(&mut s, guid.data4[4]);
    push_hex_byte(&mut s, guid.data4[5]);
    push_hex_byte(&mut s, guid.data4[6]);
    push_hex_byte(&mut s, guid.data4[7]);
    proof {
        reveal(guid_chars);
        reveal_strlit("-");
        assert("-"@ =~= seq!['-']);
        assert(s@ =~= guid_chars(*guid));
    }
    s
}

/// The normalization an adapter identity undergoes before matching: one
/// leading `{` and one trailing `}` are stripped if present.
pub open spec fn normalize_spec(s: Seq<char>) -> Seq<char> {
    let t = if s.len() > 0 && s.first() == '{' {
        s.drop_first()
    } else {
        s
    };
    if t.len() > 0 && t.last() == '}' {
        t.drop_last()
    } else {
        t
    }
}

/// Strip one leading `{` and one trailing `}` from an adapter identity,
/// if present.
pub fn normalize_adapter_name(adapter_name: &str) -> (r: &str)
    ensures
        r@ == normalize_spec(adapter_name@),
{
    let len = adapter_name.unicode_len();
    let start: usize = if len > 0 && adapter_name.get_char(0) == '{' {
        1
    } else {
        0
    };
    let end: usize = if len > start && adapter_name.get_char(len - 1) == '}' {
        len - 1
    } else {
        len
    };
    let r = adapter_name.substring_char(start, end);
    proof {
        assert(r@ =~= normalize_spec(adapter_name@));
    }
    r
}

/// Why a reset request failed.
#[derive(Debug, Clone, Copy, PartialEq, Eq, Structural)]
pub enum ResetError {
    /// No live connection matched the adapter identity — a legitimate
    /// outcome when the adapter disappeared between the registry
    /// snapshot and the enumeration, kept distinct from platform
    /// failures.
    NotFound,
    /// A native call failed with this platform status code.
    Platform(HResult),
}

impl ResetError {
    /// A short description of the failure.
    pub fn message(&self) -> (r: &'static str)
        ensures
            r@ == self.spec_message(),
    {
        match self {
            ResetError::NotFound => "failed to find network connection",
            ResetError::Platform(_) => "failed to reset network connection: platform call failed",
        }
    }

    /// The text `message` returns for each failure.
    pub open spec fn spec_message(self) -> Seq<char> {
        match self {
            ResetError::NotFound => "failed to find network connection"@,
            ResetError::Platform(_) => "failed to reset network connection: platform call failed"@,
        }
    }
}

/// Why a command could not be handed to the worker.
#[derive(Debug, Clone, Copy, PartialEq, Eq, Structural)]
pub enum SubmitError {
    /// The worker has exited and dropped its end of the command queue.
    ChannelClosed,
}

impl SubmitError {
    /// A short description of the failure.
    pub fn message(&self) -> (r: &'static str)
        ensures
            r@ == "request channel closed"@,
    {
        match self {
            SubmitError::ChannelClosed => "request channel closed",
        }
    }
}

/// The one message the worker's exit-notification channel delivers.
#[derive(Debug, Clone, Copy, PartialEq, Eq, Structural)]
pub enum WorkerExit {
    /// The command queue closed and the worker drained and stopped.
    CleanShutdown,
    /// Initializing the thread's COM apartment failed; no manager was
    /// constructed and no command was processed.
    ApartmentInitFailed(HResult),
    /// Constructing the connection manager failed; no command was
    /// processed.
    ManagerCreationFailed(HResult),
}

/// The lifecycle of the worker thread.
#[derive(Debug, Clone, Copy, PartialEq, Eq, Structural)]
pub enum WorkerState {
    /// Initializing the COM apartment and constructing the manager.
    Starting,
    /// Blocking on the command queue and answering commands in order.
    Ready,
    /// The queue's sender side is gone; no further command can arrive.
    Draining,
    /// The worker has exited.
    Stopped,
}

/// A request to the worker, consumed exactly once and answered with
/// exactly one reply.
#[derive(Debug, PartialEq, Eq)]
pub enum ComCommand {
    /// Restart the connection resolved from this adapter identity,
    /// falling back to the device description.
    ResetNetworkConnection { adapter_name: String, adapter_description: String },
}

/// Whether a connection's canonical GUID rendering equals the (already
/// normalized) resolution target.
pub open spec fn spec_guid_matches(c: NetConnection, target: Seq<char>) -> bool {
    guid_chars(c.properties.guid) == target
}

/// Whether a connection's device name equals the fallback description.
pub open spec fn spec_desc_matches(c: NetConnection, desc: Seq<char>) -> bool {
    c.properties.device_name@ == desc
}

/// The first index whose connection's GUID matches the target, or the
/// length when none does.
pub open spec fn spec_first_guid_match(conns: Seq<NetConnection>, target: Seq<char>) -> int
    decreases conns.len(),
{
    if conns.len() == 0 {
        0
    } else if spec_guid_matches(conns.first(), target) {
        0
    } else {
        1 + spec_first_guid_match(conns.drop_first(), target)
    }
}

/// The first index whose connection's device name matches the fallback
/// description, or the length when none does.
pub open spec fn spec_first_desc_match(conns: Seq<NetConnection>, desc: Seq<char>) -> int
    decreases conns.len(),
{
    if conns.len() == 0 {
        0
    } else if spec_desc_matches(conns.first(), desc) {
        0
    } else {
        1 + spec_first_desc_match(conns.drop_first(), desc)
    }
}

/// The first index whose connection fails to produce properties, or the
/// length when every one succeeds.
pub open spec fn spec_first_props_failure(conns: Seq<NetConnection>) -> int
    decreases conns.len(),
{
    if conns.len() == 0 {
        0
    } else if conns.first().get_properties_outcome is Some {
        0
    } else {
        1 + spec_first_props_failure(conns.drop_first())
    }
}

pub proof fn lemma_first_guid_match(conns: Seq<NetConnection>, target: Seq<char>)
    ensures
        0 <= spec_first_guid_match(conns, target) <= conns.len(),
        forall|j: int| #![trigger conns[j]]
            0 <= j < spec_first_guid_match(conns, target) ==> !spec_guid_matches(conns[j], target),
        spec_first_guid_match(conns, target) < conns.len() ==> spec_guid_matches(
            conns[spec_first_guid_match(conns, target)],
            target,
        ),
    decreases conns.len(),
{
    if conns.len() == 0 {
    } else if spec_guid_matches(conns.first(), target) {
    } else {
        lemma_first_guid_match(conns.drop_first(), target);
        let f = spec_first_guid_match(conns, target);
        assert(f == 1 + spec_first_guid_match(conns.drop_first(), target));
        assert forall|j: int| 0 <= j < f implies !spec_guid_matches(conns[j], target) by {
            if j == 0 {
                assert(conns[0] == conns.first());
            } else {
                assert(conns.drop_first()[j - 1] == conns[j]);
                assert(!spec_guid_matches(conns.drop_first()[j - 1], target));
            }
        }
        if f < conns.len() {
            assert(conns.drop_first()[f - 1] == conns[f]);
            assert(spec_guid_matches(conns.drop_first()[f - 1], target));
        }
    }
}

pub proof fn lemma_first_desc_match(conns: Seq<NetConnection>, desc: Seq<char>)
    ensures
        0 <= spec_first_desc_match(conns, desc) <= conns.len(),
        forall|j: int| #![trigger conns[j]]
            0 <= j < spec_first_desc_match(conns, desc) ==> !spec_desc_matches(conns[j], desc),
        spec_first_desc_match(conns, desc) < conns.len() ==> spec_desc_matches(
            conns[spec_first_desc_match(conns, desc)],
            desc,
        ),
    decreases conns.len(),
{
    if conns.len() == 0 {
    } else if spec_desc_matches(conns.first(), desc) {
    } else {
        lemma_first_desc_match(conns.drop_first(), desc);
        let f = spec_first_desc_match(conns, desc);
        assert(f == 1 + spec_first_desc_match(conns.drop_first(), desc));
        assert forall|j: int| 0 <= j < f implies !spec_desc_matches(conns[j], desc) by {
            if j == 0 {
                assert(conns[0] == conns.first());
            } else {
                assert(conns.drop_first()[j - 1] == conns[j]);
                assert(!spec_desc_matches(conns.drop_first()[j - 1], desc));
            }
        }
        if f < conns.len() {
            assert(conns.drop_first()[f - 1] == conns[f]);
            assert(spec_desc_matches(conns.drop_first()[f - 1], desc));
        }
    }
}

pub proof fn lemma_first_props_failure(conns: Seq<NetConnection>)
    ensures
        0 <= spec_first_props_failure(conns) <= conns.len(),
        forall|j: int| #![trigger conns[j]]
            0 <= j < spec_first_props_failure(conns) ==> conns[j].get_properties_outcome is None,
        spec_first_props_failure(conns) < conns.len() ==> conns[spec_first_props_failure(
            conns,
        )].get_properties_outcome is Some,
    decreases conns.len(),
{
    if conns.len() == 0 {
    } else if conns.first().get_properties_outcome is Some {
    } else {
        lemma_first_props_failure(conns.drop_first());
        let f = spec_first_props_failure(conns);
        assert(f == 1 + spec_first_props_failure(conns.drop_first()));
        assert forall|j: int| 0 <= j < f implies conns[j].get_properties_outcome is None by {
            if j == 0 {
                assert(conns[0] == conns.first());
            } else {
                assert(conns.drop_first()[j - 1] == conns[j]);
                assert(conns.drop_first()[j - 1].get_properties_outcome is None);
            }
        }
        if f < conns.len() {
            assert(conns.drop_first()[f - 1] == conns[f]);
            assert(conns.drop_first()[f - 1].get_properties_outcome is Some);
        }
    }
}

/// The platform error that aborts an enumeration pass, if any: the
/// failure of the enumeration request itself, else the first
/// property-fetch failure in enumeration order.
pub open spec fn spec_enumeration_error(mgr: NetConnectionManager) -> Option<HResult> {
    if mgr.enum_connections_outcome is Some {
        mgr.enum_connections_outcome
    } else {
        let k = spec_first_props_failure(mgr.connections@);
        if k < mgr.connections@.len() {
            mgr.connections@[k].get_properties_outcome
        } else {
            None
        }
    }
}

/// What resolution returns for a manager, an adapter identity, and a
/// fallback description: a platform error aborts the search; otherwise
/// the first connection whose canonical GUID equals the normalized
/// identity wins; failing that, the first whose device name equals the
/// description; failing both, "not found" — which is no error.
pub open spec fn spec_find(
    mgr: NetConnectionManager,
    adapter_name: Seq<char>,
    adapter_description: Seq<char>,
) -> Result<Option<(NetConnection, NetConProperties)>, HResult> {
    let target = normalize_spec(adapter_name);
    let conns = mgr.connections@;
    match spec_enumeration_error(mgr) {
        Some(e) => Err(e),
        None => {
            let g = spec_first_guid_match(conns, target);
            if g < conns.len() {
                Ok(Some((conns[g], conns[g].spec_snapshot())))
            } else {
                let d = spec_first_desc_match(conns, adapter_description);
                if d < conns.len() {
                    Ok(Some((conns[d], conns[d].spec_snapshot())))
                } else {
                    Ok(None)
                }
            }
        },
    }
}

/// What resolution logs: one description-fallback notice, exactly when
/// the enumeration succeeded and the first pass found no GUID match.
pub open spec fn spec_find_log(mgr: NetConnectionManager, adapter_name: Seq<char>) -> Seq<
    LogEvent,
> {
    if spec_enumeration_error(mgr) is Some {
        Seq::empty()
    } else if spec_first_guid_match(mgr.connections@, normalize_spec(adapter_name))
        < mgr.connections@.len() {
        Seq::empty()
    } else {
        seq![LogEvent::DescriptionFallback]
    }
}

/// Resolve a registry adapter identity to the live connection carrying
/// the same adapter.
///
/// The identity is normalized, every connection is buffered with a
/// property snapshot, and two passes run over the buffer: an exact
/// case-sensitive compare of each canonical GUID against the normalized
/// identity, then — after logging a fallback notice — an exact compare
/// of each device name against the description. The first match wins in
/// enumeration order and is removed from the buffer by swap-remove; no
/// match at all is the legitimate outcome `Ok(None)`, distinct from a
/// platform error, which aborts the search at once.
pub fn find_network_connection(
    connection_manager: &NetConnectionManager,
    adapter_name: &str,
    adapter_description: &str,
    log: &mut LogSink,
) -> (r: Result<Option<(NetConnection, NetConProperties)>, HResult>)
    ensures
        r == spec_find(*connection_manager, adapter_name@, adapter_description@),
        final(log)@ == old(log)@ + spec_find_log(*connection_manager, adapter_name@),
{
    let ghost conns = connection_manager.connections@;
    let ghost target = normalize_spec(adapter_name@);
    let ghost log0 = log@;
    let normalized = normalize_adapter_name(adapter_name);
    let target_string = String::from_str(normalized);

    let mut enumerator = match connection_manager.iter() {
        Ok(e) => e,
        Err(e) => {
            proof {
                assert(log@ =~= log0 + spec_find_log(*connection_manager, adapter_name@));
            }
            return Err(e);
        },
    };

    let mut buffer: Vec<(NetConnection, NetConProperties)> = Vec::with_capacity(32);
    loop
        invariant
            enumerator.wf(),
            enumerator.connections@ == conns,
            conns == connection_manager.connections@,
            connection_manager.enum_connections_outcome is None,
            enumerator.cursor == buffer@.len(),
            buffer@.len() <= conns.len(),
            forall|j: int| #![trigger conns[j]]
                0 <= j < buffer@.len() ==> conns[j].get_properties_outcome is None,
            forall|j: int| #![trigger buffer@[j]]
                0 <= j < buffer@.len() ==> buffer@[j] == (conns[j], conns[j].spec_snapshot()),
            log@ == log0,
            log0 == old(log)@,
        ensures
            buffer@.len() == conns.len(),
            forall|j: int| #![trigger conns[j]]
                0 <= j < conns.len() ==> conns[j].get_properties_outcome is None,
            forall|j: int| #![trigger buffer@[j]]
                0 <= j < buffer@.len() ==> buffer@[j] == (conns[j], conns[j].spec_snapshot()),
            log@ == log0,
        decreases conns.len() - enumerator.cursor,
    {
        // The model enumerator's fetch always succeeds; a hard error
        // from the native protocol would surface through
        // `interpret_fetch` as a `Failed` reading.
        let fetched = enumerator.next_connection().unwrap();
        match fetched {
            Some(connection) => {
                let ghost idx = buffer@.len() as int;
                proof {
                    assert(connection == conns[idx]);
                }
                match connection.get_properties() {
                    Ok(props) => {
                        buffer.push((connection, props));
                        proof {
                            assert(buffer@[idx] == (conns[idx], conns[idx].spec_snapshot()));
                        }
                    },
                    Err(e) => {
                        proof {
                            lemma_first_props_failure(conns);
                            let k = spec_first_props_failure(conns);
                            if k < idx {
                                assert(conns[k].get_properties_outcome is None);
                                assert(false);
                            }
                            if k > idx {
                                assert(conns[idx].get_properties_outcome is None);
                                assert(false);
                            }
                            assert(spec_enumeration_error(*connection_manager) == Some(e));
                            assert(log@ =~= log0 + spec_find_log(
                                *connection_manager,
                                adapter_name@,
                            ));
                        }
                        return Err(e);
                    },
                }
            },
            None => {
                break;
            },
        }
    }
    proof {
        assert(buffer@.len() == conns.len());
        lemma_first_props_failure(conns);
        let k = spec_first_props_failure(conns);
        if k < conns.len() {
            assert(conns[k].get_properties_outcome is None);
            assert(false);
        }
        assert(spec_enumeration_error(*connection_manager) is None);
    }

    let n = buffer.len();
    let mut i: usize = 0;
    while i < n
        invariant
            n == buffer@.len(),
            buffer@.len() == conns.len(),
            conns == connection_manager.connections@,
            spec_enumeration_error(*connection_manager) is None,
            target == normalize_spec(adapter_name@),
            target_string@ == target,
            i <= n,
            forall|j: int| #![trigger buffer@[j]]
                0 <= j < buffer@.len() ==> buffer@[j] == (conns[j], conns[j].spec_snapshot()),
            forall|j: int| #![trigger conns[j]] 0 <= j < i ==> !spec_guid_matches(conns[j], target),
            log@ == log0,
            log0 == old(log)@,
        decreases n - i,
    {
        proof {
            assert(buffer@[i as int] == (conns[i as int], conns[i as int].spec_snapshot()));
        }
        let formatted = fmt_guid_to_string(buffer[i].1.guid());
        if formatted == target_string {
            proof {
                assert(spec_guid_matches(conns[i as int], target));
                lemma_first_guid_match(conns, target);
                let g = spec_first_guid_match(conns, target);
                if g < i as int {
                    assert(!spec_guid_matches(conns[g], target));
                    assert(false);
                }
                if g > i as int {
                    assert(!spec_guid_matches(conns[i as int], target));
                    assert(false);
                }
                assert(log@ =~= log0 + spec_find_log(*connection_manager, adapter_name@));
            }
            let pair = buffer.swap_remove(i);
            return Ok(Some(pair));
        }
        proof {
            assert(!spec_guid_matches(conns[i as int], target));
        }
        i = i + 1;
    }
    proof {
        lemma_first_guid_match(conns, target);
        let g = spec_first_guid_match(conns, target);
        if g < conns.len() {
            assert(!spec_guid_matches(conns[g], target));
            assert(false);
        }
    }

    log.push(LogEvent::DescriptionFallback);
    let description_string = String::from_str(adapter_description);

    let mut i: usize = 0;
    while i < n
        invariant
            n == buffer@.len(),
            buffer@.len() == conns.len(),
            conns == connection_manager.connections@,
            spec_enumeration_error(*connection_manager) is None,
            target == normalize_spec(adapter_name@),
            spec_first_guid_match(conns, target) == conns.len(),
            description_string@ == adapter_description@,
            i <= n,
            forall|j: int| #![trigger buffer@[j]]
                0 <= j < buffer@.len() ==> buffer@[j] == (conns[j], conns[j].spec_snapshot()),
            forall|j: int| #![trigger conns[j]]
                0 <= j < i ==> !spec_desc_matches(conns[j], adapter_description@),
            log@ == log0 + seq![LogEvent::DescriptionFallback],
            log0 == old(log)@,
        decreases n - i,
    {
        proof {
            assert(buffer@[i as int] == (conns[i as int], conns[i as int].spec_snapshot()));
        }
        let device_name = buffer[i].1.device_name();
        if device_name == description_string {
            proof {
                assert(spec_desc_matches(conns[i as int], adapter_description@));
                lemma_first_desc_match(conns, adapter_description@);
                let d = spec_first_desc_match(conns, adapter_description@);
                if d < i as int {
                    assert(!spec_desc_matches(conns[d], adapter_description@));
                    assert(false);
                }
                if d > i as int {
                    assert(!spec_desc_matches(conns[i as int], adapter_description@));
                    assert(false);
                }
                assert(log@ =~= log0 + spec_find_log(*connection_manager, adapter_name@));
            }
            let pair = buffer.swap_remove(i);
            return Ok(Some(pair));
        }
        proof {
            assert(!spec_desc_matches(conns[i as int], adapter_description@));
        }
        i = i + 1;
    }
    proof {
        lemma_first_desc_match(conns, adapter_description@);
        let d = spec_first_desc_match(conns, adapter_description@);
        if d < conns.len() {
            assert(!spec_desc_matches(conns[d], adapter_description@));
            assert(false);
        }
        assert(log@ =~= log0 + spec_find_log(*connection_manager, adapter_name@));
    }
    Ok(None)
}

/// What a reset request returns: the resolution outcome decides — a
/// platform error or "not found" fails the request; a resolved
/// connection is disconnected and then reconnected, aborting on the
/// first native failure and skipping the second call after a failed
/// disconnect.
pub open spec fn spec_reset(
    mgr: NetConnectionManager,
    adapter_name: Seq<char>,
    adapter_description: Seq<char>,
) -> Result<(), ResetError> {
    match spec_find(mgr, adapter_name, adapter_description) {
        Err(e) => Err(ResetError::Platform(e)),
        Ok(None) => Err(ResetError::NotFound),
        Ok(Some((c, _p))) => {
            if c.disconnect_outcome is Some {
                Err(ResetError::Platform(c.disconnect_outcome->0))
            } else if c.connect_outcome is Some {
                Err(ResetError::Platform(c.connect_outcome->0))
            } else {
                Ok(())
            }
        },
    }
}

/// Restart one adapter's connection: resolve it, then issue
/// `disconnect` and `connect` in that order.
///
/// "Not found" fails with its own error, distinct from platform
/// failures; the first failing native call aborts the request, so a
/// failed disconnect skips the connect.
pub fn reset_network_connection(
    connection_manager: &NetConnectionManager,
    adapter_name: &str,
    adapter_description: &str,
    log: &mut LogSink,
) -> (r: Result<(), ResetError>)
    ensures
        r == spec_reset(*connection_manager, adapter_name@, adapter_description@),
        final(log)@ == old(log)@ + spec_find_log(*connection_manager, adapter_name@),
{
    let found = match find_network_connection(
        connection_manager,
        adapter_name,
        adapter_description,
        log,
    ) {
        Ok(v) => v,
        Err(e) => {
            return Err(ResetError::Platform(e));
        },
    };
    let (connection, mut properties) = match found {
        Some(pair) => pair,
        None => {
            return Err(ResetError::NotFound);
        },
    };
    // The snapshot only served the resolution: free its allocations.
    properties.release();
    match connection.disconnect() {
        Ok(()) => {},
        Err(e) => {
            return Err(ResetError::Platform(e));
        },
    }
    match connection.connect() {
        Ok(()) => {},
        Err(e) => {
            return Err(ResetError::Platform(e));
        },
    }
    Ok(())
}

/// The single reply a command receives.
pub open spec fn spec_process_command(mgr: NetConnectionManager, command: ComCommand) -> Result<
    (),
    ResetError,
> {
    match command {
        ComCommand::ResetNetworkConnection { adapter_name, adapter_description } => spec_reset(
            mgr,
            adapter_name@,
            adapter_description@,
        ),
    }
}

/// What processing a command logs.
pub open spec fn spec_command_log(mgr: NetConnectionManager, command: ComCommand) -> Seq<
    LogEvent,
> {
    match command {
        ComCommand::ResetNetworkConnection { adapter_name, .. } => spec_find_log(
            mgr,
            adapter_name@,
        ),
    }
}

/// Perform one command synchronously against the worker's manager and
/// produce its one reply.
pub fn process_command(
    connection_manager: &NetConnectionManager,
    command: &ComCommand,
    log: &mut LogSink,
) -> (r: Result<(), ResetError>)
    ensures
        r == spec_process_command(*connection_manager, *command),
        final(log)@ == old(log)@ + spec_command_log(*connection_manager, *command),
{
    match command {
        ComCommand::ResetNetworkConnection { adapter_name, adapter_description } => {
            reset_network_connection(
                connection_manager,
                adapter_name.as_str(),
                adapter_description.as_str(),
                log,
            )
        },
    }
}

/// The replies a run of the worker produces: one per command, in
/// submission order, each computed against the same single manager.
pub open spec fn spec_worker_replies(
    mgr: NetConnectionManager,
    commands: Seq<ComCommand>,
) -> Seq<Result<(), ResetError>> {
    Seq::new(commands.len(), |i: int| spec_process_command(mgr, commands[i]))
}

/// What processing a command sequence logs, in order.
pub open spec fn spec_commands_log(mgr: NetConnectionManager, commands: Seq<ComCommand>) -> Seq<
    LogEvent,
>
    decreases commands.len(),
{
    if commands.len() == 0 {
        Seq::empty()
    } else {
        spec_commands_log(mgr, commands.drop_last()) + spec_command_log(mgr, commands.last())
    }
}

/// Run the worker's whole life over a command sequence.
///
/// The worker starts, initializes its COM apartment, constructs one
/// connection manager, answers each command in submission order with
/// exactly one reply — no two ever processed concurrently, since one
/// loop consumes the queue — and stops when the queue closes. The
/// returned `WorkerExit` is the one message the exit-notification
/// channel delivers: a startup failure is reported there and no command
/// is ever processed.
pub fn run_worker(
    apartment_init_outcome: Result<(), HResult>,
    manager_outcome: Result<NetConnectionManager, HResult>,
    commands: &Vec<ComCommand>,
    log: &mut LogSink,
) -> (r: (Vec<Result<(), ResetError>>, WorkerExit))
    ensures
        ({
            match apartment_init_outcome {
                Err(e) => {
                    &&& r.0@ == Seq::<Result<(), ResetError>>::empty()
                    &&& r.1 == WorkerExit::ApartmentInitFailed(e)
                    &&& final(log)@ == old(log)@ + seq![LogEvent::WorkerStarted]
                },
                Ok(_) => match manager_outcome {
                    Err(e) => {
                        &&& r.0@ == Seq::<Result<(), ResetError>>::empty()
                        &&& r.1 == WorkerExit::ManagerCreationFailed(e)
                        &&& final(log)@ == old(log)@ + seq![LogEvent::WorkerStarted]
                    },
                    Ok(mgr) => {
                        &&& r.0@ == spec_worker_replies(mgr, commands@)
                        &&& r.1 == WorkerExit::CleanShutdown
                        &&& final(log)@ == old(log)@ + seq![LogEvent::WorkerStarted]
                            + spec_commands_log(mgr, commands@) + seq![LogEvent::WorkerShutdown]
                    },
                },
            }
        }),
{
    let ghost log0 = log@;
    let ghost mut state = WorkerState::Starting;
    log.push(LogEvent::WorkerStarted);
    let manager = match apartment_init_outcome {
        Err(e) => {
            proof {
                state = WorkerState::Stopped;
            }
            return (Vec::new(), WorkerExit::ApartmentInitFailed(e));
        },
        Ok(()) => match manager_outcome {
            Err(e) => {
                proof {
                    state = WorkerState::Stopped;
                }
                return (Vec::new(), WorkerExit::ManagerCreationFailed(e));
            },
            Ok(m) => m,
        },
    };
    proof {
        state = WorkerState::Ready;
    }
    let mut replies: Vec<Result<(), ResetError>> = Vec::new();
    let n = commands.len();
    let mut i: usize = 0;
    while i < n
        invariant
            state is Ready,
            n == commands@.len(),
            i <= n,
            replies@.len() == i,
            forall|j: int| #![trigger replies@[j]]
                0 <= j < i ==> replies@[j] == spec_process_command(manager, commands@[j]),
            log@ == log0 + seq![LogEvent::WorkerStarted] + spec_commands_log(
                manager,
                commands@.subrange(0, i as int),
            ),
            log0 == old(log)@,
        decreases n - i,
    {
        let reply = process_command(&manager, &commands[i], log);
        replies.push(reply);
        proof {
            let pre = commands@.subrange(0, i as int);
            let post = commands@.subrange(0, i + 1 as int);
            assert(post.drop_last() =~= pre);
            assert(post.last() == commands@[i as int]);
            assert(log@ =~= log0 + seq![LogEvent::WorkerStarted] + spec_commands_log(
                manager,
                post,
            ));
        }
        i = i + 1;
    }
    proof {
        state = WorkerState::Draining;
    }
    log.push(LogEvent::WorkerShutdown);
    proof {
        state = WorkerState::Stopped;
        assert(state is Stopped);
        assert(commands@.subrange(0, n as int) =~= commands@);
        assert(replies@ =~= spec_worker_replies(manager, commands@));
        assert(log@ =~= log0 + seq![LogEvent::WorkerStarted] + spec_commands_log(
            manager,
            commands@,
        ) + seq![LogEvent::WorkerShutdown]);
    }
    (replies, WorkerExit::CleanShutdown)
}

/// Braces change nothing. An adapter identity that carries no
/// surrounding braces normalizes to itself, its braced spelling
/// normalizes to the same text, and resolution — result and logged
/// events alike — treats the two spellings identically.
pub proof fn lemma_resolution_ignores_braces(
    mgr: NetConnectionManager,
    name: Seq<char>,
    desc: Seq<char>,
)
    requires
        name.len() == 0 || name.first() != '{',
        name.len() == 0 || name.last() != '}',
    ensures
        normalize_spec(name) == name,
        normalize_spec(seq!['{'] + name + seq!['}']) == name,
        spec_find(mgr, seq!['{'] + name + seq!['}'], desc) == spec_find(mgr, name, desc),
        spec_find_log(mgr, seq!['{'] + name + seq!['}']) == spec_find_log(mgr, name),
{
    let braced = seq!['{'] + name + seq!['}'];
    assert(braced.len() == name.len() + 2);
    assert(braced.first() == '{');
    assert(braced.drop_first() =~= name + seq!['}']);
    assert((name + seq!['}']).last() == '}');
    assert((name + seq!['}']).drop_last() =~= name);
    assert(normalize_spec(braced) =~= name);
    assert(normalize_spec(name) =~= name);
}

/// First-pass GUID resolution. When enumeration succeeds and some
/// connection's canonical GUID equals the normalized identity,
/// resolution returns the first such connection in enumeration order,
/// paired with a fresh snapshot of it — and logs nothing: the
/// description pass never runs.
pub proof fn lemma_find_first_pass_guid_match(
    mgr: NetConnectionManager,
    adapter_name: Seq<char>,
    adapter_description: Seq<char>,
    i: int,
)
    requires
        spec_enumeration_error(mgr) is None,
        0 <= i < mgr.connections@.len(),
        spec_guid_matches(mgr.connections@[i], normalize_spec(adapter_name)),
    ensures
        ({
            let conns = mgr.connections@;
            let target = normalize_spec(adapter_name);
            let g = spec_first_guid_match(conns, target);
            &&& 0 <= g <= i
            &&& spec_guid_matches(conns[g], target)
            &&& forall|j: int| #![trigger conns[j]] 0 <= j < g ==> !spec_guid_matches(conns[j], target)
            &&& spec_find(mgr, adapter_name, adapter_description) == Ok::<
                Option<(NetConnection, NetConProperties)>,
                HResult,
            >(Some((conns[g], conns[g].spec_snapshot())))
        }),
        spec_find_log(mgr, adapter_name) == Seq::<LogEvent>::empty(),
{
    let conns = mgr.connections@;
    let target = normalize_spec(adapter_name);
    lemma_first_guid_match(conns, target);
    let g = spec_first_guid_match(conns, target);
    if g > i {
        assert(!spec_guid_matches(conns[i], target));
        assert(false);
    }
}

/// Second-pass description fallback. When enumeration succeeds, no
/// connection's GUID matches the normalized identity, and some
/// connection's device name equals the fallback description, resolution
/// returns the first such connection — having logged exactly one
/// fallback notice.
pub proof fn lemma_find_description_fallback(
    mgr: NetConnectionManager,
    adapter_name: Seq<char>,
    adapter_description: Seq<char>,
    i: int,
)
    requires
        spec_enumeration_error(mgr) is None,
        forall|j: int| #![trigger mgr.connections@[j]]
            0 <= j < mgr.connections@.len() ==> !spec_guid_matches(
                mgr.connections@[j],
                normalize_spec(adapter_name),
            ),
        0 <= i < mgr.connections@.len(),
        spec_desc_matches(mgr.connections@[i], adapter_description),
    ensures
        ({
            let conns = mgr.connections@;
            let d = spec_first_desc_match(conns, adapter_description);
            &&& 0 <= d <= i
            &&& spec_desc_matches(conns[d], adapter_description)
            &&& spec_find(mgr, adapter_name, adapter_description) == Ok::<
                Option<(NetConnection, NetConProperties)>,
                HResult,
            >(Some((conns[d], conns[d].spec_snapshot())))
        }),
        spec_find_log(mgr, adapter_name) == seq![LogEvent::DescriptionFallback],
{
    let conns = mgr.connections@;
    let target = normalize_spec(adapter_name);
    lemma_first_guid_match(conns, target);
    let g = spec_first_guid_match(conns, target);
    if g < conns.len() {
        assert(!spec_guid_matches(conns[g], target));
        assert(false);
    }
    lemma_first_desc_match(conns, adapter_description);
    let d = spec_first_desc_match(conns, adapter_description);
    if d > i {
        assert(!spec_desc_matches(conns[i], adapter_description));
        assert(false);
    }
}

/// A target matching neither any GUID nor any description resolves to
/// "not found" — `Ok(None)`, not an error — after logging the fallback
/// notice.
pub proof fn lemma_find_not_found(
    mgr: NetConnectionManager,
    adapter_name: Seq<char>,
    adapter_description: Seq<char>,
)
    requires
        spec_enumeration_error(mgr) is None,
        forall|j: int| #![trigger mgr.connections@[j]]
            0 <= j < mgr.connections@.len() ==> !spec_guid_matches(
                mgr.connections@[j],
                normalize_spec(adapter_name),
            ),
        forall|j: int| #![trigger mgr.connections@[j]]
            0 <= j < mgr.connections@.len() ==> !spec_desc_matches(
                mgr.connections@[j],
                adapter_description,
            ),
    ensures
        spec_find(mgr, adapter_name, adapter_description) == Ok::<
            Option<(NetConnection, NetConProperties)>,
            HResult,
        >(None),
        spec_find_log(mgr, adapter_name) == seq![LogEvent::DescriptionFallback],
{
    let conns = mgr.connections@;
    let target = normalize_spec(adapter_name);
    lemma_first_guid_match(conns, target);
    let g = spec_first_guid_match(conns, target);
    if g < conns.len() {
        assert(!spec_guid_matches(conns[g], target));
        assert(false);
    }
    lemma_first_desc_match(conns, adapter_description);
    let d = spec_first_desc_match(conns, adapter_description);
    if d < conns.len() {
        assert(!spec_desc_matches(conns[d], adapter_description));
        assert(false);
    }
}

/// Command serialization. A worker run over a command sequence produces
/// exactly one reply per command, computed in submission order against
/// the one manager: no reply is dropped, duplicated, or reordered, and
/// no command's reply depends on a later command.
pub proof fn lemma_one_reply_per_command_in_order(
    mgr: NetConnectionManager,
    commands: Seq<ComCommand>,
)
    ensures
        spec_worker_replies(mgr, commands).len() == commands.len(),
        forall|i: int| #![trigger spec_worker_replies(mgr, commands)[i]]
            0 <= i < commands.len() ==> spec_worker_replies(mgr, commands)[i]
                == spec_process_command(mgr, commands[i]),
{
}

} // verus!
