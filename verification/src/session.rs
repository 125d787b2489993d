//! The session history service: the request/response vocabulary of the
//! local socket protocol, the server's request processing, the client's
//! bookkeeping, and the length-prefixed frame codec the wire uses.
//!
//! The service records pre/post command hooks.  A `PostCmd` must name the
//! command of the currently pending `PreCmd` or it is rejected — the same
//! correlation discipline the claim manager enforces.

use vstd::prelude::*;
use vstd::string::StringExecFns;
use crate::history::{CommandEntry, CommandHistory};

verus! {

/// What a client may ask of the session server.
#[derive(Clone, Debug, PartialEq)]
pub enum WakeRequest {
    GetAllCmd,
    GetLastCmd { n: usize },
    Clear,
    Status,
    PreCmd { cmd: String },
    PostCmd { cmd: String, exit_code: i32 },
}

/// Aggregate statistics over the recorded history.
#[derive(Clone, Debug, PartialEq)]
pub struct HistoryStats {
    pub total_commands: usize,
    pub successful_commands: usize,
    pub failed_commands: usize,
    pub average_duration_ms: Option<u64>,
}

/// The payload of a successful response.
#[derive(Clone, Debug, PartialEq)]
pub enum ResponseData {
    Commands(Vec<CommandEntry>),
    Stats(HistoryStats),
    Empty,
}

/// What the server answers.
#[derive(Clone, Debug, PartialEq)]
pub enum WakeResponse {
    Success { data: ResponseData },
    Failure { message: String },
}

/// How many of the entries succeeded (exit code zero).
pub open spec fn spec_success_count(entries: Seq<CommandEntry>) -> nat
    decreases entries.len(),
{
    if entries.len() == 0 {
        0
    } else {
        spec_success_count(entries.drop_last()) + (if entries.last().spec_is_success() {
            1nat
        } else {
            0nat
        })
    }
}

/// The sum of the known durations of the entries.
pub open spec fn spec_duration_sum(entries: Seq<CommandEntry>) -> nat
    decreases entries.len(),
{
    if entries.len() == 0 {
        0
    } else {
        spec_duration_sum(entries.drop_last()) + (match entries.last().duration_ms {
            Some(d) => d as nat,
            None => 0,
        })
    }
}

/// What correct statistics over `entries` look like: totals, the success
/// split, and the mean duration (summed known durations over all commands).
pub open spec fn stats_correct(st: HistoryStats, entries: Seq<CommandEntry>) -> bool {
    &&& st.total_commands == entries.len()
    &&& st.successful_commands == spec_success_count(entries)
    &&& st.failed_commands == entries.len() - spec_success_count(entries)
    &&& if entries.len() == 0 {
        st.average_duration_ms is None
    } else {
        st.average_duration_ms == Some(
            (spec_duration_sum(entries) / entries.len()) as u64,
        )
    }
}

proof fn lemma_success_count_bound(entries: Seq<CommandEntry>)
    ensures
        spec_success_count(entries) <= entries.len(),
    decreases entries.len(),
{
    if entries.len() > 0 {
        lemma_success_count_bound(entries.drop_last());
    }
}

proof fn lemma_duration_sum_bound(entries: Seq<CommandEntry>)
    ensures
        spec_duration_sum(entries) <= entries.len() * (u64::MAX as nat),
    decreases entries.len(),
{
    if entries.len() > 0 {
        lemma_duration_sum_bound(entries.drop_last());
    }
}

/// The statistics over a list of entries.
fn compute_stats(entries: &Vec<CommandEntry>) -> (st: HistoryStats)
    ensures
        stats_correct(st, entries@),
{
    let total = entries.len();
    let mut successful: usize = 0;
    let mut sum: u128 = 0;
    for i in 0..total
        invariant
            total == entries@.len(),
            successful == spec_success_count(entries@.subrange(0, i as int)),
            sum == spec_duration_sum(entries@.subrange(0, i as int)),
            successful <= i,
            sum <= i * (u64::MAX as int),
    {
        proof {
            assert(entries@.subrange(0, i + 1).drop_last() =~= entries@.subrange(0, i as int));
            assert(entries@.subrange(0, i + 1).last() == entries@[i as int]);
        }
        if entries[i].is_success() {
            successful = successful + 1;
        }
        match entries[i].duration_ms {
            Some(d) => {
                sum = sum + d as u128;
            },
            None => {},
        }
    }
    proof {
        assert(entries@.subrange(0, total as int) =~= entries@);
    }
    let average_duration_ms = if total > 0 {
        proof {
            lemma_duration_sum_bound(entries@);
            assert(spec_duration_sum(entries@) / (entries@.len() as nat) <= u64::MAX as nat)
                by (nonlinear_arith)
                requires
                    spec_duration_sum(entries@) <= entries@.len() * (u64::MAX as nat),
                    entries@.len() > 0,
            ;
        }
        Some((sum / total as u128) as u64)
    } else {
        None
    };
    proof {
        lemma_success_count_bound(entries@);
    }
    HistoryStats {
        total_commands: total,
        successful_commands: successful,
        failed_commands: total - successful,
        average_duration_ms,
    }
}

/// The session server's verified half: the bounded history, the pending
/// command of an open `PreCmd`/`PostCmd` pair, and the socket path the
/// surrounding process listens on.  The socket itself lives outside.
pub struct WakeSessionServer {
    history: CommandHistory,
    pending_command: Option<String>,
    socket_path: String,
    output_buffer_size: usize,
}

/// The output cap each recorded entry is created with.
pub open spec fn entry_output_cap() -> nat {
    1024
}

/// The path prefix session sockets live under.
pub open spec fn socket_path_prefix() -> Seq<char> {
    "/tmp/wake_history_"@
}

impl WakeSessionServer {
    /// The recorded entries, oldest first.
    pub closed spec fn spec_history(&self) -> Seq<CommandEntry> {
        self.history@
    }

    /// The bound on the history.
    pub closed spec fn spec_capacity(&self) -> nat {
        self.history.spec_capacity()
    }

    /// The command an open `PreCmd` announced, if any.
    pub closed spec fn spec_pending(&self) -> Option<String> {
        self.pending_command
    }

    /// The socket path the server is known under.
    pub closed spec fn spec_socket_path(&self) -> Seq<char> {
        self.socket_path@
    }

    pub open spec fn wf(&self) -> bool {
        &&& self.spec_history().len() <= self.spec_capacity()
        &&& self.spec_capacity() >= 1
    }

    pub fn new(session_id: &str, history_size: usize, output_buffer_size: usize) -> (r:
        WakeSessionServer)
        requires
            history_size >= 1,
        ensures
            r.wf(),
            r.spec_history() == Seq::<CommandEntry>::empty(),
            r.spec_capacity() == history_size as nat,
            r.spec_pending() is None,
            r.spec_socket_path() == socket_path_prefix() + session_id@,
    {
        let mut socket_path = "/tmp/wake_history_".to_owned();
        socket_path.append(session_id);
        WakeSessionServer {
            history: CommandHistory::new(history_size),
            pending_command: None,
            socket_path,
            output_buffer_size,
        }
    }

    /// The socket path the surrounding process should bind.
    pub fn socket_path(&self) -> (r: &String)
        ensures
            r@ == self.spec_socket_path(),
    {
        &self.socket_path
    }

    /// Feed captured terminal output to the entry of the running command:
    /// appended to the most recent entry while its exit code is unknown.
    pub fn add_output(&mut self, data: &[u8])
        requires
            old(self).wf(),
        ensures
            final(self).wf(),
            final(self).spec_pending() == old(self).spec_pending(),
            final(self).spec_capacity() == old(self).spec_capacity(),
            final(self).spec_socket_path() == old(self).spec_socket_path(),
            old(self).spec_history().len() > 0 && old(self).spec_history().last().exit_code
                is None ==> final(self).spec_history().len() == old(self).spec_history().len()
                && final(self).spec_history().last().output@ == old(
                self,
            ).spec_history().last().spec_output_after(data@),
            !(old(self).spec_history().len() > 0 && old(self).spec_history().last().exit_code
                is None) ==> final(self).spec_history() == old(self).spec_history(),
    {
        self.history.add_output_to_last(data);
    }

    /// Apply one request against the history, under the given clock value.
    /// `PreCmd` opens a pending command and records a fresh entry; `PostCmd`
    /// must name the pending command or is rejected, and in either case
    /// closes it; the read requests change nothing.
    pub fn process_request(&mut self, request: WakeRequest, now_ms: u64) -> (r: WakeResponse)
        requires
            old(self).wf(),
        ensures
            final(self).wf(),
            final(self).spec_capacity() == old(self).spec_capacity(),
            final(self).spec_socket_path() == old(self).spec_socket_path(),
            match request {
                WakeRequest::GetAllCmd => {
                    &&& *final(self) == *old(self)
                    &&& (r matches WakeResponse::Success {
                        data: ResponseData::Commands(v),
                    } && v@ == old(self).spec_history())
                },
                WakeRequest::GetLastCmd { n } => {
                    &&& *final(self) == *old(self)
                    &&& (r matches WakeResponse::Success {
                        data: ResponseData::Commands(v),
                    } && v@ == (if n as int >= old(self).spec_history().len() {
                        old(self).spec_history()
                    } else {
                        old(self).spec_history().skip(old(self).spec_history().len() - n as int)
                    }))
                },
                WakeRequest::Clear => {
                    &&& final(self).spec_history() == Seq::<CommandEntry>::empty()
                    &&& final(self).spec_pending() == old(self).spec_pending()
                    &&& r == (WakeResponse::Success { data: ResponseData::Empty })
                },
                WakeRequest::Status => {
                    &&& *final(self) == *old(self)
                    &&& (r matches WakeResponse::Success {
                        data: ResponseData::Stats(st),
                    } && stats_correct(st, old(self).spec_history()))
                },
                WakeRequest::PreCmd { cmd } => {
                    &&& final(self).spec_pending() == Some(cmd)
                    &&& final(self).spec_history() == (if old(self).spec_history().len() == old(
                        self,
                    ).spec_capacity() {
                        old(self).spec_history().drop_first()
                    } else {
                        old(self).spec_history()
                    }).push(
                        CommandEntry {
                            command: cmd,
                            output: final(self).spec_history().last().output,
                            exit_code: None,
                            duration_ms: None,
                            started_at_ms: now_ms,
                            max_output: entry_output_cap() as usize,
                        },
                    )
                    &&& final(self).spec_history().last().output@ == Seq::<u8>::empty()
                    &&& r == (WakeResponse::Success { data: ResponseData::Empty })
                },
                WakeRequest::PostCmd { cmd, exit_code } => {
                    &&& final(self).spec_pending() is None
                    &&& if old(self).spec_pending() matches Some(p) && p@ == cmd@ {
                        &&& final(self).spec_history() == (if old(self).spec_history().len()
                            > 0 {
                            old(self).spec_history().update(
                                old(self).spec_history().len() - 1,
                                CommandEntry {
                                    exit_code: Some(exit_code),
                                    duration_ms: Some(
                                        CommandHistory::spec_duration_of(
                                            old(self).spec_history().last(),
                                            now_ms,
                                        ),
                                    ),
                                    ..old(self).spec_history().last()
                                },
                            )
                        } else {
                            old(self).spec_history()
                        })
                        &&& r == (WakeResponse::Success { data: ResponseData::Empty })
                    } else {
                        &&& final(self).spec_history() == old(self).spec_history()
                        &&& (r matches WakeResponse::Failure { message }
                            && message@ == "PostCmd command doesn't match pending PreCmd"@)
                    }
                },
            },
    {
        match request {
            WakeRequest::GetAllCmd => {
                WakeResponse::Success { data: ResponseData::Commands(self.history.entries()) }
            },
            WakeRequest::GetLastCmd { n } => {
                WakeResponse::Success {
                    data: ResponseData::Commands(self.history.last_entries(n)),
                }
            },
            WakeRequest::Clear => {
                self.history.clear();
                WakeResponse::Success { data: ResponseData::Empty }
            },
            WakeRequest::Status => {
                let entries = self.history.entries();
                let st = compute_stats(&entries);
                WakeResponse::Success { data: ResponseData::Stats(st) }
            },
            WakeRequest::PreCmd { cmd } => {
                self.pending_command = Some(cmd.clone());
                let entry = CommandEntry::new(cmd, 1024, now_ms);
                self.history.enqueue(entry);
                WakeResponse::Success { data: ResponseData::Empty }
            },
            WakeRequest::PostCmd { cmd, exit_code } => {
                let matches_pending = match &self.pending_command {
                    Some(p) => *p == cmd,
                    None => false,
                };
                self.pending_command = None;
                if !matches_pending {
                    return WakeResponse::Failure {
                        message: "PostCmd command doesn't match pending PreCmd".to_owned(),
                    };
                }
                self.history.set_last_exit(exit_code, now_ms);
                WakeResponse::Success { data: ResponseData::Empty }
            },
        }
    }
}

/// The client's verified half: it only knows the socket path its session id
/// names; the surrounding process does the connecting.
pub struct WakeSessionClient {
    socket_path: String,
}

impl WakeSessionClient {
    /// The socket path the client will connect to.
    pub closed spec fn spec_socket_path(&self) -> Seq<char> {
        self.socket_path@
    }

    pub fn new(session_id: &str) -> (r: WakeSessionClient)
        ensures
            r.spec_socket_path() == socket_path_prefix() + session_id@,
    {
        let mut socket_path = "/tmp/wake_history_".to_owned();
        socket_path.append(session_id);
        WakeSessionClient { socket_path }
    }

    /// The socket path the surrounding process should connect to.
    pub fn socket_path(&self) -> (r: &String)
        ensures
            r@ == self.spec_socket_path(),
    {
        &self.socket_path
    }
}

/// Whether a finished command's exit code calls for an analysis pass: a
/// success needs none, and a code of 128 or above reports a signal (an
/// interrupt, not a failure to explain).
pub fn should_analyze_exit(exit_code: i32) -> (r: bool)
    ensures
        r == (exit_code != 0 && exit_code < 128),
{
    exit_code != 0 && exit_code < 128
}

/// The four big-endian bytes of a payload length.
pub open spec fn spec_be32(n: nat) -> Seq<u8> {
    seq![
        (n / 0x1000000 % 0x100) as u8,
        (n / 0x10000 % 0x100) as u8,
        (n / 0x100 % 0x100) as u8,
        (n % 0x100) as u8,
    ]
}

/// Frame a payload for the wire: four big-endian length bytes, then the
/// payload itself.
pub fn frame_encode(payload: &Vec<u8>) -> (r: Vec<u8>)
    requires
        payload@.len() < 0x100000000,
    ensures
        r@ == spec_be32(payload@.len()) + payload@,
{
    let len = payload.len();
    let mut out: Vec<u8> = Vec::new();
    out.push((len / 0x1000000 % 0x100) as u8);
    out.push((len / 0x10000 % 0x100) as u8);
    out.push((len / 0x100 % 0x100) as u8);
    out.push((len % 0x100) as u8);
    for i in 0..len
        invariant
            len == payload@.len(),
            out@ == spec_be32(payload@.len()) + payload@.subrange(0, i as int),
    {
        out.push(payload[i]);
        proof {
            assert(out@ =~= spec_be32(payload@.len()) + payload@.subrange(0, i + 1));
        }
    }
    proof {
        assert(out@ =~= spec_be32(payload@.len()) + payload@);
    }
    out
}

/// The length a buffer's first four bytes announce, big-endian.
pub open spec fn spec_be32_value(b: Seq<u8>) -> nat {
    (b[0] as nat) * 0x1000000 + (b[1] as nat) * 0x10000 + (b[2] as nat) * 0x100 + (b[3] as nat)
}

/// Unframe one message: `None` until the four length bytes and the full
/// payload they announce have arrived, otherwise the payload and how many
/// bytes the frame took.
pub fn frame_decode(buf: &Vec<u8>) -> (r: Option<(Vec<u8>, usize)>)
    ensures
        match r {
            Some((payload, consumed)) => {
                &&& buf@.len() >= 4
                &&& payload@.len() == spec_be32_value(buf@)
                &&& consumed == 4 + payload@.len()
                &&& consumed <= buf@.len()
                &&& payload@ == buf@.subrange(4, consumed as int)
            },
            None => buf@.len() < 4 || buf@.len() < 4 + spec_be32_value(buf@),
        },
{
    let total = buf.len();
    if total < 4 {
        return None;
    }
    let b0 = buf[0] as usize;
    let b1 = buf[1] as usize;
    let b2 = buf[2] as usize;
    let b3 = buf[3] as usize;
    let len = b0 * 0x1000000 + b1 * 0x10000 + b2 * 0x100 + b3;
    if total - 4 < len {
        return None;
    }
    let mut payload: Vec<u8> = Vec::new();
    for i in 0..len
        invariant
            len as nat == spec_be32_value(buf@),
            len + 4 <= total,
            total == buf@.len(),
            payload@ == buf@.subrange(4, 4 + i as int),
    {
        payload.push(buf[4 + i]);
        proof {
            assert(payload@ =~= buf@.subrange(4, 4 + (i + 1) as int));
        }
    }
    Some((payload, 4 + len))
}

/// A 32-bit length survives the split into four bytes.
proof fn lemma_be32_recompose(n: nat)
    requires
        n < 0x100000000,
    ensures
        (n / 0x1000000 % 0x100) * 0x1000000 + (n / 0x10000 % 0x100) * 0x10000 + (n / 0x100
            % 0x100) * 0x100 + n % 0x100 == n,
{
    assert((n / 0x1000000 % 0x100) * 0x1000000 + (n / 0x10000 % 0x100) * 0x10000 + (n / 0x100
        % 0x100) * 0x100 + n % 0x100 == n) by (nonlinear_arith)
        requires
            n < 0x100000000,
    ;
}

/// Round trip: a framed payload decodes back to itself, from any buffer
/// that begins with the frame — the announced length is the payload's, and
/// the bytes after the length field are the payload.
pub proof fn lemma_frame_round_trip(payload: Seq<u8>, rest: Seq<u8>)
    requires
        payload.len() < 0x100000000,
    ensures
        spec_be32_value((spec_be32(payload.len()) + payload) + rest) == payload.len(),
        ((spec_be32(payload.len()) + payload) + rest).subrange(0, 4 + payload.len() as int)
            == spec_be32(payload.len()) + payload,
        ((spec_be32(payload.len()) + payload) + rest).subrange(4, 4 + payload.len() as int)
            == payload,
{
    let buf = (spec_be32(payload.len()) + payload) + rest;
    lemma_be32_recompose(payload.len());
    assert(buf[0] == (payload.len() / 0x1000000 % 0x100) as u8);
    assert(buf[1] == (payload.len() / 0x10000 % 0x100) as u8);
    assert(buf[2] == (payload.len() / 0x100 % 0x100) as u8);
    assert(buf[3] == (payload.len() % 0x100) as u8);
    assert(buf.subrange(0, 4 + payload.len() as int) =~= spec_be32(payload.len()) + payload);
    assert(buf.subrange(4, 4 + payload.len() as int) =~= payload);
}

} // verus!
