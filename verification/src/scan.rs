//! The per-host scan job and the result classifier.
//!
//! One job takes a host through the whole session lifecycle — create,
//! configure, connect, read the banner, probe the key once, tear down — and
//! classifies what happened into a closed set of outcomes. The transport's
//! answers for the attempt arrive as one `HostEvents` value; every decision
//! taken on them, and the exactly-once release of the session's handle on
//! every path through the job, is verified.

use vstd::prelude::*;
use vstd::string::StringExecFns;

use crate::handles::HandleTable;
use crate::key::PubKey;
use crate::session::{auth_code_classified, nul_message, AuthResponse, SSHSession, Setup};
use crate::text::no_nul;

verus! {

/// What the transport answered during one host's attempt: the handshake
/// result (zero for success), the banner if the server sent one, the numeric
/// answer to the key probe, and the transport's diagnostic text for it.
pub struct HostEvents {
    pub connect_code: i32,
    pub banner: Option<String>,
    pub auth_code: i32,
    pub error_text: String,
}

pub ghost struct HostEventsModel {
    pub connect_code: i32,
    pub banner: Option<Seq<char>>,
    pub auth_code: i32,
    pub error_text: Seq<char>,
}

impl View for HostEvents {
    type V = HostEventsModel;

    closed spec fn view(&self) -> HostEventsModel {
        HostEventsModel {
            connect_code: self.connect_code,
            banner: self.banner.deep_view(),
            auth_code: self.auth_code,
            error_text: self.error_text@,
        }
    }
}

/// What one host's scan concluded: the key would be accepted, it was
/// rejected, the host could not be reached, or the transport reported a
/// serious error (with its diagnostic). Produced once per host and never
/// mutated.
#[derive(Debug)]
pub enum ScanOutcome {
    Accepted,
    Rejected,
    ConnectionFailed,
    ProtocolError(String),
}

pub ghost enum ScanOutcomeModel {
    Accepted,
    Rejected,
    ConnectionFailed,
    ProtocolError(Seq<char>),
}

impl View for ScanOutcome {
    type V = ScanOutcomeModel;

    closed spec fn view(&self) -> ScanOutcomeModel {
        match self {
            ScanOutcome::Accepted => ScanOutcomeModel::Accepted,
            ScanOutcome::Rejected => ScanOutcomeModel::Rejected,
            ScanOutcome::ConnectionFailed => ScanOutcomeModel::ConnectionFailed,
            ScanOutcome::ProtocolError(m) => ScanOutcomeModel::ProtocolError(m@),
        }
    }
}

/// One finished job: the outcome and the banner annotation (empty when the
/// server sent none or the attempt never connected).
#[derive(Debug)]
pub struct ScanJobResult {
    pub outcome: ScanOutcome,
    pub banner: String,
}

pub ghost struct ScanJobResultModel {
    pub outcome: ScanOutcomeModel,
    pub banner: Seq<char>,
}

impl View for ScanJobResult {
    type V = ScanJobResultModel;

    closed spec fn view(&self) -> ScanJobResultModel {
        ScanJobResultModel { outcome: self.outcome@, banner: self.banner@ }
    }
}

/// The diagnostic for a probe the transport answered "would block": that
/// answer cannot happen here, since no session is put in nonblocking mode.
pub open spec fn again_message() -> Seq<char> {
    "nonblocking predicate returned in userauth_try_publickey"@
}

/// The diagnostic for a probe the transport answered "needs more
/// information": impossible for a single public-key probe.
pub open spec fn info_message() -> Seq<char> {
    "Impossible return (AUTH_INFO) for userauth_try_publickey"@
}

/// The diagnostic for a serious transport error, carrying its own text.
pub open spec fn transport_error_message(text: Seq<char>) -> Seq<char> {
    "LibSSH error: "@ + text
}

/// All three option values convert to native strings.
pub open spec fn config_ok(host: Seq<char>, port: Seq<char>, user: Seq<char>) -> bool {
    no_nul(host) && no_nul(port) && no_nul(user)
}

/// A probe answer outside the documented closed set reached a connected
/// session: a library-contract violation, loud by design.
pub open spec fn job_is_hard_fault(
    host: Seq<char>,
    port: Seq<char>,
    user: Seq<char>,
    ev: HostEventsModel,
) -> bool {
    config_ok(host, port, user) && ev.connect_code == 0 && auth_code_classified(ev.auth_code)
        is None
}

/// The outcome one host's events call for, when they are not a hard fault.
pub open spec fn outcome_model(
    host: Seq<char>,
    port: Seq<char>,
    user: Seq<char>,
    ev: HostEventsModel,
) -> ScanOutcomeModel {
    if !config_ok(host, port, user) {
        ScanOutcomeModel::ProtocolError(nul_message())
    } else if ev.connect_code != 0 {
        ScanOutcomeModel::ConnectionFailed
    } else {
        match auth_code_classified(ev.auth_code) {
            Some(AuthResponse::Success) => ScanOutcomeModel::Accepted,
            Some(AuthResponse::Partial) => ScanOutcomeModel::Accepted,
            Some(AuthResponse::Denied) => ScanOutcomeModel::Rejected,
            Some(AuthResponse::Error) => ScanOutcomeModel::ProtocolError(
                transport_error_message(ev.error_text),
            ),
            Some(AuthResponse::Info) => ScanOutcomeModel::ProtocolError(info_message()),
            Some(AuthResponse::Again) => ScanOutcomeModel::ProtocolError(again_message()),
            None => arbitrary(),
        }
    }
}

/// The banner annotation one host's events call for: what the server sent,
/// once the attempt connected.
pub open spec fn banner_model(
    host: Seq<char>,
    port: Seq<char>,
    user: Seq<char>,
    ev: HostEventsModel,
) -> Seq<char> {
    if config_ok(host, port, user) && ev.connect_code == 0 {
        match ev.banner {
            Some(b) => b,
            None => Seq::empty(),
        }
    } else {
        Seq::empty()
    }
}

/// What a finished job must look like for the given host and events.
pub open spec fn job_result_matches(
    r: Result<ScanJobResult, i32>,
    host: Seq<char>,
    port: Seq<char>,
    user: Seq<char>,
    ev: HostEventsModel,
) -> bool {
    if job_is_hard_fault(host, port, user, ev) {
        r == Err::<ScanJobResult, i32>(ev.auth_code)
    } else {
        match r {
            Ok(res) => res@.outcome == outcome_model(host, port, user, ev) && res@.banner
                == banner_model(host, port, user, ev),
            Err(_) => false,
        }
    }
}

/// Runs the full scan sequence for one host against the given transport
/// answers: build a session, configure it, connect, read the banner, probe
/// the key once, classify, tear down.
///
/// Exactly one handle slot is allocated and it is released before the job
/// returns, on every path — early abandonment on a bad option value, a
/// failed handshake, a hard fault, or the full sequence.
pub fn run_scan_job(
    handles: &mut HandleTable,
    host: &str,
    port: &str,
    user: &str,
    key: &PubKey,
    ev: &HostEvents,
) -> (r: Result<ScanJobResult, i32>)
    requires
        key.wf(),
    ensures
        final(handles)@ =~= old(handles)@.push(false),
        job_result_matches(r, host@, port@, user@, ev@),
{
    let ghost pre = handles@;
    let mut session = SSHSession::new(handles);

    let configured = match session.options_set_host(host) {
        Err(e) => Some(e),
        Ok(()) => match session.options_set_user(user) {
            Err(e) => Some(e),
            Ok(()) => match session.options_set_port_str(port) {
                Err(e) => Some(e),
                Ok(()) => None,
            },
        },
    };
    if let Some(e) = configured {
        session.free(handles);
        proof {
            assert(final(handles)@ =~= pre.push(false));
        }
        return Ok(
            ScanJobResult { outcome: ScanOutcome::ProtocolError(e.message), banner: String::new() },
        );
    }

    match session.connect(handles, ev.connect_code) {
        Err(_code) => {
            proof {
                assert(handles@ =~= pre.push(false));
            }
            Ok(ScanJobResult { outcome: ScanOutcome::ConnectionFailed, banner: String::new() })
        },
        Ok(mut connected) => {
            let banner_answer = match &ev.banner {
                Some(b) => Some(b.clone()),
                None => None,
            };
            connected.record_server_banner(banner_answer);
            let banner: String = match connected.get_server_banner() {
                Ok(b) => b.to_owned(),
                Err(_) => String::new(),
            };
            match connected.userauth_try_publickey(key, ev.auth_code) {
                None => {
                    connected.free(handles);
                    proof {
                        assert(handles@ =~= pre.push(false));
                    }
                    Err(ev.auth_code)
                },
                Some(answer) => {
                    let outcome = match answer {
                        AuthResponse::Success => ScanOutcome::Accepted,
                        AuthResponse::Partial => ScanOutcome::Accepted,
                        AuthResponse::Denied => ScanOutcome::Rejected,
                        AuthResponse::Error => ScanOutcome::ProtocolError(
                            String::from_str("LibSSH error: ").concat(ev.error_text.as_str()),
                        ),
                        AuthResponse::Info => ScanOutcome::ProtocolError(
                            String::from_str(
                                "Impossible return (AUTH_INFO) for userauth_try_publickey",
                            ),
                        ),
                        AuthResponse::Again => ScanOutcome::ProtocolError(
                            String::from_str(
                                "nonblocking predicate returned in userauth_try_publickey",
                            ),
                        ),
                    };
                    let done = connected.silent_disconnect();
                    done.free(handles);
                    proof {
                        assert(handles@ =~= pre.push(false));
                    }
                    Ok(ScanJobResult { outcome, banner })
                },
            }
        },
    }
}

/// Runs one job per host, in order, against that host's own events, and
/// nothing else: every submitted host is answered exactly once, and each
/// answer is fixed by that host's events alone. Every job's handle slot is
/// released before the runner returns.
pub fn run_jobs(
    handles: &mut HandleTable,
    hosts: &Vec<String>,
    port: &str,
    user: &str,
    key: &PubKey,
    events: &Vec<HostEvents>,
) -> (r: Vec<Result<ScanJobResult, i32>>)
    requires
        key.wf(),
        hosts@.len() == events@.len(),
    ensures
        r@.len() == hosts@.len(),
        forall|i: int|
            0 <= i < r@.len() ==> job_result_matches(
                #[trigger] r@[i],
                hosts@[i]@,
                port@,
                user@,
                events@[i]@,
            ),
        final(handles)@ =~= old(handles)@ + Seq::new(hosts@.len(), |i: int| false),
{
    let ghost pre = handles@;
    let mut out: Vec<Result<ScanJobResult, i32>> = Vec::new();
    let n = hosts.len();
    let mut i: usize = 0;
    while i < n
        invariant
            key.wf(),
            i <= n,
            n == hosts@.len(),
            n == events@.len(),
            out@.len() == i,
            forall|j: int|
                0 <= j < i ==> job_result_matches(
                    #[trigger] out@[j],
                    hosts@[j]@,
                    port@,
                    user@,
                    events@[j]@,
                ),
            handles@ =~= pre + Seq::new(i as nat, |k: int| false),
        decreases n - i,
    {
        let res = run_scan_job(handles, hosts[i].as_str(), port, user, key, &events[i]);
        out.push(res);
        proof {
            assert(handles@ =~= pre + Seq::new((i + 1) as nat, |k: int| false));
        }
        i = i + 1;
    }
    out
}

/// One host's transport-level failure cannot change what any other host's
/// job yields: the expected result at each position is fixed by that
/// position's own host and events, so two event histories that differ only
/// at one host call for the same outcome everywhere else.
pub proof fn lemma_failure_isolation(
    hosts: Seq<Seq<char>>,
    port: Seq<char>,
    user: Seq<char>,
    evs1: Seq<HostEventsModel>,
    evs2: Seq<HostEventsModel>,
    fault: int,
)
    requires
        evs1.len() == hosts.len(),
        evs2.len() == hosts.len(),
        forall|i: int| 0 <= i < hosts.len() && i != fault ==> evs1[i] == evs2[i],
    ensures
        forall|i: int|
            0 <= i < hosts.len() && i != fault ==> outcome_model(
                #[trigger] hosts[i],
                port,
                user,
                evs1[i],
            ) == outcome_model(hosts[i], port, user, evs2[i]),
        forall|i: int|
            0 <= i < hosts.len() && i != fault ==> banner_model(
                #[trigger] hosts[i],
                port,
                user,
                evs1[i],
            ) == banner_model(hosts[i], port, user, evs2[i]),
{
}

/// What the classifier tells the reporter to do for one host: print the
/// positive report line, print a diagnostic, or stay silent for the
/// expected-negative outcomes.
#[derive(Debug)]
pub enum ReportAction {
    Stdout(String),
    Stderr(String),
    Silent,
}

pub ghost enum ReportActionModel {
    Stdout(Seq<char>),
    Stderr(Seq<char>),
    Silent,
}

impl View for ReportAction {
    type V = ReportActionModel;

    closed spec fn view(&self) -> ReportActionModel {
        match self {
            ReportAction::Stdout(s) => ReportActionModel::Stdout(s@),
            ReportAction::Stderr(s) => ReportActionModel::Stderr(s@),
            ReportAction::Silent => ReportActionModel::Silent,
        }
    }
}

/// The report one finished job calls for: accepted hosts print
/// `<host> <banner>`; rejections and unreachable hosts are silent;
/// transport anomalies become diagnostics.
pub open spec fn report_model(host: Seq<char>, res: ScanJobResultModel) -> ReportActionModel {
    match res.outcome {
        ScanOutcomeModel::Accepted => ReportActionModel::Stdout(host + " "@ + res.banner),
        ScanOutcomeModel::Rejected => ReportActionModel::Silent,
        ScanOutcomeModel::ConnectionFailed => ReportActionModel::Silent,
        ScanOutcomeModel::ProtocolError(m) => ReportActionModel::Stderr("Error: "@ + m),
    }
}

/// Maps one finished job to its report line.
pub fn render_report(host: &str, res: &ScanJobResult) -> (r: ReportAction)
    ensures
        r@ == report_model(host@, res@),
{
    match &res.outcome {
        ScanOutcome::Accepted => {
            let mut line = host.to_owned();
            line.append(" ");
            line.append(res.banner.as_str());
            ReportAction::Stdout(line)
        },
        ScanOutcome::Rejected => ReportAction::Silent,
        ScanOutcome::ConnectionFailed => ReportAction::Silent,
        ScanOutcome::ProtocolError(m) => ReportAction::Stderr(
            String::from_str("Error: ").concat(m.as_str()),
        ),
    }
}

} // verus!
