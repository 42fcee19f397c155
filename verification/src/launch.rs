//! The process launcher: from a launch request to the exact external
//! command invocation, and from a spawn result to a registered session.
//!
//! The launcher resolves the external binary (configured path first, then a
//! PATH lookup, then a fixed list of well-known install locations), chooses
//! the session identifier (fresh for new and continued sessions, the
//! caller's for resumed ones), and builds the argument vector for the
//! requested mode, always appending the fixed flags that select
//! machine-readable streaming output. Spawning itself is input/output and
//! is performed by the embedding application from the returned plan; the
//! spawn result is handed back to `register_spawned`, so that a failed
//! spawn provably never registers a session.

use vstd::prelude::*;
use vstd::string::StringExecFns;
use crate::registry::{SessionRegistry, agrees_on};
use crate::events::{Event, SessionState};

verus! {

/// How the external tool is to be started.
#[derive(Clone, Copy, Debug, PartialEq, Eq, Structural)]
pub enum SessionType {
    /// Start a new session with a single-shot prompt.
    New,
    /// Continue the most recent session with a further prompt.
    Continue,
    /// Resume the specific prior session named by the request.
    Resume,
}

/// A request to execute the external tool as a live session.
#[derive(Debug)]
pub struct ExecuteRequest {
    /// The working directory the process runs in; must exist.
    pub project_path: String,
    /// The prompt handed to the tool.
    pub prompt: String,
    /// The model identifier handed to the tool.
    pub model: String,
    /// Which of the three launch modes to use.
    pub session_type: SessionType,
    /// The prior session to resume (used by `Resume` only).
    pub session_id: Option<String>,
}

/// Why a launch failed; when it does, no session exists and no process was
/// left behind.
#[derive(Debug, PartialEq, Eq)]
pub enum LaunchError {
    /// The external binary could not be resolved anywhere.
    BinaryNotFound,
    /// The requested working directory does not exist.
    InvalidWorkingDirectory,
    /// The operating system refused to spawn the process.
    SpawnFailed(String),
}

/// Everything the application needs to spawn the process: program, argument
/// vector, working directory — and the session identifier the launch will
/// run under.
#[derive(Debug)]
pub struct LaunchPlan {
    pub program: String,
    pub args: Vec<String>,
    pub working_directory: String,
    pub session_id: String,
}

/// The mode-dependent prefix of the argument vector.
pub open spec fn mode_args(t: SessionType, prompt: Seq<char>, sid: Seq<char>) -> Seq<Seq<char>> {
    match t {
        SessionType::New => seq!["-p"@, prompt],
        SessionType::Continue => seq!["-c"@, "-p"@, prompt],
        SessionType::Resume => seq!["--resume"@, sid, "-p"@, prompt],
    }
}

/// The fixed suffix of the argument vector: the model, machine-readable
/// streaming output, and non-interactive operation.
pub open spec fn fixed_args(model: Seq<char>) -> Seq<Seq<char>> {
    seq![
        "--model"@,
        model,
        "--output-format"@,
        "stream-json"@,
        "--verbose"@,
        "--dangerously-skip-permissions"@,
    ]
}

/// The whole argument vector for one launch.
pub open spec fn invocation_args(
    t: SessionType,
    prompt: Seq<char>,
    sid: Seq<char>,
    model: Seq<char>,
) -> Seq<Seq<char>> {
    mode_args(t, prompt, sid) + fixed_args(model)
}

/// Which session identifier a launch runs under: the caller's for a resume
/// that names one, a fresh one otherwise.
pub open spec fn uses_supplied_id(t: SessionType, supplied: Option<String>) -> bool {
    t is Resume && supplied is Some
}

/// Build the argument vector for the given mode, prompt, session identifier
/// and model — exactly the invocation the external tool is given.
pub fn build_args(t: SessionType, prompt: &String, sid: &String, model: &String) -> (r: Vec<
    String,
>)
    ensures
        r.deep_view() == invocation_args(t, prompt@, sid@, model@),
{
    let mut args: Vec<String> = Vec::new();
    match t {
        SessionType::New => {
            args.push("-p".to_owned());
            args.push(prompt.clone());
        },
        SessionType::Continue => {
            args.push("-c".to_owned());
            args.push("-p".to_owned());
            args.push(prompt.clone());
        },
        SessionType::Resume => {
            args.push("--resume".to_owned());
            args.push(sid.clone());
            args.push("-p".to_owned());
            args.push(prompt.clone());
        },
    }
    args.push("--model".to_owned());
    args.push(model.clone());
    args.push("--output-format".to_owned());
    args.push("stream-json".to_owned());
    args.push("--verbose".to_owned());
    args.push("--dangerously-skip-permissions".to_owned());
    proof {
        assert(args.deep_view() =~~= invocation_args(t, prompt@, sid@, model@));
    }
    args
}

/// Relies on `uuid::Uuid::new_v4` and its `Display` form: a random
/// identifier in the hyphenated format, always 36 characters; being random,
/// nothing more is promised of it.
#[verifier::external_body]
pub(crate) fn fresh_session_id() -> (r: String)
    ensures
        r@.len() == 36,
{
    uuid::Uuid::new_v4().to_string()
}

/// Relies on `which::which`: looks the external binary up on PATH. The
/// result depends on the environment, so nothing is promised of it.
#[verifier::external_body]
fn which_cli() -> (r: Option<String>) {
    match which::which("ccagent") {
        Ok(p) => Some(p.to_string_lossy().to_string()),
        Err(_) => None,
    }
}

/// Relies on `dirs::home_dir`: the home directory, from the environment.
#[verifier::external_body]
pub(crate) fn home_dir_string() -> (r: Option<String>) {
    dirs::home_dir().map(|p| p.to_string_lossy().to_string())
}

/// Relies on `std::path::Path::exists`: what is on disk now.
#[verifier::external_body]
fn path_exists(p: &String) -> (r: bool) {
    std::path::Path::new(p.as_str()).exists()
}

/// Relies on `std::path::Path::is_dir`: whether a directory is on disk now.
#[verifier::external_body]
fn dir_exists(p: &String) -> (r: bool) {
    std::path::Path::new(p.as_str()).is_dir()
}

/// The well-known install locations, in the order they are probed; the
/// per-user location exists only when a home directory is known.
pub open spec fn candidate_paths(home: Option<String>) -> Seq<Seq<char>> {
    match home {
        Some(h) => seq![
            "/usr/local/bin/ccagent"@,
            "/opt/homebrew/bin/ccagent"@,
            h@ + "/.local/bin/ccagent"@,
        ],
        None => seq!["/usr/local/bin/ccagent"@, "/opt/homebrew/bin/ccagent"@],
    }
}

/// Build the list of well-known install locations to probe.
pub fn binary_candidates(home: &Option<String>) -> (r: Vec<String>)
    ensures
        r.deep_view() == candidate_paths(*home),
{
    let mut v: Vec<String> = Vec::new();
    v.push("/usr/local/bin/ccagent".to_owned());
    v.push("/opt/homebrew/bin/ccagent".to_owned());
    match home {
        Some(h) => {
            v.push(h.clone().concat("/.local/bin/ccagent"));
        },
        None => {},
    }
    proof {
        assert(v.deep_view() =~~= candidate_paths(*home));
    }
    v
}

/// The position of the first `true`, or -1 if there is none.
pub open spec fn first_true(s: Seq<bool>) -> int
    decreases s.len(),
{
    if s.len() == 0 {
        -1
    } else if s[0] {
        0
    } else {
        let r = first_true(s.skip(1));
        if r == -1 {
            -1
        } else {
            r + 1
        }
    }
}

/// `first_true` names exactly the first hit.
proof fn lemma_first_true_at(s: Seq<bool>, i: int)
    requires
        0 <= i < s.len(),
        s[i],
        forall|j: int| 0 <= j < i ==> !s[j],
    ensures
        first_true(s) == i,
    decreases i,
{
    if i > 0 {
        lemma_first_true_at(s.skip(1), i - 1);
    }
}

/// When there is no hit, `first_true` says so.
proof fn lemma_first_true_none(s: Seq<bool>)
    requires
        forall|j: int| 0 <= j < s.len() ==> !s[j],
    ensures
        first_true(s) == -1,
    decreases s.len(),
{
    if s.len() > 0 {
        lemma_first_true_none(s.skip(1));
    }
}

/// The pure resolution decision, over the results of the probes: the
/// configured path wins if it exists, then a PATH hit, then the first
/// well-known location found present; with nothing present, the binary is
/// not found.
#[verifier::loop_isolation(false)]
pub fn select_binary(
    configured: Option<String>,
    configured_exists: bool,
    path_hit: Option<String>,
    candidates: Vec<String>,
    present: Vec<bool>,
) -> (r: Result<String, LaunchError>)
    requires
        present@.len() == candidates@.len(),
    ensures
        configured is Some && configured_exists ==> r == Result::<String, LaunchError>::Ok(
            configured->Some_0,
        ),
        !(configured is Some && configured_exists) && path_hit is Some ==> r == Result::<
            String,
            LaunchError,
        >::Ok(path_hit->Some_0),
        !(configured is Some && configured_exists) && path_hit is None ==> {
            if first_true(present.deep_view()) >= 0 {
                r == Result::<String, LaunchError>::Ok(
                    candidates@[first_true(present.deep_view())],
                )
            } else {
                r == Result::<String, LaunchError>::Err(LaunchError::BinaryNotFound)
            }
        },
{
    if let Some(c) = configured {
        if configured_exists {
            return Ok(c);
        }
    }
    if let Some(p) = path_hit {
        return Ok(p);
    }
    let n = candidates.len();
    let mut k: usize = 0;
    while k < n
        invariant
            n == candidates@.len(),
            present@.len() == candidates@.len(),
            k <= n,
            forall|j: int| 0 <= j < k ==> !present.deep_view()[j],
        decreases n - k,
    {
        if present[k] {
            proof {
                lemma_first_true_at(present.deep_view(), k as int);
            }
            let hit = candidates[k].clone();
            return Ok(hit);
        }
        k = k + 1;
    }
    proof {
        lemma_first_true_none(present.deep_view());
    }
    Err(LaunchError::BinaryNotFound)
}

/// Resolve the external binary: the configured location, a PATH lookup, and
/// the well-known install locations, in that order. The probes depend on
/// the machine, so only the failure shape is promised; the order itself is
/// the contract of `select_binary`, which this calls on the probe results.
pub fn find_cli_binary(configured: Option<&String>) -> (r: Result<String, LaunchError>)
    ensures
        r is Err ==> r == Result::<String, LaunchError>::Err(LaunchError::BinaryNotFound),
{
    let (cfg, cfg_exists): (Option<String>, bool) = match configured {
        Some(c) => {
            let e = path_exists(c);
            (Some(c.clone()), e)
        },
        None => (None, false),
    };
    let path_hit = which_cli();
    let home = home_dir_string();
    let candidates = binary_candidates(&home);
    let mut present: Vec<bool> = Vec::new();
    let n = candidates.len();
    for k in 0..n
        invariant
            n == candidates@.len(),
            present@.len() == k,
    {
        let e = path_exists(&candidates[k]);
        present.push(e);
    }
    select_binary(cfg, cfg_exists, path_hit, candidates, present)
}

/// The identifier a launch runs under: the caller's for a resume that
/// names one, the freshly generated one otherwise.
pub open spec fn chosen_session_id(
    t: SessionType,
    supplied: Option<String>,
    fresh: String,
) -> String {
    if t is Resume && supplied is Some {
        supplied->Some_0
    } else {
        fresh
    }
}

/// The launch decision, over the two probe outcomes: whether the working
/// directory exists, and what binary resolution yielded. A missing
/// directory fails with `InvalidWorkingDirectory`, and with nothing else —
/// it is judged before the binary; an unresolved binary fails with
/// `BinaryNotFound`; otherwise the plan is the exact invocation: the
/// resolved program, the chosen session identifier, the arguments for the
/// requested mode, and the requested working directory.
pub fn plan_for(
    dir_ok: bool,
    binary: Result<String, LaunchError>,
    req: &ExecuteRequest,
    fresh_id: String,
) -> (r: Result<LaunchPlan, LaunchError>)
    ensures
        !dir_ok <==> r == Result::<LaunchPlan, LaunchError>::Err(
            LaunchError::InvalidWorkingDirectory,
        ),
        dir_ok && binary is Err ==> r == Result::<LaunchPlan, LaunchError>::Err(
            LaunchError::BinaryNotFound,
        ),
        dir_ok ==> (binary matches Ok(program) ==> r matches Ok(plan) && {
            &&& plan.program == program
            &&& plan.working_directory == req.project_path
            &&& plan.session_id == chosen_session_id(req.session_type, req.session_id, fresh_id)
            &&& plan.args.deep_view() == invocation_args(
                req.session_type,
                req.prompt@,
                plan.session_id@,
                req.model@,
            )
        }),
{
    if !dir_ok {
        return Err(LaunchError::InvalidWorkingDirectory);
    }
    let program = match binary {
        Ok(p) => p,
        Err(_) => {
            return Err(LaunchError::BinaryNotFound);
        },
    };
    let session_id: String = match req.session_type {
        SessionType::Resume => {
            match &req.session_id {
                Some(sid) => sid.clone(),
                None => fresh_id,
            }
        },
        _ => fresh_id,
    };
    let args = build_args(req.session_type, &req.prompt, &session_id, &req.model);
    Ok(
        LaunchPlan {
            program,
            args,
            working_directory: req.project_path.clone(),
            session_id,
        },
    )
}

/// Turn a launch request into the exact invocation to spawn: probe the
/// working directory and resolve the binary, then decide by `plan_for`,
/// whose contract ties each probe outcome to its error — the directory
/// first. The probes themselves depend on the machine, so this function's
/// own clauses state only what holds of every outcome.
pub fn prepare_launch(req: &ExecuteRequest, configured: Option<&String>) -> (r: Result<
    LaunchPlan,
    LaunchError,
>)
    ensures
        r matches Ok(plan) ==> {
            &&& plan.working_directory == req.project_path
            &&& plan.args.deep_view() == invocation_args(
                req.session_type,
                req.prompt@,
                plan.session_id@,
                req.model@,
            )
            &&& uses_supplied_id(req.session_type, req.session_id) ==> plan.session_id
                == req.session_id->Some_0
            &&& !uses_supplied_id(req.session_type, req.session_id) ==> plan.session_id@.len()
                == 36
        },
        r matches Err(e) ==> (e == LaunchError::InvalidWorkingDirectory || e
            == LaunchError::BinaryNotFound),
{
    let dir_ok = dir_exists(&req.project_path);
    let binary = find_cli_binary(configured);
    plan_for(dir_ok, binary, req, fresh_session_id())
}

/// Enter the outcome of the spawn into the registry. A successful spawn
/// registers the session, running, with its process handle owned by the
/// registry and an empty history; a failed spawn registers nothing at all —
/// the registry is exactly as it was, and a lookup of the attempted
/// identifier still finds nothing.
pub fn register_spawned<H>(
    reg: &mut SessionRegistry<H>,
    session_id: String,
    spawned: Result<H, String>,
    capacity: usize,
    created_at: u64,
) -> (r: Result<(), LaunchError>)
    requires
        old(reg).wf(),
        capacity >= 1,
        !old(reg).contains_session(session_id@),
    ensures
        final(reg).wf(),
        spawned matches Err(m) ==> {
            &&& *final(reg) == *old(reg)
            &&& !final(reg).contains_session(session_id@)
            &&& r == Result::<(), LaunchError>::Err(LaunchError::SpawnFailed(m))
        },
        spawned matches Ok(h) ==> {
            &&& r == Result::<(), LaunchError>::Ok(())
            &&& final(reg).contains_session(session_id@)
            &&& final(reg).session_state(session_id@) == Some(SessionState::Running)
            &&& final(reg).process_of(session_id@) == Some(h)
            &&& final(reg).history_of(session_id@) == Seq::<Event>::empty()
            &&& final(reg).capacity_of(session_id@) == capacity
            &&& final(reg).created_at_of(session_id@) == created_at
            &&& forall|o: Seq<char>|
                o != session_id@ ==> #[trigger] agrees_on(old(reg), final(reg), o)
        },
{
    match spawned {
        Ok(handle) => {
            reg.register(session_id, handle, capacity, created_at);
            Ok(())
        },
        Err(m) => Err(LaunchError::SpawnFailed(m)),
    }
}

} // verus!
