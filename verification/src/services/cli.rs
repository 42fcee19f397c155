//! The external-tool service: resolves the tool binary once, plans
//! detached session starts, and turns a scan of the projects directory
//! into the ordered project listing. Reading the directory is
//! input/output and the embedding application's; decoding the directory
//! names, aggregating each project's sessions and ordering the listing are
//! decisions, made and specified here. Session records themselves are the
//! persistence layer's, which the embedding application queries.

use vstd::prelude::*;
use vstd::seq_lib::lemma_multiset_commutative;
use vstd::utf8::{decode_utf8, valid_utf8};
use crate::launch::{LaunchError, LaunchPlan, find_cli_binary};
use crate::models::project::{Project, StartSessionRequest};

verus! {

/// The service, over an injected persistence handle.
pub struct CliService<Db> {
    cli_binary_path: String,
    db_service: Db,
}

/// The argument vector of a detached session start: the project path, the
/// model when one is named, and any extra arguments, in that order.
pub open spec fn start_session_args(
    path: Seq<char>,
    model: Option<String>,
    additional: Option<Vec<String>>,
) -> Seq<Seq<char>> {
    seq!["--project-path"@, path] + (match model {
        Some(m) => seq!["--model"@, m@],
        None => Seq::empty(),
    }) + (match additional {
        Some(a) => a.deep_view(),
        None => Seq::empty(),
    })
}

impl<Db> CliService<Db> {
    /// The resolved location of the external binary.
    pub closed spec fn binary_path(&self) -> Seq<char> {
        self.cli_binary_path@
    }

    /// The injected persistence handle.
    pub closed spec fn spec_db(&self) -> &Db {
        &self.db_service
    }

    /// Resolve the external binary and stand the service up over the
    /// injected persistence handle; with no binary anywhere, the service
    /// cannot exist.
    pub fn new(db_service: Db) -> (r: Result<Self, LaunchError>)
        ensures
            r is Err ==> (r matches Err(e) && e == LaunchError::BinaryNotFound),
            r matches Ok(s) ==> *s.spec_db() == db_service,
    {
        match find_cli_binary(None) {
            Ok(p) => Ok(CliService { cli_binary_path: p, db_service }),
            Err(e) => Err(e),
        }
    }

    /// Stand the service up over an already resolved binary location: the
    /// injectable form, used when whoever assembles the service has its own
    /// way of finding the tool.
    pub fn with_binary(binary_path: String, db_service: Db) -> (r: Self)
        ensures
            r.binary_path() == binary_path@,
    {
        CliService { cli_binary_path: binary_path, db_service }
    }

    /// The resolved binary location.
    pub fn binary(&self) -> (r: &String)
        ensures
            r@ == self.binary_path(),
    {
        &self.cli_binary_path
    }

    /// The injected persistence handle, for the embedding application's
    /// session queries.
    pub fn db(&self) -> (r: &Db)
        ensures
            r == self.spec_db(),
    {
        &self.db_service
    }

    /// Plan a detached session start: a fresh session identifier and the
    /// exact invocation to spawn, working in the project directory.
    pub fn plan_start_session(&self, request: &StartSessionRequest) -> (r: LaunchPlan)
        ensures
            r.program@ == self.binary_path(),
            r.working_directory == request.project_path,
            r.session_id@.len() == 36,
            r.args.deep_view() == start_session_args(
                request.project_path@,
                request.model,
                request.additional_args,
            ),
    {
        let mut args: Vec<String> = Vec::new();
        args.push("--project-path".to_owned());
        args.push(request.project_path.clone());
        match &request.model {
            Some(m) => {
                args.push("--model".to_owned());
                args.push(m.clone());
            },
            None => {},
        }
        let ghost before_extra = args.deep_view();
        match &request.additional_args {
            Some(extra) => {
                let n = extra.len();
                for i in 0..n
                    invariant
                        n == extra@.len(),
                        args.deep_view() == before_extra + extra.deep_view().subrange(
                            0,
                            i as int,
                        ),
                {
                    let ghost dv_pre = args.deep_view();
                    args.push(extra[i].clone());
                    proof {
                        assert(args@.last() == extra@[i as int]);
                        assert(args.deep_view() =~~= dv_pre.push(extra@[i as int].deep_view()));
                        assert(extra.deep_view()[i as int] == extra@[i as int].deep_view());
                        assert(args.deep_view() =~~= before_extra + extra.deep_view().subrange(
                            0,
                            i + 1,
                        ));
                    }
                }
                proof {
                    assert(extra.deep_view().subrange(0, n as int) =~= extra.deep_view());
                }
            },
            None => {},
        }
        proof {
            assert(args.deep_view() =~~= start_session_args(
                request.project_path@,
                request.model,
                request.additional_args,
            ));
        }
        LaunchPlan {
            program: self.cli_binary_path.clone(),
            args,
            working_directory: request.project_path.clone(),
            session_id: crate::launch::fresh_session_id(),
        }
    }

    /// Turn a scan of the projects directory into the project listing:
    /// every scanned directory becomes one project record, and the listing
    /// is ordered most recently used first.
    pub fn get_projects(&self, scans: Vec<ProjectScan>) -> (r: Vec<Project>)
        ensures
            r@.len() == scans@.len(),
            sorted_projects(r@),
            exists|a: Seq<Project>| #[trigger] listing_of(a, scans@, r@),
    {
        let mut assembled: Vec<Project> = Vec::new();
        let n = scans.len();
        for i in 0..n
            invariant
                n == scans@.len(),
                assembled@.len() == i,
                forall|j: int|
                    0 <= j < i ==> project_of_scan(#[trigger] assembled@[j], scans@[j]),
        {
            let p = assemble_project(&scans[i]);
            assembled.push(p);
        }
        let ghost a = assembled@;
        let r = sort_projects(assembled);
        proof {
            assert(listing_of(a, scans@, r@));
        }
        r
    }
}

/// `a` assembles every scanned directory in place, and `r` is `a`
/// reordered: the witness behind `get_projects`.
pub open spec fn listing_of(a: Seq<Project>, scans: Seq<ProjectScan>, r: Seq<Project>) -> bool {
    &&& a.len() == scans.len()
    &&& forall|i: int| 0 <= i < a.len() ==> project_of_scan(#[trigger] a[i], scans[i])
    &&& r.to_multiset() == a.to_multiset()
}

/// One session's log file, as scanned: its name without extension, and
/// its creation time when the file system offered one.
#[derive(Debug)]
pub struct SessionScan {
    pub stem: String,
    pub created: Option<u64>,
}

/// One project directory, as scanned.
#[derive(Debug)]
pub struct ProjectScan {
    /// The directory name: the encoded project identifier.
    pub dir_name: String,
    /// The session log files found inside.
    pub sessions: Vec<SessionScan>,
    /// When the directory was created (0 when unknown).
    pub created_at: u64,
}

/// What the standard base64 alphabet decodes a text to, if anything: a
/// pure function of the characters.
pub uninterp spec fn base64_decode_of(s: Seq<char>) -> Option<Seq<u8>>;

/// Relies on base64's standard engine `decode`: the result depends on the
/// characters alone.
#[verifier::external_body]
fn b64_decode(s: &String) -> (r: Option<Vec<u8>>)
    ensures
        r is Some <==> base64_decode_of(s@) is Some,
        r matches Some(v) ==> base64_decode_of(s@) == Some(v@),
{
    base64::Engine::decode(&base64::engine::general_purpose::STANDARD, s.as_str()).ok()
}

/// Relies on `String::from_utf8`: it succeeds exactly on valid UTF-8 and
/// then yields the string of exactly those bytes' characters.
#[verifier::external_body]
fn utf8_string(bytes: Vec<u8>) -> (r: Option<String>)
    ensures
        r is Some <==> valid_utf8(bytes@),
        r matches Some(s) ==> s@ == decode_utf8(bytes@),
{
    String::from_utf8(bytes).ok()
}

/// How a directory name reads as a project path: decoded from base64 when
/// it decodes to text, the name itself otherwise.
pub open spec fn decoded_project_path(id: Seq<char>) -> Seq<char> {
    match base64_decode_of(id) {
        Some(bytes) => if valid_utf8(bytes) {
            decode_utf8(bytes)
        } else {
            id
        },
        None => id,
    }
}

/// Decode a directory name into the project path it stands for.
pub fn decode_project_path(id: &String) -> (r: String)
    ensures
        r@ == decoded_project_path(id@),
{
    match b64_decode(id) {
        Some(bytes) => match utf8_string(bytes) {
            Some(s) => s,
            None => id.clone(),
        },
        None => id.clone(),
    }
}

/// The latest of the known session times, if any is known.
pub open spec fn max_time(ts: Seq<Option<u64>>) -> Option<u64>
    decreases ts.len(),
{
    if ts.len() == 0 {
        None
    } else {
        let prev = max_time(ts.drop_last());
        match ts.last() {
            None => prev,
            Some(t) => match prev {
                None => Some(t),
                Some(p) => if p < t {
                    Some(t)
                } else {
                    Some(p)
                },
            },
        }
    }
}

/// The names of the scanned session files.
pub open spec fn session_stems(s: Seq<SessionScan>) -> Seq<Seq<char>> {
    Seq::new(s.len(), |i: int| s[i].stem@)
}

/// The creation times of the scanned session files.
pub open spec fn session_times(s: Seq<SessionScan>) -> Seq<Option<u64>> {
    Seq::new(s.len(), |i: int| s[i].created)
}

/// `p` is the project record for the scanned directory `s`.
pub open spec fn project_of_scan(p: Project, s: ProjectScan) -> bool {
    &&& p.id == s.dir_name
    &&& p.path@ == decoded_project_path(s.dir_name@)
    &&& p.sessions.deep_view() == session_stems(s.sessions@)
    &&& p.created_at == s.created_at
    &&& p.most_recent_session == max_time(session_times(s.sessions@))
}

/// Build the project record for one scanned directory.
pub fn assemble_project(scan: &ProjectScan) -> (p: Project)
    ensures
        project_of_scan(p, *scan),
{
    let mut stems: Vec<String> = Vec::new();
    let mut most_recent: Option<u64> = None;
    let n = scan.sessions.len();
    for i in 0..n
        invariant
            n == scan.sessions@.len(),
            stems.deep_view() == session_stems(scan.sessions@).subrange(0, i as int),
            most_recent == max_time(session_times(scan.sessions@).subrange(0, i as int)),
    {
        let ghost dv_pre = stems.deep_view();
        stems.push(scan.sessions[i].stem.clone());
        proof {
            assert(stems@.last() == scan.sessions@[i as int].stem);
            assert(scan.sessions@[i as int].stem.deep_view() =~= scan.sessions@[i as int].stem@);
            assert(stems.deep_view() =~~= dv_pre.push(scan.sessions@[i as int].stem@));
        }
        match scan.sessions[i].created {
            Some(t) => {
                most_recent = match most_recent {
                    Some(p) => if p < t {
                        Some(t)
                    } else {
                        Some(p)
                    },
                    None => Some(t),
                };
            },
            None => {},
        }
        proof {
            assert(stems.deep_view() =~~= session_stems(scan.sessions@).subrange(0, i + 1));
            assert(session_times(scan.sessions@).subrange(0, i + 1).drop_last() =~= session_times(
                scan.sessions@,
            ).subrange(0, i as int));
        }
    }
    proof {
        assert(session_stems(scan.sessions@).subrange(0, n as int) =~= session_stems(
            scan.sessions@,
        ));
        assert(session_times(scan.sessions@).subrange(0, n as int) =~= session_times(
            scan.sessions@,
        ));
    }
    Project {
        id: scan.dir_name.clone(),
        path: decode_project_path(&scan.dir_name),
        sessions: stems,
        created_at: scan.created_at,
        most_recent_session: most_recent,
    }
}

/// The listing order: most recent session first; projects that have
/// sessions come before those that have none; among the latter, newest
/// directory first.
pub open spec fn project_le(a: Project, b: Project) -> bool {
    match (a.most_recent_session, b.most_recent_session) {
        (Some(x), Some(y)) => x >= y,
        (Some(_), None) => true,
        (None, Some(_)) => false,
        (None, None) => a.created_at >= b.created_at,
    }
}

/// A listing in order.
pub open spec fn sorted_projects(s: Seq<Project>) -> bool {
    forall|i: int, j: int| 0 <= i < j < s.len() ==> project_le(#[trigger] s[i], #[trigger] s[j])
}

/// Any two projects are ordered one way or the other.
proof fn lemma_project_le_total(a: Project, b: Project)
    ensures
        project_le(a, b) || project_le(b, a),
{
}

/// The listing order is transitive.
proof fn lemma_project_le_trans(a: Project, b: Project, c: Project)
    requires
        project_le(a, b),
        project_le(b, c),
    ensures
        project_le(a, c),
{
}

/// Whether `a` comes no later than `b` in the listing.
fn project_le_exec(a: &Project, b: &Project) -> (r: bool)
    ensures
        r == project_le(*a, *b),
{
    match (a.most_recent_session, b.most_recent_session) {
        (Some(x), Some(y)) => x >= y,
        (Some(_), None) => true,
        (None, Some(_)) => false,
        (None, None) => a.created_at >= b.created_at,
    }
}

/// Inserting an element anywhere adds exactly it to the multiset.
proof fn lemma_insert_multiset(s: Seq<Project>, k: int, x: Project)
    requires
        0 <= k <= s.len(),
    ensures
        s.insert(k, x).to_multiset() == s.to_multiset().insert(x),
{
    broadcast use vstd::seq_lib::group_to_multiset_ensures;
    broadcast use vstd::multiset::group_multiset_axioms;

    let take = s.subrange(0, k);
    let skip = s.subrange(k, s.len() as int);
    assert(s.insert(k, x) =~= take.push(x) + skip);
    assert(s =~= take + skip);
    lemma_multiset_commutative(take.push(x), skip);
    lemma_multiset_commutative(take, skip);
    assert(take.push(x).to_multiset() =~= take.to_multiset().insert(x));
    assert((take.push(x) + skip).to_multiset() =~= (take + skip).to_multiset().insert(x));
}

/// Order a project listing: the result is the same records (as a
/// multiset), most recently used first.
pub fn sort_projects(v: Vec<Project>) -> (r: Vec<Project>)
    ensures
        r@.len() == v@.len(),
        sorted_projects(r@),
        r@.to_multiset() == v@.to_multiset(),
{
    let ghost input = v@;
    let mut rest = v;
    let mut out: Vec<Project> = Vec::new();
    proof {
        broadcast use vstd::seq_lib::group_to_multiset_ensures;
        broadcast use vstd::multiset::group_multiset_axioms;

    }
    while rest.len() > 0
        invariant
            sorted_projects(out@),
            out@.len() + rest@.len() == input.len(),
            out@.to_multiset().add(rest@.to_multiset()) == input.to_multiset(),
        decreases rest.len(),
    {
        proof {
            broadcast use vstd::seq_lib::group_to_multiset_ensures;
            broadcast use vstd::multiset::group_multiset_axioms;

        }
        let ghost rest_pre = rest@;
        let ghost out_pre = out@;
        let x = rest.remove(0);
        let ghost xg = x;
        let mut k: usize = 0;
        while k < out.len() && project_le_exec(&out[k], &x)
            invariant
                k <= out@.len(),
                out@ == out_pre,
                x == xg,
                forall|i: int| 0 <= i < k ==> project_le(#[trigger] out@[i], x),
            decreases out@.len() - k,
        {
            k = k + 1;
        }
        proof {
            if k < out_pre.len() {
                lemma_project_le_total(out_pre[k as int], xg);
            }
        }
        out.insert(k, x);
        proof {
            assert(out@ =~= out_pre.insert(k as int, xg));
            lemma_insert_multiset(out_pre, k as int, xg);
            assert(rest@ =~= rest_pre.remove(0));
            assert(rest_pre.remove(0).to_multiset() =~= rest_pre.to_multiset().remove(
                rest_pre[0],
            ));
            assert(rest_pre.to_multiset().count(xg) > 0) by {
                assert(rest_pre.contains(xg));
            }
            assert(out@.to_multiset().add(rest@.to_multiset()) =~= input.to_multiset());
            assert forall|i: int, j: int|
                0 <= i < j < out@.len() implies project_le(#[trigger] out@[i], #[trigger] out@[j]) by {
                if j < k as int {
                    assert(out@[i] == out_pre[i] && out@[j] == out_pre[j]);
                } else if j == k as int {
                    assert(out@[i] == out_pre[i]);
                    assert(project_le(out_pre[i], xg));
                } else if i < k as int {
                    assert(out@[i] == out_pre[i] && out@[j] == out_pre[j - 1]);
                } else if i == k as int {
                    assert(out@[j] == out_pre[j - 1] && j - 1 >= k as int);
                    assert(project_le(xg, out_pre[k as int]));
                    if j - 1 > k as int {
                        lemma_project_le_trans(xg, out_pre[k as int], out_pre[j - 1]);
                    }
                } else {
                    assert(out@[i] == out_pre[i - 1] && out@[j] == out_pre[j - 1]);
                }
            }
        }
    }
    out
}

} // verus!
