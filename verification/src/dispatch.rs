//! Request dispatch and refresh coordination.
//!
//! `RestApiHandler::plan` decides, from the method and the URI alone,
//! everything a request needs: which directories must exist, where an
//! upload lands, or how the external indexer is to be invoked. The
//! caller carries the plan out (filesystem writes, one indexer run at
//! a time under its process-wide lock) and feeds each outcome back
//! through `upload_status` / `refresh_status` to obtain the response.

use vstd::prelude::*;

use crate::http::{Method, RequestUri, Status};
use crate::paths::{join_path, normal_segments, spec_join};
use crate::resolver::{is_rpm_name, parse_request, repo_dirs_ok};

verus! {

/// An upload, fully resolved: the directories that must exist, in
/// creation order, and the file the request body is to be written to.
#[derive(Debug, Clone, PartialEq, Eq)]
pub struct UploadPlan {
    pub dirs: Vec<String>,
    pub file_path: String,
}

/// A metadata refresh, fully resolved: the directories that must
/// exist, in creation order, and the external indexer command line.
/// The caller must hold the process-wide refresh lock around the
/// entire spawn-and-wait, and release it whatever the outcome.
#[derive(Debug, Clone, PartialEq, Eq)]
pub struct RefreshPlan {
    pub dirs: Vec<String>,
    pub program: String,
    pub args: Vec<String>,
}

/// What a request requires of the caller.
#[derive(Debug, Clone, PartialEq, Eq)]
pub enum Action {
    /// Answer with this status; touch nothing.
    Respond(Status),
    /// Write the request body as described, then answer via
    /// `upload_status`.
    Upload(UploadPlan),
    /// Run the indexer as described under the refresh lock, then
    /// answer via `refresh_status`.
    Refresh(RefreshPlan),
}

/// How one indexer invocation ended, as the caller observed it.
#[derive(Debug, Clone, Copy, PartialEq, Eq, Structural)]
pub enum IndexerOutcome {
    /// The subprocess could not be started at all.
    SpawnFailed,
    /// The subprocess ran to completion; `success` is whether it
    /// exited with status zero.
    Exited { success: bool },
}

/// The value of the indexer's cache-directory flag for this root:
/// `--cachedir=<root>/cache`.
pub open spec fn spec_cache_arg(root: Seq<char>) -> Seq<char> {
    "--cachedir="@ + spec_join(root, "cache"@)
}

/// Derives the cache-directory flag passed to the external indexer.
pub fn cache_arg(root: &String) -> (r: String)
    ensures
        r@ == spec_cache_arg(root@),
{
    let mut arg = String::from_str("--cachedir=");
    let cache_path = join_path(root.as_str(), "cache");
    arg.append(cache_path.as_str());
    arg
}

/// Maps the write of an upload to its response: success answers 200,
/// any write failure is a server error.
pub fn upload_status(write_ok: bool) -> (s: Status)
    ensures
        s == (if write_ok {
            Status::Okay
        } else {
            Status::InternalServerError
        }),
{
    if write_ok {
        Status::Okay
    } else {
        Status::InternalServerError
    }
}

/// Maps one indexer invocation to its response: only a clean exit
/// answers 200; a spawn failure or a non-zero exit is a server error.
pub fn refresh_status(outcome: &IndexerOutcome) -> (s: Status)
    ensures
        s == (match *outcome {
            IndexerOutcome::SpawnFailed => Status::InternalServerError,
            IndexerOutcome::Exited { success } => if success {
                Status::Okay
            } else {
                Status::InternalServerError
            },
        }),
{
    match outcome {
        IndexerOutcome::SpawnFailed => Status::InternalServerError,
        IndexerOutcome::Exited { success } => if *success {
            Status::Okay
        } else {
            Status::InternalServerError
        },
    }
}

/// What `plan` decides for an upload request resolved to `repo` and
/// `name`.
pub open spec fn upload_plan_ok(a: Action, root: Seq<char>, repo: Seq<char>, name: Seq<char>) -> bool {
    &&& a matches Action::Upload(u)
    &&& repo_dirs_ok(a->Upload_0.dirs@, root, repo)
    &&& a->Upload_0.file_path@ == spec_join(spec_join(spec_join(root, repo), "rpms"@), name)
}

/// What `plan` decides for a refresh request resolved to `repo`.
pub open spec fn refresh_plan_ok(a: Action, root: Seq<char>, repo: Seq<char>) -> bool {
    &&& a matches Action::Refresh(p)
    &&& repo_dirs_ok(a->Refresh_0.dirs@, root, repo)
    &&& a->Refresh_0.program@ == "createrepo"@
    &&& a->Refresh_0.args@.len() == 3
    &&& a->Refresh_0.args@[0]@ == spec_cache_arg(root)
    &&& a->Refresh_0.args@[1]@ == "--update"@
    &&& a->Refresh_0.args@[2]@ == spec_join(root, repo)
}

/// However the request path tried to traverse, a planned upload lands
/// directly inside the repository's artifact directory: that directory
/// is a prefix of the target path, and past it the target holds no
/// separator beyond the one that introduces the file name.
pub proof fn lemma_upload_confined(a: Action, root: Seq<char>, p: Seq<char>)
    requires
        normal_segments(p).len() == 2,
        upload_plan_ok(a, root, normal_segments(p)[0], normal_segments(p)[1]),
    ensures
        ({
            let rpms = spec_join(spec_join(root, normal_segments(p)[0]), "rpms"@);
            let target = a->Upload_0.file_path@;
            &&& target.take(rpms.len() as int) == rpms
            &&& forall|i: int|
                rpms.len() <= i < target.len() && #[trigger] target[i] == '/' ==> i == rpms.len()
        }),
{
    crate::paths::lemma_normal_segments_plain(p);
    crate::paths::lemma_join_confines(
        spec_join(spec_join(root, normal_segments(p)[0]), "rpms"@),
        normal_segments(p)[1],
    );
}

/// The long-lived server state the dispatcher decides from: the root
/// under which every repository lives. The process-wide refresh lock
/// the plans speak of is owned by the caller, beside this value.
#[derive(Debug, Clone, PartialEq, Eq)]
pub struct RestApiHandler {
    pub file_root: String,
}

impl RestApiHandler {
    /// A handler serving repositories under `file_root`.
    pub fn new(file_root: String) -> (h: RestApiHandler)
        ensures
            h.file_root == file_root,
    {
        RestApiHandler { file_root }
    }

    /// Decides a request completely.
    ///
    /// `GET` always answers 200 and touches nothing. `PUT` resolves
    /// the path to an upload of a `.rpm` file and otherwise answers
    /// 400. `POST` resolves the path to a repository refresh (a second
    /// path segment, if any, is ignored) and rejects unresolvable
    /// paths with 400. Every other method answers 405.
    pub fn plan(&self, method: &Method, uri: &RequestUri) -> (a: Action)
        ensures
            match method {
                Method::Get => a == Action::Respond(Status::Okay),
                Method::Put => match uri {
                    RequestUri::AbsolutePath(val) => {
                        let segs = normal_segments(val@);
                        if segs.len() == 2 && is_rpm_name(segs[1]) {
                            upload_plan_ok(a, self.file_root@, segs[0], segs[1])
                        } else {
                            a == Action::Respond(Status::BadRequest)
                        }
                    },
                    _ => a == Action::Respond(Status::BadRequest),
                },
                Method::Post => match uri {
                    RequestUri::AbsolutePath(val) => {
                        let segs = normal_segments(val@);
                        if segs.len() == 1 || segs.len() == 2 {
                            refresh_plan_ok(a, self.file_root@, segs[0])
                        } else {
                            a == Action::Respond(Status::BadRequest)
                        }
                    },
                    _ => a == Action::Respond(Status::BadRequest),
                },
                Method::Other => a == Action::Respond(Status::MethodNotAllowed),
            },
    {
        match method {
            Method::Get => Action::Respond(Status::Okay),
            Method::Put => match parse_request(uri) {
                Err(e) => Action::Respond(e.code),
                Ok(req) => match req.file_path(&self.file_root) {
                    Err(e) => Action::Respond(e.code),
                    Ok(file_path) => {
                        let dirs = req.ensure_repo_exists(&self.file_root);
                        Action::Upload(UploadPlan { dirs, file_path })
                    },
                },
            },
            Method::Post => match parse_request(uri) {
                Err(e) => Action::Respond(e.code),
                Ok(req) => {
                    let dirs = req.ensure_repo_exists(&self.file_root);
                    let repo_path = req.repo_path(&self.file_root);
                    let mut args: Vec<String> = Vec::new();
                    args.push(cache_arg(&self.file_root));
                    args.push(String::from_str("--update"));
                    args.push(repo_path);
                    Action::Refresh(
                        RefreshPlan { dirs, program: String::from_str("createrepo"), args },
                    )
                },
            },
            Method::Other => Action::Respond(Status::MethodNotAllowed),
        }
    }
}

} // verus!
