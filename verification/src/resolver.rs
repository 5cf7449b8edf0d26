//! Request resolution: turning a request URI into a validated
//! `RepoRequest`, and realizing a `RepoRequest` as on-disk locations
//! under the managed root.
//!
//! All functions here are pure: they compute names and paths; the
//! caller performs any filesystem work on the results.

use vstd::prelude::*;

use crate::http::{HttpError, RequestUri, Status};
use crate::paths::{
    convert_string_com, drop_non_string_comp, is_plain_segment, join_path, normal_of,
    normal_segments, path_components, spec_join, Component,
};

verus! {

/// A parsed, validated request intent: which repository, and, for an
/// upload, which file inside it.
#[derive(Debug, Clone, PartialEq, Eq)]
pub struct RepoRequest {
    pub repo_name: String,
    pub file_name: Option<String>,
}

/// A file name carries the required package suffix exactly when it
/// ends in `.rpm` and the dot is not its first character, so the stem
/// is non-empty. This is the usual extension rule: the extension is
/// what follows the last dot, and a name that is nothing but a leading
/// dot and an extension has no extension at all.
pub open spec fn is_rpm_name(s: Seq<char>) -> bool {
    s.len() >= 5 && s.skip(s.len() - 4) == ".rpm"@
}

/// The directory list every repository-touching operation needs, in
/// creation order: the repository root, then its artifact
/// subdirectory.
pub open spec fn repo_dirs_ok(dirs: Seq<String>, root: Seq<char>, repo: Seq<char>) -> bool {
    &&& dirs.len() == 2
    &&& dirs[0]@ == spec_join(root, repo)
    &&& dirs[1]@ == spec_join(spec_join(root, repo), "rpms"@)
}

/// Ensuring a repository's layout is idempotent at the planning
/// level: the directory list is fixed by the root and the repository
/// name, so a second call asks for exactly the directories the first
/// call already ensured.
pub proof fn lemma_repo_dirs_deterministic(
    d1: Seq<String>,
    d2: Seq<String>,
    root: Seq<char>,
    repo: Seq<char>,
)
    requires
        repo_dirs_ok(d1, root, repo),
        repo_dirs_ok(d2, root, repo),
    ensures
        d1.len() == d2.len(),
        forall|i: int| 0 <= i < d1.len() ==> d1[i]@ == d2[i]@,
{
}

impl RepoRequest {
    /// Both names are plain, separator-free segments; an intent built
    /// by `parse_request` always satisfies this.
    pub open spec fn wf(&self) -> bool {
        &&& is_plain_segment(self.repo_name@)
        &&& !self.repo_name@.contains('/')
        &&& match self.file_name {
            Some(f) => is_plain_segment(f@) && !f@.contains('/'),
            None => true,
        }
    }

    /// The repository's root directory: `<root>/<repo_name>`.
    pub fn repo_path(&self, root: &String) -> (r: String)
        ensures
            r@ == spec_join(root@, self.repo_name@),
    {
        join_path(root.as_str(), self.repo_name.as_str())
    }

    /// The directories that must exist before this request touches the
    /// repository, in creation order: the repository root, then its
    /// artifact subdirectory `rpms`. The list is the same on every
    /// call, so ensuring each in order is idempotent for the caller.
    pub fn ensure_repo_exists(&self, root: &String) -> (dirs: Vec<String>)
        ensures
            repo_dirs_ok(dirs@, root@, self.repo_name@),
    {
        let repo_path = self.repo_path(root);
        let rpm_path = join_path(repo_path.as_str(), "rpms");
        let mut dirs: Vec<String> = Vec::new();
        dirs.push(repo_path);
        dirs.push(rpm_path);
        dirs
    }

    /// The upload target `<root>/<repo_name>/rpms/<file_name>`, or a
    /// client error when the request names no file or the file name
    /// does not carry the required `.rpm` suffix.
    pub fn file_path(&self, root: &String) -> (r: Result<String, HttpError>)
        ensures
            match self.file_name {
                Some(name) => if is_rpm_name(name@) {
                    r matches Ok(p) && p@ == spec_join(
                        spec_join(spec_join(root@, self.repo_name@), "rpms"@),
                        name@,
                    )
                } else {
                    r matches Err(e) && e.code == Status::BadRequest && e.error@
                        == "Unexpected file name, it must be rpm file"@
                },
                None => r matches Err(e) && e.code == Status::BadRequest && e.error@
                    == "No file name specified, an rpm file is required"@,
            },
    {
        match &self.file_name {
            None => Err(
                HttpError {
                    code: Status::BadRequest,
                    error: String::from_str("No file name specified, an rpm file is required"),
                },
            ),
            Some(name) => {
                if !has_rpm_extension(name.as_str()) {
                    return Err(
                        HttpError {
                            code: Status::BadRequest,
                            error: String::from_str("Unexpected file name, it must be rpm file"),
                        },
                    );
                }
                let repo_path = self.repo_path(root);
                let rpm_path = join_path(repo_path.as_str(), "rpms");
                Ok(join_path(rpm_path.as_str(), name.as_str()))
            },
        }
    }
}

/// Whether `name` ends in the required `.rpm` suffix with a non-empty
/// stem, as `is_rpm_name` describes.
pub fn has_rpm_extension(name: &str) -> (r: bool)
    ensures
        r == is_rpm_name(name@),
{
    proof {
        reveal_strlit(".rpm");
    }
    let n = name.unicode_len();
    if n < 5 {
        return false;
    }
    let r = name.get_char(n - 4) == '.' && name.get_char(n - 3) == 'r' && name.get_char(n - 2)
        == 'p' && name.get_char(n - 1) == 'm';
    proof {
        if r {
            assert(name@.skip(n - 4) =~= ".rpm"@);
        } else {
            assert(name@.skip(n - 4) != ".rpm"@) by {
                if name@.skip(n - 4) == ".rpm"@ {
                    assert(name@.skip(n - 4)[0] == name@[n - 4]);
                    assert(name@.skip(n - 4)[1] == name@[n - 3]);
                    assert(name@.skip(n - 4)[2] == name@[n - 2]);
                    assert(name@.skip(n - 4)[3] == name@[n - 1]);
                }
            }
        }
    }
    r
}

/// Resolves a request URI into a repository intent.
///
/// Only a plain absolute path can be resolved. Its plain-name segments
/// (separators, empty segments and directory references are discarded
/// first) decide the outcome: one segment names a repository, two name
/// a repository and a file inside it, and any other count is rejected
/// as a bad request, as is every other URI shape.
pub fn parse_request(uri: &RequestUri) -> (r: Result<RepoRequest, HttpError>)
    ensures
        match uri {
            RequestUri::AbsolutePath(val) => {
                let segs = normal_segments(val@);
                if segs.len() == 1 {
                    r matches Ok(req) && req.repo_name@ == segs[0] && req.file_name is None
                        && req.wf()
                } else if segs.len() == 2 {
                    r matches Ok(req) && req.repo_name@ == segs[0] && (req.file_name matches Some(f)
                        && f@ == segs[1]) && req.wf()
                } else {
                    r matches Err(e) && e.code == Status::BadRequest && e.error@
                        == "Invalid path specified"@
                }
            },
            _ => r matches Err(e) && e.code == Status::BadRequest && e.error@
                == "Invalid URI specified"@,
        },
{
    match uri {
        RequestUri::AbsolutePath(val) => {
            let comps = path_components(val.as_str());
            proof {
                crate::paths::lemma_normal_segments_plain(val@);
            }
            let mut segments: Vec<String> = Vec::new();
            let mut i: usize = 0;
            proof {
                assert(comps@.take(0) =~= Seq::<Component>::empty());
                assert(segments.deep_view() =~= normal_of(comps@.take(0)));
            }
            while i < comps.len()
                invariant
                    i <= comps@.len(),
                    segments.deep_view() == normal_of(comps@.take(i as int)),
                    normal_of(comps@) == normal_segments(val@),
                    forall|k: int|
                        0 <= k < comps@.len() && (#[trigger] comps@[k]) is Normal
                            ==> is_plain_segment(comps@[k]->Normal_0@)
                            && !comps@[k]->Normal_0@.contains('/'),
                decreases comps@.len() - i,
            {
                let c = &comps[i];
                let ghost done = segments.deep_view();
                proof {
                    assert(comps@.take(i as int + 1) =~= comps@.take(i as int).push(comps@[i as int]));
                    crate::paths::lemma_normal_of_take_push(comps@, i as int);
                }
                if drop_non_string_comp(c) {
                    let name = convert_string_com(c);
                    segments.push(name);
                    proof {
                        assert(segments.deep_view() =~= done.push(comps@[i as int]->Normal_0@));
                    }
                }
                i = i + 1;
            }
            proof {
                assert(comps@.take(comps@.len() as int) =~= comps@);
            }
            let count = segments.len();
            if count == 1 {
                proof {
                    assert(segments.deep_view()[0] == segments@[0]@);
                }
                Ok(RepoRequest { repo_name: segments[0].clone(), file_name: None })
            } else if count == 2 {
                proof {
                    assert(segments.deep_view()[0] == segments@[0]@);
                    assert(segments.deep_view()[1] == segments@[1]@);
                }
                Ok(
                    RepoRequest {
                        repo_name: segments[0].clone(),
                        file_name: Some(segments[1].clone()),
                    },
                )
            } else {
                Err(
                    HttpError {
                        code: Status::BadRequest,
                        error: String::from_str("Invalid path specified"),
                    },
                )
            }
        },
        _ => Err(
            HttpError { code: Status::BadRequest, error: String::from_str("Invalid URI specified") },
        ),
    }
}

} // verus!
