//! The upload orchestrator: holds the storage backend handle for one
//! resolved profile, renders remote paths, and builds public URLs. The
//! backend writes themselves are I/O and are driven by the caller, one
//! file at a time, through `UploadBatch`; each file's outcome is
//! independent of every other's.

use vstd::prelude::*;

use crate::config::Profile;
use crate::error::UploadError;
use crate::template::{
    render_filename, spec_file_ext, spec_file_name, spec_file_stem, spec_render,
};
use crate::text::{trim_end_char, trim_end_sep, trim_start_char, trim_start_sep};

verus! {

/// The remote path prefixed by the backend root, both normalized: the
/// root is stripped of leading and trailing `/`, the remote path of
/// leading `/`, and an empty root contributes nothing.
pub open spec fn spec_full_path(root: Seq<char>, remote: Seq<char>) -> Seq<char> {
    let r = trim_start_sep(trim_end_sep(root, '/'), '/');
    let m = trim_start_sep(remote, '/');
    if r.len() == 0 {
        m
    } else {
        r + seq!['/'] + m
    }
}

/// The public URL: the base URL without trailing `/`, then `/`, then the
/// full remote path. The join is purely textual; no percent-encoding is
/// applied.
pub open spec fn spec_public_url(base: Seq<char>, root: Seq<char>, remote: Seq<char>) -> Seq<char> {
    trim_end_sep(base, '/') + seq!['/'] + spec_full_path(root, remote)
}

/// Joins base URL, backend root and remote path into the public URL.
pub fn build_public_url(base_url: &str, root: &str, remote_path: &str) -> (r: String)
    ensures
        r@ == spec_public_url(base_url@, root@, remote_path@),
{
    let root_trimmed = trim_start_char(trim_end_char(root, '/'), '/');
    let remote_trimmed = trim_start_char(remote_path, '/');
    let base_trimmed = trim_end_char(base_url, '/');
    let mut url = String::from_str(base_trimmed);
    url.append("/");
    if !root_trimmed.is_empty() {
        url.append(root_trimmed);
        url.append("/");
    }
    url.append(remote_trimmed);
    proof {
        reveal_strlit("/");
        assert("/"@ =~= seq!['/']);
        assert(url@ =~= spec_public_url(base_url@, root@, remote_path@));
    }
    url
}

#[verifier::external_type_specification]
#[verifier::external_body]
pub struct ExOperator(opendal::Operator);

#[verifier::external_type_specification]
#[verifier::external_body]
pub struct ExOpendalError(opendal::Error);

/// Relies on opendal's `Operator::via_iter` to build the backend handle
/// for a scheme name and its options; `init_default_registry` first makes
/// the compiled-in services resolvable by name. Whether construction
/// succeeds is the backend's decision, so nothing is stated of the result.
#[verifier::external_body]
fn operator_via_options(scheme: &str, options: &Vec<(String, String)>) -> Result<
    opendal::Operator,
    opendal::Error,
> {
    opendal::init_default_registry();
    opendal::Operator::via_iter(scheme, options.clone())
}

/// Relies on opendal's `OperatorInfo::root`, reached through
/// `Operator::info`: the root path the operator was configured with.
#[verifier::external_body]
fn operator_root(op: &opendal::Operator) -> String {
    op.info().root()
}

/// Relies on the `Display` impl of opendal's `Error` for a readable
/// report of what the backend refused.
#[verifier::external_body]
fn backend_error_message(e: &opendal::Error) -> String {
    format!("{}", e)
}

/// The orchestrator for one resolved profile: the backend handle, the
/// public base URL, and the optional remote-path template.
pub struct Uploader {
    pub operator: opendal::Operator,
    pub base_url: String,
    pub filename_format: Option<String>,
}

impl Uploader {
    /// Builds the backend handle for the profile's scheme and options.
    /// When the backend refuses, the report comes back as
    /// `BackendInitError`; on success the profile's base URL and template
    /// are carried over unchanged.
    pub fn new(profile: &Profile) -> (r: Result<Uploader, UploadError>)
        ensures
            r matches Ok(u) ==> u.base_url@ == profile.base_url@ && u.filename_format.deep_view()
                == profile.filename_format.deep_view(),
            r matches Err(e) ==> e matches UploadError::BackendInitError(_),
    {
        match operator_via_options(profile.scheme.as_str(), &profile.options) {
            Ok(op) => {
                let filename_format = match &profile.filename_format {
                    Some(f) => Some(f.clone()),
                    None => None,
                };
                Ok(Uploader { operator: op, base_url: profile.base_url.clone(), filename_format })
            },
            Err(e) => Err(UploadError::BackendInitError(backend_error_message(&e))),
        }
    }

    /// The remote path for one local file: the profile's template
    /// rendered on the current date, or the bare file name when no
    /// template is configured.
    pub fn remote_path(&self, path: &str) -> (r: String)
        ensures
            self.filename_format is None ==> r@ == spec_file_name(path@),
            self.filename_format matches Some(t) ==> exists|d: Seq<char>|
                r@ == spec_render(
                    t@,
                    spec_file_name(path@),
                    spec_file_stem(path@),
                    spec_file_ext(path@),
                    d,
                ),
    {
        match &self.filename_format {
            Some(t) => render_filename(Some(t.as_str()), path),
            None => render_filename(None, path),
        }
    }

    /// The public URL for an uploaded remote path, joined from the base
    /// URL, the backend's configured root, and the remote path.
    pub fn public_url(&self, remote_path: &str) -> (r: String)
        ensures
            exists|root: Seq<char>| r@ == spec_public_url(self.base_url@, root, remote_path@),
    {
        let root = operator_root(&self.operator);
        let r = build_public_url(self.base_url.as_str(), root.as_str(), remote_path);
        proof {
            assert(r@ == spec_public_url(self.base_url@, root@, remote_path@));
        }
        r
    }
}

/// What one upload attempt came to: the public URL, or the per-file
/// error that was captured instead of aborting the batch.
pub enum UploadOutcome {
    Success(String),
    Failure(UploadError),
}

/// Sequencing state of one batch: the input paths, and the outcomes
/// recorded so far, one per path, in input order. The caller performs
/// each upload and records what it came to; the batch hands out the
/// paths in order and keeps one outcome per path.
pub struct UploadBatch {
    pub paths: Vec<String>,
    pub outcomes: Vec<UploadOutcome>,
}

impl UploadBatch {
    /// At most one outcome per path.
    pub open spec fn wf(&self) -> bool {
        self.outcomes@.len() <= self.paths@.len()
    }

    /// Position of the next path to process.
    pub open spec fn next_index(&self) -> int {
        self.outcomes@.len() as int
    }

    /// Every path has its outcome.
    pub open spec fn complete(&self) -> bool {
        self.outcomes@.len() >= self.paths@.len()
    }

    /// A fresh batch over `paths`, with nothing processed yet.
    pub fn new(paths: Vec<String>) -> (r: Self)
        ensures
            r.paths == paths,
            r.outcomes@.len() == 0,
            r.wf(),
    {
        UploadBatch { paths, outcomes: Vec::new() }
    }

    /// The next path to process, or `None` once every path has its
    /// outcome.
    pub fn next_path(&self) -> (r: Option<&String>)
        ensures
            match r {
                Some(p) => !self.complete() && *p == self.paths@[self.next_index()],
                None => self.complete(),
            },
    {
        if self.outcomes.len() < self.paths.len() {
            Some(&self.paths[self.outcomes.len()])
        } else {
            None
        }
    }

    /// Records the outcome of the path at `next_index`: it is appended
    /// at that same position, and the paths and the earlier outcomes
    /// stand unchanged.
    pub fn record(&mut self, outcome: UploadOutcome)
        requires
            !old(self).complete(),
        ensures
            final(self).paths == old(self).paths,
            final(self).outcomes@ == old(self).outcomes@.push(outcome),
            final(self).wf(),
    {
        self.outcomes.push(outcome);
    }

    pub fn is_complete(&self) -> (r: bool)
        ensures
            r == self.complete(),
    {
        self.outcomes.len() >= self.paths.len()
    }

    /// The recorded outcomes, in input order.
    pub fn into_outcomes(self) -> (r: Vec<UploadOutcome>)
        ensures
            r == self.outcomes,
    {
        self.outcomes
    }
}

/// A finished batch holds exactly one outcome per input path: once no
/// path is pending, the outcomes are as many as the paths; and since
/// `record` appends each outcome at the position its path was drawn
/// from, the outcome at each position belongs to the path at that same
/// position, however many of them are failures.
pub proof fn lemma_complete_batch_counts(b: UploadBatch)
    requires
        b.wf(),
        b.complete(),
    ensures
        b.outcomes@.len() == b.paths@.len(),
{
}

} // verus!
