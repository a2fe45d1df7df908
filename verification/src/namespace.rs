//! Temporary request namespaces and passwords kept out of traces.
use vstd::prelude::*;
use std::path::{Path, PathBuf};
use crate::refs::{namespaced, namespaced_ref};
use crate::text::concat2;

verus! {

#[verifier::external_type_specification]
#[verifier::external_body]
pub struct ExPathBuf(PathBuf);

#[verifier::external_type_specification]
#[verifier::external_body]
pub struct ExPath(Path);

/// `Path::to_path_buf`: an owned copy of the path.
///
/// Nothing is stated of the copy: paths are carried through, never inspected.
#[verifier::external_body]
fn path_to_owned(p: &Path) -> PathBuf {
    p.to_path_buf()
}

} // verus!

verus! {

/// A lowercase hexadecimal digit.
pub open spec fn is_lower_hex(c: char) -> bool {
    ('0' <= c && c <= '9') || ('a' <= c && c <= 'f')
}

/// The hyphenated lowercase text of a random (version 4, RFC 4122 variant) UUID:
/// 36 characters, `-` at positions 8, 13, 18 and 23, hexadecimal digits elsewhere,
/// `4` at position 14 and one of `8`, `9`, `a`, `b` at position 19.
pub open spec fn is_v4_uuid_text(s: Seq<char>) -> bool {
    &&& s.len() == 36
    &&& forall|i: int|
        0 <= i < 36 ==> if i == 8 || i == 13 || i == 18 || i == 23 {
            s[i] == '-'
        } else {
            is_lower_hex(#[trigger] s[i])
        }
    &&& s[14] == '4'
    &&& (s[19] == '8' || s[19] == '9' || s[19] == 'a' || s[19] == 'b')
}

/// `uuid::Uuid::new_v4().to_string()`.
///
/// The UUID is random; uuid's `new_v4` sets the version nibble to 4 and the variant
/// bits to `10`, and its `Display` writes the hyphenated lowercase form. Which UUID
/// comes back is not stated.
#[verifier::external_body]
fn new_v4_uuid_text() -> (s: String)
    ensures
        is_v4_uuid_text(s@),
{
    uuid::Uuid::new_v4().to_string()
}

/// The prefix of every request namespace name.
pub open spec fn request_prefix() -> Seq<char> {
    "request_"@
}

/// A password, kept out of debug output.
#[derive(Clone)]
pub struct Password {
    pub value: String,
}

impl Password {
    /// What `{:?}` shows of a password: its value hidden.
    pub fn debug_text(&self) -> (r: String)
        ensures
            r@ == "Password { value: \"<hidden>\" }"@,
    {
        String::from_str("Password { value: \"<hidden>\" }")
    }
}

/// A temporary namespace inside a repository, named after one request.
pub struct TmpGitNamespace {
    name: String,
    repo_path: PathBuf,
}

impl TmpGitNamespace {
    /// The name of the namespace.
    pub closed spec fn spec_name(&self) -> Seq<char> {
        self.name@
    }

    /// A namespace in the repository at `repo_path`, named `request_<id>`.
    pub fn with_request_id(repo_path: &Path, id: &str) -> (r: TmpGitNamespace)
        ensures
            r.spec_name() == request_prefix() + id@,
    {
        TmpGitNamespace { name: concat2("request_", id), repo_path: path_to_owned(repo_path) }
    }

    /// A fresh namespace in the repository at `repo_path`, named `request_` and a
    /// random UUID.
    pub fn new(repo_path: &Path) -> (r: TmpGitNamespace)
        ensures
            r.spec_name().len() == request_prefix().len() + 36,
            r.spec_name().take(request_prefix().len() as int) == request_prefix(),
            is_v4_uuid_text(r.spec_name().skip(request_prefix().len() as int)),
    {
        let id = new_v4_uuid_text();
        let r = TmpGitNamespace::with_request_id(repo_path, id.as_str());
        assert(r.spec_name().take(request_prefix().len() as int) =~= request_prefix());
        assert(r.spec_name().skip(request_prefix().len() as int) =~= id@);
        r
    }

    /// The name of the namespace.
    pub fn name(&self) -> (r: &str)
        ensures
            r@ == self.spec_name(),
    {
        self.name.as_str()
    }

    /// The path of the repository the namespace lives in, as it was stored when the
    /// namespace was made.
    pub closed spec fn spec_repo_path(&self) -> PathBuf {
        self.repo_path
    }

    /// The repository the namespace lives in.
    pub fn repo_path(&self) -> (r: &PathBuf)
        ensures
            *r == self.spec_repo_path(),
    {
        &self.repo_path
    }

    /// The reference `refname` inside the namespace: `refs/namespaces/<name>/<refname>`.
    pub fn reference(&self, refname: &str) -> (r: String)
        ensures
            r@ == namespaced(self.spec_name(), refname@),
    {
        namespaced_ref(self.name.as_str(), refname)
    }
}

} // verus!
