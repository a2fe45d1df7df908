//! Commands that talk to the upstream remote: pushing a rewritten head and fetching
//! reference prefixes, and what their error output means.
use vstd::prelude::*;
use crate::refs::{namespace_of, to_ns};
use crate::text::{
    after_first, before_first, concat2, concat3, concat4, concat5, contains, join, join_strings,
    replace_all, replace_str, split_once, str_contains,
};

verus! {

/// `<proto>://<user>@<rest>` for a URL `<proto>://<rest>`.
pub open spec fn url_with_user(url: Seq<char>, user: Seq<char>) -> Seq<char> {
    before_first(url, "://"@) + "://"@ + user + "@"@ + after_first(url, "://"@)->0
}

/// The URL a push goes to: the user is written into it when there is one.
pub open spec fn push_url(url: Seq<char>, username: Seq<char>) -> Seq<char> {
    if username.len() != 0 {
        url_with_user(url, username)
    } else {
        url
    }
}

/// The temporary reference that holds the commit to push: `refs/<namespace>`.
pub open spec fn push_source_ref(namespace: Seq<char>) -> Seq<char> {
    "refs/"@ + namespace
}

/// The command that pushes the temporary reference to `refname` upstream.
pub open spec fn push_command(
    url: Seq<char>,
    username: Seq<char>,
    namespace: Seq<char>,
    refname: Seq<char>,
) -> Seq<char> {
    "git push "@ + push_url(url, username) + " '"@ + push_source_ref(namespace) + ":"@ + refname
        + "'"@
}

/// The output of a push as it is reported: the temporary reference's name replaced
/// by `JOSH_PUSH`.
pub open spec fn push_report(source_ref: Seq<char>, stderr: Seq<char>) -> Seq<char> {
    replace_all(stderr, source_ref, "JOSH_PUSH"@)
}

/// A URL with a user written into it, `<proto>://<user>@<rest>`.
pub fn insert_user(url: &str, user: &str) -> (r: String)
    requires
        contains(url@, "://"@),
    ensures
        r@ == url_with_user(url@, user@),
{
    let (proto, rest) = split_once(url, "://");
    proof {
        crate::text::lemma_find_occurs(url@, "://"@);
    }
    match rest {
        Some(rest) => concat5(proto.as_str(), "://", user, "@", rest.as_str()),
        None => String::new(),
    }
}

/// What a push of a rewritten head does: the temporary reference it creates and the
/// command it runs.
pub struct PushPlan {
    pub source_ref: String,
    pub command: String,
}

impl PushPlan {
    /// The plan for pushing the temporary reference `refs/<namespace>` to `refname` at
    /// `url`, as `username` when there is one.
    pub fn new(refname: &str, url: &str, username: &str, namespace: &str) -> (r: PushPlan)
        requires
            username@.len() == 0 || contains(url@, "://"@),
        ensures
            r.source_ref@ == push_source_ref(namespace@),
            r.command@ == push_command(url@, username@, namespace@, refname@),
    {
        let source_ref = concat2("refs/", namespace);
        let target = if !username.is_empty() {
            insert_user(url, username)
        } else {
            String::from_str(url)
        };
        let command = concat5("git push ", target.as_str(), " '", source_ref.as_str(), ":");
        let command = concat3(command.as_str(), refname, "'");
        assert(command@ =~= push_command(url@, username@, namespace@, refname@));
        PushPlan { source_ref, command }
    }

    /// The output of the push as it is reported.
    pub fn report(&self, stderr: &str) -> (r: String)
        requires
            self.source_ref@.len() > 0,
        ensures
            r@ == push_report(self.source_ref@, stderr@),
    {
        replace_str(stderr, self.source_ref.as_str(), "JOSH_PUSH")
    }
}

/// The URL a fetch goes to: the user, or `annonymous` when there is none, is written
/// into it.
pub open spec fn fetch_url(url: Seq<char>, username: Seq<char>) -> Seq<char> {
    if username.len() != 0 {
        url_with_user(url, username)
    } else {
        url_with_user(url, "annonymous"@)
    }
}

/// The refspec that fetches the references under `prefix` into the upstream
/// namespace `ns`: `'+<prefix>:refs/josh/upstream/<ns>/<prefix>'`.
pub open spec fn fetch_refspec(ns: Seq<char>, prefix: Seq<char>) -> Seq<char> {
    "'+"@ + prefix + ":refs/josh/upstream/"@ + ns + "/"@ + prefix + "'"@
}

/// The refspecs for all prefixes, in order.
pub open spec fn fetch_refspecs(ns: Seq<char>, prefixes: Seq<Seq<char>>) -> Seq<Seq<char>> {
    prefixes.map_values(|p: Seq<char>| fetch_refspec(ns, p))
}

/// The command that fetches the reference prefixes of `upstream_repo` from `url`.
pub open spec fn fetch_command(
    upstream_repo: Seq<char>,
    url: Seq<char>,
    prefixes: Seq<Seq<char>>,
    username: Seq<char>,
) -> Seq<char> {
    "git fetch --no-tags "@ + fetch_url(url, username) + " "@ + join(
        fetch_refspecs(namespace_of(upstream_repo), prefixes),
        " "@,
    )
}

/// The command that fetches the reference prefixes of `upstream_repo` from `url`, as
/// `username` (or `annonymous` when it is empty).
pub fn fetch_refs_command(upstream_repo: &str, url: &str, refs_prefixes: &[&str], username: &str) -> (r:
    String)
    requires
        contains(url@, "://"@),
    ensures
        r@ == fetch_command(
            upstream_repo@,
            url@,
            refs_prefixes@.map_values(|p: &str| p@),
            username@,
        ),
{
    let ns = to_ns(upstream_repo);
    let ghost prefixes = refs_prefixes@.map_values(|p: &str| p@);
    let mut specs: Vec<String> = Vec::new();
    let mut i: usize = 0;
    while i < refs_prefixes.len()
        invariant
            i <= refs_prefixes@.len(),
            prefixes == refs_prefixes@.map_values(|p: &str| p@),
            specs@.map_values(|s: String| s@) == fetch_refspecs(ns@, prefixes.take(i as int)),
        decreases refs_prefixes.len() - i,
    {
        let r = refs_prefixes[i];
        let head = concat5("'+", r, ":refs/josh/upstream/", ns.as_str(), "/");
        let spec = concat3(head.as_str(), r, "'");
        let ghost before = specs@.map_values(|s: String| s@);
        specs.push(spec);
        assert(specs@.map_values(|s: String| s@) =~= before.push(fetch_refspec(ns@, prefixes[i as int])));
        assert(fetch_refspecs(ns@, prefixes.take(i + 1)) =~= fetch_refspecs(ns@, prefixes.take(i as int)).push(fetch_refspec(ns@, prefixes[i as int])));
        i += 1;
    }
    assert(prefixes.take(refs_prefixes.len() as int) =~= prefixes);
    let target = if !username.is_empty() {
        insert_user(url, username)
    } else {
        insert_user(url, "annonymous")
    };
    let joined = join_strings(&specs, " ");
    let r = concat4("git fetch --no-tags ", target.as_str(), " ", joined.as_str());
    r
}

/// Why a fetch failed.
pub enum FetchError {
    /// The remote refused the credentials.
    AuthFailed,
    /// Git reported another fatal error or an error.
    Failed,
}

impl FetchError {
    /// The message of the git error the failure is reported as: `auth` or `error`.
    pub fn message(&self) -> (r: &str)
        ensures
            r@ == (match self {
                FetchError::AuthFailed => "auth"@,
                FetchError::Failed => "error"@,
            }),
    {
        match self {
            FetchError::AuthFailed => "auth",
            FetchError::Failed => "error",
        }
    }
}

/// What the error output of a fetch says of its outcome.
pub open spec fn fetch_outcome(stderr: Seq<char>) -> Result<(), FetchError> {
    if contains(stderr, "fatal: Authentication failed"@) {
        Err(FetchError::AuthFailed)
    } else if contains(stderr, "fatal:"@) || contains(stderr, "error:"@) {
        Err(FetchError::Failed)
    } else {
        Ok(())
    }
}

/// Reads the outcome of a fetch from its error output.
pub fn fetch_result(stderr: &str) -> (r: Result<(), FetchError>)
    ensures
        r == fetch_outcome(stderr@),
{
    if str_contains(stderr, "fatal: Authentication failed") {
        return Err(FetchError::AuthFailed);
    }
    if str_contains(stderr, "fatal:") {
        return Err(FetchError::Failed);
    }
    if str_contains(stderr, "error:") {
        return Err(FetchError::Failed);
    }
    Ok(())
}

/// An occurrence of a text is an occurrence of each of its prefixes.
pub proof fn lemma_contains_prefix(s: Seq<char>, long: Seq<char>, short: Seq<char>)
    requires
        contains(s, long),
        short.len() <= long.len(),
        long.take(short.len() as int) == short,
    ensures
        contains(s, short),
{
    let i = choose|i: int| crate::text::occurs_at(s, long, i);
    assert(s.subrange(i, i + short.len()) =~= long.take(short.len() as int));
    assert(crate::text::occurs_at(s, short, i));
}

/// A fetch failed exactly when its error output holds `fatal:` or `error:` anywhere;
/// a refused login is reported as such.
pub proof fn law_fetch_fails_on_any_error_line(stderr: Seq<char>)
    ensures
        fetch_outcome(stderr) is Ok <==> !contains(stderr, "fatal:"@) && !contains(
            stderr,
            "error:"@,
        ),
        contains(stderr, "fatal: Authentication failed"@) ==> fetch_outcome(stderr)
            == Err::<(), FetchError>(FetchError::AuthFailed),
        !contains(stderr, "fatal: Authentication failed"@) && (contains(stderr, "fatal:"@)
            || contains(stderr, "error:"@)) ==> fetch_outcome(stderr) == Err::<(), FetchError>(
            FetchError::Failed,
        ),
{
    if contains(stderr, "fatal: Authentication failed"@) {
        reveal_strlit("fatal: Authentication failed");
        reveal_strlit("fatal:");
        assert("fatal: Authentication failed"@.take(6) =~= "fatal:"@);
        lemma_contains_prefix(stderr, "fatal: Authentication failed"@, "fatal:"@);
    }
}

} // verus!
