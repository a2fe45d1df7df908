//! The decisions of a repository update pushed through the proxy.
//!
//! An update arrives as a map of parameters. The proxy then initialises the bare
//! repository, resolves the old commit, rewrites the pushed commit back through the
//! view, optionally merges it with the upstream branch and pushes it upstream. The
//! repository work happens outside; this machine decides, from each outcome, what
//! comes next and with which arguments.
use vstd::prelude::*;
use crate::env::UpdateEnv;
use crate::error::{josh_error, JoshError};
use crate::oid::{converted, git_oid_parse_error, oid_bytes_of_text, valid_oid_text, zero_bytes, Oid};
use crate::refs::{
    baseref_and_options, namespaced, namespaced_ref, push_options, push_ref_with_options,
    review_target, upstream, upstream_push_ref, upstream_ref, wants_merge,
};
use crate::text::{before_first, concat2, concat3, decimal, decimal_text};

verus! {

/// The parameters of an update.
pub struct RepoUpdate {
    pub refname: String,
    pub filter_spec: String,
    pub old: String,
    pub new: String,
    pub username: String,
    pub password: String,
    pub remote_url: String,
    pub base_ns: String,
    pub git_dir: String,
    pub git_ns: String,
}

/// The parameters of an update, as text.
pub struct RepoUpdateModel {
    pub refname: Seq<char>,
    pub filter_spec: Seq<char>,
    pub old: Seq<char>,
    pub new: Seq<char>,
    pub username: Seq<char>,
    pub password: Seq<char>,
    pub remote_url: Seq<char>,
    pub base_ns: Seq<char>,
    pub git_dir: Seq<char>,
    pub git_ns: Seq<char>,
}

impl View for RepoUpdate {
    type V = RepoUpdateModel;

    open spec fn view(&self) -> RepoUpdateModel {
        RepoUpdateModel {
            refname: self.refname@,
            filter_spec: self.filter_spec@,
            old: self.old@,
            new: self.new@,
            username: self.username@,
            password: self.password@,
            remote_url: self.remote_url@,
            base_ns: self.base_ns@,
            git_dir: self.git_dir@,
            git_ns: self.git_ns@,
        }
    }
}

/// The map holds every parameter of an update.
pub open spec fn update_complete(env: Map<Seq<char>, Seq<char>>) -> bool {
    &&& env.contains_key("refname"@)
    &&& env.contains_key("filter_spec"@)
    &&& env.contains_key("old"@)
    &&& env.contains_key("new"@)
    &&& env.contains_key("username"@)
    &&& env.contains_key("password"@)
    &&& env.contains_key("remote_url"@)
    &&& env.contains_key("base_ns"@)
    &&& env.contains_key("GIT_DIR"@)
    &&& env.contains_key("GIT_NAMESPACE"@)
}

/// The parameters read from the map.
pub open spec fn update_from(env: Map<Seq<char>, Seq<char>>) -> RepoUpdateModel {
    RepoUpdateModel {
        refname: env["refname"@],
        filter_spec: env["filter_spec"@],
        old: env["old"@],
        new: env["new"@],
        username: env["username"@],
        password: env["password"@],
        remote_url: env["remote_url"@],
        base_ns: env["base_ns"@],
        git_dir: env["GIT_DIR"@],
        git_ns: env["GIT_NAMESPACE"@],
    }
}

/// The value under `key`, or the error with an empty message.
fn required(env: &UpdateEnv, key: &str) -> (r: Result<String, JoshError>)
    ensures
        r is Ok <==> env@.contains_key(key@),
        r matches Ok(v) ==> v@ == env@[key@],
        r matches Err(e) ==> e@ == Seq::<char>::empty(),
{
    match env.get(key) {
        Some(v) => Ok(v.clone()),
        None => {
            let e = josh_error("");
            proof {
                reveal_strlit("");
            }
            Err(e)
        },
    }
}

impl RepoUpdate {
    /// Reads the parameters of an update; an update that lacks one is refused with
    /// an empty message.
    pub fn from_env(env: &UpdateEnv) -> (r: Result<RepoUpdate, JoshError>)
        ensures
            r is Ok <==> update_complete(env@),
            r matches Ok(u) ==> u@ == update_from(env@),
            r matches Err(e) ==> e@ == Seq::<char>::empty(),
    {
        let refname = required(env, "refname")?;
        let filter_spec = required(env, "filter_spec")?;
        let old = required(env, "old")?;
        let new = required(env, "new")?;
        let username = required(env, "username")?;
        let password = required(env, "password")?;
        let remote_url = required(env, "remote_url")?;
        let base_ns = required(env, "base_ns")?;
        let git_dir = required(env, "GIT_DIR")?;
        let git_ns = required(env, "GIT_NAMESPACE")?;
        Ok(
            RepoUpdate {
                refname,
                filter_spec,
                old,
                new,
                username,
                password,
                remote_url,
                base_ns,
                git_dir,
                git_ns,
            },
        )
    }
}

/// What rewriting the pushed commit back through the view gave.
pub enum UnapplyView {
    /// The rewritten commit.
    Done(Oid),
    /// The branch does not exist upstream.
    BranchDoesNotExist,
    /// The push holds a merge commit with this many parents.
    RejectMerge(usize),
}

/// What rewriting the pushed commit back through the view gave, as values.
pub enum UnapplyModel {
    Done(Seq<u8>),
    BranchDoesNotExist,
    RejectMerge(nat),
}

impl View for UnapplyView {
    type V = UnapplyModel;

    open spec fn view(&self) -> UnapplyModel {
        match self {
            UnapplyView::Done(o) => UnapplyModel::Done(o@),
            UnapplyView::BranchDoesNotExist => UnapplyModel::BranchDoesNotExist,
            UnapplyView::RejectMerge(n) => UnapplyModel::RejectMerge(*n as nat),
        }
    }
}

/// The outcome of the work that an action asked for.
pub enum UpdateEvent {
    /// The bare repository was initialised, or failed to be.
    RepoReady(Result<(), JoshError>),
    /// The namespaced branch resolved to this commit, or did not resolve.
    OldResolved(Option<Oid>),
    /// The pushed commit was rewritten back through the view.
    Unapplied(Result<UnapplyView, JoshError>),
    /// The rewritten commit was found, and the upstream branch resolved to this
    /// commit or to none.
    MergeBase(Result<Option<Oid>, JoshError>),
    /// The merged tree was written.
    MergeTree(Result<Oid, JoshError>),
    /// The merge commit was made.
    MergeCommitted(Result<Oid, JoshError>),
    /// The push ran, with this report.
    Pushed(Result<String, JoshError>),
}

/// An outcome, as values.
pub enum EventModel {
    RepoReady(Result<(), Seq<char>>),
    OldResolved(Option<Seq<u8>>),
    Unapplied(Result<UnapplyModel, Seq<char>>),
    MergeBase(Result<Option<Seq<u8>>, Seq<char>>),
    MergeTree(Result<Seq<u8>, Seq<char>>),
    MergeCommitted(Result<Seq<u8>, Seq<char>>),
    Pushed(Result<Seq<char>, Seq<char>>),
}

impl View for UpdateEvent {
    type V = EventModel;

    open spec fn view(&self) -> EventModel {
        match self {
            UpdateEvent::RepoReady(r) => EventModel::RepoReady(
                match r {
                    Ok(_) => Ok(()),
                    Err(e) => Err(e@),
                },
            ),
            UpdateEvent::OldResolved(o) => EventModel::OldResolved(
                match o {
                    Some(o) => Some(o@),
                    None => None,
                },
            ),
            UpdateEvent::Unapplied(r) => EventModel::Unapplied(
                match r {
                    Ok(u) => Ok(u@),
                    Err(e) => Err(e@),
                },
            ),
            UpdateEvent::MergeBase(r) => EventModel::MergeBase(
                match r {
                    Ok(Some(o)) => Ok(Some(o@)),
                    Ok(None) => Ok(None),
                    Err(e) => Err(e@),
                },
            ),
            UpdateEvent::MergeTree(r) => EventModel::MergeTree(
                match r {
                    Ok(o) => Ok(o@),
                    Err(e) => Err(e@),
                },
            ),
            UpdateEvent::MergeCommitted(r) => EventModel::MergeCommitted(
                match r {
                    Ok(o) => Ok(o@),
                    Err(e) => Err(e@),
                },
            ),
            UpdateEvent::Pushed(r) => EventModel::Pushed(
                match r {
                    Ok(s) => Ok(s@),
                    Err(e) => Err(e@),
                },
            ),
        }
    }
}

/// The work that the update asks for next.
pub enum UpdateAction {
    /// Initialise the bare repository at `git_dir`.
    InitRepo { git_dir: String },
    /// Resolve `rev` to a commit.
    ResolveOld { rev: String },
    /// Rewrite commit `new` back through the view `filter_spec`, from `old`.
    Unapply { filter_spec: String, old: Oid, new: Oid },
    /// Look up the commit `commit` and resolve `rev` to a commit.
    FindMergeBase { rev: String, commit: Oid },
    /// Merge the commits `base` (ours) and `commit` (theirs) and write the merged
    /// tree.
    MergeTrees { base: Oid, commit: Oid },
    /// Make a commit of `tree` with `parents`, in this order, the author and the
    /// committer of `signature_from`, and `message`, without moving any reference.
    CommitMerge { tree: Oid, parents: Vec<Oid>, signature_from: Oid, message: String },
    /// Push `oid` to `refname` at `url` through the temporary reference
    /// `refs/<namespace>`.
    Push {
        oid: Oid,
        refname: String,
        url: String,
        username: String,
        password: String,
        namespace: String,
    },
    /// The update is over, with this result.
    Finish(Result<String, JoshError>),
}

/// An action, as values.
pub enum ActionModel {
    InitRepo { git_dir: Seq<char> },
    ResolveOld { rev: Seq<char> },
    Unapply { filter_spec: Seq<char>, old: Seq<u8>, new: Seq<u8> },
    FindMergeBase { rev: Seq<char>, commit: Seq<u8> },
    MergeTrees { base: Seq<u8>, commit: Seq<u8> },
    CommitMerge {
        tree: Seq<u8>,
        parents: Seq<Seq<u8>>,
        signature_from: Seq<u8>,
        message: Seq<char>,
    },
    Push {
        oid: Seq<u8>,
        refname: Seq<char>,
        url: Seq<char>,
        username: Seq<char>,
        password: Seq<char>,
        namespace: Seq<char>,
    },
    Finish(Result<Seq<char>, Seq<char>>),
}

impl View for UpdateAction {
    type V = ActionModel;

    open spec fn view(&self) -> ActionModel {
        match self {
            UpdateAction::InitRepo { git_dir } => ActionModel::InitRepo { git_dir: git_dir@ },
            UpdateAction::ResolveOld { rev } => ActionModel::ResolveOld { rev: rev@ },
            UpdateAction::Unapply { filter_spec, old, new } => ActionModel::Unapply {
                filter_spec: filter_spec@,
                old: old@,
                new: new@,
            },
            UpdateAction::FindMergeBase { rev, commit } => ActionModel::FindMergeBase {
                rev: rev@,
                commit: commit@,
            },
            UpdateAction::MergeTrees { base, commit } => ActionModel::MergeTrees {
                base: base@,
                commit: commit@,
            },
            UpdateAction::CommitMerge { tree, parents, signature_from, message } =>
                ActionModel::CommitMerge {
                tree: tree@,
                parents: parents@.map_values(|o: Oid| o@),
                signature_from: signature_from@,
                message: message@,
            },
            UpdateAction::Push { oid, refname, url, username, password, namespace } =>
                ActionModel::Push {
                oid: oid@,
                refname: refname@,
                url: url@,
                username: username@,
                password: password@,
                namespace: namespace@,
            },
            UpdateAction::Finish(r) => ActionModel::Finish(
                match r {
                    Ok(s) => Ok(s@),
                    Err(e) => Err(e@),
                },
            ),
        }
    }
}

/// Where an update stands.
pub enum UpdateStage {
    AwaitRepo,
    AwaitOld(Oid),
    AwaitUnapply,
    AwaitMergeBase(Oid),
    AwaitMergeTree(Oid, Oid),
    AwaitMergeCommit,
    AwaitPush,
    Done,
}

/// Where an update stands, as values.
pub enum StageModel {
    AwaitRepo,
    AwaitOld(Seq<u8>),
    AwaitUnapply,
    AwaitMergeBase(Seq<u8>),
    AwaitMergeTree(Seq<u8>, Seq<u8>),
    AwaitMergeCommit,
    AwaitPush,
    Done,
}

impl View for UpdateStage {
    type V = StageModel;

    open spec fn view(&self) -> StageModel {
        match self {
            UpdateStage::AwaitRepo => StageModel::AwaitRepo,
            UpdateStage::AwaitOld(o) => StageModel::AwaitOld(o@),
            UpdateStage::AwaitUnapply => StageModel::AwaitUnapply,
            UpdateStage::AwaitMergeBase(c) => StageModel::AwaitMergeBase(c@),
            UpdateStage::AwaitMergeTree(b, c) => StageModel::AwaitMergeTree(b@, c@),
            UpdateStage::AwaitMergeCommit => StageModel::AwaitMergeCommit,
            UpdateStage::AwaitPush => StageModel::AwaitPush,
            UpdateStage::Done => StageModel::Done,
        }
    }
}

/// An update in progress, as values.
pub struct MachineModel {
    pub update: RepoUpdateModel,
    pub baseref: Seq<char>,
    pub push_to: Seq<char>,
    pub options: Seq<Seq<char>>,
    pub stage: StageModel,
}

impl MachineModel {
    /// The same update at another stage.
    pub open spec fn at(self, stage: StageModel) -> MachineModel {
        MachineModel {
            update: self.update,
            baseref: self.baseref,
            push_to: self.push_to,
            options: self.options,
            stage,
        }
    }
}

/// An update in progress.
pub struct RepoUpdateMachine {
    update: RepoUpdate,
    baseref: String,
    push_to: String,
    options: Vec<String>,
    stage: UpdateStage,
}

impl View for RepoUpdateMachine {
    type V = MachineModel;

    closed spec fn view(&self) -> MachineModel {
        MachineModel {
            update: self.update@,
            baseref: self.baseref@,
            push_to: self.push_to@,
            options: self.options@.map_values(|o: String| o@),
            stage: self.stage@,
        }
    }
}

/// The update as it starts: the pushed reference split, and the repository to be
/// initialised.
pub open spec fn start_model(u: RepoUpdateModel) -> (MachineModel, ActionModel) {
    let push_to = before_first(u.refname, "%"@);
    (
        MachineModel {
            update: u,
            baseref: review_target(push_to),
            push_to,
            options: push_options(u.refname),
            stage: StageModel::AwaitRepo,
        },
        ActionModel::InitRepo { git_dir: u.git_dir },
    )
}

/// The update ends with `r`.
pub open spec fn finish(m: MachineModel, r: Result<Seq<char>, Seq<char>>) -> (
    MachineModel,
    ActionModel,
) {
    (m.at(StageModel::Done), ActionModel::Finish(r))
}

/// The update ends with the error of the commit text `text`, which does not parse:
/// the converted git error.
pub open spec fn failed(m: MachineModel, text: Seq<char>, m2: MachineModel, a: ActionModel) -> bool {
    (m2, a) == finish(m, Err(converted(git_oid_parse_error(text))))
}

/// With the old commit known, the new one is parsed and the view is unapplied.
pub open spec fn continue_with_old(
    m: MachineModel,
    old: Seq<u8>,
    m2: MachineModel,
    a: ActionModel,
) -> bool {
    if valid_oid_text(m.update.new) {
        m2 == m.at(StageModel::AwaitUnapply) && a == ActionModel::Unapply {
            filter_spec: m.update.filter_spec,
            old,
            new: oid_bytes_of_text(m.update.new),
        }
    } else {
        failed(m, m.update.new, m2, a)
    }
}

/// Once the repository is ready: the old commit is parsed; the null commit stands for
/// the namespaced branch, which is resolved first.
pub open spec fn after_repo(m: MachineModel, m2: MachineModel, a: ActionModel) -> bool {
    if !valid_oid_text(m.update.old) {
        failed(m, m.update.old, m2, a)
    } else {
        let old = oid_bytes_of_text(m.update.old);
        if old == zero_bytes() {
            m2 == m.at(StageModel::AwaitOld(old)) && a == ActionModel::ResolveOld {
                rev: namespaced(m.update.git_ns, m.baseref),
            }
        } else {
            continue_with_old(m, old, m2, a)
        }
    }
}

/// The push of `oid` upstream, with the options that are not josh's own.
pub open spec fn push_step(m: MachineModel, oid: Seq<u8>) -> (MachineModel, ActionModel) {
    (
        m.at(StageModel::AwaitPush),
        ActionModel::Push {
            oid,
            refname: upstream_push_ref(m.push_to, m.options),
            url: m.update.remote_url,
            username: m.update.username,
            password: m.update.password,
            namespace: m.update.git_ns,
        },
    )
}

/// With the rewritten commit: merge it with upstream when `josh-merge` was asked
/// for, push it otherwise.
pub open spec fn after_unapply(m: MachineModel, oid: Seq<u8>) -> (MachineModel, ActionModel) {
    if m.options.contains("josh-merge"@) {
        (
            m.at(StageModel::AwaitMergeBase(oid)),
            ActionModel::FindMergeBase { rev: upstream(m.update.base_ns, m.baseref), commit: oid },
        )
    } else {
        push_step(m, oid)
    }
}

/// The message of the merge with upstream.
pub open spec fn merge_message(m: MachineModel) -> Seq<char> {
    "Merge from "@ + m.update.filter_spec
}

/// The message of a refused merge commit.
pub open spec fn reject_merge_message(parents: nat) -> Seq<char> {
    "rejecting merge with "@ + decimal(parents) + " parents"@
}

/// The outcome fits the stage the update is at.
pub open spec fn accepts(m: MachineModel, e: EventModel) -> bool {
    match m.stage {
        StageModel::AwaitRepo => e is RepoReady,
        StageModel::AwaitOld(_) => e is OldResolved,
        StageModel::AwaitUnapply => e is Unapplied,
        StageModel::AwaitMergeBase(_) => e is MergeBase,
        StageModel::AwaitMergeTree(_, _) => e is MergeTree,
        StageModel::AwaitMergeCommit => e is MergeCommitted,
        StageModel::AwaitPush => e is Pushed,
        StageModel::Done => false,
    }
}

/// What follows an outcome: the update `m2` and the action `a`.
pub open spec fn next(m: MachineModel, e: EventModel, m2: MachineModel, a: ActionModel) -> bool {
    match e {
        EventModel::RepoReady(Err(msg)) => (m2, a) == finish(m, Err(msg)),
        EventModel::RepoReady(Ok(_)) => after_repo(m, m2, a),
        EventModel::OldResolved(r) => match m.stage {
            StageModel::AwaitOld(old) => continue_with_old(
                m,
                match r {
                    Some(o) => o,
                    None => old,
                },
                m2,
                a,
            ),
            _ => false,
        },
        EventModel::Unapplied(Err(msg)) => (m2, a) == finish(m, Err(msg)),
        EventModel::Unapplied(Ok(UnapplyModel::Done(oid))) => (m2, a) == after_unapply(m, oid),
        EventModel::Unapplied(Ok(UnapplyModel::BranchDoesNotExist)) => (m2, a) == finish(
            m,
            Err("branch does not exist on remote"@),
        ),
        EventModel::Unapplied(Ok(UnapplyModel::RejectMerge(n))) => (m2, a) == finish(
            m,
            Err(reject_merge_message(n)),
        ),
        EventModel::MergeBase(Err(msg)) => (m2, a) == finish(m, Err(msg)),
        EventModel::MergeBase(Ok(None)) => (m2, a) == finish(m, Err("josh_merge failed"@)),
        EventModel::MergeBase(Ok(Some(base))) => match m.stage {
            StageModel::AwaitMergeBase(commit) => (m2, a) == (
                m.at(StageModel::AwaitMergeTree(base, commit)),
                ActionModel::MergeTrees { base, commit },
            ),
            _ => false,
        },
        EventModel::MergeTree(Err(msg)) => (m2, a) == finish(m, Err(msg)),
        EventModel::MergeTree(Ok(tree)) => match m.stage {
            StageModel::AwaitMergeTree(base, commit) => (m2, a) == (
                m.at(StageModel::AwaitMergeCommit),
                ActionModel::CommitMerge {
                    tree,
                    parents: seq![base, commit],
                    signature_from: commit,
                    message: merge_message(m),
                },
            ),
            _ => false,
        },
        EventModel::MergeCommitted(Err(msg)) => (m2, a) == finish(m, Err(msg)),
        EventModel::MergeCommitted(Ok(oid)) => (m2, a) == push_step(m, oid),
        EventModel::Pushed(r) => (m2, a) == finish(m, r),
    }
}

impl RepoUpdateMachine {
    /// Starts an update from its parameters: an update that lacks one is refused with
    /// an empty message.
    pub fn start(env: &UpdateEnv) -> (r: Result<(RepoUpdateMachine, UpdateAction), JoshError>)
        ensures
            r is Ok <==> update_complete(env@),
            r matches Ok((m, a)) ==> (m@, a@) == start_model(update_from(env@)),
            r matches Err(e) ==> e@ == Seq::<char>::empty(),
    {
        let update = RepoUpdate::from_env(env)?;
        let (baseref, push_to, options) = match baseref_and_options(update.refname.as_str()) {
            Ok(parts) => parts,
            Err(e) => return Err(e),
        };
        let action = UpdateAction::InitRepo { git_dir: update.git_dir.clone() };
        let m = RepoUpdateMachine { update, baseref, push_to, options, stage: UpdateStage::AwaitRepo };
        Ok((m, action))
    }

    /// The update is over.
    pub fn is_done(&self) -> (r: bool)
        ensures
            r == (self@.stage is Done),
    {
        match self.stage {
            UpdateStage::Done => true,
            _ => false,
        }
    }

    fn at(self, stage: UpdateStage) -> (r: RepoUpdateMachine)
        ensures
            r@ == self@.at(stage@),
    {
        RepoUpdateMachine {
            update: self.update,
            baseref: self.baseref,
            push_to: self.push_to,
            options: self.options,
            stage,
        }
    }

    fn finish(self, r: Result<String, JoshError>) -> (out: (RepoUpdateMachine, UpdateAction))
        ensures
            (out.0@, out.1@) == finish(
                self@,
                match r {
                    Ok(s) => Ok(s@),
                    Err(e) => Err(e@),
                },
            ),
    {
        (self.at(UpdateStage::Done), UpdateAction::Finish(r))
    }

    fn with_old(self, old: Oid) -> (out: (RepoUpdateMachine, UpdateAction))
        ensures
            continue_with_old(self@, old@, out.0@, out.1@),
    {
        match Oid::parse(self.update.new.as_str()) {
            Ok(new) => {
                let filter_spec = self.update.filter_spec.clone();
                (self.at(UpdateStage::AwaitUnapply), UpdateAction::Unapply { filter_spec, old, new })
            },
            Err(e) => self.finish(Err(e)),
        }
    }

    fn repo_ready(self) -> (out: (RepoUpdateMachine, UpdateAction))
        ensures
            after_repo(self@, out.0@, out.1@),
    {
        match Oid::parse(self.update.old.as_str()) {
            Ok(old) => {
                if old.is_zero() {
                    let rev = namespaced_ref(self.update.git_ns.as_str(), self.baseref.as_str());
                    (self.at(UpdateStage::AwaitOld(old)), UpdateAction::ResolveOld { rev })
                } else {
                    self.with_old(old)
                }
            },
            Err(e) => self.finish(Err(e)),
        }
    }

    fn push(self, oid: Oid) -> (out: (RepoUpdateMachine, UpdateAction))
        ensures
            (out.0@, out.1@) == push_step(self@, oid@),
    {
        let refname = push_ref_with_options(self.push_to.as_str(), &self.options);
        let url = self.update.remote_url.clone();
        let username = self.update.username.clone();
        let password = self.update.password.clone();
        let namespace = self.update.git_ns.clone();
        (
            self.at(UpdateStage::AwaitPush),
            UpdateAction::Push { oid, refname, url, username, password, namespace },
        )
    }

    fn unapplied(self, oid: Oid) -> (out: (RepoUpdateMachine, UpdateAction))
        ensures
            (out.0@, out.1@) == after_unapply(self@, oid@),
    {
        if wants_merge(&self.options) {
            let rev = upstream_ref(self.update.base_ns.as_str(), self.baseref.as_str());
            let kept = oid.duplicate();
            (
                self.at(UpdateStage::AwaitMergeBase(kept)),
                UpdateAction::FindMergeBase { rev, commit: oid },
            )
        } else {
            self.push(oid)
        }
    }

    /// Takes the outcome of the last action and decides what comes next.
    pub fn step(self, event: UpdateEvent) -> (out: (RepoUpdateMachine, UpdateAction))
        requires
            accepts(self@, event@),
        ensures
            next(self@, event@, out.0@, out.1@),
    {
        match event {
            UpdateEvent::RepoReady(Err(e)) => self.finish(Err(e)),
            UpdateEvent::RepoReady(Ok(())) => self.repo_ready(),
            UpdateEvent::OldResolved(resolved) => {
                let fallback = match self.stage {
                    UpdateStage::AwaitOld(ref o) => o.duplicate(),
                    _ => Oid::zero(),
                };
                let old = match resolved {
                    Some(o) => o,
                    None => fallback,
                };
                self.with_old(old)
            },
            UpdateEvent::Unapplied(Err(e)) => self.finish(Err(e)),
            UpdateEvent::Unapplied(Ok(UnapplyView::Done(oid))) => self.unapplied(oid),
            UpdateEvent::Unapplied(Ok(UnapplyView::BranchDoesNotExist)) => {
                let e = josh_error("branch does not exist on remote");
                self.finish(Err(e))
            },
            UpdateEvent::Unapplied(Ok(UnapplyView::RejectMerge(n))) => {
                let count = decimal_text(n);
                let m = concat3("rejecting merge with ", count.as_str(), " parents");
                self.finish(Err(JoshError(m)))
            },
            UpdateEvent::MergeBase(Err(e)) => self.finish(Err(e)),
            UpdateEvent::MergeBase(Ok(None)) => {
                let e = josh_error("josh_merge failed");
                self.finish(Err(e))
            },
            UpdateEvent::MergeBase(Ok(Some(base))) => {
                let commit = match self.stage {
                    UpdateStage::AwaitMergeBase(ref c) => c.duplicate(),
                    _ => Oid::zero(),
                };
                let kept_base = base.duplicate();
                let kept_commit = commit.duplicate();
                (
                    self.at(UpdateStage::AwaitMergeTree(kept_base, kept_commit)),
                    UpdateAction::MergeTrees { base, commit },
                )
            },
            UpdateEvent::MergeTree(Err(e)) => self.finish(Err(e)),
            UpdateEvent::MergeTree(Ok(tree)) => {
                let (base, commit) = match self.stage {
                    UpdateStage::AwaitMergeTree(ref b, ref c) => (b.duplicate(), c.duplicate()),
                    _ => (Oid::zero(), Oid::zero()),
                };
                let signature_from = commit.duplicate();
                let message = concat2("Merge from ", self.update.filter_spec.as_str());
                let mut parents: Vec<Oid> = Vec::new();
                let ghost views = seq![base@, commit@];
                parents.push(base);
                parents.push(commit);
                assert(parents@.map_values(|o: Oid| o@) =~= views);
                (
                    self.at(UpdateStage::AwaitMergeCommit),
                    UpdateAction::CommitMerge { tree, parents, signature_from, message },
                )
            },
            UpdateEvent::MergeCommitted(Err(e)) => self.finish(Err(e)),
            UpdateEvent::MergeCommitted(Ok(oid)) => self.push(oid),
            UpdateEvent::Pushed(r) => self.finish(r),
        }
    }
}

/// How far an update has come.
pub open spec fn stage_rank(s: StageModel) -> int {
    match s {
        StageModel::AwaitRepo => 0,
        StageModel::AwaitOld(_) => 1,
        StageModel::AwaitUnapply => 2,
        StageModel::AwaitMergeBase(_) => 3,
        StageModel::AwaitMergeTree(_, _) => 4,
        StageModel::AwaitMergeCommit => 5,
        StageModel::AwaitPush => 6,
        StageModel::Done => 7,
    }
}

/// Every outcome moves an update strictly forward without touching its parameters,
/// so an update is over after at most seven outcomes; it is over exactly when it
/// answers with `Finish`.
pub proof fn law_update_progress(m: MachineModel, e: EventModel, m2: MachineModel, a: ActionModel)
    requires
        accepts(m, e),
        next(m, e, m2, a),
    ensures
        stage_rank(m2.stage) > stage_rank(m.stage),
        (m2.stage is Done) <==> (a is Finish),
        m2.update == m.update,
        m2.options == m.options,
{
}

/// The commit that the view gave back is the one merged or pushed; a push goes to the
/// pushed name with the options that are not josh's own, at the update's remote.
pub proof fn law_update_pushes_rewritten_commit(
    m: MachineModel,
    oid: Seq<u8>,
    m2: MachineModel,
    a: ActionModel,
)
    requires
        accepts(m, EventModel::Unapplied(Ok(UnapplyModel::Done(oid)))),
        next(m, EventModel::Unapplied(Ok(UnapplyModel::Done(oid))), m2, a),
    ensures
        m.options.contains("josh-merge"@) ==> a == (ActionModel::FindMergeBase {
            rev: upstream(m.update.base_ns, m.baseref),
            commit: oid,
        }),
        !m.options.contains("josh-merge"@) ==> a == (ActionModel::Push {
            oid,
            refname: upstream_push_ref(m.push_to, m.options),
            url: m.update.remote_url,
            username: m.update.username,
            password: m.update.password,
            namespace: m.update.git_ns,
        }),
{
}

/// The same parameters with another password.
pub open spec fn with_password(u: RepoUpdateModel, p: Seq<char>) -> RepoUpdateModel {
    RepoUpdateModel { password: p, ..u }
}

/// The same update with another password.
pub open spec fn machine_with_password(m: MachineModel, p: Seq<char>) -> MachineModel {
    MachineModel { update: with_password(m.update, p), ..m }
}

/// The same action with another password: only a push carries one.
pub open spec fn action_with_password(a: ActionModel, p: Seq<char>) -> ActionModel {
    match a {
        ActionModel::Push { oid, refname, url, username, password, namespace } => ActionModel::Push {
            oid,
            refname,
            url,
            username,
            password: p,
            namespace,
        },
        _ => a,
    }
}

/// Two updates that differ only in their password ask for the same work with the
/// same arguments, and end the same way: the password only ever reaches the `password`
/// field of a push, never a reference, a message, a command argument or a result.
pub proof fn law_password_only_reaches_push(
    u: RepoUpdateModel,
    p: Seq<char>,
    m: MachineModel,
    e: EventModel,
    m2: MachineModel,
    a: ActionModel,
    m3: MachineModel,
    a3: ActionModel,
)
    requires
        accepts(m, e),
        next(m, e, m2, a),
        next(machine_with_password(m, p), e, m3, a3),
    ensures
        start_model(with_password(u, p)) == (
            machine_with_password(start_model(u).0, p),
            start_model(u).1,
        ),
        m3 == machine_with_password(m2, p),
        a3 == action_with_password(a, p),
{
    let mp = machine_with_password(m, p);
    assert(mp.at(StageModel::Done) == machine_with_password(m.at(StageModel::Done), p));
    assert(mp.at(StageModel::AwaitUnapply) == machine_with_password(m.at(StageModel::AwaitUnapply), p));
    assert(mp.at(StageModel::AwaitMergeCommit) == machine_with_password(m.at(StageModel::AwaitMergeCommit), p));
    assert(merge_message(mp) == merge_message(m));
    match m.stage {
        StageModel::AwaitMergeBase(c) => {
            assert(mp.at(StageModel::AwaitMergeBase(c)) == machine_with_password(m.at(StageModel::AwaitMergeBase(c)), p));
            match e {
                EventModel::MergeBase(Ok(Some(b))) => {
                    assert(mp.at(StageModel::AwaitMergeTree(b, c)) == machine_with_password(m.at(StageModel::AwaitMergeTree(b, c)), p));
                },
                _ => {},
            }
        },
        _ => {},
    }
    assert(mp.at(StageModel::AwaitPush) == machine_with_password(m.at(StageModel::AwaitPush), p));
    match m.stage {
        StageModel::AwaitOld(old) => {
            assert(mp.at(StageModel::AwaitOld(old)) == machine_with_password(m.at(StageModel::AwaitOld(old)), p));
        },
        _ => {},
    }
    if valid_oid_text(m.update.old) {
        let old = oid_bytes_of_text(m.update.old);
        assert(mp.at(StageModel::AwaitOld(old)) == machine_with_password(m.at(StageModel::AwaitOld(old)), p));
    }
}

/// With `josh-merge`, the rewritten commit `c` is merged into the commit `base` that
/// the upstream branch names: the merged tree is committed with the parents `base`
/// then `c`, the author and committer of `c` and the message `Merge from <filter>`,
/// and that merge commit is what is pushed.
pub proof fn law_merge_commit_shape(
    m0: MachineModel,
    c: Seq<u8>,
    base: Seq<u8>,
    tree: Seq<u8>,
    merged: Seq<u8>,
    m1: MachineModel,
    a1: ActionModel,
    m2: MachineModel,
    a2: ActionModel,
    m3: MachineModel,
    a3: ActionModel,
    m4: MachineModel,
    a4: ActionModel,
)
    requires
        m0.stage == StageModel::AwaitUnapply,
        m0.options.contains("josh-merge"@),
        next(m0, EventModel::Unapplied(Ok(UnapplyModel::Done(c))), m1, a1),
        next(m1, EventModel::MergeBase(Ok(Some(base))), m2, a2),
        next(m2, EventModel::MergeTree(Ok(tree)), m3, a3),
        next(m3, EventModel::MergeCommitted(Ok(merged)), m4, a4),
    ensures
        a1 == (ActionModel::FindMergeBase { rev: upstream(m0.update.base_ns, m0.baseref), commit: c }),
        a2 == (ActionModel::MergeTrees { base, commit: c }),
        a3 == (ActionModel::CommitMerge {
            tree,
            parents: seq![base, c],
            signature_from: c,
            message: "Merge from "@ + m0.update.filter_spec,
        }),
        a4 == (ActionModel::Push {
            oid: merged,
            refname: upstream_push_ref(m0.push_to, m0.options),
            url: m0.update.remote_url,
            username: m0.update.username,
            password: m0.update.password,
            namespace: m0.update.git_ns,
        }),
{
}

} // verus!
