//! The central-git hooks: module branches kept in step with a central repository.
//!
//! Each module of the central repository has a branch of its own,
//! `refs/centralgit/<module>/##master##`. A review upload to a module is replayed onto
//! the central branch; a submit to the central repository is split into commits on the
//! module branches, which are then pushed. The git work happens outside; the machines
//! here decide what comes next.
use vstd::prelude::*;
use crate::oid::{zero_bytes, Oid};
use crate::text::concat3;

verus! {

/// `refs/centralgit/<module>/##master##`.
pub open spec fn module_branch(module: Seq<char>) -> Seq<char> {
    "refs/centralgit/"@ + module + "/##master##"@
}

/// The branch that holds a module's history.
pub fn module_ref(module: &str) -> (r: String)
    ensures
        r@ == module_branch(module@),
{
    concat3("refs/centralgit/", module, "/##master##")
}

/// The central-git hooks.
pub struct CentralGit;

/// How a review upload ended.
pub enum ReviewUploadResult {
    /// The module's commits were replayed onto the central branch, ending at this
    /// commit; the flag tells that the module had no tracking branch before.
    Uploaded(Oid, bool),
    /// The upload does not fast-forward the module's tracking branch.
    RejectNoFF,
    /// The upload holds a merge commit.
    RejectMerge,
    /// The upload is the tracking branch itself.
    NoChanges,
    /// The upload went to the central repository itself.
    Central,
}

/// How a review upload ended, as values.
pub enum ReviewResultModel {
    Uploaded(Seq<u8>, bool),
    RejectNoFF,
    RejectMerge,
    NoChanges,
    Central,
}

impl View for ReviewUploadResult {
    type V = ReviewResultModel;

    open spec fn view(&self) -> ReviewResultModel {
        match self {
            ReviewUploadResult::Uploaded(o, initial) => ReviewResultModel::Uploaded(o@, *initial),
            ReviewUploadResult::RejectNoFF => ReviewResultModel::RejectNoFF,
            ReviewUploadResult::RejectMerge => ReviewResultModel::RejectMerge,
            ReviewUploadResult::NoChanges => ReviewResultModel::NoChanges,
            ReviewUploadResult::Central => ReviewResultModel::Central,
        }
    }
}

/// A commit met on the walk, with its number of parents.
pub struct CommitInfo {
    pub oid: Oid,
    pub parents: usize,
}

/// The outcome of the work a review action asked for.
pub enum ReviewEvent {
    /// The module's tracking branch points at this commit, or does not exist.
    Tracking(Option<Oid>),
    /// Whether the upload descends from the tracking branch (an error counts as no).
    Descendant(bool),
    /// The walk over the uploaded commits is ready.
    WalkReady,
    /// The central tracking branch points at this commit.
    CentralTip(Oid),
    /// The next commit of the walk, or the end of it.
    Next(Option<CommitInfo>),
    /// The commit was replayed onto the central branch as this commit.
    Rewritten(Oid),
}

/// A commit met on the walk, as values.
pub struct CommitModel {
    pub oid: Seq<u8>,
    pub parents: nat,
}

/// A review outcome, as values.
pub enum ReviewEventModel {
    Tracking(Option<Seq<u8>>),
    Descendant(bool),
    WalkReady,
    CentralTip(Seq<u8>),
    Next(Option<CommitModel>),
    Rewritten(Seq<u8>),
}

impl View for ReviewEvent {
    type V = ReviewEventModel;

    open spec fn view(&self) -> ReviewEventModel {
        match self {
            ReviewEvent::Tracking(t) => ReviewEventModel::Tracking(
                match t {
                    Some(o) => Some(o@),
                    None => None,
                },
            ),
            ReviewEvent::Descendant(b) => ReviewEventModel::Descendant(*b),
            ReviewEvent::WalkReady => ReviewEventModel::WalkReady,
            ReviewEvent::CentralTip(o) => ReviewEventModel::CentralTip(o@),
            ReviewEvent::Next(n) => ReviewEventModel::Next(
                match n {
                    Some(c) => Some(CommitModel { oid: c.oid@, parents: c.parents as nat }),
                    None => None,
                },
            ),
            ReviewEvent::Rewritten(o) => ReviewEventModel::Rewritten(o@),
        }
    }
}

/// The work a review upload asks for next.
pub enum ReviewAction {
    /// Look up the tracking branch of `module`.
    LookupTracking { module: String },
    /// Tell whether `new` descends from `old`.
    CheckDescendant { new: Oid, old: Oid },
    /// Walk the commits up to `tip`, oldest first in topological order, leaving out
    /// those reachable from `hide`.
    PrepareWalk { hide: Option<Oid>, tip: Oid },
    /// Look up the central tracking branch.
    LookupCentral { central: String },
    /// Hand out the next commit of the walk.
    NextCommit,
    /// Replay `commit` of `module` onto `onto`, the central branch so far.
    Rewrite { commit: Oid, onto: Oid, module: String },
    /// The upload is over.
    Finish(ReviewUploadResult),
}

/// A review action, as values.
pub enum ReviewActionModel {
    LookupTracking { module: Seq<char> },
    CheckDescendant { new: Seq<u8>, old: Seq<u8> },
    PrepareWalk { hide: Option<Seq<u8>>, tip: Seq<u8> },
    LookupCentral { central: Seq<char> },
    NextCommit,
    Rewrite { commit: Seq<u8>, onto: Seq<u8>, module: Seq<char> },
    Finish(ReviewResultModel),
}

impl View for ReviewAction {
    type V = ReviewActionModel;

    open spec fn view(&self) -> ReviewActionModel {
        match self {
            ReviewAction::LookupTracking { module } => ReviewActionModel::LookupTracking {
                module: module@,
            },
            ReviewAction::CheckDescendant { new, old } => ReviewActionModel::CheckDescendant {
                new: new@,
                old: old@,
            },
            ReviewAction::PrepareWalk { hide, tip } => ReviewActionModel::PrepareWalk {
                hide: match hide {
                    Some(o) => Some(o@),
                    None => None,
                },
                tip: tip@,
            },
            ReviewAction::LookupCentral { central } => ReviewActionModel::LookupCentral {
                central: central@,
            },
            ReviewAction::NextCommit => ReviewActionModel::NextCommit,
            ReviewAction::Rewrite { commit, onto, module } => ReviewActionModel::Rewrite {
                commit: commit@,
                onto: onto@,
                module: module@,
            },
            ReviewAction::Finish(r) => ReviewActionModel::Finish(r@),
        }
    }
}

/// Where a review upload stands.
pub enum ReviewStage {
    AwaitTracking,
    AwaitDescendant(Oid),
    AwaitWalk,
    AwaitCentral,
    AwaitCommit,
    AwaitRewrite,
    Done,
}

/// Where a review upload stands, as values.
pub enum ReviewStageModel {
    AwaitTracking,
    AwaitDescendant(Seq<u8>),
    AwaitWalk,
    AwaitCentral,
    AwaitCommit,
    AwaitRewrite,
    Done,
}

impl View for ReviewStage {
    type V = ReviewStageModel;

    open spec fn view(&self) -> ReviewStageModel {
        match self {
            ReviewStage::AwaitTracking => ReviewStageModel::AwaitTracking,
            ReviewStage::AwaitDescendant(o) => ReviewStageModel::AwaitDescendant(o@),
            ReviewStage::AwaitWalk => ReviewStageModel::AwaitWalk,
            ReviewStage::AwaitCentral => ReviewStageModel::AwaitCentral,
            ReviewStage::AwaitCommit => ReviewStageModel::AwaitCommit,
            ReviewStage::AwaitRewrite => ReviewStageModel::AwaitRewrite,
            ReviewStage::Done => ReviewStageModel::Done,
        }
    }
}

/// A review upload in progress, as values.
pub struct ReviewModel {
    pub module: Seq<char>,
    pub central: Seq<char>,
    pub new: Seq<u8>,
    pub initial: bool,
    pub current: Seq<u8>,
    pub stage: ReviewStageModel,
}

impl ReviewModel {
    /// The same upload at another stage.
    pub open spec fn at(self, stage: ReviewStageModel) -> ReviewModel {
        ReviewModel { stage, ..self }
    }
}

/// A review upload in progress.
pub struct ReviewUpload {
    module: String,
    central: String,
    new: Oid,
    initial: bool,
    current: Oid,
    stage: ReviewStage,
}

impl View for ReviewUpload {
    type V = ReviewModel;

    closed spec fn view(&self) -> ReviewModel {
        ReviewModel {
            module: self.module@,
            central: self.central@,
            new: self.new@,
            initial: self.initial,
            current: self.current@,
            stage: self.stage@,
        }
    }
}

/// The outcome fits the stage the upload is at.
pub open spec fn review_accepts(m: ReviewModel, e: ReviewEventModel) -> bool {
    match m.stage {
        ReviewStageModel::AwaitTracking => e is Tracking,
        ReviewStageModel::AwaitDescendant(_) => e is Descendant,
        ReviewStageModel::AwaitWalk => e is WalkReady,
        ReviewStageModel::AwaitCentral => e is CentralTip,
        ReviewStageModel::AwaitCommit => e is Next,
        ReviewStageModel::AwaitRewrite => e is Rewritten,
        ReviewStageModel::Done => false,
    }
}

/// The result at the end of the walk.
pub open spec fn walk_result(m: ReviewModel) -> ReviewResultModel {
    if m.module != m.central {
        ReviewResultModel::Uploaded(m.current, m.initial)
    } else {
        ReviewResultModel::Central
    }
}

/// What follows an outcome of a review upload: the upload `m2` and the action `a`.
pub open spec fn review_next(
    m: ReviewModel,
    e: ReviewEventModel,
) -> (ReviewModel, ReviewActionModel) {
    match e {
        ReviewEventModel::Tracking(Some(old)) => if old == m.new {
            (
                m.at(ReviewStageModel::Done),
                ReviewActionModel::Finish(ReviewResultModel::NoChanges),
            )
        } else {
            (
                m.at(ReviewStageModel::AwaitDescendant(old)),
                ReviewActionModel::CheckDescendant { new: m.new, old },
            )
        },
        ReviewEventModel::Tracking(None) => (
            ReviewModel { initial: true, ..m.at(ReviewStageModel::AwaitWalk) },
            ReviewActionModel::PrepareWalk { hide: None, tip: m.new },
        ),
        ReviewEventModel::Descendant(d) => match m.stage {
            ReviewStageModel::AwaitDescendant(old) => if d {
                (
                    ReviewModel { initial: false, ..m.at(ReviewStageModel::AwaitWalk) },
                    ReviewActionModel::PrepareWalk { hide: Some(old), tip: m.new },
                )
            } else {
                (
                    m.at(ReviewStageModel::Done),
                    ReviewActionModel::Finish(ReviewResultModel::RejectNoFF),
                )
            },
            _ => (m, ReviewActionModel::NextCommit),
        },
        ReviewEventModel::WalkReady => (
            m.at(ReviewStageModel::AwaitCentral),
            ReviewActionModel::LookupCentral { central: m.central },
        ),
        ReviewEventModel::CentralTip(tip) => (
            ReviewModel { current: tip, ..m.at(ReviewStageModel::AwaitCommit) },
            ReviewActionModel::NextCommit,
        ),
        ReviewEventModel::Next(None) => (
            m.at(ReviewStageModel::Done),
            ReviewActionModel::Finish(walk_result(m)),
        ),
        ReviewEventModel::Next(Some(c)) => if c.parents > 1 {
            (
                m.at(ReviewStageModel::Done),
                ReviewActionModel::Finish(ReviewResultModel::RejectMerge),
            )
        } else if m.module != m.central {
            (
                m.at(ReviewStageModel::AwaitRewrite),
                ReviewActionModel::Rewrite { commit: c.oid, onto: m.current, module: m.module },
            )
        } else {
            (m.at(ReviewStageModel::AwaitCommit), ReviewActionModel::NextCommit)
        },
        ReviewEventModel::Rewritten(c) => (
            ReviewModel { current: c, ..m.at(ReviewStageModel::AwaitCommit) },
            ReviewActionModel::NextCommit,
        ),
    }
}

impl ReviewUpload {
    /// Starts the upload of `new` to `module`, where `central` names the central
    /// repository: the module's tracking branch is looked up first.
    pub fn start(module: &str, central: &str, new: Oid) -> (r: (ReviewUpload, ReviewAction))
        ensures
            r.0@.module == module@,
            r.0@.central == central@,
            r.0@.new == new@,
            r.0@.stage == ReviewStageModel::AwaitTracking,
            r.1@ == (ReviewActionModel::LookupTracking { module: module@ }),
    {
        let current = new.duplicate();
        (
            ReviewUpload {
                module: String::from_str(module),
                central: String::from_str(central),
                new,
                initial: false,
                current,
                stage: ReviewStage::AwaitTracking,
            },
            ReviewAction::LookupTracking { module: String::from_str(module) },
        )
    }

    /// The upload is over.
    pub fn is_done(&self) -> (r: bool)
        ensures
            r == (self@.stage is Done),
    {
        match self.stage {
            ReviewStage::Done => true,
            _ => false,
        }
    }

    fn finish(self, r: ReviewUploadResult) -> (out: (ReviewUpload, ReviewAction))
        ensures
            out.0@ == self@.at(ReviewStageModel::Done),
            out.1@ == ReviewActionModel::Finish(r@),
    {
        (
            ReviewUpload {
                module: self.module,
                central: self.central,
                new: self.new,
                initial: self.initial,
                current: self.current,
                stage: ReviewStage::Done,
            },
            ReviewAction::Finish(r),
        )
    }

    fn next_commit(self, current: Oid) -> (out: (ReviewUpload, ReviewAction))
        ensures
            out.0@ == (ReviewModel { current: current@, ..self@.at(ReviewStageModel::AwaitCommit) }),
            out.1@ == ReviewActionModel::NextCommit,
    {
        (
            ReviewUpload {
                module: self.module,
                central: self.central,
                new: self.new,
                initial: self.initial,
                current,
                stage: ReviewStage::AwaitCommit,
            },
            ReviewAction::NextCommit,
        )
    }

    fn prepare_walk(self, hide: Option<Oid>, initial: bool) -> (out: (ReviewUpload, ReviewAction))
        ensures
            out.0@ == (ReviewModel { initial, ..self@.at(ReviewStageModel::AwaitWalk) }),
            out.1@ == (ReviewActionModel::PrepareWalk {
                hide: match hide {
                    Some(o) => Some(o@),
                    None => None,
                },
                tip: self@.new,
            }),
    {
        let tip = self.new.duplicate();
        (
            ReviewUpload {
                module: self.module,
                central: self.central,
                new: self.new,
                initial,
                current: self.current,
                stage: ReviewStage::AwaitWalk,
            },
            ReviewAction::PrepareWalk { hide, tip },
        )
    }

    /// Takes the outcome of the last action and decides what comes next.
    pub fn step(self, event: ReviewEvent) -> (out: (ReviewUpload, ReviewAction))
        requires
            review_accepts(self@, event@),
        ensures
            (out.0@, out.1@) == review_next(self@, event@),
    {
        match event {
            ReviewEvent::Tracking(Some(old)) => {
                if old.same_as(&self.new) {
                    self.finish(ReviewUploadResult::NoChanges)
                } else {
                    let new = self.new.duplicate();
                    let kept = old.duplicate();
                    (
                        ReviewUpload {
                            module: self.module,
                            central: self.central,
                            new: self.new,
                            initial: self.initial,
                            current: self.current,
                            stage: ReviewStage::AwaitDescendant(kept),
                        },
                        ReviewAction::CheckDescendant { new, old },
                    )
                }
            },
            ReviewEvent::Tracking(None) => self.prepare_walk(None, true),
            ReviewEvent::Descendant(d) => {
                let old = match self.stage {
                    ReviewStage::AwaitDescendant(ref o) => o.duplicate(),
                    _ => Oid::zero(),
                };
                if d {
                    self.prepare_walk(Some(old), false)
                } else {
                    self.finish(ReviewUploadResult::RejectNoFF)
                }
            },
            ReviewEvent::WalkReady => {
                let central = self.central.clone();
                (
                    ReviewUpload {
                        module: self.module,
                        central: self.central,
                        new: self.new,
                        initial: self.initial,
                        current: self.current,
                        stage: ReviewStage::AwaitCentral,
                    },
                    ReviewAction::LookupCentral { central },
                )
            },
            ReviewEvent::CentralTip(tip) => self.next_commit(tip),
            ReviewEvent::Next(None) => {
                let result = if self.module != self.central {
                    ReviewUploadResult::Uploaded(self.current.duplicate(), self.initial)
                } else {
                    ReviewUploadResult::Central
                };
                self.finish(result)
            },
            ReviewEvent::Next(Some(c)) => {
                if c.parents > 1 {
                    self.finish(ReviewUploadResult::RejectMerge)
                } else if self.module != self.central {
                    let onto = self.current.duplicate();
                    let module = self.module.clone();
                    (
                        ReviewUpload {
                            module: self.module,
                            central: self.central,
                            new: self.new,
                            initial: self.initial,
                            current: self.current,
                            stage: ReviewStage::AwaitRewrite,
                        },
                        ReviewAction::Rewrite { commit: c.oid, onto, module },
                    )
                } else {
                    let current = self.current.duplicate();
                    self.next_commit(current)
                }
            },
            ReviewEvent::Rewritten(c) => self.next_commit(c),
        }
    }
}

/// A module's tree changed: the central tree has a tree at the module's path that
/// differs from the module branch's tree (a missing tree counts as the null id).
pub open spec fn tree_changed(old_tree: Option<Seq<u8>>, new_tree: Option<Seq<u8>>) -> bool {
    let old = match old_tree {
        Some(t) => t,
        None => zero_bytes(),
    };
    let new = match new_tree {
        Some(t) => t,
        None => zero_bytes(),
    };
    new != old && new != zero_bytes()
}

/// Whether a module branch needs a new commit for the central tree.
pub fn module_tree_changed(old_tree: &Option<Oid>, new_tree: &Option<Oid>) -> (r: bool)
    ensures
        r == tree_changed(
            match old_tree {
                Some(t) => Some(t@),
                None => None,
            },
            match new_tree {
                Some(t) => Some(t@),
                None => None,
            },
        ),
{
    let old = match old_tree {
        Some(t) => t.duplicate(),
        None => Oid::zero(),
    };
    let new = match new_tree {
        Some(t) => t.duplicate(),
        None => Oid::zero(),
    };
    !new.same_as(&old) && !new.is_zero()
}

/// The outcome of the work a submit action asked for.
pub enum SubmitEvent {
    /// Whether the module has a tracking branch.
    TrackingFound(bool),
    /// The module branch points at this commit, or does not exist.
    ModuleRefFound(Option<Oid>),
    /// Splitting the module's subdirectory out of the submitted commit gave this
    /// commit, or nothing.
    Split(Option<Oid>),
    /// The reference was set.
    RefSet,
    /// The module branch resolved to this commit, or did not resolve.
    ModuleResolved(Option<Oid>),
    /// The tree of the module branch's commit and the tree at the module's path in
    /// the submitted commit, where they exist.
    Trees { old: Option<Oid>, new: Option<Oid> },
    /// The submitted commit was rewritten onto the module branch as this commit.
    Rewritten(Oid),
    /// The module branch was pushed.
    Pushed,
}

/// A submit outcome, as values.
pub enum SubmitEventModel {
    TrackingFound(bool),
    ModuleRefFound(Option<Seq<u8>>),
    Split(Option<Seq<u8>>),
    RefSet,
    ModuleResolved(Option<Seq<u8>>),
    Trees { old: Option<Seq<u8>>, new: Option<Seq<u8>> },
    Rewritten(Seq<u8>),
    Pushed,
}

/// An optional id, as bytes.
pub open spec fn opt_view(o: Option<Oid>) -> Option<Seq<u8>> {
    match o {
        Some(x) => Some(x@),
        None => None,
    }
}

impl View for SubmitEvent {
    type V = SubmitEventModel;

    open spec fn view(&self) -> SubmitEventModel {
        match self {
            SubmitEvent::TrackingFound(b) => SubmitEventModel::TrackingFound(*b),
            SubmitEvent::ModuleRefFound(o) => SubmitEventModel::ModuleRefFound(opt_view(*o)),
            SubmitEvent::Split(o) => SubmitEventModel::Split(opt_view(*o)),
            SubmitEvent::RefSet => SubmitEventModel::RefSet,
            SubmitEvent::ModuleResolved(o) => SubmitEventModel::ModuleResolved(opt_view(*o)),
            SubmitEvent::Trees { old, new } => SubmitEventModel::Trees {
                old: opt_view(*old),
                new: opt_view(*new),
            },
            SubmitEvent::Rewritten(o) => SubmitEventModel::Rewritten(o@),
            SubmitEvent::Pushed => SubmitEventModel::Pushed,
        }
    }
}

/// The work a submit asks for next.
pub enum SubmitAction {
    /// Tell whether `module` has a tracking branch.
    LookupTracking { module: String },
    /// Look up the commit `reference` points at.
    LookupRef { reference: String },
    /// Split the subdirectory `module` out of the history of `rev`.
    SplitSubdir { module: String, rev: Oid },
    /// Point `reference` at `commit`, with this log message.
    SetRef { reference: String, commit: Oid, message: String },
    /// Resolve `reference` to a commit.
    ResolveModule { reference: String },
    /// Report the tree of `module_commit` and the tree at `module` in the submitted
    /// commit.
    CompareTrees { module_commit: Oid, module: String },
    /// Rewrite the submitted commit with `tree`, onto `parent`.
    RewriteOnto { parent: Oid, tree: Oid },
    /// Push `commit` of `module` to `branch`.
    Push { commit: Oid, module: String, branch: String },
    /// The submit is over.
    Finish,
}

/// A submit action, as values.
pub enum SubmitActionModel {
    LookupTracking { module: Seq<char> },
    LookupRef { reference: Seq<char> },
    SplitSubdir { module: Seq<char>, rev: Seq<u8> },
    SetRef { reference: Seq<char>, commit: Seq<u8>, message: Seq<char> },
    ResolveModule { reference: Seq<char> },
    CompareTrees { module_commit: Seq<u8>, module: Seq<char> },
    RewriteOnto { parent: Seq<u8>, tree: Seq<u8> },
    Push { commit: Seq<u8>, module: Seq<char>, branch: Seq<char> },
    Finish,
}

impl View for SubmitAction {
    type V = SubmitActionModel;

    open spec fn view(&self) -> SubmitActionModel {
        match self {
            SubmitAction::LookupTracking { module } => SubmitActionModel::LookupTracking {
                module: module@,
            },
            SubmitAction::LookupRef { reference } => SubmitActionModel::LookupRef {
                reference: reference@,
            },
            SubmitAction::SplitSubdir { module, rev } => SubmitActionModel::SplitSubdir {
                module: module@,
                rev: rev@,
            },
            SubmitAction::SetRef { reference, commit, message } => SubmitActionModel::SetRef {
                reference: reference@,
                commit: commit@,
                message: message@,
            },
            SubmitAction::ResolveModule { reference } => SubmitActionModel::ResolveModule {
                reference: reference@,
            },
            SubmitAction::CompareTrees { module_commit, module } =>
                SubmitActionModel::CompareTrees { module_commit: module_commit@, module: module@ },
            SubmitAction::RewriteOnto { parent, tree } => SubmitActionModel::RewriteOnto {
                parent: parent@,
                tree: tree@,
            },
            SubmitAction::Push { commit, module, branch } => SubmitActionModel::Push {
                commit: commit@,
                module: module@,
                branch: branch@,
            },
            SubmitAction::Finish => SubmitActionModel::Finish,
        }
    }
}

/// Where a submit stands with the module at hand.
pub enum SubmitStage {
    AwaitTracking,
    AwaitModuleRef,
    AwaitSplit,
    AwaitSplitRef,
    AwaitResolve,
    AwaitTrees(Oid),
    AwaitRewrite,
    AwaitRewriteRef,
    AwaitPushRef,
    AwaitPush,
    Done,
}

/// Where a submit stands, as values.
pub enum SubmitStageModel {
    AwaitTracking,
    AwaitModuleRef,
    AwaitSplit,
    AwaitSplitRef,
    AwaitResolve,
    AwaitTrees(Seq<u8>),
    AwaitRewrite,
    AwaitRewriteRef,
    AwaitPushRef,
    AwaitPush,
    Done,
}

impl View for SubmitStage {
    type V = SubmitStageModel;

    open spec fn view(&self) -> SubmitStageModel {
        match self {
            SubmitStage::AwaitTracking => SubmitStageModel::AwaitTracking,
            SubmitStage::AwaitModuleRef => SubmitStageModel::AwaitModuleRef,
            SubmitStage::AwaitSplit => SubmitStageModel::AwaitSplit,
            SubmitStage::AwaitSplitRef => SubmitStageModel::AwaitSplitRef,
            SubmitStage::AwaitResolve => SubmitStageModel::AwaitResolve,
            SubmitStage::AwaitTrees(o) => SubmitStageModel::AwaitTrees(o@),
            SubmitStage::AwaitRewrite => SubmitStageModel::AwaitRewrite,
            SubmitStage::AwaitRewriteRef => SubmitStageModel::AwaitRewriteRef,
            SubmitStage::AwaitPushRef => SubmitStageModel::AwaitPushRef,
            SubmitStage::AwaitPush => SubmitStageModel::AwaitPush,
            SubmitStage::Done => SubmitStageModel::Done,
        }
    }
}

/// A submit in progress, as values: the modules of the central repository, the name
/// of the central one, the submitted commit, the module at hand and the stage.
pub struct SubmitModel {
    pub modules: Seq<Seq<char>>,
    pub central: Seq<char>,
    pub rev: Seq<u8>,
    pub index: int,
    pub stage: SubmitStageModel,
}

impl SubmitModel {
    /// The same submit at another stage.
    pub open spec fn at(self, stage: SubmitStageModel) -> SubmitModel {
        SubmitModel { stage, ..self }
    }

    /// The module at hand.
    pub open spec fn module(self) -> Seq<char> {
        self.modules[self.index]
    }
}

/// The first module at or after `i` that is not the central one gets its turn in the
/// split pass; after the last one the push pass starts.
pub open spec fn split_from(m: SubmitModel, i: int) -> (SubmitModel, SubmitActionModel)
    decreases m.modules.len() - i,
{
    if i < 0 || i >= m.modules.len() {
        push_from(m, 0)
    } else if m.modules[i] == m.central {
        split_from(m, i + 1)
    } else {
        (
            SubmitModel { index: i, stage: SubmitStageModel::AwaitTracking, ..m },
            SubmitActionModel::LookupTracking { module: m.modules[i] },
        )
    }
}

/// Module `j` gets its turn in the push pass; after the last one the submit is over.
pub open spec fn push_from(m: SubmitModel, j: int) -> (SubmitModel, SubmitActionModel) {
    if j < 0 || j >= m.modules.len() {
        (SubmitModel { index: j, stage: SubmitStageModel::Done, ..m }, SubmitActionModel::Finish)
    } else {
        (
            SubmitModel { index: j, stage: SubmitStageModel::AwaitPushRef, ..m },
            SubmitActionModel::LookupRef { reference: module_branch(m.modules[j]) },
        )
    }
}

/// The module branch of the module at hand is resolved.
pub open spec fn resolve_step(m: SubmitModel) -> (SubmitModel, SubmitActionModel) {
    (
        m.at(SubmitStageModel::AwaitResolve),
        SubmitActionModel::ResolveModule { reference: module_branch(m.module()) },
    )
}

/// The outcome fits the stage the submit is at.
pub open spec fn submit_accepts(m: SubmitModel, e: SubmitEventModel) -> bool {
    match m.stage {
        SubmitStageModel::AwaitTracking => e is TrackingFound,
        SubmitStageModel::AwaitModuleRef => e is ModuleRefFound,
        SubmitStageModel::AwaitSplit => e is Split,
        SubmitStageModel::AwaitSplitRef => e is RefSet,
        SubmitStageModel::AwaitResolve => e is ModuleResolved,
        SubmitStageModel::AwaitTrees(_) => e is Trees,
        SubmitStageModel::AwaitRewrite => e is Rewritten,
        SubmitStageModel::AwaitRewriteRef => e is RefSet,
        SubmitStageModel::AwaitPushRef => e is ModuleRefFound,
        SubmitStageModel::AwaitPush => e is Pushed,
        SubmitStageModel::Done => false,
    }
}

/// What follows an outcome of a submit.
pub open spec fn submit_next(m: SubmitModel, e: SubmitEventModel) -> (
    SubmitModel,
    SubmitActionModel,
) {
    match m.stage {
        SubmitStageModel::AwaitTracking => match e {
            SubmitEventModel::TrackingFound(true) => resolve_step(m),
            _ => (
                m.at(SubmitStageModel::AwaitModuleRef),
                SubmitActionModel::LookupRef { reference: module_branch(m.module()) },
            ),
        },
        SubmitStageModel::AwaitModuleRef => match e {
            SubmitEventModel::ModuleRefFound(Some(_)) => resolve_step(m),
            _ => (
                m.at(SubmitStageModel::AwaitSplit),
                SubmitActionModel::SplitSubdir { module: m.module(), rev: m.rev },
            ),
        },
        SubmitStageModel::AwaitSplit => match e {
            SubmitEventModel::Split(Some(c)) => (
                m.at(SubmitStageModel::AwaitSplitRef),
                SubmitActionModel::SetRef {
                    reference: module_branch(m.module()),
                    commit: c,
                    message: "subtree_split"@,
                },
            ),
            _ => resolve_step(m),
        },
        SubmitStageModel::AwaitSplitRef => resolve_step(m),
        SubmitStageModel::AwaitResolve => match e {
            SubmitEventModel::ModuleResolved(Some(c)) => (
                m.at(SubmitStageModel::AwaitTrees(c)),
                SubmitActionModel::CompareTrees { module_commit: c, module: m.module() },
            ),
            _ => split_from(m, m.index + 1),
        },
        SubmitStageModel::AwaitTrees(parent) => match e {
            SubmitEventModel::Trees { old, new } => if tree_changed(old, new) {
                (
                    m.at(SubmitStageModel::AwaitRewrite),
                    SubmitActionModel::RewriteOnto { parent, tree: new->0 },
                )
            } else {
                split_from(m, m.index + 1)
            },
            _ => split_from(m, m.index + 1),
        },
        SubmitStageModel::AwaitRewrite => match e {
            SubmitEventModel::Rewritten(c) => (
                m.at(SubmitStageModel::AwaitRewriteRef),
                SubmitActionModel::SetRef {
                    reference: module_branch(m.module()),
                    commit: c,
                    message: "rewrite"@,
                },
            ),
            _ => split_from(m, m.index + 1),
        },
        SubmitStageModel::AwaitRewriteRef => split_from(m, m.index + 1),
        SubmitStageModel::AwaitPushRef => match e {
            SubmitEventModel::ModuleRefFound(Some(c)) => (
                m.at(SubmitStageModel::AwaitPush),
                SubmitActionModel::Push {
                    commit: c,
                    module: m.module(),
                    branch: "refs/heads/master"@,
                },
            ),
            _ => push_from(m, m.index + 1),
        },
        SubmitStageModel::AwaitPush => push_from(m, m.index + 1),
        SubmitStageModel::Done => (m, SubmitActionModel::Finish),
    }
}

/// A submit to the central repository in progress.
pub struct CentralSubmit {
    modules: Vec<String>,
    central: String,
    rev: Oid,
    index: usize,
    stage: SubmitStage,
}

impl View for CentralSubmit {
    type V = SubmitModel;

    closed spec fn view(&self) -> SubmitModel {
        SubmitModel {
            modules: self.modules@.map_values(|s: String| s@),
            central: self.central@,
            rev: self.rev@,
            index: self.index as int,
            stage: self.stage@,
        }
    }
}

impl CentralSubmit {
    #[verifier::type_invariant]
    spec fn module_in_range(self) -> bool {
        !(self.stage is Done) ==> self.index < self.modules@.len()
    }

    /// The submit is over.
    pub fn is_done(&self) -> (r: bool)
        ensures
            r == (self@.stage is Done),
    {
        match self.stage {
            SubmitStage::Done => true,
            _ => false,
        }
    }

    /// Starts the submit of commit `rev` to the central repository `central`, whose
    /// modules are `modules`.
    pub fn start(modules: Vec<String>, central: &str, rev: Oid) -> (r: (CentralSubmit, SubmitAction))
        ensures
            (r.0@, r.1@) == split_from(
                SubmitModel {
                    modules: modules@.map_values(|s: String| s@),
                    central: central@,
                    rev: rev@,
                    index: 0,
                    stage: SubmitStageModel::Done,
                },
                0,
            ),
    {
        let m = CentralSubmit {
            modules,
            central: String::from_str(central),
            rev,
            index: 0,
            stage: SubmitStage::Done,
        };
        m.split_from(0)
    }

    fn with(self, index: usize, stage: SubmitStage) -> (r: CentralSubmit)
        requires
            stage is Done || index < self.modules@.len(),
        ensures
            r@ == (SubmitModel { index: index as int, stage: stage@, ..self@ }),
    {
        CentralSubmit { modules: self.modules, central: self.central, rev: self.rev, index, stage }
    }

    fn push_from(self, j: usize) -> (r: (CentralSubmit, SubmitAction))
        ensures
            (r.0@, r.1@) == push_from(self@, j as int),
    {
        if j >= self.modules.len() {
            (self.with(j, SubmitStage::Done), SubmitAction::Finish)
        } else {
            let reference = module_ref(self.modules[j].as_str());
            (self.with(j, SubmitStage::AwaitPushRef), SubmitAction::LookupRef { reference })
        }
    }

    fn split_from(self, i: usize) -> (r: (CentralSubmit, SubmitAction))
        ensures
            (r.0@, r.1@) == split_from(self@, i as int),
    {
        let ghost start = i;
        let mut i: usize = i;
        while i < self.modules.len() && self.modules[i] == self.central
            invariant
                split_from(self@, i as int) == split_from(self@, start as int),
            decreases self.modules.len() - i,
        {
            i += 1;
        }
        if i >= self.modules.len() {
            self.push_from(0)
        } else {
            let module = self.modules[i].clone();
            (self.with(i, SubmitStage::AwaitTracking), SubmitAction::LookupTracking { module })
        }
    }

    fn module_reference(&self) -> (r: String)
        requires
            self.index < self.modules@.len(),
        ensures
            r@ == module_branch(self@.module()),
    {
        module_ref(self.modules[self.index].as_str())
    }

    fn resolve(self) -> (out: (CentralSubmit, SubmitAction))
        requires
            self.index < self.modules@.len(),
        ensures
            (out.0@, out.1@) == resolve_step(self@),
    {
        let reference = self.module_reference();
        let index: usize = self.index;
        (self.with(index, SubmitStage::AwaitResolve), SubmitAction::ResolveModule { reference })
    }

    fn next_module(self) -> (out: (CentralSubmit, SubmitAction))
        requires
            self.index < self.modules@.len(),
        ensures
            (out.0@, out.1@) == split_from(self@, self@.index + 1),
    {
        let n: usize = self.modules.len();
        assert(self.index < n);
        let i: usize = self.index + 1;
        self.split_from(i)
    }

    fn next_push(self) -> (out: (CentralSubmit, SubmitAction))
        requires
            self.index < self.modules@.len(),
        ensures
            (out.0@, out.1@) == push_from(self@, self@.index + 1),
    {
        let n: usize = self.modules.len();
        assert(self.index < n);
        let j: usize = self.index + 1;
        self.push_from(j)
    }

    /// Takes the outcome of the last action and decides what comes next.
    pub fn step(self, event: SubmitEvent) -> (out: (CentralSubmit, SubmitAction))
        requires
            submit_accepts(self@, event@),
        ensures
            (out.0@, out.1@) == submit_next(self@, event@),
    {
        proof {
            use_type_invariant(&self);
        }
        let index: usize = self.index;
        match self.stage {
            SubmitStage::AwaitTracking => match event {
                SubmitEvent::TrackingFound(true) => self.resolve(),
                _ => {
                    let reference = self.module_reference();
                    (
                        self.with(index, SubmitStage::AwaitModuleRef),
                        SubmitAction::LookupRef { reference },
                    )
                },
            },
            SubmitStage::AwaitModuleRef => match event {
                SubmitEvent::ModuleRefFound(Some(_)) => self.resolve(),
                _ => {
                    let module = self.modules[index].clone();
                    let rev = self.rev.duplicate();
                    (
                        self.with(index, SubmitStage::AwaitSplit),
                        SubmitAction::SplitSubdir { module, rev },
                    )
                },
            },
            SubmitStage::AwaitSplit => match event {
                SubmitEvent::Split(Some(c)) => {
                    let reference = self.module_reference();
                    let message = String::from_str("subtree_split");
                    (
                        self.with(index, SubmitStage::AwaitSplitRef),
                        SubmitAction::SetRef { reference, commit: c, message },
                    )
                },
                _ => self.resolve(),
            },
            SubmitStage::AwaitSplitRef => self.resolve(),
            SubmitStage::AwaitResolve => match event {
                SubmitEvent::ModuleResolved(Some(c)) => {
                    let module = self.modules[index].clone();
                    let kept = c.duplicate();
                    (
                        self.with(index, SubmitStage::AwaitTrees(kept)),
                        SubmitAction::CompareTrees { module_commit: c, module },
                    )
                },
                _ => self.next_module(),
            },
            SubmitStage::AwaitTrees(ref parent) => match event {
                SubmitEvent::Trees { old, new } => {
                    if module_tree_changed(&old, &new) {
                        let parent = parent.duplicate();
                        match new {
                            Some(tree) => (
                                self.with(index, SubmitStage::AwaitRewrite),
                                SubmitAction::RewriteOnto { parent, tree },
                            ),
                            None => self.next_module(),
                        }
                    } else {
                        self.next_module()
                    }
                },
                _ => self.next_module(),
            },
            SubmitStage::AwaitRewrite => match event {
                SubmitEvent::Rewritten(c) => {
                    let reference = self.module_reference();
                    let message = String::from_str("rewrite");
                    (
                        self.with(index, SubmitStage::AwaitRewriteRef),
                        SubmitAction::SetRef { reference, commit: c, message },
                    )
                },
                _ => self.next_module(),
            },
            SubmitStage::AwaitRewriteRef => self.next_module(),
            SubmitStage::AwaitPushRef => match event {
                SubmitEvent::ModuleRefFound(Some(c)) => {
                    let module = self.modules[index].clone();
                    let branch = String::from_str("refs/heads/master");
                    (
                        self.with(index, SubmitStage::AwaitPush),
                        SubmitAction::Push { commit: c, module, branch },
                    )
                },
                _ => self.next_push(),
            },
            SubmitStage::AwaitPush => self.next_push(),
            SubmitStage::Done => (self, SubmitAction::Finish),
        }
    }
}

/// Where the creation of a module branch stands.
pub enum PreCreateStage {
    AwaitRef,
    AwaitSplit,
    AwaitSet,
    Done,
}

/// Where the creation of a module branch stands, as values.
pub enum PreCreateStageModel {
    AwaitRef,
    AwaitSplit,
    AwaitSet,
    Done,
}

impl View for PreCreateStage {
    type V = PreCreateStageModel;

    open spec fn view(&self) -> PreCreateStageModel {
        match self {
            PreCreateStage::AwaitRef => PreCreateStageModel::AwaitRef,
            PreCreateStage::AwaitSplit => PreCreateStageModel::AwaitSplit,
            PreCreateStage::AwaitSet => PreCreateStageModel::AwaitSet,
            PreCreateStage::Done => PreCreateStageModel::Done,
        }
    }
}

/// The creation of a module branch before a project is created, as values.
pub struct PreCreateModel {
    pub project: Seq<char>,
    pub rev: Seq<u8>,
    pub stage: PreCreateStageModel,
}

/// The creation of a module branch, from the project's subdirectory, when it does not
/// exist yet.
pub struct PreCreateProject {
    project: String,
    rev: Oid,
    stage: PreCreateStage,
}

impl View for PreCreateProject {
    type V = PreCreateModel;

    closed spec fn view(&self) -> PreCreateModel {
        PreCreateModel { project: self.project@, rev: self.rev@, stage: self.stage@ }
    }
}

/// The outcome fits the stage.
pub open spec fn pre_create_accepts(m: PreCreateModel, e: SubmitEventModel) -> bool {
    match m.stage {
        PreCreateStageModel::AwaitRef => e is ModuleRefFound,
        PreCreateStageModel::AwaitSplit => e is Split,
        PreCreateStageModel::AwaitSet => e is RefSet,
        PreCreateStageModel::Done => false,
    }
}

/// What follows an outcome: an existing branch is kept; otherwise the project's
/// subdirectory is split out of the commit and, if that gives a commit, the branch
/// is set to it.
pub open spec fn pre_create_next(m: PreCreateModel, e: SubmitEventModel) -> (
    PreCreateModel,
    SubmitActionModel,
) {
    let done = PreCreateModel { stage: PreCreateStageModel::Done, ..m };
    match e {
        SubmitEventModel::ModuleRefFound(None) => (
            PreCreateModel { stage: PreCreateStageModel::AwaitSplit, ..m },
            SubmitActionModel::SplitSubdir { module: m.project, rev: m.rev },
        ),
        SubmitEventModel::Split(Some(c)) => (
            PreCreateModel { stage: PreCreateStageModel::AwaitSet, ..m },
            SubmitActionModel::SetRef {
                reference: module_branch(m.project),
                commit: c,
                message: "subtree_split"@,
            },
        ),
        _ => (done, SubmitActionModel::Finish),
    }
}

impl PreCreateProject {
    /// Starts creating the branch of `project` from commit `rev`: the branch is looked
    /// up first.
    pub fn start(project: &str, rev: Oid) -> (r: (PreCreateProject, SubmitAction))
        ensures
            r.0@ == (PreCreateModel {
                project: project@,
                rev: rev@,
                stage: PreCreateStageModel::AwaitRef,
            }),
            r.1@ == (SubmitActionModel::LookupRef { reference: module_branch(project@) }),
    {
        let reference = module_ref(project);
        (
            PreCreateProject {
                project: String::from_str(project),
                rev,
                stage: PreCreateStage::AwaitRef,
            },
            SubmitAction::LookupRef { reference },
        )
    }

    /// The creation is over.
    pub fn is_done(&self) -> (r: bool)
        ensures
            r == (self@.stage is Done),
    {
        match self.stage {
            PreCreateStage::Done => true,
            _ => false,
        }
    }

    /// Takes the outcome of the last action and decides what comes next.
    pub fn step(self, event: SubmitEvent) -> (out: (PreCreateProject, SubmitAction))
        requires
            pre_create_accepts(self@, event@),
        ensures
            (out.0@, out.1@) == pre_create_next(self@, event@),
    {
        match event {
            SubmitEvent::ModuleRefFound(None) => {
                let module = self.project.clone();
                let rev = self.rev.duplicate();
                (
                    PreCreateProject {
                        project: self.project,
                        rev: self.rev,
                        stage: PreCreateStage::AwaitSplit,
                    },
                    SubmitAction::SplitSubdir { module, rev },
                )
            },
            SubmitEvent::Split(Some(c)) => {
                let reference = module_ref(self.project.as_str());
                let message = String::from_str("subtree_split");
                (
                    PreCreateProject {
                        project: self.project,
                        rev: self.rev,
                        stage: PreCreateStage::AwaitSet,
                    },
                    SubmitAction::SetRef { reference, commit: c, message },
                )
            },
            _ => (
                PreCreateProject { project: self.project, rev: self.rev, stage: PreCreateStage::Done },
                SubmitAction::Finish,
            ),
        }
    }
}

impl CentralGit {
    /// Starts a review upload of `new` to `module`; the tracking branch of the module is looked
    /// up first.
    pub fn review_upload(&self, module: &str, central: &str, new: Oid) -> (r: (
        ReviewUpload,
        ReviewAction,
    ))
        ensures
            r.0@.module == module@,
            r.0@.central == central@,
            r.0@.new == new@,
            r.0@.stage == ReviewStageModel::AwaitTracking,
            r.1@ == (ReviewActionModel::LookupTracking { module: module@ }),
    {
        ReviewUpload::start(module, central, new)
    }

    /// Starts creating the branch of `project` from commit `rev`, unless it exists.
    pub fn pre_create_project(&self, project: &str, rev: Oid) -> (r: (PreCreateProject, SubmitAction))
        ensures
            r.0@ == (PreCreateModel {
                project: project@,
                rev: rev@,
                stage: PreCreateStageModel::AwaitRef,
            }),
            r.1@ == (SubmitActionModel::LookupRef { reference: module_branch(project@) }),
    {
        PreCreateProject::start(project, rev)
    }

    /// Starts the submit of commit `rev` to the central repository `central`, whose
    /// modules are `modules`.
    pub fn central_submit(&self, modules: Vec<String>, central: &str, rev: Oid) -> (r: (
        CentralSubmit,
        SubmitAction,
    ))
        ensures
            (r.0@, r.1@) == split_from(
                SubmitModel {
                    modules: modules@.map_values(|s: String| s@),
                    central: central@,
                    rev: rev@,
                    index: 0,
                    stage: SubmitStageModel::Done,
                },
                0,
            ),
    {
        CentralSubmit::start(modules, central, rev)
    }

    /// Once a project was created, the commit of the central tracking branch, if there
    /// is one, is submitted.
    pub fn project_created(
        &self,
        modules: Vec<String>,
        central: &str,
        central_tracking: Option<Oid>,
    ) -> (r: Option<(CentralSubmit, SubmitAction)>)
        ensures
            r is Some <==> central_tracking is Some,
            r matches Some((m, a)) ==> (m@, a@) == split_from(
                SubmitModel {
                    modules: modules@.map_values(|s: String| s@),
                    central: central@,
                    rev: central_tracking->0@,
                    index: 0,
                    stage: SubmitStageModel::Done,
                },
                0,
            ),
    {
        match central_tracking {
            Some(rev) => Some(self.central_submit(modules, central, rev)),
            None => None,
        }
    }
}

/// An upload to the central repository itself is never replayed: no outcome leads to
/// a rewrite.
pub proof fn law_central_upload_never_rewrites(m: ReviewModel, e: ReviewEventModel)
    requires
        m.module == m.central,
    ensures
        !(review_next(m, e).1 is Rewrite),
{
}

/// An upload that holds a merge commit is rejected as soon as the walk meets it.
pub proof fn law_merge_commits_rejected(m: ReviewModel, c: CommitModel)
    requires
        c.parents > 1,
    ensures
        review_next(m, ReviewEventModel::Next(Some(c))) == (
            m.at(ReviewStageModel::Done),
            ReviewActionModel::Finish(ReviewResultModel::RejectMerge),
        ),
{
}

/// Uploading the commit the tracking branch already holds changes nothing.
pub proof fn law_upload_of_tracked_commit(m: ReviewModel)
    ensures
        review_next(m, ReviewEventModel::Tracking(Some(m.new))).1 == ReviewActionModel::Finish(
            ReviewResultModel::NoChanges,
        ),
{
}

/// The split pass of a submit never works on the central repository itself.
pub proof fn law_split_pass_skips_central(m: SubmitModel, i: int)
    ensures
        split_from(m, i).1 matches SubmitActionModel::LookupTracking { module } ==> module
            != m.central,
    decreases m.modules.len() - i,
{
    if i < 0 || i >= m.modules.len() {
    } else if m.modules[i] == m.central {
        law_split_pass_skips_central(m, i + 1);
    }
}

/// A module branch gets a new commit only for a tree that exists and differs from the
/// branch's own.
pub proof fn law_rewrite_needs_changed_tree(m: SubmitModel, old: Option<Seq<u8>>, new: Option<Seq<u8>>)
    requires
        m.stage is AwaitTrees,
    ensures
        submit_next(m, SubmitEventModel::Trees { old, new }).1 is RewriteOnto ==> new is Some
            && new->0 != zero_bytes() && old != Some(new->0),
{
    lemma_split_from_kind(m, m.index + 1);
}

/// Moving to the next module only looks up a tracking branch or a module branch, or
/// ends the submit.
pub proof fn lemma_split_from_kind(m: SubmitModel, i: int)
    ensures
        split_from(m, i).1 is LookupTracking || split_from(m, i).1 is LookupRef || split_from(
            m,
            i,
        ).1 is Finish,
    decreases m.modules.len() - i,
{
    if i < 0 || i >= m.modules.len() {
    } else if m.modules[i] == m.central {
        lemma_split_from_kind(m, i + 1);
    }
}

/// A submit in a state it can reach: in the split pass the module at hand is one of
/// the modules and not the central one; in the push pass it is one of the modules.
pub open spec fn submit_wf(m: SubmitModel) -> bool {
    match m.stage {
        SubmitStageModel::AwaitPushRef | SubmitStageModel::AwaitPush => 0 <= m.index
            < m.modules.len(),
        SubmitStageModel::Done => true,
        _ => 0 <= m.index < m.modules.len() && m.modules[m.index] != m.central,
    }
}

/// Moving to the push pass from module `j` gives a reachable state.
pub proof fn lemma_push_from_wf(m: SubmitModel, j: int)
    ensures
        submit_wf(push_from(m, j).0),
{
}

/// Moving to the split pass from module `i` gives a reachable state.
pub proof fn lemma_split_from_wf(m: SubmitModel, i: int)
    ensures
        submit_wf(split_from(m, i).0),
    decreases m.modules.len() - i,
{
    if i < 0 || i >= m.modules.len() {
        lemma_push_from_wf(m, 0);
    } else if m.modules[i] == m.central {
        lemma_split_from_wf(m, i + 1);
    }
}

/// A submit starts in a reachable state, every outcome keeps it in one, and every
/// reference a submit writes is the branch of a module that is not the central one.
pub proof fn law_submit_writes_only_module_branches(m: SubmitModel, e: SubmitEventModel)
    ensures
        submit_wf(split_from(m, 0).0),
        submit_wf(m) && submit_accepts(m, e) ==> {
            let (m2, a) = submit_next(m, e);
            &&& submit_wf(m2)
            &&& (a matches SubmitActionModel::SetRef { reference, .. } ==> reference
                == module_branch(m2.module()) && m2.module() != m.central && m2.modules
                == m.modules)
        },
{
    lemma_split_from_wf(m, 0);
    lemma_split_from_wf(m, m.index + 1);
    lemma_split_from_kind(m, m.index + 1);
    lemma_push_from_wf(m, m.index + 1);
}

/// A walked commit is refused as a merge exactly when it has more than one parent; a
/// commit with at most one parent (the root commit of a first upload too) of a module
/// that is not the central one is replayed onto the central branch as it stands.
pub proof fn law_only_merge_commits_are_refused(m: ReviewModel, c: CommitModel)
    ensures
        review_next(m, ReviewEventModel::Next(Some(c))).1 == ReviewActionModel::Finish(
            ReviewResultModel::RejectMerge,
        ) <==> c.parents > 1,
        c.parents <= 1 && m.module != m.central ==> review_next(
            m,
            ReviewEventModel::Next(Some(c)),
        ).1 == (ReviewActionModel::Rewrite { commit: c.oid, onto: m.current, module: m.module }),
        c.parents <= 1 && m.module == m.central ==> review_next(
            m,
            ReviewEventModel::Next(Some(c)),
        ).1 == ReviewActionModel::NextCommit,
{
}

/// After a module commit is rewritten onto the module branch, the branch is set to the
/// rewritten commit, with the log message `rewrite`.
pub proof fn law_rewritten_commit_becomes_module_branch(m: SubmitModel, c: Seq<u8>)
    requires
        m.stage == SubmitStageModel::AwaitRewrite,
    ensures
        submit_next(m, SubmitEventModel::Rewritten(c)) == (
            SubmitModel { stage: SubmitStageModel::AwaitRewriteRef, ..m },
            SubmitActionModel::SetRef {
                reference: "refs/centralgit/"@ + m.modules[m.index] + "/##master##"@,
                commit: c,
                message: "rewrite"@,
            },
        ),
{
}

/// A module branch made from a split is set to the split commit, with the log message
/// `subtree_split`, both in a submit and when a project is created.
pub proof fn law_split_commit_becomes_module_branch(
    m: SubmitModel,
    p: PreCreateModel,
    c: Seq<u8>,
)
    ensures
        m.stage == SubmitStageModel::AwaitSplit ==> submit_next(
            m,
            SubmitEventModel::Split(Some(c)),
        ) == (
            SubmitModel { stage: SubmitStageModel::AwaitSplitRef, ..m },
            SubmitActionModel::SetRef {
                reference: "refs/centralgit/"@ + m.modules[m.index] + "/##master##"@,
                commit: c,
                message: "subtree_split"@,
            },
        ),
        pre_create_next(p, SubmitEventModel::Split(Some(c))) == (
            PreCreateModel { stage: PreCreateStageModel::AwaitSet, ..p },
            SubmitActionModel::SetRef {
                reference: "refs/centralgit/"@ + p.project + "/##master##"@,
                commit: c,
                message: "subtree_split"@,
            },
        ),
{
}

} // verus!
