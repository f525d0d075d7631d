use vstd::prelude::*;
use vstd::string::*;

use crate::dependency::{
    deps_dir_of, dependency_dir_of, dependency_path, deps_path, remote_url_of, Dependency,
    DependencyData, Depman,
};

verus! {

/// Why a resolution stopped.
#[derive(Debug, PartialEq, Eq)]
pub enum ResolveError {
    /// The manifest of the project at `dir` exists but could not be decoded.
    ManifestParse { dir: String, message: String },
    /// The `deps` directory at `path` could not be created.
    CreateDir { path: String, message: String },
    /// Cloning `url` failed (network, authentication, unknown location).
    Fetch { url: String, message: String },
    /// `revision` does not name a commit of the repository at `path`.
    Revision { path: String, revision: String, message: String },
    /// The working tree at `path` could not be updated.
    Checkout { path: String, message: String },
    /// `url` is already being resolved further up the tree.
    Cycle { url: String },
}

pub enum ErrorView {
    ManifestParse { dir: Seq<char>, message: Seq<char> },
    CreateDir { path: Seq<char>, message: Seq<char> },
    Fetch { url: Seq<char>, message: Seq<char> },
    Revision { path: Seq<char>, revision: Seq<char>, message: Seq<char> },
    Checkout { path: Seq<char>, message: Seq<char> },
    Cycle { url: Seq<char> },
}

impl View for ResolveError {
    type V = ErrorView;

    open spec fn view(&self) -> ErrorView {
        match self {
            ResolveError::ManifestParse { dir, message } => ErrorView::ManifestParse {
                dir: dir@,
                message: message@,
            },
            ResolveError::CreateDir { path, message } => ErrorView::CreateDir {
                path: path@,
                message: message@,
            },
            ResolveError::Fetch { url, message } => ErrorView::Fetch {
                url: url@,
                message: message@,
            },
            ResolveError::Revision { path, revision, message } => ErrorView::Revision {
                path: path@,
                revision: revision@,
                message: message@,
            },
            ResolveError::Checkout { path, message } => ErrorView::Checkout {
                path: path@,
                message: message@,
            },
            ResolveError::Cycle { url } => ErrorView::Cycle { url: url@ },
        }
    }
}

/// What the caller is asked to do next.
#[derive(Debug, PartialEq, Eq)]
pub enum Action {
    /// Read and decode the manifest of the project at `dir`.
    ReadManifest { dir: String },
    /// Make sure the directory `path` exists.
    CreateDir { path: String },
    /// Clone `url`, with its submodules, into `path`.
    Clone { url: String, path: String },
    /// Resolve `revision` in the repository at `path` and check it out.
    Checkout { path: String, revision: String },
    /// Resolution is over.
    Finished(Result<(), ResolveError>),
}

pub enum ActionView {
    ReadManifest { dir: Seq<char> },
    CreateDir { path: Seq<char> },
    Clone { url: Seq<char>, path: Seq<char> },
    Checkout { path: Seq<char>, revision: Seq<char> },
    Finished(Result<(), ErrorView>),
}

impl View for Action {
    type V = ActionView;

    open spec fn view(&self) -> ActionView {
        match self {
            Action::ReadManifest { dir } => ActionView::ReadManifest { dir: dir@ },
            Action::CreateDir { path } => ActionView::CreateDir { path: path@ },
            Action::Clone { url, path } => ActionView::Clone { url: url@, path: path@ },
            Action::Checkout { path, revision } => ActionView::Checkout {
                path: path@,
                revision: revision@,
            },
            Action::Finished(Ok(())) => ActionView::Finished(Ok(())),
            Action::Finished(Err(e)) => ActionView::Finished(Err(e@)),
        }
    }
}

/// What the caller observed while carrying out the last action.
#[derive(Debug, PartialEq, Eq)]
pub enum Event {
    /// The manifest was read and decoded.
    Manifest(Depman),
    /// There is no manifest: the project has no dependencies.
    ManifestMissing,
    /// The manifest exists but could not be decoded.
    ManifestInvalid(String),
    DirCreated,
    DirFailed(String),
    Cloned,
    /// The target directory already holds a repository.
    AlreadyExists,
    CloneFailed(String),
    CheckedOut,
    RevisionNotFound(String),
    CheckoutFailed(String),
}

#[derive(PartialEq, Eq, Structural, Clone, Copy, Debug)]
pub enum Phase {
    /// Waiting for the manifest of the innermost project.
    Reading,
    /// Waiting for the `deps` directory of the current declaration.
    Creating,
    /// Waiting for the clone of the current declaration.
    Cloning,
    /// Waiting for the checkout of the current declaration.
    CheckingOut,
    Finished,
}

/// One project on the path from the root to the project being worked on.
pub struct FrameView {
    pub dir: Seq<char>,
    /// The remote this project was cloned from (empty for the root).
    pub url: Seq<char>,
    pub deps: Seq<Dependency>,
    /// Index of the declaration being worked on, or of the next one.
    pub next: nat,
}

pub struct ResolverView {
    pub frames: Seq<FrameView>,
    pub phase: Phase,
}

pub open spec fn top(frames: Seq<FrameView>) -> FrameView {
    frames[frames.len() - 1]
}

/// The declaration the innermost project is working on.
pub open spec fn current(frames: Seq<FrameView>) -> DependencyData {
    top(frames).deps[top(frames).next as int].dependency
}

/// Where the current declaration is fetched to.
pub open spec fn current_path(frames: Seq<FrameView>) -> Seq<char> {
    dependency_dir_of(top(frames).dir, current(frames).name@)
}

pub open spec fn url_on_stack(frames: Seq<FrameView>, url: Seq<char>) -> bool {
    exists|i: int| 0 <= i < frames.len() && #[trigger] frames[i].url == url
}

/// The frames once the innermost project is done with its current declaration.
pub open spec fn bump(frames: Seq<FrameView>) -> Seq<FrameView> {
    let t = top(frames);
    frames.update(
        frames.len() - 1,
        FrameView { dir: t.dir, url: t.url, deps: t.deps, next: t.next + 1 },
    )
}

/// The frames once the innermost project's manifest declared `deps`.
pub open spec fn load(frames: Seq<FrameView>, deps: Seq<Dependency>) -> Seq<FrameView> {
    let t = top(frames);
    frames.update(frames.len() - 1, FrameView { dir: t.dir, url: t.url, deps: deps, next: 0 })
}

pub open spec fn finish(frames: Seq<FrameView>, outcome: Result<(), ErrorView>) -> (
    ResolverView,
    ActionView,
) {
    (ResolverView { frames, phase: Phase::Finished }, ActionView::Finished(outcome))
}

/// Moves to the next declaration to fetch, depth first: the innermost project's next
/// one, or else its parent's next one, and so on up to the root.
pub open spec fn advance(frames: Seq<FrameView>) -> (ResolverView, ActionView)
    decreases frames.len(),
{
    if frames.len() == 0 {
        finish(frames, Ok(()))
    } else {
        let t = top(frames);
        if t.next < t.deps.len() {
            let url = remote_url_of(current(frames));
            if url_on_stack(frames, url) {
                finish(frames, Err(ErrorView::Cycle { url }))
            } else {
                (
                    ResolverView { frames, phase: Phase::Creating },
                    ActionView::CreateDir { path: deps_dir_of(t.dir) },
                )
            }
        } else if frames.len() == 1 {
            finish(frames, Ok(()))
        } else {
            advance(bump(frames.drop_last()))
        }
    }
}

/// Descends into the dependency just fetched: its manifest is read next.
pub open spec fn enter(frames: Seq<FrameView>) -> (ResolverView, ActionView) {
    let path = current_path(frames);
    let child = FrameView {
        dir: path,
        url: remote_url_of(current(frames)),
        deps: Seq::empty(),
        next: 0,
    };
    (
        ResolverView { frames: frames.push(child), phase: Phase::Reading },
        ActionView::ReadManifest { dir: path },
    )
}

/// The state of a resolution that starts by reading the manifest at `dir`.
pub open spec fn initial(dir: Seq<char>) -> ResolverView {
    ResolverView {
        frames: seq![FrameView { dir, url: Seq::empty(), deps: Seq::empty(), next: 0 }],
        phase: Phase::Reading,
    }
}

impl ResolverView {
    /// Which events the state is waiting for.
    pub open spec fn accepts(self, e: Event) -> bool {
        match self.phase {
            Phase::Reading => e is Manifest || e is ManifestMissing || e is ManifestInvalid,
            Phase::Creating => e is DirCreated || e is DirFailed,
            Phase::Cloning => e is Cloned || e is AlreadyExists || e is CloneFailed,
            Phase::CheckingOut => e is CheckedOut || e is RevisionNotFound || e is CheckoutFailed,
            Phase::Finished => false,
        }
    }

    /// The next state and action, for an event that the state accepts.
    pub open spec fn transition(self, e: Event) -> (ResolverView, ActionView) {
        let frames = self.frames;
        let d = current(frames);
        let path = current_path(frames);
        match e {
            Event::Manifest(m) => advance(load(frames, m.dependencies@)),
            Event::ManifestMissing => advance(load(frames, Seq::empty())),
            Event::ManifestInvalid(msg) => finish(
                frames,
                Err(ErrorView::ManifestParse { dir: top(frames).dir, message: msg@ }),
            ),
            Event::DirCreated => (
                ResolverView { frames, phase: Phase::Cloning },
                ActionView::Clone { url: remote_url_of(d), path },
            ),
            Event::DirFailed(msg) => finish(
                frames,
                Err(ErrorView::CreateDir { path: deps_dir_of(top(frames).dir), message: msg@ }),
            ),
            Event::Cloned => match d.revision {
                Some(rev) => (
                    ResolverView { frames, phase: Phase::CheckingOut },
                    ActionView::Checkout { path, revision: rev@ },
                ),
                None => enter(frames),
            },
            Event::AlreadyExists => advance(bump(frames)),
            Event::CloneFailed(msg) => finish(
                frames,
                Err(ErrorView::Fetch { url: remote_url_of(d), message: msg@ }),
            ),
            Event::CheckedOut => enter(frames),
            Event::RevisionNotFound(msg) => finish(
                frames,
                Err(
                    ErrorView::Revision {
                        path,
                        revision: d.revision.unwrap()@,
                        message: msg@,
                    },
                ),
            ),
            Event::CheckoutFailed(msg) => finish(
                frames,
                Err(ErrorView::Checkout { path, message: msg@ }),
            ),
        }
    }

    /// The frames describe a path from the root down the dependency tree: each
    /// project below the root was fetched from its parent's current declaration,
    /// into `<parent>/deps/<name>`.
    pub open spec fn frames_wf(frames: Seq<FrameView>) -> bool {
        &&& forall|i: int| 0 <= i < frames.len() ==> #[trigger] frames[i].next <= frames[i].deps.len()
        &&& forall|i: int|
            0 <= i < frames.len() - 1 ==> #[trigger] frames[i].next < frames[i].deps.len()
        &&& forall|i: int|
            1 <= i < frames.len() ==> {
                let p = #[trigger] frames[i - 1];
                let d = p.deps[p.next as int].dependency;
                &&& frames[i].dir == dependency_dir_of(p.dir, d.name@)
                &&& frames[i].url == remote_url_of(d)
            }
    }

    pub open spec fn wf(self) -> bool {
        &&& Self::frames_wf(self.frames)
        &&& self.frames.len() >= 1
        &&& (self.phase is Creating || self.phase is Cloning || self.phase is CheckingOut) ==> {
            &&& top(self.frames).next < top(self.frames).deps.len()
            &&& !url_on_stack(self.frames, remote_url_of(current(self.frames)))
        }
        &&& self.phase is CheckingOut ==> current(self.frames).revision is Some
    }
}

struct Frame {
    dir: String,
    url: String,
    deps: Vec<Dependency>,
    next: usize,
}

impl View for Frame {
    type V = FrameView;

    closed spec fn view(&self) -> FrameView {
        FrameView { dir: self.dir@, url: self.url@, deps: self.deps@, next: self.next as nat }
    }
}

/// A depth-first resolution of a dependency tree, driven by its caller: each call of
/// `step` reports what came of the last action and receives the next one.
pub struct Resolver {
    stack: Vec<Frame>,
    phase: Phase,
}

impl View for Resolver {
    type V = ResolverView;

    closed spec fn view(&self) -> ResolverView {
        ResolverView { frames: self.stack@.map_values(|f: Frame| f@), phase: self.phase }
    }
}

impl Resolver {
    /// The state is one that `step` keeps: see `ResolverView::wf`.
    pub closed spec fn wf(&self) -> bool {
        self@.wf()
    }

    /// Starts the resolution of the project at `dir`: its manifest is read first.
    pub fn new(dir: String) -> (r: (Resolver, Action))
        ensures
            r.0.wf(),
            r.0@ == initial(dir@),
            r.1@ == (ActionView::ReadManifest { dir: dir@ }),
    {
        let path = dir.clone();
        let mut stack: Vec<Frame> = Vec::new();
        stack.push(Frame { dir, url: String::new(), deps: Vec::new(), next: 0 });
        let r = Resolver { stack, phase: Phase::Reading };
        assert(r@.frames =~= initial(path@).frames);
        (r, Action::ReadManifest { dir: path })
    }

    pub fn is_finished(&self) -> (r: bool)
        ensures
            r == (self@.phase is Finished),
    {
        matches!(self.phase, Phase::Finished)
    }

    /// Whether `step` takes `event` in the present state.
    pub fn accepts(&self, event: &Event) -> (r: bool)
        ensures
            r == self@.accepts(*event),
    {
        match self.phase {
            Phase::Reading => matches!(
                event,
                Event::Manifest(_) | Event::ManifestMissing | Event::ManifestInvalid(_)
            ),
            Phase::Creating => matches!(event, Event::DirCreated | Event::DirFailed(_)),
            Phase::Cloning => matches!(
                event,
                Event::Cloned | Event::AlreadyExists | Event::CloneFailed(_)
            ),
            Phase::CheckingOut => matches!(
                event,
                Event::CheckedOut | Event::RevisionNotFound(_) | Event::CheckoutFailed(_)
            ),
            Phase::Finished => false,
        }
    }

    /// Takes what came of the last action and returns the next one.
    pub fn step(&mut self, event: Event) -> (r: Action)
        requires
            old(self).wf(),
            old(self)@.accepts(event),
        ensures
            final(self).wf(),
            (final(self)@, r@) == old(self)@.transition(event),
    {
        match event {
            Event::Manifest(m) => {
                self.load(m.dependencies);
                self.advance()
            },
            Event::ManifestMissing => {
                self.load(Vec::new());
                self.advance()
            },
            Event::ManifestInvalid(message) => {
                let dir = self.stack[self.stack.len() - 1].dir.clone();
                self.finish(Err(ResolveError::ManifestParse { dir, message }))
            },
            Event::DirCreated => {
                let url = self.current_url();
                let path = self.current_path();
                self.phase = Phase::Cloning;
                Action::Clone { url, path }
            },
            Event::DirFailed(message) => {
                let path = deps_path(self.stack[self.stack.len() - 1].dir.as_str());
                self.finish(Err(ResolveError::CreateDir { path, message }))
            },
            Event::Cloned => {
                let n = self.stack.len();
                let next = self.stack[n - 1].next;
                match &self.stack[n - 1].deps[next].dependency.revision {
                    Some(rev) => {
                        let revision = rev.clone();
                        let path = self.current_path();
                        self.phase = Phase::CheckingOut;
                        Action::Checkout { path, revision }
                    },
                    None => self.enter(),
                }
            },
            Event::AlreadyExists => {
                self.bump();
                self.advance()
            },
            Event::CloneFailed(message) => {
                let url = self.current_url();
                self.finish(Err(ResolveError::Fetch { url, message }))
            },
            Event::CheckedOut => self.enter(),
            Event::RevisionNotFound(message) => {
                let n = self.stack.len();
                let next = self.stack[n - 1].next;
                let revision = self.stack[n - 1].deps[next].dependency.revision.clone().unwrap();
                let path = self.current_path();
                self.finish(Err(ResolveError::Revision { path, revision, message }))
            },
            Event::CheckoutFailed(message) => {
                let path = self.current_path();
                self.finish(Err(ResolveError::Checkout { path, message }))
            },
        }
    }

    fn current_url(&self) -> (r: String)
        requires
            self@.frames.len() >= 1,
            top(self@.frames).next < top(self@.frames).deps.len(),
        ensures
            r@ == remote_url_of(current(self@.frames)),
    {
        let n = self.stack.len();
        let t = &self.stack[n - 1];
        t.deps[t.next].dependency.remote_url()
    }

    fn current_path(&self) -> (r: String)
        requires
            self@.frames.len() >= 1,
            top(self@.frames).next < top(self@.frames).deps.len(),
        ensures
            r@ == current_path(self@.frames),
    {
        let n = self.stack.len();
        let t = &self.stack[n - 1];
        dependency_path(t.dir.as_str(), t.deps[t.next].dependency.name.as_str())
    }

    fn on_stack(&self, url: &String) -> (r: bool)
        ensures
            r == url_on_stack(self@.frames, url@),
    {
        let mut i: usize = 0;
        while i < self.stack.len()
            invariant
                0 <= i <= self.stack.len(),
                self@.frames.len() == self.stack.len(),
                forall|j: int| 0 <= j < i ==> self@.frames[j].url != url@,
            decreases self.stack.len() - i,
        {
            if self.stack[i].url == *url {
                assert(self@.frames[i as int].url == url@);
                return true;
            }
            i += 1;
        }
        false
    }

    fn finish(&mut self, outcome: Result<(), ResolveError>) -> (r: Action)
        requires
            ResolverView::frames_wf(old(self)@.frames),
            old(self)@.frames.len() >= 1,
        ensures
            final(self).wf(),
            final(self)@ == (ResolverView { frames: old(self)@.frames, phase: Phase::Finished }),
            r == Action::Finished(outcome),
    {
        self.phase = Phase::Finished;
        Action::Finished(outcome)
    }

    /// Passes over the innermost project's current declaration.
    fn bump(&mut self)
        requires
            old(self)@.frames.len() >= 1,
            top(old(self)@.frames).next < top(old(self)@.frames).deps.len(),
        ensures
            final(self)@ == (ResolverView { frames: bump(old(self)@.frames), phase: old(self)@.phase }),
    {
        assert(top(self@.frames) == self.stack@[self.stack@.len() - 1]@);
        let mut t = self.stack.pop().unwrap();
        let len = t.deps.len();
        assert(t.next < len);
        t.next = t.next + 1;
        self.stack.push(t);
        assert(self@.frames =~= bump(old(self)@.frames));
    }

    fn load(&mut self, deps: Vec<Dependency>)
        requires
            old(self)@.frames.len() >= 1,
        ensures
            final(self)@ == (ResolverView {
                frames: load(old(self)@.frames, deps@),
                phase: old(self)@.phase,
            }),
    {
        let mut t = self.stack.pop().unwrap();
        t.deps = deps;
        t.next = 0;
        self.stack.push(t);
        assert(self@.frames =~= load(old(self)@.frames, deps@));
    }

    fn enter(&mut self) -> (r: Action)
        requires
            old(self).wf(),
            top(old(self)@.frames).next < top(old(self)@.frames).deps.len(),
        ensures
            final(self).wf(),
            (final(self)@, r@) == enter(old(self)@.frames),
    {
        let url = self.current_url();
        let path = self.current_path();
        let dir = path.clone();
        self.stack.push(Frame { dir, url, deps: Vec::new(), next: 0 });
        self.phase = Phase::Reading;
        assert(self@.frames =~= enter(old(self)@.frames).0.frames);
        Action::ReadManifest { dir: path }
    }

    fn advance(&mut self) -> (r: Action)
        requires
            ResolverView::frames_wf(old(self)@.frames),
            old(self)@.frames.len() >= 1,
        ensures
            final(self).wf(),
            (final(self)@, r@) == advance(old(self)@.frames),
    {
        loop
            invariant
                ResolverView::frames_wf(self@.frames),
                self@.frames.len() >= 1,
                advance(self@.frames) == advance(old(self)@.frames),
            decreases self.stack.len(),
        {
            let n = self.stack.len();
            let t = &self.stack[n - 1];
            if t.next < t.deps.len() {
                let url = t.deps[t.next].dependency.remote_url();
                let path = deps_path(t.dir.as_str());
                if self.on_stack(&url) {
                    return self.finish(Err(ResolveError::Cycle { url }));
                }
                self.phase = Phase::Creating;
                return Action::CreateDir { path };
            }
            if n == 1 {
                return self.finish(Ok(()));
            }
            let ghost before = self@.frames;
            self.stack.pop();
            self.bump();
            assert(self@.frames == bump(before.drop_last()));
        }
    }
}

impl Depman {
    /// Starts fetching this manifest's dependencies into `<base>/deps`, as the
    /// manifest of the project at `base`.
    pub fn retrieve_dependencies(self, base: String) -> (r: (Resolver, Action))
        ensures
            r.0.wf(),
            (r.0@, r.1@) == advance(
                seq![FrameView { dir: base@, url: Seq::empty(), deps: self.dependencies@, next: 0 }],
            ),
    {
        let mut stack: Vec<Frame> = Vec::new();
        stack.push(Frame { dir: base, url: String::new(), deps: self.dependencies, next: 0 });
        let mut r = Resolver { stack, phase: Phase::Reading };
        let ghost frames = seq![FrameView { dir: base@, url: Seq::empty(), deps: self.dependencies@, next: 0 }];
        assert(r@.frames =~= frames);
        let a = r.advance();
        (r, a)
    }
}

/// The actions a resolution issues when it is handed `events` in turn.
pub open spec fn run(s: ResolverView, events: Seq<Event>) -> Seq<ActionView>
    decreases events.len(),
{
    if events.len() == 0 {
        Seq::empty()
    } else {
        let next = s.transition(events[0]);
        seq![next.1] + run(next.0, events.drop_first())
    }
}

proof fn lemma_remote_url_not_empty(d: DependencyData)
    ensures
        remote_url_of(d).len() > 0,
{
    reveal_strlit("https://");
}

/// Moving on to the next declaration either asks for a `deps` directory, ends the
/// resolution successfully, or stops on a cycle: it never clones, checks out or
/// reads a manifest by itself.
pub proof fn lemma_advance_outcomes(frames: Seq<FrameView>)
    ensures
        advance(frames).1 is CreateDir || advance(frames).1 == ActionView::Finished(Ok(()))
            || advance(frames).1 matches ActionView::Finished(Err(ErrorView::Cycle { .. })),
    decreases frames.len(),
{
    if frames.len() > 1 && top(frames).next >= top(frames).deps.len() {
        lemma_advance_outcomes(bump(frames.drop_last()));
    }
}

/// A project whose manifest declares no dependency, or that has no manifest, is
/// resolved successfully right after its manifest is read, and no `deps` directory is
/// asked for.
pub proof fn lemma_no_dependencies(dir: Seq<char>, e: Event)
    requires
        e is ManifestMissing || (e matches Event::Manifest(m) && m.dependencies@.len() == 0),
    ensures
        run(initial(dir), seq![e]) == seq![ActionView::Finished(Ok(()))],
        initial(dir).transition(e).0.phase is Finished,
        advance(seq![FrameView { dir, url: Seq::empty(), deps: Seq::empty(), next: 0 }]).1
            == ActionView::Finished(Ok(())),
{
    reveal_with_fuel(run, 2);
    assert(seq![e].drop_first() =~= Seq::<Event>::empty());
}

/// A dependency whose directory already holds a repository is passed over: no checkout
/// and no manifest read follow for it, and the resolution goes on with the next
/// declaration exactly as if this one had been fetched and resolved.
pub proof fn lemma_existing_dependency_skipped(s: ResolverView)
    requires
        s.wf(),
        s.phase is Cloning,
    ensures
        s.transition(Event::AlreadyExists) == advance(bump(s.frames)),
        !(s.transition(Event::AlreadyExists).1 is Checkout),
        !(s.transition(Event::AlreadyExists).1 is ReadManifest),
        !(s.transition(Event::AlreadyExists).1 is Clone),
        s.transition(Event::AlreadyExists).1 matches ActionView::Finished(Err(e)) ==> e is Cycle,
{
    lemma_advance_outcomes(bump(s.frames));
}

/// Once cloned, a dependency with a requested revision has exactly that revision
/// checked out in its directory, and only then are its own dependencies read.
pub proof fn lemma_revision_checked_out(s: ResolverView, rev: String)
    requires
        s.wf(),
        s.phase is Cloning,
        current(s.frames).revision == Some(rev),
    ensures
        s.transition(Event::Cloned).1 == (ActionView::Checkout {
            path: current_path(s.frames),
            revision: rev@,
        }),
        s.transition(Event::Cloned).0.transition(Event::CheckedOut).1 == (ActionView::ReadManifest {
            dir: current_path(s.frames),
        }),
{
}

/// Once cloned, a dependency without a requested revision is left as cloned: no
/// checkout is asked for, and its own manifest is read next.
pub proof fn lemma_no_revision_no_checkout(s: ResolverView)
    requires
        s.wf(),
        s.phase is Cloning,
        current(s.frames).revision is None,
    ensures
        s.transition(Event::Cloned).1 == (ActionView::ReadManifest { dir: current_path(s.frames) }),
{
}

/// Dependencies are resolved transitively: when the root declares `a` and `a`'s
/// manifest declares `b`, `a` is cloned into `<root>/deps/<a>` and then `b` into
/// `<root>/deps/<a>/deps/<b>`.
pub proof fn lemma_transitive_fetch(root: Seq<char>, ma: Depman, mb: Depman)
    requires
        ma.dependencies@.len() == 1,
        mb.dependencies@.len() == 1,
        remote_url_of(mb.dependencies@[0].dependency) != remote_url_of(
            ma.dependencies@[0].dependency,
        ),
    ensures
        ({
            let a = ma.dependencies@[0].dependency;
            let b = mb.dependencies@[0].dependency;
            let a_dir = dependency_dir_of(root, a.name@);
            let events = if a.revision is None {
                seq![Event::Manifest(ma), Event::DirCreated, Event::Cloned, Event::Manifest(mb), Event::DirCreated]
            } else {
                seq![Event::Manifest(ma), Event::DirCreated, Event::Cloned, Event::CheckedOut, Event::Manifest(mb), Event::DirCreated]
            };
            let acts = run(initial(root), events);
            &&& acts[1] == (ActionView::Clone { url: remote_url_of(a), path: a_dir })
            &&& acts[acts.len() - 2] == (ActionView::CreateDir { path: deps_dir_of(a_dir) })
            &&& acts[acts.len() - 1] == (ActionView::Clone {
                url: remote_url_of(b),
                path: dependency_dir_of(a_dir, b.name@),
            })
        }),
{
    let a = ma.dependencies@[0].dependency;
    let b = mb.dependencies@[0].dependency;
    lemma_remote_url_not_empty(a);
    lemma_remote_url_not_empty(b);
    reveal_with_fuel(run, 7);
    let s0 = initial(root);
    let s1 = s0.transition(Event::Manifest(ma)).0;
    assert(!url_on_stack(s1.frames, remote_url_of(a)));
    let s2 = s1.transition(Event::DirCreated).0;
    let s3 = s2.transition(Event::Cloned).0;
    let s4 = if a.revision is None { s3 } else { s3.transition(Event::CheckedOut).0 };
    assert(s4.phase is Reading);
    let s5 = s4.transition(Event::Manifest(mb)).0;
    assert(!url_on_stack(s5.frames, remote_url_of(b))) by {
        assert(s5.frames.len() == 2);
        assert(s5.frames[1].url == remote_url_of(a));
    }
    if a.revision is None {
        let ev = seq![Event::Manifest(ma), Event::DirCreated, Event::Cloned, Event::Manifest(mb), Event::DirCreated];
        assert(ev.drop_first().drop_first().drop_first().drop_first().drop_first() =~= Seq::<Event>::empty());
    } else {
        let ev = seq![Event::Manifest(ma), Event::DirCreated, Event::Cloned, Event::CheckedOut, Event::Manifest(mb), Event::DirCreated];
        assert(ev.drop_first().drop_first().drop_first().drop_first().drop_first().drop_first() =~= Seq::<Event>::empty());
    }
}

/// A clone that fails ends the resolution with a fetch error naming the remote; nothing
/// else is asked for afterwards, so no directory is removed or fetched after it.
pub proof fn lemma_fetch_failure_stops(s: ResolverView, message: String)
    requires
        s.wf(),
        s.phase is Cloning,
    ensures
        s.transition(Event::CloneFailed(message)).1 == ActionView::Finished(
            Err(ErrorView::Fetch { url: remote_url_of(current(s.frames)), message: message@ }),
        ),
        forall|e: Event| !s.transition(Event::CloneFailed(message)).0.accepts(e),
{
}

/// A manifest that cannot be decoded ends the resolution with a parse error before
/// anything is cloned: at the root, the only action before the error is the manifest read.
pub proof fn lemma_invalid_manifest_stops(s: ResolverView, dir: Seq<char>, message: String)
    requires
        s.wf(),
        s.phase is Reading,
    ensures
        s.transition(Event::ManifestInvalid(message)).1 == ActionView::Finished(
            Err(ErrorView::ManifestParse { dir: top(s.frames).dir, message: message@ }),
        ),
        forall|e: Event| !s.transition(Event::ManifestInvalid(message)).0.accepts(e),
        run(initial(dir), seq![Event::ManifestInvalid(message)]) == seq![
            ActionView::Finished(Err(ErrorView::ManifestParse { dir, message: message@ })),
        ],
{
    reveal_with_fuel(run, 2);
    assert(seq![Event::ManifestInvalid(message)].drop_first() =~= Seq::<Event>::empty());
}

} // verus!
