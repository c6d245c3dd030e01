//! The context itself.

use crate::cell::{cell_get, cell_new, cell_set, cell_text};
use crate::dirs::{share, AppDirs};
use crate::exe::{all_failed, step_spec, Event, EventView, ExeResolver, ExeStep, PendingView, StepView};
use crate::lock::{
    lock_step_spec, LockError, LockEvent, LockEventView, LockRequest, LockStep, LockStepView,
};
use crate::paths::{is_without_final_component, join, parent_of, path_join, path_parent, text_of};
use once_cell::sync::OnceCell;
use std::sync::Arc;
use vstd::pervasive::unreached;
use vstd::prelude::*;

verus! {

/// The name of the output directory below the project root.
pub const DEFAULT_TARGET_DIR_NAME: &'static str = "target";

/// The name of the environment variable that holds the log filter.
pub const SCARB_LOG_ENV: &'static str = "SCARB_LOG";

/// The path of the manifest together with its parent, the project root.
struct Manifest {
    path: String,
    root: String,
}

impl Manifest {
    #[verifier::type_invariant]
    spec fn inv(self) -> bool {
        &&& path_parent(self.path@) == Some(self.root@)
        &&& is_without_final_component(self.root@, self.path@)
    }

    /// The manifest at `path`, if that path has a parent.
    fn locate(path: String) -> (manifest: Option<Manifest>)
        ensures
            manifest is Some == path_parent(path@) is Some,
            manifest matches Some(m) ==> m.path@ == path@,
    {
        match parent_of(path.as_str()) {
            Some(root) => Some(Manifest { path, root }),
            None => None,
        }
    }
}

/// The context of one invocation: where the project is, where the tool
/// keeps its files, and the few settings that every part of the tool
/// consults.
///
/// `U` is the handle through which the tool talks to its user, `L` the
/// handle of the lock over the package cache. The context keeps both and
/// looks into neither.
pub struct Config<U, L> {
    manifest: Manifest,
    dirs: Arc<AppDirs>,
    target_dir: String,
    app_exe: OnceCell<String>,
    resolver: ExeResolver,
    ui: U,
    creation_time: u64,
    package_cache_lock: Option<L>,
    scarb_log: String,
    offline: bool,
}

/// A [`Config`] as the contracts see it.
pub struct ConfigView<U, L> {
    /// The path of the manifest.
    pub manifest_path: Seq<char>,
    /// The project root.
    pub root: Seq<char>,
    /// The directory layout.
    pub dirs: AppDirs,
    /// The root of the output tree.
    pub target_dir: Seq<char>,
    /// The path of the tool's executable, once it has been found.
    pub app_exe: Option<Seq<char>>,
    /// The search for the executable, while one is under way.
    pub resolving: Option<PendingView>,
    /// The handle to the user interface.
    pub ui: U,
    /// The reading of the clock at which the context was made.
    pub creation_time: u64,
    /// The handle of the lock over the package cache, once it has been made.
    pub package_cache_lock: Option<L>,
    /// The log filter.
    pub scarb_log: Seq<char>,
    /// Whether the tool is to stay off the network.
    pub offline: bool,
}

/// The time from `creation` to `now`, on a clock that does not run
/// backwards; nothing where `now` is the earlier reading.
pub open spec fn elapsed_between(creation: u64, now: u64) -> nat {
    if now >= creation {
        (now - creation) as nat
    } else {
        0
    }
}

impl<U, L> ConfigView<U, L> {
    /// The context as [`Config::init`] makes it.
    ///
    /// Without an override the output tree lies in the directory
    /// [`DEFAULT_TARGET_DIR_NAME`] below the project root. A log filter that
    /// is not given is empty. Nothing has been found or locked yet, and the
    /// network may be used.
    pub open spec fn initial(
        manifest_path: Seq<char>,
        dirs: AppDirs,
        ui: U,
        target_dir_override: Option<Seq<char>>,
        scarb_log: Option<Seq<char>>,
        now: u64,
    ) -> ConfigView<U, L> {
        let root = path_parent(manifest_path)->Some_0;
        ConfigView {
            manifest_path,
            root,
            dirs,
            target_dir: match target_dir_override {
                Some(target_dir) => target_dir,
                None => path_join(root, DEFAULT_TARGET_DIR_NAME@),
            },
            app_exe: None,
            resolving: None,
            ui,
            creation_time: now,
            package_cache_lock: None,
            scarb_log: match scarb_log {
                Some(filter) => filter,
                None => Seq::empty(),
            },
            offline: false,
        }
    }

    /// The context with the offline flag set to `offline`.
    pub open spec fn with_offline(self, offline: bool) -> ConfigView<U, L> {
        ConfigView { offline, ..self }
    }

    /// Whether the tool may use the network.
    pub open spec fn network_allowed(self) -> bool {
        !self.offline
    }

    /// The time that the context has existed at the clock reading `now`.
    pub open spec fn elapsed(self, now: u64) -> nat {
        elapsed_between(self.creation_time, now)
    }

    /// What an event about the executable does to the context, and the
    /// answer to it.
    ///
    /// Once the path is known it is the answer to every event, and nothing
    /// changes. Until then the event goes to the resolver, with the search
    /// path of the directory layout; the path that the resolver ends on is
    /// kept.
    pub open spec fn exe_step(self, event: EventView) -> (ConfigView<U, L>, StepView) {
        match self.app_exe {
            Some(path) => (self, StepView::Done(Ok(path))),
            None => {
                let (resolving, step) = step_spec(self.resolving, event, self.dirs.path_env@);
                let app_exe = match step {
                    StepView::Done(Ok(path)) => Some(path),
                    _ => None,
                };
                (ConfigView { app_exe, resolving, ..self }, step)
            },
        }
    }

    /// What an event about the lock over the package cache does to the
    /// context, and the answer to it.
    pub open spec fn lock_step(self, event: LockEventView<L>) -> (ConfigView<U, L>, LockStepView<L>) {
        let (package_cache_lock, step) = lock_step_spec(self.package_cache_lock, event, self.dirs);
        (ConfigView { package_cache_lock, ..self }, step)
    }
}

impl<U, L> View for Config<U, L> {
    type V = ConfigView<U, L>;

    closed spec fn view(&self) -> ConfigView<U, L> {
        ConfigView {
            manifest_path: self.manifest.path@,
            root: self.manifest.root@,
            dirs: *self.dirs,
            target_dir: self.target_dir@,
            app_exe: cell_text(self.app_exe),
            resolving: self.resolver@,
            ui: self.ui,
            creation_time: self.creation_time,
            package_cache_lock: self.package_cache_lock,
            scarb_log: self.scarb_log@,
            offline: self.offline,
        }
    }
}

impl<U, L> Config<U, L> {
    /// Makes the context of an invocation.
    ///
    /// `manifest_path` is the path of the project's manifest; it must have
    /// a parent, which is the project root. `target_dir_override`, where
    /// given, is the root of the output tree as it stands. `scarb_log` is the
    /// value of the variable [`SCARB_LOG_ENV`], where it is set, and `now`
    /// the current reading of a clock that does not run backwards.
    pub fn init(
        manifest_path: String,
        dirs: AppDirs,
        ui: U,
        target_dir_override: Option<String>,
        scarb_log: Option<String>,
        now: u64,
    ) -> (config: Config<U, L>)
        requires
            path_parent(manifest_path@) is Some,
        ensures
            config@ == ConfigView::<U, L>::initial(
                manifest_path@,
                dirs,
                ui,
                text_of(target_dir_override),
                text_of(scarb_log),
                now,
            ),
    {
        let manifest = match Manifest::locate(manifest_path) {
            Some(manifest) => manifest,
            None => unreached(),
        };
        proof {
            use_type_invariant(&manifest);
        }
        let target_dir = match target_dir_override {
            Some(target_dir) => target_dir,
            None => join(manifest.root.as_str(), DEFAULT_TARGET_DIR_NAME),
        };
        let scarb_log = match scarb_log {
            Some(filter) => filter,
            None => String::new(),
        };
        Config {
            manifest,
            dirs: Arc::new(dirs),
            target_dir,
            app_exe: cell_new(),
            resolver: ExeResolver::new(),
            ui,
            creation_time: now,
            package_cache_lock: None,
            scarb_log,
            offline: false,
        }
    }

    /// Makes the context of an invocation, as [`Config::init`] does, if the
    /// manifest path has a parent; `None` if it has none.
    pub fn try_init(
        manifest_path: String,
        dirs: AppDirs,
        ui: U,
        target_dir_override: Option<String>,
        scarb_log: Option<String>,
        now: u64,
    ) -> (config: Option<Config<U, L>>)
        ensures
            config is Some == path_parent(manifest_path@) is Some,
            config matches Some(c) ==> c@ == ConfigView::<U, L>::initial(
                manifest_path@,
                dirs,
                ui,
                text_of(target_dir_override),
                text_of(scarb_log),
                now,
            ),
    {
        if parent_of(manifest_path.as_str()).is_some() {
            Some(Self::init(manifest_path, dirs, ui, target_dir_override, scarb_log, now))
        } else {
            None
        }
    }

    /// The path of the manifest.
    pub fn manifest_path(&self) -> (path: &str)
        ensures
            path@ == self@.manifest_path,
    {
        self.manifest.path.as_str()
    }

    /// The project root: the parent of the manifest path, which is the
    /// manifest path without its final component, the name of the manifest
    /// file.
    pub fn root(&self) -> (root: &str)
        ensures
            root@ == self@.root,
            path_parent(self@.manifest_path) == Some(root@),
            is_without_final_component(root@, self@.manifest_path),
    {
        proof {
            use_type_invariant(&self.manifest);
        }
        self.manifest.root.as_str()
    }

    /// The log filter.
    pub fn scarb_log(&self) -> (filter: &str)
        ensures
            filter@ == self@.scarb_log,
    {
        self.scarb_log.as_str()
    }

    /// The directory layout.
    pub fn dirs(&self) -> (dirs: &AppDirs)
        ensures
            *dirs == self@.dirs,
    {
        &*self.dirs
    }

    /// The root of the output tree.
    pub fn target_dir(&self) -> (target_dir: &str)
        ensures
            target_dir@ == self@.target_dir,
    {
        self.target_dir.as_str()
    }

    /// The path of the tool's own executable.
    ///
    /// Hand in [`Event::Query`] to ask for it. The answer is the path, if it
    /// is known; otherwise it is a probe to carry out, whose outcome is
    /// handed in with the next call, until the answer is the path or an
    /// error. The path, once found, is kept, and is from then on the answer
    /// to every call. An error is not kept: the next query starts over.
    ///
    /// An error holds one failure for each of the three strategies, in
    /// their order.
    pub fn app_exe(&mut self, event: Event) -> (step: ExeStep)
        ensures
            (final(self)@, step@) == old(self)@.exe_step(event@),
            step@ matches StepView::Done(Err(failed)) ==> all_failed(failed),
    {
        match cell_get(&self.app_exe) {
            Some(path) => ExeStep::Done(Ok(path.clone())),
            None => {
                let step = self.resolver.step(event, self.dirs.path_env.as_str());
                match step {
                    ExeStep::Done(Ok(path)) => {
                        let _ = cell_set(&mut self.app_exe, path.clone());
                        ExeStep::Done(Ok(path))
                    },
                    other => other,
                }
            },
        }
    }

    /// The handle to the user interface.
    pub fn ui(&self) -> (ui: &U)
        ensures
            *ui == self@.ui,
    {
        &self.ui
    }

    /// The time that the context has existed, `now` being the current
    /// reading of the clock that [`Config::init`] was given a reading of.
    pub fn elapsed_time(&self, now: u64) -> (elapsed: u64)
        ensures
            elapsed == self@.elapsed(now),
    {
        if now >= self.creation_time {
            now - self.creation_time
        } else {
            0
        }
    }

    /// The handle of the lock over the package cache.
    ///
    /// Hand in [`LockEvent::Query`] to ask for it. The answer is the handle,
    /// if the context holds one; otherwise it is the request from which to
    /// make one, and the outcome of that is handed in with the next call. A
    /// handle, once held, is the answer to every call. A failure is passed
    /// on and not kept: the next query is answered with the request again.
    pub fn package_cache_lock<'a>(&'a mut self, event: LockEvent<L>) -> (step: LockStep<'a, L>)
        ensures
            (final(self)@, step@) == old(self)@.lock_step(event@),
    {
        if self.package_cache_lock.is_none() {
            match event {
                LockEvent::Query => {
                    return LockStep::Acquire(
                        LockRequest {
                            dirs: share(&self.dirs),
                            name: ".package-cache.lock".to_owned(),
                            label: "package cache".to_owned(),
                        },
                    );
                },
                LockEvent::Acquired(handle) => {
                    self.package_cache_lock = Some(handle);
                },
                LockEvent::Failed(cause) => {
                    return LockStep::Failed(LockError { cause });
                },
            }
        }
        LockStep::Ready(self.package_cache_lock.as_ref().unwrap())
    }

    /// Whether the tool is to stay off the network.
    ///
    /// To find out whether the network may be used, ask
    /// [`Config::network_allowed`].
    pub fn offline(&self) -> (offline: bool)
        ensures
            offline == self@.offline,
    {
        self.offline
    }

    /// Sets the offline flag, whatever it was before.
    pub fn set_offline(&mut self, offline: bool)
        ensures
            final(self)@ == old(self)@.with_offline(offline),
    {
        self.offline = offline;
    }

    /// Whether the tool may use the network. Where it may not, it goes on
    /// with what it can do without.
    pub fn network_allowed(&self) -> (allowed: bool)
        ensures
            allowed == self@.network_allowed(),
    {
        !self.offline()
    }
}

/// The path of the executable is found once: a context that knows it gives
/// the same path in answer to every event, stays as it is, and asks for no
/// probe.
pub proof fn lemma_app_exe_is_stable<U, L>(config: ConfigView<U, L>, path: Seq<char>, event: EventView)
    requires
        config.app_exe == Some(path),
    ensures
        config.exe_step(event) == (config, StepView::Done(Ok(path))),
{
}

/// The path that one call ends on is the answer to the call after it.
pub proof fn lemma_app_exe_twice<U, L>(
    config: ConfigView<U, L>,
    first: EventView,
    second: EventView,
    path: Seq<char>,
)
    requires
        config.exe_step(first).1 == StepView::Done(Ok(path)),
    ensures
        config.exe_step(first).0.exe_step(second) == (
            config.exe_step(first).0,
            StepView::Done(Ok(path)),
        ),
{
}

/// The handle of the lock is made once: the handle that one call hands out
/// is handed out by the call after it, whatever that call is told, and no
/// request for another is made.
pub proof fn lemma_package_cache_lock_twice<U, L>(
    config: ConfigView<U, L>,
    first: LockEventView<L>,
    second: LockEventView<L>,
    handle: L,
)
    requires
        config.lock_step(first).1 == LockStepView::Ready(handle),
    ensures
        config.lock_step(first).0.lock_step(second) == (
            config.lock_step(first).0,
            LockStepView::Ready(handle),
        ),
{
}

/// The network may be used exactly when the offline flag, as it was last
/// set, is off.
pub proof fn lemma_set_offline_decides_network<U, L>(config: ConfigView<U, L>, offline: bool)
    ensures
        config.with_offline(offline).network_allowed() == !offline,
{
}

/// The time that a context has existed does not go down from one reading of
/// the clock to a later one.
pub proof fn lemma_elapsed_is_monotonic<U, L>(config: ConfigView<U, L>, earlier: u64, later: u64)
    requires
        earlier <= later,
    ensures
        config.elapsed(earlier) <= config.elapsed(later),
{
}

} // verus!
