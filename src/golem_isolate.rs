use vstd::prelude::*;

use crate::isolate_core::IsolateCore;
use crate::registry::{Dispatcher, OpId, RegisterError};

verus! {

/// Why an isolate could not be made.
#[derive(Debug, Clone, Copy, PartialEq, Eq, Structural)]
pub enum IsolateCreationError {
    /// The script exports no callable `main`.
    NoMain,
    /// The snapshot could not be restored.
    FailedToRestoreSnapshot,
    /// The script did not compile or threw while it ran.
    FailedToCompileCode,
}

/// A script used to initialise an isolate.
#[derive(Debug, Clone, Copy)]
pub struct Script<'a> {
    pub source: &'a str,
    pub filename: &'a str,
}

/// A script that owns its text.
#[derive(Debug, Clone)]
pub struct OwnedScript {
    pub source: String,
    pub filename: String,
}

impl OwnedScript {
    /// Copies the text of `s`.
    pub fn from_script(s: &Script) -> (r: OwnedScript)
        ensures
            r.source@ == s.source@,
            r.filename@ == s.filename@,
    {
        OwnedScript { source: s.source.to_owned(), filename: s.filename.to_owned() }
    }
}

/// The arguments that every JSON operation carries: the promise to settle,
/// if the call is asynchronous.
#[derive(Debug, Clone, Copy, PartialEq, Eq, Structural)]
pub struct AsyncArgs {
    pub promise_id: Option<u64>,
}

impl AsyncArgs {
    pub fn new(promise_id: Option<u64>) -> (r: AsyncArgs)
        ensures
            r.promise_id == promise_id,
    {
        AsyncArgs { promise_id }
    }

    /// A call without a promise to settle is answered synchronously.
    pub fn is_sync(&self) -> (r: bool)
        ensures
            r == self.promise_id is None,
    {
        self.promise_id.is_none()
    }
}

/// A serialized engine heap, captured once and restored many times.
#[derive(Debug, Clone)]
pub struct GolemSnapshot {
    data: Vec<u8>,
}

impl GolemSnapshot {
    pub closed spec fn view(&self) -> Seq<u8> {
        self.data@
    }

    pub fn new(data: Vec<u8>) -> (r: Self)
        ensures
            r@ == data@,
    {
        Self { data }
    }

    /// A snapshot holding a copy of the engine's startup bytes.
    pub fn from_startup_data(startup_data: &[u8]) -> (r: Self)
        ensures
            r@ == startup_data@,
    {
        Self::new(vstd::slice::slice_to_vec(startup_data))
    }

    /// The heap image.
    pub fn as_bytes(&self) -> (r: &[u8])
        ensures
            r@ == self@,
    {
        self.data.as_slice()
    }

    /// A copy of the heap image, for one restore.
    pub fn duplicate(&self) -> (r: Self)
        ensures
            r@ == self@,
    {
        Self::new(vstd::slice::slice_to_vec(self.data.as_slice()))
    }

    /// The size the engine is given with the image: the engine counts it in
    /// an `i32`, so a larger image cannot be restored.
    pub fn startup_size(&self) -> (r: Result<i32, IsolateCreationError>)
        ensures
            self@.len() <= i32::MAX ==> r == Ok::<i32, IsolateCreationError>(self@.len() as i32),
            self@.len() > i32::MAX ==> r == Err::<i32, IsolateCreationError>(
                IsolateCreationError::FailedToRestoreSnapshot,
            ),
    {
        let len = self.data.len();
        if len <= i32::MAX as usize {
            Ok(len as i32)
        } else {
            Err(IsolateCreationError::FailedToRestoreSnapshot)
        }
    }
}

/// Where a new context comes from.
pub enum StartupData<'a> {
    /// A script, run once the context exists.
    Script(Script<'a>),
    /// A heap image to restore.
    Snapshot(&'a [u8]),
    /// Nothing: an empty context.
    Empty,
}

/// The steps that make a new context.
pub struct StartupPlan<'a> {
    /// The script to run once the context exists.
    pub script: Option<Script<'a>>,
    /// The heap image to restore the context from.
    pub snapshot: Option<&'a [u8]>,
    /// Whether the context is made so that its heap can be captured.
    pub record_snapshot: bool,
    /// Whether the guest namespace is installed by hand; a restored image
    /// carries it already.
    pub install_bindings: bool,
}

/// Decides how a context is made from `startup_data`. A context started
/// from a script is made so that its heap can be captured, the script run
/// in it once it exists; one restored from a heap image already carries the
/// guest namespace.
pub fn plan_startup<'a>(startup_data: StartupData<'a>) -> (r: StartupPlan<'a>)
    ensures
        r.record_snapshot == (startup_data is Script),
        r.install_bindings == !(startup_data is Snapshot),
        startup_data is Script ==> r.script == Some(startup_data->Script_0),
        !(startup_data is Script) ==> r.script is None,
        startup_data is Snapshot ==> r.snapshot == Some(startup_data->Snapshot_0),
        !(startup_data is Snapshot) ==> r.snapshot is None,
{
    match startup_data {
        StartupData::Script(script) => StartupPlan {
            script: Some(script),
            snapshot: None,
            record_snapshot: true,
            install_bindings: true,
        },
        StartupData::Snapshot(blob) => StartupPlan {
            script: None,
            snapshot: Some(blob),
            record_snapshot: false,
            install_bindings: false,
        },
        StartupData::Empty => StartupPlan {
            script: None,
            snapshot: None,
            record_snapshot: false,
            install_bindings: true,
        },
    }
}

/// What an isolate was made from: a script, with the heap image captured
/// after running it, or a heap image restored.
pub enum IsolateOrigin {
    Script(GolemSnapshot),
    Snapshot,
}

/// The heap image an isolate keeps: the one captured from its script, and
/// none when it was restored from an image.
pub fn kept_snapshot(origin: IsolateOrigin) -> (r: Option<GolemSnapshot>)
    ensures
        origin matches IsolateOrigin::Script(s) ==> r == Some(s),
        origin is Snapshot ==> r is None,
{
    match origin {
        IsolateOrigin::Script(s) => Some(s),
        IsolateOrigin::Snapshot => None,
    }
}

/// A context proven to export a callable `main`, with its optional `cache`.
/// Fields are dropped in order: `cache`, then `main`, then the context.
pub struct GolemIsolate<H, V, F> {
    cache_handle: Option<F>,
    main_handle: F,
    core_isolate: IsolateCore<H, V>,
    snapshot: Option<GolemSnapshot>,
}

impl<H, V, F> GolemIsolate<H, V, F> {
    pub closed spec fn main_fn(&self) -> F {
        self.main_handle
    }

    pub closed spec fn cache_fn(&self) -> Option<F> {
        self.cache_handle
    }

    pub closed spec fn context(&self) -> IsolateCore<H, V> {
        self.core_isolate
    }

    /// The heap image captured when this isolate was made from a script.
    pub closed spec fn snapshot(&self) -> Option<GolemSnapshot> {
        self.snapshot
    }

    pub open spec fn wf(&self) -> bool {
        self.context().wf()
    }

    /// Makes an isolate once its context is set up: `origin` is what it was
    /// made from, `setup` the outcome of running the script, `main` and
    /// `cache` what the context exports under those names, if callable.
    /// Without a callable `main` nothing is made; the captured heap image is
    /// kept exactly when the isolate was made from a script.
    pub fn try_new<E>(
        origin: IsolateOrigin,
        setup: Result<(), E>,
        core_isolate: IsolateCore<H, V>,
        main: Option<F>,
        cache: Option<F>,
    ) -> (r: Result<Self, IsolateCreationError>)
        requires
            core_isolate.wf(),
        ensures
            setup is Err ==> r == Err::<Self, IsolateCreationError>(
                IsolateCreationError::FailedToCompileCode,
            ),
            setup is Ok && main is None ==> r == Err::<Self, IsolateCreationError>(
                IsolateCreationError::NoMain,
            ),
            setup is Ok && main is Some ==> r is Ok,
            r matches Ok(g) ==> {
                &&& g.wf()
                &&& Some(g.main_fn()) == main
                &&& g.cache_fn() == cache
                &&& g.context() == core_isolate
                &&& origin matches IsolateOrigin::Script(s) ==> g.snapshot() == Some(s)
                &&& origin is Snapshot ==> g.snapshot() is None
            },
    {
        if setup.is_err() {
            return Err(IsolateCreationError::FailedToCompileCode);
        }
        let snapshot = kept_snapshot(origin);
        match main {
            Some(main_handle) => Ok(GolemIsolate {
                cache_handle: cache,
                main_handle,
                core_isolate,
                snapshot,
            }),
            None => Err(IsolateCreationError::NoMain),
        }
    }

    /// Makes an isolate from a restored heap image. The image was captured
    /// from an isolate that had a callable `main`, so the caller has one.
    pub fn new(core_isolate: IsolateCore<H, V>, main: F, cache: Option<F>) -> (r: Self)
        requires
            core_isolate.wf(),
        ensures
            r.wf(),
            r.main_fn() == main,
            r.cache_fn() == cache,
            r.context() == core_isolate,
            r.snapshot() is None,
    {
        GolemIsolate { cache_handle: cache, main_handle: main, core_isolate, snapshot: None }
    }

    /// Takes the heap image captured at creation, if there is one left.
    pub fn take_snapshot(&mut self) -> (r: Option<GolemSnapshot>)
        ensures
            r == old(self).snapshot(),
            final(self).snapshot() is None,
            final(self).main_fn() == old(self).main_fn(),
            final(self).cache_fn() == old(self).cache_fn(),
            final(self).context() == old(self).context(),
    {
        self.snapshot.take()
    }

    pub fn main_handle(&self) -> (r: &F)
        ensures
            *r == self.main_fn(),
    {
        &self.main_handle
    }

    pub fn cache_handle(&self) -> (r: Option<&F>)
        ensures
            self.cache_fn() is None ==> r is None,
            self.cache_fn() matches Some(c) ==> r == Some(&c),
    {
        match &self.cache_handle {
            Some(c) => Some(c),
            None => None,
        }
    }

    pub fn core_isolate(&self) -> (r: &IsolateCore<H, V>)
        ensures
            *r == self.context(),
    {
        &self.core_isolate
    }

    /// The context, for the runtime loop.
    pub fn core_isolate_mut(&mut self) -> (r: &mut IsolateCore<H, V>)
        ensures
            *r == old(self).context(),
            final(self).context() == *final(r),
            final(self).main_fn() == old(self).main_fn(),
            final(self).cache_fn() == old(self).cache_fn(),
            final(self).snapshot() == old(self).snapshot(),
    {
        &mut self.core_isolate
    }

    /// Registers a host operation under `name`; see `OpRegistry::register`.
    pub fn register_op(&mut self, name: &str, handler: H) -> (r: Result<OpId, RegisterError>)
        requires
            old(self).wf(),
        ensures
            final(self).wf(),
            old(self).context().op_names().contains(name@) ==> r == Err::<OpId, RegisterError>(
                RegisterError::AlreadyRegistered,
            ),
            r is Err ==> final(self).context().op_names() == old(self).context().op_names(),
            r matches Ok(id) ==> {
                &&& id == old(self).context().op_names().len()
                &&& final(self).context().op_names() == old(self).context().op_names().push(name@)
                &&& final(self).context().dispatchers() == old(self).context().dispatchers().push(
                    Dispatcher::Handler(handler),
                )
            },
            !old(self).context().op_names().contains(name@) && old(self).context().op_names().len()
                <= u32::MAX ==> r is Ok,
            final(self).main_fn() == old(self).main_fn(),
            final(self).cache_fn() == old(self).cache_fn(),
            final(self).snapshot() == old(self).snapshot(),
    {
        self.core_isolate.register_op(name, handler)
    }

    /// Registers a host operation whose control bytes carry JSON; the
    /// registry treats it as any other.
    pub fn register_json_op(&mut self, name: &str, handler: H) -> (r: Result<OpId, RegisterError>)
        requires
            old(self).wf(),
        ensures
            final(self).wf(),
            old(self).context().op_names().contains(name@) ==> r == Err::<OpId, RegisterError>(
                RegisterError::AlreadyRegistered,
            ),
            r is Err ==> final(self).context().op_names() == old(self).context().op_names(),
            r matches Ok(id) ==> {
                &&& id == old(self).context().op_names().len()
                &&& final(self).context().op_names() == old(self).context().op_names().push(name@)
                &&& final(self).context().dispatchers() == old(self).context().dispatchers().push(
                    Dispatcher::Handler(handler),
                )
            },
            !old(self).context().op_names().contains(name@) && old(self).context().op_names().len()
                <= u32::MAX ==> r is Ok,
            final(self).main_fn() == old(self).main_fn(),
            final(self).cache_fn() == old(self).cache_fn(),
            final(self).snapshot() == old(self).snapshot(),
    {
        self.register_op(name, handler)
    }
}

} // verus!
