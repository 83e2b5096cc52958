pub mod error;
pub mod remote;
pub mod service_map;
mod task_thread;

use vstd::prelude::*;

use std::sync::atomic::AtomicI32;
use std::sync::Arc;

use crate::error::Error;
use crate::error::OK_STATUS;
use crate::service_map::ServiceMap;
use crate::task_thread::Task;
use crate::task_thread::TaskThread;

verus! {

/// The errors a pipeline call can resolve to: an I/O-category failure, or
/// the remote's own non-success status, never a cache or lookup error.
pub open spec fn dump_errors_only(r: Result<String, Error>) -> bool {
    r matches Err(e) ==> (e is IO || (e matches Error::DumpStatus(c) && c != OK_STATUS))
}

/// Resolve the outcome of one dump request: the text drained from the pipe,
/// joined with the status code read from the shared cell after end-of-stream.
/// A non-success status is authoritative: the call fails with exactly that
/// code and the text, even if partially written, is discarded, never treated
/// as success.
pub fn resolve_dump_status(text: String, status: i32) -> (r: Result<String, Error>)
    ensures
        status == OK_STATUS ==> r == Ok::<String, Error>(text),
        status != OK_STATUS ==> r == Err::<String, Error>(Error::DumpStatus(status)),
{
    if status == OK_STATUS {
        Ok(text)
    } else {
        Err(Error::DumpStatus(status))
    }
}

/// Resolve a name through the external lookup collaborator, without
/// blocking. `None` when the runtime is unavailable, the service manager is
/// unreachable, or the service is not currently registered.
fn lookup_service(name: &str) -> Option<rsbinder::SIBinder> {
    if remote::runtime_initialized() {
        remote::check_service(name)
    } else {
        None
    }
}

/// The caller's arguments as the owned sequence a task carries: equal to
/// them element for element, in order, nothing added, dropped or reordered.
pub fn to_dump_args(args: &[&str]) -> (r: Vec<String>)
    ensures
        r@.len() == args@.len(),
        forall|j: int| 0 <= j < args@.len() ==> r@[j]@ == args@[j]@,
{
    let n = args.len();
    let mut dump_args: Vec<String> = Vec::new();
    let mut i: usize = 0;
    while i < n
        invariant
            0 <= i <= n,
            n == args@.len(),
            dump_args@.len() == i,
            forall|j: int| 0 <= j < i ==> dump_args@[j]@ == args@[j]@,
        decreases n - i,
    {
        dump_args.push(args[i].to_owned());
        i = i + 1;
    }
    dump_args
}

/// Bridge one synchronous dump request to the worker: open a fresh pipe and
/// a success-initialized status cell, submit the task carrying exactly the
/// caller's arguments, drain the read end to end-of-stream, then resolve the
/// accumulated text against the status cell.
fn dump_inner(task_thread: &TaskThread, service: rsbinder::SIBinder, args: &[&str]) -> (r: Result<
    String,
    Error,
>)
    ensures
        dump_errors_only(r),
{
    let pipe = match remote::new_pipe() {
        Ok(p) => p,
        Err(e) => {
            return Err(Error::IO(e));
        },
    };
    let reader = pipe.0;
    let writer = pipe.1;

    let status = Arc::new(AtomicI32::new(OK_STATUS));

    let dump_args = to_dump_args(args);

    let cell = remote::share_status_cell(&status);
    let task = Task { args: dump_args, writer, service, status: cell };
    match task_thread.send(task) {
        Ok(()) => {
        },
        Err(_) => {
            return Err(Error::IO(remote::worker_gone_error()));
        },
    }

    let mut buf = String::new();
    match remote::drain_pipe(reader, &mut buf) {
        Ok(_) => {
        },
        Err(e) => {
            return Err(Error::IO(e));
        },
    }

    let code = remote::load_status(&status);
    resolve_dump_status(buf, code)
}

/// One-shot dump: resolve the name through the external lookup collaborator
/// (without blocking), run one pipeline call against a worker of its own,
/// and return the dump text. Fails with `ServiceNotExist` when the service
/// is not registered, otherwise only with a pipeline outcome.
pub fn dump(service_name: &str, args: &[&str]) -> (r: Result<String, Error>)
    ensures
        r matches Err(e) ==> (e is ServiceNotExist || e is IO || (e matches Error::DumpStatus(c)
            && c != OK_STATUS)),
{
    let _ = remote::init_runtime();

    let task_thread = TaskThread::spawn();

    let service = match lookup_service(service_name) {
        Some(s) => s,
        None => {
            return Err(Error::ServiceNotExist);
        },
    };

    dump_inner(&task_thread, service, args)
}

/// A single retrieved existing service, bound at construction time to its
/// own dedicated worker; every dump reuses both.
pub struct BoundDumpsys {
    service: rsbinder::SIBinder,
    task_thread: TaskThread,
}

impl BoundDumpsys {
    /// Retrieve an existing service, without blocking, and retain it for
    /// dumping. Fails with `ServiceNotExist` exactly when the lookup fails.
    pub fn new(service_name: &str) -> (r: Result<BoundDumpsys, Error>)
        ensures
            r matches Err(e) ==> e is ServiceNotExist,
    {
        let _ = remote::init_runtime();

        let service = match lookup_service(service_name) {
            Some(s) => s,
            None => {
                return Err(Error::ServiceNotExist);
            },
        };

        Ok(BoundDumpsys { service, task_thread: TaskThread::spawn() })
    }

    /// Dump the bound service with the given arguments.
    pub fn dump(&self, args: &[&str]) -> (r: Result<String, Error>)
        ensures
            dump_errors_only(r),
    {
        dump_inner(&self.task_thread, remote::clone_handle(&self.service), args)
    }
}

/// A cache of retrieved existing services, keyed by name, with one dedicated
/// worker shared by all of them. Dropping it closes the worker's queue and
/// the background thread exits on its own.
pub struct Dumpsys {
    map: ServiceMap<rsbinder::SIBinder>,
    task_thread: TaskThread,
}

impl View for Dumpsys {
    type V = Map<Seq<char>, rsbinder::SIBinder>;

    /// The cache seen as the mapping from service names to retained handles.
    closed spec fn view(&self) -> Map<Seq<char>, rsbinder::SIBinder> {
        self.map@
    }
}

impl Dumpsys {
    /// Well-formedness of the name-to-handle cache; established by `new` and
    /// preserved by every method.
    pub closed spec fn wf(&self) -> bool {
        self.map.wf()
    }

    /// An empty cache with a dedicated worker. Never fails.
    pub fn new() -> (r: Result<Dumpsys, Error>)
        ensures
            r matches Ok(d) && d.wf() && d@ == Map::<Seq<char>, rsbinder::SIBinder>::empty(),
    {
        let _ = remote::init_runtime();

        Ok(Dumpsys { map: ServiceMap::new(), task_thread: TaskThread::spawn() })
    }

    /// Resolve the name through the external lookup collaborator, without
    /// blocking, and cache the handle under it, replacing any prior entry.
    /// Reports whether a prior entry was replaced; a failed lookup fails
    /// with `ServiceNotExist` and leaves the cache unchanged.
    pub fn insert_service(&mut self, service_name: &str) -> (r: Result<bool, Error>)
        requires
            old(self).wf(),
        ensures
            final(self).wf(),
            r matches Ok(replaced) ==> (replaced == old(self)@.contains_key(service_name@)
                && final(self)@ == old(self)@.insert(service_name@, final(self)@[service_name@])),
            r matches Err(e) ==> (e is ServiceNotExist && final(self)@ == old(self)@),
    {
        let service = match lookup_service(service_name) {
            Some(s) => s,
            None => {
                return Err(Error::ServiceNotExist);
            },
        };

        let replaced = self.map.insert(service_name.to_owned(), service);
        Ok(replaced)
    }

    /// Evict the name, transferring the retained handle out. Fails with
    /// `NoEntryFound` exactly when the name is not cached, leaving the cache
    /// as it was.
    pub fn remove_service(&mut self, service_name: &str) -> (r: Result<rsbinder::SIBinder, Error>)
        requires
            old(self).wf(),
        ensures
            final(self).wf(),
            old(self)@.contains_key(service_name@) ==> (r matches Ok(h) && h == old(
                self,
            )@[service_name@] && final(self)@ == old(self)@.remove(service_name@)),
            !old(self)@.contains_key(service_name@) ==> (r matches Err(e) && e is NoEntryFound
                && final(self)@ == old(self)@),
    {
        let key = service_name.to_owned();
        match self.map.remove(&key) {
            Some(h) => Ok(h),
            None => Err(Error::NoEntryFound),
        }
    }

    /// Dump the named cached service. Fails with `NoEntryFound` exactly when
    /// the name is not cached — dumping never inserts — and otherwise runs
    /// the pipeline against the cached handle, never changing the cache.
    pub fn dump(&mut self, service_name: &str, args: &[&str]) -> (r: Result<String, Error>)
        requires
            old(self).wf(),
        ensures
            final(self).wf(),
            final(self)@ == old(self)@,
            (r matches Err(e) && e is NoEntryFound) <==> !old(self)@.contains_key(service_name@),
            r matches Err(e) ==> (e is NoEntryFound || e is IO || (e matches Error::DumpStatus(c)
                && c != OK_STATUS)),
    {
        let key = service_name.to_owned();
        let service = match self.map.get(&key) {
            Some(s) => remote::clone_handle(s),
            None => {
                return Err(Error::NoEntryFound);
            },
        };

        dump_inner(&self.task_thread, service, args)
    }
}

/// Law: a fresh cache holds no names, so by the contract of `Dumpsys::dump`
/// (and of `remove_service`) any name used against it, whatever the
/// arguments, fails with `NoEntryFound`.
pub proof fn lemma_fresh_cache_misses(name: Seq<char>)
    ensures
        !Map::<Seq<char>, rsbinder::SIBinder>::empty().contains_key(name),
{
}

/// Law: inserting a name that is already cached is a replacement — the entry
/// reports as present — and the cache afterwards carries the newer handle,
/// which is the one `Dumpsys::dump` then resolves the name to.
pub proof fn lemma_reinsert_replaces(
    m: Map<Seq<char>, rsbinder::SIBinder>,
    name: Seq<char>,
    first: rsbinder::SIBinder,
    second: rsbinder::SIBinder,
)
    ensures
        m.insert(name, first).contains_key(name),
        m.insert(name, first).insert(name, second) == m.insert(name, second),
        m.insert(name, second)[name] == second,
{
    assert(m.insert(name, first).insert(name, second) =~= m.insert(name, second));
}

/// Law: removing a name leaves it absent, so by the contracts of
/// `Dumpsys::dump` and `Dumpsys::remove_service` a subsequent dump or
/// removal of that name fails with `NoEntryFound`.
pub proof fn lemma_removed_name_absent(m: Map<Seq<char>, rsbinder::SIBinder>, name: Seq<char>)
    ensures
        !m.remove(name).contains_key(name),
{
}

}
