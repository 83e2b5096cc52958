use vstd::prelude::*;

use std::io::PipeReader;
use std::io::PipeWriter;
use std::sync::atomic::AtomicI32;
use std::sync::atomic::Ordering;
use std::sync::mpsc::SendError;
use std::sync::Arc;

verus! {

/// Declares rsbinder's strong remote-handle type: an opaque, reference-counted
/// identifier for a remote service object, immutable once obtained.
#[verifier::external_type_specification]
#[verifier::external_body]
pub struct ExSIBinder(rsbinder::SIBinder);

/// Declares rsbinder's callable proxy type, through which the remote dump
/// call is made; opaque here.
#[verifier::external_type_specification]
#[verifier::external_body]
pub struct ExProxyHandle(rsbinder::ProxyHandle);

/// Declares the standard library's anonymous-pipe read end.
#[verifier::external_type_specification]
#[verifier::external_body]
pub struct ExPipeReader(PipeReader);

/// Declares the standard library's anonymous-pipe write end.
#[verifier::external_type_specification]
#[verifier::external_body]
pub struct ExPipeWriter(PipeWriter);

/// Declares the error a send into a closed channel returns, carrying the
/// unsent value; here only the shape of a failed submission, never built.
#[verifier::external_type_specification]
#[verifier::external_body]
#[verifier::reject_recursive_types(T)]
pub struct ExSendError<T>(SendError<T>);

/// Declares the worker-pool type: a task queue feeding a fixed set of
/// dedicated execution threads, here always exactly one.
#[verifier::external_type_specification]
#[verifier::external_body]
pub struct ExThreadPool(threadpool::ThreadPool);

/// Relies on threadpool::ThreadPool::new: a task queue feeding `n` dedicated
/// execution threads; with one thread, queued jobs run strictly in
/// submission order, at most one at a time. Dropping the pool closes the
/// queue; already-queued jobs are still processed, then the threads exit.
/// It panics on zero threads, which the precondition rules out.
#[verifier::external_body]
pub(crate) fn new_worker_pool(n: usize) -> (r: threadpool::ThreadPool)
    requires
        1 <= n,
{
    threadpool::ThreadPool::new(n)
}

/// Relies on threadpool::ThreadPool::execute: enqueues a job for the worker;
/// it cannot fail while the pool is alive, so the handoff always succeeds.
/// The job only runs the library's own task runner.
#[verifier::external_body]
pub(crate) fn submit_task(pool: &threadpool::ThreadPool, t: crate::task_thread::Task) -> (r:
    Result<(), SendError<crate::task_thread::Task>>)
    ensures
        r is Ok,
{
    pool.execute(move || crate::task_thread::run_task(t));
    Ok(())
}

/// Relies on rsbinder::ProcessState::init_default: idempotent process-wide
/// runtime initialization; reports whether the binder runtime is available.
/// Failures are tolerated by this crate (best-effort initialization).
#[verifier::external_body]
pub(crate) fn init_runtime() -> (r: bool) {
    rsbinder::ProcessState::init_default().is_ok()
}

/// Relies on rsbinder::ProcessState::is_initialized: whether the process-wide
/// runtime has been brought up. Lookups are attempted only when it has been,
/// since the collaborator fails fast on an uninitialized runtime.
#[verifier::external_body]
pub(crate) fn runtime_initialized() -> (r: bool) {
    rsbinder::ProcessState::is_initialized()
}

/// Relies on rsbinder::hub::check_service: returns the named service's
/// handle at once, or `None` when the service is not currently registered or
/// the service manager is unreachable; it never blocks waiting for a service
/// to appear. Called only behind `runtime_initialized`, since it panics on
/// an uninitialized runtime.
#[verifier::external_body]
pub(crate) fn check_service(name: &str) -> (r: Option<rsbinder::SIBinder>) {
    rsbinder::hub::check_service(name)
}

/// Relies on rsbinder's `Clone for SIBinder`: another strong reference to the
/// same remote object, indistinguishable from the input.
#[verifier::external_body]
pub(crate) fn clone_handle(h: &rsbinder::SIBinder) -> (r: rsbinder::SIBinder)
    ensures
        r == *h,
{
    h.clone()
}

/// Relies on rsbinder's `dyn IBinder::as_proxy`: the handle's callable proxy
/// interface, or `None` when the handle cannot currently be used as one.
#[verifier::external_body]
pub(crate) fn as_proxy(h: &rsbinder::SIBinder) -> (r: Option<&rsbinder::ProxyHandle>) {
    h.as_proxy()
}

/// Relies on rsbinder's ProxyHandle::dump: hands the pipe write-end and the
/// argument sequence to the remote object, which writes its dump text into
/// the pipe and closes it; returns only after the remote has finished. A
/// non-success status comes back as the collaborator's own integer code,
/// through its conversion that maps success to 0.
#[verifier::external_body]
pub(crate) fn proxy_dump(
    proxy: &rsbinder::ProxyHandle,
    writer: PipeWriter,
    args: &Vec<String>,
) -> (r: Result<(), i32>) {
    proxy.dump(writer, args.as_slice()).map_err(i32::from)
}

/// Relies on std::io::pipe: a fresh anonymous pipe; bytes written into the
/// write-end appear at the read-end, which reaches end-of-stream once every
/// write-end is closed.
#[verifier::external_body]
pub(crate) fn new_pipe() -> (r: Result<(PipeReader, PipeWriter), std::io::Error>) {
    std::io::pipe()
}

/// Relies on std::io::Read::read_to_string: drains the read end to
/// end-of-stream, appending what was read to `buf` as UTF-8; returns how many
/// bytes were appended, or the first I/O error.
#[verifier::external_body]
pub(crate) fn drain_pipe(reader: PipeReader, buf: &mut String) -> (r: Result<
    usize,
    std::io::Error,
>) {
    let mut reader = reader;
    std::io::Read::read_to_string(&mut reader, buf)
}

/// Relies on std::io::Error::new: an error of the broken-pipe kind, reported
/// when the worker's receiving end is gone.
#[verifier::external_body]
pub(crate) fn worker_gone_error() -> (r: std::io::Error) {
    std::io::Error::new(std::io::ErrorKind::BrokenPipe, "task thread dropped receiver")
}

/// Relies on `Clone for std::sync::Arc`: another reference to the same
/// status cell, indistinguishable from the input.
#[verifier::external_body]
pub(crate) fn share_status_cell(cell: &Arc<AtomicI32>) -> (r: Arc<AtomicI32>)
    ensures
        r == *cell,
{
    cell.clone()
}

/// Relies on std::sync::atomic::AtomicI32::store, relaxed: publishes `code`
/// in the cell. The cell is read only after the pipe reaches end-of-stream,
/// which orders the read after this store. A wrapper rather than a direct
/// call, since nothing specifies reaching the cell through its `Arc`.
#[verifier::external_body]
pub(crate) fn store_status(cell: &Arc<AtomicI32>, code: i32) {
    cell.store(code, Ordering::Relaxed);
}

/// Relies on std::sync::atomic::AtomicI32::load, relaxed: the value the cell
/// holds; unspecified here, since another thread writes it. A wrapper rather
/// than a direct call, since nothing specifies reaching the cell through its
/// `Arc`.
#[verifier::external_body]
pub(crate) fn load_status(cell: &Arc<AtomicI32>) -> (r: i32) {
    cell.load(Ordering::Relaxed)
}

}
