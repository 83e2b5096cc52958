use vstd::prelude::*;

use std::io::PipeWriter;
use std::sync::atomic::AtomicI32;
use std::sync::mpsc::SendError;
use std::sync::Arc;

use crate::remote;

verus! {

/// A unit of work for the worker: the ordered argument sequence, the pipe
/// write-end the remote call writes into, the handle of the remote service,
/// and the shared status cell a non-success status is stored into. The
/// status cell is the only field touched after submission, and only by the
/// worker.
pub struct Task {
    pub(crate) args: Vec<String>,
    pub(crate) writer: PipeWriter,
    pub(crate) service: rsbinder::SIBinder,
    pub(crate) status: Arc<AtomicI32>,
}

/// Handle to the single background execution context that serializes all
/// remote dump calls for one client instance. Tasks submitted through it run
/// strictly in submission order, at most one in flight at a time. Dropping
/// the handle closes the queue, which is the shutdown signal: tasks already
/// queued are still processed, then the execution thread terminates on its
/// own.
pub struct TaskThread {
    pool: threadpool::ThreadPool,
}

impl TaskThread {
    /// Create the background execution context and a handle for submission.
    /// Performs no I/O and never fails.
    pub fn spawn() -> (t: TaskThread) {
        TaskThread { pool: remote::new_worker_pool(1) }
    }

    /// Enqueue a task: an asynchronous handoff, not a guarantee of execution
    /// completion. Fails, handing the task back, only when the execution
    /// context is gone; it lives at least as long as this handle, so
    /// submission through a live handle succeeds.
    pub fn send(&self, t: Task) -> (r: Result<(), SendError<Task>>)
        ensures
            r is Ok,
    {
        remote::submit_task(&self.pool, t)
    }
}

/// Execute one task on the worker. A dump against a handle that cannot be
/// used as a callable proxy is abandoned: the write-end is dropped unwritten,
/// so the reader observes immediate end-of-stream rather than hanging. A
/// failed remote call stores its status code in the shared cell. Nothing
/// here panics or stops the worker; a failed task never affects the next.
pub(crate) fn run_task(t: Task) {
    let args = t.args;
    let writer = t.writer;
    let service = t.service;
    let status = t.status;
    match remote::as_proxy(&service) {
        Some(proxy) => {
            match remote::proxy_dump(proxy, writer, &args) {
                Ok(()) => {
                },
                Err(code) => {
                    remote::store_status(&status, code);
                },
            }
        },
        None => {
        },
    }
}

}
