//! The dispatcher and its workers.
//!
//! Spawning and joining operating-system threads is outside work that this
//! library cannot perform itself, so the pool is built around two hand-offs:
//! `ThreadPool::new` invokes a caller-supplied spawner once per worker (the
//! caller's spawner starts a thread repeating [`worker_step`] until it says
//! to stop, and returns the thread's handle), and
//! [`ThreadPool::shutdown`] hands every not-yet-surrendered
//! handle back — each exactly once — for the caller to join. Everything in
//! between — the channel, the dispatch of work, the worker loop itself, and
//! the stop-and-join bookkeeping — is verified here.

use vstd::prelude::*;
use crate::channel;
use std::sync::Arc;
use std::sync::Mutex;
use std::sync::mpsc::Receiver;
use std::sync::mpsc::Sender;

verus! {

/// A one-shot unit of work: consumed by the call, so it can run at most
/// once. The pool moves it to a worker thread and invokes it there.
pub trait WorkItem: Sized {
    fn run(self);
}

/// What travels on the internal channel: either one unit of work for
/// whichever worker dequeues next, or the instruction to shut one
/// worker down.
pub enum Message<W> {
    NewWork(W),
    Stop,
}

/// The shared receiving end of the pool's channel: one receiver, guarded by
/// a lock so that exactly one worker dequeues any given message.
pub type SharedReceiver<W> = Arc<Mutex<Receiver<Message<W>>>>;

/// One worker: its numeric identity and, until it has been surrendered for
/// joining, the handle of its thread. The ghost counter records how often
/// the handle has been given out.
struct Worker<H> {
    id: usize,
    handle: Option<H>,
    surrenders: Ghost<nat>,
}

impl<H> Worker<H> {
    /// A live worker still holds its thread handle.
    spec fn live(&self) -> bool {
        self.handle is Some
    }

    /// A worker's handle is surrendered exactly when the handle is gone,
    /// and never more than once.
    spec fn wf(&self) -> bool {
        self.surrenders@ == if self.live() {
            0nat
        } else {
            1nat
        }
    }
}

/// What a worker does with what the dequeue handed it: run one unit of
/// work and keep going, or terminate.
pub enum WorkerAction<W> {
    Run(W),
    Terminate,
}

/// The worker's whole state machine: running until told to stop. Exactly
/// the work inside a dequeued message is run, and nothing else ever is;
/// the worker terminates on a stop message, and also once the channel can
/// deliver nothing further, which only happens after the pool itself — the
/// holder of the sending end — is gone.
pub fn decide<W>(next: Option<Message<W>>) -> (action: WorkerAction<W>)
    ensures
        match next {
            Some(Message::NewWork(work)) => action == WorkerAction::Run(work),
            Some(Message::Stop) => action == WorkerAction::<W>::Terminate,
            None => action == WorkerAction::<W>::Terminate,
        },
{
    match next {
        Some(Message::NewWork(work)) => WorkerAction::Run(work),
        Some(Message::Stop) => WorkerAction::Terminate,
        None => WorkerAction::Terminate,
    }
}

/// One turn of a worker: acquire exclusive access to the shared receiving
/// end, block for the next message, release the lock, and act as [`decide`]
/// says. A unit of work is invoked exactly once, on the calling thread,
/// outside the lock, so other workers dequeue concurrently with its
/// execution. Returns true while the worker is to keep running; false when
/// it has terminated. A worker thread is this step, repeated until it says
/// to stop.
pub fn worker_step<W: WorkItem>(receiver: &SharedReceiver<W>) -> bool {
    let next = channel::recv_message(&**receiver);
    match decide(next) {
        WorkerAction::Run(work) => {
            work.run();
            true
        },
        WorkerAction::Terminate => false,
    }
}

/// A fixed-size pool of workers fed through one shared channel. `W` is the
/// type of the work items; `H` is the caller's thread-handle type, opaque
/// to the pool. The size is fixed at construction; the sending end stays
/// valid for the pool's whole lifetime.
#[verifier::reject_recursive_types(W)]
pub struct ThreadPool<W, H> {
    workers: Vec<Worker<H>>,
    sender: Sender<Message<W>>,
    stops: Ghost<nat>,
}

impl<W: WorkItem + Send + 'static, H> ThreadPool<W, H> {
    /// How many workers the pool was built with.
    pub closed spec fn num_workers(&self) -> nat {
        self.workers@.len()
    }

    /// The handle worker `i` currently holds, if any.
    pub closed spec fn worker_handle(&self, i: int) -> Option<H> {
        self.workers@[i].handle
    }

    /// Whether worker `i` still holds its (never yet surrendered) handle.
    pub open spec fn worker_live(&self, i: int) -> bool {
        self.worker_handle(i) is Some
    }

    /// How many times worker `i`'s handle has been surrendered for joining.
    pub closed spec fn worker_surrenders(&self, i: int) -> nat {
        self.workers@[i].surrenders@
    }

    /// How many stop messages the pool has enqueued so far.
    pub closed spec fn stops_sent(&self) -> nat {
        self.stops@
    }

    /// Well-formed: each worker sits at the position of its own identity,
    /// and its handle has been surrendered exactly once if it is gone,
    /// never while it is still held.
    pub closed spec fn wf(&self) -> bool {
        forall|i: int|
            0 <= i < self.workers@.len() ==> (#[trigger] self.workers@[i]).wf()
                && self.workers@[i].id == i
    }

    /// Build a pool of exactly `size` workers over one fresh channel. The
    /// spawner is invoked exactly once per worker, in order of identity,
    /// each time with its own shared, exclusive-access handle to the
    /// receiving end; it is the caller's one duty to start a thread
    /// repeating [`worker_step`] on that receiver until the step says to
    /// stop, and to return the thread's handle.
    /// A size of zero is a caller error and is ruled out up front.
    pub fn new<F: Fn(SharedReceiver<W>) -> H>(size: usize, spawner: F) -> (pool: ThreadPool<W, H>)
        requires
            size > 0,
            forall|rx: SharedReceiver<W>| #[trigger] spawner.requires((rx,)),
        ensures
            pool.wf(),
            pool.num_workers() == size,
            forall|i: int| 0 <= i < size ==> pool.worker_live(i),
            forall|i: int| 0 <= i < size ==> pool.worker_surrenders(i) == 0,
            pool.stops_sent() == 0,
    {
        let (sender, receiver) = channel::new_channel::<Message<W>>();
        let shared = Arc::new(channel::new_lock(receiver));
        let mut workers: Vec<Worker<H>> = Vec::with_capacity(size);
        let mut id: usize = 0;
        while id < size
            invariant
                id <= size,
                workers@.len() == id,
                forall|rx: SharedReceiver<W>| #[trigger] spawner.requires((rx,)),
                forall|i: int|
                    0 <= i < id ==> (#[trigger] workers@[i]).wf() && workers@[i].id == i
                        && workers@[i].live() && workers@[i].surrenders@ == 0,
            decreases size - id,
        {
            let handle = spawner(shared.clone());
            workers.push(Worker { id, handle: Some(handle), surrenders: Ghost(0nat) });
            id = id + 1;
        }
        ThreadPool { workers, sender, stops: Ghost(0nat) }
    }

    /// Hand one unit of work to the pool. On success the item has been
    /// enqueued and exactly one worker will dequeue it. The call fails only
    /// when every worker thread has already gone away (the receiving end
    /// was dropped), and then the item comes back unchanged.
    pub fn execute(&self, work: W) -> (r: Result<(), W>)
        ensures
            r matches Err(x) ==> x == work,
    {
        match channel::send_message(&self.sender, Message::NewWork(work)) {
            Ok(()) => Ok(()),
            Err(m) => match m {
                Message::NewWork(x) => Err(x),
                Message::Stop => vstd::pervasive::unreached(),
            },
        }
    }

    /// Orderly teardown. First one stop message is enqueued per worker —
    /// exactly `num_workers()` of them, interleaving with any work still
    /// queued. Then every handle not surrendered before is taken out of its
    /// worker, in order of identity, and returned for the caller to join.
    /// No handle is ever given out twice: after the call no worker is live,
    /// a first run on a fully live pool returns every handle in order, and
    /// a second run returns none at all.
    pub fn shutdown(&mut self) -> (handles: Vec<H>)
        requires
            old(self).wf(),
        ensures
            final(self).wf(),
            final(self).num_workers() == old(self).num_workers(),
            final(self).stops_sent() == old(self).stops_sent() + old(self).num_workers(),
            forall|i: int| 0 <= i < final(self).num_workers() ==> !final(self).worker_live(i),
            forall|i: int|
                0 <= i < final(self).num_workers() ==> final(self).worker_surrenders(i) == old(
                    self,
                ).worker_surrenders(i) + (if old(self).worker_live(i) {
                    1nat
                } else {
                    0nat
                }),
            (forall|i: int| 0 <= i < old(self).num_workers() ==> old(self).worker_live(i)) ==> (
            handles@.len() == old(self).num_workers() && forall|i: int|
                0 <= i < handles@.len() ==> old(self).worker_handle(i) == Some(handles@[i])),
            (forall|i: int| 0 <= i < old(self).num_workers() ==> !old(self).worker_live(i))
                ==> handles@.len() == 0,
    {
        let ghost olds: Seq<Worker<H>> = old(self).workers@;
        let num = self.workers.len();
        let mut k: usize = 0;
        while k < num
            invariant
                k <= num,
                self.workers@ == olds,
                num == olds.len(),
                self.stops@ == old(self).stops@ + k,
            decreases num - k,
        {
            let _outcome = channel::send_message(&self.sender, Message::Stop);
            self.stops = Ghost(self.stops@ + 1);
            k = k + 1;
        }
        let mut handles: Vec<H> = Vec::new();
        let mut remaining: Vec<Worker<H>> = Vec::new();
        core::mem::swap(&mut remaining, &mut self.workers);
        let mut j: usize = 0;
        while j < num
            invariant
                j <= num,
                num == olds.len(),
                self.stops@ == old(self).stops@ + num,
                remaining@.len() == num - j,
                self.workers@.len() == j,
                forall|i: int| 0 <= i < num - j ==> remaining@[i] == olds[j + i],
                forall|i: int|
                    0 <= i < j ==> !(#[trigger] self.workers@[i]).live() && self.workers@[i].id
                        == olds[i].id && self.workers@[i].surrenders@ == olds[i].surrenders@ + (
                    if olds[i].live() {
                        1nat
                    } else {
                        0nat
                    }),
                (forall|i: int| 0 <= i < num ==> (#[trigger] olds[i]).live()) ==> (handles@.len()
                    == j && forall|i: int| 0 <= i < j ==> olds[i].handle == Some(handles@[i])),
                (forall|i: int| 0 <= i < num ==> !(#[trigger] olds[i]).live()) ==> handles@.len()
                    == 0,
            decreases num - j,
        {
            let Worker { id, handle, surrenders } = remaining.remove(0);
            let done: Ghost<nat>;
            match handle {
                Some(h) => {
                    handles.push(h);
                    done = Ghost(surrenders@ + 1);
                },
                None => {
                    done = Ghost(surrenders@);
                },
            }
            self.workers.push(Worker { id, handle: None, surrenders: done });
            j = j + 1;
        }
        proof {
            if forall|i: int| 0 <= i < old(self).num_workers() ==> old(self).worker_live(i) {
                assert forall|i: int| 0 <= i < num implies (#[trigger] olds[i]).live() by {
                    assert(old(self).worker_live(i));
                }
            }
            if forall|i: int| 0 <= i < old(self).num_workers() ==> !old(self).worker_live(i) {
                assert forall|i: int| 0 <= i < num implies !(#[trigger] olds[i]).live() by {
                    assert(!old(self).worker_live(i));
                }
            }
        }
        handles
    }
}

/// Law: in a well-formed pool no worker's handle is ever surrendered for
/// joining more than once, and a worker that still holds its handle has
/// never been surrendered — so each worker thread is joined at most once,
/// however often teardown runs.
pub proof fn lemma_join_at_most_once<W: WorkItem + Send + 'static, H>(
    pool: ThreadPool<W, H>,
    i: int,
)
    requires
        pool.wf(),
        0 <= i < pool.num_workers(),
    ensures
        pool.worker_surrenders(i) <= 1,
        pool.worker_live(i) ==> pool.worker_surrenders(i) == 0,
{
}

} // verus!
