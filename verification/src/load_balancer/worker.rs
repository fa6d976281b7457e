use crate::text::{decimal, push_decimal};
use vstd::prelude::*;

verus! {

/// Where a worker stands in its life cycle.
#[derive(Clone, Copy, Debug, PartialEq, Eq, Structural)]
pub enum WorkerStatus {
    Running,
    Closing,
    Closed,
    Unknown,
}

/// The name under which a status is shown.
pub open spec fn status_name(s: WorkerStatus) -> Seq<char> {
    match s {
        WorkerStatus::Running => "Running"@,
        WorkerStatus::Closing => "Closing"@,
        WorkerStatus::Closed => "Closed"@,
        WorkerStatus::Unknown => "Unknown"@,
    }
}

impl WorkerStatus {
    /// The display name of the status.
    pub fn name(&self) -> (s: &'static str)
        ensures
            s@ == status_name(*self),
    {
        match self {
            WorkerStatus::Running => "Running",
            WorkerStatus::Closing => "Closing",
            WorkerStatus::Closed => "Closed",
            WorkerStatus::Unknown => "Unknown",
        }
    }
}

/// A backend worker of the pool. `handle` stands for what reaches the
/// worker's process (its child process and HTTP client); the pool only
/// carries it along.
pub struct Worker<H> {
    pub name: String,
    pub status: WorkerStatus,
    pub port: u16,
    pub num_threads: u8,
    pub handle: H,
}

impl<H> Worker<H> {
    /// A running worker on `port` with `num_threads` threads.
    pub fn new(name: String, port: u16, num_threads: u8, handle: H) -> (w: Self)
        ensures
            w == (Worker { name, status: WorkerStatus::Running, port, num_threads, handle }),
    {
        Worker { name, status: WorkerStatus::Running, port, num_threads, handle }
    }

    /// Whether the worker takes requests.
    pub fn is_running(&self) -> (r: bool)
        ensures
            r == (self.status == WorkerStatus::Running),
    {
        self.status == WorkerStatus::Running
    }

    /// Marks the worker as closing: it takes no more requests and is shut
    /// down once no request holds it.
    pub fn close(&mut self)
        ensures
            *final(self) == (Worker { status: WorkerStatus::Closing, ..*old(self) }),
    {
        self.status = WorkerStatus::Closing;
    }
}

/// The arguments with which a worker process is started.
pub open spec fn worker_args_spec(port: u16, num_threads: u8) -> Seq<Seq<char>> {
    seq!["--port"@, decimal(port as nat), "--num-threads"@, decimal(num_threads as nat)]
}

/// The command line arguments of the worker process listening on `port`
/// with `num_threads` threads.
pub fn worker_args(port: u16, num_threads: u8) -> (args: Vec<String>)
    ensures
        args@.len() == 4,
        forall|i: int| 0 <= i < 4 ==> #[trigger] args@[i]@ == worker_args_spec(port, num_threads)[i],
{
    let mut port_text = String::new();
    push_decimal(&mut port_text, port as u64);
    let mut threads_text = String::new();
    push_decimal(&mut threads_text, num_threads as u64);
    let mut args: Vec<String> = Vec::new();
    args.push(String::from_str("--port"));
    args.push(port_text);
    args.push(String::from_str("--num-threads"));
    args.push(threads_text);
    proof {
        assert(Seq::<char>::empty() + decimal(port as nat) =~= decimal(port as nat));
        assert(Seq::<char>::empty() + decimal(num_threads as nat) =~= decimal(num_threads as nat));
    }
    args
}

/// The line written to a worker's standard input to make it shut down.
pub fn shutdown_command() -> (s: &'static str)
    ensures
        s@ == "shutdown\n"@,
{
    "shutdown\n"
}

/// A random byte (`rand::random::<u8>`).
#[verifier::external_body]
fn random_byte() -> u8 {
    rand::random::<u8>()
}

/// The thread count of a demonstration worker drawn from the byte `b`.
pub fn thread_count_from_byte(b: u8) -> (n: u8)
    ensures
        n == b % 3 + 1,
        1 <= n <= 3,
{
    b % 3 + 1
}

/// A random thread count between one and three for a demonstration worker.
pub fn random_thread_count() -> (n: u8)
    ensures
        1 <= n <= 3,
{
    thread_count_from_byte(random_byte())
}

} // verus!
