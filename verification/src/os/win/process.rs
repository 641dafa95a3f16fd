//! Processes and their threads, as the system reports them.

use vstd::prelude::*;

verus! {

/// What the system records of one thread.
#[derive(Clone, Debug)]
pub struct ThreadInformation {
    /// The handle that identifies the thread.
    pub unique_thread: usize,
    /// The handle that identifies the thread's process.
    pub unique_process: usize,
    /// The address at which the thread started.
    pub start_address: usize,
    /// The thread's state, as a number.
    pub thread_state: u32,
    /// Why the thread waits, as a number.
    pub wait_reason: u32,
    pub priority: i32,
    pub base_priority: i32,
}

/// What the system records of one process.
#[derive(Clone, Debug)]
pub struct ProcessInformation {
    /// The handle that identifies the process.
    pub unique_process_id: usize,
    /// The name of the process image, in UTF-16.
    pub image_name: Vec<u16>,
}

/// A process, with its threads.
#[derive(Clone)]
pub struct Process {
    process: ProcessInformation,
    threads: Vec<ThreadInformation>,
}

impl Process {
    pub fn new(process: ProcessInformation, threads: Vec<ThreadInformation>) -> (r: Process)
        ensures
            r.information() == process,
            r.thread_list() == threads@,
    {
        Process { process, threads }
    }

    /// What the system records of the process.
    pub closed spec fn information(&self) -> ProcessInformation {
        self.process
    }

    /// What the system records of its threads.
    pub closed spec fn thread_list(&self) -> Seq<ThreadInformation> {
        self.threads@
    }

    /// The low 32 bits of the process handle.
    pub fn id(&self) -> (r: u32)
        ensures
            r == self.information().unique_process_id as u32,
    {
        ProcessImpl::id(&self.process)
    }

    /// The name of the process image, in UTF-16.
    pub fn wide_name(&self) -> (r: &[u16])
        ensures
            r@ == self.information().image_name@,
    {
        ProcessImpl::wide_name(&self.process)
    }

    /// The threads of the process, in order.
    pub fn threads(&self) -> (r: Vec<ThreadS<'_>>)
        ensures
            r@.len() == self.thread_list().len(),
            forall|i: int| 0 <= i < r@.len() ==> #[trigger] r@[i].information() == self.thread_list()[i],
    {
        ProcessImpl::threads(self.threads.as_slice())
    }
}

/// A process, with its threads, borrowed from a list of processes.
#[derive(Clone)]
pub struct ProcessS<'a> {
    process: &'a ProcessInformation,
    threads: &'a [ThreadInformation],
}

impl<'a> ProcessS<'a> {
    pub fn new(process: &'a ProcessInformation, threads: &'a [ThreadInformation]) -> (r: ProcessS<
        'a,
    >)
        ensures
            r.information() == *process,
            r.thread_list() == threads@,
    {
        ProcessS { process, threads }
    }

    /// What the system records of the process.
    pub closed spec fn information(&self) -> ProcessInformation {
        *self.process
    }

    /// What the system records of its threads.
    pub closed spec fn thread_list(&self) -> Seq<ThreadInformation> {
        self.threads@
    }

    /// The low 32 bits of the process handle.
    pub fn id(&self) -> (r: u32)
        ensures
            r == self.information().unique_process_id as u32,
    {
        ProcessImpl::id(self.process)
    }

    /// The name of the process image, in UTF-16.
    pub fn wide_name(&self) -> (r: &[u16])
        ensures
            r@ == self.information().image_name@,
    {
        ProcessImpl::wide_name(self.process)
    }

    /// The threads of the process, in order.
    pub fn threads(&self) -> (r: Vec<ThreadS<'_>>)
        ensures
            r@.len() == self.thread_list().len(),
            forall|i: int| 0 <= i < r@.len() ==> #[trigger] r@[i].information() == self.thread_list()[i],
    {
        ProcessImpl::threads(self.threads)
    }
}

struct ProcessImpl;

impl ProcessImpl {
    fn id(x: &ProcessInformation) -> (r: u32)
        ensures
            r == x.unique_process_id as u32,
    {
        #[verifier::truncate]
        (x.unique_process_id as u32)
    }

    fn wide_name(x: &ProcessInformation) -> (r: &[u16])
        ensures
            r@ == x.image_name@,
    {
        x.image_name.as_slice()
    }

    fn threads(x: &[ThreadInformation]) -> (r: Vec<ThreadS<'_>>)
        ensures
            r@.len() == x@.len(),
            forall|i: int| 0 <= i < r@.len() ==> #[trigger] r@[i].information() == x@[i],
    {
        let mut out: Vec<ThreadS<'_>> = Vec::new();
        let mut i: usize = 0;
        while i < x.len()
            invariant
                i <= x.len(),
                out@.len() == i,
                forall|j: int| 0 <= j < i ==> #[trigger] out@[j].information() == x@[j],
            decreases x.len() - i,
        {
            out.push(ThreadS::new(&x[i]));
            i += 1;
        }
        out
    }
}

/// A thread.
#[derive(Clone)]
pub struct Thread {
    data: ThreadInformation,
}

impl Thread {
    pub fn new(data: ThreadInformation) -> (r: Thread)
        ensures
            r.information() == data,
    {
        Thread { data }
    }

    /// What the system records of the thread.
    pub closed spec fn information(&self) -> ThreadInformation {
        self.data
    }

    /// The low 32 bits of the thread handle.
    pub fn thread_id(&self) -> (r: u32)
        ensures
            r == self.information().unique_thread as u32,
    {
        ThreadImpl::thread_id(&self.data)
    }

    /// The low 32 bits of the handle of the thread's process.
    pub fn process_id(&self) -> (r: u32)
        ensures
            r == self.information().unique_process as u32,
    {
        ThreadImpl::process_id(&self.data)
    }

    /// The address at which the thread started.
    pub fn start_address(&self) -> (r: usize)
        ensures
            r == self.information().start_address,
    {
        ThreadImpl::start_address(&self.data)
    }

    /// The thread's state.
    pub fn thread_state(&self) -> (r: ThreadState)
        ensures
            r == thread_state_of(self.information().thread_state),
    {
        ThreadImpl::thread_state(&self.data)
    }

    /// Why the thread waits.
    pub fn wait_reason(&self) -> (r: ThreadWaitReason)
        ensures
            r == wait_reason_of(self.information().wait_reason),
    {
        ThreadImpl::wait_reason(&self.data)
    }

    /// The thread's priority, its bits read as an unsigned number.
    pub fn priority(&self) -> (r: u32)
        ensures
            r == self.information().priority as u32,
    {
        ThreadImpl::priority(&self.data)
    }

    /// The thread's base priority, its bits read as an unsigned number.
    pub fn base_priority(&self) -> (r: u32)
        ensures
            r == self.information().base_priority as u32,
    {
        ThreadImpl::base_priority(&self.data)
    }

    /// Not recorded: always the empty value.
    pub fn kernel_time(&self) -> (r: ())
        ensures
            r == (),
    {
        ThreadImpl::kernel_time(&self.data)
    }

    /// Not recorded: always the empty value.
    pub fn user_time(&self) -> (r: ())
        ensures
            r == (),
    {
        ThreadImpl::user_time(&self.data)
    }

    /// Not recorded: always the empty value.
    pub fn create_time(&self) -> (r: ())
        ensures
            r == (),
    {
        ThreadImpl::create_time(&self.data)
    }

    /// Not recorded: always the empty value.
    pub fn wait_time(&self) -> (r: ())
        ensures
            r == (),
    {
        ThreadImpl::wait_time(&self.data)
    }

    /// Not recorded: always the empty value.
    pub fn context_switches(&self) -> (r: ())
        ensures
            r == (),
    {
        ThreadImpl::context_switches(&self.data)
    }
}

/// A thread, borrowed from a process.
#[derive(Clone)]
pub struct ThreadS<'a> {
    data: &'a ThreadInformation,
}

impl<'a> ThreadS<'a> {
    pub fn new(data: &'a ThreadInformation) -> (r: ThreadS<'a>)
        ensures
            r.information() == *data,
    {
        ThreadS { data }
    }

    /// What the system records of the thread.
    pub closed spec fn information(&self) -> ThreadInformation {
        *self.data
    }

    /// A thread of its own with the same record.
    pub fn into_thread(self) -> (r: Thread)
        ensures
            r.information() == self.information(),
    {
        Thread::new(
            ThreadInformation {
                unique_thread: self.data.unique_thread,
                unique_process: self.data.unique_process,
                start_address: self.data.start_address,
                thread_state: self.data.thread_state,
                wait_reason: self.data.wait_reason,
                priority: self.data.priority,
                base_priority: self.data.base_priority,
            },
        )
    }

    /// The low 32 bits of the thread handle.
    pub fn thread_id(&self) -> (r: u32)
        ensures
            r == self.information().unique_thread as u32,
    {
        ThreadImpl::thread_id(self.data)
    }

    /// The low 32 bits of the handle of the thread's process.
    pub fn process_id(&self) -> (r: u32)
        ensures
            r == self.information().unique_process as u32,
    {
        ThreadImpl::process_id(self.data)
    }

    /// The address at which the thread started.
    pub fn start_address(&self) -> (r: usize)
        ensures
            r == self.information().start_address,
    {
        ThreadImpl::start_address(self.data)
    }

    /// The thread's state.
    pub fn thread_state(&self) -> (r: ThreadState)
        ensures
            r == thread_state_of(self.information().thread_state),
    {
        ThreadImpl::thread_state(self.data)
    }

    /// Why the thread waits.
    pub fn wait_reason(&self) -> (r: ThreadWaitReason)
        ensures
            r == wait_reason_of(self.information().wait_reason),
    {
        ThreadImpl::wait_reason(self.data)
    }

    /// The thread's priority, its bits read as an unsigned number.
    pub fn priority(&self) -> (r: u32)
        ensures
            r == self.information().priority as u32,
    {
        ThreadImpl::priority(self.data)
    }

    /// The thread's base priority, its bits read as an unsigned number.
    pub fn base_priority(&self) -> (r: u32)
        ensures
            r == self.information().base_priority as u32,
    {
        ThreadImpl::base_priority(self.data)
    }

    /// Not recorded: always the empty value.
    pub fn kernel_time(&self) -> (r: ())
        ensures
            r == (),
    {
        ThreadImpl::kernel_time(self.data)
    }

    /// Not recorded: always the empty value.
    pub fn user_time(&self) -> (r: ())
        ensures
            r == (),
    {
        ThreadImpl::user_time(self.data)
    }

    /// Not recorded: always the empty value.
    pub fn create_time(&self) -> (r: ())
        ensures
            r == (),
    {
        ThreadImpl::create_time(self.data)
    }

    /// Not recorded: always the empty value.
    pub fn wait_time(&self) -> (r: ())
        ensures
            r == (),
    {
        ThreadImpl::wait_time(self.data)
    }

    /// Not recorded: always the empty value.
    pub fn context_switches(&self) -> (r: ())
        ensures
            r == (),
    {
        ThreadImpl::context_switches(self.data)
    }
}

struct ThreadImpl;

impl ThreadImpl {
    fn thread_id(x: &ThreadInformation) -> (r: u32)
        ensures
            r == x.unique_thread as u32,
    {
        #[verifier::truncate]
        (x.unique_thread as u32)
    }

    fn process_id(x: &ThreadInformation) -> (r: u32)
        ensures
            r == x.unique_process as u32,
    {
        #[verifier::truncate]
        (x.unique_process as u32)
    }

    fn start_address(x: &ThreadInformation) -> (r: usize)
        ensures
            r == x.start_address,
    {
        x.start_address
    }

    fn thread_state(x: &ThreadInformation) -> (r: ThreadState)
        ensures
            r == thread_state_of(x.thread_state),
    {
        ThreadState::from(x.thread_state)
    }

    fn wait_reason(x: &ThreadInformation) -> (r: ThreadWaitReason)
        ensures
            r == wait_reason_of(x.wait_reason),
    {
        ThreadWaitReason::from(x.wait_reason)
    }

    fn priority(x: &ThreadInformation) -> (r: u32)
        ensures
            r == x.priority as u32,
    {
        #[verifier::truncate]
        (x.priority as u32)
    }

    fn base_priority(x: &ThreadInformation) -> (r: u32)
        ensures
            r == x.base_priority as u32,
    {
        #[verifier::truncate]
        (x.base_priority as u32)
    }

    fn kernel_time(_x: &ThreadInformation) -> () {
        ()
    }

    fn user_time(_x: &ThreadInformation) -> () {
        ()
    }

    fn create_time(_x: &ThreadInformation) -> () {
        ()
    }

    fn wait_time(_x: &ThreadInformation) -> () {
        ()
    }

    fn context_switches(_x: &ThreadInformation) -> () {
        ()
    }
}

/// The state of a thread.
#[derive(Debug, Clone, Copy, PartialEq, Eq, PartialOrd, Ord, Hash)]
pub enum ThreadState {
    /// Thread has been initialized, but has not started yet.
    Initialized,
    /// Thread is in ready state.
    Ready,
    /// Thread is running.
    Running,
    /// Thread is in standby state.
    Standby,
    /// Thread has exited.
    Terminated,
    /// Thread is waiting.
    Wait,
    /// Thread is transitioning between states.
    Transition,
    /// Thread state is unknown.
    Unknown(u32),
}

/// The state that the system's number `value` stands for: 0 to 6 are
/// the known states in order, every other number is unknown and kept.
pub open spec fn thread_state_of(value: u32) -> ThreadState {
    match value {
        0 => ThreadState::Initialized,
        1 => ThreadState::Ready,
        2 => ThreadState::Running,
        3 => ThreadState::Standby,
        4 => ThreadState::Terminated,
        5 => ThreadState::Wait,
        6 => ThreadState::Transition,
        x => ThreadState::Unknown(x),
    }
}

impl From<u32> for ThreadState {
    fn from(value: u32) -> (r: ThreadState)
        ensures
            r == thread_state_of(value),
    {
        match value {
            0 => ThreadState::Initialized,
            1 => ThreadState::Ready,
            2 => ThreadState::Running,
            3 => ThreadState::Standby,
            4 => ThreadState::Terminated,
            5 => ThreadState::Wait,
            6 => ThreadState::Transition,
            x => ThreadState::Unknown(x),
        }
    }
}

impl vstd::std_specs::convert::FromSpecImpl<u32> for ThreadState {
    open spec fn obeys_from_spec() -> bool {
        true
    }

    open spec fn from_spec(value: u32) -> ThreadState {
        thread_state_of(value)
    }
}

/// The reason for which a thread waits.
#[derive(Debug, Clone, Copy, PartialEq, Eq, PartialOrd, Ord, Hash)]
pub enum ThreadWaitReason {
    /// Thread is waiting for the scheduler.
    Executive,
    /// Thread is waiting for a free virtual memory page.
    FreePage,
    /// Thread is waiting for a virtual memory page to arrive in memory.
    PageIn,
    /// Thread is waiting for a system allocation.
    SystemAllocation,
    /// Thread execution is delayed.
    ExecutionDelay,
    /// Thread execution is suspended.
    Suspended,
    /// Thread is waiting for a user request.
    UserRequest,
    /// Thread is waiting for event pair high.
    EventPairHigh,
    /// Thread is waiting for event pair low.
    EventPairLow,
    /// Thread is waiting for a local procedure call to arrive.
    LpcReceive,
    /// Thread is waiting for reply to a local procedure call to arrive.
    LpcReply,
    /// Thread is waiting for virtual memory.
    VirtualMemory,
    /// Thread is waiting for a virtual memory page to be written to disk.
    PageOut,
    /// Thread is waiting for an unknown reason.
    Unknown(u32),
}

/// The reason that the system's number `value` stands for. The first
/// seven reasons each have two numbers, seven apart; every number from 20
/// on is unknown and kept.
pub open spec fn wait_reason_of(value: u32) -> ThreadWaitReason {
    match value {
        0 | 7 => ThreadWaitReason::Executive,
        1 | 8 => ThreadWaitReason::FreePage,
        2 | 9 => ThreadWaitReason::PageIn,
        3 | 10 => ThreadWaitReason::SystemAllocation,
        4 | 11 => ThreadWaitReason::ExecutionDelay,
        5 | 12 => ThreadWaitReason::Suspended,
        6 | 13 => ThreadWaitReason::UserRequest,
        14 => ThreadWaitReason::EventPairHigh,
        15 => ThreadWaitReason::EventPairLow,
        16 => ThreadWaitReason::LpcReceive,
        17 => ThreadWaitReason::LpcReply,
        18 => ThreadWaitReason::VirtualMemory,
        19 => ThreadWaitReason::PageOut,
        x => ThreadWaitReason::Unknown(x),
    }
}

impl From<u32> for ThreadWaitReason {
    fn from(value: u32) -> (r: ThreadWaitReason)
        ensures
            r == wait_reason_of(value),
    {
        match value {
            0 | 7 => ThreadWaitReason::Executive,
            1 | 8 => ThreadWaitReason::FreePage,
            2 | 9 => ThreadWaitReason::PageIn,
            3 | 10 => ThreadWaitReason::SystemAllocation,
            4 | 11 => ThreadWaitReason::ExecutionDelay,
            5 | 12 => ThreadWaitReason::Suspended,
            6 | 13 => ThreadWaitReason::UserRequest,
            14 => ThreadWaitReason::EventPairHigh,
            15 => ThreadWaitReason::EventPairLow,
            16 => ThreadWaitReason::LpcReceive,
            17 => ThreadWaitReason::LpcReply,
            18 => ThreadWaitReason::VirtualMemory,
            19 => ThreadWaitReason::PageOut,
            x => ThreadWaitReason::Unknown(x),
        }
    }
}

impl vstd::std_specs::convert::FromSpecImpl<u32> for ThreadWaitReason {
    open spec fn obeys_from_spec() -> bool {
        true
    }

    open spec fn from_spec(value: u32) -> ThreadWaitReason {
        wait_reason_of(value)
    }
}

} // verus!
