use ari::os::win::com::Iid;
use ari::os::win::process::{
    Process, ProcessInformation, ProcessS, Thread, ThreadInformation, ThreadS, ThreadState,
    ThreadWaitReason,
};
use ari::os::win::version::OsVersion;

#[test]
fn named_versions() {
    assert_eq!(OsVersion::windows_7(), OsVersion::new(6, 1, 0));
    assert_eq!(OsVersion::windows_8(), OsVersion::new(6, 2, 0));
    assert_eq!(OsVersion::windows_8_1(), OsVersion::new(6, 3, 0));
    assert_eq!(OsVersion::windows_10(), OsVersion::new(10, 0, 0));
    let v = OsVersion::new(1, 2, 3);
    assert_eq!((v.major, v.minor, v.build), (1, 2, 3));
}

#[test]
fn versions_are_ordered() {
    assert!(OsVersion::windows_7() < OsVersion::windows_8());
    assert!(OsVersion::windows_8() < OsVersion::windows_8_1());
    assert!(OsVersion::windows_8_1() < OsVersion::windows_10());
    assert!(OsVersion::new(10, 0, 1) > OsVersion::windows_10());
}

#[test]
fn iid_keeps_its_groups() {
    let unknown = Iid::new(0x00000000, 0x0000, 0x0000, [0xc0, 0x00, 0x00, 0x00, 0x00, 0x00, 0x00, 0x46]);
    assert_eq!(unknown.data1, 0);
    assert_eq!(unknown.data4, [0xc0, 0, 0, 0, 0, 0, 0, 0x46]);
    let other = Iid::new(1, 2, 3, [4; 8]);
    assert_eq!((other.data1, other.data2, other.data3), (1, 2, 3));
    assert_ne!(unknown, other);
}

fn record() -> ThreadInformation {
    ThreadInformation {
        unique_thread: 0x1234,
        unique_process: 0x5678,
        start_address: 0x7ff0_0000,
        thread_state: 5,
        wait_reason: 13,
        priority: 8,
        base_priority: -2,
    }
}

#[test]
fn thread_getters() {
    let thread = Thread::new(record());
    assert_eq!(thread.thread_id(), 0x1234);
    assert_eq!(thread.process_id(), 0x5678);
    assert_eq!(thread.start_address(), 0x7ff0_0000);
    assert_eq!(thread.thread_state(), ThreadState::Wait);
    assert_eq!(thread.wait_reason(), ThreadWaitReason::UserRequest);
    assert_eq!(thread.priority(), 8);
    assert_eq!(thread.base_priority(), 0xffff_fffe);
    assert_eq!(thread.kernel_time(), ());
    assert_eq!(thread.user_time(), ());
    assert_eq!(thread.create_time(), ());
    assert_eq!(thread.wait_time(), ());
    assert_eq!(thread.context_switches(), ());
}

#[test]
fn borrowed_thread_getters() {
    let data = record();
    let thread = ThreadS::new(&data);
    assert_eq!(thread.thread_id(), 0x1234);
    assert_eq!(thread.process_id(), 0x5678);
    assert_eq!(thread.start_address(), 0x7ff0_0000);
    assert_eq!(thread.thread_state(), ThreadState::Wait);
    assert_eq!(thread.wait_reason(), ThreadWaitReason::UserRequest);
    assert_eq!(thread.priority(), 8);
    assert_eq!(thread.base_priority(), 0xffff_fffe);
    assert_eq!(thread.kernel_time(), ());
    assert_eq!(thread.user_time(), ());
    assert_eq!(thread.create_time(), ());
    assert_eq!(thread.wait_time(), ());
    assert_eq!(thread.context_switches(), ());
    let owned = thread.into_thread();
    assert_eq!(owned.thread_id(), 0x1234);
    assert_eq!(owned.base_priority(), 0xffff_fffe);
}

#[test]
fn ids_are_the_low_half_of_a_handle() {
    let mut data = record();
    data.unique_thread = usize::MAX;
    data.unique_process = usize::MAX - 1;
    let thread = Thread::new(data);
    assert_eq!(thread.thread_id(), u32::MAX);
    assert_eq!(thread.process_id(), u32::MAX - 1);
}

#[test]
fn thread_states() {
    assert_eq!(ThreadState::from(0), ThreadState::Initialized);
    assert_eq!(ThreadState::from(1), ThreadState::Ready);
    assert_eq!(ThreadState::from(2), ThreadState::Running);
    assert_eq!(ThreadState::from(3), ThreadState::Standby);
    assert_eq!(ThreadState::from(4), ThreadState::Terminated);
    assert_eq!(ThreadState::from(5), ThreadState::Wait);
    assert_eq!(ThreadState::from(6), ThreadState::Transition);
    assert_eq!(ThreadState::from(7), ThreadState::Unknown(7));
    assert_eq!(ThreadState::from(u32::MAX), ThreadState::Unknown(u32::MAX));
}

#[test]
fn wait_reasons() {
    let twice = [
        ThreadWaitReason::Executive,
        ThreadWaitReason::FreePage,
        ThreadWaitReason::PageIn,
        ThreadWaitReason::SystemAllocation,
        ThreadWaitReason::ExecutionDelay,
        ThreadWaitReason::Suspended,
        ThreadWaitReason::UserRequest,
    ];
    for (i, reason) in twice.iter().enumerate() {
        assert_eq!(ThreadWaitReason::from(i as u32), *reason);
        assert_eq!(ThreadWaitReason::from(i as u32 + 7), *reason);
    }
    assert_eq!(ThreadWaitReason::from(14), ThreadWaitReason::EventPairHigh);
    assert_eq!(ThreadWaitReason::from(15), ThreadWaitReason::EventPairLow);
    assert_eq!(ThreadWaitReason::from(16), ThreadWaitReason::LpcReceive);
    assert_eq!(ThreadWaitReason::from(17), ThreadWaitReason::LpcReply);
    assert_eq!(ThreadWaitReason::from(18), ThreadWaitReason::VirtualMemory);
    assert_eq!(ThreadWaitReason::from(19), ThreadWaitReason::PageOut);
    assert_eq!(ThreadWaitReason::from(20), ThreadWaitReason::Unknown(20));
    assert_eq!(ThreadWaitReason::from(u32::MAX), ThreadWaitReason::Unknown(u32::MAX));
}

fn process_record() -> ProcessInformation {
    ProcessInformation { unique_process_id: 4321, image_name: "init.exe".encode_utf16().collect() }
}

#[test]
fn process_getters() {
    let mut second = record();
    second.unique_thread = 99;
    let process = Process::new(process_record(), vec![record(), second]);
    assert_eq!(process.id(), 4321);
    assert_eq!(String::from_utf16(process.wide_name()).unwrap(), "init.exe");
    let threads = process.threads();
    assert_eq!(threads.len(), 2);
    assert_eq!(threads[0].thread_id(), 0x1234);
    assert_eq!(threads[1].thread_id(), 99);
}

#[test]
fn borrowed_process_getters() {
    let information = process_record();
    let threads = vec![record()];
    let process = ProcessS::new(&information, &threads);
    assert_eq!(process.id(), 4321);
    assert_eq!(process.wide_name(), information.image_name.as_slice());
    assert_eq!(process.threads().len(), 1);
    assert_eq!(process.threads()[0].process_id(), 0x5678);
    let empty = ProcessS::new(&information, &[]);
    assert_eq!(empty.threads().len(), 0);
}

#[test]
fn a_process_without_a_name() {
    let process = Process::new(ProcessInformation { unique_process_id: 0, image_name: vec![] }, vec![]);
    assert_eq!(process.id(), 0);
    assert_eq!(process.wide_name(), &[] as &[u16]);
    assert_eq!(process.threads().len(), 0);
}
