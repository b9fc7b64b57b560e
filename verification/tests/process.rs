use vmmap::syscalls::{
    sys_exit, sys_get_time, sys_set_priority, sys_task_info, sys_yield, TaskInfo, TaskOutcome,
    TaskStatus, TimeVal, MAX_SYSCALL_NUM,
};

#[test]
fn task_info_reports_unimplemented() {
    let mut ti = TaskInfo {
        status: TaskStatus::Running,
        syscall_times: [0u32; MAX_SYSCALL_NUM],
        time: 7,
    };
    ti.syscall_times[42] = 3;
    assert_eq!(sys_task_info(&mut ti), -1);
    // The output is left untouched.
    assert_eq!(ti.status, TaskStatus::Running);
    assert_eq!(ti.syscall_times[42], 3);
    assert_eq!(ti.syscall_times[0], 0);
    assert_eq!(ti.time, 7);
}

#[test]
fn task_info_never_crashes_on_repeat() {
    let mut ti = TaskInfo {
        status: TaskStatus::Ready,
        syscall_times: [0u32; MAX_SYSCALL_NUM],
        time: 0,
    };
    for _ in 0..100 {
        assert_eq!(sys_task_info(&mut ti), -1);
    }
}

#[test]
fn yield_returns_zero() {
    assert_eq!(sys_yield(), 0);
}

#[test]
fn get_time_placeholder_returns_zero() {
    let mut ts = TimeVal { sec: 11, usec: 22 };
    assert_eq!(sys_get_time(&mut ts, 0), 0);
    // The write path is not implemented: the sample is left untouched.
    assert_eq!(ts, TimeVal { sec: 11, usec: 22 });
}

#[test]
fn set_priority_placeholder_returns_failure() {
    assert_eq!(sys_set_priority(2), -1);
    assert_eq!(sys_set_priority(-5), -1);
}

#[test]
fn exit_hands_the_code_to_the_scheduler() {
    assert_eq!(sys_exit(0), TaskOutcome::Exit(0));
    assert_eq!(sys_exit(-3), TaskOutcome::Exit(-3));
    assert_eq!(sys_exit(42), TaskOutcome::Exit(42));
}
