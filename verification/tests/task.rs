use hapi::task::{fresh_task, run_trampoline, TaskState, TransferBox};

#[test]
fn spawned_work_runs_exactly_once() {
    let mut counter = 0u64;
    let mut done = false;
    let b = TransferBox::new(|| {
        counter += 1;
        done = true;
    });
    b.invoke();
    assert_eq!(counter, 1);
    assert!(done);
}

#[test]
fn repeated_spawns_each_run_once() {
    let mut counter = 0u64;
    for _ in 0..3 {
        let b = TransferBox::new(|| {
            counter += 1;
        });
        b.invoke();
    }
    assert_eq!(counter, 3);
}

#[test]
fn trampoline_accounting() {
    let mut t = fresh_task();
    assert_eq!(t.state, TaskState::Pending);
    assert_eq!(t.runs, 0);
    run_trampoline(&mut t);
    assert_eq!(t.state, TaskState::Done);
    assert_eq!(t.runs, 1);
}
