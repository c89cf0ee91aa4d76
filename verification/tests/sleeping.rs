use kproc::cpu::Cpu;
use kproc::process::{ProcData, Process};
use kproc::procstate::Procstate;
use kproc::scheduler::{scheduler, scheduler_return, Handoff, ProcManager, SchedFault, SchedulerAction};
use kproc::spinlock::Spinlock;

/// A table whose slot `slot` runs on `cpu`, as after its first switch.
fn running(slots: usize, slot: usize, cpu: &mut Cpu) -> ProcManager {
    let mut procs = ProcManager::with_slots(slots);
    procs.procinit(&mut Cpu::new());
    procs.get_table_mut()[slot].data.set_state(Procstate::RUNNABLE);
    assert_eq!(scheduler(&mut procs, cpu, 0), SchedulerAction::Run(slot));
    procs.get_table_mut()[slot].lock.release(cpu);
    procs
}

#[test]
fn sleep_records_channel_and_releases_the_callers_lock() {
    let mut cpu = Cpu::new();
    let mut procs = running(2, 1, &mut cpu);
    let mut l = Spinlock::new();
    assert!(l.acquire(&mut cpu));
    assert_eq!(cpu.noff, 1);

    let permit = procs.get_table_mut()[1].sleep(42, &mut l, &mut cpu).unwrap();
    assert_eq!(permit, Handoff { intena: true });
    assert!(!l.holding());
    let p = procs.slot(1);
    assert_eq!(p.data.state, Procstate::SLEEPING);
    assert_eq!(p.data.channel, 42);
    assert!(p.lock.locked);
    assert_eq!(cpu.noff, 1);
    assert!(!cpu.interrupts);
    assert_eq!(cpu.proc, Some(1));
}

#[test]
fn wakeup_is_not_missed() {
    let mut cpu = Cpu::new();
    let mut waker = Cpu::new();
    let mut procs = running(2, 0, &mut cpu);
    let mut l = Spinlock::new();
    assert!(l.acquire(&mut cpu));

    // P goes to sleep on 42 while it holds L.
    let permit = procs.get_table_mut()[0].sleep(42, &mut l, &mut cpu).unwrap();

    // The waker can take L now, and calls wakeup. P's lock is still held
    // for the switch, so the wakeup has to wait in front of P.
    assert!(l.acquire(&mut waker));
    assert_eq!(procs.wakeup(42, 0, &mut waker), Some(0));
    assert_eq!(procs.slot(0).data.state, Procstate::SLEEPING);
    assert_eq!(waker.noff, 1);

    // The scheduler of P's core lets go of P's lock.
    assert_eq!(scheduler_return(&mut procs, &mut cpu), 1);
    assert_eq!(procs.slot(0).data.state, Procstate::SLEEPING);

    // Now the wakeup gets through, and finds P.
    assert_eq!(procs.wakeup(42, 0, &mut waker), None);
    assert_eq!(procs.slot(0).data.state, Procstate::RUNNABLE);
    assert_eq!(procs.slot(0).data.channel, 42);
    l.release(&mut waker);
    assert_eq!(waker.noff, 0);

    // P is chosen again and comes back out of sleep.
    assert_eq!(scheduler(&mut procs, &mut cpu, 1), SchedulerAction::Idle);
    assert_eq!(scheduler(&mut procs, &mut cpu, 0), SchedulerAction::Run(0));
    procs.get_table_mut()[0].sleep_return(permit, &mut cpu);
    let p = procs.slot(0);
    assert_eq!(p.data.state, Procstate::RUNNING);
    assert_eq!(p.data.channel, 0);
    assert!(!p.lock.locked);
    assert!(!l.holding());
    assert_eq!(cpu.noff, 0);
    assert!(cpu.interrupts);
}

#[test]
fn wakeup_before_the_lock_is_released_never_sees_a_half_asleep_process() {
    // Whenever a wakeup can look at the slot, the process is either still
    // running and holds L, or fully asleep on the channel.
    let mut cpu = Cpu::new();
    let mut waker = Cpu::new();
    let mut procs = running(1, 0, &mut cpu);
    let mut l = Spinlock::new();
    assert!(l.acquire(&mut cpu));

    // Before the sleep: the waker cannot have L, the condition is unchanged.
    assert!(!l.acquire(&mut waker));

    procs.get_table_mut()[0].sleep(42, &mut l, &mut cpu).unwrap();
    for _ in 0..3 {
        assert_eq!(procs.wakeup(42, 0, &mut waker), Some(0));
        assert_eq!(procs.slot(0).data.state, Procstate::SLEEPING);
    }
    scheduler_return(&mut procs, &mut cpu);
    assert_eq!(procs.wakeup(42, 0, &mut waker), None);
    assert_eq!(procs.slot(0).data.state, Procstate::RUNNABLE);
}

#[test]
fn wakeup_wakes_only_sleepers_on_the_channel() {
    let mut procs = ProcManager::with_slots(6);
    let states = [
        (Procstate::SLEEPING, 42),
        (Procstate::SLEEPING, 43),
        (Procstate::RUNNING, 42),
        (Procstate::SLEEPING, 42),
        (Procstate::ZOMBIE, 42),
        (Procstate::UNUSED, 0),
    ];
    for (i, (state, channel)) in states.iter().enumerate() {
        let table = procs.get_table_mut();
        table[i].data.set_state(*state);
        table[i].data.channel = *channel;
    }
    let mut cpu = Cpu::new();
    cpu.interrupts = true;
    assert_eq!(procs.wakeup(42, 0, &mut cpu), None);
    let after: Vec<Procstate> = (0..6).map(|i| procs.slot(i).data.state).collect();
    assert_eq!(
        after,
        vec![
            Procstate::RUNNABLE,
            Procstate::SLEEPING,
            Procstate::RUNNING,
            Procstate::RUNNABLE,
            Procstate::ZOMBIE,
            Procstate::UNUSED,
        ]
    );
    for i in 0..6 {
        assert!(!procs.slot(i).lock.locked);
        assert_eq!(procs.slot(i).data.channel, states[i].1);
    }
    assert_eq!(cpu.noff, 0);
    assert!(cpu.interrupts);
    assert!(cpu.intena);
}

#[test]
fn wakeup_resumes_behind_a_blocked_slot() {
    let mut procs = ProcManager::with_slots(3);
    for i in 0..3 {
        let table = procs.get_table_mut();
        table[i].data.set_state(Procstate::SLEEPING);
        table[i].data.channel = 7;
    }
    procs.get_table_mut()[1].lock.locked = true;
    let mut cpu = Cpu::new();
    assert_eq!(procs.wakeup(7, 0, &mut cpu), Some(1));
    assert_eq!(procs.slot(0).data.state, Procstate::RUNNABLE);
    assert_eq!(procs.slot(1).data.state, Procstate::SLEEPING);
    assert_eq!(procs.slot(2).data.state, Procstate::SLEEPING);
    procs.get_table_mut()[1].lock.locked = false;
    assert_eq!(procs.wakeup(7, 1, &mut cpu), None);
    assert_eq!(procs.slot(1).data.state, Procstate::RUNNABLE);
    assert_eq!(procs.slot(2).data.state, Procstate::RUNNABLE);
    assert_eq!(procs.wakeup(7, 9, &mut cpu), None);
}

#[test]
fn sleep_without_the_callers_lock_counted_is_fatal() {
    let mut p = Process::new();
    p.data.set_state(Procstate::RUNNING);
    let mut cpu = Cpu::new();
    let mut l = Spinlock::new();
    l.locked = true;
    // The core's lock depth is zero although the lock is taken: after the
    // sleep's own lock and the release the depth is zero, not one.
    assert_eq!(p.sleep(1, &mut l, &mut cpu), Err(SchedFault::Locks));
}

#[test]
fn sleep_with_two_locks_held_is_fatal() {
    let mut p = Process::new();
    p.data.set_state(Procstate::RUNNING);
    let mut cpu = Cpu::new();
    let mut a = Spinlock::new();
    let mut b = Spinlock::new();
    assert!(a.acquire(&mut cpu));
    assert!(b.acquire(&mut cpu));
    assert_eq!(p.sleep(1, &mut b, &mut cpu), Err(SchedFault::Locks));
    assert_eq!(cpu.noff, 2);
}

#[test]
fn sleep_return_clears_the_channel() {
    let mut p = Process::new();
    p.data.set_state(Procstate::RUNNING);
    p.data.pid = 3;
    let mut cpu = Cpu::new();
    cpu.interrupts = true;
    let mut l = Spinlock::new();
    assert!(l.acquire(&mut cpu));
    let permit = p.sleep(99, &mut l, &mut cpu).unwrap();
    assert_eq!(p.data.channel, 99);
    p.data.set_state(Procstate::RUNNING);
    cpu.intena = false;
    p.sleep_return(permit, &mut cpu);
    let mut expected = ProcData::new();
    expected.state = Procstate::RUNNING;
    expected.pid = 3;
    assert_eq!(p.data, expected);
    assert!(!p.lock.locked);
    assert_eq!(cpu.noff, 0);
    assert!(cpu.interrupts);
    assert!(cpu.intena);
}
