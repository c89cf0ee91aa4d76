use kproc::context::Context;
use kproc::cpu::Cpu;
use kproc::spinlock::Spinlock;

#[test]
fn new_cpu_is_idle() {
    let cpu = Cpu::new();
    assert_eq!(cpu.proc, None);
    assert_eq!(cpu.context, Context::new());
    assert_eq!(cpu.noff, 0);
    assert!(!cpu.intena);
    assert!(!cpu.interrupts);
    assert!(!cpu.intr_get());
}

#[test]
fn interrupts_switch_on_and_off() {
    let mut cpu = Cpu::new();
    cpu.intr_on();
    assert!(cpu.intr_get());
    assert_eq!(cpu.noff, 0);
    cpu.intr_off();
    assert!(!cpu.intr_get());
}

#[test]
fn set_proc_and_context() {
    let mut cpu = Cpu::new();
    cpu.set_proc(Some(7));
    assert_eq!(cpu.proc, Some(7));
    cpu.get_context_mut().ra = 5;
    assert_eq!(cpu.context.ra, 5);
    assert_eq!(cpu.proc, Some(7));
    cpu.set_proc(None);
    assert_eq!(cpu.proc, None);
}

#[test]
fn push_off_nests_and_pop_off_restores() {
    let mut cpu = Cpu::new();
    cpu.intr_on();
    cpu.push_off();
    assert_eq!((cpu.noff, cpu.intena, cpu.interrupts), (1, true, false));
    cpu.push_off();
    assert_eq!((cpu.noff, cpu.intena, cpu.interrupts), (2, true, false));
    cpu.pop_off();
    assert_eq!((cpu.noff, cpu.intena, cpu.interrupts), (1, true, false));
    cpu.pop_off();
    assert_eq!((cpu.noff, cpu.intena, cpu.interrupts), (0, true, true));
}

#[test]
fn pop_off_leaves_interrupts_off_if_they_were_off() {
    let mut cpu = Cpu::new();
    cpu.intena = true;
    cpu.push_off();
    assert_eq!((cpu.noff, cpu.intena, cpu.interrupts), (1, false, false));
    cpu.pop_off();
    assert_eq!((cpu.noff, cpu.intena, cpu.interrupts), (0, false, false));
}

#[test]
fn lock_is_taken_once() {
    let mut a = Cpu::new();
    let mut b = Cpu::new();
    b.intr_on();
    let mut lock = Spinlock::new();
    assert!(!lock.holding());
    assert!(lock.acquire(&mut a));
    assert!(lock.holding());
    assert_eq!(a.noff, 1);
    assert!(!lock.acquire(&mut b));
    assert!(lock.holding());
    assert_eq!(b.noff, 0);
    assert!(b.interrupts);
    lock.release(&mut a);
    assert!(!lock.holding());
    assert_eq!(a.noff, 0);
    assert!(lock.acquire(&mut b));
    assert_eq!(b.noff, 1);
    assert!(!b.interrupts);
    lock.release(&mut b);
    assert!(b.interrupts);
}
