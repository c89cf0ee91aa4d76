use kproc::process::{ProcData, Process};
use kproc::procstate::Procstate;

const ALL: [Procstate; 7] = [
    Procstate::UNUSED,
    Procstate::USED,
    Procstate::SLEEPING,
    Procstate::RUNNABLE,
    Procstate::RUNNING,
    Procstate::ZOMBIE,
    Procstate::ALLOCATED,
];

fn listed(from: Procstate, to: Procstate) -> bool {
    matches!(
        (from, to),
        (Procstate::UNUSED, Procstate::USED)
            | (Procstate::UNUSED, Procstate::ALLOCATED)
            | (Procstate::ALLOCATED, Procstate::RUNNING)
            | (Procstate::RUNNABLE, Procstate::RUNNING)
            | (Procstate::RUNNING, Procstate::RUNNABLE)
            | (Procstate::RUNNING, Procstate::SLEEPING)
            | (Procstate::SLEEPING, Procstate::RUNNABLE)
            | (Procstate::RUNNING, Procstate::ZOMBIE)
            | (Procstate::ZOMBIE, Procstate::UNUSED)
    )
}

#[test]
fn can_become_is_the_transition_table() {
    let mut allowed = 0;
    for from in ALL {
        for to in ALL {
            assert_eq!(from.can_become(to), listed(from, to), "{:?} -> {:?}", from, to);
            if from.can_become(to) {
                allowed += 1;
            }
        }
    }
    assert_eq!(allowed, 9);
}

#[test]
fn no_state_follows_itself() {
    for state in ALL {
        assert!(!state.can_become(state));
    }
}

#[test]
fn used_is_a_dead_end() {
    for to in ALL {
        assert!(!Procstate::USED.can_become(to));
    }
}

#[test]
fn transition_makes_listed_moves() {
    let mut data = ProcData::new();
    assert!(data.transition(Procstate::ALLOCATED));
    assert_eq!(data.state, Procstate::ALLOCATED);
    assert!(data.transition(Procstate::RUNNING));
    assert!(data.transition(Procstate::SLEEPING));
    assert!(data.transition(Procstate::RUNNABLE));
    assert!(data.transition(Procstate::RUNNING));
    assert!(data.transition(Procstate::ZOMBIE));
    assert!(data.transition(Procstate::UNUSED));
    assert_eq!(data, ProcData::new());
}

#[test]
fn transition_refuses_unlisted_moves_and_changes_nothing() {
    for from in ALL {
        for to in ALL {
            let mut data = ProcData::new();
            data.set_state(from);
            data.pid = 7;
            data.channel = 3;
            let moved = data.transition(to);
            assert_eq!(moved, listed(from, to));
            assert_eq!(data.state, if moved { to } else { from });
            assert_eq!(data.pid, 7);
            assert_eq!(data.channel, 3);
        }
    }
}

#[test]
fn set_state_is_unconditional() {
    let mut data = ProcData::new();
    data.set_state(Procstate::ZOMBIE);
    assert_eq!(data.state, Procstate::ZOMBIE);
    data.set_state(Procstate::USED);
    assert_eq!(data.state, Procstate::USED);
}

#[test]
fn new_process_is_an_unused_unlocked_slot() {
    let slot = Process::new();
    assert_eq!(slot.data, ProcData::new());
    assert_eq!(slot.data.state, Procstate::UNUSED);
    assert!(!slot.lock.locked);
    assert_eq!(slot.name, "process");
}
