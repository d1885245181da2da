use wl_keys::daemon::{Lock, MyDaemon, Reply, Rpc, Step, PUMP_INTERVAL_MS, TAP_DELAY_MS};
use wl_keys::error::Error;
use wl_keys::handshake::Handshake;
use wl_keys::keyboard::Keyboard;
use wl_keys::modifiers::Modifier;
use wl_keys::protocol::{Event, Interface, Request};

fn global(name: u32, interface: &str, version: u32) -> Event {
    Event::Global { name, interface: interface.to_string(), version }
}

fn interface(name: &str, version: u32) -> Interface {
    Interface { name: name.to_string(), version }
}

fn daemon() -> MyDaemon {
    let mut h = Handshake::with_interfaces(
        interface("seat", 8),
        interface("input_method_manager", 2),
        interface("virtual_keyboard_manager", 1),
    );
    h.advance().unwrap();
    h.roundtrip(&vec![
        global(10, "seat", 8),
        global(11, "virtual_keyboard_manager", 1),
        global(12, "input_method_manager", 2),
    ]);
    h.advance().unwrap();
    h.roundtrip(&vec![Event::Keymap { format: 1, descriptor: 3, size: 100 }]);
    h.advance().unwrap();
    MyDaemon::new(Keyboard::new(h).unwrap())
}

fn tap(key: u32) -> Vec<Step> {
    vec![
        Step::Key { key, pressed: true },
        Step::Sleep { millis: 10 },
        Step::Key { key, pressed: false },
    ]
}

#[test]
fn intervals_are_ten_and_fifteen_milliseconds() {
    assert_eq!(TAP_DELAY_MS, 10);
    assert_eq!(PUMP_INTERVAL_MS, 15);
}

#[test]
fn readers_share_and_writers_hold_alone() {
    assert_eq!(Rpc::AutoQuery.lock(), Lock::Shared);
    assert_eq!(Rpc::ModQuery(Modifier::Alt).lock(), Lock::Shared);
    assert_eq!(Rpc::GetProtocols.lock(), Lock::Shared);
    assert_eq!(Rpc::SendKey { key: 30 }.lock(), Lock::Exclusive);
    assert_eq!(Rpc::AutoEnable.lock(), Lock::Exclusive);
    assert_eq!(Rpc::AutoDisable.lock(), Lock::Exclusive);
    assert_eq!(Rpc::AutoToggle.lock(), Lock::Exclusive);
    assert_eq!(Rpc::ModPress(Modifier::Shift).lock(), Lock::Exclusive);
    assert_eq!(Rpc::ModRelease(Modifier::Shift).lock(), Lock::Exclusive);
    assert_eq!(Rpc::ModToggle(Modifier::Shift).lock(), Lock::Exclusive);
    assert_eq!(Rpc::Stop.lock(), Lock::Unlocked);
}

#[test]
fn send_key_is_press_wait_release() {
    let mut d = daemon();
    let served = d.handle(Rpc::SendKey { key: 30 });
    assert_eq!(served.steps, tap(30));
    assert_eq!(served.reply, Reply::Empty);
    assert_eq!(d.send_key(57), tap(57));
}

#[test]
fn tap_twice_ends_with_a_release_each_time() {
    let mut d = daemon();
    let mut down = std::collections::BTreeSet::new();
    for _ in 0..2 {
        for step in d.handle(Rpc::SendKey { key: 44 }).steps {
            if let Step::Key { key, pressed } = step {
                if pressed {
                    down.insert(key);
                } else {
                    down.remove(&key);
                }
            }
        }
        d.handle(Rpc::ModToggle(Modifier::Shift));
        d.handle(Rpc::AutoToggle);
        assert!(down.is_empty());
    }
}

#[test]
fn tap_keeps_modifiers_and_auto() {
    let mut d = daemon();
    d.handle(Rpc::ModPress(Modifier::Shift));
    d.handle(Rpc::AutoEnable);
    d.handle(Rpc::SendKey { key: 30 });
    assert!(d.mod_query(Modifier::Shift));
    assert!(d.auto_query());
}

#[test]
fn unknown_key_name_is_refused_and_changes_nothing() {
    let mut d = daemon();
    d.handle(Rpc::ModPress(Modifier::Ctrl));
    d.handle(Rpc::AutoEnable);
    assert_eq!(d.send_key_named("F13"), Err(Error::UnknownKey));
    assert_eq!(d.send_key_named(""), Err(Error::UnknownKey));
    assert!(d.mod_query(Modifier::Ctrl));
    assert!(!d.mod_query(Modifier::Shift));
    assert!(d.auto_query());
    let served = d.send_key_named("a").unwrap();
    assert_eq!(served.steps, tap(30));
    assert_eq!(served.reply, Reply::Empty);
    assert_eq!(d.send_key_named("ENTER").unwrap().steps, tap(28));
    assert!(d.mod_query(Modifier::Ctrl));
    assert!(d.auto_query());
}

#[test]
fn auto_toggle_twice_over_rpc_returns_to_false() {
    let mut d = daemon();
    assert_eq!(d.handle(Rpc::AutoQuery).reply, Reply::Auto { enabled: false });
    assert_eq!(d.handle(Rpc::AutoToggle).reply, Reply::Empty);
    assert_eq!(d.handle(Rpc::AutoQuery).reply, Reply::Auto { enabled: true });
    assert_eq!(d.handle(Rpc::AutoToggle).reply, Reply::Empty);
    assert_eq!(d.handle(Rpc::AutoQuery).reply, Reply::Auto { enabled: false });
}

#[test]
fn auto_calls_send_nothing() {
    let mut d = daemon();
    for rpc in [Rpc::AutoEnable, Rpc::AutoDisable, Rpc::AutoToggle, Rpc::AutoQuery] {
        assert!(d.handle(rpc).steps.is_empty());
    }
    d.handle(Rpc::AutoEnable);
    assert_eq!(d.handle(Rpc::AutoQuery).reply, Reply::Auto { enabled: true });
    d.handle(Rpc::AutoDisable);
    assert_eq!(d.handle(Rpc::AutoQuery).reply, Reply::Auto { enabled: false });
}

#[test]
fn modifier_calls_send_one_modifiers_request() {
    let mut d = daemon();
    let served = d.handle(Rpc::ModPress(Modifier::Ctrl));
    assert_eq!(
        served.steps,
        vec![Step::Send(Request::Modifiers { depressed: 0, latched: 0x04, locked: 0, group: 0 })]
    );
    assert_eq!(served.reply, Reply::Empty);
    let served = d.handle(Rpc::ModToggle(Modifier::Cmd));
    assert_eq!(
        served.steps,
        vec![Step::Send(Request::Modifiers { depressed: 0, latched: 0x44, locked: 0, group: 0 })]
    );
    let served = d.handle(Rpc::ModRelease(Modifier::Ctrl));
    assert_eq!(
        served.steps,
        vec![Step::Send(Request::Modifiers { depressed: 0, latched: 0x40, locked: 0, group: 0 })]
    );
    let served = d.handle(Rpc::ModQuery(Modifier::Cmd));
    assert!(served.steps.is_empty());
    assert_eq!(served.reply, Reply::Mod { pressed: true });
    assert_eq!(d.handle(Rpc::ModQuery(Modifier::Ctrl)).reply, Reply::Mod { pressed: false });
}

#[test]
fn get_protocols_lists_exactly_the_three_names() {
    let mut d = daemon();
    let served = d.handle(Rpc::GetProtocols);
    assert!(served.steps.is_empty());
    match served.reply {
        Reply::Protocols { mut protocols } => {
            protocols.sort();
            assert_eq!(
                protocols,
                vec![
                    "input_method_manager".to_string(),
                    "seat".to_string(),
                    "virtual_keyboard_manager".to_string(),
                ]
            );
        }
        other => panic!("not a list of protocols: {:?}", other),
    }
}

#[test]
fn stop_quits_the_server_loop() {
    let mut d = daemon();
    let served = d.handle(Rpc::Stop);
    assert_eq!(served.steps, vec![Step::Quit]);
    assert_eq!(served.reply, Reply::Empty);
    assert_eq!(d.stop(), vec![Step::Quit]);
}

#[test]
fn replies_are_printed_line_by_line() {
    assert!(Reply::Empty.lines().is_empty());
    assert_eq!(Reply::Auto { enabled: true }.lines(), vec!["true".to_string()]);
    assert_eq!(Reply::Auto { enabled: false }.lines(), vec!["false".to_string()]);
    assert_eq!(Reply::Mod { pressed: true }.lines(), vec!["true".to_string()]);
    assert_eq!(
        Reply::Protocols { protocols: vec!["wl_seat".to_string(), "wl_shm".to_string()] }.lines(),
        vec!["wl_seat".to_string(), "wl_shm".to_string()]
    );
}

#[test]
fn pump_dispatches_what_arrived() {
    let mut d = daemon();
    d.handle(Rpc::AutoEnable);
    assert_eq!(d.pump(&vec![Event::Activate]), vec![wl_keys::args::UiCmd::Open]);
    assert!(d.pump(&Vec::new()).is_empty());
}

struct Caller {
    key: u32,
    holds: bool,
    left: Vec<Step>,
    done: bool,
}

fn run_schedule(schedule: u32, turns: u32) -> Vec<(u32, bool)> {
    let mut d = daemon();
    let mut log = Vec::new();
    let mut held_by: Option<usize> = None;
    let mut callers = vec![
        Caller { key: 30, holds: false, left: Vec::new(), done: false },
        Caller { key: 48, holds: false, left: Vec::new(), done: false },
    ];
    let mut turn = 0;
    while callers.iter().any(|c| !c.done) {
        let mut who = if turn < turns { ((schedule >> turn) & 1) as usize } else { 0 };
        turn += 1;
        let blocked = |c: &Caller, i: usize| c.done || (!c.holds && held_by.is_some_and(|h| h != i));
        if blocked(&callers[who], who) {
            who = 1 - who;
        }
        let c = &mut callers[who];
        if !c.holds {
            let rpc = Rpc::SendKey { key: c.key };
            assert_eq!(rpc.lock(), Lock::Exclusive);
            held_by = Some(who);
            c.holds = true;
            c.left = d.handle(rpc).steps;
            c.left.reverse();
        } else if let Some(step) = c.left.pop() {
            if let Step::Key { key, pressed } = step {
                log.push((key, pressed));
            }
        } else {
            held_by = None;
            c.holds = false;
            c.done = true;
        }
    }
    log
}

#[test]
fn taps_of_two_callers_are_never_interleaved() {
    let a_first = vec![(30, true), (30, false), (48, true), (48, false)];
    let b_first = vec![(48, true), (48, false), (30, true), (30, false)];
    let mut seen_a_first = false;
    let mut seen_b_first = false;
    for schedule in 0..1024u32 {
        let log = run_schedule(schedule, 10);
        assert!(log == a_first || log == b_first);
        seen_a_first |= log == a_first;
        seen_b_first |= log == b_first;
    }
    assert!(seen_a_first && seen_b_first);
}

#[test]
fn only_reading_calls_are_answered_under_a_shared_lock() {
    let mut d = daemon();
    d.handle(Rpc::AutoEnable);
    d.handle(Rpc::ModPress(Modifier::Alt));
    assert_eq!(d.answer_shared(Rpc::AutoQuery), Some(Reply::Auto { enabled: true }));
    assert_eq!(d.answer_shared(Rpc::ModQuery(Modifier::Alt)), Some(Reply::Mod { pressed: true }));
    assert_eq!(d.answer_shared(Rpc::ModQuery(Modifier::Cmd)), Some(Reply::Mod { pressed: false }));
    assert!(matches!(d.answer_shared(Rpc::GetProtocols), Some(Reply::Protocols { .. })));
    for rpc in [
        Rpc::SendKey { key: 30 },
        Rpc::AutoEnable,
        Rpc::AutoDisable,
        Rpc::AutoToggle,
        Rpc::ModPress(Modifier::Alt),
        Rpc::ModRelease(Modifier::Alt),
        Rpc::ModToggle(Modifier::Alt),
        Rpc::Stop,
    ] {
        assert_eq!(d.answer_shared(rpc), None);
    }
}

#[test]
fn only_stop_is_served_without_the_lock() {
    let served = Rpc::Stop.serve_unlocked().unwrap();
    assert_eq!(served.steps, vec![Step::Quit]);
    assert_eq!(served.reply, Reply::Empty);
    assert_eq!(Rpc::AutoQuery.serve_unlocked(), None);
    assert_eq!(Rpc::SendKey { key: 1 }.serve_unlocked(), None);
}

#[test]
fn failed_send_is_a_transport_failure() {
    let mut d = daemon();
    let served = d.handle(Rpc::SendKey { key: 30 });
    assert_eq!(served.conclude(&vec![true, true, true]), Ok(Reply::Empty));
    let served = d.handle(Rpc::SendKey { key: 30 });
    assert_eq!(served.conclude(&vec![false, true, true]), Err(Error::TransportFailure));
    let served = d.handle(Rpc::ModPress(Modifier::Alt));
    assert_eq!(served.conclude(&vec![false]), Err(Error::TransportFailure));
    let served = d.handle(Rpc::AutoQuery);
    assert_eq!(served.conclude(&Vec::new()), Ok(Reply::Auto { enabled: false }));
}

#[test]
fn poisoned_lock_is_reported_to_every_locking_caller() {
    assert_eq!(Lock::Shared.taken(true), Err(Error::LockPoisoned));
    assert_eq!(Lock::Exclusive.taken(true), Err(Error::LockPoisoned));
    assert_eq!(Lock::Unlocked.taken(true), Ok(()));
    for lock in [Lock::Shared, Lock::Exclusive, Lock::Unlocked] {
        assert_eq!(lock.taken(false), Ok(()));
    }
}
