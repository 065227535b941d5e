use termport::{Action, CommandLine, Event, Launch, LaunchError, Phase, Platform};

fn text(s: &str) -> String {
    s.to_string()
}

fn start(sub_title: &str) -> Launch {
    Launch::begin(Platform::Posix, &text("echo_driver"), &text(sub_title))
}

fn run(launch: Launch, events: &[Event]) -> Launch {
    let mut launch = launch;
    for event in events {
        launch = launch.step(*event);
    }
    launch
}

const ALL_EVENTS: [Event; 4] =
    [Event::Bound { port: 40123 }, Event::Spawned { pid: 77 }, Event::Accepted, Event::Failed];

#[test]
fn a_launch_begins_unstarted() {
    let launch = Launch::begin(Platform::Windows, &text("driver.exe"), &text("pane-2"));
    assert_eq!(launch.platform, Platform::Windows);
    assert_eq!(launch.driver_path, "driver.exe");
    assert_eq!(launch.sub_title, "pane-2");
    assert_eq!(launch.phase, Phase::Unstarted);
}

#[test]
fn first_a_loopback_listener_is_bound() {
    assert_eq!(start("").action(), Action::Bind { address: text("127.0.0.1:0") });
}

#[test]
fn the_steps_follow_in_order() {
    let launch = start("");
    let launch = launch.step(Event::Bound { port: 40123 });
    assert_eq!(launch.phase, Phase::Launching { port: 40123 });
    assert_eq!(
        launch.action(),
        Action::Spawn {
            line: CommandLine {
                program: text("echo_driver"),
                args: vec![text("--local-socket-port"), text("40123")],
            }
        }
    );
    let launch = launch.step(Event::Spawned { pid: 77 });
    assert_eq!(launch.phase, Phase::RendezvousPending { port: 40123, pid: 77 });
    assert_eq!(launch.action(), Action::Accept);
    let launch = launch.step(Event::Accepted);
    assert_eq!(launch.phase, Phase::Ready { port: 40123, pid: 77 });
    assert_eq!(launch.action(), Action::Finish);
}

#[test]
fn the_spawned_process_is_told_the_bound_port() {
    for port in [1u16, 1024, 40123, 65535] {
        let launch = start("pane-2").step(Event::Bound { port });
        match launch.action() {
            Action::Spawn { line } => {
                assert_eq!(line.args[0], "--local-socket-port");
                assert_eq!(line.args[1].parse::<u16>().unwrap(), port);
                assert_eq!(line.args[2], "--sub-title");
                assert_eq!(line.args[3], "pane-2");
            }
            other => panic!("expected a spawn, got {:?}", other),
        }
    }
}

#[test]
fn accepting_is_due_exactly_once() {
    let events =
        [Event::Bound { port: 40123 }, Event::Spawned { pid: 77 }, Event::Accepted, Event::Failed];
    let mut accepts = 0;
    for seen in 0..=events.len() {
        let launch = run(start(""), &events[..seen]);
        if launch.action() == Action::Accept {
            accepts += 1;
            assert_eq!(seen, 2);
        }
    }
    assert_eq!(accepts, 1);
    assert_eq!(run(start(""), &events).phase, Phase::Ready { port: 40123, pid: 77 });
}

#[test]
fn a_failed_bind_aborts() {
    let launch = start("").step(Event::Failed);
    assert_eq!(launch.phase, Phase::Aborted { cause: LaunchError::Bind });
    assert_eq!(launch.action(), Action::GiveUp { cause: LaunchError::Bind });
}

#[test]
fn a_failed_spawn_aborts() {
    let launch = run(start(""), &[Event::Bound { port: 40123 }, Event::Failed]);
    assert_eq!(launch.phase, Phase::Aborted { cause: LaunchError::Spawn });
    assert_eq!(launch.action(), Action::GiveUp { cause: LaunchError::Spawn });
}

#[test]
fn a_failed_accept_aborts() {
    let launch =
        run(start(""), &[Event::Bound { port: 40123 }, Event::Spawned { pid: 77 }, Event::Failed]);
    assert_eq!(launch.phase, Phase::Aborted { cause: LaunchError::Accept });
    assert_eq!(launch.action(), Action::GiveUp { cause: LaunchError::Accept });
}

#[test]
fn a_report_out_of_order_aborts() {
    let out_of_order = Phase::Aborted { cause: LaunchError::OutOfOrder };
    assert_eq!(start("").step(Event::Spawned { pid: 77 }).phase, out_of_order);
    assert_eq!(start("").step(Event::Accepted).phase, out_of_order);
    let launching = [Event::Bound { port: 40123 }];
    assert_eq!(run(start(""), &launching).step(Event::Bound { port: 1 }).phase, out_of_order);
    assert_eq!(run(start(""), &launching).step(Event::Accepted).phase, out_of_order);
    let pending = [Event::Bound { port: 40123 }, Event::Spawned { pid: 77 }];
    assert_eq!(run(start(""), &pending).step(Event::Bound { port: 1 }).phase, out_of_order);
    assert_eq!(run(start(""), &pending).step(Event::Spawned { pid: 78 }).phase, out_of_order);
    assert_eq!(
        run(start(""), &pending).step(Event::Accepted).phase,
        Phase::Ready { port: 40123, pid: 77 }
    );
}

#[test]
fn a_settled_launch_stays_as_it_is() {
    let ready = [Event::Bound { port: 40123 }, Event::Spawned { pid: 77 }, Event::Accepted];
    for event in ALL_EVENTS {
        assert_eq!(
            run(start(""), &ready).step(event).phase,
            Phase::Ready { port: 40123, pid: 77 }
        );
        assert_eq!(
            start("").step(Event::Failed).step(event).phase,
            Phase::Aborted { cause: LaunchError::Bind }
        );
    }
}

fn rank(phase: Phase) -> u32 {
    match phase {
        Phase::Unstarted => 0,
        Phase::Launching { .. } => 1,
        Phase::RendezvousPending { .. } => 2,
        Phase::Ready { .. } => 3,
        Phase::Aborted { .. } => 3,
    }
}

#[test]
fn a_launch_only_moves_forward() {
    let prefixes: [&[Event]; 5] = [
        &[],
        &[Event::Bound { port: 40123 }],
        &[Event::Bound { port: 40123 }, Event::Spawned { pid: 77 }],
        &[Event::Bound { port: 40123 }, Event::Spawned { pid: 77 }, Event::Accepted],
        &[Event::Bound { port: 40123 }, Event::Failed],
    ];
    for prefix in prefixes {
        for event in ALL_EVENTS {
            let before = run(start(""), prefix).phase;
            let after = run(start(""), prefix).step(event).phase;
            assert!(rank(after) >= rank(before));
            assert_ne!(after, Phase::Unstarted);
            if rank(before) < 3 {
                assert!(rank(after) > rank(before));
            } else {
                assert_eq!(after, before);
            }
        }
    }
}

#[test]
fn a_step_changes_the_phase_only() {
    let launch = Launch::begin(Platform::Windows, &text("driver.exe"), &text("pane-2"));
    let launch = run(launch, &[Event::Bound { port: 5 }, Event::Spawned { pid: 6 }]);
    assert_eq!(launch.platform, Platform::Windows);
    assert_eq!(launch.driver_path, "driver.exe");
    assert_eq!(launch.sub_title, "pane-2");
}
