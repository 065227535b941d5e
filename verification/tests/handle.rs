use termport::{new_term, Event, Launch, LaunchError, Platform, TermInstance};

fn text(s: &str) -> String {
    s.to_string()
}

fn launched(platform: Platform, events: &[Event]) -> Launch {
    let mut launch = Launch::begin(platform, &text("echo_driver"), &text(""));
    for event in events {
        launch = launch.step(*event);
    }
    launch
}

fn ready(platform: Platform, pid: u32) -> TermInstance {
    let events = [Event::Bound { port: 40123 }, Event::Spawned { pid }, Event::Accepted];
    TermInstance::new(&launched(platform, &events)).unwrap()
}

#[test]
fn test() {
    let launch =
        Launch::begin(Platform::Windows, &"alacritty_driver.exe".to_string(), &"".to_string());
    let launch = launch.step(Event::Bound { port: 40123 });
    let launch = launch.step(Event::Spawned { pid: 77 });
    let launch = launch.step(Event::Accepted);
    let term = new_term(&launch).unwrap();
    assert_eq!(term.pid(), 77);
    assert_eq!(term.platform(), Platform::Windows);
}

#[test]
fn a_ready_launch_has_a_handle() {
    let term = ready(Platform::Posix, 4321);
    assert_eq!(term.pid(), 4321);
    assert!(term.pid() > 0);
    assert_eq!(term.platform(), Platform::Posix);
}

#[test]
fn an_unfinished_launch_has_no_handle() {
    let steps = [Event::Bound { port: 40123 }, Event::Spawned { pid: 77 }];
    for done in 0..=steps.len() {
        let launch = launched(Platform::Posix, &steps[..done]);
        assert_eq!(TermInstance::new(&launch), Err(LaunchError::Unfinished));
        assert_eq!(new_term(&launch), Err(LaunchError::Unfinished));
    }
}

#[test]
fn an_aborted_launch_has_no_handle() {
    let bound = Event::Bound { port: 40123 };
    let spawned = Event::Spawned { pid: 77 };
    let cases: [(&[Event], LaunchError); 4] = [
        (&[Event::Failed], LaunchError::Bind),
        (&[bound, Event::Failed], LaunchError::Spawn),
        (&[bound, spawned, Event::Failed], LaunchError::Accept),
        (&[bound, Event::Accepted], LaunchError::OutOfOrder),
    ];
    for (events, cause) in cases {
        let launch = launched(Platform::Posix, events);
        assert_eq!(TermInstance::new(&launch), Err(cause));
        assert_eq!(new_term(&launch), Err(cause));
    }
}

#[test]
fn new_term_is_new() {
    let events = [Event::Bound { port: 40123 }, Event::Spawned { pid: 9 }, Event::Accepted];
    let launch = launched(Platform::Windows, &events);
    assert_eq!(new_term(&launch), TermInstance::new(&launch));
    assert_eq!(new_term(&launch).unwrap().pid(), 9);
}

#[test]
fn close_on_posix() {
    let line = ready(Platform::Posix, 4321).close();
    assert_eq!(line.program, "kill");
    assert_eq!(line.args, vec![text("-9"), text("4321")]);
}

#[test]
fn close_on_windows() {
    let line = ready(Platform::Windows, 4321).close();
    assert_eq!(line.program, "taskkill");
    assert_eq!(line.args, vec![text("/F"), text("/pid"), text("4321")]);
}

#[test]
fn close_can_be_asked_again() {
    let term = ready(Platform::Posix, 31337);
    let first = term.close();
    let second = term.close();
    let third = term.close();
    assert_eq!(first, second);
    assert_eq!(second, third);
    assert_eq!(term.pid(), 31337);
    assert_eq!(term, ready(Platform::Posix, 31337));
}

#[test]
fn a_clone_names_the_same_process() {
    let term = ready(Platform::Posix, 31337);
    let copy = term.clone();
    assert_eq!(copy, term);
    assert_eq!(copy.pid(), 31337);
    assert_eq!(copy.platform(), Platform::Posix);
    assert_eq!(copy.close(), term.close());
    assert_eq!(copy.clone().close(), term.close());
}
