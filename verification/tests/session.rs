use audiort::{Command, Device, Error, ListenKind, Opts, Outcome, Session, Stage, Step};

fn record(kind: ListenKind, output: Option<&str>, delay: Option<u32>, quiet: bool) -> Opts {
    Opts { command: Command::Record { kind, output: output.map(String::from) }, delay, quiet }
}

fn loopback(kind: ListenKind, delay: Option<u32>) -> Opts {
    Opts { command: Command::Loopback { kind }, delay, quiet: false }
}

#[test]
fn listen_kind_names_the_direction() {
    assert_eq!(ListenKind::Input.device(), Device::Input);
    assert_eq!(ListenKind::Output.device(), Device::Output);
}

#[test]
fn command_knows_its_kind_and_where_it_writes() {
    let given = Command::Record { kind: ListenKind::Output, output: Some(String::from("take1.wav")) };
    assert_eq!(given.kind(), ListenKind::Output);
    assert!(given.is_record());
    assert_eq!(given.output_path(), "take1.wav");
    let fallback = Command::Record { kind: ListenKind::Input, output: None };
    assert_eq!(fallback.output_path(), "out.wav");
    let loopback = Command::Loopback { kind: ListenKind::Input };
    assert_eq!(loopback.kind(), ListenKind::Input);
    assert!(!loopback.is_record());
}

#[test]
fn recording_takes_its_steps_in_order() {
    let mut session = Session::new(record(ListenKind::Input, None, Some(3), true));
    assert_eq!(session.stage(), Stage::Resolve);
    assert!(!session.is_over());
    assert_eq!(session.step(), Step::Resolve(Device::Input));
    assert_eq!(session.advance(Outcome::Done), Step::Open(String::from("out.wav")));
    assert_eq!(session.advance(Outcome::Done), Step::Build);
    assert_eq!(session.advance(Outcome::Done), Step::Delay { seconds: Some(3), quiet: true });
    assert_eq!(session.advance(Outcome::Done), Step::Play);
    assert_eq!(session.advance(Outcome::Done), Step::AwaitStop);
    assert_eq!(session.advance(Outcome::Done), Step::Finalize);
    assert!(!session.is_over());
    assert_eq!(session.advance(Outcome::Done), Step::Finish);
    assert!(session.is_over());
    assert_eq!(session.stage(), Stage::Finish);
    assert_eq!(session.advance(Outcome::Done), Step::Finish);
    assert_eq!(session.advance(Outcome::Failed(Error::PlayError)), Step::Finish);
}

#[test]
fn recording_of_the_output_device_goes_where_the_user_said() {
    let mut session = Session::new(record(ListenKind::Output, Some("mix.wav"), None, false));
    assert_eq!(session.step(), Step::Resolve(Device::Output));
    assert_eq!(session.advance(Outcome::Done), Step::Open(String::from("mix.wav")));
    assert_eq!(session.advance(Outcome::Done), Step::Build);
    assert_eq!(session.advance(Outcome::Done), Step::Delay { seconds: None, quiet: false });
}

#[test]
fn no_device_means_no_file_and_no_stream() {
    for error in [Error::DefaultInputDeviceError, Error::DefaultConfigError] {
        let mut session = Session::new(record(ListenKind::Input, None, Some(1), false));
        assert_eq!(session.step(), Step::Resolve(Device::Input));
        assert_eq!(session.advance(Outcome::Failed(error.clone())), Step::Abort(error.clone()));
        assert!(session.is_over());
        assert_eq!(session.stage(), Stage::Resolve);
        for later in [Outcome::Done, Outcome::NoSignal, Outcome::Failed(Error::PlayError), Outcome::Done] {
            let step = session.advance(later);
            assert_eq!(step, Step::Abort(error.clone()));
        }
    }
}

#[test]
fn any_step_that_fails_ends_the_run_with_its_error() {
    let failures = [
        (1, Error::WriterCreationError(String::from("read-only file system"))),
        (2, Error::StreamCreationError),
        (4, Error::PlayError),
        (6, Error::WriteError(String::from("no space left"))),
    ];
    for (done_before, error) in failures {
        let mut session = Session::new(record(ListenKind::Input, None, None, false));
        for _ in 0..done_before {
            session.advance(Outcome::Done);
        }
        assert_eq!(session.advance(Outcome::Failed(error.clone())), Step::Abort(error.clone()));
        assert_eq!(session.step(), Step::Abort(error.clone()));
        assert_eq!(session.advance(Outcome::Done), Step::Abort(error));
    }
}

#[test]
fn wait_without_a_signal_ends_the_run_without_finalizing() {
    let mut session = Session::new(record(ListenKind::Input, None, None, false));
    for _ in 0..4 {
        session.advance(Outcome::Done);
    }
    assert_eq!(session.advance(Outcome::Done), Step::AwaitStop);
    assert_eq!(session.advance(Outcome::NoSignal), Step::Finish);
    assert!(session.is_over());
}

#[test]
fn no_signal_after_another_step_changes_nothing() {
    let mut session = Session::new(record(ListenKind::Input, None, None, false));
    assert_eq!(session.advance(Outcome::NoSignal), Step::Resolve(Device::Input));
    assert_eq!(session.advance(Outcome::Done), Step::Open(String::from("out.wav")));
    assert_eq!(session.advance(Outcome::NoSignal), Step::Open(String::from("out.wav")));
    assert_eq!(session.stage(), Stage::Open);
}

#[test]
fn delay_comes_between_build_and_play() {
    let mut session = Session::new(record(ListenKind::Input, None, Some(5), false));
    let mut steps: Vec<Step> = vec![session.step()];
    while !session.is_over() {
        steps.push(session.advance(Outcome::Done));
    }
    let at = |wanted: &Step| steps.iter().position(|s| s == wanted).unwrap();
    let delay = at(&Step::Delay { seconds: Some(5), quiet: false });
    assert_eq!(at(&Step::Build) + 1, delay);
    assert_eq!(delay + 1, at(&Step::Play));
    assert_eq!(steps.len(), 8);
}

#[test]
fn loopback_resolves_and_waits() {
    let mut session = Session::new(loopback(ListenKind::Output, Some(2)));
    assert_eq!(session.step(), Step::Resolve(Device::Output));
    assert_eq!(session.advance(Outcome::Done), Step::Delay { seconds: Some(2), quiet: false });
    assert_eq!(session.advance(Outcome::Done), Step::Finish);
    assert!(session.is_over());
}

#[test]
fn loopback_without_a_device_leaves_with_the_error() {
    let mut session = Session::new(loopback(ListenKind::Output, None));
    assert_eq!(
        session.advance(Outcome::Failed(Error::DefaultOutputDeviceError)),
        Step::Abort(Error::DefaultOutputDeviceError)
    );
    assert_eq!(session.advance(Outcome::Done), Step::Abort(Error::DefaultOutputDeviceError));
}
