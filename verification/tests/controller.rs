use fnlock::api_main;
use fnlock::catalog::DeviceInfo;
use fnlock::catalog::HidRecord;
use fnlock::codec::Command;
use fnlock::controller::fnlock;
use fnlock::controller::Action;
use fnlock::controller::Event;
use fnlock::controller::Phase;
use fnlock::controller::Toggle;
use fnlock::error::ErrorKind;
use fnlock::session::LockState;
use fnlock::session::SessionState;
use fnlock::Opts;

const LOCK: [u8; 7] = [0x10, 0xff, 0x0b, 0x1e, 0x00, 0x00, 0x00];
const UNLOCK: [u8; 7] = [0x10, 0xff, 0x0b, 0x1e, 0x01, 0x00, 0x00];

fn keyboard(handle: u64) -> DeviceInfo {
    DeviceInfo::from_record(
        &HidRecord {
            handle,
            vendor_id: 0x046d,
            product_id: 0xb342,
            usage: 0x0001,
            usage_page: 0xff00,
            manufacturer: Some("Logitech".to_owned()),
            product: Some("Keyboard K380".to_owned()),
        },
    )
}

fn mouse(handle: u64) -> DeviceInfo {
    DeviceInfo::from_record(
        &HidRecord {
            handle,
            vendor_id: 0x1234,
            product_id: 0x0001,
            usage: 0x0002,
            usage_page: 0x0001,
            manufacturer: None,
            product: Some("Mouse".to_owned()),
        },
    )
}

fn sent_bytes(action: &Action) -> Option<[u8; 7]> {
    match action {
        Action::Send { payload } => Some(*payload.as_bytes()),
        _ => None,
    }
}

#[test]
fn fnlock_locks_an_opened_device() {
    assert_eq!(sent_bytes(&fnlock(Some(3), true)), Some(LOCK));
}

#[test]
fn fnlock_unlocks_an_opened_device() {
    assert_eq!(sent_bytes(&fnlock(Some(3), false)), Some(UNLOCK));
}

#[test]
fn fnlock_without_device_does_nothing() {
    assert!(matches!(fnlock(None, true), Action::Nothing));
    assert!(matches!(fnlock(None, false), Action::Nothing));
}

#[test]
fn begin_asks_to_open_the_device() {
    let device = keyboard(17);
    let (toggle, action) = Toggle::begin(&device, 4, Command::Unlock);
    assert!(matches!(action, Action::Open { handle: 17 }));
    assert_eq!(toggle.phase(), Phase::Opening);
    assert_eq!(toggle.handle(), 17);
    assert_eq!(toggle.command(), Command::Unlock);
    assert_eq!(toggle.identity(), device.identity(4));
}

#[test]
fn toggle_that_goes_through() {
    let device = keyboard(1);
    let mut session = SessionState::new();
    let (mut toggle, _) = Toggle::begin(&device, 0, Command::Lock);
    let action = toggle.step(Event::Opened, &mut session);
    assert_eq!(sent_bytes(&action), Some(LOCK));
    assert_eq!(toggle.phase(), Phase::Sending);
    assert!(session.get(device.identity(0)).is_none());
    let action = toggle.step(Event::Sent, &mut session);
    assert!(matches!(action, Action::Close { result: Ok(()) }));
    assert_eq!(toggle.phase(), Phase::Done);
    assert_eq!(session.get(device.identity(0)).unwrap().state(), LockState::Locked);
}

#[test]
fn toggle_sends_the_unlock_report_for_unlock() {
    let device = keyboard(1);
    let mut session = SessionState::new();
    let (mut toggle, _) = Toggle::begin(&device, 0, Command::Unlock);
    let action = toggle.step(Event::Opened, &mut session);
    assert_eq!(sent_bytes(&action), Some(UNLOCK));
    toggle.step(Event::Sent, &mut session);
    assert_eq!(session.get(device.identity(0)).unwrap().state(), LockState::Unlocked);
}

#[test]
fn scenario_open_failure_sends_nothing_and_records_nothing() {
    let device = keyboard(1);
    let mut session = SessionState::new();
    let (mut toggle, _) = Toggle::begin(&device, 0, Command::Lock);
    let action = toggle.step(Event::OpenFailed("no such device".to_owned()), &mut session);
    match action {
        Action::Report { error } => {
            assert_eq!(error.kind, ErrorKind::OpenFailed);
            assert_eq!(error.detail, "no such device");
        },
        other => panic!("unexpected action {:?}", other),
    }
    assert_eq!(toggle.phase(), Phase::Done);
    assert!(session.get(device.identity(0)).is_none());
    for event in [Event::Opened, Event::Sent, Event::SendFailed("x".to_owned())] {
        assert!(matches!(toggle.step(event, &mut session), Action::Nothing));
    }
    assert!(session.get(device.identity(0)).is_none());
}

#[test]
fn open_failure_leaves_an_existing_entry_alone() {
    let device = keyboard(1);
    let mut session = SessionState::new();
    session.record(device.identity(0), Command::Unlock, Ok(()));
    let (mut toggle, _) = Toggle::begin(&device, 0, Command::Lock);
    toggle.step(Event::OpenFailed("denied".to_owned()), &mut session);
    let entry = session.get(device.identity(0)).unwrap();
    assert_eq!(entry.state(), LockState::Unlocked);
    assert_eq!(entry.last_requested_state, Some(Command::Unlock));
}

#[test]
fn write_failure_is_recorded_and_the_handle_released() {
    let device = keyboard(1);
    let mut session = SessionState::new();
    session.record(device.identity(1), Command::Unlock, Ok(()));
    let (mut toggle, _) = Toggle::begin(&device, 0, Command::Lock);
    toggle.step(Event::Opened, &mut session);
    let action = toggle.step(Event::SendFailed("device detached".to_owned()), &mut session);
    match action {
        Action::Close { result: Err(error) } => {
            assert_eq!(error.kind, ErrorKind::WriteFailed);
            assert_eq!(error.detail, "device detached");
        },
        other => panic!("unexpected action {:?}", other),
    }
    assert_eq!(toggle.phase(), Phase::Done);
    let entry = session.get(device.identity(0)).unwrap();
    assert_eq!(entry.last_requested_state, Some(Command::Lock));
    assert_eq!(entry.last_result.as_ref().unwrap_err().kind, ErrorKind::WriteFailed);
    assert_eq!(entry.state(), LockState::Failed(Command::Lock));
    assert_eq!(session.get(device.identity(1)).unwrap().state(), LockState::Unlocked);
}

#[test]
fn events_out_of_place_change_nothing() {
    let device = keyboard(1);
    let mut session = SessionState::new();
    let (mut toggle, _) = Toggle::begin(&device, 0, Command::Lock);
    assert!(matches!(toggle.step(Event::Sent, &mut session), Action::Nothing));
    assert!(matches!(toggle.step(Event::SendFailed("x".to_owned()), &mut session), Action::Nothing));
    assert_eq!(toggle.phase(), Phase::Opening);
    toggle.step(Event::Opened, &mut session);
    assert!(matches!(toggle.step(Event::Opened, &mut session), Action::Nothing));
    assert!(matches!(toggle.step(Event::OpenFailed("x".to_owned()), &mut session), Action::Nothing));
    assert_eq!(toggle.phase(), Phase::Sending);
    assert!(session.get(device.identity(0)).is_none());
}

#[test]
fn api_main_locks_the_first_target_by_default() {
    let devices = vec![mouse(0), keyboard(1), keyboard(2)];
    let (toggle, action) = api_main(&Opts::default(), &devices).unwrap();
    assert!(matches!(action, Action::Open { handle: 1 }));
    assert_eq!(toggle.command(), Command::Lock);
    assert_eq!(toggle.identity(), devices[1].identity(1));
    assert_eq!(toggle.phase(), Phase::Opening);
}

#[test]
fn api_main_unlocks_when_asked() {
    let devices = vec![keyboard(5)];
    let opts = Opts { unlock: true, gui: false };
    let (mut toggle, action) = api_main(&opts, &devices).unwrap();
    assert!(matches!(action, Action::Open { handle: 5 }));
    assert_eq!(toggle.command(), Command::Unlock);
    let mut session = SessionState::new();
    assert_eq!(sent_bytes(&toggle.step(Event::Opened, &mut session)), Some(UNLOCK));
}

#[test]
fn api_main_without_target_is_no_target_found() {
    let error = api_main(&Opts::default(), &[mouse(0)]).unwrap_err();
    assert_eq!(error.kind, ErrorKind::NoTargetFound);
    assert_eq!(error.detail, "");
    let error = api_main(&Opts::default(), &[]).unwrap_err();
    assert_eq!(error.kind, ErrorKind::NoTargetFound);
}

#[test]
fn opts_default_locks_on_the_command_line() {
    let opts = Opts::default();
    assert!(!opts.unlock);
    assert!(!opts.gui);
    assert_eq!(opts, Opts { unlock: false, gui: false });
}
