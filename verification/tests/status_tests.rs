use windows_service::error::{Error, Field};
use windows_service::flags::{ServiceActiveState, ServiceControlAccept, ServiceType};
use windows_service::status::{
    RawServiceStatus, ServiceExitCode, ServiceState, ServiceStatus, ERROR_SERVICE_SPECIFIC_ERROR,
};
use windows_sys::Win32::Foundation;
use windows_sys::Win32::System::Services;

fn running_own_process() -> RawServiceStatus {
    RawServiceStatus {
        service_type: 0x10,
        current_state: 4,
        controls_accepted: 0x5,
        win32_exit_code: 0,
        service_specific_exit_code: 0,
        check_point: 0,
        wait_hint: 0,
    }
}

#[test]
fn state_numbers_are_those_of_the_platform() {
    assert_eq!(ServiceState::Stopped.to_raw(), Services::SERVICE_STOPPED);
    assert_eq!(ServiceState::StartPending.to_raw(), Services::SERVICE_START_PENDING);
    assert_eq!(ServiceState::StopPending.to_raw(), Services::SERVICE_STOP_PENDING);
    assert_eq!(ServiceState::Running.to_raw(), Services::SERVICE_RUNNING);
    assert_eq!(ServiceState::ContinuePending.to_raw(), Services::SERVICE_CONTINUE_PENDING);
    assert_eq!(ServiceState::PausePending.to_raw(), Services::SERVICE_PAUSE_PENDING);
    assert_eq!(ServiceState::Paused.to_raw(), Services::SERVICE_PAUSED);
    assert_eq!(ERROR_SERVICE_SPECIFIC_ERROR, Foundation::ERROR_SERVICE_SPECIFIC_ERROR);
}

#[test]
fn state_from_raw_knows_one_to_seven() {
    let states = [
        ServiceState::Stopped,
        ServiceState::StartPending,
        ServiceState::StopPending,
        ServiceState::Running,
        ServiceState::ContinuePending,
        ServiceState::PausePending,
        ServiceState::Paused,
    ];
    for (i, state) in states.iter().enumerate() {
        let raw = i as u32 + 1;
        assert_eq!(ServiceState::from_raw(raw), Ok(*state));
        assert_eq!(state.to_raw(), raw);
    }
    assert_eq!(ServiceState::from_raw(0), Err(Error::ParseValue(Field::CurrentState, 0)));
    assert_eq!(ServiceState::from_raw(8), Err(Error::ParseValue(Field::CurrentState, 8)));
    assert_eq!(
        ServiceState::from_raw(u32::MAX),
        Err(Error::ParseValue(Field::CurrentState, u32::MAX))
    );
}

#[test]
fn only_stopped_is_inactive() {
    assert!(!ServiceState::Stopped.is_active());
    assert!(ServiceState::StartPending.is_active());
    assert!(ServiceState::StopPending.is_active());
    assert!(ServiceState::Running.is_active());
    assert!(ServiceState::ContinuePending.is_active());
    assert!(ServiceState::PausePending.is_active());
    assert!(ServiceState::Paused.is_active());
}

#[test]
fn decode_status_keeps_every_field() {
    let raw = RawServiceStatus {
        service_type: 0x110,
        current_state: 2,
        controls_accepted: 0x7FF,
        win32_exit_code: 5,
        service_specific_exit_code: 77,
        check_point: 3,
        wait_hint: 30_000,
    };
    let status = ServiceStatus::from_raw(&raw).unwrap();
    assert_eq!(status.service_type.bits(), 0x110);
    assert_eq!(status.service_type, ServiceType::from_bits(0x110).unwrap());
    assert_eq!(status.current_state, ServiceState::StartPending);
    assert_eq!(status.controls_accepted, ServiceControlAccept::from_bits(0x7FF).unwrap());
    assert_eq!(status.exit_code, ServiceExitCode::Win32(5));
    assert_eq!(status.checkpoint, 3);
    assert_eq!(status.wait_hint, 30_000);
}

#[test]
fn decode_status_of_a_running_service() {
    let status = ServiceStatus::from_raw(&running_own_process()).unwrap();
    assert_eq!(status.service_type.bits(), ServiceType::OWN_PROCESS);
    assert_eq!(status.current_state, ServiceState::Running);
    assert_eq!(
        status.controls_accepted.bits(),
        ServiceControlAccept::STOP | ServiceControlAccept::SHUTDOWN
    );
    assert_eq!(status.exit_code, ServiceExitCode::Win32(0));
}

#[test]
fn decode_status_service_specific_exit_code() {
    let raw = RawServiceStatus {
        win32_exit_code: 1066,
        service_specific_exit_code: 42,
        current_state: 1,
        ..running_own_process()
    };
    let status = ServiceStatus::from_raw(&raw).unwrap();
    assert_eq!(status.exit_code, ServiceExitCode::ServiceSpecific(42));
    assert_eq!(status.current_state, ServiceState::Stopped);
    let raw = RawServiceStatus { win32_exit_code: 1065, ..raw };
    assert_eq!(ServiceStatus::from_raw(&raw).unwrap().exit_code, ServiceExitCode::Win32(1065));
}

#[test]
fn decode_status_names_an_unknown_service_type() {
    let raw = RawServiceStatus { service_type: 0x8, ..running_own_process() };
    assert_eq!(ServiceStatus::from_raw(&raw), Err(Error::ParseValue(Field::ServiceType, 0x8)));
    let raw = RawServiceStatus { service_type: 0x1_0010, ..running_own_process() };
    assert_eq!(
        ServiceStatus::from_raw(&raw),
        Err(Error::ParseValue(Field::ServiceType, 0x1_0010))
    );
}

#[test]
fn decode_status_names_an_unknown_state() {
    let raw = RawServiceStatus { current_state: 0, ..running_own_process() };
    assert_eq!(ServiceStatus::from_raw(&raw), Err(Error::ParseValue(Field::CurrentState, 0)));
    let raw = RawServiceStatus { current_state: 9, ..running_own_process() };
    assert_eq!(ServiceStatus::from_raw(&raw), Err(Error::ParseValue(Field::CurrentState, 9)));
}

#[test]
fn decode_status_names_unknown_controls() {
    let raw = RawServiceStatus { controls_accepted: 0x8000, ..running_own_process() };
    assert_eq!(
        ServiceStatus::from_raw(&raw),
        Err(Error::ParseValue(Field::ControlsAccepted, 0x8000))
    );
}

#[test]
fn decode_status_reports_the_first_bad_field() {
    let raw = RawServiceStatus {
        service_type: 0x4,
        current_state: 99,
        controls_accepted: 0xFFFF,
        ..running_own_process()
    };
    assert_eq!(ServiceStatus::from_raw(&raw), Err(Error::ParseValue(Field::ServiceType, 0x4)));
    let raw = RawServiceStatus { service_type: 0x20, ..raw };
    assert_eq!(ServiceStatus::from_raw(&raw), Err(Error::ParseValue(Field::CurrentState, 99)));
    let raw = RawServiceStatus { current_state: 7, ..raw };
    assert_eq!(
        ServiceStatus::from_raw(&raw),
        Err(Error::ParseValue(Field::ControlsAccepted, 0xFFFF))
    );
}

#[test]
fn state_filter_selects_by_activity() {
    let active = ServiceActiveState::from_bits(ServiceActiveState::ACTIVE).unwrap();
    let inactive = ServiceActiveState::from_bits(ServiceActiveState::INACTIVE).unwrap();
    let all = ServiceActiveState::from_bits(ServiceActiveState::ALL).unwrap();
    assert!(active.selects(ServiceState::Running));
    assert!(active.selects(ServiceState::Paused));
    assert!(!active.selects(ServiceState::Stopped));
    assert!(inactive.selects(ServiceState::Stopped));
    assert!(!inactive.selects(ServiceState::Running));
    assert!(!inactive.selects(ServiceState::StopPending));
    assert!(all.selects(ServiceState::Stopped));
    assert!(all.selects(ServiceState::Running));
    assert!(!ServiceActiveState::empty().selects(ServiceState::Running));
}

#[test]
fn field_names() {
    assert_eq!(Field::ServiceType.name(), "service type");
    assert_eq!(Field::CurrentState.name(), "current state");
    assert_eq!(Field::ControlsAccepted.name(), "controls accepted");
}
