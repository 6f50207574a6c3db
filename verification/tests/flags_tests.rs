use windows_service::flags::{
    ListServiceType, ServiceAccess, ServiceActiveState, ServiceControlAccept,
    ServiceManagerAccess, ServiceType,
};
use windows_sys::Win32::System::Services;

#[test]
fn manager_access_masks_are_those_of_the_platform() {
    assert_eq!(ServiceManagerAccess::CONNECT, Services::SC_MANAGER_CONNECT);
    assert_eq!(ServiceManagerAccess::CREATE_SERVICE, Services::SC_MANAGER_CREATE_SERVICE);
    assert_eq!(ServiceManagerAccess::ENUMERATE_SERVICE, Services::SC_MANAGER_ENUMERATE_SERVICE);
    assert_eq!(ServiceManagerAccess::ALL_ACCESS, Services::SC_MANAGER_ALL_ACCESS);
    assert_eq!(ServiceManagerAccess::KNOWN_BITS, Services::SC_MANAGER_ALL_ACCESS);
}

#[test]
fn service_access_masks_are_those_of_the_platform() {
    assert_eq!(ServiceAccess::QUERY_CONFIG, Services::SERVICE_QUERY_CONFIG);
    assert_eq!(ServiceAccess::CHANGE_CONFIG, Services::SERVICE_CHANGE_CONFIG);
    assert_eq!(ServiceAccess::QUERY_STATUS, Services::SERVICE_QUERY_STATUS);
    assert_eq!(ServiceAccess::ENUMERATE_DEPENDENTS, Services::SERVICE_ENUMERATE_DEPENDENTS);
    assert_eq!(ServiceAccess::START, Services::SERVICE_START);
    assert_eq!(ServiceAccess::STOP, Services::SERVICE_STOP);
    assert_eq!(ServiceAccess::PAUSE_CONTINUE, Services::SERVICE_PAUSE_CONTINUE);
    assert_eq!(ServiceAccess::INTERROGATE, Services::SERVICE_INTERROGATE);
    assert_eq!(ServiceAccess::USER_DEFINED_CONTROL, Services::SERVICE_USER_DEFINED_CONTROL);
    assert_eq!(ServiceAccess::DELETE, 0x0001_0000);
    assert_eq!(ServiceAccess::ALL_ACCESS, Services::SERVICE_ALL_ACCESS);
    assert_eq!(ServiceAccess::KNOWN_BITS, Services::SERVICE_ALL_ACCESS);
}

#[test]
fn list_filters_are_those_of_the_platform() {
    assert_eq!(ListServiceType::DRIVER, Services::SERVICE_DRIVER);
    assert_eq!(ListServiceType::FILE_SYSTEM_DRIVER, Services::SERVICE_FILE_SYSTEM_DRIVER);
    assert_eq!(ListServiceType::KERNEL_DRIVER, Services::SERVICE_KERNEL_DRIVER);
    assert_eq!(ListServiceType::WIN32, Services::SERVICE_WIN32);
    assert_eq!(ListServiceType::WIN32_OWN_PROCESS, Services::SERVICE_WIN32_OWN_PROCESS);
    assert_eq!(ListServiceType::SHARE_PROCESS, Services::SERVICE_WIN32_SHARE_PROCESS);
    assert_eq!(ListServiceType::KNOWN_BITS, Services::SERVICE_DRIVER | Services::SERVICE_WIN32);
    assert_eq!(ServiceActiveState::ACTIVE, Services::SERVICE_ACTIVE);
    assert_eq!(ServiceActiveState::INACTIVE, Services::SERVICE_INACTIVE);
    assert_eq!(ServiceActiveState::ALL, Services::SERVICE_STATE_ALL);
    assert_eq!(ServiceActiveState::KNOWN_BITS, Services::SERVICE_STATE_ALL);
}

#[test]
fn service_types_are_those_of_the_platform() {
    assert_eq!(ServiceType::KERNEL_DRIVER, Services::SERVICE_KERNEL_DRIVER);
    assert_eq!(ServiceType::FILE_SYSTEM_DRIVER, Services::SERVICE_FILE_SYSTEM_DRIVER);
    assert_eq!(ServiceType::OWN_PROCESS, Services::SERVICE_WIN32_OWN_PROCESS);
    assert_eq!(ServiceType::SHARE_PROCESS, Services::SERVICE_WIN32_SHARE_PROCESS);
    assert_eq!(ServiceType::USER_OWN_PROCESS, Services::SERVICE_USER_OWN_PROCESS);
    assert_eq!(ServiceType::USER_SHARE_PROCESS, Services::SERVICE_USER_SHARE_PROCESS);
    assert_eq!(ServiceType::INTERACTIVE_PROCESS, 0x0000_0100);
    assert_eq!(
        ServiceType::KNOWN_BITS,
        Services::SERVICE_KERNEL_DRIVER
            | Services::SERVICE_FILE_SYSTEM_DRIVER
            | Services::SERVICE_USER_OWN_PROCESS
            | Services::SERVICE_USER_SHARE_PROCESS
            | 0x0000_0100
    );
}

#[test]
fn accepted_controls_are_those_of_the_platform() {
    assert_eq!(ServiceControlAccept::STOP, Services::SERVICE_ACCEPT_STOP);
    assert_eq!(ServiceControlAccept::PAUSE_CONTINUE, Services::SERVICE_ACCEPT_PAUSE_CONTINUE);
    assert_eq!(ServiceControlAccept::SHUTDOWN, Services::SERVICE_ACCEPT_SHUTDOWN);
    assert_eq!(ServiceControlAccept::PARAM_CHANGE, Services::SERVICE_ACCEPT_PARAMCHANGE);
    assert_eq!(ServiceControlAccept::NETBIND_CHANGE, Services::SERVICE_ACCEPT_NETBINDCHANGE);
    assert_eq!(
        ServiceControlAccept::HARDWARE_PROFILE_CHANGE,
        Services::SERVICE_ACCEPT_HARDWAREPROFILECHANGE
    );
    assert_eq!(ServiceControlAccept::POWER_EVENT, Services::SERVICE_ACCEPT_POWEREVENT);
    assert_eq!(ServiceControlAccept::SESSION_CHANGE, Services::SERVICE_ACCEPT_SESSIONCHANGE);
    assert_eq!(ServiceControlAccept::PRESHUTDOWN, Services::SERVICE_ACCEPT_PRESHUTDOWN);
    assert_eq!(ServiceControlAccept::TIME_CHANGE, Services::SERVICE_ACCEPT_TIMECHANGE);
    assert_eq!(ServiceControlAccept::TRIGGER_EVENT, Services::SERVICE_ACCEPT_TRIGGEREVENT);
    assert_eq!(ServiceControlAccept::KNOWN_BITS, 0x7FF);
}

#[test]
fn from_bits_takes_named_bits_only() {
    let access = ServiceManagerAccess::from_bits(
        ServiceManagerAccess::CONNECT | ServiceManagerAccess::ENUMERATE_SERVICE,
    )
    .unwrap();
    assert_eq!(access.bits(), 0x5);
    assert_eq!(ServiceManagerAccess::from_bits(0x100000), None);
    assert_eq!(ServiceActiveState::from_bits(4), None);
    assert_eq!(ServiceType::from_bits(0x10).unwrap().bits(), 0x10);
    assert_eq!(ServiceType::from_bits(0x8), None);
    assert_eq!(ServiceType::from_bits(0x110).unwrap().bits(), 0x110);
    assert_eq!(ServiceControlAccept::from_bits(0x800), None);
    assert_eq!(ListServiceType::from_bits(0x40), None);
    assert_eq!(ServiceAccess::from_bits(0x200), None);
    assert_eq!(ServiceAccess::from_bits(0).unwrap().bits(), 0);
}

#[test]
fn from_bits_truncate_drops_unnamed_bits() {
    assert_eq!(ServiceType::from_bits_truncate(0xFFFF_FFFF).bits(), 0x173);
    assert_eq!(ServiceControlAccept::from_bits_truncate(0x1801).bits(), 0x1);
    assert_eq!(ServiceActiveState::from_bits_truncate(7).bits(), 3);
    assert_eq!(ListServiceType::from_bits_truncate(0x7F).bits(), 0x3B);
    assert_eq!(ServiceManagerAccess::from_bits_truncate(0xFFFF_FFFF).bits(), 0xF003F);
    assert_eq!(ServiceAccess::from_bits_truncate(0xFFFF_FFFF).bits(), 0xF01FF);
}

#[test]
fn set_operations() {
    let own = ListServiceType::from_bits_truncate(ListServiceType::WIN32_OWN_PROCESS);
    let share = ListServiceType::from_bits_truncate(ListServiceType::SHARE_PROCESS);
    let win32 = ListServiceType::from_bits_truncate(ListServiceType::WIN32);
    let driver = ListServiceType::from_bits_truncate(ListServiceType::DRIVER);
    assert_eq!(own.union(share), win32);
    assert!(win32.contains(own));
    assert!(!own.contains(win32));
    assert!(win32.intersects(share));
    assert!(!win32.intersects(driver));
    assert!(ListServiceType::empty().is_empty());
    assert!(!own.is_empty());
    assert!(own.contains(ListServiceType::empty()));
    assert_eq!(driver.union(win32).bits(), ListServiceType::KNOWN_BITS);
}
