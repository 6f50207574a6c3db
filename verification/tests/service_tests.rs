use windows_service::error::{Argument, Error, NulByteInInput};
use windows_service::flags::ServiceType;
use windows_service::service::{
    join_dependencies, launch_command, RawServiceInfo, ServiceDependency, ServiceErrorControl,
    ServiceInfo, ServiceStartType, GROUP_IDENTIFIER,
};
use windows_sys::Win32::System::Services;

fn wide(text: &str) -> Vec<u16> {
    text.encode_utf16().collect()
}

fn my_service() -> ServiceInfo {
    ServiceInfo {
        name: String::from("my_service"),
        display_name: String::from("My service"),
        service_type: ServiceType::from_bits(ServiceType::OWN_PROCESS).unwrap(),
        start_type: ServiceStartType::OnDemand,
        error_control: ServiceErrorControl::Normal,
        executable_path: String::from(r"C:\path\to\my\service.exe"),
        launch_arguments: vec![],
        dependencies: vec![],
        account_name: None,
        account_password: None,
    }
}

#[test]
fn start_type_numbers_are_those_of_the_platform() {
    assert_eq!(ServiceStartType::BootStart.to_raw(), Services::SERVICE_BOOT_START);
    assert_eq!(ServiceStartType::SystemStart.to_raw(), Services::SERVICE_SYSTEM_START);
    assert_eq!(ServiceStartType::AutoStart.to_raw(), Services::SERVICE_AUTO_START);
    assert_eq!(ServiceStartType::OnDemand.to_raw(), Services::SERVICE_DEMAND_START);
    assert_eq!(ServiceStartType::Disabled.to_raw(), Services::SERVICE_DISABLED);
}

#[test]
fn error_control_numbers_are_those_of_the_platform() {
    assert_eq!(ServiceErrorControl::Ignore.to_raw(), Services::SERVICE_ERROR_IGNORE);
    assert_eq!(ServiceErrorControl::Normal.to_raw(), Services::SERVICE_ERROR_NORMAL);
    assert_eq!(ServiceErrorControl::Severe.to_raw(), Services::SERVICE_ERROR_SEVERE);
    assert_eq!(ServiceErrorControl::Critical.to_raw(), Services::SERVICE_ERROR_CRITICAL);
}

#[test]
fn group_identifier_is_the_plus_sign() {
    assert_eq!(GROUP_IDENTIFIER, '+' as u16);
}

#[test]
fn dependency_identifiers() {
    let service = ServiceDependency::Service(String::from("rpcss"));
    assert_eq!(service.to_system_identifier(), Ok(wide("rpcss")));
    let group = ServiceDependency::Group(String::from("NetworkProvider"));
    assert_eq!(group.to_system_identifier(), Ok(wide("+NetworkProvider")));
    let bad = ServiceDependency::Group(String::from("Net\0work"));
    assert_eq!(bad.to_system_identifier(), Err(NulByteInInput));
}

#[test]
fn no_dependencies_give_no_list() {
    assert_eq!(join_dependencies(&vec![]), Ok(None));
}

#[test]
fn dependencies_are_joined_with_a_double_nul_at_the_end() {
    let deps = vec![
        ServiceDependency::Service(String::from("a")),
        ServiceDependency::Group(String::from("bc")),
        ServiceDependency::Service(String::from("d")),
    ];
    let expected: Vec<u16> = wide("a\0+bc\0d\0\0");
    assert_eq!(join_dependencies(&deps), Ok(Some(expected)));
    let one = vec![ServiceDependency::Service(String::from("rpcss"))];
    assert_eq!(join_dependencies(&one), Ok(Some(wide("rpcss\0\0"))));
}

#[test]
fn dependency_with_embedded_nul_is_refused() {
    let deps = vec![
        ServiceDependency::Service(String::from("a")),
        ServiceDependency::Service(String::from("b\0c")),
    ];
    assert_eq!(join_dependencies(&deps), Err(NulByteInInput));
}

#[test]
fn launch_command_without_arguments_is_the_program() {
    let line = launch_command(&String::from(r"C:\svc.exe"), &vec![]).unwrap();
    assert_eq!(line.to_string_lossy(), r"C:\svc.exe");
    let line = launch_command(&String::from(r"C:\Program Files\svc.exe"), &vec![]).unwrap();
    assert_eq!(line.to_string_lossy(), "\"C:\\Program Files\\svc.exe\"");
}

#[test]
fn launch_command_quotes_and_joins_arguments() {
    let args = vec![
        String::from("--name"),
        String::from("my service"),
        String::from(""),
        String::from("say \"hi\""),
        String::from(r"C:\dir with space\"),
    ];
    let line = launch_command(&String::from(r"C:\Program Files\svc.exe"), &args).unwrap();
    assert_eq!(
        line.to_string_lossy(),
        "\"C:\\Program Files\\svc.exe\" --name \"my service\" \"\" \"say \\\"hi\\\"\" \"C:\\dir with space\\\\\""
    );
    assert_eq!(*line.as_slice_with_nul().last().unwrap(), 0);
    assert!(!line.as_slice().contains(&0));
}

#[test]
fn launch_command_names_the_part_with_a_nul() {
    let args = vec![String::from("ok"), String::from("b\0ad")];
    assert_eq!(
        launch_command(&String::from("svc.exe"), &args).err(),
        Some(Argument::LaunchArgument)
    );
    assert_eq!(
        launch_command(&String::from("s\0vc.exe"), &args).err(),
        Some(Argument::ExecutablePath)
    );
}

#[test]
fn raw_info_encodes_every_field() {
    let info = ServiceInfo {
        launch_arguments: vec![String::from("run"), String::from("two words")],
        dependencies: vec![
            ServiceDependency::Service(String::from("rpcss")),
            ServiceDependency::Group(String::from("net")),
        ],
        account_name: Some(String::from(r".\svc")),
        account_password: Some(String::from("secret")),
        start_type: ServiceStartType::AutoStart,
        error_control: ServiceErrorControl::Severe,
        ..my_service()
    };
    let raw = RawServiceInfo::new(&info).ok().unwrap();
    assert_eq!(raw.name.as_slice_with_nul(), wide("my_service\0").as_slice());
    assert_eq!(raw.display_name.as_slice_with_nul(), wide("My service\0").as_slice());
    assert_eq!(raw.service_type, 0x10);
    assert_eq!(raw.start_type, 2);
    assert_eq!(raw.error_control, 2);
    assert_eq!(
        raw.launch_command.as_slice_with_nul(),
        wide("C:\\path\\to\\my\\service.exe run \"two words\"\0").as_slice()
    );
    assert_eq!(raw.dependencies, Some(wide("rpcss\0+net\0\0")));
    assert_eq!(raw.account_name.unwrap().as_slice_with_nul(), wide(".\\svc\0").as_slice());
    assert_eq!(raw.account_password.unwrap().as_slice_with_nul(), wide("secret\0").as_slice());
}

#[test]
fn raw_info_of_a_minimal_service() {
    let raw = RawServiceInfo::new(&my_service()).ok().unwrap();
    assert_eq!(raw.launch_command.to_string_lossy(), r"C:\path\to\my\service.exe");
    assert_eq!(raw.dependencies, None);
    assert!(raw.account_name.is_none());
    assert!(raw.account_password.is_none());
    assert_eq!(raw.start_type, 3);
    assert_eq!(raw.error_control, 1);
}

#[test]
fn raw_info_names_the_first_argument_with_a_nul() {
    let bad = |info: ServiceInfo| RawServiceInfo::new(&info).err();
    let all_bad = ServiceInfo {
        name: String::from("my\0service"),
        display_name: String::from("My\0service"),
        executable_path: String::from("C:\\\0"),
        launch_arguments: vec![String::from("\0a")],
        dependencies: vec![ServiceDependency::Service(String::from("\0b"))],
        account_name: Some(String::from("a\0b")),
        account_password: Some(String::from("p\0w")),
        ..my_service()
    };
    assert_eq!(bad(all_bad.clone()), Some(Error::ArgumentHasNulByte(Argument::ServiceName)));
    let info = ServiceInfo { name: String::from("svc"), ..all_bad };
    assert_eq!(bad(info.clone()), Some(Error::ArgumentHasNulByte(Argument::DisplayName)));
    let info = ServiceInfo { display_name: String::from("Svc"), ..info };
    assert_eq!(bad(info.clone()), Some(Error::ArgumentHasNulByte(Argument::AccountName)));
    let info = ServiceInfo { account_name: None, ..info };
    assert_eq!(bad(info.clone()), Some(Error::ArgumentHasNulByte(Argument::AccountPassword)));
    let info = ServiceInfo { account_password: Some(String::from("pw")), ..info };
    assert_eq!(bad(info.clone()), Some(Error::ArgumentHasNulByte(Argument::LaunchArgument)));
    let info = ServiceInfo { launch_arguments: vec![String::from("a")], ..info };
    assert_eq!(bad(info.clone()), Some(Error::ArgumentHasNulByte(Argument::Dependency)));
    let info = ServiceInfo { dependencies: vec![], ..info };
    assert!(RawServiceInfo::new(&info).is_ok());
    let info = ServiceInfo { executable_path: String::from("C:\\\0x"), ..info };
    assert_eq!(bad(info), Some(Error::ArgumentHasNulByte(Argument::ExecutablePath)));
}

#[test]
fn argument_names() {
    assert_eq!(Argument::MachineName.name(), "machine name");
    assert_eq!(Argument::DatabaseName.name(), "database name");
    assert_eq!(Argument::ServiceName.name(), "service name");
    assert_eq!(Argument::NewServiceName.name(), "service_name");
    assert_eq!(Argument::DisplayName.name(), "display name");
    assert_eq!(Argument::ExecutablePath.name(), "executable path");
    assert_eq!(Argument::LaunchArgument.name(), "launch argument");
    assert_eq!(Argument::Dependency.name(), "dependency");
    assert_eq!(Argument::AccountName.name(), "account name");
    assert_eq!(Argument::AccountPassword.name(), "account password");
}
