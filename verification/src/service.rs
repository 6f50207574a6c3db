//! The description from which a service is created, its encoded form, and
//! the handle of an open service.

use vstd::prelude::*;

use crate::error::{Argument, Error, NulByteInInput};
use crate::flags::ServiceType;
use crate::handle::ScHandle;
use crate::shell_escape::{
    command_line, escape, lemma_command_line_nul_free, quoted, SPACE,
};
use crate::wide::{
    encode, encode_optional, encoded, encodes_optional, has_embedded_nul,
    lemma_encode_then_decode, WideString,
};

verus! {

/// The unit that marks a dependency as a load-ordering group: the plus sign.
pub const GROUP_IDENTIFIER: u16 = 0x2B;

/// When a service is started.
#[derive(Debug, Clone, Copy, PartialEq, Eq, Hash, Structural)]
pub enum ServiceStartType {
    /// By the service control manager during system startup.
    AutoStart,
    /// When a process asks for it.
    OnDemand,
    /// Never.
    Disabled,
    /// By the system initialisation; for drivers only.
    SystemStart,
    /// By the system loader; for drivers only.
    BootStart,
}

impl ServiceStartType {
    /// The number that the service control manager knows the start type by.
    pub open spec fn spec_to_raw(&self) -> u32 {
        match self {
            ServiceStartType::BootStart => 0,
            ServiceStartType::SystemStart => 1,
            ServiceStartType::AutoStart => 2,
            ServiceStartType::OnDemand => 3,
            ServiceStartType::Disabled => 4,
        }
    }

    /// The number that the service control manager knows the start type by.
    #[verifier::when_used_as_spec(spec_to_raw)]
    pub fn to_raw(&self) -> (raw: u32)
        ensures
            raw == self.spec_to_raw(),
    {
        match self {
            ServiceStartType::BootStart => 0,
            ServiceStartType::SystemStart => 1,
            ServiceStartType::AutoStart => 2,
            ServiceStartType::OnDemand => 3,
            ServiceStartType::Disabled => 4,
        }
    }
}

/// What the system does when a service fails to start at boot.
#[derive(Debug, Clone, Copy, PartialEq, Eq, Hash, Structural)]
pub enum ServiceErrorControl {
    /// Logs the error and restarts with the last good configuration, or
    /// fails the startup if that is already running.
    Critical,
    /// Goes on with the startup.
    Ignore,
    /// Logs the error and goes on with the startup.
    Normal,
    /// Logs the error and restarts with the last good configuration, or
    /// goes on if that is already running.
    Severe,
}

impl ServiceErrorControl {
    /// The number that the service control manager knows the policy by.
    pub open spec fn spec_to_raw(&self) -> u32 {
        match self {
            ServiceErrorControl::Ignore => 0,
            ServiceErrorControl::Normal => 1,
            ServiceErrorControl::Severe => 2,
            ServiceErrorControl::Critical => 3,
        }
    }

    /// The number that the service control manager knows the policy by.
    #[verifier::when_used_as_spec(spec_to_raw)]
    pub fn to_raw(&self) -> (raw: u32)
        ensures
            raw == self.spec_to_raw(),
    {
        match self {
            ServiceErrorControl::Ignore => 0,
            ServiceErrorControl::Normal => 1,
            ServiceErrorControl::Severe => 2,
            ServiceErrorControl::Critical => 3,
        }
    }
}

/// What a service needs to have running before it starts.
#[derive(Debug, Clone, PartialEq, Eq, Hash)]
pub enum ServiceDependency {
    /// Another service, by its name.
    Service(String),
    /// A load-ordering group, by its name.
    Group(String),
}

impl ServiceDependency {
    /// The name of the service or group.
    pub open spec fn name(self) -> Seq<char> {
        match self {
            ServiceDependency::Service(name) => name@,
            ServiceDependency::Group(name) => name@,
        }
    }

    /// The units by which the service control manager knows the
    /// dependency: the encoded name, behind [`GROUP_IDENTIFIER`] for a
    /// group. None where the name holds an embedded nul.
    pub open spec fn identifier(self) -> Option<Seq<u16>> {
        match encoded(self.name()) {
            None => None,
            Some(units) => Some(
                if self is Group {
                    seq![GROUP_IDENTIFIER] + units
                } else {
                    units
                },
            ),
        }
    }

    /// The units by which the service control manager knows the dependency.
    pub fn to_system_identifier(&self) -> (r: Result<Vec<u16>, NulByteInInput>)
        ensures
            match self.identifier() {
                Some(units) => r matches Ok(v) && v@ == units && !v@.contains(0),
                None => r == Err::<Vec<u16>, NulByteInInput>(NulByteInInput),
            },
    {
        let mut units: Vec<u16> = Vec::new();
        let name = match self {
            ServiceDependency::Service(name) => name,
            ServiceDependency::Group(name) => {
                units.push(GROUP_IDENTIFIER);
                name
            },
        };
        let wide = match encode(name.as_str()) {
            Ok(wide) => wide,
            Err(e) => {
                return Err(e);
            },
        };
        let ghost prefix = units@;
        let content = wide.as_slice();
        units.extend_from_slice(content);
        proof {
            assert(units@ =~= prefix + wide@);
            if units@.contains(0) {
                let i = choose|i: int| 0 <= i < units@.len() && units@[i] == 0;
                assert(wide@[i - prefix.len()] == 0);
                assert(wide@.contains(0));
            }
        }
        Ok(units)
    }
}

/// What a caller states of the service it wants created. Made by the
/// caller, read once by [`RawServiceInfo::new`], kept nowhere.
#[derive(Debug, Clone, PartialEq, Eq, Hash)]
pub struct ServiceInfo {
    /// The name by which the service control manager keys the service.
    pub name: String,
    /// The name that is shown to people.
    pub display_name: String,
    /// The kind of the service.
    pub service_type: ServiceType,
    /// When the service is started.
    pub start_type: ServiceStartType,
    /// What happens when the service fails to start at boot.
    pub error_control: ServiceErrorControl,
    /// The path of the program that runs the service.
    pub executable_path: String,
    /// The arguments that the program is launched with.
    pub launch_arguments: Vec<String>,
    /// What has to run before the service starts.
    pub dependencies: Vec<ServiceDependency>,
    /// The account that the service runs under; none for the system account.
    pub account_name: Option<String>,
    /// The password of that account.
    pub account_password: Option<String>,
}

/// The encoded form of each text: what [`encode`] makes of it.
pub open spec fn encoded_texts(texts: Seq<String>) -> Seq<Seq<u16>> {
    Seq::new(texts.len(), |i: int| encoded(texts[i]@)->0)
}

/// The identifier of each dependency.
pub open spec fn identifiers(dependencies: Seq<ServiceDependency>) -> Seq<Seq<u16>> {
    Seq::new(dependencies.len(), |i: int| dependencies[i].identifier()->0)
}

/// Each item followed by a nul.
pub open spec fn nul_separated(items: Seq<Seq<u16>>) -> Seq<u16>
    decreases items.len(),
{
    if items.len() == 0 {
        Seq::empty()
    } else {
        nul_separated(items.drop_last()) + items.last().push(0)
    }
}

/// The list form in which the service control manager takes several
/// names at once: each followed by a nul, and one more nul at the end. No
/// list stands for no names.
pub open spec fn double_nul_terminated(items: Seq<Seq<u16>>) -> Option<Seq<u16>> {
    if items.len() == 0 {
        None
    } else {
        Some(nul_separated(items).push(0))
    }
}

/// The first argument, in the order in which they are encoded, that holds
/// an embedded nul.
pub open spec fn first_argument_with_nul(info: ServiceInfo) -> Option<Argument> {
    if has_embedded_nul(info.name@) {
        Some(Argument::ServiceName)
    } else if has_embedded_nul(info.display_name@) {
        Some(Argument::DisplayName)
    } else if info.account_name matches Some(account) && has_embedded_nul(account@) {
        Some(Argument::AccountName)
    } else if info.account_password matches Some(password) && has_embedded_nul(password@) {
        Some(Argument::AccountPassword)
    } else if has_embedded_nul(info.executable_path@) {
        Some(Argument::ExecutablePath)
    } else if exists|i: int|
        0 <= i < info.launch_arguments@.len() && has_embedded_nul(
            (#[trigger] info.launch_arguments@[i])@,
        ) {
        Some(Argument::LaunchArgument)
    } else if exists|i: int|
        0 <= i < info.dependencies@.len() && (#[trigger] info.dependencies@[i]).identifier()
            is None {
        Some(Argument::Dependency)
    } else {
        None
    }
}

/// The text of an optional string.
pub open spec fn optional_string(text: Option<String>) -> Option<Seq<char>> {
    match text {
        None => None,
        Some(t) => Some(t@),
    }
}

/// A [`ServiceInfo`] in the form in which the creation call takes it: every
/// text encoded and nul-terminated, every choice as its number. It lives
/// for the one call that it is made for.
pub struct RawServiceInfo {
    /// The encoded service name.
    pub name: WideString,
    /// The encoded display name.
    pub display_name: WideString,
    /// The mask of the service type.
    pub service_type: u32,
    /// The number of the start type.
    pub start_type: u32,
    /// The number of the error control policy.
    pub error_control: u32,
    /// The program and its arguments as one command line.
    pub launch_command: WideString,
    /// The dependencies as a double-nul-terminated list; none where the
    /// service depends on nothing.
    pub dependencies: Option<Vec<u16>>,
    /// The encoded account name.
    pub account_name: Option<WideString>,
    /// The encoded account password.
    pub account_password: Option<WideString>,
}

impl RawServiceInfo {
    /// Every field holds what the same part of `info` is encoded to.
    pub open spec fn encodes(self, info: ServiceInfo) -> bool {
        &&& Some(self.name@) == encoded(info.name@)
        &&& Some(self.display_name@) == encoded(info.display_name@)
        &&& self.service_type == info.service_type.bits()
        &&& self.start_type == info.start_type.spec_to_raw()
        &&& self.error_control == info.error_control.spec_to_raw()
        &&& encoded(info.executable_path@) matches Some(program) && self.launch_command@
            == command_line(program, encoded_texts(info.launch_arguments@))
        &&& match double_nul_terminated(identifiers(info.dependencies@)) {
            None => self.dependencies is None,
            Some(list) => self.dependencies matches Some(v) && v@ == list,
        }
        &&& encodes_optional(self.account_name, optional_string(info.account_name))
        &&& encodes_optional(self.account_password, optional_string(info.account_password))
    }

    /// Encodes a service description. The program path and the launch
    /// arguments are quoted and joined into one command line, the
    /// dependencies into one double-nul-terminated list. The first text
    /// that holds an embedded nul stops the encoding, and is named.
    pub fn new(info: &ServiceInfo) -> (r: Result<RawServiceInfo, Error>)
        ensures
            match first_argument_with_nul(*info) {
                Some(argument) => r == Err::<RawServiceInfo, Error>(
                    Error::ArgumentHasNulByte(argument),
                ),
                None => r matches Ok(raw) && raw.encodes(*info),
            },
    {
        let name = match encode(info.name.as_str()) {
            Ok(wide) => wide,
            Err(_) => {
                return Err(Error::ArgumentHasNulByte(Argument::ServiceName));
            },
        };
        let display_name = match encode(info.display_name.as_str()) {
            Ok(wide) => wide,
            Err(_) => {
                return Err(Error::ArgumentHasNulByte(Argument::DisplayName));
            },
        };
        let account_name = match encode_optional_string(&info.account_name) {
            Ok(wide) => wide,
            Err(_) => {
                return Err(Error::ArgumentHasNulByte(Argument::AccountName));
            },
        };
        let account_password = match encode_optional_string(&info.account_password) {
            Ok(wide) => wide,
            Err(_) => {
                return Err(Error::ArgumentHasNulByte(Argument::AccountPassword));
            },
        };
        let launch_command = match launch_command(&info.executable_path, &info.launch_arguments) {
            Ok(wide) => wide,
            Err(argument) => {
                return Err(Error::ArgumentHasNulByte(argument));
            },
        };
        let dependencies = match join_dependencies(&info.dependencies) {
            Ok(list) => list,
            Err(_) => {
                return Err(Error::ArgumentHasNulByte(Argument::Dependency));
            },
        };
        Ok(
            RawServiceInfo {
                name,
                display_name,
                service_type: info.service_type.bits(),
                start_type: info.start_type.to_raw(),
                error_control: info.error_control.to_raw(),
                launch_command,
                dependencies,
                account_name,
                account_password,
            },
        )
    }
}

/// [`encode_optional`] for an owned optional text.
pub fn encode_optional_string(text: &Option<String>) -> (r: Result<
    Option<WideString>,
    NulByteInInput,
>)
    ensures
        match *text {
            Some(t) if has_embedded_nul(t@) => r == Err::<Option<WideString>, NulByteInInput>(
                NulByteInInput,
            ),
            _ => r matches Ok(wide) && encodes_optional(wide, optional_string(*text)),
        },
{
    match text {
        None => encode_optional(None),
        Some(t) => encode_optional(Some(t.as_str())),
    }
}

/// The command line that launches a program with arguments: each encoded
/// and quoted, a space between them. The error names the part that holds
/// an embedded nul, the program path before any argument.
pub fn launch_command(executable_path: &String, launch_arguments: &Vec<String>) -> (r: Result<
    WideString,
    Argument,
>)
    ensures
        has_embedded_nul(executable_path@) ==> r == Err::<WideString, Argument>(
            Argument::ExecutablePath,
        ),
        !has_embedded_nul(executable_path@) && (exists|i: int|
            0 <= i < launch_arguments@.len() && has_embedded_nul(
                (#[trigger] launch_arguments@[i])@,
            )) ==> r == Err::<WideString, Argument>(Argument::LaunchArgument),
        !has_embedded_nul(executable_path@) && (forall|i: int|
            0 <= i < launch_arguments@.len() ==> !has_embedded_nul(
                (#[trigger] launch_arguments@[i])@,
            )) ==> (r matches Ok(wide) && wide@ == command_line(
            encoded(executable_path@)->0,
            encoded_texts(launch_arguments@),
        )),
{
    let program = match encode(executable_path.as_str()) {
        Ok(wide) => wide,
        Err(_) => {
            return Err(Argument::ExecutablePath);
        },
    };
    let ghost args = encoded_texts(launch_arguments@);
    let mut line = escape(program.as_slice());
    assert(args.take(0) =~= Seq::<Seq<u16>>::empty());
    let mut i: usize = 0;
    while i < launch_arguments.len()
        invariant
            i <= launch_arguments@.len(),
            args == encoded_texts(launch_arguments@),
            !has_embedded_nul(executable_path@),
            Some(program@) == encoded(executable_path@),
            !program@.contains(0),
            forall|k: int| 0 <= k < i ==> !has_embedded_nul((#[trigger] launch_arguments@[k])@),
            line@ == command_line(program@, args.take(i as int)),
        decreases launch_arguments@.len() - i,
    {
        let argument = match encode(launch_arguments[i].as_str()) {
            Ok(wide) => wide,
            Err(_) => {
                return Err(Argument::LaunchArgument);
            },
        };
        let mut part = escape(argument.as_slice());
        line.push(SPACE);
        line.append(&mut part);
        proof {
            let upto = args.take(i as int + 1);
            assert(upto.drop_last() =~= args.take(i as int));
            assert(upto.last() == argument@);
            assert(line@ =~= command_line(program@, upto));
        }
        i += 1;
    }
    proof {
        assert(args.take(i as int) =~= args);
        assert forall|k: int| 0 <= k < args.len() implies !(#[trigger] args[k]).contains(0) by {
            assert(!has_embedded_nul(launch_arguments@[k]@));
            lemma_encode_then_decode(launch_arguments@[k]@);
        }
        lemma_command_line_nul_free(program@, args);
    }
    Ok(WideString::from_units(line))
}

/// The dependencies as one double-nul-terminated list of identifiers; no
/// list where there is no dependency.
pub fn join_dependencies(dependencies: &Vec<ServiceDependency>) -> (r: Result<
    Option<Vec<u16>>,
    NulByteInInput,
>)
    ensures
        (exists|i: int|
            0 <= i < dependencies@.len() && (#[trigger] dependencies@[i]).identifier() is None)
            ==> r == Err::<Option<Vec<u16>>, NulByteInInput>(NulByteInInput),
        (forall|i: int|
            0 <= i < dependencies@.len() ==> (#[trigger] dependencies@[i]).identifier() is Some)
            ==> (r matches Ok(list) && match double_nul_terminated(identifiers(dependencies@)) {
            None => list is None,
            Some(units) => list matches Some(v) && v@ == units,
        }),
{
    if dependencies.len() == 0 {
        return Ok(None);
    }
    let ghost items = identifiers(dependencies@);
    let mut list: Vec<u16> = Vec::new();
    assert(items.take(0) =~= Seq::<Seq<u16>>::empty());
    let mut i: usize = 0;
    while i < dependencies.len()
        invariant
            i <= dependencies@.len(),
            items == identifiers(dependencies@),
            forall|k: int| 0 <= k < i ==> (#[trigger] dependencies@[k]).identifier() is Some,
            list@ == nul_separated(items.take(i as int)),
        decreases dependencies@.len() - i,
    {
        let mut identifier = match dependencies[i].to_system_identifier() {
            Ok(units) => units,
            Err(e) => {
                return Err(e);
            },
        };
        list.append(&mut identifier);
        list.push(0);
        proof {
            let upto = items.take(i as int + 1);
            assert(upto.drop_last() =~= items.take(i as int));
            assert(upto.last() == dependencies@[i as int].identifier()->0);
            assert(list@ =~= nul_separated(upto));
        }
        i += 1;
    }
    list.push(0);
    proof {
        assert(items.take(i as int) =~= items);
    }
    Ok(Some(list))
}

/// An open service: the guard of its handle and the name it was opened
/// or created by.
pub struct Service {
    service_handle: ScHandle,
    service_name: WideString,
}

impl Service {
    /// The handle of an open service has not been handed out for closing.
    #[verifier::type_invariant]
    pub closed spec fn well_formed(&self) -> bool {
        !self.service_handle.released()
    }

    /// The handle of the service.
    pub closed spec fn handle(&self) -> usize {
        self.service_handle.raw()
    }

    /// The encoded name of the service.
    pub closed spec fn name_units(&self) -> Seq<u16> {
        self.service_name@
    }

    /// Puts a handle that a successful call returned under the name that
    /// was handed to that call.
    pub(crate) fn new(service_handle: ScHandle, service_name: WideString) -> (service: Service)
        requires
            !service_handle.released(),
        ensures
            service.handle() == service_handle.raw(),
            service.name_units() == service_name@,
            service.well_formed(),
    {
        Service { service_handle, service_name }
    }

    /// The handle, for the length of one call: operations on the service
    /// borrow it and never close it.
    pub fn raw_handle(&self) -> (raw: usize)
        ensures
            raw == self.handle(),
            raw != 0,
    {
        proof {
            use_type_invariant(self);
        }
        self.service_handle.raw_handle()
    }

    /// The name of the service.
    pub fn name(&self) -> (name: &WideString)
        ensures
            name@ == self.name_units(),
    {
        &self.service_name
    }

    /// Gives up the service for its handle guard, which is still to be
    /// released.
    pub fn into_handle(self) -> (guard: ScHandle)
        ensures
            guard.raw() == self.handle(),
            !guard.released(),
    {
        proof {
            use_type_invariant(&self);
        }
        self.service_handle
    }
}

} // verus!
