//! Bit sets: what a handle may be used for, which services a listing
//! selects, and what a status record reports.
//!
//! Each set is a type of its own, so that a right cannot be passed where a
//! filter is asked for. The named masks are associated constants of the raw
//! type `u32`; a set is made from them with `from_bits`.

use vstd::prelude::*;

verus! {

/// No bit of `bits` lies outside `known`.
pub open spec fn only_known_bits(bits: u32, known: u32) -> bool {
    bits & !known == 0
}

/// Every bit of `part` is set in `whole`.
pub open spec fn includes_bits(whole: u32, part: u32) -> bool {
    whole & part == part
}

/// Access rights on a connection to the service control manager.
#[derive(Debug, Clone, Copy, PartialEq, Eq, Hash, Structural)]
pub struct ServiceManagerAccess {
    bits: u32,
}

impl ServiceManagerAccess {
    /// Can connect to the service control manager.
    pub const CONNECT: u32 = 0x0001;

    /// Can create services.
    pub const CREATE_SERVICE: u32 = 0x0002;

    /// Can enumerate services or receive notifications.
    pub const ENUMERATE_SERVICE: u32 = 0x0004;

    /// Includes all possible access rights.
    pub const ALL_ACCESS: u32 = 0xF003F;

    /// Every bit that has a name.
    pub const KNOWN_BITS: u32 = 0xF003F;

    /// The raw mask.
    pub closed spec fn spec_bits(&self) -> u32 {
        self.bits
    }

    /// The raw mask.
    #[verifier::when_used_as_spec(spec_bits)]
    pub fn bits(&self) -> (bits: u32)
        ensures
            bits == self.spec_bits(),
    {
        self.bits
    }

    /// The set without any bit.
    pub fn empty() -> (set: Self)
        ensures
            set.bits() == 0,
    {
        ServiceManagerAccess { bits: 0 }
    }

    /// The set with the given raw mask, unless that holds a bit without a
    /// name.
    pub fn from_bits(bits: u32) -> (r: Option<Self>)
        ensures
            only_known_bits(bits, Self::KNOWN_BITS) ==> (r matches Some(set) && set.bits() == bits),
            !only_known_bits(bits, Self::KNOWN_BITS) ==> r is None,
    {
        if bits & !Self::KNOWN_BITS == 0 {
            Some(ServiceManagerAccess { bits })
        } else {
            None
        }
    }

    /// The set of the named bits of the given raw mask.
    pub fn from_bits_truncate(bits: u32) -> (set: Self)
        ensures
            set.bits() == bits & Self::KNOWN_BITS,
    {
        ServiceManagerAccess { bits: bits & Self::KNOWN_BITS }
    }

    /// Whether the set holds no bit.
    pub fn is_empty(&self) -> (r: bool)
        ensures
            r <==> self.bits() == 0,
    {
        self.bits == 0
    }

    /// Whether every bit of `other` is in the set.
    pub fn contains(&self, other: Self) -> (r: bool)
        ensures
            r <==> includes_bits(self.bits(), other.bits()),
    {
        self.bits & other.bits == other.bits
    }

    /// Whether the two sets share a bit.
    pub fn intersects(&self, other: Self) -> (r: bool)
        ensures
            r <==> self.bits() & other.bits() != 0,
    {
        self.bits & other.bits != 0
    }

    /// The bits of both sets.
    pub fn union(self, other: Self) -> (set: Self)
        ensures
            set.bits() == self.bits() | other.bits(),
    {
        ServiceManagerAccess { bits: self.bits | other.bits }
    }
}

/// Access rights on the handle of one service.
#[derive(Debug, Clone, Copy, PartialEq, Eq, Hash, Structural)]
pub struct ServiceAccess {
    bits: u32,
}

impl ServiceAccess {
    /// Can query the service configuration.
    pub const QUERY_CONFIG: u32 = 0x0001;

    /// Can change the service configuration.
    pub const CHANGE_CONFIG: u32 = 0x0002;

    /// Can query the service status.
    pub const QUERY_STATUS: u32 = 0x0004;

    /// Can enumerate the services that depend on the service.
    pub const ENUMERATE_DEPENDENTS: u32 = 0x0008;

    /// Can start the service.
    pub const START: u32 = 0x0010;

    /// Can stop the service.
    pub const STOP: u32 = 0x0020;

    /// Can pause or continue the service.
    pub const PAUSE_CONTINUE: u32 = 0x0040;

    /// Can ask the service to report its status.
    pub const INTERROGATE: u32 = 0x0080;

    /// Can send a user-defined control code.
    pub const USER_DEFINED_CONTROL: u32 = 0x0100;

    /// Can delete the service.
    pub const DELETE: u32 = 0x10000;

    /// Includes all possible access rights.
    pub const ALL_ACCESS: u32 = 0xF01FF;

    /// Every bit that has a name.
    pub const KNOWN_BITS: u32 = 0xF01FF;

    /// The raw mask.
    pub closed spec fn spec_bits(&self) -> u32 {
        self.bits
    }

    /// The raw mask.
    #[verifier::when_used_as_spec(spec_bits)]
    pub fn bits(&self) -> (bits: u32)
        ensures
            bits == self.spec_bits(),
    {
        self.bits
    }

    /// The set without any bit.
    pub fn empty() -> (set: Self)
        ensures
            set.bits() == 0,
    {
        ServiceAccess { bits: 0 }
    }

    /// The set with the given raw mask, unless that holds a bit without a
    /// name.
    pub fn from_bits(bits: u32) -> (r: Option<Self>)
        ensures
            only_known_bits(bits, Self::KNOWN_BITS) ==> (r matches Some(set) && set.bits() == bits),
            !only_known_bits(bits, Self::KNOWN_BITS) ==> r is None,
    {
        if bits & !Self::KNOWN_BITS == 0 {
            Some(ServiceAccess { bits })
        } else {
            None
        }
    }

    /// The set of the named bits of the given raw mask.
    pub fn from_bits_truncate(bits: u32) -> (set: Self)
        ensures
            set.bits() == bits & Self::KNOWN_BITS,
    {
        ServiceAccess { bits: bits & Self::KNOWN_BITS }
    }

    /// Whether the set holds no bit.
    pub fn is_empty(&self) -> (r: bool)
        ensures
            r <==> self.bits() == 0,
    {
        self.bits == 0
    }

    /// Whether every bit of `other` is in the set.
    pub fn contains(&self, other: Self) -> (r: bool)
        ensures
            r <==> includes_bits(self.bits(), other.bits()),
    {
        self.bits & other.bits == other.bits
    }

    /// Whether the two sets share a bit.
    pub fn intersects(&self, other: Self) -> (r: bool)
        ensures
            r <==> self.bits() & other.bits() != 0,
    {
        self.bits & other.bits != 0
    }

    /// The bits of both sets.
    pub fn union(self, other: Self) -> (set: Self)
        ensures
            set.bits() == self.bits() | other.bits(),
    {
        ServiceAccess { bits: self.bits | other.bits }
    }
}

/// Selects the services of a listing by their type.
#[derive(Debug, Clone, Copy, PartialEq, Eq, Hash, Structural)]
pub struct ListServiceType {
    bits: u32,
}

impl ListServiceType {
    /// Kernel drivers.
    pub const KERNEL_DRIVER: u32 = 0x0001;

    /// File system drivers.
    pub const FILE_SYSTEM_DRIVER: u32 = 0x0002;

    /// Drivers of every kind.
    pub const DRIVER: u32 = 0x000B;

    /// Services that run in a process of their own.
    pub const WIN32_OWN_PROCESS: u32 = 0x0010;

    /// Services that share a process with others.
    pub const SHARE_PROCESS: u32 = 0x0020;

    /// Services of both process models.
    pub const WIN32: u32 = 0x0030;

    /// Every bit that has a name.
    pub const KNOWN_BITS: u32 = 0x003B;

    /// The raw mask.
    pub closed spec fn spec_bits(&self) -> u32 {
        self.bits
    }

    /// The raw mask.
    #[verifier::when_used_as_spec(spec_bits)]
    pub fn bits(&self) -> (bits: u32)
        ensures
            bits == self.spec_bits(),
    {
        self.bits
    }

    /// The set without any bit.
    pub fn empty() -> (set: Self)
        ensures
            set.bits() == 0,
    {
        ListServiceType { bits: 0 }
    }

    /// The set with the given raw mask, unless that holds a bit without a
    /// name.
    pub fn from_bits(bits: u32) -> (r: Option<Self>)
        ensures
            only_known_bits(bits, Self::KNOWN_BITS) ==> (r matches Some(set) && set.bits() == bits),
            !only_known_bits(bits, Self::KNOWN_BITS) ==> r is None,
    {
        if bits & !Self::KNOWN_BITS == 0 {
            Some(ListServiceType { bits })
        } else {
            None
        }
    }

    /// The set of the named bits of the given raw mask.
    pub fn from_bits_truncate(bits: u32) -> (set: Self)
        ensures
            set.bits() == bits & Self::KNOWN_BITS,
    {
        ListServiceType { bits: bits & Self::KNOWN_BITS }
    }

    /// Whether the set holds no bit.
    pub fn is_empty(&self) -> (r: bool)
        ensures
            r <==> self.bits() == 0,
    {
        self.bits == 0
    }

    /// Whether every bit of `other` is in the set.
    pub fn contains(&self, other: Self) -> (r: bool)
        ensures
            r <==> includes_bits(self.bits(), other.bits()),
    {
        self.bits & other.bits == other.bits
    }

    /// Whether the two sets share a bit.
    pub fn intersects(&self, other: Self) -> (r: bool)
        ensures
            r <==> self.bits() & other.bits() != 0,
    {
        self.bits & other.bits != 0
    }

    /// The bits of both sets.
    pub fn union(self, other: Self) -> (set: Self)
        ensures
            set.bits() == self.bits() | other.bits(),
    {
        ListServiceType { bits: self.bits | other.bits }
    }
}

/// Selects the services of a listing by whether they are active.
#[derive(Debug, Clone, Copy, PartialEq, Eq, Hash, Structural)]
pub struct ServiceActiveState {
    bits: u32,
}

impl ServiceActiveState {
    /// Services in any state but stopped.
    pub const ACTIVE: u32 = 0x0001;

    /// Stopped services.
    pub const INACTIVE: u32 = 0x0002;

    /// Services in every state.
    pub const ALL: u32 = 0x0003;

    /// Every bit that has a name.
    pub const KNOWN_BITS: u32 = 0x0003;

    /// The raw mask.
    pub closed spec fn spec_bits(&self) -> u32 {
        self.bits
    }

    /// The raw mask.
    #[verifier::when_used_as_spec(spec_bits)]
    pub fn bits(&self) -> (bits: u32)
        ensures
            bits == self.spec_bits(),
    {
        self.bits
    }

    /// The set without any bit.
    pub fn empty() -> (set: Self)
        ensures
            set.bits() == 0,
    {
        ServiceActiveState { bits: 0 }
    }

    /// The set with the given raw mask, unless that holds a bit without a
    /// name.
    pub fn from_bits(bits: u32) -> (r: Option<Self>)
        ensures
            only_known_bits(bits, Self::KNOWN_BITS) ==> (r matches Some(set) && set.bits() == bits),
            !only_known_bits(bits, Self::KNOWN_BITS) ==> r is None,
    {
        if bits & !Self::KNOWN_BITS == 0 {
            Some(ServiceActiveState { bits })
        } else {
            None
        }
    }

    /// The set of the named bits of the given raw mask.
    pub fn from_bits_truncate(bits: u32) -> (set: Self)
        ensures
            set.bits() == bits & Self::KNOWN_BITS,
    {
        ServiceActiveState { bits: bits & Self::KNOWN_BITS }
    }

    /// Whether the set holds no bit.
    pub fn is_empty(&self) -> (r: bool)
        ensures
            r <==> self.bits() == 0,
    {
        self.bits == 0
    }

    /// Whether every bit of `other` is in the set.
    pub fn contains(&self, other: Self) -> (r: bool)
        ensures
            r <==> includes_bits(self.bits(), other.bits()),
    {
        self.bits & other.bits == other.bits
    }

    /// Whether the two sets share a bit.
    pub fn intersects(&self, other: Self) -> (r: bool)
        ensures
            r <==> self.bits() & other.bits() != 0,
    {
        self.bits & other.bits != 0
    }

    /// The bits of both sets.
    pub fn union(self, other: Self) -> (set: Self)
        ensures
            set.bits() == self.bits() | other.bits(),
    {
        ServiceActiveState { bits: self.bits | other.bits }
    }
}

/// The kind of a service.
#[derive(Debug, Clone, Copy, PartialEq, Eq, Hash, Structural)]
pub struct ServiceType {
    bits: u32,
}

impl ServiceType {
    /// A kernel driver.
    pub const KERNEL_DRIVER: u32 = 0x0001;

    /// A file system driver.
    pub const FILE_SYSTEM_DRIVER: u32 = 0x0002;

    /// A service that runs in a process of its own.
    pub const OWN_PROCESS: u32 = 0x0010;

    /// A service that shares a process with others.
    pub const SHARE_PROCESS: u32 = 0x0020;

    /// A service in its own process under the logged-on user account.
    pub const USER_OWN_PROCESS: u32 = 0x0050;

    /// A service in a shared process under the logged-on user account.
    pub const USER_SHARE_PROCESS: u32 = 0x0060;

    /// The service can interact with the desktop.
    pub const INTERACTIVE_PROCESS: u32 = 0x0100;

    /// Every bit that has a name.
    pub const KNOWN_BITS: u32 = 0x0173;

    /// The raw mask.
    pub closed spec fn spec_bits(&self) -> u32 {
        self.bits
    }

    /// The raw mask.
    #[verifier::when_used_as_spec(spec_bits)]
    pub fn bits(&self) -> (bits: u32)
        ensures
            bits == self.spec_bits(),
    {
        self.bits
    }

    /// The set without any bit.
    pub fn empty() -> (set: Self)
        ensures
            set.bits() == 0,
    {
        ServiceType { bits: 0 }
    }

    /// The set with the given raw mask, unless that holds a bit without a
    /// name.
    pub fn from_bits(bits: u32) -> (r: Option<Self>)
        ensures
            only_known_bits(bits, Self::KNOWN_BITS) ==> (r matches Some(set) && set.bits() == bits),
            !only_known_bits(bits, Self::KNOWN_BITS) ==> r is None,
    {
        if bits & !Self::KNOWN_BITS == 0 {
            Some(ServiceType { bits })
        } else {
            None
        }
    }

    /// The set of the named bits of the given raw mask.
    pub fn from_bits_truncate(bits: u32) -> (set: Self)
        ensures
            set.bits() == bits & Self::KNOWN_BITS,
    {
        ServiceType { bits: bits & Self::KNOWN_BITS }
    }

    /// Whether the set holds no bit.
    pub fn is_empty(&self) -> (r: bool)
        ensures
            r <==> self.bits() == 0,
    {
        self.bits == 0
    }

    /// Whether every bit of `other` is in the set.
    pub fn contains(&self, other: Self) -> (r: bool)
        ensures
            r <==> includes_bits(self.bits(), other.bits()),
    {
        self.bits & other.bits == other.bits
    }

    /// Whether the two sets share a bit.
    pub fn intersects(&self, other: Self) -> (r: bool)
        ensures
            r <==> self.bits() & other.bits() != 0,
    {
        self.bits & other.bits != 0
    }

    /// The bits of both sets.
    pub fn union(self, other: Self) -> (set: Self)
        ensures
            set.bits() == self.bits() | other.bits(),
    {
        ServiceType { bits: self.bits | other.bits }
    }
}

/// The control codes that a service accepts.
#[derive(Debug, Clone, Copy, PartialEq, Eq, Hash, Structural)]
pub struct ServiceControlAccept {
    bits: u32,
}

impl ServiceControlAccept {
    /// The service can be stopped.
    pub const STOP: u32 = 0x0001;

    /// The service can be paused and continued.
    pub const PAUSE_CONTINUE: u32 = 0x0002;

    /// The service is told of system shutdown.
    pub const SHUTDOWN: u32 = 0x0004;

    /// The service can reread its startup parameters.
    pub const PARAM_CHANGE: u32 = 0x0008;

    /// The service accepts changes of its network binding.
    pub const NETBIND_CHANGE: u32 = 0x0010;

    /// The service is told of hardware profile changes.
    pub const HARDWARE_PROFILE_CHANGE: u32 = 0x0020;

    /// The service is told of power status changes.
    pub const POWER_EVENT: u32 = 0x0040;

    /// The service is told of session status changes.
    pub const SESSION_CHANGE: u32 = 0x0080;

    /// The service can do work before shutdown begins.
    pub const PRESHUTDOWN: u32 = 0x0100;

    /// The service is told of system time changes.
    pub const TIME_CHANGE: u32 = 0x0200;

    /// The service is told of the events it registered for.
    pub const TRIGGER_EVENT: u32 = 0x0400;

    /// Every bit that has a name.
    pub const KNOWN_BITS: u32 = 0x07FF;

    /// The raw mask.
    pub closed spec fn spec_bits(&self) -> u32 {
        self.bits
    }

    /// The raw mask.
    #[verifier::when_used_as_spec(spec_bits)]
    pub fn bits(&self) -> (bits: u32)
        ensures
            bits == self.spec_bits(),
    {
        self.bits
    }

    /// The set without any bit.
    pub fn empty() -> (set: Self)
        ensures
            set.bits() == 0,
    {
        ServiceControlAccept { bits: 0 }
    }

    /// The set with the given raw mask, unless that holds a bit without a
    /// name.
    pub fn from_bits(bits: u32) -> (r: Option<Self>)
        ensures
            only_known_bits(bits, Self::KNOWN_BITS) ==> (r matches Some(set) && set.bits() == bits),
            !only_known_bits(bits, Self::KNOWN_BITS) ==> r is None,
    {
        if bits & !Self::KNOWN_BITS == 0 {
            Some(ServiceControlAccept { bits })
        } else {
            None
        }
    }

    /// The set of the named bits of the given raw mask.
    pub fn from_bits_truncate(bits: u32) -> (set: Self)
        ensures
            set.bits() == bits & Self::KNOWN_BITS,
    {
        ServiceControlAccept { bits: bits & Self::KNOWN_BITS }
    }

    /// Whether the set holds no bit.
    pub fn is_empty(&self) -> (r: bool)
        ensures
            r <==> self.bits() == 0,
    {
        self.bits == 0
    }

    /// Whether every bit of `other` is in the set.
    pub fn contains(&self, other: Self) -> (r: bool)
        ensures
            r <==> includes_bits(self.bits(), other.bits()),
    {
        self.bits & other.bits == other.bits
    }

    /// Whether the two sets share a bit.
    pub fn intersects(&self, other: Self) -> (r: bool)
        ensures
            r <==> self.bits() & other.bits() != 0,
    {
        self.bits & other.bits != 0
    }

    /// The bits of both sets.
    pub fn union(self, other: Self) -> (set: Self)
        ensures
            set.bits() == self.bits() | other.bits(),
    {
        ServiceControlAccept { bits: self.bits | other.bits }
    }
}

} // verus!
