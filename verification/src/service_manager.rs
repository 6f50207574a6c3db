//! The connection to the service control manager and what is done
//! through it: creating and opening services, looking up a service name,
//! and listing services.
//!
//! Each operation comes in two steps. The first encodes the arguments and
//! gives a pending call: plain values that say which native call to make
//! and with what. The caller makes that call, captures the last-error code
//! right after it, and hands both to the second step, which decides what
//! the reply means. Between the two steps nothing else may be asked of the
//! platform that could overwrite the last-error code.

use vstd::prelude::*;

use crate::error::{Argument, Error};
use crate::flags::{ListServiceType, ServiceAccess, ServiceActiveState, ServiceManagerAccess};
use crate::handle::ScHandle;
use crate::service::{first_argument_with_nul, RawServiceInfo, Service, ServiceInfo};
use crate::status::{
    first_invalid_field, lemma_decoding_keeps_activity, RawServiceStatus, ServiceState,
    ServiceStatus,
};
use crate::wide::{
    decode, decode_prefix, decode_utf16_lossy, decoded, encode, encode_optional, encoded,
    encodes_optional, has_embedded_nul, optional_text, WideString,
};

verus! {

/// The number of entries that the buffer of the first listing call is
/// sized for.
pub const MAX_SERVICES: u32 = 4096;

/// The length in code units of the buffer for a service key name: the
/// service control manager never returns more than 4 KiB.
pub const KEY_NAME_CAPACITY: u32 = 2048;

/// The last-error code by which the service control manager says that
/// the buffer was too small for all it had to return.
pub const ERROR_MORE_DATA: u32 = 234;

/// What a call that returns a handle gave back.
#[derive(Debug, Clone, Copy, PartialEq, Eq, Hash, Structural)]
pub struct HandleReply {
    /// The returned handle; zero for the null handle, which says that
    /// the call failed.
    pub handle: usize,
    /// The last-error code, captured right after the call.
    pub last_error: u32,
}

/// The handle guard of a reply, or the failure that the reply reports.
pub fn handle_from_reply(reply: HandleReply) -> (r: Result<ScHandle, Error>)
    ensures
        reply.handle == 0 ==> r == Err::<ScHandle, Error>(Error::Winapi(reply.last_error)),
        reply.handle != 0 ==> (r matches Ok(guard) && guard.raw() == reply.handle
            && !guard.released()),
{
    if reply.handle == 0 {
        Err(Error::Winapi(reply.last_error))
    } else {
        Ok(ScHandle::new(reply.handle))
    }
}

/// A pending call that opens a connection to the service control manager.
#[derive(Debug)]
pub struct OpenManagerCall {
    /// The machine to connect to; none for the local machine.
    pub machine: Option<WideString>,
    /// The database to open; none for the active database.
    pub database: Option<WideString>,
    /// The mask of the access rights asked for.
    pub access: u32,
}

impl OpenManagerCall {
    /// Takes the reply to the call: a connection that owns the returned
    /// handle, or the failure that the service control manager reported.
    pub fn finish(self, reply: HandleReply) -> (r: Result<ServiceManager, Error>)
        ensures
            reply.handle == 0 ==> r == Err::<ServiceManager, Error>(
                Error::Winapi(reply.last_error),
            ),
            reply.handle != 0 ==> (r matches Ok(manager) && manager.handle() == reply.handle),
    {
        match handle_from_reply(reply) {
            Ok(manager_handle) => Ok(ServiceManager { manager_handle }),
            Err(e) => Err(e),
        }
    }
}

/// A pending call that opens an existing service.
#[derive(Debug)]
pub struct OpenServiceCall {
    /// The handle of the connection.
    pub manager: usize,
    /// The encoded name of the service.
    pub name: WideString,
    /// The mask of the access rights asked for.
    pub access: u32,
}

impl OpenServiceCall {
    /// Takes the reply to the call: the open service under the name it
    /// was asked for by, or the failure that the service control manager
    /// reported.
    pub fn finish(self, reply: HandleReply) -> (r: Result<Service, Error>)
        ensures
            reply.handle == 0 ==> r == Err::<Service, Error>(Error::Winapi(reply.last_error)),
            reply.handle != 0 ==> (r matches Ok(service) && service.handle() == reply.handle
                && service.name_units() == self.name@),
    {
        match handle_from_reply(reply) {
            Ok(service_handle) => Ok(Service::new(service_handle, self.name)),
            Err(e) => Err(e),
        }
    }
}

/// A pending call that creates a service.
pub struct CreateServiceCall {
    /// The handle of the connection.
    pub manager: usize,
    /// The encoded description of the service.
    pub info: RawServiceInfo,
    /// The mask of the access rights asked for on the new service.
    pub access: u32,
    /// The load-ordering group of the service: never used.
    pub load_order_group: Option<WideString>,
    /// Whether a tag within the load-ordering group is asked for: never.
    pub wants_tag_id: bool,
}

impl CreateServiceCall {
    /// Takes the reply to the call: the new service under its encoded
    /// name, or the failure that the service control manager reported.
    /// The rest of the encoded description, the account password with
    /// it, ends here.
    pub fn finish(self, reply: HandleReply) -> (r: Result<Service, Error>)
        ensures
            reply.handle == 0 ==> r == Err::<Service, Error>(Error::Winapi(reply.last_error)),
            reply.handle != 0 ==> (r matches Ok(service) && service.handle() == reply.handle
                && service.name_units() == self.info.name@),
    {
        match handle_from_reply(reply) {
            Ok(service_handle) => Ok(Service::new(service_handle, self.info.name)),
            Err(e) => Err(e),
        }
    }
}

/// A pending call that looks up the name of a service by its display name.
#[derive(Debug)]
pub struct KeyNameCall {
    /// The handle of the connection.
    pub manager: usize,
    /// The encoded display name.
    pub display_name: WideString,
    /// The length in code units of the buffer that the name is returned in.
    pub capacity: u32,
}

/// What the lookup of a service name gave back.
#[derive(Debug, Clone, PartialEq, Eq, Hash)]
pub struct KeyNameReply {
    /// What the call returned; zero says that it failed.
    pub result: i32,
    /// The last-error code, captured right after the call.
    pub last_error: u32,
    /// The buffer that was handed to the call.
    pub buffer: Vec<u16>,
    /// The length in code units of the name in the buffer, as the call
    /// reported it.
    pub len: u32,
}

impl KeyNameCall {
    /// Takes the reply to the call: the service name, decoded from the
    /// reported length of the buffer, or the failure that the service
    /// control manager reported.
    pub fn finish(self, reply: &KeyNameReply) -> (r: Result<String, Error>)
        requires
            reply.result != 0 ==> reply.len <= reply.buffer@.len(),
        ensures
            reply.result == 0 ==> r == Err::<String, Error>(Error::Winapi(reply.last_error)),
            reply.result != 0 ==> (r matches Ok(name) && name@ == decode_utf16_lossy(
                reply.buffer@.take(reply.len as int),
            )),
    {
        if reply.result == 0 {
            Err(Error::Winapi(reply.last_error))
        } else {
            Ok(decode_prefix(reply.buffer.as_slice(), reply.len as usize))
        }
    }
}

/// One record of a listing as the service control manager returns it,
/// the two names copied out of the buffer up to and including their nul.
#[derive(Debug, Clone, PartialEq, Eq, Hash)]
pub struct RawServiceEntry {
    /// The service name, nul-terminated.
    pub service_name: Vec<u16>,
    /// The display name, nul-terminated.
    pub display_name: Vec<u16>,
    /// The status record.
    pub status: RawServiceStatus,
}

/// One service of a listing.
#[derive(Debug, Clone, PartialEq, Eq, Hash)]
pub struct ServiceEntry {
    /// The name by which the service control manager keys the service.
    pub name: String,
    /// The name that is shown to people.
    pub display_name: String,
    /// The status of the service when it was listed.
    pub status: ServiceStatus,
}

impl ServiceEntry {
    /// The entry says what the record says: both names decoded, the
    /// status described field by field.
    pub open spec fn describes(self, raw: RawServiceEntry) -> bool {
        &&& self.name@ == decoded(raw.service_name@)
        &&& self.display_name@ == decoded(raw.display_name@)
        &&& self.status.describes(raw.status)
    }

    /// Decodes one record of a listing. The names always decode; the
    /// status fails on the first field without a known value.
    pub fn from_raw(raw: &RawServiceEntry) -> (r: Result<ServiceEntry, Error>)
        ensures
            match first_invalid_field(raw.status) {
                Some((field, value)) => r == Err::<ServiceEntry, Error>(
                    Error::ParseValue(field, value),
                ),
                None => r matches Ok(entry) && entry.describes(*raw),
            },
    {
        let status = match ServiceStatus::from_raw(&raw.status) {
            Ok(status) => status,
            Err(e) => {
                return Err(e);
            },
        };
        Ok(
            ServiceEntry {
                name: decode(raw.service_name.as_slice()),
                display_name: decode(raw.display_name.as_slice()),
                status,
            },
        )
    }
}

/// Entry by entry, the entries say what the records say.
pub open spec fn describe_all(entries: Seq<ServiceEntry>, records: Seq<RawServiceEntry>) -> bool {
    &&& entries.len() == records.len()
    &&& forall|i: int| 0 <= i < entries.len() ==> (#[trigger] entries[i]).describes(records[i])
}

/// `entries` are `before`, followed entry by entry, in the order of the
/// records, by what the records say.
pub open spec fn appends_decoded(
    entries: Seq<ServiceEntry>,
    before: Seq<ServiceEntry>,
    records: Seq<RawServiceEntry>,
) -> bool {
    &&& entries.len() == before.len() + records.len()
    &&& forall|i: int| 0 <= i < before.len() ==> (#[trigger] entries[i]) == before[i]
    &&& forall|i: int|
        before.len() <= i < entries.len() ==> (#[trigger] entries[i]).describes(
            records[i - before.len()],
        )
}

/// The failure of the first record, in the order in which they came,
/// whose status does not decode.
pub open spec fn first_decode_failure(records: Seq<RawServiceEntry>) -> Option<Error>
    decreases records.len(),
{
    if records.len() == 0 {
        None
    } else {
        match first_invalid_field(records[0].status) {
            Some((field, value)) => Some(Error::ParseValue(field, value)),
            None => first_decode_failure(records.drop_first()),
        }
    }
}

/// No record fails to decode exactly where the status of every record
/// is valid.
pub proof fn lemma_no_decode_failure(records: Seq<RawServiceEntry>)
    ensures
        first_decode_failure(records) is None <==> (forall|i: int|
            0 <= i < records.len() ==> first_invalid_field((#[trigger] records[i]).status)
                is None),
    decreases records.len(),
{
    if records.len() > 0 {
        let rest = records.drop_first();
        lemma_no_decode_failure(rest);
        if first_invalid_field(records[0].status) is None {
            if first_decode_failure(rest) is None {
                assert forall|i: int| 0 <= i < records.len() implies first_invalid_field(
                    (#[trigger] records[i]).status,
                ) is None by {
                    if i > 0 {
                        assert(rest[i - 1] == records[i]);
                    }
                }
            } else {
                let k = choose|k: int|
                    0 <= k < rest.len() && first_invalid_field((#[trigger] rest[k]).status)
                        is Some;
                assert(rest[k] == records[k + 1]);
            }
        }
    }
}

/// The failure of a listing is that of its first record with an invalid
/// status: it names that record's first invalid field and its value.
pub proof fn lemma_decode_failure_at(records: Seq<RawServiceEntry>, i: int)
    requires
        0 <= i < records.len(),
        first_invalid_field(records[i].status) is Some,
        forall|j: int| 0 <= j < i ==> first_invalid_field((#[trigger] records[j]).status) is None,
    ensures
        first_invalid_field(records[i].status) matches Some((field, value))
            && first_decode_failure(records) == Some(Error::ParseValue(field, value)),
    decreases i,
{
    if i > 0 {
        let rest = records.drop_first();
        assert(first_invalid_field(records[0].status) is None);
        assert(rest[i - 1] == records[i]);
        assert forall|j: int| 0 <= j < i - 1 implies first_invalid_field(
            (#[trigger] rest[j]).status,
        ) is None by {
            assert(rest[j] == records[j + 1]);
        }
        lemma_decode_failure_at(rest, i - 1);
    }
}

/// Decodes the records of a listing in the order in which they came, and
/// stops at the first that fails: a listing is whole or it is an error.
pub fn decode_entries(records: &Vec<RawServiceEntry>) -> (r: Result<Vec<ServiceEntry>, Error>)
    ensures
        match first_decode_failure(records@) {
            Some(e) => r == Err::<Vec<ServiceEntry>, Error>(e),
            None => r matches Ok(entries) && describe_all(entries@, records@),
        },
        r is Ok <==> (forall|i: int|
            0 <= i < records@.len() ==> first_invalid_field((#[trigger] records@[i]).status)
                is None),
{
    proof {
        lemma_no_decode_failure(records@);
    }
    let mut entries: Vec<ServiceEntry> = Vec::new();
    let mut i: usize = 0;
    assert(records@.skip(0) =~= records@);
    while i < records.len()
        invariant
            i <= records@.len(),
            entries@.len() == i,
            first_decode_failure(records@) == first_decode_failure(records@.skip(i as int)),
            forall|k: int| 0 <= k < i ==> (#[trigger] entries@[k]).describes(records@[k]),
        decreases records@.len() - i,
    {
        proof {
            assert(records@.skip(i as int)[0] == records@[i as int]);
            assert(records@.skip(i as int).drop_first() =~= records@.skip(i as int + 1));
        }
        match ServiceEntry::from_raw(&records[i]) {
            Ok(entry) => {
                entries.push(entry);
            },
            Err(e) => {
                return Err(e);
            },
        }
        i += 1;
    }
    Ok(entries)
}

/// How large the buffer of a listing call is to be.
#[derive(Debug, Clone, Copy, PartialEq, Eq, Hash, Structural)]
pub enum BufferSize {
    /// As many bytes as the given number of records take in the buffer.
    Records(u32),
    /// The given number of bytes.
    Bytes(u32),
}

/// A pending call that lists services.
#[derive(Debug, Clone, Copy, PartialEq, Eq, Hash, Structural)]
pub struct EnumServicesCall {
    /// The handle of the connection.
    pub manager: usize,
    /// The mask of the service types to list.
    pub service_type: u32,
    /// The mask of the states to list.
    pub service_state: u32,
    /// The size of the buffer to hand to the call.
    pub buffer: BufferSize,
    /// Where the listing starts: zero for the beginning, else what an
    /// earlier reply gave.
    pub resume_handle: u32,
}

/// What a listing call gave back.
#[derive(Debug, Clone, PartialEq, Eq, Hash)]
pub struct EnumServicesReply {
    /// What the call returned; zero says that it failed.
    pub result: i32,
    /// The last-error code, captured right after the call.
    pub last_error: u32,
    /// The records that the call put into the buffer, in its order.
    pub records: Vec<RawServiceEntry>,
    /// The size in bytes that the records not yet returned need.
    pub bytes_needed: u32,
    /// Where the next call has to start to get them.
    pub resume_handle: u32,
}

/// A listing in progress: the call to make next and the entries decoded
/// so far.
#[derive(Debug)]
pub struct Enumeration {
    call: EnumServicesCall,
    entries: Vec<ServiceEntry>,
    retried: bool,
}

/// Where a listing stands after a reply.
#[derive(Debug)]
pub enum EnumerationStep {
    /// The buffer was too small: one more call is to be made.
    Continue(Enumeration),
    /// The listing is whole.
    Done(Vec<ServiceEntry>),
    /// The listing failed; no part of it is returned.
    Failed(Error),
}

impl Enumeration {
    /// The call to make next.
    pub closed spec fn pending(&self) -> EnumServicesCall {
        self.call
    }

    /// The entries decoded from earlier replies.
    pub closed spec fn collected(&self) -> Seq<ServiceEntry> {
        self.entries@
    }

    /// Whether the call to make is already the second.
    pub closed spec fn retried(&self) -> bool {
        self.retried
    }

    /// The call to make next.
    pub fn call(&self) -> (call: EnumServicesCall)
        ensures
            call == self.pending(),
    {
        self.call
    }

    /// The reply ends the listing with the last-error code: the call
    /// failed, and not with a first buffer that was too small.
    pub open spec fn gives_up(&self, reply: EnumServicesReply) -> bool {
        reply.result == 0 && (reply.last_error != ERROR_MORE_DATA || self.retried())
    }

    /// The call that follows a first reply of too small a buffer: the same
    /// listing, from where the reply stopped, with the size it asked for.
    pub open spec fn next_call(&self, reply: EnumServicesReply) -> EnumServicesCall {
        EnumServicesCall {
            manager: self.pending().manager,
            service_type: self.pending().service_type,
            service_state: self.pending().service_state,
            buffer: BufferSize::Bytes(reply.bytes_needed),
            resume_handle: reply.resume_handle,
        }
    }

    /// Takes the reply to the pending call.
    ///
    /// A call that succeeded ends the listing: its records are decoded
    /// and follow the entries collected before. A first call that failed
    /// because the buffer was too small is followed by one more, which
    /// starts where the first stopped, with a buffer of exactly the size
    /// that the service control manager asked for; the records that came
    /// with the first are decoded and kept. Any other failure, a second
    /// buffer that is too small included, ends the listing with the
    /// last-error code. A record that does not decode ends it as well,
    /// before any further call.
    pub fn on_reply(self, reply: &EnumServicesReply) -> (step: EnumerationStep)
        ensures
            step is Continue ==> !self.retried(),
            !self.gives_up(*reply) ==> (step is Failed <==> !(forall|i: int|
                0 <= i < reply.records@.len() ==> first_invalid_field(
                    (#[trigger] reply.records@[i]).status,
                ) is None)),
            if self.gives_up(*reply) {
                step == EnumerationStep::Failed(Error::Winapi(reply.last_error))
            } else {
                match first_decode_failure(reply.records@) {
                    Some(e) => step == EnumerationStep::Failed(e),
                    None => if reply.result != 0 {
                        step matches EnumerationStep::Done(entries) && appends_decoded(
                            entries@,
                            self.collected(),
                            reply.records@,
                        )
                    } else {
                        step matches EnumerationStep::Continue(next) && next.retried()
                            && next.pending() == self.next_call(*reply) && appends_decoded(
                            next.collected(),
                            self.collected(),
                            reply.records@,
                        )
                    },
                }
            },
    {
        if reply.result == 0 && (reply.last_error != ERROR_MORE_DATA || self.retried) {
            return EnumerationStep::Failed(Error::Winapi(reply.last_error));
        }
        let mut decoded_entries = match decode_entries(&reply.records) {
            Ok(entries) => entries,
            Err(e) => {
                return EnumerationStep::Failed(e);
            },
        };
        let ghost before = self.entries@;
        let ghost added = decoded_entries@;
        let mut entries = self.entries;
        entries.append(&mut decoded_entries);
        proof {
            assert(entries@ =~= before + added);
            assert forall|i: int| before.len() <= i < entries@.len() implies (
            #[trigger] entries@[i]).describes(reply.records@[i - before.len()]) by {
                assert(entries@[i] == added[i - before.len()]);
            }
        }
        if reply.result != 0 {
            EnumerationStep::Done(entries)
        } else {
            EnumerationStep::Continue(
                Enumeration {
                    call: EnumServicesCall {
                        manager: self.call.manager,
                        service_type: self.call.service_type,
                        service_state: self.call.service_state,
                        buffer: BufferSize::Bytes(reply.bytes_needed),
                        resume_handle: reply.resume_handle,
                    },
                    entries,
                    retried: true,
                },
            )
        }
    }
}

/// A connection to the service control manager. It owns the handle of
/// the connection and holds nothing else: every operation is a call of
/// its own.
#[derive(Debug)]
pub struct ServiceManager {
    manager_handle: ScHandle,
}

/// The first of the two arguments of a connection that holds an embedded
/// nul.
pub open spec fn first_connect_argument_with_nul(
    machine: Option<Seq<char>>,
    database: Option<Seq<char>>,
) -> Option<Argument> {
    if machine matches Some(m) && has_embedded_nul(m) {
        Some(Argument::MachineName)
    } else if database matches Some(d) && has_embedded_nul(d) {
        Some(Argument::DatabaseName)
    } else {
        None
    }
}

impl ServiceManager {
    /// The handle of a connection has not been handed out for closing.
    #[verifier::type_invariant]
    pub closed spec fn well_formed(&self) -> bool {
        !self.manager_handle.released()
    }

    /// The handle of the connection.
    pub closed spec fn handle(&self) -> usize {
        self.manager_handle.raw()
    }

    /// Encodes the call that opens a connection. The caller makes the call
    /// and hands the reply to [`OpenManagerCall::finish`], which gives the
    /// connection. An argument with an embedded nul is an error here, the
    /// machine name before the database name, and no call is to be made.
    ///
    /// * `machine` - The name of the machine; none for the local machine.
    /// * `database` - The name of the database; none for the active
    ///   database.
    /// * `request_access` - The access rights asked for.
    pub fn new(
        machine: Option<&str>,
        database: Option<&str>,
        request_access: ServiceManagerAccess,
    ) -> (r: Result<OpenManagerCall, Error>)
        ensures
            match first_connect_argument_with_nul(optional_text(machine), optional_text(database)) {
                Some(argument) => r == Err::<OpenManagerCall, Error>(
                    Error::ArgumentHasNulByte(argument),
                ),
                None => r matches Ok(call) && encodes_optional(call.machine, optional_text(machine))
                    && encodes_optional(call.database, optional_text(database)) && call.access
                    == request_access.bits(),
            },
    {
        let machine_name = match encode_optional(machine) {
            Ok(wide) => wide,
            Err(_) => {
                return Err(Error::ArgumentHasNulByte(Argument::MachineName));
            },
        };
        let database_name = match encode_optional(database) {
            Ok(wide) => wide,
            Err(_) => {
                return Err(Error::ArgumentHasNulByte(Argument::DatabaseName));
            },
        };
        Ok(
            OpenManagerCall {
                machine: machine_name,
                database: database_name,
                access: request_access.bits(),
            },
        )
    }

    /// Encodes the call that connects to the services database of the
    /// local computer: [`ServiceManager::new`] without a machine name.
    ///
    /// * `database` - The name of the database; none for the active
    ///   database.
    /// * `request_access` - The access rights asked for.
    pub fn local_computer(database: Option<&str>, request_access: ServiceManagerAccess) -> (r:
        Result<OpenManagerCall, Error>)
        ensures
            match first_connect_argument_with_nul(None, optional_text(database)) {
                Some(argument) => r == Err::<OpenManagerCall, Error>(
                    Error::ArgumentHasNulByte(argument),
                ),
                None => r matches Ok(call) && call.machine is None && encodes_optional(
                    call.database,
                    optional_text(database),
                ) && call.access == request_access.bits(),
            },
    {
        ServiceManager::new(None, database, request_access)
    }

    /// Encodes the call that connects to the services database of a
    /// remote computer: [`ServiceManager::new`] with a machine name.
    ///
    /// * `machine` - The name of the remote machine.
    /// * `database` - The name of the database; none for the active
    ///   database.
    /// * `request_access` - The access rights asked for.
    pub fn remote_computer(
        machine: &str,
        database: Option<&str>,
        request_access: ServiceManagerAccess,
    ) -> (r: Result<OpenManagerCall, Error>)
        ensures
            match first_connect_argument_with_nul(Some(machine@), optional_text(database)) {
                Some(argument) => r == Err::<OpenManagerCall, Error>(
                    Error::ArgumentHasNulByte(argument),
                ),
                None => r matches Ok(call) && call.machine matches Some(m) && Some(m@) == encoded(
                    machine@,
                ) && encodes_optional(call.database, optional_text(database)) && call.access
                    == request_access.bits(),
            },
    {
        ServiceManager::new(Some(machine), database, request_access)
    }

    /// The handle of the connection, for the length of one call.
    pub fn raw_handle(&self) -> (raw: usize)
        ensures
            raw == self.handle(),
            raw != 0,
    {
        proof {
            use_type_invariant(self);
        }
        self.manager_handle.raw_handle()
    }

    /// Gives up the connection for its handle guard, which is still to be
    /// released.
    pub fn into_handle(self) -> (guard: ScHandle)
        ensures
            guard.raw() == self.handle(),
            !guard.released(),
    {
        proof {
            use_type_invariant(&self);
        }
        self.manager_handle
    }

    /// Encodes the call that creates a service. The caller makes the call
    /// and hands the reply to [`CreateServiceCall::finish`], which gives
    /// the new service.
    ///
    /// * `service_info` - The description of the service, as it will be
    ///   saved to the services database.
    /// * `service_access` - The access rights asked for on the new
    ///   service.
    ///
    /// The description is encoded before anything is asked of the service
    /// control manager: a text with an embedded nul is an error here, and
    /// no call is to be made. The service name is looked at first and
    /// reported as [`Argument::NewServiceName`]; the other texts follow
    /// in the order of [`first_argument_with_nul`]. The load-ordering
    /// group and its tag are left unused.
    pub fn create_service(&self, service_info: &ServiceInfo, service_access: ServiceAccess) -> (r:
        Result<CreateServiceCall, Error>)
        ensures
            if has_embedded_nul(service_info.name@) {
                r is Err && r->Err_0 == Error::ArgumentHasNulByte(Argument::NewServiceName)
            } else {
                match first_argument_with_nul(*service_info) {
                    Some(argument) => r is Err && r->Err_0 == Error::ArgumentHasNulByte(argument),
                    None => r matches Ok(call) && call.manager == self.handle()
                        && call.info.encodes(*service_info) && call.access
                        == service_access.bits() && call.load_order_group is None
                        && !call.wants_tag_id,
                }
            },
    {
        proof {
            use_type_invariant(self);
        }
        if encode(service_info.name.as_str()).is_err() {
            return Err(Error::ArgumentHasNulByte(Argument::NewServiceName));
        }
        let raw_info = match RawServiceInfo::new(service_info) {
            Ok(raw_info) => raw_info,
            Err(e) => {
                return Err(e);
            },
        };
        Ok(
            CreateServiceCall {
                manager: self.manager_handle.raw_handle(),
                info: raw_info,
                access: service_access.bits(),
                load_order_group: None,
                wants_tag_id: false,
            },
        )
    }

    /// Encodes the call that opens an existing service. The caller makes
    /// the call and hands the reply to [`OpenServiceCall::finish`], which
    /// gives the open service. A name with an embedded nul is an error
    /// here, and no call is to be made.
    ///
    /// * `name` - The service name.
    /// * `request_access` - The access rights asked for on the service.
    pub fn open_service(&self, name: &str, request_access: ServiceAccess) -> (r: Result<
        OpenServiceCall,
        Error,
    >)
        ensures
            match encoded(name@) {
                None => r is Err && r->Err_0 == Error::ArgumentHasNulByte(Argument::ServiceName),
                Some(units) => r matches Ok(call) && call.manager == self.handle() && call.name@
                    == units && call.access == request_access.bits(),
            },
    {
        proof {
            use_type_invariant(self);
        }
        let service_name = match encode(name) {
            Ok(wide) => wide,
            Err(_) => {
                return Err(Error::ArgumentHasNulByte(Argument::ServiceName));
            },
        };
        Ok(
            OpenServiceCall {
                manager: self.manager_handle.raw_handle(),
                name: service_name,
                access: request_access.bits(),
            },
        )
    }

    /// Encodes the call that looks up the name of a service by its
    /// display name. The caller makes the call and hands the reply to
    /// [`KeyNameCall::finish`], which gives the name. A display name with
    /// an embedded nul is an error here, and no call is to be made.
    ///
    /// * `display_name` - The display name of the service.
    ///
    /// The name comes back in a buffer of [`KEY_NAME_CAPACITY`] code
    /// units, which is the most that the service control manager returns.
    pub fn service_name_from_display_name(&self, display_name: &str) -> (r: Result<
        KeyNameCall,
        Error,
    >)
        ensures
            match encoded(display_name@) {
                None => r is Err && r->Err_0 == Error::ArgumentHasNulByte(Argument::DisplayName),
                Some(units) => r matches Ok(call) && call.manager == self.handle()
                    && call.display_name@ == units && call.capacity == KEY_NAME_CAPACITY,
            },
    {
        proof {
            use_type_invariant(self);
        }
        let service_display_name = match encode(display_name) {
            Ok(wide) => wide,
            Err(_) => {
                return Err(Error::ArgumentHasNulByte(Argument::DisplayName));
            },
        };
        Ok(
            KeyNameCall {
                manager: self.manager_handle.raw_handle(),
                display_name: service_display_name,
                capacity: KEY_NAME_CAPACITY,
            },
        )
    }

    /// Encodes the call that starts a listing of the services of the given
    /// types in the given states. The caller makes the pending call of
    /// the listing and hands the reply to [`Enumeration::on_reply`], until
    /// that gives the entries or a failure.
    ///
    /// * `list_service_type` - The types to list.
    /// * `service_active_state` - The states to list.
    ///
    /// The first call starts at the beginning with a buffer for
    /// [`MAX_SERVICES`] records. Both filters are handed on as they are.
    pub fn get_all_services(
        &self,
        list_service_type: ListServiceType,
        service_active_state: ServiceActiveState,
    ) -> (listing: Enumeration)
        ensures
            listing.pending() == (EnumServicesCall {
                manager: self.handle(),
                service_type: list_service_type.bits(),
                service_state: service_active_state.bits(),
                buffer: BufferSize::Records(MAX_SERVICES),
                resume_handle: 0,
            }),
            listing.collected().len() == 0,
            !listing.retried(),
    {
        proof {
            use_type_invariant(self);
        }
        Enumeration {
            call: EnumServicesCall {
                manager: self.manager_handle.raw_handle(),
                service_type: list_service_type.bits(),
                service_state: service_active_state.bits(),
                buffer: BufferSize::Records(MAX_SERVICES),
                resume_handle: 0,
            },
            entries: Vec::new(),
            retried: false,
        }
    }
}

/// Where the service control manager keeps to the state filter in every
/// record it returns, the decoded listing keeps to it in every entry:
/// asked for active services it holds no stopped one, and asked for
/// inactive services it holds only stopped ones. This holds of a listing
/// of one reply, where nothing was collected before, and of the entries
/// that a second reply adds to those of the first.
pub proof fn lemma_listing_keeps_state_filter(
    filter: ServiceActiveState,
    before: Seq<ServiceEntry>,
    records: Seq<RawServiceEntry>,
    entries: Seq<ServiceEntry>,
)
    requires
        appends_decoded(entries, before, records),
        forall|i: int|
            0 <= i < before.len() ==> filter.spec_selects(
                (#[trigger] before[i]).status.current_state,
            ),
        forall|i: int|
            0 <= i < records.len() ==> filter.selects_raw(
                (#[trigger] records[i]).status.current_state,
            ),
    ensures
        forall|i: int|
            0 <= i < entries.len() ==> filter.spec_selects(
                (#[trigger] entries[i]).status.current_state,
            ),
        filter.bits() == ServiceActiveState::ACTIVE ==> forall|i: int|
            0 <= i < entries.len() ==> (#[trigger] entries[i]).status.current_state
                != ServiceState::Stopped,
        filter.bits() == ServiceActiveState::INACTIVE ==> forall|i: int|
            0 <= i < entries.len() ==> (#[trigger] entries[i]).status.current_state
                == ServiceState::Stopped,
{
    assert forall|i: int| 0 <= i < entries.len() implies filter.spec_selects(
        (#[trigger] entries[i]).status.current_state,
    ) by {
        if i < before.len() {
            assert(entries[i] == before[i]);
        } else {
            let k = i - before.len();
            assert(entries[i].describes(records[k]));
            assert(filter.selects_raw(records[k].status.current_state));
            lemma_decoding_keeps_activity(filter, records[k].status, entries[i].status);
        }
    }
    assert(1u32 & 1u32 != 0 && 1u32 & 2u32 == 0 && 2u32 & 1u32 == 0 && 2u32 & 2u32 != 0)
        by (bit_vector);
}

} // verus!
