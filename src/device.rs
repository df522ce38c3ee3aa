use vstd::prelude::*;
use vstd::utf8::{decode_utf8, valid_utf8};

use crate::error::QueryError;
use crate::version::{Version, major_of, minor_of, patch_of};

verus! {

#[verifier::external_type_specification]
#[verifier::external_body]
pub struct ExFromUtf8Error(std::string::FromUtf8Error);

/// Relies on `String::from_utf8`: it accepts exactly the well-formed UTF-8
/// byte sequences, and the string then holds the characters they encode.
#[verifier::external_body]
fn string_from_utf8(bytes: Vec<u8>) -> (r: Result<String, std::string::FromUtf8Error>)
    ensures
        r is Ok <==> valid_utf8(bytes@),
        r matches Ok(s) ==> s@ == decode_utf8(bytes@),
{
    String::from_utf8(bytes)
}

/// A byte sequence with its trailing NUL bytes removed.
pub open spec fn trim_nul(b: Seq<u8>) -> Seq<u8>
    decreases b.len(),
{
    if b.len() > 0 && b.last() == 0u8 {
        trim_nul(b.drop_last())
    } else {
        b
    }
}

/// Whether a NUL-padded name buffer holds valid text once the padding is gone.
pub open spec fn name_is_valid(buffer: Seq<u8>) -> bool {
    valid_utf8(trim_nul(buffer))
}

/// The text of a NUL-padded name buffer.
pub open spec fn name_text(buffer: Seq<u8>) -> Seq<char> {
    decode_utf8(trim_nul(buffer))
}

/// The trimmed sequence is a prefix of the original, followed only by NUL bytes,
/// and does not itself end in a NUL byte.
pub proof fn lemma_trim_nul(b: Seq<u8>)
    ensures
        trim_nul(b).len() <= b.len(),
        trim_nul(b) == b.subrange(0, trim_nul(b).len() as int),
        forall|i: int| trim_nul(b).len() <= i < b.len() ==> b[i] == 0u8,
        trim_nul(b).len() > 0 ==> trim_nul(b).last() != 0u8,
    decreases b.len(),
{
    if b.len() > 0 && b.last() == 0u8 {
        lemma_trim_nul(b.drop_last());
        assert(b.drop_last().subrange(0, trim_nul(b).len() as int) =~= b.subrange(
            0,
            trim_nul(b).len() as int,
        ));
        assert forall|i: int| trim_nul(b).len() <= i < b.len() implies b[i] == 0u8 by {
            if i < b.len() - 1 {
                assert(b.drop_last()[i] == b[i]);
            }
        }
    } else {
        assert(b.subrange(0, b.len() as int) =~= b);
    }
}

/// The length of `buffer` without its trailing NUL bytes.
fn trimmed_len(buffer: &[u8]) -> (n: usize)
    ensures
        n <= buffer@.len(),
        buffer@.subrange(0, n as int) == trim_nul(buffer@),
{
    let mut n: usize = buffer.len();
    assert(buffer@.subrange(0, n as int) =~= buffer@);
    while n > 0 && buffer[n - 1] == 0
        invariant
            n <= buffer@.len(),
            trim_nul(buffer@.subrange(0, n as int)) == trim_nul(buffer@),
        decreases n,
    {
        assert(buffer@.subrange(0, n as int).drop_last() =~= buffer@.subrange(0, n - 1));
        n = n - 1;
    }
    n
}

/// Decodes a fixed-length, NUL-padded device name: the trailing NUL bytes are
/// dropped and the rest must be UTF-8.
pub fn decode_device_name(buffer: &[u8]) -> (r: Result<String, QueryError>)
    ensures
        name_is_valid(buffer@) ==> r is Ok,
        r matches Ok(s) ==> s@ == name_text(buffer@),
        !name_is_valid(buffer@) ==> r == Err::<String, QueryError>(QueryError::InvalidDeviceName),
{
    let n = trimmed_len(buffer);
    let mut bytes: Vec<u8> = Vec::new();
    let mut i: usize = 0;
    while i < n
        invariant
            n <= buffer@.len(),
            i <= n,
            bytes@ == buffer@.subrange(0, i as int),
        decreases n - i,
    {
        bytes.push(buffer[i]);
        i = i + 1;
        assert(bytes@ =~= buffer@.subrange(0, i as int));
    }
    match string_from_utf8(bytes) {
        Ok(s) => Ok(s),
        Err(_) => Err(QueryError::InvalidDeviceName),
    }
}

/// The kind of a physical device.
#[derive(Clone, Copy, Debug, PartialEq, Eq, Structural)]
pub enum DeviceType {
    Other,
    IntegratedGpu,
    DiscreteGpu,
    VirtualGpu,
    /// A software device that runs on the host CPU.
    Cpu,
}

/// What a physical device reports about itself.
#[derive(Debug)]
pub struct DeviceProperties {
    pub device_type: DeviceType,
    /// The device name: a fixed-length buffer padded with NUL bytes.
    pub name: Vec<u8>,
    /// The packed API version the device supports.
    pub api_version: u32,
}

/// One entry of the device listing.
#[derive(Debug, PartialEq, Eq)]
pub struct Device {
    pub name: String,
    pub major: u32,
    pub minor: u32,
    pub patch: u32,
}

/// The devices that the listing covers, in their order: every device but
/// software ones.
pub open spec fn listed(devices: Seq<DeviceProperties>) -> Seq<DeviceProperties>
    decreases devices.len(),
{
    if devices.len() == 0 {
        Seq::empty()
    } else if devices.last().device_type == DeviceType::Cpu {
        listed(devices.drop_last())
    } else {
        listed(devices.drop_last()).push(devices.last())
    }
}

/// `entry` is the listing entry of the device `props`.
pub open spec fn describes(entry: Device, props: DeviceProperties) -> bool {
    &&& entry.name@ == name_text(props.name@)
    &&& entry.major == major_of(props.api_version)
    &&& entry.minor == minor_of(props.api_version)
    &&& entry.patch == patch_of(props.api_version)
}

/// Every device to be listed has a name that decodes.
pub open spec fn all_names_valid(devices: Seq<DeviceProperties>) -> bool {
    forall|i: int|
        0 <= i < devices.len() && devices[i].device_type != DeviceType::Cpu ==> name_is_valid(
            devices[i].name@,
        )
}

/// No software device is ever among the listed devices.
pub proof fn lemma_listed_has_no_cpu(devices: Seq<DeviceProperties>)
    ensures
        forall|i: int|
            0 <= i < listed(devices).len() ==> listed(devices)[i].device_type != DeviceType::Cpu,
    decreases devices.len(),
{
    if devices.len() > 0 {
        lemma_listed_has_no_cpu(devices.drop_last());
    }
}

/// `r` is the outcome of listing `devices`: the entries of the listed devices,
/// in order, or `InvalidDeviceName` exactly when one of their names is not text.
pub open spec fn is_listing_of(devices: Seq<DeviceProperties>, r: Result<Vec<Device>, QueryError>) -> bool {
    &&& r is Ok <==> all_names_valid(devices)
    &&& r matches Ok(out) ==> out@.len() == listed(devices).len() && forall|k: int|
        0 <= k < out@.len() ==> describes(#[trigger] out@[k], listed(devices)[k])
    &&& r is Err ==> r == Err::<Vec<Device>, QueryError>(QueryError::InvalidDeviceName)
}

/// Builds the listing entry of one device.
pub fn describe(props: &DeviceProperties) -> (r: Result<Device, QueryError>)
    ensures
        name_is_valid(props.name@) <==> r is Ok,
        r matches Ok(d) ==> describes(d, *props),
        r is Err ==> r == Err::<Device, QueryError>(QueryError::InvalidDeviceName),
{
    let name = decode_device_name(props.name.as_slice())?;
    let version = Version::from_packed(props.api_version);
    Ok(Device { name, major: version.major, minor: version.minor, patch: version.patch })
}

/// Lists every device but software ones, in the order given, each with its
/// decoded name and version. Fails, with no partial result, if the name of a
/// device to be listed is not valid text.
pub fn collect_devices(devices: &Vec<DeviceProperties>) -> (r: Result<Vec<Device>, QueryError>)
    ensures
        is_listing_of(devices@, r),
{
    let mut out: Vec<Device> = Vec::new();
    let mut i: usize = 0;
    while i < devices.len()
        invariant
            i <= devices@.len(),
            all_names_valid(devices@.subrange(0, i as int)),
            out@.len() == listed(devices@.subrange(0, i as int)).len(),
            forall|k: int|
                0 <= k < out@.len() ==> describes(
                    #[trigger] out@[k],
                    listed(devices@.subrange(0, i as int))[k],
                ),
        decreases devices@.len() - i,
    {
        let props = &devices[i];
        let ghost before = devices@.subrange(0, i as int);
        let ghost after = devices@.subrange(0, i + 1);
        assert(after.drop_last() =~= before);
        assert(after.last() == devices@[i as int]);
        if props.device_type != DeviceType::Cpu {
            match describe(props) {
                Ok(d) => {
                    out.push(d);
                },
                Err(e) => {
                    assert(!all_names_valid(devices@));
                    return Err(e);
                },
            }
        }
        i = i + 1;
        assert forall|j: int|
            0 <= j < after.len() && after[j].device_type != DeviceType::Cpu implies name_is_valid(
            after[j].name@,
        ) by {
            if j < before.len() {
                assert(after[j] == before[j]);
            }
        }
    }
    assert(devices@.subrange(0, i as int) =~= devices@);
    Ok(out)
}

/// A native step that the device listing asks its caller to perform.
#[derive(Debug)]
pub enum ListingAction {
    /// Load the graphics API runtime.
    LoadRuntime,
    /// Create an API instance.
    CreateInstance,
    /// List the physical devices with their properties.
    EnumerateDevices,
    /// Destroy the instance.
    DestroyInstance,
    /// Stop with this outcome; no instance is alive.
    Finish(Result<Vec<Device>, QueryError>),
}

/// What came of the step last asked for.
#[derive(Debug)]
pub enum ListingEvent {
    RuntimeLoaded,
    RuntimeMissing,
    InstanceCreated,
    InstanceFailed,
    DevicesFound(Vec<DeviceProperties>),
    EnumerationFailed,
    InstanceDestroyed,
}

/// Where the device listing stands.
#[derive(Debug)]
pub enum ListingPhase {
    /// Waiting for the runtime to load.
    Loading,
    /// Waiting for an instance.
    Creating,
    /// The instance is alive; waiting for the devices.
    Enumerating,
    /// Waiting for the instance to be destroyed; the outcome is decided.
    Releasing(Result<Vec<Device>, QueryError>),
    /// Finished.
    Done,
}

/// The decisions of the device listing: create an instance, list the devices,
/// and destroy the instance on every path before finishing.
#[derive(Debug)]
pub struct DeviceListing {
    pub phase: ListingPhase,
}

impl DeviceListing {
    /// Whether an API instance is alive in this phase.
    pub open spec fn holds_instance(&self) -> bool {
        self.phase is Enumerating || self.phase is Releasing
    }

    /// Whether `event` answers the step this phase waits for.
    pub open spec fn spec_awaits(&self, event: &ListingEvent) -> bool {
        match self.phase {
            ListingPhase::Loading => event is RuntimeLoaded || event is RuntimeMissing,
            ListingPhase::Creating => event is InstanceCreated || event is InstanceFailed,
            ListingPhase::Enumerating => event is DevicesFound || event is EnumerationFailed,
            ListingPhase::Releasing(_) => event is InstanceDestroyed,
            ListingPhase::Done => false,
        }
    }

    /// A new listing, and its first step.
    pub fn start() -> (r: (DeviceListing, ListingAction))
        ensures
            r.0.phase is Loading,
            r.1 is LoadRuntime,
    {
        (DeviceListing { phase: ListingPhase::Loading }, ListingAction::LoadRuntime)
    }

    /// Whether `event` answers the step this phase waits for.
    #[verifier::when_used_as_spec(spec_awaits)]
    pub fn awaits(&self, event: &ListingEvent) -> (r: bool)
        ensures
            r == self.spec_awaits(event),
    {
        match self.phase {
            ListingPhase::Loading => matches!(event, ListingEvent::RuntimeLoaded | ListingEvent::RuntimeMissing),
            ListingPhase::Creating => matches!(event, ListingEvent::InstanceCreated | ListingEvent::InstanceFailed),
            ListingPhase::Enumerating => matches!(event, ListingEvent::DevicesFound(_) | ListingEvent::EnumerationFailed),
            ListingPhase::Releasing(_) => matches!(event, ListingEvent::InstanceDestroyed),
            ListingPhase::Done => false,
        }
    }

    /// Takes what came of the last step and returns the next one.
    pub fn step(&mut self, event: ListingEvent) -> (r: ListingAction)
        requires
            old(self).awaits(&event),
        ensures
            old(self).phase is Loading && event is RuntimeLoaded ==> final(self).phase is Creating
                && r is CreateInstance,
            old(self).phase is Loading && event is RuntimeMissing ==> final(self).phase is Done
                && r == ListingAction::Finish(Err(QueryError::RuntimeUnavailable)),
            old(self).phase is Creating && event is InstanceCreated ==> final(self).phase is Enumerating
                && r is EnumerateDevices,
            old(self).phase is Creating && event is InstanceFailed ==> final(self).phase is Done
                && r == ListingAction::Finish(Err(QueryError::InstanceCreation)),
            old(self).phase is Enumerating ==> r is DestroyInstance,
            old(self).phase is Enumerating ==> (event matches ListingEvent::DevicesFound(found) ==> (
            final(self).phase matches ListingPhase::Releasing(o) && is_listing_of(found@, o))),
            old(self).phase is Enumerating && event is EnumerationFailed ==> final(self).phase
                == ListingPhase::Releasing(Err(QueryError::Enumeration)),
            old(self).phase matches ListingPhase::Releasing(o) ==> final(self).phase is Done
                && r == ListingAction::Finish(o),
            // the instance is destroyed before the listing finishes, on every path
            r is Finish ==> !final(self).holds_instance(),
            old(self).holds_instance() && !final(self).holds_instance() ==> event is InstanceDestroyed,
            final(self).holds_instance() ==> r is EnumerateDevices || r is DestroyInstance,
    {
        let mut phase = ListingPhase::Done;
        std::mem::swap(&mut phase, &mut self.phase);
        match phase {
            ListingPhase::Loading => match event {
                ListingEvent::RuntimeLoaded => {
                    self.phase = ListingPhase::Creating;
                    ListingAction::CreateInstance
                },
                _ => ListingAction::Finish(Err(QueryError::RuntimeUnavailable)),
            },
            ListingPhase::Creating => match event {
                ListingEvent::InstanceCreated => {
                    self.phase = ListingPhase::Enumerating;
                    ListingAction::EnumerateDevices
                },
                _ => ListingAction::Finish(Err(QueryError::InstanceCreation)),
            },
            ListingPhase::Enumerating => {
                let outcome = match event {
                    ListingEvent::DevicesFound(found) => collect_devices(&found),
                    _ => Err(QueryError::Enumeration),
                };
                self.phase = ListingPhase::Releasing(outcome);
                ListingAction::DestroyInstance
            },
            ListingPhase::Releasing(outcome) => ListingAction::Finish(outcome),
            ListingPhase::Done => ListingAction::Finish(Err(QueryError::Enumeration)),
        }
    }
}

} // verus!
