use gpu_query::device::{
    collect_devices, decode_device_name, Device, DeviceListing, DeviceProperties, DeviceType,
    ListingAction, ListingEvent,
};
use gpu_query::error::QueryError;
use gpu_query::shim::{library_directory, LookupAction, LookupEvent, ShimLookup};
use gpu_query::version::{application_version, instance_version, requested_api_version, Version};

fn padded(name: &[u8]) -> Vec<u8> {
    let mut buffer = name.to_vec();
    buffer.resize(256, 0);
    buffer
}

fn props(device_type: DeviceType, name: &[u8], api_version: u32) -> DeviceProperties {
    DeviceProperties { device_type, name: padded(name), api_version }
}

#[test]
fn decodes_padded_device_name() {
    let buffer = padded(b"GPU-X");
    assert_eq!(buffer.len(), 256);
    assert_eq!(decode_device_name(&buffer), Ok(String::from("GPU-X")));
}

#[test]
fn decodes_name_without_padding() {
    assert_eq!(decode_device_name(b"Radeon"), Ok(String::from("Radeon")));
}

#[test]
fn decodes_all_padding_to_empty_name() {
    assert_eq!(decode_device_name(&[0u8; 256]), Ok(String::new()));
    assert_eq!(decode_device_name(&[]), Ok(String::new()));
}

#[test]
fn keeps_interior_nul_of_name() {
    assert_eq!(decode_device_name(b"GPU\0X\0\0"), Ok(String::from("GPU\0X")));
}

#[test]
fn decodes_multibyte_name() {
    let buffer = padded("Gerät ü".as_bytes());
    assert_eq!(decode_device_name(&buffer), Ok(String::from("Gerät ü")));
}

#[test]
fn rejects_name_that_is_not_utf8() {
    let buffer = padded(&[b'G', 0xff, b'X']);
    assert_eq!(decode_device_name(&buffer), Err(QueryError::InvalidDeviceName));
}

#[test]
fn pack_then_unpack_round_trip() {
    let v = Version { major: 1, minor: 3, patch: 0 };
    let packed = v.packed();
    assert_eq!(packed, (1 << 22) | (3 << 12));
    assert_eq!(Version::from_packed(packed), v);
    let w = Version { major: 127, minor: 1023, patch: 4095 };
    assert_eq!(Version::from_packed(w.packed()), w);
}

#[test]
fn unpacks_parts_and_ignores_variant() {
    let packed: u32 = (1 << 29) | (1 << 22) | (2 << 12) | 3;
    assert_eq!(Version::from_packed(packed), Version { major: 1, minor: 2, patch: 3 });
    assert_eq!(Version::from_packed(4202499).to_array(), [1, 2, 3]);
}

#[test]
fn instance_version_of_runtime() {
    assert_eq!(instance_version(Some(4206592)), [1, 3, 0]);
    assert_eq!(instance_version(Some(u32::MAX)), [127, 1023, 4095]);
}

#[test]
fn instance_version_unavailable_is_zeros() {
    assert_eq!(instance_version(None), [0, 0, 0]);
}

#[test]
fn requested_versions() {
    assert_eq!(requested_api_version(), 4206592);
    assert_eq!(application_version(), 4194304);
}

#[test]
fn listing_skips_software_devices() {
    let devices = vec![
        props(DeviceType::Cpu, b"llvmpipe", 4206592),
        props(DeviceType::DiscreteGpu, b"GPU-X", 4206851),
        props(DeviceType::IntegratedGpu, b"iGPU", 4202496),
        props(DeviceType::Cpu, b"swiftshader", 4206592),
    ];
    let out = collect_devices(&devices).unwrap();
    assert_eq!(
        out,
        vec![
            Device { name: String::from("GPU-X"), major: 1, minor: 3, patch: 259 },
            Device { name: String::from("iGPU"), major: 1, minor: 2, patch: 0 },
        ]
    );
}

#[test]
fn listing_of_no_devices_is_empty() {
    assert_eq!(collect_devices(&Vec::new()), Ok(Vec::new()));
}

#[test]
fn listing_fails_on_invalid_name() {
    let devices = vec![
        props(DeviceType::DiscreteGpu, b"GPU-X", 4206592),
        props(DeviceType::VirtualGpu, &[0xc3, 0x28], 4206592),
    ];
    assert_eq!(collect_devices(&devices), Err(QueryError::InvalidDeviceName));
}

#[test]
fn listing_ignores_invalid_name_of_software_device() {
    let devices = vec![
        props(DeviceType::Cpu, &[0xff], 4206592),
        props(DeviceType::Other, b"card", 4206592),
    ];
    let out = collect_devices(&devices).unwrap();
    assert_eq!(out.len(), 1);
    assert_eq!(out[0].name, "card");
}

#[test]
fn device_listing_success_destroys_instance() {
    let (mut listing, action) = DeviceListing::start();
    assert!(matches!(action, ListingAction::LoadRuntime));
    assert!(matches!(listing.step(ListingEvent::RuntimeLoaded), ListingAction::CreateInstance));
    assert!(matches!(listing.step(ListingEvent::InstanceCreated), ListingAction::EnumerateDevices));
    let found = vec![
        props(DeviceType::Cpu, b"llvmpipe", 4206592),
        props(DeviceType::DiscreteGpu, b"GPU-X", 4206592),
    ];
    assert!(matches!(listing.step(ListingEvent::DevicesFound(found)), ListingAction::DestroyInstance));
    match listing.step(ListingEvent::InstanceDestroyed) {
        ListingAction::Finish(Ok(out)) => {
            assert_eq!(out, vec![Device { name: String::from("GPU-X"), major: 1, minor: 3, patch: 0 }]);
        }
        other => panic!("unexpected {:?}", other),
    }
    assert!(!listing.awaits(&ListingEvent::InstanceDestroyed));
}

#[test]
fn device_listing_failures() {
    let (mut listing, _) = DeviceListing::start();
    assert!(matches!(
        listing.step(ListingEvent::RuntimeMissing),
        ListingAction::Finish(Err(QueryError::RuntimeUnavailable))
    ));

    let (mut listing, _) = DeviceListing::start();
    listing.step(ListingEvent::RuntimeLoaded);
    assert!(matches!(
        listing.step(ListingEvent::InstanceFailed),
        ListingAction::Finish(Err(QueryError::InstanceCreation))
    ));
}

#[test]
fn device_listing_destroys_instance_before_failing() {
    let (mut listing, _) = DeviceListing::start();
    listing.step(ListingEvent::RuntimeLoaded);
    listing.step(ListingEvent::InstanceCreated);
    assert!(!listing.awaits(&ListingEvent::InstanceDestroyed));
    assert!(matches!(listing.step(ListingEvent::EnumerationFailed), ListingAction::DestroyInstance));
    assert!(listing.awaits(&ListingEvent::InstanceDestroyed));
    assert!(matches!(
        listing.step(ListingEvent::InstanceDestroyed),
        ListingAction::Finish(Err(QueryError::Enumeration))
    ));

    let (mut listing, _) = DeviceListing::start();
    listing.step(ListingEvent::RuntimeLoaded);
    listing.step(ListingEvent::InstanceCreated);
    let found = vec![props(DeviceType::DiscreteGpu, &[0xff, 0xfe], 4206592)];
    assert!(matches!(listing.step(ListingEvent::DevicesFound(found)), ListingAction::DestroyInstance));
    assert!(matches!(
        listing.step(ListingEvent::InstanceDestroyed),
        ListingAction::Finish(Err(QueryError::InvalidDeviceName))
    ));
}

#[test]
fn directory_of_resolved_library() {
    assert_eq!(
        library_directory("/usr/lib/x86_64-linux-gnu/libGLX_nvidia.so.0"),
        Ok(String::from("/usr/lib/x86_64-linux-gnu"))
    );
    assert_eq!(library_directory("/libGLX_nvidia.so.0"), Ok(String::from("/")));
    assert_eq!(library_directory("libGLX_nvidia.so.0"), Ok(String::new()));
}

#[test]
fn directory_of_root_or_empty_path_fails() {
    assert_eq!(library_directory("/"), Err(QueryError::NoParentDirectory));
    assert_eq!(library_directory(""), Err(QueryError::NoParentDirectory));
}

#[test]
fn missing_vendor_library_fails_without_output() {
    let (mut lookup, action) = ShimLookup::start();
    assert!(matches!(action, LookupAction::OpenLibrary));
    assert!(matches!(
        lookup.step(LookupEvent::OpenFailed),
        LookupAction::Finish(Err(QueryError::LibraryOpen))
    ));
    assert!(!lookup.awaits(&LookupEvent::Closed));
}

#[test]
fn shim_lookup_success_closes_handle() {
    let (mut lookup, _) = ShimLookup::start();
    assert!(matches!(lookup.step(LookupEvent::Opened), LookupAction::QueryLinkMap));
    let resolved = String::from("/opt/nvidia/lib/libGLX_nvidia.so.0");
    assert!(matches!(lookup.step(LookupEvent::Resolved(resolved)), LookupAction::CloseLibrary));
    match lookup.step(LookupEvent::Closed) {
        LookupAction::Finish(Ok(dir)) => assert_eq!(dir, "/opt/nvidia/lib"),
        other => panic!("unexpected {:?}", other),
    }
}

#[test]
fn shim_lookup_closes_handle_before_failing() {
    let (mut lookup, _) = ShimLookup::start();
    lookup.step(LookupEvent::Opened);
    assert!(matches!(lookup.step(LookupEvent::QueryFailed), LookupAction::CloseLibrary));
    assert!(matches!(
        lookup.step(LookupEvent::Closed),
        LookupAction::Finish(Err(QueryError::LinkMapQuery))
    ));

    let (mut lookup, _) = ShimLookup::start();
    lookup.step(LookupEvent::Opened);
    assert!(matches!(lookup.step(LookupEvent::Resolved(String::from("/"))), LookupAction::CloseLibrary));
    assert!(matches!(
        lookup.step(LookupEvent::Closed),
        LookupAction::Finish(Err(QueryError::NoParentDirectory))
    ));
}

#[test]
fn repeated_lookups_never_finish_holding_a_handle() {
    for round in 0..100u32 {
        let (mut lookup, _) = ShimLookup::start();
        lookup.step(LookupEvent::Opened);
        let event = if round % 2 == 0 {
            LookupEvent::QueryFailed
        } else {
            LookupEvent::Resolved(String::from("/usr/lib/libGLX_nvidia.so.0"))
        };
        assert!(matches!(lookup.step(event), LookupAction::CloseLibrary));
        assert!(matches!(lookup.step(LookupEvent::Closed), LookupAction::Finish(_)));
    }
}

#[test]
fn error_messages_are_not_empty() {
    let all = [
        QueryError::RuntimeUnavailable,
        QueryError::InstanceCreation,
        QueryError::Enumeration,
        QueryError::InvalidDeviceName,
        QueryError::LibraryOpen,
        QueryError::LinkMapQuery,
        QueryError::NoParentDirectory,
    ];
    for e in all {
        assert!(!e.message().is_empty());
    }
    assert_eq!(QueryError::LibraryOpen.message(), "dlopen failed");
}
