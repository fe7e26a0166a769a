use napi_wasmer::version::napi_wasmer_extension_version_from_namespace;
use napi_wasmer::{
    NapiVersion, NapiWasmerExtensionVersion, NAPI_EXTENSION_WASMER_MODULE_NAME,
    NAPI_EXTENSION_WASMER_MODULE_PREFIX, NAPI_MODULE_NAME,
};

#[test]
fn napi_version_compatibility_is_additive() {
    assert!(NapiVersion::V10.is_compatible_with(NapiVersion::V10));
    assert!(!NapiVersion::V10.is_compatible_with(NapiVersion::Unknown));
    assert!(NapiVersion::Unknown.is_compatible_with(NapiVersion::V10));
    assert!(!NapiVersion::Unknown.is_compatible_with(NapiVersion::Unknown));
}

#[test]
fn napi_wasmer_extension_version_compatibility_is_strict() {
    assert!(NapiWasmerExtensionVersion::V0.is_compatible_with(NapiWasmerExtensionVersion::V0));
    assert!(
        !NapiWasmerExtensionVersion::V0.is_compatible_with(NapiWasmerExtensionVersion::Unknown)
    );
    assert!(
        !NapiWasmerExtensionVersion::Unknown.is_compatible_with(NapiWasmerExtensionVersion::V0)
    );
    assert!(
        !NapiWasmerExtensionVersion::Unknown
            .is_compatible_with(NapiWasmerExtensionVersion::Unknown)
    );
}

#[test]
fn namespaces_name_their_extension_revision() {
    let read = napi_wasmer_extension_version_from_namespace;
    assert_eq!(read("napi_extension_wasmer_v0"), Some(NapiWasmerExtensionVersion::V0));
    assert_eq!(read("napi_extension_wasmer_v1"), Some(NapiWasmerExtensionVersion::Unknown));
    assert_eq!(read("napi_extension_wasmer_v"), Some(NapiWasmerExtensionVersion::Unknown));
    assert_eq!(read("napi_extension_wasmer_v00"), Some(NapiWasmerExtensionVersion::Unknown));
    assert_eq!(read("napi_extension_wasmer_v\u{e9}"), Some(NapiWasmerExtensionVersion::Unknown));
    assert_eq!(read("napi_extension_wasmer_"), None);
    assert_eq!(read("napi"), None);
    assert_eq!(read("wasi_snapshot_preview1"), None);
    assert_eq!(read(""), None);
}

#[test]
fn versions_have_names() {
    assert_eq!(NapiVersion::V10.name(), "V10");
    assert_eq!(NapiVersion::Unknown.name(), "Unknown");
    assert_eq!(NapiWasmerExtensionVersion::V0.name(), "V0");
    assert_eq!(NapiWasmerExtensionVersion::Unknown.name(), "Unknown");
}

#[test]
fn the_supported_namespace_is_the_prefix_with_its_revision() {
    assert_eq!(NAPI_MODULE_NAME, "napi");
    assert_eq!(
        NAPI_EXTENSION_WASMER_MODULE_NAME,
        format!("{}0", NAPI_EXTENSION_WASMER_MODULE_PREFIX)
    );
}
