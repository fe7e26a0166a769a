//! The interface versions a guest module can ask for.
use vstd::prelude::*;

use crate::text::{same_text, strip_prefix};

verus! {

/// Import namespace of the core N-API functions.
pub const NAPI_MODULE_NAME: &'static str = "napi";

/// Import namespace of the supported revision of the Wasmer extension.
pub const NAPI_EXTENSION_WASMER_MODULE_NAME: &'static str = "napi_extension_wasmer_v0";

/// What every import namespace of the Wasmer extension starts with; the revision follows.
pub const NAPI_EXTENSION_WASMER_MODULE_PREFIX: &'static str = "napi_extension_wasmer_v";

/// Version of the core N-API surface.
#[derive(Clone, Copy, Debug, PartialEq, Eq, Structural)]
pub enum NapiVersion {
    V10,
    Unknown,
}

/// Revision of the Wasmer extension to N-API.
#[derive(Clone, Copy, Debug, PartialEq, Eq, Structural)]
pub enum NapiWasmerExtensionVersion {
    V0,
    Unknown,
}

impl NapiVersion {
    /// Whether a host at this version can serve a guest that asks for `required`.
    ///
    /// N-API versions only add functions, so whatever the host offers covers every version that
    /// is known by name; nothing covers a surface that is not known.
    pub fn is_compatible_with(self, required: NapiVersion) -> (compatible: bool)
        ensures
            compatible == (required == NapiVersion::V10),
    {
        match required {
            NapiVersion::V10 => true,
            NapiVersion::Unknown => false,
        }
    }

    /// The version's name.
    pub fn name(self) -> (name: &'static str)
        ensures
            name@ == self.spec_name(),
    {
        match self {
            NapiVersion::V10 => "V10",
            NapiVersion::Unknown => "Unknown",
        }
    }

    pub open spec fn spec_name(self) -> Seq<char> {
        match self {
            NapiVersion::V10 => "V10"@,
            NapiVersion::Unknown => "Unknown"@,
        }
    }
}

impl NapiWasmerExtensionVersion {
    /// Whether a host at this revision can serve a guest that asks for `required`.
    ///
    /// Extension revisions promise nothing across each other: the two must be the same, and known.
    pub fn is_compatible_with(self, required: NapiWasmerExtensionVersion) -> (compatible: bool)
        ensures
            compatible == (self == required && required == NapiWasmerExtensionVersion::V0),
    {
        match (self, required) {
            (NapiWasmerExtensionVersion::V0, NapiWasmerExtensionVersion::V0) => true,
            _ => false,
        }
    }

    /// The revision's name.
    pub fn name(self) -> (name: &'static str)
        ensures
            name@ == self.spec_name(),
    {
        match self {
            NapiWasmerExtensionVersion::V0 => "V0",
            NapiWasmerExtensionVersion::Unknown => "Unknown",
        }
    }

    pub open spec fn spec_name(self) -> Seq<char> {
        match self {
            NapiWasmerExtensionVersion::V0 => "V0"@,
            NapiWasmerExtensionVersion::Unknown => "Unknown"@,
        }
    }
}

/// The extension revision that an import namespace stands for; `None` for a namespace that is not
/// one of the extension's.
pub open spec fn extension_version_of(namespace: Seq<char>) -> Option<NapiWasmerExtensionVersion> {
    let prefix = NAPI_EXTENSION_WASMER_MODULE_PREFIX@;
    if namespace == NAPI_EXTENSION_WASMER_MODULE_NAME@ || namespace == prefix + "0"@ {
        Some(NapiWasmerExtensionVersion::V0)
    } else if prefix.is_prefix_of(namespace) {
        Some(NapiWasmerExtensionVersion::Unknown)
    } else {
        None
    }
}

/// Reads the extension revision off an import namespace.
pub fn napi_wasmer_extension_version_from_namespace(namespace: &str) -> (version: Option<
    NapiWasmerExtensionVersion,
>)
    ensures
        version == extension_version_of(namespace@),
{
    if same_text(namespace, NAPI_EXTENSION_WASMER_MODULE_NAME) {
        return Some(NapiWasmerExtensionVersion::V0);
    }
    match strip_prefix(namespace, NAPI_EXTENSION_WASMER_MODULE_PREFIX) {
        Some(suffix) => {
            let ghost prefix = NAPI_EXTENSION_WASMER_MODULE_PREFIX@;
            assert(prefix.is_prefix_of(namespace@)) by {
                assert(prefix =~= namespace@.subrange(0, prefix.len() as int));
            }
            if same_text(suffix, "0") {
                Some(NapiWasmerExtensionVersion::V0)
            } else {
                assert(namespace@ != prefix + "0"@) by {
                    assert(suffix@ =~= namespace@.skip(prefix.len() as int));
                    assert((prefix + "0"@).skip(prefix.len() as int) =~= "0"@);
                }
                Some(NapiWasmerExtensionVersion::Unknown)
            }
        },
        None => {
            let ghost prefix = NAPI_EXTENSION_WASMER_MODULE_PREFIX@;
            assert(namespace@ != prefix + "0"@) by {
                assert(prefix =~= (prefix + "0"@).subrange(0, prefix.len() as int));
            }
            None
        },
    }
}

/// The supported namespace is the prefix with the revision number behind it, so the two ways of
/// recognising it agree.
pub proof fn supported_namespace_is_prefixed()
    ensures
        NAPI_EXTENSION_WASMER_MODULE_NAME@ == NAPI_EXTENSION_WASMER_MODULE_PREFIX@ + "0"@,
{
    reveal_strlit("napi_extension_wasmer_v0");
    reveal_strlit("napi_extension_wasmer_v");
    reveal_strlit("0");
    assert(NAPI_EXTENSION_WASMER_MODULE_NAME@ =~= NAPI_EXTENSION_WASMER_MODULE_PREFIX@ + "0"@);
}

/// A namespace is the extension's exactly when it starts with `napi_extension_wasmer_v`. What
/// follows is the revision: "0" is the supported one, and anything else is not known.
pub proof fn revision_follows_the_prefix(namespace: Seq<char>, suffix: Seq<char>)
    ensures
        extension_version_of(namespace) is None <==> !"napi_extension_wasmer_v"@.is_prefix_of(
            namespace,
        ),
        extension_version_of("napi_extension_wasmer_v"@ + "0"@) == Some(
            NapiWasmerExtensionVersion::V0,
        ),
        suffix != "0"@ ==> extension_version_of("napi_extension_wasmer_v"@ + suffix) == Some(
            NapiWasmerExtensionVersion::Unknown,
        ),
{
    let prefix = "napi_extension_wasmer_v"@;
    supported_namespace_is_prefixed();
    assert(prefix.is_prefix_of(prefix + "0"@)) by {
        assert((prefix + "0"@).subrange(0, prefix.len() as int) =~= prefix);
    }
    assert(prefix.is_prefix_of(prefix + suffix)) by {
        assert((prefix + suffix).subrange(0, prefix.len() as int) =~= prefix);
    }
    assert((prefix + suffix).skip(prefix.len() as int) =~= suffix);
    assert((prefix + "0"@).skip(prefix.len() as int) =~= "0"@);
}

/// The namespaces of the core functions and of the guest's own memory and table are none of the
/// extension's.
pub proof fn other_namespaces_are_not_the_extension()
    ensures
        extension_version_of("napi"@) is None,
        extension_version_of("env"@) is None,
{
    reveal_strlit("napi_extension_wasmer_v");
    reveal_strlit("napi");
    reveal_strlit("env");
    revision_follows_the_prefix("napi"@, "0"@);
    revision_follows_the_prefix("env"@, "0"@);
}

} // verus!
