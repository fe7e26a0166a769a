//! Host side of N-API for WebAssembly guests: which interface versions a guest module needs, the
//! sessions that take a module to a running instance, the handles that guests hold on native
//! environments, and the bookkeeping around calls from the host into a guest.
pub mod callback;
pub mod ctx;
pub mod dispatch;
pub mod engine;
pub mod env;
pub mod error;
pub mod handle;
pub mod hooks;
pub mod import;
pub mod session;
pub mod sharing;
pub mod text;
pub mod version;

pub use crate::ctx::{NapiCtx, NapiCtxBuilder, NapiLimits};
pub use crate::env::NapiEnv;
pub use crate::error::NapiError;
pub use crate::handle::NapiHandleIds;
pub use crate::hooks::{GuestImports, NapiRuntimeHooks};
pub use crate::session::NapiSession;
pub use crate::version::{
    NapiVersion, NapiWasmerExtensionVersion, NAPI_EXTENSION_WASMER_MODULE_NAME,
    NAPI_EXTENSION_WASMER_MODULE_PREFIX, NAPI_MODULE_NAME,
};
