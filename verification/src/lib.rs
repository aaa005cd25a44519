//! Deterministic tests with external test vectors.
//!
//! Code under test exposes its inputs and outputs to a session. An `Init` session
//! records them as the entries of a test vector; a `Check` session hands the
//! recorded inputs back and refuses outputs that differ from the recorded ones.
//! Large values are kept in sidecar files next to the test vector file.
//!
//! Nothing here touches a file: storing and loading are step functions that say
//! which file comes next and take in what became of it.
pub mod calls;
pub mod data;
pub mod entry;
pub mod file_calls;
pub mod json;
pub mod laws;
pub mod message;
pub mod offload;
pub mod path;
pub mod round_trip;
pub mod session;

pub use data::{
    LoadAction, LoadEvent, SaveAction, SaveEvent, StoreAction, TestVectorData, TestVectorFileFormat,
};
pub use entry::{TestVectorEntry, TestVectorEntryType};
pub use offload::{OffloadCodec, OffloadError};
pub use session::{
    finalize_tv_case, initialize_tv_case_from_file, process_next_entry, FinalizeAction, Mismatch,
    NotInitialized, ProcessError, SessionError, TestMode, TestVecEnv, TestVecSession,
};
