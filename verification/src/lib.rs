//! Supervision of a single long-lived worker process ("the sidecar").
//!
//! The crate holds the decisions of the supervisor as verified state
//! machines: which action follows which event, when the readiness signal
//! fires, what is published for each worker event, and which error a failed
//! start or stop reports. The surrounding application performs the actions
//! (spawning, waiting, network calls) and hands the outcomes back.
//!
//! Beside the supervisor stand two small services of the same application:
//! the hashed machine identifier and the search for a keyword in the text
//! files of a directory.

pub mod bridge;
pub mod error;
pub mod events;
pub mod gate;
pub mod handshake;
pub mod machine_id;
pub mod pattern;
pub mod search;
pub mod store;
pub mod supervisor;
pub mod text;

pub use bridge::{BridgeStep, EventBridge, SenderSlot};
pub use error::{HandshakeFailure, SidecarError};
pub use events::{Payload, Publication, SidecarEvent, Topic};
pub use gate::{GateState, ReadinessOutcome, READINESS_TIMEOUT_SECS};
pub use handshake::{InitPayload, APP_DATA_DIR_FIELD, HANDSHAKE_URL};
pub use machine_id::get_machine_id;
pub use pattern::{search_pattern, LineMatcher};
pub use search::{
    hit_line, is_binary_file, is_ignored_path, matching_lines, prepare_search, scan_file,
    search_in_files, FileSnapshot, SearchConfig, SearchResult, BINARY_PROBE_LEN,
};
pub use store::SidecarState;
pub use supervisor::{
    initialize_sidecar, kill_finished, shutdown_sidecar, DataDirOutcome, StartAction, StartEvent,
    StartPhase, StopAction,
};
