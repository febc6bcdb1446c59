//! Verified core of a network-adapter utility: a model of the Windows
//! connection-manager COM client, the single-threaded command-serialization
//! worker, and the adapter-resolution algorithm, together with the pure
//! helpers (GUID formatting, MAC-address validation and formatting, console
//! mode flags) that surround them.

pub mod adapters_info;
pub mod cmd;
pub mod com_thread;
pub mod connection;
pub mod console;
pub mod guid;
pub mod hex;
pub mod hresult;
pub mod logger;
pub mod mac_spoof;
pub mod properties;
pub mod settings;

pub use adapters_info::{format_address, format_address_to_string};
pub use cmd::Cmd;
pub use com_thread::{
    MAX_BUFFERED_COMMANDS,
    find_network_connection, fmt_guid_to_string, normalize_adapter_name, process_command,
    reset_network_connection, run_worker, ComCommand, ResetError, SubmitError, WorkerExit,
    WorkerState,
};
pub use connection::{
    interpret_fetch, EnumNetConnection, FetchInterpretation, NetConnection, NetConnectionManager,
};
pub use console::{ConsoleHandleType, ConsoleModeFlags};
pub use guid::Guid;
pub use hresult::HResult;
pub use logger::{setup, LogEvent, LogSink};
pub use mac_spoof::{
    format_mac_address, format_mac_address_to_string, validate_hardware_address, HwAddressError,
};
pub use properties::{MediaType, NetConCharacteristicFlags, NetConProperties, NetConStatus};
pub use settings::{set_quick_edit_mode, set_virtual_terminal_processing, UserSettings};
