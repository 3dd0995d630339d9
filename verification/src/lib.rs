//! Safe, verified core of a binding to an operating-system wireless
//! networking subsystem.
//!
//! The foreign runtime is reached only through plain values: integer
//! constants, strings copied out of foreign memory, and error codes read
//! from foreign error objects. Everything that interprets those values --
//! the closed enumerations mirroring foreign constants, the channel value
//! type, the scan-error taxonomy, and the network snapshot -- lives here
//! with proved contracts. The unverified shell that performs the actual
//! foreign calls hands plain values in and takes plain values back.

pub mod channel;
pub mod kinds;
pub mod network;
pub mod scan;

pub use channel::CWChannel;
pub use kinds::CWChannelBand;
pub use kinds::CWChannelWidth;
pub use kinds::CWPHYMode;
pub use kinds::CWSecurity;
pub use network::CWNetwork;
pub use scan::ScanError;
pub use scan::ScanErrorCategory;
