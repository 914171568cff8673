//! Safe, verified decision logic for a client of the speech dispatcher's
//! control-plane API: the error taxonomy, the mapping of native status codes to
//! typed results, argument validation, lossy text decoding, the voice record and
//! the cursor that walks null-terminated result arrays.
pub mod errors;
pub mod iter;
pub mod text;
pub mod tts;
mod voice;

pub use errors::Error;
pub use iter::ArrayCursor;
pub use tts::{Command, ConnectionMode, Lifecycle, Listing, Priority};
pub use voice::Voice;
