//! A safety core for crossing into a foreign, nul-terminated, 16-bit-code-unit
//! string ABI and an externally reference-counted resource model.
//!
//! The crate provides:
//! - a wide string family ([`CWideString`], [`CWideStr`]) whose invariant,
//!   "exactly one nul unit, at the end", makes a buffer taken from it always
//!   safe to hand to a foreign call, with validated and caller-guaranteed
//!   construction, slicing, and lazy decoding;
//! - a disarmable ownership guard ([`ExternalHandle`]) that makes
//!   "exactly-once release, or permanent hand-off" a proved protocol;
//! - a file-type filter list ([`FileFilters`]) whose exported descriptors
//!   and owning storage grow together, append-only, in lock-step;
//! - the growable-buffer retry protocol ([`PathResolver`]) behind absolute
//!   path resolution, and the display-name format codes
//!   ([`DisplayNameType`]) of the foreign shell-item call.

pub mod c_wide_string;
pub mod fileapi;
pub mod handle;
pub mod shobjidl;
pub mod utf16;

pub use self::c_wide_string::CWideStr;
pub use self::c_wide_string::CWideString;
pub use self::c_wide_string::NulError;
pub use self::fileapi::PathResolver;
pub use self::handle::ExternalHandle;
pub use self::shobjidl::DisplayNameType;
pub use self::shobjidl::FileFilters;
