//! Path translation between a POSIX-emulation layer's namespace and the
//! native namespace of the host, plus heuristic detection of the emulation
//! layer's symbolic links, which the native filesystem stores as plain files
//! with special attributes.

pub mod os_emul;

pub use os_emul::CCP_POSIX_TO_WIN_W;
pub use os_emul::CCP_WIN_W_TO_POSIX;
pub use os_emul::DirEntryInfo;
pub use os_emul::FILE_ATTRIBUTE_READONLY;
pub use os_emul::FILE_ATTRIBUTE_SYSTEM;
pub use os_emul::OsEmul;
