//! Path resolution and naming for an EFI System Partition (ESP), together
//! with extraction of named sections from PE images.
//!
//! The library computes, from a generation snapshot, the fixed set of
//! destination paths that a boot installer writes under an ESP root:
//! flattened, FAT-compatible names derived from content-addressed store
//! paths, the per-generation stub image name, and the fixed firmware and
//! systemd-boot file names for the generation's architecture. A separate
//! module locates a named section inside a PE/PE32+ image, which callers use
//! to confirm the embedded metadata of a generated stub.
//!
//! The library performs no I/O. A caller that works on a live filesystem
//! reads each symlink target once and hands the result in as plain data.

pub mod errors;
pub mod esp;
pub mod os_release;
pub mod pe;
pub mod strutil;
