//! The download-and-install pipeline of a desktop application catalog.
//!
//! Everything here decides; nothing here performs input or output. The
//! caller streams a download and reports each chunk to a
//! [`download::Download`], which says what to write and what to report and
//! heeds the per-download flags of a [`cancel::CancelRegistry`]. An
//! [`install::Installer`] drives the installation of the downloaded file:
//! it mounts a disk image, reads the mount point from the tool's output
//! ([`mount::parse_mount_point`]), picks the application bundle, has it
//! copied with a [`tree_copy::TreeCopier`], and always ejects the image
//! again; a package is handed to the system installer instead.
use vstd::prelude::*;

pub mod cancel;
pub mod catalog;
pub mod dispatch;
pub mod download;
pub mod install;
pub mod mount;
pub mod text;
pub mod tree_copy;

verus! {

} // verus!
