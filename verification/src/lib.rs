//! A provisioning pipeline that turns a container filesystem export into a
//! bootable UEFI disk image: it plans the creation and partitioning of a
//! backing image, the formatting and mounting of its partitions, the unpack
//! of the exported tree, the flavor-specific chrooted installation, and the
//! boot configuration, and it guarantees that acquired resources (the loop
//! device, mounts and bind mounts) are released in reverse order of
//! acquisition.
//!
//! The pipeline itself never touches the system: it emits steps as plain
//! values (commands to run, files to write) and consumes the captured output
//! of the steps that report back. A thin driver executes them.

pub mod bootconfig;
pub mod cmd;
pub mod devices;
pub mod errors;
pub mod flavor;
pub mod laws;
pub mod partition;
pub mod pipeline;
pub mod resources;
pub mod step;
pub mod text;
pub mod unpack;
