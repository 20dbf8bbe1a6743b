//! Read-only access to files on a FAT-formatted SD card that shares one SPI
//! bus with other peripherals.
//!
//! The crate holds the decisions of that stack, each as a verified state
//! machine over plain values:
//!
//! * [`fault`]: one closed error taxonomy, and the rules that sort the
//!   reports of the card driver and of the filesystem driver into it.
//! * [`bus`]: the arbiter that hands the single bus controller to one
//!   logical device at a time.
//! * [`card`]: the block-device adapter, which runs every operation on the
//!   card in a bus session of its own, with the chip-select line asserted
//!   for exactly as long as the exchange lasts.
//! * [`header`]: the partition table and the boot sector that stand before a
//!   volume.
//! * [`volume`]: the table of open volumes, directories and files, over
//!   [`registry`].
//! * [`reader`]: the errand of reading one file from its first byte to its
//!   last, and of closing what it opened.
//!
//! Nothing in here touches hardware. The caller performs each transfer and
//! reports its outcome; the state machines decide what happens next. The one
//! call that leaves the crate is to the boot-sector parser of the filesystem
//! driver, which only computes.

pub mod bus;
pub mod card;
pub mod fault;
pub mod header;
pub mod reader;
pub mod registry;
pub mod volume;
