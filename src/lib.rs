//! Host-side engine for the DFU boot stage of a portable media player:
//! boot-stage detection, DFU request building, image wrapping, the chunked
//! image transfer and the bootloader exploit sequence.
pub mod dfu;
pub mod error;
pub mod exploit;
pub mod image;
pub mod load;
pub mod mode;
