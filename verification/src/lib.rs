//! A boundary-safe XZ (LZMA2) compression service.
//!
//! The library holds the logic of a flat, allocation-transferring call
//! surface: argument validation, the codec step, and the ownership-transfer
//! protocol under which a result block is handed to a foreign caller and
//! later released. The raw-memory edge itself (pointers, the shared
//! allocator) lives outside the library; the functions here work on plain
//! values and say exactly what that edge must do.

pub mod boundary;
pub mod codec;
pub mod status;
