//! Safe descriptors for DLPack, the in-memory tensor exchange format.
//!
//! A [`Tensor`] is the plain, borrowed view of a buffer: address, device,
//! element type, shape and strides. A [`ManagedTensor`] owns such a buffer
//! on behalf of whoever made it: it carries the owner's context and the
//! function to call when the holder is done with the buffer, and decides
//! when that call is due.
//!
//! The library follows no address and calls no foreign function. Every
//! pointer is an address (see [`pointer`]), the records of the format are
//! plain values (see [`wire`]), and releasing a managed tensor returns the
//! call to make as a [`tensor::DeleterCall`].

pub mod datatype;
pub mod device;
pub mod errors;
pub mod pointer;
pub mod tensor;
pub mod text;
pub mod wire;

pub use datatype::{DataType, DataTypeCode};
pub use device::{Device, DeviceType};
pub use tensor::{ManagedTensor, ManagedTensorProxy, ManagerContext, Tensor};

use vstd::prelude::*;

verus! {

/// Version of the format that this library follows.
pub fn version() -> (v: u32)
    ensures
        v == wire::DLPACK_VERSION,
{
    wire::DLPACK_VERSION
}

/// Version of the binary layout that this library follows.
pub fn abi_version() -> (v: u32)
    ensures
        v == wire::DLPACK_ABI_VERSION,
{
    wire::DLPACK_ABI_VERSION
}

} // verus!
