//! The records of the exchange format, field for field.
//!
//! Layout and numbers follow the format's C header. Pointers stand here as
//! addresses (see [`crate::pointer`]): what is kept is the bit pattern that
//! crosses the boundary.

use vstd::prelude::*;
use crate::pointer::ArrayPtr;

verus! {

/// Version of the format that these records follow.
pub const DLPACK_VERSION: u32 = 70;

/// Version of the binary layout that these records follow.
pub const DLPACK_ABI_VERSION: u32 = 1;

/// Numeric code of an element kind, as it stands in a record.
pub type DLDataTypeCode = u32;

/// Signed integer elements.
pub const DL_INT: DLDataTypeCode = 0;

/// Unsigned integer elements.
pub const DL_UINT: DLDataTypeCode = 1;

/// IEEE floating point elements.
pub const DL_FLOAT: DLDataTypeCode = 2;

/// Opaque handle elements.
pub const DL_OPAQUE_HANDLE: DLDataTypeCode = 3;

/// Brain floating point elements.
pub const DL_BFLOAT: DLDataTypeCode = 4;

/// Complex elements.
pub const DL_COMPLEX: DLDataTypeCode = 5;

/// Numeric code of a device backend, as it stands in a record.
pub type DLDeviceType = u32;

/// Host memory.
pub const DL_CPU: DLDeviceType = 1;

/// CUDA device memory.
pub const DL_CUDA: DLDeviceType = 2;

/// Host memory pinned for CUDA.
pub const DL_CUDA_HOST: DLDeviceType = 3;

/// OpenCL device memory.
pub const DL_OPENCL: DLDeviceType = 4;

/// Vulkan buffers.
pub const DL_VULKAN: DLDeviceType = 7;

/// Metal buffers.
pub const DL_METAL: DLDeviceType = 8;

/// Verilog simulator buffers.
pub const DL_VPI: DLDeviceType = 9;

/// ROCm device memory.
pub const DL_ROCM: DLDeviceType = 10;

/// Host memory pinned for ROCm.
pub const DL_ROCM_HOST: DLDeviceType = 11;

/// Reserved for extension devices.
pub const DL_EXT_DEV: DLDeviceType = 12;

/// CUDA managed (unified) memory.
pub const DL_CUDA_MANAGED: DLDeviceType = 13;

/// Unified shared memory of a oneAPI device.
pub const DL_ONE_API: DLDeviceType = 14;

/// WebGPU buffers.
pub const DL_WEBGPU: DLDeviceType = 15;

/// Hexagon DSP memory.
pub const DL_HEXAGON: DLDeviceType = 16;

/// Element type of a tensor as it stands in a record.
#[derive(Debug, Clone, Copy, PartialEq, Eq, Hash, Default)]
pub struct DLDataType {
    pub code: u8,
    pub bits: u8,
    pub lanes: u16,
}

/// Device of a tensor as it stands in a record.
#[derive(Debug, Clone, Copy, PartialEq, Eq, Hash, Default)]
pub struct DLDevice {
    pub device_type: DLDeviceType,
    pub device_id: i32,
}

/// The plain tensor record: where the data lies and how to read it.
#[derive(Debug, Clone, Copy, PartialEq, Eq)]
pub struct DLTensor<'a> {
    /// Address of the buffer; zero for null.
    pub data: usize,
    pub device: DLDevice,
    /// Number of dimensions.
    pub ndim: i32,
    pub dtype: DLDataType,
    /// The extent of each dimension.
    pub shape: ArrayPtr<'a>,
    /// The stride of each dimension, counted in elements; null for a
    /// compact row-major buffer.
    pub strides: ArrayPtr<'a>,
    /// Bytes from `data` to the first element.
    pub byte_offset: u64,
}

/// The managed tensor record: a tensor record, the owner's context, and the
/// function that gives the buffer back to its owner.
#[derive(Debug, Clone, Copy, PartialEq, Eq)]
pub struct DLManagedTensor<'a> {
    pub dl_tensor: DLTensor<'a>,
    /// Address of the owner's context; zero for null.
    pub manager_ctx: usize,
    /// Address of the function to call on release, which takes the address
    /// of this record; zero for null.
    pub deleter: usize,
}

} // verus!
