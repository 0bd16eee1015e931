//! Devices: which backend holds a buffer, and which unit of it.

use vstd::prelude::*;
use vstd::std_specs::convert::FromSpecImpl;
use vstd::std_specs::convert::TryFromSpecImpl;
use vstd::string::*;
use crate::errors::UnsupportedDeviceError;
use crate::text::decimal;
use crate::text::push_decimal;
use crate::text::to_decimal;
use crate::text::str_eq;
use crate::wire::DLDevice;
use crate::wire::DLDeviceType;

verus! {

/// A backend that can hold a buffer.
#[derive(Debug, Clone, Copy, PartialEq, Eq, Hash, Structural)]
pub enum DeviceType {
    CPU,
    CUDA,
    CUDAHost,
    OpenCL,
    Vulkan,
    Metal,
    VPI,
    ROCM,
    ROCMHost,
    ExtDev,
    CUDAManaged,
    OneAPI,
    WebGPU,
    Hexagon,
}

impl DeviceType {
    /// The number that stands for this backend in a record.
    pub open spec fn wire_code(self) -> nat {
        match self {
            DeviceType::CPU => 1,
            DeviceType::CUDA => 2,
            DeviceType::CUDAHost => 3,
            DeviceType::OpenCL => 4,
            DeviceType::Vulkan => 7,
            DeviceType::Metal => 8,
            DeviceType::VPI => 9,
            DeviceType::ROCM => 10,
            DeviceType::ROCMHost => 11,
            DeviceType::ExtDev => 12,
            DeviceType::CUDAManaged => 13,
            DeviceType::OneAPI => 14,
            DeviceType::WebGPU => 15,
            DeviceType::Hexagon => 16,
        }
    }

    /// The backend that a number found in a record stands for, if any.
    pub open spec fn of_wire_code(code: nat) -> Option<DeviceType> {
        if code == 1 {
            Some(DeviceType::CPU)
        } else if code == 2 {
            Some(DeviceType::CUDA)
        } else if code == 3 {
            Some(DeviceType::CUDAHost)
        } else if code == 4 {
            Some(DeviceType::OpenCL)
        } else if code == 7 {
            Some(DeviceType::Vulkan)
        } else if code == 8 {
            Some(DeviceType::Metal)
        } else if code == 9 {
            Some(DeviceType::VPI)
        } else if code == 10 {
            Some(DeviceType::ROCM)
        } else if code == 11 {
            Some(DeviceType::ROCMHost)
        } else if code == 12 {
            Some(DeviceType::ExtDev)
        } else if code == 13 {
            Some(DeviceType::CUDAManaged)
        } else if code == 14 {
            Some(DeviceType::OneAPI)
        } else if code == 15 {
            Some(DeviceType::WebGPU)
        } else if code == 16 {
            Some(DeviceType::Hexagon)
        } else {
            None
        }
    }

    /// The name under which this backend is shown.
    pub open spec fn display_name(self) -> Seq<char> {
        match self {
            DeviceType::CPU => "cpu"@,
            DeviceType::CUDA => "cuda"@,
            DeviceType::CUDAHost => "cuda_host"@,
            DeviceType::OpenCL => "opencl"@,
            DeviceType::Vulkan => "vulkan"@,
            DeviceType::Metal => "metal"@,
            DeviceType::VPI => "vpi"@,
            DeviceType::ROCM => "rocm"@,
            DeviceType::ROCMHost => "rocm_host"@,
            DeviceType::ExtDev => "ext_device"@,
            DeviceType::CUDAManaged => "cuda_managed"@,
            DeviceType::OneAPI => "one_api"@,
            DeviceType::WebGPU => "web_gpu"@,
            DeviceType::Hexagon => "hexagon"@,
        }
    }

    /// The backend that answers to a name, if any.
    ///
    /// The names are those of [`Self::display_name`], but for the extension
    /// device, which is shown as "ext_device" and answers to "ext_dev".
    pub open spec fn of_name(name: Seq<char>) -> Option<DeviceType> {
        if name == "cpu"@ {
            Some(DeviceType::CPU)
        } else if name == "cuda"@ {
            Some(DeviceType::CUDA)
        } else if name == "cuda_host"@ {
            Some(DeviceType::CUDAHost)
        } else if name == "opencl"@ {
            Some(DeviceType::OpenCL)
        } else if name == "vulkan"@ {
            Some(DeviceType::Vulkan)
        } else if name == "metal"@ {
            Some(DeviceType::Metal)
        } else if name == "vpi"@ {
            Some(DeviceType::VPI)
        } else if name == "rocm"@ {
            Some(DeviceType::ROCM)
        } else if name == "rocm_host"@ {
            Some(DeviceType::ROCMHost)
        } else if name == "ext_dev"@ {
            Some(DeviceType::ExtDev)
        } else if name == "cuda_managed"@ {
            Some(DeviceType::CUDAManaged)
        } else if name == "one_api"@ {
            Some(DeviceType::OneAPI)
        } else if name == "web_gpu"@ {
            Some(DeviceType::WebGPU)
        } else if name == "hexagon"@ {
            Some(DeviceType::Hexagon)
        } else {
            None
        }
    }

    /// Every backend is found again from its own number.
    pub proof fn lemma_wire_round_trip(device_type: DeviceType)
        ensures
            Self::of_wire_code(device_type.wire_code()) == Some(device_type),
    {
    }

    /// A number stands for at most one backend, and that backend gives the
    /// number back.
    pub proof fn lemma_of_wire_code_exact(code: nat, device_type: DeviceType)
        ensures
            Self::of_wire_code(code) == Some(device_type) <==> device_type.wire_code() == code,
    {
    }

    /// Every backend but the extension device is found again from the name
    /// under which it is shown; the shown name of the extension device
    /// answers to nothing.
    pub proof fn lemma_name_round_trip(device_type: DeviceType)
        ensures
            device_type != DeviceType::ExtDev ==> Self::of_name(device_type.display_name())
                == Some(device_type),
            device_type == DeviceType::ExtDev ==> Self::of_name(device_type.display_name())
                is None,
    {
        reveal_strlit("cpu");
        reveal_strlit("cuda");
        reveal_strlit("cuda_host");
        reveal_strlit("opencl");
        reveal_strlit("vulkan");
        reveal_strlit("metal");
        reveal_strlit("vpi");
        reveal_strlit("rocm");
        reveal_strlit("rocm_host");
        reveal_strlit("ext_dev");
        reveal_strlit("ext_device");
        reveal_strlit("cuda_managed");
        reveal_strlit("one_api");
        reveal_strlit("web_gpu");
        reveal_strlit("hexagon");
        assert("cpu"@.len() == 3 && "cpu"@[0] == 'c');
        assert("cuda"@.len() == 4 && "cuda"@[0] == 'c');
        assert("cuda_host"@.len() == 9 && "cuda_host"@[0] == 'c');
        assert("opencl"@.len() == 6 && "opencl"@[0] == 'o');
        assert("vulkan"@.len() == 6 && "vulkan"@[0] == 'v');
        assert("metal"@.len() == 5 && "metal"@[0] == 'm');
        assert("vpi"@.len() == 3 && "vpi"@[0] == 'v');
        assert("rocm"@.len() == 4 && "rocm"@[0] == 'r');
        assert("rocm_host"@.len() == 9 && "rocm_host"@[0] == 'r');
        assert("ext_dev"@.len() == 7 && "ext_dev"@[0] == 'e');
        assert("ext_device"@.len() == 10 && "ext_device"@[0] == 'e');
        assert("cuda_managed"@.len() == 12 && "cuda_managed"@[0] == 'c');
        assert("one_api"@.len() == 7 && "one_api"@[0] == 'o');
        assert("web_gpu"@.len() == 7 && "web_gpu"@[0] == 'w');
        assert("hexagon"@.len() == 7 && "hexagon"@[0] == 'h');
    }

    /// The backend that the number `value` stands for, if any.
    pub fn n(value: DLDeviceType) -> (found: Option<DeviceType>)
        ensures
            found == Self::of_wire_code(value as nat),
    {
        if value == crate::wire::DL_CPU {
            Some(DeviceType::CPU)
        } else if value == crate::wire::DL_CUDA {
            Some(DeviceType::CUDA)
        } else if value == crate::wire::DL_CUDA_HOST {
            Some(DeviceType::CUDAHost)
        } else if value == crate::wire::DL_OPENCL {
            Some(DeviceType::OpenCL)
        } else if value == crate::wire::DL_VULKAN {
            Some(DeviceType::Vulkan)
        } else if value == crate::wire::DL_METAL {
            Some(DeviceType::Metal)
        } else if value == crate::wire::DL_VPI {
            Some(DeviceType::VPI)
        } else if value == crate::wire::DL_ROCM {
            Some(DeviceType::ROCM)
        } else if value == crate::wire::DL_ROCM_HOST {
            Some(DeviceType::ROCMHost)
        } else if value == crate::wire::DL_EXT_DEV {
            Some(DeviceType::ExtDev)
        } else if value == crate::wire::DL_CUDA_MANAGED {
            Some(DeviceType::CUDAManaged)
        } else if value == crate::wire::DL_ONE_API {
            Some(DeviceType::OneAPI)
        } else if value == crate::wire::DL_WEBGPU {
            Some(DeviceType::WebGPU)
        } else if value == crate::wire::DL_HEXAGON {
            Some(DeviceType::Hexagon)
        } else {
            None
        }
    }

    /// The backend that the number in a record stands for. The number must
    /// be one of the known set.
    pub fn from_wire(device_type: DLDeviceType) -> (found: DeviceType)
        requires
            Self::of_wire_code(device_type as nat) is Some,
        ensures
            Some(found) == Self::of_wire_code(device_type as nat),
    {
        Self::n(device_type).unwrap()
    }

    /// The name under which this backend is shown.
    pub fn name(&self) -> (name: &'static str)
        ensures
            name@ == self.display_name(),
    {
        match self {
            DeviceType::CPU => "cpu",
            DeviceType::CUDA => "cuda",
            DeviceType::CUDAHost => "cuda_host",
            DeviceType::OpenCL => "opencl",
            DeviceType::Vulkan => "vulkan",
            DeviceType::Metal => "metal",
            DeviceType::VPI => "vpi",
            DeviceType::ROCM => "rocm",
            DeviceType::ROCMHost => "rocm_host",
            DeviceType::ExtDev => "ext_device",
            DeviceType::CUDAManaged => "cuda_managed",
            DeviceType::OneAPI => "one_api",
            DeviceType::WebGPU => "web_gpu",
            DeviceType::Hexagon => "hexagon",
        }
    }

    /// The name under which this backend is shown, as an owned string.
    pub fn to_string(&self) -> (text: String)
        ensures
            text@ == self.display_name(),
    {
        self.name().to_owned()
    }

    /// The backend that answers to `type_str`, if any.
    pub fn parse(type_str: &str) -> (found: Option<DeviceType>)
        ensures
            found == Self::of_name(type_str@),
    {
        if str_eq(type_str, "cpu") {
            Some(DeviceType::CPU)
        } else if str_eq(type_str, "cuda") {
            Some(DeviceType::CUDA)
        } else if str_eq(type_str, "cuda_host") {
            Some(DeviceType::CUDAHost)
        } else if str_eq(type_str, "opencl") {
            Some(DeviceType::OpenCL)
        } else if str_eq(type_str, "vulkan") {
            Some(DeviceType::Vulkan)
        } else if str_eq(type_str, "metal") {
            Some(DeviceType::Metal)
        } else if str_eq(type_str, "vpi") {
            Some(DeviceType::VPI)
        } else if str_eq(type_str, "rocm") {
            Some(DeviceType::ROCM)
        } else if str_eq(type_str, "rocm_host") {
            Some(DeviceType::ROCMHost)
        } else if str_eq(type_str, "ext_dev") {
            Some(DeviceType::ExtDev)
        } else if str_eq(type_str, "cuda_managed") {
            Some(DeviceType::CUDAManaged)
        } else if str_eq(type_str, "one_api") {
            Some(DeviceType::OneAPI)
        } else if str_eq(type_str, "web_gpu") {
            Some(DeviceType::WebGPU)
        } else if str_eq(type_str, "hexagon") {
            Some(DeviceType::Hexagon)
        } else {
            None
        }
    }

    /// The backend that answers to `type_str`, which must be a known name.
    pub fn from_name(type_str: &str) -> (found: DeviceType)
        requires
            Self::of_name(type_str@) is Some,
        ensures
            Some(found) == Self::of_name(type_str@),
    {
        Self::parse(type_str).unwrap()
    }
}

impl TryFrom<DLDeviceType> for DeviceType {
    type Error = UnsupportedDeviceError;

    /// Reads a backend from the number found in a record. A number outside
    /// the known set is reported with its decimal numeral.
    fn try_from(device_type: DLDeviceType) -> (res: Result<Self, Self::Error>)
        ensures
            match res {
                Ok(found) => DeviceType::of_wire_code(device_type as nat) == Some(found),
                Err(e) => DeviceType::of_wire_code(device_type as nat) is None && e.0@
                    == decimal(device_type as nat),
            },
    {
        match DeviceType::n(device_type) {
            Some(found) => Ok(found),
            None => Err(UnsupportedDeviceError(to_decimal(device_type as u64))),
        }
    }
}

impl TryFromSpecImpl<DLDeviceType> for DeviceType {
    /// The error holds a string, which no specification value can build:
    /// what `try_from` returns is stated on the function itself.
    open spec fn obeys_try_from_spec() -> bool {
        false
    }

    open spec fn try_from_spec(device_type: DLDeviceType) -> Result<Self, Self::Error> {
        match DeviceType::of_wire_code(device_type as nat) {
            Some(found) => Ok(found),
            None => Err(arbitrary()),
        }
    }
}

impl Default for DeviceType {
    /// The default backend is host memory.
    fn default() -> (device_type: DeviceType)
        ensures
            device_type == DeviceType::CPU,
    {
        DeviceType::CPU
    }
}

impl From<DeviceType> for DLDeviceType {
    fn from(device_type: DeviceType) -> (ret: DLDeviceType) {
        match device_type {
            DeviceType::CPU => crate::wire::DL_CPU,
            DeviceType::CUDA => crate::wire::DL_CUDA,
            DeviceType::CUDAHost => crate::wire::DL_CUDA_HOST,
            DeviceType::OpenCL => crate::wire::DL_OPENCL,
            DeviceType::Vulkan => crate::wire::DL_VULKAN,
            DeviceType::Metal => crate::wire::DL_METAL,
            DeviceType::VPI => crate::wire::DL_VPI,
            DeviceType::ROCM => crate::wire::DL_ROCM,
            DeviceType::ROCMHost => crate::wire::DL_ROCM_HOST,
            DeviceType::ExtDev => crate::wire::DL_EXT_DEV,
            DeviceType::CUDAManaged => crate::wire::DL_CUDA_MANAGED,
            DeviceType::OneAPI => crate::wire::DL_ONE_API,
            DeviceType::WebGPU => crate::wire::DL_WEBGPU,
            DeviceType::Hexagon => crate::wire::DL_HEXAGON,
        }
    }
}

impl FromSpecImpl<DeviceType> for DLDeviceType {
    open spec fn obeys_from_spec() -> bool {
        true
    }

    open spec fn from_spec(device_type: DeviceType) -> DLDeviceType {
        device_type.wire_code() as DLDeviceType
    }
}

/// A device: a backend and the index of one of its units.
#[derive(Debug, Clone, Copy, Hash, PartialEq, Eq, Structural)]
pub struct Device {
    pub device_type: DeviceType,
    pub device_id: usize,
}

impl Device {
    /// The record that holds this device. The index is cut to the 32 bits
    /// that the record has for it.
    pub open spec fn to_wire(self) -> DLDevice {
        DLDevice {
            device_type: self.device_type.wire_code() as DLDeviceType,
            device_id: self.device_id as i32,
        }
    }

    /// The device that a record holds, if its backend number is known.
    pub open spec fn of_wire(dev: DLDevice) -> Option<Device> {
        match DeviceType::of_wire_code(dev.device_type as nat) {
            Some(device_type) => Some(Device { device_type, device_id: dev.device_id as usize }),
            None => None,
        }
    }

    /// How this device is shown: the backend's name, then the index in
    /// round brackets, as in "cuda(1)".
    pub open spec fn display(self) -> Seq<char> {
        self.device_type.display_name() + "("@ + decimal(self.device_id as nat) + ")"@
    }

    /// The backend that a target name selects, if any.
    ///
    /// These are the names of the constructors below: "cl" selects OpenCL,
    /// and "nvptx" selects CUDA as "cuda" does.
    pub open spec fn of_target(name: Seq<char>) -> Option<DeviceType> {
        if name == "cpu"@ {
            Some(DeviceType::CPU)
        } else if name == "cuda"@ {
            Some(DeviceType::CUDA)
        } else if name == "nvptx"@ {
            Some(DeviceType::CUDA)
        } else if name == "cuda_host"@ {
            Some(DeviceType::CUDAHost)
        } else if name == "cl"@ {
            Some(DeviceType::OpenCL)
        } else if name == "vulkan"@ {
            Some(DeviceType::Vulkan)
        } else if name == "metal"@ {
            Some(DeviceType::Metal)
        } else if name == "vpi"@ {
            Some(DeviceType::VPI)
        } else if name == "rocm"@ {
            Some(DeviceType::ROCM)
        } else if name == "rocm_host"@ {
            Some(DeviceType::ROCMHost)
        } else if name == "ext_dev"@ {
            Some(DeviceType::ExtDev)
        } else if name == "cuda_managed"@ {
            Some(DeviceType::CUDAManaged)
        } else if name == "one_api"@ {
            Some(DeviceType::OneAPI)
        } else if name == "web_gpu"@ {
            Some(DeviceType::WebGPU)
        } else if name == "hexagon"@ {
            Some(DeviceType::Hexagon)
        } else {
            None
        }
    }

    /// A device whose index fits the record is found again from its record.
    pub proof fn lemma_wire_round_trip(dev: Device)
        requires
            dev.device_id <= i32::MAX,
        ensures
            Self::of_wire(dev.to_wire()) == Some(dev),
    {
    }

    pub fn new(device_type: DeviceType, device_id: usize) -> (dev: Device)
        ensures
            dev == (Device { device_type, device_id }),
    {
        Device { device_type, device_id }
    }

    /// Unit 0 of the backend that answers to `target`, which must be a
    /// name that [`DeviceType::parse`] knows.
    pub fn from_name(target: &str) -> (dev: Device)
        requires
            DeviceType::of_name(target@) is Some,
        ensures
            Some(dev.device_type) == DeviceType::of_name(target@),
            dev.device_id == 0,
    {
        Device::new(DeviceType::from_name(target), 0)
    }

    /// The device that a record holds. Its backend number must be one of
    /// the known set.
    pub fn from_wire(dev: DLDevice) -> (device: Device)
        requires
            DeviceType::of_wire_code(dev.device_type as nat) is Some,
        ensures
            Some(device) == Self::of_wire(dev),
    {
        Device {
            device_type: DeviceType::from_wire(dev.device_type),
            device_id: dev.device_id as usize,
        }
    }

    /// How this device is shown, as in "cuda(1)".
    pub fn to_string(&self) -> (text: String)
        ensures
            text@ == self.display(),
    {
        let mut text = self.device_type.name().to_owned();
        text.append("(");
        push_decimal(&mut text, self.device_id as u64);
        text.append(")");
        assert(text@ =~= self.display());
        text
    }

    /// Unit `device_id` of host memory.
    pub fn cpu(device_id: usize) -> (dev: Device)
        ensures
            dev == (Device { device_type: DeviceType::CPU, device_id }),
    {
        Device { device_type: DeviceType::CPU, device_id }
    }

    /// Unit `device_id` of CUDA device memory.
    pub fn cuda(device_id: usize) -> (dev: Device)
        ensures
            dev == (Device { device_type: DeviceType::CUDA, device_id }),
    {
        Device { device_type: DeviceType::CUDA, device_id }
    }

    /// Unit `device_id` of CUDA device memory, under its code generator's name.
    pub fn nvptx(device_id: usize) -> (dev: Device)
        ensures
            dev == (Device { device_type: DeviceType::CUDA, device_id }),
    {
        Device { device_type: DeviceType::CUDA, device_id }
    }

    /// Unit `device_id` of host memory pinned for CUDA.
    pub fn cuda_host(device_id: usize) -> (dev: Device)
        ensures
            dev == (Device { device_type: DeviceType::CUDAHost, device_id }),
    {
        Device { device_type: DeviceType::CUDAHost, device_id }
    }

    /// Unit `device_id` of OpenCL device memory.
    pub fn cl(device_id: usize) -> (dev: Device)
        ensures
            dev == (Device { device_type: DeviceType::OpenCL, device_id }),
    {
        Device { device_type: DeviceType::OpenCL, device_id }
    }

    /// Unit `device_id` of Vulkan buffers.
    pub fn vulkan(device_id: usize) -> (dev: Device)
        ensures
            dev == (Device { device_type: DeviceType::Vulkan, device_id }),
    {
        Device { device_type: DeviceType::Vulkan, device_id }
    }

    /// Unit `device_id` of Metal buffers.
    pub fn metal(device_id: usize) -> (dev: Device)
        ensures
            dev == (Device { device_type: DeviceType::Metal, device_id }),
    {
        Device { device_type: DeviceType::Metal, device_id }
    }

    /// Unit `device_id` of Verilog simulator buffers.
    pub fn vpi(device_id: usize) -> (dev: Device)
        ensures
            dev == (Device { device_type: DeviceType::VPI, device_id }),
    {
        Device { device_type: DeviceType::VPI, device_id }
    }

    /// Unit `device_id` of ROCm device memory.
    pub fn rocm(device_id: usize) -> (dev: Device)
        ensures
            dev == (Device { device_type: DeviceType::ROCM, device_id }),
    {
        Device { device_type: DeviceType::ROCM, device_id }
    }

    /// Unit `device_id` of host memory pinned for ROCm.
    pub fn rocm_host(device_id: usize) -> (dev: Device)
        ensures
            dev == (Device { device_type: DeviceType::ROCMHost, device_id }),
    {
        Device { device_type: DeviceType::ROCMHost, device_id }
    }

    /// Unit `device_id` of the extension device.
    pub fn ext_dev(device_id: usize) -> (dev: Device)
        ensures
            dev == (Device { device_type: DeviceType::ExtDev, device_id }),
    {
        Device { device_type: DeviceType::ExtDev, device_id }
    }

    /// Unit `device_id` of CUDA managed memory.
    pub fn cuda_managed(device_id: usize) -> (dev: Device)
        ensures
            dev == (Device { device_type: DeviceType::CUDAManaged, device_id }),
    {
        Device { device_type: DeviceType::CUDAManaged, device_id }
    }

    /// Unit `device_id` of oneAPI shared memory.
    pub fn one_api(device_id: usize) -> (dev: Device)
        ensures
            dev == (Device { device_type: DeviceType::OneAPI, device_id }),
    {
        Device { device_type: DeviceType::OneAPI, device_id }
    }

    /// Unit `device_id` of WebGPU buffers.
    pub fn web_gpu(device_id: usize) -> (dev: Device)
        ensures
            dev == (Device { device_type: DeviceType::WebGPU, device_id }),
    {
        Device { device_type: DeviceType::WebGPU, device_id }
    }

    /// Unit `device_id` of Hexagon DSP memory.
    pub fn hexagon(device_id: usize) -> (dev: Device)
        ensures
            dev == (Device { device_type: DeviceType::Hexagon, device_id }),
    {
        Device { device_type: DeviceType::Hexagon, device_id }
    }
}

impl std::str::FromStr for Device {
    type Err = UnsupportedDeviceError;

    /// Unit 0 of the backend that the target name `type_str` selects. A
    /// name that selects none is reported as it was given.
    fn from_str(type_str: &str) -> (res: Result<Self, Self::Err>)
        ensures
            match res {
                Ok(dev) => Device::of_target(type_str@) == Some(dev.device_type) && dev.device_id
                    == 0,
                Err(e) => Device::of_target(type_str@) is None && e.0@ == type_str@,
            },
    {
        let device_type = if str_eq(type_str, "cpu") {
            DeviceType::CPU
        } else if str_eq(type_str, "cuda") {
            DeviceType::CUDA
        } else if str_eq(type_str, "nvptx") {
            DeviceType::CUDA
        } else if str_eq(type_str, "cuda_host") {
            DeviceType::CUDAHost
        } else if str_eq(type_str, "cl") {
            DeviceType::OpenCL
        } else if str_eq(type_str, "vulkan") {
            DeviceType::Vulkan
        } else if str_eq(type_str, "metal") {
            DeviceType::Metal
        } else if str_eq(type_str, "vpi") {
            DeviceType::VPI
        } else if str_eq(type_str, "rocm") {
            DeviceType::ROCM
        } else if str_eq(type_str, "rocm_host") {
            DeviceType::ROCMHost
        } else if str_eq(type_str, "ext_dev") {
            DeviceType::ExtDev
        } else if str_eq(type_str, "cuda_managed") {
            DeviceType::CUDAManaged
        } else if str_eq(type_str, "one_api") {
            DeviceType::OneAPI
        } else if str_eq(type_str, "web_gpu") {
            DeviceType::WebGPU
        } else if str_eq(type_str, "hexagon") {
            DeviceType::Hexagon
        } else {
            return Err(UnsupportedDeviceError(type_str.to_owned()));
        };
        Ok(Device { device_type, device_id: 0 })
    }
}

impl TryFrom<DLDevice> for Device {
    type Error = UnsupportedDeviceError;

    /// Reads a device from a record. A backend number outside the known
    /// set is reported with its decimal numeral.
    fn try_from(dev: DLDevice) -> (res: Result<Self, Self::Error>)
        ensures
            match res {
                Ok(device) => Device::of_wire(dev) == Some(device),
                Err(e) => Device::of_wire(dev) is None && e.0@ == decimal(
                    dev.device_type as nat,
                ),
            },
    {
        match DeviceType::try_from(dev.device_type) {
            Ok(device_type) => Ok(Device { device_type, device_id: dev.device_id as usize }),
            Err(e) => Err(e),
        }
    }
}

impl TryFromSpecImpl<DLDevice> for Device {
    /// The error holds a string, which no specification value can build:
    /// what `try_from` returns is stated on the function itself.
    open spec fn obeys_try_from_spec() -> bool {
        false
    }

    open spec fn try_from_spec(dev: DLDevice) -> Result<Self, Self::Error> {
        match Device::of_wire(dev) {
            Some(device) => Ok(device),
            None => Err(arbitrary()),
        }
    }
}

impl<'a> From<&'a Device> for DLDevice {
    fn from(dev: &'a Device) -> (ret: DLDevice) {
        DLDevice {
            device_type: DLDeviceType::from(dev.device_type),
            device_id: dev.device_id as i32,
        }
    }
}

impl<'a> FromSpecImpl<&'a Device> for DLDevice {
    open spec fn obeys_from_spec() -> bool {
        true
    }

    open spec fn from_spec(dev: &'a Device) -> DLDevice {
        dev.to_wire()
    }
}

impl From<Device> for DLDevice {
    fn from(dev: Device) -> (ret: DLDevice) {
        DLDevice {
            device_type: DLDeviceType::from(dev.device_type),
            device_id: dev.device_id as i32,
        }
    }
}

impl FromSpecImpl<Device> for DLDevice {
    open spec fn obeys_from_spec() -> bool {
        true
    }

    open spec fn from_spec(dev: Device) -> DLDevice {
        dev.to_wire()
    }
}

impl Default for Device {
    /// The default device is unit 0 of host memory.
    fn default() -> (dev: Device)
        ensures
            dev == (Device { device_type: DeviceType::CPU, device_id: 0 }),
    {
        Device { device_type: DeviceType::from_wire(crate::wire::DL_CPU), device_id: 0 }
    }
}

} // verus!
