use dlpackrs::device::{Device, DeviceType};
use dlpackrs::wire::DLDevice;
use std::str::FromStr;

const ALL: [DeviceType; 14] = [
    DeviceType::CPU,
    DeviceType::CUDA,
    DeviceType::CUDAHost,
    DeviceType::OpenCL,
    DeviceType::Vulkan,
    DeviceType::Metal,
    DeviceType::VPI,
    DeviceType::ROCM,
    DeviceType::ROCMHost,
    DeviceType::ExtDev,
    DeviceType::CUDAManaged,
    DeviceType::OneAPI,
    DeviceType::WebGPU,
    DeviceType::Hexagon,
];

#[test]
fn device() {
    let dev = Device::default();
    println!("device: {}", dev.to_string());
    let default_dev = Device::new(DeviceType::CPU, 0);
    assert_eq!(dev.clone(), default_dev);
    assert_ne!(dev, Device::cuda(0));

    let str_dev = Device::new(DeviceType::CUDA, 0);
    assert_eq!(str_dev.clone(), str_dev);
    assert_ne!(str_dev, Device::new(DeviceType::CPU, 0));
}

#[test]
fn device_type_default_is_cpu() {
    assert_eq!(DeviceType::default(), DeviceType::CPU);
    assert_eq!(Device::default(), Device { device_type: DeviceType::CPU, device_id: 0 });
}

#[test]
fn device_type_wire_codes() {
    let codes: [u32; 14] = [1, 2, 3, 4, 7, 8, 9, 10, 11, 12, 13, 14, 15, 16];
    for (device_type, code) in ALL.iter().zip(codes.iter()) {
        assert_eq!(u32::from(*device_type), *code);
        assert_eq!(DeviceType::n(*code), Some(*device_type));
        assert_eq!(DeviceType::from_wire(*code), *device_type);
    }
}

#[test]
fn device_type_unknown_codes() {
    assert_eq!(DeviceType::n(0), None);
    assert_eq!(DeviceType::n(5), None);
    assert_eq!(DeviceType::n(6), None);
    assert_eq!(DeviceType::n(17), None);
    assert_eq!(DeviceType::n(u32::MAX), None);
}

#[test]
fn device_type_shown_names() {
    let names = [
        "cpu",
        "cuda",
        "cuda_host",
        "opencl",
        "vulkan",
        "metal",
        "vpi",
        "rocm",
        "rocm_host",
        "ext_device",
        "cuda_managed",
        "one_api",
        "web_gpu",
        "hexagon",
    ];
    for (device_type, name) in ALL.iter().zip(names.iter()) {
        assert_eq!(device_type.name(), *name);
        assert_eq!(device_type.to_string(), *name);
    }
}

#[test]
fn device_type_names_round_trip_but_ext_dev() {
    for device_type in ALL.iter() {
        let shown = device_type.to_string();
        if *device_type == DeviceType::ExtDev {
            assert_eq!(DeviceType::parse(&shown), None);
        } else {
            assert_eq!(DeviceType::parse(&shown), Some(*device_type));
            assert_eq!(DeviceType::from_name(&shown), *device_type);
        }
    }
}

#[test]
fn device_type_ext_dev_asymmetry() {
    assert_eq!(DeviceType::ExtDev.to_string(), "ext_device");
    assert_eq!(DeviceType::parse("ext_dev"), Some(DeviceType::ExtDev));
    assert_eq!(DeviceType::parse("ext_device"), None);
}

#[test]
fn device_type_parse_rejects_other_text() {
    assert_eq!(DeviceType::parse(""), None);
    assert_eq!(DeviceType::parse("CPU"), None);
    assert_eq!(DeviceType::parse("cpu "), None);
    assert_eq!(DeviceType::parse("cud"), None);
    assert_eq!(DeviceType::parse("cl"), None);
    assert_eq!(DeviceType::parse("nvptx"), None);
    assert_eq!(DeviceType::parse("cuda_hos\u{74}\u{0301}"), None);
}

#[test]
fn device_from_name_is_unit_zero() {
    assert_eq!(Device::from_name("opencl"), Device::new(DeviceType::OpenCL, 0));
    assert_eq!(Device::from_name("rocm_host"), Device::new(DeviceType::ROCMHost, 0));
}

#[test]
fn device_display() {
    assert_eq!(Device::default().to_string(), "cpu(0)");
    assert_eq!(Device::cuda(1).to_string(), "cuda(1)");
    assert_eq!(Device::ext_dev(10).to_string(), "ext_device(10)");
    assert_eq!(Device::cl(907).to_string(), "opencl(907)");
    assert_eq!(
        Device::hexagon(usize::MAX).to_string(),
        format!("hexagon({})", usize::MAX)
    );
}

#[test]
fn device_constructors() {
    assert_eq!(Device::cpu(3), Device::new(DeviceType::CPU, 3));
    assert_eq!(Device::cuda(3), Device::new(DeviceType::CUDA, 3));
    assert_eq!(Device::nvptx(3), Device::new(DeviceType::CUDA, 3));
    assert_eq!(Device::cuda_host(3), Device::new(DeviceType::CUDAHost, 3));
    assert_eq!(Device::cl(3), Device::new(DeviceType::OpenCL, 3));
    assert_eq!(Device::vulkan(3), Device::new(DeviceType::Vulkan, 3));
    assert_eq!(Device::metal(3), Device::new(DeviceType::Metal, 3));
    assert_eq!(Device::vpi(3), Device::new(DeviceType::VPI, 3));
    assert_eq!(Device::rocm(3), Device::new(DeviceType::ROCM, 3));
    assert_eq!(Device::rocm_host(3), Device::new(DeviceType::ROCMHost, 3));
    assert_eq!(Device::ext_dev(3), Device::new(DeviceType::ExtDev, 3));
    assert_eq!(Device::cuda_managed(3), Device::new(DeviceType::CUDAManaged, 3));
    assert_eq!(Device::one_api(3), Device::new(DeviceType::OneAPI, 3));
    assert_eq!(Device::web_gpu(3), Device::new(DeviceType::WebGPU, 3));
    assert_eq!(Device::hexagon(3), Device::new(DeviceType::Hexagon, 3));
}

#[test]
fn device_from_str_targets() {
    let targets = [
        ("cpu", DeviceType::CPU),
        ("cuda", DeviceType::CUDA),
        ("nvptx", DeviceType::CUDA),
        ("cuda_host", DeviceType::CUDAHost),
        ("cl", DeviceType::OpenCL),
        ("vulkan", DeviceType::Vulkan),
        ("metal", DeviceType::Metal),
        ("vpi", DeviceType::VPI),
        ("rocm", DeviceType::ROCM),
        ("rocm_host", DeviceType::ROCMHost),
        ("ext_dev", DeviceType::ExtDev),
        ("cuda_managed", DeviceType::CUDAManaged),
        ("one_api", DeviceType::OneAPI),
        ("web_gpu", DeviceType::WebGPU),
        ("hexagon", DeviceType::Hexagon),
    ];
    for (name, device_type) in targets.iter() {
        let dev = Device::from_str(name).unwrap();
        assert_eq!(dev, Device::new(*device_type, 0));
        let parsed: Device = name.parse().unwrap();
        assert_eq!(parsed, dev);
    }
}

#[test]
fn device_from_str_unsupported() {
    let err = Device::from_str("opencl").unwrap_err();
    assert_eq!(err.0, "opencl");
    assert_eq!(err.message(), "unsupported device: opencl");
    let err = Device::from_str("ext_device").unwrap_err();
    assert_eq!(err.0, "ext_device");
    let err = Device::from_str("").unwrap_err();
    assert_eq!(err.0, "");
    assert_eq!(err.message(), "unsupported device: ");
}

#[test]
fn device_to_wire() {
    let wire = DLDevice::from(Device::cuda(1));
    assert_eq!(wire, DLDevice { device_type: 2, device_id: 1 });
    let wire = DLDevice::from(&Device::hexagon(7));
    assert_eq!(wire, DLDevice { device_type: 16, device_id: 7 });
}

#[test]
fn device_wire_round_trip() {
    for device_type in ALL.iter() {
        for id in [0usize, 1, 9, i32::MAX as usize] {
            let dev = Device::new(*device_type, id);
            assert_eq!(Device::from_wire(DLDevice::from(dev)), dev);
        }
    }
}

#[test]
fn device_index_is_cut_to_the_record() {
    let wire = DLDevice::from(Device::cpu(i32::MAX as usize + 1));
    assert_eq!(wire.device_id, i32::MIN);
}

#[test]
fn device_type_try_from_known_numbers() {
    let codes: [u32; 14] = [1, 2, 3, 4, 7, 8, 9, 10, 11, 12, 13, 14, 15, 16];
    for (device_type, code) in ALL.iter().zip(codes.iter()) {
        assert_eq!(DeviceType::try_from(*code).unwrap(), *device_type);
    }
}

#[test]
fn device_type_try_from_unknown_number_reports_it() {
    let err = DeviceType::try_from(5u32).unwrap_err();
    assert_eq!(err.0, "5");
    assert_eq!(err.message(), "unsupported device: 5");
    let err = DeviceType::try_from(0u32).unwrap_err();
    assert_eq!(err.0, "0");
    let err = DeviceType::try_from(17u32).unwrap_err();
    assert_eq!(err.0, "17");
    let err = DeviceType::try_from(u32::MAX).unwrap_err();
    assert_eq!(err.0, "4294967295");
}

#[test]
fn device_try_from_record() {
    let dev = Device::try_from(DLDevice { device_type: 10, device_id: 4 }).unwrap();
    assert_eq!(dev, Device::rocm(4));
    let err = Device::try_from(DLDevice { device_type: 6, device_id: 4 }).unwrap_err();
    assert_eq!(err.0, "6");
    assert_eq!(err.message(), "unsupported device: 6");
}
