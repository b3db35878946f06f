use std::cell::RefCell;
use system_info::backend::iokit::{RegistryEntry, RegistryReading};
use system_info::backend::lspci::ToolRun;
use system_info::backend::nvml::{DeviceSample, NvmlReading};
use system_info::backend::dxgi::{AdapterDescription, DxgiReading};
use system_info::backend::wmi::{VideoController, WmiReading};
use system_info::{Backend, GpuInfo, OsFamily, ProbeError, Reading, SystemInfo};

const MB: u64 = 1_048_576;

const LISTING: &str = "00:00.0 Host bridge: Example Corp Host Bridge\n\
                       \n\
                       00:02.0 VGA compatible controller: Example Corp Example GPU (rev 01)\n\
                       \tMemory at f0000000 (64-bit, prefetchable) 256M\n";

fn vendor_sample(used: u64, load: u32) -> Reading {
    Reading::Nvml(NvmlReading::Sample(DeviceSample {
        name: "Example RTX".to_string(),
        memory_total: 8192 * MB,
        memory_used: used,
        utilization: Some(load),
    }))
}

/// A machine with nothing to find: every facility is absent.
fn bare(backend: Backend) -> Reading {
    match backend {
        Backend::VendorManagementLibrary => Reading::Nvml(NvmlReading::InitFailed),
        Backend::OsDeviceRegistry => Reading::Wmi(WmiReading::ConnectionFailed),
        Backend::DisplayAdapterDescriptor => Reading::Dxgi(DxgiReading::FactoryFailed),
        Backend::DeviceInventoryText => Reading::Lspci(ToolRun::Missing),
        Backend::PlatformRegistryIoKit => Reading::IoKit(RegistryReading::Entries(vec![])),
    }
}

#[test]
fn test_gpu_info() {
    let gpu_info = SystemInfo::gpu(OsFamily::Linux, |backend| match backend {
        Backend::VendorManagementLibrary => vendor_sample(2048 * MB, 37),
        other => bare(other),
    });

    if let Some(gpu) = gpu_info {
        assert!(!gpu.model.is_empty());
        assert!(gpu.memory_total.unwrap() > 0);
        assert!(gpu.memory_used.unwrap() <= gpu.memory_total.unwrap());
        assert_eq!(
            gpu.memory_free.unwrap(),
            gpu.memory_total.unwrap() - gpu.memory_used.unwrap()
        );
        assert!(gpu.usage.unwrap() <= 100);
    } else {
        panic!("no GPU detected");
    }
}

#[test]
fn no_gpu_is_no_error() {
    for os in [OsFamily::Windows, OsFamily::Linux, OsFamily::MacOs, OsFamily::Other] {
        assert_eq!(SystemInfo::gpu(os, bare), None);
        assert_eq!(GpuInfo::new(os, bare), None);
    }
    assert_eq!(GpuInfo::from_windows(bare), None);
    assert_eq!(GpuInfo::from_linux(bare), None);
}

#[test]
fn unsupported_os_reads_nothing() {
    let asked = RefCell::new(Vec::new());
    let found = SystemInfo::gpu(OsFamily::Other, |backend| {
        asked.borrow_mut().push(backend);
        vendor_sample(0, 0)
    });
    assert_eq!(found, None);
    assert!(asked.into_inner().is_empty());
}

#[test]
fn first_backend_is_returned_without_fallthrough() {
    let asked = RefCell::new(Vec::new());
    let found = SystemInfo::gpu(OsFamily::Linux, |backend| {
        asked.borrow_mut().push(backend);
        match backend {
            Backend::VendorManagementLibrary => vendor_sample(2048 * MB, 37),
            _ => Reading::Lspci(ToolRun::Output(LISTING.to_string())),
        }
    });
    assert_eq!(asked.into_inner(), vec![Backend::VendorManagementLibrary]);
    assert_eq!(
        found,
        Some(GpuInfo {
            model: "Example RTX".to_string(),
            memory_total: Some(819_200),
            memory_used: Some(204_800),
            memory_free: Some(614_400),
            usage: Some(37),
        })
    );
}

#[test]
fn linux_falls_back_to_the_device_listing() {
    let asked = RefCell::new(Vec::new());
    let found = GpuInfo::from_linux(|backend| {
        asked.borrow_mut().push(backend);
        match backend {
            Backend::DeviceInventoryText => Reading::Lspci(ToolRun::Output(LISTING.to_string())),
            other => bare(other),
        }
    });
    assert_eq!(
        asked.into_inner(),
        vec![Backend::VendorManagementLibrary, Backend::DeviceInventoryText]
    );
    assert_eq!(
        found,
        Some(GpuInfo {
            model: "Example Corp Example GPU (rev 01)".to_string(),
            memory_total: Some(25_600),
            memory_used: None,
            memory_free: None,
            usage: None,
        })
    );
}

#[test]
fn windows_falls_back_twice() {
    let asked = RefCell::new(Vec::new());
    let found = GpuInfo::from_windows(|backend| {
        asked.borrow_mut().push(backend);
        match backend {
            Backend::OsDeviceRegistry => Reading::Wmi(WmiReading::QueryFailed),
            Backend::DisplayAdapterDescriptor => Reading::Dxgi(DxgiReading::Adapter(
                AdapterDescription {
                    description: "Example Adapter\0\0\0".encode_utf16().collect(),
                    dedicated_video_memory: 1024 * MB,
                },
            )),
            other => bare(other),
        }
    });
    assert_eq!(
        asked.into_inner(),
        vec![
            Backend::VendorManagementLibrary,
            Backend::OsDeviceRegistry,
            Backend::DisplayAdapterDescriptor
        ]
    );
    let found = found.unwrap();
    assert_eq!(found.model, "Example Adapter");
    assert_eq!(found.memory_total, Some(102_400));
}

#[test]
fn windows_stops_at_the_device_registry() {
    let asked = RefCell::new(Vec::new());
    let found = SystemInfo::gpu(OsFamily::Windows, |backend| {
        asked.borrow_mut().push(backend);
        match backend {
            Backend::OsDeviceRegistry => Reading::Wmi(WmiReading::Rows(vec![VideoController {
                name: Some("Example Graphics".to_string()),
                adapter_ram: Some(512 * MB),
            }])),
            other => bare(other),
        }
    });
    assert_eq!(
        asked.into_inner(),
        vec![Backend::VendorManagementLibrary, Backend::OsDeviceRegistry]
    );
    assert_eq!(found.unwrap().model, "Example Graphics");
}

#[test]
fn macos_reads_the_registry() {
    let found = SystemInfo::gpu(OsFamily::MacOs, |_| {
        Reading::IoKit(RegistryReading::Entries(vec![RegistryEntry {
            class_code: Some(0x030000),
            model: Some(b"Example Pro 560\0".to_vec()),
            vram_total_mb: Some(4096),
        }]))
    });
    let found = found.unwrap();
    assert_eq!(found.model, "Example Pro 560");
    assert_eq!(found.memory_total, Some(409_600));
}

#[test]
fn two_queries_agree_on_model_and_total() {
    let load = std::cell::Cell::new(0u32);
    let read = |backend: Backend| match backend {
        Backend::VendorManagementLibrary => {
            load.set(load.get() + 40);
            vendor_sample(u64::from(load.get()) * MB, load.get())
        },
        other => bare(other),
    };
    let first = SystemInfo::gpu(OsFamily::Linux, &read).unwrap();
    let second = SystemInfo::gpu(OsFamily::Linux, &read).unwrap();
    assert_eq!(first.model, second.model);
    assert_eq!(first.memory_total, second.memory_total);
    assert_eq!(first.usage, Some(40));
    assert_eq!(second.usage, Some(80));
}

#[test]
fn query_takes_any_list() {
    let asked = RefCell::new(Vec::new());
    let found = GpuInfo::query(
        vec![Backend::DeviceInventoryText, Backend::VendorManagementLibrary],
        |backend| {
            asked.borrow_mut().push(backend);
            match backend {
                Backend::VendorManagementLibrary => vendor_sample(0, 0),
                _ => Reading::Lspci(ToolRun::Failed),
            }
        },
    );
    assert_eq!(
        asked.into_inner(),
        vec![Backend::DeviceInventoryText, Backend::VendorManagementLibrary]
    );
    assert_eq!(found.unwrap().model, "Example RTX");
}

#[test]
fn reading_is_judged_by_the_backend_it_is_from() {
    let reading = Reading::Lspci(ToolRun::Missing);
    assert_eq!(reading.backend(), Backend::DeviceInventoryText);
    assert_eq!(GpuInfo::from_reading(&reading), Err(ProbeError::Unavailable));
    assert_eq!(vendor_sample(0, 0).backend(), Backend::VendorManagementLibrary);
    assert_eq!(
        Reading::Wmi(WmiReading::QueryFailed).backend(),
        Backend::OsDeviceRegistry
    );
    assert_eq!(
        Reading::Dxgi(DxgiReading::NoAdapter).backend(),
        Backend::DisplayAdapterDescriptor
    );
    assert_eq!(
        Reading::IoKit(RegistryReading::MatchingFailed).backend(),
        Backend::PlatformRegistryIoKit
    );
    assert_eq!(
        GpuInfo::from_reading(&Reading::IoKit(RegistryReading::MatchingFailed)),
        Err(ProbeError::QueryFailed)
    );
}
