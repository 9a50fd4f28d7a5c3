use resources::gpu::{
    gpu_refresh_display, metric_from_content, Capability, Gpu, GpuError, GpuMetrics, GpuPage,
    MetricSource, PciId, VENDOR_ID_AMD, VENDOR_ID_INTEL, VENDOR_ID_NVIDIA,
};
use resources::settings::{Base, TemperatureUnit};

const ALL_CAPABILITIES: [Capability; 11] = [
    Capability::Usage,
    Capability::EncodeUsage,
    Capability::DecodeUsage,
    Capability::UsedVram,
    Capability::TotalVram,
    Capability::Temperature,
    Capability::PowerUsage,
    Capability::CoreFrequency,
    Capability::VramFrequency,
    Capability::PowerCap,
    Capability::PowerCapMax,
];

fn amd_gpu(hwmon: Option<&str>) -> Gpu {
    Gpu::new(
        Some(PciId { vendor_id: VENDOR_ID_AMD, device_id: 0x731f }),
        String::from("0000:03:00.0"),
        String::from("amdgpu"),
        String::from("/sys/class/drm/card0/device"),
        hwmon.map(String::from),
    )
}

#[test]
fn dispatch_picks_the_backend_of_the_vendor() {
    let amd = amd_gpu(None);
    assert!(matches!(amd, Gpu::Amd(_)));
    let intel = Gpu::new(
        Some(PciId { vendor_id: VENDOR_ID_INTEL, device_id: 0x46a6 }),
        String::from("0000:00:02.0"),
        String::from("i915"),
        String::from("/sys/class/drm/card1/device"),
        None,
    );
    assert!(matches!(intel, Gpu::Intel(_)));
    let nvidia = Gpu::new(
        Some(PciId { vendor_id: VENDOR_ID_NVIDIA, device_id: 0x2484 }),
        String::from("0000:01:00.0"),
        String::from("nouveau"),
        String::from("/sys/class/drm/card2/device"),
        None,
    );
    assert!(matches!(nvidia, Gpu::Nvidia(_)));
    let unknown = Gpu::new(
        None,
        String::from("0000:05:00.0"),
        String::from("vfio-pci"),
        String::from("/sys/class/drm/card3/device"),
        None,
    );
    assert!(matches!(unknown, Gpu::Other(_)));
}

#[test]
fn unsupported_capability_never_requests_a_read() {
    let gpu = amd_gpu(Some("/sys/class/drm/card0/device/hwmon/hwmon2"));
    let mut reads_attempted = 0;
    for cap in [Capability::EncodeUsage, Capability::DecodeUsage] {
        match gpu.read_request(cap) {
            Ok(_) => reads_attempted += 1,
            Err(e) => assert_eq!(e, GpuError::Unsupported),
        }
    }
    assert_eq!(reads_attempted, 0);
}

#[test]
fn supported_capability_names_its_file() {
    let gpu = amd_gpu(Some("/sys/class/drm/card0/device/hwmon/hwmon2"));
    let usage = gpu.read_request(Capability::Usage).unwrap();
    assert_eq!(usage.path, "/sys/class/drm/card0/device/gpu_busy_percent");
    assert_eq!(usage.source, MetricSource::DeviceInterface);
    let temp = gpu.read_request(Capability::Temperature).unwrap();
    assert_eq!(temp.path, "/sys/class/drm/card0/device/hwmon/hwmon2/temp1_input");
    assert_eq!(temp.source, MetricSource::Monitoring);
}

#[test]
fn missing_monitoring_directory_degrades_only_monitoring_metrics() {
    let gpu = amd_gpu(None);
    for cap in ALL_CAPABILITIES {
        let r = gpu.read_request(cap);
        match cap {
            Capability::EncodeUsage | Capability::DecodeUsage => {
                assert_eq!(r.unwrap_err(), GpuError::Unsupported);
            }
            Capability::Usage | Capability::UsedVram | Capability::TotalVram => {
                assert_eq!(r.unwrap().source, MetricSource::DeviceInterface);
            }
            _ => {
                assert_eq!(r.unwrap_err(), GpuError::Unavailable);
            }
        }
    }
}

#[test]
fn nvidia_supports_the_full_surface_and_intel_a_subset() {
    let nvidia = Gpu::new(
        Some(PciId { vendor_id: VENDOR_ID_NVIDIA, device_id: 0x2484 }),
        String::from("0000:01:00.0"),
        String::from("nouveau"),
        String::from("/sys/class/drm/card2/device"),
        None,
    );
    for cap in ALL_CAPABILITIES {
        assert!(nvidia.supports(cap));
    }
    let intel = Gpu::new(
        Some(PciId { vendor_id: VENDOR_ID_INTEL, device_id: 0x46a6 }),
        String::from("0000:00:02.0"),
        String::from("i915"),
        String::from("/sys/class/drm/card1/device"),
        None,
    );
    assert!(intel.supports(Capability::Usage));
    assert!(intel.supports(Capability::Temperature));
    assert!(!intel.supports(Capability::UsedVram));
    assert!(!intel.supports(Capability::TotalVram));
    assert!(!intel.supports(Capability::VramFrequency));
    assert!(!intel.supports(Capability::EncodeUsage));
}

#[test]
fn metric_content_parses_and_scales_per_capability() {
    assert_eq!(metric_from_content(Capability::Usage, Some("42\n")), Ok(42));
    assert_eq!(metric_from_content(Capability::Temperature, Some("45000\n")), Ok(4500));
    assert_eq!(metric_from_content(Capability::Temperature, Some("-5000\n")), Ok(-500));
    assert_eq!(metric_from_content(Capability::PowerUsage, Some("123450000\n")), Ok(12345));
    assert_eq!(metric_from_content(Capability::PowerCap, Some("280000000")), Ok(28000));
    assert_eq!(
        metric_from_content(Capability::CoreFrequency, Some("  1500000000  ")),
        Ok(1_500_000_000)
    );
}

#[test]
fn metric_content_failures_report_unavailable() {
    assert_eq!(metric_from_content(Capability::Usage, None), Err(GpuError::Unavailable));
    assert_eq!(metric_from_content(Capability::Usage, Some("")), Err(GpuError::Unavailable));
    assert_eq!(metric_from_content(Capability::Usage, Some("garbage")), Err(GpuError::Unavailable));
    assert_eq!(metric_from_content(Capability::Usage, Some("12a4")), Err(GpuError::Unavailable));
    assert_eq!(metric_from_content(Capability::Usage, Some("-")), Err(GpuError::Unavailable));
    assert_eq!(
        metric_from_content(Capability::Usage, Some("12345678901234567890")),
        Err(GpuError::Unavailable)
    );
}

#[test]
fn page_refuses_queries_before_a_device_is_attached() {
    let mut page = GpuPage::new();
    assert_eq!(page.gpu().unwrap_err(), GpuError::NotInitialized);
    page.init(amd_gpu(None));
    assert!(page.gpu().is_ok());
}

#[test]
fn identity_comes_from_the_hardware_id_database() {
    let gpu = amd_gpu(None);
    let vendor = gpu.get_vendor().unwrap();
    assert!(vendor.contains("Advanced Micro Devices"));
    let name = gpu.name().unwrap();
    assert!(name.contains("Navi"));
    assert_eq!(gpu.pci_slot(), "0000:03:00.0");
    assert_eq!(gpu.driver(), "amdgpu");
}

#[test]
fn identity_of_unresolved_device_is_unavailable() {
    let gpu = Gpu::new(
        None,
        String::from("0000:05:00.0"),
        String::from("vfio-pci"),
        String::from("/sys/class/drm/card3/device"),
        None,
    );
    assert_eq!(gpu.get_vendor().unwrap_err(), GpuError::Unavailable);
    assert_eq!(gpu.name().unwrap_err(), GpuError::Unavailable);
}

fn all_ok_metrics() -> GpuMetrics {
    GpuMetrics {
        usage: Ok(42),
        encode_usage: Ok(10),
        decode_usage: Ok(20),
        used_vram: Ok(1_500_000_000),
        total_vram: Ok(8_000_000_000),
        temperature: Ok(6500),
        power_usage: Ok(12345),
        core_frequency: Ok(1_500_000_000),
        vram_frequency: Ok(875_000_000),
        power_cap: Ok(28000),
        power_cap_max: Ok(31500),
    }
}

fn all_err_metrics() -> GpuMetrics {
    GpuMetrics {
        usage: Err(GpuError::Unavailable),
        encode_usage: Err(GpuError::Unsupported),
        decode_usage: Err(GpuError::Unsupported),
        used_vram: Err(GpuError::Unavailable),
        total_vram: Err(GpuError::Unavailable),
        temperature: Err(GpuError::Unavailable),
        power_usage: Err(GpuError::Unavailable),
        core_frequency: Err(GpuError::Unavailable),
        vram_frequency: Err(GpuError::Unavailable),
        power_cap: Err(GpuError::Unavailable),
        power_cap_max: Err(GpuError::Unavailable),
    }
}

#[test]
fn display_of_full_refresh() {
    let d = gpu_refresh_display(&all_ok_metrics(), Base::Decimal, TemperatureUnit::Celsius);
    assert_eq!(d.usage_text, "42 %");
    assert_eq!(d.usage_permyriad, 4200);
    assert!(d.encode_decode_visible);
    assert_eq!(d.encode_text, "10 %");
    assert_eq!(d.decode_text, "20 %");
    assert_eq!(d.encode_permyriad, 1000);
    assert_eq!(d.decode_permyriad, 2000);
    assert!(d.vram_visible);
    assert_eq!(d.vram_fraction_permyriad, 1875);
    assert_eq!(d.vram_text, "1.50 GB / 8.00 GB · 19 %");
    assert_eq!(d.temperature_text, "65 °C");
    assert_eq!(d.power_text, "123 W");
    assert_eq!(d.core_clock_text, "1.50 GHz");
    assert_eq!(d.vram_clock_text, "875.00 MHz");
    assert_eq!(d.power_cap_text, "280 W");
    assert_eq!(d.power_cap_max_text, "315 W");
    assert_eq!(d.tab_subtitle, "42 % · VRAM: 19 %");
}

#[test]
fn display_of_fully_failed_refresh() {
    let d = gpu_refresh_display(&all_err_metrics(), Base::Decimal, TemperatureUnit::Celsius);
    assert_eq!(d.usage_text, "N/A");
    assert_eq!(d.usage_permyriad, 0);
    assert!(!d.encode_decode_visible);
    assert_eq!(d.encode_text, "N/A");
    assert_eq!(d.decode_text, "N/A");
    assert_eq!(d.encode_permyriad, 0);
    assert_eq!(d.decode_permyriad, 0);
    assert!(!d.vram_visible);
    assert_eq!(d.vram_fraction_permyriad, 0);
    assert_eq!(d.vram_text, "N/A");
    assert_eq!(d.temperature_text, "N/A");
    assert_eq!(d.power_text, "N/A");
    assert_eq!(d.core_clock_text, "N/A");
    assert_eq!(d.vram_clock_text, "N/A");
    assert_eq!(d.power_cap_text, "N/A");
    assert_eq!(d.power_cap_max_text, "N/A");
    assert_eq!(d.tab_subtitle, "N/A");
}

#[test]
fn display_with_usage_alone_still_fills_the_tab_subtitle() {
    let mut m = all_err_metrics();
    m.usage = Ok(7);
    let d = gpu_refresh_display(&m, Base::Decimal, TemperatureUnit::Celsius);
    assert_eq!(d.usage_text, "7 %");
    assert_eq!(d.vram_text, "N/A");
    assert_eq!(d.tab_subtitle, "7 % · VRAM: N/A");
}

#[test]
fn display_vram_fraction_with_zero_total_is_zero() {
    let mut m = all_ok_metrics();
    m.used_vram = Ok(0);
    m.total_vram = Ok(0);
    let d = gpu_refresh_display(&m, Base::Decimal, TemperatureUnit::Celsius);
    assert!(d.vram_visible);
    assert_eq!(d.vram_fraction_permyriad, 0);
    assert_eq!(d.vram_text, "0 B / 0 B · 0 %");
}
