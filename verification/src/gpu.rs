//! The GPU backend abstraction: one record per silicon vendor, a tagged
//! union over them, and a uniform, independently fallible capability
//! surface.
//!
//! A capability query never touches the filesystem itself.  It either
//! refuses immediately — `Unsupported` for a capability the vendor lacks
//! structurally, `Unavailable` for a monitoring metric without a monitoring
//! directory — or hands back the one read request that would answer it.  A
//! collaborator performs the read and the content is interpreted by
//! [`metric_from_content`], so every decision in between is verified.

use crate::pci::{pci_device_name, pci_device_name_of, pci_vendor_name, pci_vendor_name_of};
use crate::settings::{Base, TemperatureUnit};
use crate::text::{i64_dec_string, int_dec_seq, na_seq, na_text, parse_i64, parse_i64_spec};
use crate::units::{
    convert_frequency, convert_frequency_spec, convert_power, convert_power_spec, convert_storage,
    convert_storage_spec, convert_temperature, convert_temperature_spec, round_centi_signed,
};
use vstd::prelude::*;
use vstd::string::StringSliceAdditionalSpecFns;

verus! {

/// A PCI vendor/device identifier pair as read from the device's interface.
#[derive(Clone, Copy, PartialEq, Eq, Structural, Debug)]
pub struct PciId {
    pub vendor_id: u16,
    pub device_id: u16,
}

/// Why a capability query returned no value.
#[derive(Clone, Copy, PartialEq, Eq, Structural, Debug)]
pub enum GpuError {
    /// The capability does not exist for this vendor: permanent, known at
    /// construction, and never worth a read attempt.
    Unsupported,
    /// The capability exists but could not be served: a missing file or
    /// directory, or unparsable content.
    Unavailable,
    /// The query reached a page that was never attached to a device.
    NotInitialized,
}

/// One queryable metric of the capability surface.
#[derive(Clone, Copy, PartialEq, Eq, Structural, Debug)]
pub enum Capability {
    Usage,
    EncodeUsage,
    DecodeUsage,
    UsedVram,
    TotalVram,
    Temperature,
    PowerUsage,
    CoreFrequency,
    VramFrequency,
    PowerCap,
    PowerCapMax,
}

/// Which directory a capability is served from.
#[derive(Clone, Copy, PartialEq, Eq, Structural, Debug)]
pub enum MetricSource {
    /// The device's control directory.
    DeviceInterface,
    /// The device's first hardware-monitoring directory.
    Monitoring,
}

/// The AMD backend record.
#[derive(Clone, Debug)]
pub struct AmdGpu {
    pub device: Option<PciId>,
    pub pci_slot: String,
    pub driver: String,
    pub sysfs_path: String,
    pub first_hwmon_path: Option<String>,
}

/// The Intel backend record.
#[derive(Clone, Debug)]
pub struct IntelGpu {
    pub device: Option<PciId>,
    pub pci_slot: String,
    pub driver: String,
    pub sysfs_path: String,
    pub first_hwmon_path: Option<String>,
}

/// The NVIDIA-class backend record.
#[derive(Clone, Debug)]
pub struct NvidiaGpu {
    pub device: Option<PciId>,
    pub pci_slot: String,
    pub driver: String,
    pub sysfs_path: String,
    pub first_hwmon_path: Option<String>,
}

/// The backend record for a device of an unrecognized vendor.
#[derive(Clone, Debug)]
pub struct OtherGpu {
    pub device: Option<PciId>,
    pub pci_slot: String,
    pub driver: String,
    pub sysfs_path: String,
    pub first_hwmon_path: Option<String>,
}

impl AmdGpu {
    pub fn new(
        device: Option<PciId>,
        pci_slot: String,
        driver: String,
        sysfs_path: String,
        first_hwmon_path: Option<String>,
    ) -> (r: AmdGpu)
        ensures
            r == (AmdGpu { device, pci_slot, driver, sysfs_path, first_hwmon_path }),
    {
        AmdGpu { device, pci_slot, driver, sysfs_path, first_hwmon_path }
    }
}

impl IntelGpu {
    pub fn new(
        device: Option<PciId>,
        pci_slot: String,
        driver: String,
        sysfs_path: String,
        first_hwmon_path: Option<String>,
    ) -> (r: IntelGpu)
        ensures
            r == (IntelGpu { device, pci_slot, driver, sysfs_path, first_hwmon_path }),
    {
        IntelGpu { device, pci_slot, driver, sysfs_path, first_hwmon_path }
    }
}

impl NvidiaGpu {
    pub fn new(
        device: Option<PciId>,
        pci_slot: String,
        driver: String,
        sysfs_path: String,
        first_hwmon_path: Option<String>,
    ) -> (r: NvidiaGpu)
        ensures
            r == (NvidiaGpu { device, pci_slot, driver, sysfs_path, first_hwmon_path }),
    {
        NvidiaGpu { device, pci_slot, driver, sysfs_path, first_hwmon_path }
    }
}

impl OtherGpu {
    pub fn new(
        device: Option<PciId>,
        pci_slot: String,
        driver: String,
        sysfs_path: String,
        first_hwmon_path: Option<String>,
    ) -> (r: OtherGpu)
        ensures
            r == (OtherGpu { device, pci_slot, driver, sysfs_path, first_hwmon_path }),
    {
        OtherGpu { device, pci_slot, driver, sysfs_path, first_hwmon_path }
    }
}

/// One discovered GPU with the backend matching its vendor.
#[derive(Clone, Debug)]
pub enum Gpu {
    Amd(AmdGpu),
    Intel(IntelGpu),
    Nvidia(NvidiaGpu),
    Other(OtherGpu),
}

/// The PCI vendor identifier of AMD.
pub const VENDOR_ID_AMD: u16 = 0x1002;

/// The PCI vendor identifier of Intel.
pub const VENDOR_ID_INTEL: u16 = 0x8086;

/// The PCI vendor identifier of NVIDIA.
pub const VENDOR_ID_NVIDIA: u16 = 0x10de;

/// The identifier pair carried by a backend.
pub open spec fn device_spec(g: Gpu) -> Option<PciId> {
    match g {
        Gpu::Amd(b) => b.device,
        Gpu::Intel(b) => b.device,
        Gpu::Nvidia(b) => b.device,
        Gpu::Other(b) => b.device,
    }
}

/// The PCI slot string carried by a backend.
pub open spec fn pci_slot_spec(g: Gpu) -> Seq<char> {
    match g {
        Gpu::Amd(b) => b.pci_slot@,
        Gpu::Intel(b) => b.pci_slot@,
        Gpu::Nvidia(b) => b.pci_slot@,
        Gpu::Other(b) => b.pci_slot@,
    }
}

/// The driver name carried by a backend.
pub open spec fn driver_spec(g: Gpu) -> Seq<char> {
    match g {
        Gpu::Amd(b) => b.driver@,
        Gpu::Intel(b) => b.driver@,
        Gpu::Nvidia(b) => b.driver@,
        Gpu::Other(b) => b.driver@,
    }
}

/// The control directory carried by a backend.
pub open spec fn sysfs_path_spec(g: Gpu) -> Seq<char> {
    match g {
        Gpu::Amd(b) => b.sysfs_path@,
        Gpu::Intel(b) => b.sysfs_path@,
        Gpu::Nvidia(b) => b.sysfs_path@,
        Gpu::Other(b) => b.sysfs_path@,
    }
}

/// The first monitoring directory carried by a backend, if one was found.
pub open spec fn hwmon_path_spec(g: Gpu) -> Option<Seq<char>> {
    match g {
        Gpu::Amd(b) => match b.first_hwmon_path {
            Some(p) => Some(p@),
            None => None,
        },
        Gpu::Intel(b) => match b.first_hwmon_path {
            Some(p) => Some(p@),
            None => None,
        },
        Gpu::Nvidia(b) => match b.first_hwmon_path {
            Some(p) => Some(p@),
            None => None,
        },
        Gpu::Other(b) => match b.first_hwmon_path {
            Some(p) => Some(p@),
            None => None,
        },
    }
}

/// The structural capability set of each vendor: AMD and unrecognized
/// devices lack the video encode and decode counters, the NVIDIA-class
/// interface exposes everything, and the Intel interface exposes no
/// dedicated video memory and no memory clock.
pub open spec fn supports_spec(g: Gpu, c: Capability) -> bool {
    match g {
        Gpu::Amd(_) => !(c == Capability::EncodeUsage || c == Capability::DecodeUsage),
        Gpu::Intel(_) => c == Capability::Usage || c == Capability::Temperature || c
            == Capability::PowerUsage || c == Capability::CoreFrequency || c
            == Capability::PowerCap || c == Capability::PowerCapMax,
        Gpu::Nvidia(_) => true,
        Gpu::Other(_) => !(c == Capability::EncodeUsage || c == Capability::DecodeUsage),
    }
}

/// Which directory serves each capability: utilization percentages and
/// video memory counts live in the control directory, sensor readings in
/// the monitoring directory.
pub open spec fn metric_source_spec(c: Capability) -> MetricSource {
    match c {
        Capability::Usage => MetricSource::DeviceInterface,
        Capability::EncodeUsage => MetricSource::DeviceInterface,
        Capability::DecodeUsage => MetricSource::DeviceInterface,
        Capability::UsedVram => MetricSource::DeviceInterface,
        Capability::TotalVram => MetricSource::DeviceInterface,
        Capability::Temperature => MetricSource::Monitoring,
        Capability::PowerUsage => MetricSource::Monitoring,
        Capability::CoreFrequency => MetricSource::Monitoring,
        Capability::VramFrequency => MetricSource::Monitoring,
        Capability::PowerCap => MetricSource::Monitoring,
        Capability::PowerCapMax => MetricSource::Monitoring,
    }
}

/// The file, relative to the serving directory, that answers a capability.
pub open spec fn metric_file_spec(c: Capability) -> Seq<char> {
    match c {
        Capability::Usage => "gpu_busy_percent"@,
        Capability::EncodeUsage => "enc_busy_percent"@,
        Capability::DecodeUsage => "dec_busy_percent"@,
        Capability::UsedVram => "mem_info_vram_used"@,
        Capability::TotalVram => "mem_info_vram_total"@,
        Capability::Temperature => "temp1_input"@,
        Capability::PowerUsage => "power1_average"@,
        Capability::CoreFrequency => "freq1_input"@,
        Capability::VramFrequency => "freq2_input"@,
        Capability::PowerCap => "power1_cap"@,
        Capability::PowerCapMax => "power1_cap_max"@,
    }
}

fn metric_source(c: Capability) -> (r: MetricSource)
    ensures
        r == metric_source_spec(c),
{
    match c {
        Capability::Usage => MetricSource::DeviceInterface,
        Capability::EncodeUsage => MetricSource::DeviceInterface,
        Capability::DecodeUsage => MetricSource::DeviceInterface,
        Capability::UsedVram => MetricSource::DeviceInterface,
        Capability::TotalVram => MetricSource::DeviceInterface,
        Capability::Temperature => MetricSource::Monitoring,
        Capability::PowerUsage => MetricSource::Monitoring,
        Capability::CoreFrequency => MetricSource::Monitoring,
        Capability::VramFrequency => MetricSource::Monitoring,
        Capability::PowerCap => MetricSource::Monitoring,
        Capability::PowerCapMax => MetricSource::Monitoring,
    }
}

fn metric_file(c: Capability) -> (r: &'static str)
    ensures
        r@ == metric_file_spec(c),
{
    match c {
        Capability::Usage => "gpu_busy_percent",
        Capability::EncodeUsage => "enc_busy_percent",
        Capability::DecodeUsage => "dec_busy_percent",
        Capability::UsedVram => "mem_info_vram_used",
        Capability::TotalVram => "mem_info_vram_total",
        Capability::Temperature => "temp1_input",
        Capability::PowerUsage => "power1_average",
        Capability::CoreFrequency => "freq1_input",
        Capability::VramFrequency => "freq2_input",
        Capability::PowerCap => "power1_cap",
        Capability::PowerCapMax => "power1_cap_max",
    }
}

/// The one file read that would answer a capability query.
#[derive(Clone, Debug)]
pub struct ReadRequest {
    pub path: String,
    pub source: MetricSource,
}

impl Gpu {
    /// Builds the backend matching a device's resolved vendor identifier;
    /// a device with no identifier, or one of an unrecognized vendor, gets
    /// the generic backend.
    pub fn new(
        device: Option<PciId>,
        pci_slot: String,
        driver: String,
        sysfs_path: String,
        first_hwmon_path: Option<String>,
    ) -> (r: Gpu)
        ensures
            device_spec(r) == device,
            pci_slot_spec(r) == pci_slot@,
            driver_spec(r) == driver@,
            sysfs_path_spec(r) == sysfs_path@,
            hwmon_path_spec(r) == match first_hwmon_path {
                Some(p) => Some(p@),
                None => None::<Seq<char>>,
            },
            r is Amd <==> (device matches Some(id) && id.vendor_id == VENDOR_ID_AMD),
            r is Intel <==> (device matches Some(id) && id.vendor_id == VENDOR_ID_INTEL),
            r is Nvidia <==> (device matches Some(id) && id.vendor_id == VENDOR_ID_NVIDIA),
    {
        match device {
            Some(id) if id.vendor_id == VENDOR_ID_AMD => Gpu::Amd(
                AmdGpu::new(device, pci_slot, driver, sysfs_path, first_hwmon_path),
            ),
            Some(id) if id.vendor_id == VENDOR_ID_INTEL => Gpu::Intel(
                IntelGpu::new(device, pci_slot, driver, sysfs_path, first_hwmon_path),
            ),
            Some(id) if id.vendor_id == VENDOR_ID_NVIDIA => Gpu::Nvidia(
                NvidiaGpu::new(device, pci_slot, driver, sysfs_path, first_hwmon_path),
            ),
            _ => Gpu::Other(OtherGpu::new(device, pci_slot, driver, sysfs_path, first_hwmon_path)),
        }
    }

    /// Whether this backend structurally has a capability.
    pub fn supports(&self, capability: Capability) -> (r: bool)
        ensures
            r == supports_spec(*self, capability),
    {
        match self {
            Gpu::Amd(_) => !(capability == Capability::EncodeUsage || capability
                == Capability::DecodeUsage),
            Gpu::Intel(_) => capability == Capability::Usage || capability
                == Capability::Temperature || capability == Capability::PowerUsage || capability
                == Capability::CoreFrequency || capability == Capability::PowerCap || capability
                == Capability::PowerCapMax,
            Gpu::Nvidia(_) => true,
            Gpu::Other(_) => !(capability == Capability::EncodeUsage || capability
                == Capability::DecodeUsage),
        }
    }

    fn sysfs_dir(&self) -> (r: &String)
        ensures
            r@ == sysfs_path_spec(*self),
    {
        match self {
            Gpu::Amd(b) => &b.sysfs_path,
            Gpu::Intel(b) => &b.sysfs_path,
            Gpu::Nvidia(b) => &b.sysfs_path,
            Gpu::Other(b) => &b.sysfs_path,
        }
    }

    fn hwmon_dir(&self) -> (r: Option<&String>)
        ensures
            match r {
                Some(p) => hwmon_path_spec(*self) == Some(p@),
                None => hwmon_path_spec(*self) is None,
            },
    {
        match self {
            Gpu::Amd(b) => b.first_hwmon_path.as_ref(),
            Gpu::Intel(b) => b.first_hwmon_path.as_ref(),
            Gpu::Nvidia(b) => b.first_hwmon_path.as_ref(),
            Gpu::Other(b) => b.first_hwmon_path.as_ref(),
        }
    }

    /// Answers a capability query with the read that would serve it, or
    /// with the failure owed without any read: `Unsupported` for a
    /// capability this vendor lacks, `Unavailable` for a monitoring metric
    /// on a device without a monitoring directory.
    pub fn read_request(&self, capability: Capability) -> (r: Result<ReadRequest, GpuError>)
        ensures
            !supports_spec(*self, capability) ==> r == Err::<ReadRequest, GpuError>(
                GpuError::Unsupported,
            ),
            supports_spec(*self, capability) && metric_source_spec(capability)
                == MetricSource::Monitoring && hwmon_path_spec(*self) is None ==> r == Err::<
                ReadRequest,
                GpuError,
            >(GpuError::Unavailable),
            supports_spec(*self, capability) && metric_source_spec(capability)
                == MetricSource::DeviceInterface ==> (r matches Ok(req) && req.path@
                == sysfs_path_spec(*self) + "/"@ + metric_file_spec(capability) && req.source
                == MetricSource::DeviceInterface),
            (supports_spec(*self, capability) && metric_source_spec(capability)
                == MetricSource::Monitoring && (hwmon_path_spec(*self) matches Some(h))) ==> (
            r matches Ok(req) && req.path@ == hwmon_path_spec(*self)->0 + "/"@
                + metric_file_spec(capability) && req.source == MetricSource::Monitoring),
    {
        if !self.supports(capability) {
            return Err(GpuError::Unsupported);
        }
        let source = metric_source(capability);
        let dir: &String = match source {
            MetricSource::DeviceInterface => self.sysfs_dir(),
            MetricSource::Monitoring => match self.hwmon_dir() {
                Some(h) => h,
                None => {
                    return Err(GpuError::Unavailable);
                },
            },
        };
        let base = dir.clone();
        let with_sep = base.concat("/");
        let path = with_sep.concat(metric_file(capability));
        Ok(ReadRequest { path, source })
    }

    /// The identifier pair resolved at discovery, if the device was found
    /// in the hardware-ID database.
    pub fn device(&self) -> (r: Option<PciId>)
        ensures
            r == device_spec(*self),
    {
        match self {
            Gpu::Amd(b) => b.device,
            Gpu::Intel(b) => b.device,
            Gpu::Nvidia(b) => b.device,
            Gpu::Other(b) => b.device,
        }
    }

    /// The PCI slot string, stable for one session.
    pub fn pci_slot(&self) -> (r: String)
        ensures
            r@ == pci_slot_spec(*self),
    {
        match self {
            Gpu::Amd(b) => b.pci_slot.clone(),
            Gpu::Intel(b) => b.pci_slot.clone(),
            Gpu::Nvidia(b) => b.pci_slot.clone(),
            Gpu::Other(b) => b.pci_slot.clone(),
        }
    }

    /// The kernel driver bound to the device.
    pub fn driver(&self) -> (r: String)
        ensures
            r@ == driver_spec(*self),
    {
        match self {
            Gpu::Amd(b) => b.driver.clone(),
            Gpu::Intel(b) => b.driver.clone(),
            Gpu::Nvidia(b) => b.driver.clone(),
            Gpu::Other(b) => b.driver.clone(),
        }
    }

    /// The control directory of the device.
    pub fn sysfs_path(&self) -> (r: String)
        ensures
            r@ == sysfs_path_spec(*self),
    {
        self.sysfs_dir().clone()
    }

    /// The first monitoring directory of the device, if one was found.
    pub fn first_hwmon(&self) -> (r: Option<String>)
        ensures
            match r {
                Some(p) => hwmon_path_spec(*self) == Some(p@),
                None => hwmon_path_spec(*self) is None,
            },
    {
        match self.hwmon_dir() {
            Some(p) => Some(p.clone()),
            None => None,
        }
    }

    /// The device's name from the hardware-ID database, or `Unavailable`
    /// when the device was not resolved or the database has no entry.
    pub fn name(&self) -> (r: Result<String, GpuError>)
        ensures
            match device_spec(*self) {
                None => r == Err::<String, GpuError>(GpuError::Unavailable),
                Some(id) => match pci_device_name_of(id.vendor_id, id.device_id) {
                    Some(s) => r matches Ok(n) && n@ == s,
                    None => r == Err::<String, GpuError>(GpuError::Unavailable),
                },
            },
    {
        match self.device() {
            None => Err(GpuError::Unavailable),
            Some(id) => match pci_device_name(id.vendor_id, id.device_id) {
                Some(n) => Ok(n),
                None => Err(GpuError::Unavailable),
            },
        }
    }

    /// The device's vendor name from the hardware-ID database, or
    /// `Unavailable` when the device was not resolved or the database has
    /// no entry for the vendor.
    pub fn get_vendor(&self) -> (r: Result<String, GpuError>)
        ensures
            match device_spec(*self) {
                None => r == Err::<String, GpuError>(GpuError::Unavailable),
                Some(id) => match pci_vendor_name_of(id.vendor_id) {
                    Some(s) => r matches Ok(n) && n@ == s,
                    None => r == Err::<String, GpuError>(GpuError::Unavailable),
                },
            },
    {
        match self.device() {
            None => Err(GpuError::Unavailable),
            Some(id) => match pci_vendor_name(id.vendor_id) {
                Some(n) => Ok(n),
                None => Err(GpuError::Unavailable),
            },
        }
    }
}

/// Integer division truncated toward zero, for a positive divisor.
pub open spec fn div_trunc_int(a: int, b: int) -> int {
    if a >= 0 {
        a / b
    } else {
        -((-a) / b)
    }
}

/// The raw integer of each interface file brought to the capability's
/// public unit: millidegrees become hundredths of a degree, microwatts
/// become hundredths of a watt, and percentages, byte counts and hertz pass
/// through unchanged.
pub open spec fn scale_metric_spec(c: Capability, v: int) -> int {
    match c {
        Capability::Temperature => div_trunc_int(v, 10),
        Capability::PowerUsage => div_trunc_int(v, 10000),
        Capability::PowerCap => div_trunc_int(v, 10000),
        Capability::PowerCapMax => div_trunc_int(v, 10000),
        _ => v,
    }
}

/// What a served read yields: `Unavailable` for an unreadable file or
/// unparsable content, otherwise the parsed value in the public unit.
pub open spec fn metric_from_content_spec(c: Capability, content: Option<Seq<u8>>) -> Result<
    i64,
    GpuError,
> {
    match content {
        None => Err(GpuError::Unavailable),
        Some(bytes) => match parse_i64_spec(bytes) {
            None => Err(GpuError::Unavailable),
            Some(v) => Ok(scale_metric_spec(c, v as int) as i64),
        },
    }
}

fn div_trunc_i64(a: i64, b: i64) -> (r: i64)
    requires
        b > 0,
        a > i64::MIN,
    ensures
        r == div_trunc_int(a as int, b as int),
{
    if a >= 0 {
        a / b
    } else {
        -((-a) / b)
    }
}

/// Interprets the content a collaborator read for a capability: `None`
/// stands for a file that could not be read.
pub fn metric_from_content(capability: Capability, content: Option<&str>) -> (r: Result<
    i64,
    GpuError,
>)
    ensures
        r == metric_from_content_spec(
            capability,
            match content {
                Some(s) => Some(s.spec_bytes()),
                None => None::<Seq<u8>>,
            },
        ),
{
    let s = match content {
        None => {
            return Err(GpuError::Unavailable);
        },
        Some(s) => s,
    };
    let v = match parse_i64(s) {
        None => {
            return Err(GpuError::Unavailable);
        },
        Some(v) => v,
    };
    let scaled = match capability {
        Capability::Temperature => div_trunc_i64(v, 10),
        Capability::PowerUsage => div_trunc_i64(v, 10000),
        Capability::PowerCap => div_trunc_i64(v, 10000),
        Capability::PowerCapMax => div_trunc_i64(v, 10000),
        _ => v,
    };
    Ok(scaled)
}

/// The slot a display page keeps its device in: a capability query through
/// a page that was never attached is a contract violation surfaced as
/// `NotInitialized`.
pub struct GpuPage {
    pub gpu: Option<Gpu>,
}

impl GpuPage {
    /// A page with no device attached yet.
    pub fn new() -> (r: GpuPage)
        ensures
            r.gpu is None,
    {
        GpuPage { gpu: None }
    }

    /// Attaches the discovered device this page will query.
    pub fn init(&mut self, gpu: Gpu)
        ensures
            final(self).gpu == Some(gpu),
    {
        self.gpu = Some(gpu);
    }

    /// The attached device, or `NotInitialized` when none was attached.
    pub fn gpu(&self) -> (r: Result<&Gpu, GpuError>)
        ensures
            match self.gpu {
                Some(ref g) => r matches Ok(rg) && *rg == *g,
                None => r == Err::<&Gpu, GpuError>(GpuError::NotInitialized),
            },
    {
        match &self.gpu {
            Some(g) => Ok(g),
            None => Err(GpuError::NotInitialized),
        }
    }
}

/// The outcome of every capability query of one refresh pass; each metric
/// is independently optional and carries its own failure reason.
pub struct GpuMetrics {
    pub usage: Result<i64, GpuError>,
    pub encode_usage: Result<i64, GpuError>,
    pub decode_usage: Result<i64, GpuError>,
    pub used_vram: Result<i64, GpuError>,
    pub total_vram: Result<i64, GpuError>,
    pub temperature: Result<i64, GpuError>,
    pub power_usage: Result<i64, GpuError>,
    pub core_frequency: Result<i64, GpuError>,
    pub vram_frequency: Result<i64, GpuError>,
    pub power_cap: Result<i64, GpuError>,
    pub power_cap_max: Result<i64, GpuError>,
}

/// A value clamped into the `i64` range.
pub open spec fn clamp_to_i64(x: int) -> int {
    if x > i64::MAX {
        i64::MAX as int
    } else if x < i64::MIN {
        i64::MIN as int
    } else {
        x
    }
}

/// A value clamped below at zero, as a magnitude fit for rendering.
pub open spec fn clamp_nonneg(v: int) -> nat {
    if v < 0 {
        0
    } else {
        v as nat
    }
}

/// A raw percentage as display text, for example `42 %`.
pub open spec fn percent_text_seq(v: int) -> Seq<char> {
    int_dec_seq(v) + seq![' ', '%']
}

/// The percentage text of one utilization reading, or the placeholder.
pub open spec fn usage_text_spec(u: Result<i64, GpuError>) -> Seq<char> {
    match u {
        Ok(v) => percent_text_seq(v as int),
        Err(_) => na_seq(),
    }
}

/// The graph point of one utilization reading, in ten-thousandths: the
/// interface reports whole percent, so the fraction is the value over one
/// hundred, and a failed reading plots as zero.
pub open spec fn usage_permyriad_spec(u: Result<i64, GpuError>) -> int {
    match u {
        Ok(v) => clamp_to_i64(100 * v),
        Err(_) => 0,
    }
}

/// The used-over-total video memory fraction in ten-thousandths, computed
/// once per pass: absent when either count is, zero when the total is not
/// positive.
pub open spec fn vram_fraction_permyriad_spec(
    used: Result<i64, GpuError>,
    total: Result<i64, GpuError>,
) -> Option<int> {
    if used is Ok && total is Ok {
        Some(
            if total->Ok_0 <= 0 {
                0
            } else {
                clamp_to_i64(div_trunc_int(10000 * used->Ok_0, total->Ok_0 as int))
            },
        )
    } else {
        None
    }
}

/// The video memory fraction as a whole percentage, rounded half away from
/// zero, or the placeholder when the fraction is absent.
pub open spec fn vram_percent_text_spec(
    used: Result<i64, GpuError>,
    total: Result<i64, GpuError>,
) -> Seq<char> {
    match vram_fraction_permyriad_spec(used, total) {
        Some(pm) => percent_text_seq(round_centi_signed(pm)),
        None => na_seq(),
    }
}

/// The video memory line: used and total byte counts with the percentage,
/// or the placeholder when either count is missing.  A negative count
/// renders as zero bytes.
pub open spec fn vram_text_spec(
    used: Result<i64, GpuError>,
    total: Result<i64, GpuError>,
    base: Base,
) -> Seq<char> {
    if used is Ok && total is Ok {
        convert_storage_spec(clamp_nonneg(used->Ok_0 as int), false, base) + " / "@
            + convert_storage_spec(clamp_nonneg(total->Ok_0 as int), false, base) + " · "@
            + vram_percent_text_spec(used, total)
    } else {
        na_seq()
    }
}

/// A sensor reading as temperature text, or the placeholder.
pub open spec fn gpu_temperature_text_spec(
    t: Result<i64, GpuError>,
    unit: TemperatureUnit,
) -> Seq<char> {
    match t {
        Ok(v) => convert_temperature_spec(v as int, unit),
        Err(_) => na_seq(),
    }
}

/// A power reading as display text, or the placeholder; negative readings
/// render as zero.
pub open spec fn gpu_power_text_spec(p: Result<i64, GpuError>) -> Seq<char> {
    match p {
        Ok(v) => convert_power_spec(clamp_nonneg(v as int)),
        Err(_) => na_seq(),
    }
}

/// A clock reading as display text, or the placeholder; negative readings
/// render as zero.
pub open spec fn gpu_frequency_text_spec(f: Result<i64, GpuError>) -> Seq<char> {
    match f {
        Ok(v) => convert_frequency_spec(clamp_nonneg(v as int)),
        Err(_) => na_seq(),
    }
}

/// The tab subtitle: the placeholder when neither the utilization nor the
/// memory fraction is known, otherwise both shares side by side.
pub open spec fn tab_subtitle_spec(
    usage: Result<i64, GpuError>,
    used: Result<i64, GpuError>,
    total: Result<i64, GpuError>,
) -> Seq<char> {
    if usage is Err && vram_fraction_permyriad_spec(used, total) is None {
        na_seq()
    } else {
        usage_text_spec(usage) + " · VRAM: "@ + vram_percent_text_spec(used, total)
    }
}

/// Everything one refresh pass hands the display layer.
pub struct GpuDisplay {
    pub usage_text: String,
    pub usage_permyriad: i64,
    pub encode_decode_visible: bool,
    pub encode_text: String,
    pub encode_permyriad: i64,
    pub decode_text: String,
    pub decode_permyriad: i64,
    pub vram_text: String,
    pub vram_fraction_permyriad: i64,
    pub vram_visible: bool,
    pub temperature_text: String,
    pub power_text: String,
    pub core_clock_text: String,
    pub vram_clock_text: String,
    pub power_cap_text: String,
    pub power_cap_max_text: String,
    pub tab_subtitle: String,
}

fn percent_text_i64(v: i64) -> (r: String)
    ensures
        r@ == percent_text_seq(v as int),
{
    let num = i64_dec_string(v);
    let r = num.concat(" %");
    proof {
        reveal_strlit(" %");
        assert(r@ =~= percent_text_seq(v as int));
    }
    r
}

fn clamp0_u64(v: i64) -> (r: u64)
    ensures
        r == clamp_nonneg(v as int),
{
    if v < 0 {
        0
    } else {
        v as u64
    }
}

fn usage_permyriad_value(u: &Result<i64, GpuError>) -> (r: i64)
    ensures
        r == usage_permyriad_spec(*u),
{
    match u {
        Ok(v) => {
            let wide: i128 = 100 * (*v as i128);
            if wide > i64::MAX as i128 {
                i64::MAX
            } else if wide < i64::MIN as i128 {
                i64::MIN
            } else {
                wide as i64
            }
        },
        Err(_) => 0,
    }
}

fn vram_fraction_permyriad_value(used: &Result<i64, GpuError>, total: &Result<i64, GpuError>) -> (r:
    Option<i64>)
    ensures
        match r {
            Some(v) => vram_fraction_permyriad_spec(*used, *total) == Some(v as int),
            None => vram_fraction_permyriad_spec(*used, *total) is None,
        },
{
    let (u, t): (i64, i64) = match (used, total) {
        (Ok(u), Ok(t)) => (*u, *t),
        _ => {
            return None;
        },
    };
    if t <= 0 {
        return Some(0);
    }
    let wide: i128 = 10000 * (u as i128);
    let q: i128 = if wide >= 0 {
        wide / (t as i128)
    } else {
        -((-wide) / (t as i128))
    };
    if q > i64::MAX as i128 {
        Some(i64::MAX)
    } else if q < i64::MIN as i128 {
        Some(i64::MIN)
    } else {
        Some(q as i64)
    }
}

fn round_permyriad_percent(pm: i64) -> (r: i64)
    ensures
        r == round_centi_signed(pm as int),
{
    if pm >= 0 {
        let wide: i128 = pm as i128;
        ((wide + 50) / 100) as i64
    } else {
        let neg: i128 = -(pm as i128);
        (-((neg + 50) / 100)) as i64
    }
}

/// Assembles the display record of one refresh pass from the metric
/// outcomes: every failed metric shows the placeholder, failed graph points
/// plot as zero, the encode and decode pair is shown only when both
/// readings arrived, and the video memory fraction is computed once.
pub fn gpu_refresh_display(metrics: &GpuMetrics, base: Base, unit: TemperatureUnit) -> (d:
    GpuDisplay)
    ensures
        d.usage_text@ == usage_text_spec(metrics.usage),
        d.usage_permyriad == usage_permyriad_spec(metrics.usage),
        d.encode_decode_visible == (metrics.encode_usage is Ok && metrics.decode_usage is Ok),
        d.encode_decode_visible ==> d.encode_text@ == usage_text_spec(metrics.encode_usage)
            && d.decode_text@ == usage_text_spec(metrics.decode_usage) && d.encode_permyriad
            == usage_permyriad_spec(metrics.encode_usage) && d.decode_permyriad
            == usage_permyriad_spec(metrics.decode_usage),
        !d.encode_decode_visible ==> d.encode_text@ == na_seq() && d.decode_text@ == na_seq()
            && d.encode_permyriad == 0 && d.decode_permyriad == 0,
        d.vram_text@ == vram_text_spec(metrics.used_vram, metrics.total_vram, base),
        d.vram_visible == (vram_fraction_permyriad_spec(metrics.used_vram, metrics.total_vram)
            is Some),
        d.vram_fraction_permyriad as int == match vram_fraction_permyriad_spec(
            metrics.used_vram,
            metrics.total_vram,
        ) {
            Some(pm) => pm,
            None => 0,
        },
        d.temperature_text@ == gpu_temperature_text_spec(metrics.temperature, unit),
        d.power_text@ == gpu_power_text_spec(metrics.power_usage),
        d.core_clock_text@ == gpu_frequency_text_spec(metrics.core_frequency),
        d.vram_clock_text@ == gpu_frequency_text_spec(metrics.vram_frequency),
        d.power_cap_text@ == gpu_power_text_spec(metrics.power_cap),
        d.power_cap_max_text@ == gpu_power_text_spec(metrics.power_cap_max),
        d.tab_subtitle@ == tab_subtitle_spec(
            metrics.usage,
            metrics.used_vram,
            metrics.total_vram,
        ),
{
    let usage_text = match &metrics.usage {
        Ok(v) => percent_text_i64(*v),
        Err(_) => na_text(),
    };
    let usage_permyriad = usage_permyriad_value(&metrics.usage);

    let encode_decode_visible = metrics.encode_usage.is_ok() && metrics.decode_usage.is_ok();
    let (encode_text, encode_permyriad, decode_text, decode_permyriad) = if encode_decode_visible {
        (
            match &metrics.encode_usage {
                Ok(v) => percent_text_i64(*v),
                Err(_) => na_text(),
            },
            usage_permyriad_value(&metrics.encode_usage),
            match &metrics.decode_usage {
                Ok(v) => percent_text_i64(*v),
                Err(_) => na_text(),
            },
            usage_permyriad_value(&metrics.decode_usage),
        )
    } else {
        (na_text(), 0, na_text(), 0)
    };

    let vram_fraction = vram_fraction_permyriad_value(&metrics.used_vram, &metrics.total_vram);
    let vram_visible = vram_fraction.is_some();
    let vram_fraction_permyriad = match vram_fraction {
        Some(pm) => pm,
        None => 0,
    };
    let vram_percent_text = match vram_fraction {
        Some(pm) => percent_text_i64(round_permyriad_percent(pm)),
        None => na_text(),
    };
    let vram_text = match (&metrics.used_vram, &metrics.total_vram) {
        (Ok(u), Ok(t)) => {
            let used_part = convert_storage(clamp0_u64(*u), false, base);
            let total_part = convert_storage(clamp0_u64(*t), false, base);
            let joined = used_part.concat(" / ");
            let joined = joined.concat(total_part.as_str());
            let joined = joined.concat(" · ");
            let r = joined.concat(vram_percent_text.as_str());
            proof {
                reveal_strlit(" / ");
                reveal_strlit(" · ");
                assert(r@ =~= vram_text_spec(metrics.used_vram, metrics.total_vram, base));
            }
            r
        },
        _ => na_text(),
    };

    let temperature_text = match &metrics.temperature {
        Ok(v) => convert_temperature(*v, unit),
        Err(_) => na_text(),
    };
    let power_text = match &metrics.power_usage {
        Ok(v) => convert_power(clamp0_u64(*v)),
        Err(_) => na_text(),
    };
    let core_clock_text = match &metrics.core_frequency {
        Ok(v) => convert_frequency(clamp0_u64(*v)),
        Err(_) => na_text(),
    };
    let vram_clock_text = match &metrics.vram_frequency {
        Ok(v) => convert_frequency(clamp0_u64(*v)),
        Err(_) => na_text(),
    };
    let power_cap_text = match &metrics.power_cap {
        Ok(v) => convert_power(clamp0_u64(*v)),
        Err(_) => na_text(),
    };
    let power_cap_max_text = match &metrics.power_cap_max {
        Ok(v) => convert_power(clamp0_u64(*v)),
        Err(_) => na_text(),
    };

    let tab_subtitle = if metrics.usage.is_err() && vram_fraction.is_none() {
        na_text()
    } else {
        let joined = usage_text.clone();
        let joined = joined.concat(" · VRAM: ");
        let r = joined.concat(vram_percent_text.as_str());
        proof {
            reveal_strlit(" · VRAM: ");
            assert(r@ =~= tab_subtitle_spec(
                metrics.usage,
                metrics.used_vram,
                metrics.total_vram,
            ));
        }
        r
    };

    GpuDisplay {
        usage_text,
        usage_permyriad,
        encode_decode_visible,
        encode_text,
        encode_permyriad,
        decode_text,
        decode_permyriad,
        vram_text,
        vram_fraction_permyriad,
        vram_visible,
        temperature_text,
        power_text,
        core_clock_text,
        vram_clock_text,
        power_cap_text,
        power_cap_max_text,
        tab_subtitle,
    }
}

} // verus!
