//! Tests of the capability advisor: byte formatting, the feasibility
//! verdict and its issue strings, backend choice, and memory-table parsing.

use phi_local_llm::system::{
    check_macos_memory, check_system_requirements, check_windows_memory, memory_info_or_unknown,
    parse_meminfo, parse_memory_line, placeholder_disk_info, MemoryParseError,
};
use phi_local_llm::{format_bytes, DiskInfo, GpuInfo, MemoryInfo, PhiFamily, PhiModel, SystemInfo};

const GIB: u64 = 1024 * 1024 * 1024;

fn variant(tenths: u64) -> PhiModel {
    PhiModel {
        family: PhiFamily::Phi3,
        parameters: "3.8B".to_string(),
        context_length: 4096,
        specialization: vec!["coding".to_string()],
        parameter_count_tenths: tenths,
    }
}

fn host(available_memory: u64, available_disk: u64, cpu_cores: usize, gpu: GpuInfo) -> SystemInfo {
    SystemInfo {
        memory: MemoryInfo {
            total: 16 * GIB,
            available: available_memory,
        },
        disk: DiskInfo {
            total: 100 * GIB,
            available: available_disk,
        },
        cpu_cores,
        gpu,
    }
}

fn no_gpu() -> GpuInfo {
    GpuInfo {
        has_cuda: false,
        has_metal: false,
        has_vulkan: false,
        device_count: 0,
    }
}

#[test]
fn test_format_bytes() {
    assert_eq!(format_bytes(1024), "1.0 KB");
    assert_eq!(format_bytes(1024 * 1024), "1.0 MB");
    assert_eq!(format_bytes(1024 * 1024 * 1024), "1.0 GB");
}

#[test]
fn test_format_bytes_more() {
    assert_eq!(format_bytes(0), "0 B");
    assert_eq!(format_bytes(1023), "1023 B");
    assert_eq!(format_bytes(1536), "1.5 KB");
    assert_eq!(format_bytes(4 * GIB), "4.0 GB");
    assert_eq!(format_bytes(1024 * GIB), "1.0 TB");
    assert_eq!(format_bytes(u64::MAX), "16777216.0 TB");
}

#[test]
fn test_model_requirements_check() {
    let system_info = host(
        8 * GIB,
        50 * GIB,
        8,
        GpuInfo {
            has_cuda: true,
            has_metal: false,
            has_vulkan: false,
            device_count: 1,
        },
    );

    let phi3 = variant(38);

    let (can_run, _issues) = system_info.can_run_model(&phi3);
    assert!(can_run);
    assert_eq!(system_info.recommended_backend(), "cuda");
}

#[test]
fn test_memory_shortfall_flips_verdict() {
    // 3.8 billion parameters need 7.6 GB-scale memory; disk is plentiful.
    let phi3 = variant(38);

    let low = host(7 * GIB, 50 * GIB, 8, no_gpu());
    let (can_run, issues) = low.can_run_model(&phi3);
    assert!(!can_run);
    assert_eq!(issues.len(), 1);
    assert!(issues[0].starts_with("Insufficient memory"));

    let high = host(8 * GIB, 50 * GIB, 8, no_gpu());
    let (can_run, issues) = high.can_run_model(&phi3);
    assert!(can_run);
    assert!(issues.is_empty());
}

#[test]
fn test_disk_shortfall_flips_verdict() {
    let phi3 = variant(38);

    let low = host(8 * GIB, 15 * GIB, 8, no_gpu());
    let (can_run, issues) = low.can_run_model(&phi3);
    assert!(!can_run);
    assert_eq!(issues.len(), 1);
    assert!(issues[0].starts_with("Insufficient disk space"));
}

#[test]
fn test_insufficient_memory_issue() {
    // A two-billion-parameter variant needs a four-gigabyte memory scale;
    // one gigabyte available fails the memory check alone.
    let small = variant(20);
    let info = host(GIB, 10 * GIB, 8, no_gpu());

    let (can_run, issues) = info.can_run_model(&small);
    assert!(!can_run);
    assert_eq!(issues.len(), 1);
    assert_eq!(
        issues[0],
        "Insufficient memory: need ~4.0 GB, have 1.0 GB"
    );
}

#[test]
fn test_cpu_advisory_does_not_fail_verdict() {
    let phi3 = variant(38);
    let info = host(8 * GIB, 50 * GIB, 1, no_gpu());
    let (can_run, issues) = info.can_run_model(&phi3);
    assert!(can_run);
    assert_eq!(
        issues,
        vec!["Recommend at least 2 CPU cores for optimal performance".to_string()]
    );
}

#[test]
fn test_recommended_backend_priority() {
    let gpu = |cuda: bool, metal: bool, vulkan: bool| GpuInfo {
        has_cuda: cuda,
        has_metal: metal,
        has_vulkan: vulkan,
        device_count: 0,
    };
    let backend = |g: GpuInfo| host(0, 0, 1, g).recommended_backend();

    // CPU fallback when no accelerator is present.
    assert_eq!(backend(gpu(false, false, false)), "ndarray");
    // Each single-accelerator combination.
    assert_eq!(backend(gpu(true, false, false)), "cuda");
    assert_eq!(backend(gpu(false, true, false)), "metal");
    assert_eq!(backend(gpu(false, false, true)), "wgpu");
    // Priority order when several are present.
    assert_eq!(backend(gpu(true, true, true)), "cuda");
    assert_eq!(backend(gpu(false, true, true)), "metal");
}

#[test]
fn test_parse_memory_line() {
    assert_eq!(parse_memory_line("MemTotal:       16384 kB"), Ok(16384 * 1024));
    assert_eq!(parse_memory_line("MemAvailable: 8192 kB"), Ok(8192 * 1024));
    assert_eq!(parse_memory_line("MemTotal: +42 kB"), Ok(42 * 1024));
    assert_eq!(
        parse_memory_line("MemTotal:"),
        Err(MemoryParseError::InvalidFormat)
    );
    assert_eq!(parse_memory_line(""), Err(MemoryParseError::InvalidFormat));
    assert_eq!(
        parse_memory_line("MemTotal: abc kB"),
        Err(MemoryParseError::InvalidNumber)
    );
    assert_eq!(
        parse_memory_line("MemTotal: 99999999999999999999999 kB"),
        Err(MemoryParseError::InvalidNumber)
    );
    assert_eq!(
        parse_memory_line("MemTotal: 18014398509481984 kB"),
        Err(MemoryParseError::Overflow)
    );
}

#[test]
fn test_parse_meminfo() {
    let text = "MemTotal:       16384 kB\nMemFree:         1024 kB\nMemAvailable:    8192 kB\nBuffers:          512 kB\n";
    let mi = parse_meminfo(text).unwrap();
    assert_eq!(mi.total, 16384 * 1024);
    assert_eq!(mi.available, 8192 * 1024);

    // A missing field stays at the zero sentinel.
    let mi = parse_meminfo("MemTotal: 10 kB\n").unwrap();
    assert_eq!(mi.total, 10 * 1024);
    assert_eq!(mi.available, 0);

    // The last matching line wins.
    let mi = parse_meminfo("MemTotal: 1 kB\nMemTotal: 2 kB\n").unwrap();
    assert_eq!(mi.total, 2 * 1024);

    // A malformed matching line is an error.
    assert!(matches!(
        parse_meminfo("MemTotal: x kB\n"),
        Err(MemoryParseError::InvalidNumber)
    ));
}

#[test]
fn test_memory_info_or_unknown() {
    let mi = memory_info_or_unknown(Err(MemoryParseError::InvalidFormat));
    assert_eq!(mi.total, 0);
    assert_eq!(mi.available, 0);
    let mi = memory_info_or_unknown(Ok(MemoryInfo {
        total: 7,
        available: 3,
    }));
    assert_eq!(mi.total, 7);
    assert_eq!(mi.available, 3);
}

#[test]
fn test_platform_placeholders() {
    let mac = check_macos_memory();
    assert_eq!(mac.total, 8 * GIB);
    assert_eq!(mac.available, 4 * GIB);
    let win = check_windows_memory();
    assert_eq!(win.total, 16 * GIB);
    assert_eq!(win.available, 8 * GIB);
    let disk = placeholder_disk_info();
    assert_eq!(disk.total, 100 * GIB);
    assert_eq!(disk.available, 50 * GIB);
}

#[test]
fn test_system_requirements() {
    let info = check_system_requirements(check_windows_memory(), placeholder_disk_info(), no_gpu());
    assert!(info.cpu_cores > 0);
    assert_eq!(info.memory.total, 16 * GIB);
    assert_eq!(info.disk.available, 50 * GIB);
}
