//! The capability advisor: a snapshot of host resources and the judgment
//! whether a given model variant can run on them.
//!
//! The feasibility arithmetic is platform-independent and fully verified
//! here.  The platform probes themselves (memory, disk, accelerators) are
//! I/O and stay with the caller, which hands their results in as plain
//! values; a probe that fails is degraded to the zero sentinel rather than
//! propagated, since capability checks are advisory.

use crate::format_bytes;
use crate::phi_models::PhiModel;
use crate::spec_format_bytes;
use crate::strutil::{
    spec_lines, spec_split_ws, spec_starts_with, split_lines_vec, split_whitespace_vec,
    str_starts_with,
};
use vstd::prelude::*;
use vstd::string::StringExecFns;

verus! {

/// Failure of parsing a memory line.
#[derive(Clone, Copy, Debug, PartialEq, Eq, Structural)]
pub enum MemoryParseError {
    /// The line does not have the expected field layout.
    InvalidFormat,
    /// The size field is not an unsigned decimal number.
    InvalidNumber,
    /// The size in bytes does not fit the byte counter.
    Overflow,
}

/// A decimal digit.
pub open spec fn spec_is_digit(c: char) -> bool {
    '0' <= c && c <= '9'
}

/// The numeric value of a digit character.
pub open spec fn spec_digit_val(c: char) -> int {
    c as int - '0' as int
}

/// The value of a digit string, most significant digit first.
pub open spec fn spec_dec_value(s: Seq<char>) -> int
    decreases s.len(),
{
    if s.len() == 0 {
        0
    } else {
        spec_dec_value(s.drop_last()) * 10 + spec_digit_val(s.last())
    }
}

/// A digit string has a non-negative value.
pub proof fn lemma_dec_value_nonneg(s: Seq<char>)
    requires
        forall|i: int| 0 <= i < s.len() ==> spec_is_digit(#[trigger] s[i]),
    ensures
        spec_dec_value(s) >= 0,
    decreases s.len(),
{
    if s.len() > 0 {
        lemma_dec_value_nonneg(s.drop_last());
    }
}

/// Extending a digit string never shrinks its value.
pub proof fn lemma_dec_value_prefix(s: Seq<char>, k: int)
    requires
        0 <= k <= s.len(),
        forall|i: int| 0 <= i < s.len() ==> spec_is_digit(#[trigger] s[i]),
    ensures
        spec_dec_value(s.take(k)) <= spec_dec_value(s),
    decreases s.len() - k,
{
    if k == s.len() {
        assert(s.take(k) =~= s);
    } else {
        assert(s.take(k + 1).drop_last() =~= s.take(k));
        assert(s.take(k + 1).last() == s[k]);
        assert forall|i: int| 0 <= i < s.take(k).len() implies spec_is_digit(
            #[trigger] s.take(k)[i],
        ) by {
            assert(s.take(k)[i] == s[i]);
        }
        lemma_dec_value_nonneg(s.take(k));
        assert(spec_dec_value(s.take(k + 1)) >= spec_dec_value(s.take(k)));
        lemma_dec_value_prefix(s, k + 1);
    }
}

/// A token without its optional leading plus sign.
pub open spec fn spec_strip_plus(s: Seq<char>) -> Seq<char> {
    if s.len() > 0 && s[0] == '+' {
        s.drop_first()
    } else {
        s
    }
}

/// Whether every character is a decimal digit.
pub open spec fn spec_all_digits(s: Seq<char>) -> bool {
    forall|i: int| 0 <= i < s.len() ==> spec_is_digit(#[trigger] s[i])
}

/// What `str::parse::<u64>` makes of a token: its value, when it is an
/// unsigned decimal number (an optional leading plus sign, then digits) that
/// fits in a `u64`.
pub open spec fn spec_parse_u64(s: Seq<char>) -> Result<u64, MemoryParseError> {
    let digits = spec_strip_plus(s);
    if digits.len() == 0 || !spec_all_digits(digits) {
        Err(MemoryParseError::InvalidNumber)
    } else if spec_dec_value(digits) > u64::MAX {
        Err(MemoryParseError::InvalidNumber)
    } else {
        Ok(spec_dec_value(digits) as u64)
    }
}

/// Parses a token as an unsigned decimal number.
pub fn parse_u64(s: &str) -> (r: Result<u64, MemoryParseError>)
    ensures
        r == spec_parse_u64(s@),
{
    let n = s.unicode_len();
    let start: usize = if n > 0 && s.get_char(0) == '+' {
        1
    } else {
        0
    };
    let ghost digits = spec_strip_plus(s@);
    proof {
        assert(digits.len() == n - start);
        assert(forall|i: int| 0 <= i < digits.len() ==> digits[i] == s@[i + start]);
    }
    if n == start {
        return Err(MemoryParseError::InvalidNumber);
    }
    let mut acc: u64 = 0;
    let mut i: usize = start;
    while i < n
        invariant
            start <= i <= n,
            n == s@.len(),
            start <= 1,
            (start == 1) == (n > 0 && s@[0] == '+'),
            digits == spec_strip_plus(s@),
            digits.len() == n - start,
            forall|j: int| 0 <= j < digits.len() ==> #[trigger] digits[j] == s@[j + start],
            forall|j: int| 0 <= j < i - start ==> spec_is_digit(#[trigger] digits[j]),
            acc == spec_dec_value(digits.take(i - start)),
        decreases n - i,
    {
        let c = s.get_char(i);
        if !(c >= '0' && c <= '9') {
            proof {
                assert(!spec_is_digit(digits[i - start]));
                assert(!spec_all_digits(digits));
            }
            return Err(MemoryParseError::InvalidNumber);
        }
        let d: u64 = (c as u32 - '0' as u32) as u64;
        assert(d == spec_digit_val(digits[i - start]));
        proof {
            assert(digits.take(i - start + 1).drop_last() =~= digits.take(i - start));
            assert(digits.take(i - start + 1).last() == digits[i - start]);
        }
        if acc > (u64::MAX - d) / 10 {
            proof {
                assert(acc * 10 + d > u64::MAX) by (nonlinear_arith)
                    requires
                        acc > (u64::MAX - d) / 10,
                        d <= 9,
                ;
                assert(spec_dec_value(digits.take(i - start + 1)) > u64::MAX);
                if spec_all_digits(digits) {
                    lemma_dec_value_prefix(digits, i - start + 1);
                    assert(spec_dec_value(digits) > u64::MAX);
                }
            }
            return Err(MemoryParseError::InvalidNumber);
        }
        proof {
            assert(acc * 10 + d <= u64::MAX) by (nonlinear_arith)
                requires
                    acc <= (u64::MAX - d) / 10,
                    d <= 9,
            ;
        }
        acc = acc * 10 + d;
        i = i + 1;
    }
    proof {
        assert(digits.take(n - start) =~= digits);
    }
    Ok(acc)
}

/// What parsing one line of the memory table yields: the second
/// whitespace-separated field read as a kilobyte count and scaled to bytes.
/// A missing field, a malformed number, and a byte count beyond `u64` are
/// each reported distinctly.
pub open spec fn spec_parse_memory_line(s: Seq<char>) -> Result<u64, MemoryParseError> {
    let toks = spec_split_ws(s);
    if toks.len() < 2 {
        Err(MemoryParseError::InvalidFormat)
    } else {
        match spec_parse_u64(toks[1]) {
            Err(e) => Err(e),
            Ok(kb) => if kb > u64::MAX / 1024 {
                Err(MemoryParseError::Overflow)
            } else {
                Ok((kb * 1024) as u64)
            },
        }
    }
}

/// Parses one line of the memory table, e.g. `"MemTotal: 16384 kB"`: the
/// second whitespace-separated field is read as a kilobyte count and scaled
/// to bytes.
pub fn parse_memory_line(line: &str) -> (r: Result<u64, MemoryParseError>)
    ensures
        r == spec_parse_memory_line(line@),
{
    let toks = split_whitespace_vec(line);
    if toks.len() < 2 {
        return Err(MemoryParseError::InvalidFormat);
    }
    proof {
        assert(toks.deep_view()[1] == toks@[1]@);
    }
    match parse_u64(toks[1].as_str()) {
        Err(e) => Err(e),
        Ok(kb) => {
            if kb > u64::MAX / 1024 {
                Err(MemoryParseError::Overflow)
            } else {
                assert(kb * 1024 <= u64::MAX) by (nonlinear_arith)
                    requires
                        kb <= u64::MAX / 1024,
                ;
                Ok(kb * 1024)
            }
        },
    }
}

/// What scanning the memory table yields, line by line: the last
/// successfully matched `MemTotal:` and `MemAvailable:` lines win, lines of
/// any other shape are ignored, and a matching line that fails to parse
/// stops the scan with its error.
pub open spec fn spec_scan_meminfo(lines: Seq<Seq<char>>, total: u64, available: u64) -> Result<
    (u64, u64),
    MemoryParseError,
>
    decreases lines.len(),
{
    if lines.len() == 0 {
        Ok((total, available))
    } else {
        let line = lines[0];
        if spec_starts_with(line, "MemTotal:"@) {
            match spec_parse_memory_line(line) {
                Err(e) => Err(e),
                Ok(v) => spec_scan_meminfo(lines.drop_first(), v, available),
            }
        } else if spec_starts_with(line, "MemAvailable:"@) {
            match spec_parse_memory_line(line) {
                Err(e) => Err(e),
                Ok(v) => spec_scan_meminfo(lines.drop_first(), total, v),
            }
        } else {
            spec_scan_meminfo(lines.drop_first(), total, available)
        }
    }
}

/// Parses the platform's memory table (the format of `/proc/meminfo`):
/// every line is scanned, the last `MemTotal:` and `MemAvailable:` lines
/// determine the result, and a field that is missing altogether is reported
/// as zero.
pub fn parse_meminfo(text: &str) -> (r: Result<MemoryInfo, MemoryParseError>)
    ensures
        match r {
            Ok(mi) => spec_scan_meminfo(spec_lines(text@), 0, 0) == Ok::<_, MemoryParseError>(
                (mi.total, mi.available),
            ),
            Err(e) => spec_scan_meminfo(spec_lines(text@), 0, 0) == Err::<(u64, u64), _>(e),
        },
{
    let lines = split_lines_vec(text);
    let mut total: u64 = 0;
    let mut available: u64 = 0;
    let n = lines.len();
    proof {
        assert(lines.deep_view().skip(0) =~= lines.deep_view());
    }
    for i in 0..n
        invariant
            n == lines.len(),
            lines.deep_view() == spec_lines(text@),
            spec_scan_meminfo(spec_lines(text@), 0, 0) == spec_scan_meminfo(
                lines.deep_view().skip(i as int),
                total,
                available,
            ),
    {
        proof {
            assert(lines.deep_view().skip(i as int)[0] == lines@[i as int]@);
            assert(lines.deep_view().skip(i as int).drop_first() =~= lines.deep_view().skip(
                i + 1,
            ));
        }
        let line = lines[i].as_str();
        if str_starts_with(line, "MemTotal:") {
            match parse_memory_line(line) {
                Ok(v) => {
                    total = v;
                },
                Err(e) => {
                    return Err(e);
                },
            }
        } else if str_starts_with(line, "MemAvailable:") {
            match parse_memory_line(line) {
                Ok(v) => {
                    available = v;
                },
                Err(e) => {
                    return Err(e);
                },
            }
        }
    }
    proof {
        assert(lines.deep_view().skip(n as int) =~= Seq::<Seq<char>>::empty());
    }
    Ok(MemoryInfo { total, available })
}

/// Degrades a failed memory probe to the zero sentinel: capability checks
/// are advisory and must not fail outright.
pub fn memory_info_or_unknown(probe: Result<MemoryInfo, MemoryParseError>) -> (r: MemoryInfo)
    ensures
        match probe {
            Ok(mi) => r == mi,
            Err(_) => r.total == 0 && r.available == 0,
        },
{
    match probe {
        Ok(mi) => mi,
        Err(_) => MemoryInfo { total: 0, available: 0 },
    }
}

/// Host memory, in bytes.  Zero stands for "unknown".
#[derive(Clone, Copy, Debug)]
pub struct MemoryInfo {
    /// Total memory in bytes.
    pub total: u64,
    /// Available memory in bytes.
    pub available: u64,
}

/// Host disk space, in bytes.  Zero stands for "unknown".
#[derive(Clone, Copy, Debug)]
pub struct DiskInfo {
    /// Total disk space in bytes.
    pub total: u64,
    /// Available disk space in bytes.
    pub available: u64,
}

/// Which compute accelerators the host offers.
#[derive(Clone, Copy, Debug)]
pub struct GpuInfo {
    /// A CUDA device is present.
    pub has_cuda: bool,
    /// A Metal device is present.
    pub has_metal: bool,
    /// A Vulkan device is present.
    pub has_vulkan: bool,
    /// Number of accelerator devices.
    pub device_count: usize,
}

/// A snapshot of the host's resources, taken fresh for each query.
#[derive(Clone, Copy, Debug)]
pub struct SystemInfo {
    /// Memory snapshot.
    pub memory: MemoryInfo,
    /// Disk snapshot.
    pub disk: DiskInfo,
    /// Number of logical CPU cores.
    pub cpu_cores: usize,
    /// Accelerator snapshot.
    pub gpu: GpuInfo,
}

/// Assumed bytes of memory per model parameter: half-precision weights.
pub const BYTES_PER_PARAMETER: u64 = 2;

/// Estimated memory a variant needs: its parameter count (in tenths of a
/// billion) times [`BYTES_PER_PARAMETER`], on the gigabyte scale.
pub open spec fn spec_required_memory(tenths: nat) -> int {
    tenths * BYTES_PER_PARAMETER * 0x40000000 / 10
}

/// Estimated disk a variant needs: twice its memory estimate, for the
/// artifact plus working cache.
pub open spec fn spec_required_disk(tenths: nat) -> int {
    2 * spec_required_memory(tenths)
}

/// The issue string reported on a memory shortfall.
pub open spec fn spec_memory_issue(need: u64, have: u64) -> Seq<char> {
    "Insufficient memory: need ~"@ + spec_format_bytes(need) + ", have "@ + spec_format_bytes(have)
}

/// The issue string reported on a disk shortfall.
pub open spec fn spec_disk_issue(need: u64, have: u64) -> Seq<char> {
    "Insufficient disk space: need ~"@ + spec_format_bytes(need) + ", have "@ + spec_format_bytes(
        have,
    )
}

/// The advisory issue string reported on a low core count.
pub open spec fn spec_cpu_issue() -> Seq<char> {
    "Recommend at least 2 CPU cores for optimal performance"@
}

impl SystemInfo {
    /// Whether available memory covers the variant's memory estimate.
    pub open spec fn spec_memory_ok(&self, tenths: nat) -> bool {
        self.memory.available >= spec_required_memory(tenths)
    }

    /// Whether available disk covers the variant's disk estimate.
    pub open spec fn spec_disk_ok(&self, tenths: nat) -> bool {
        self.disk.available >= spec_required_disk(tenths)
    }

    /// The verdict of the feasibility check: both hard checks pass.  The
    /// core-count check is advisory and never fails the verdict.
    pub open spec fn spec_can_run(&self, tenths: nat) -> bool {
        self.spec_memory_ok(tenths) && self.spec_disk_ok(tenths)
    }

    /// The ordered issue list of the feasibility check: a memory shortfall,
    /// a disk shortfall, and the core-count advisory, each present exactly
    /// when its check fires.
    pub open spec fn spec_run_issues(&self, tenths: nat) -> Seq<Seq<char>> {
        (if !self.spec_memory_ok(tenths) {
            seq![
                spec_memory_issue(
                    spec_required_memory(tenths) as u64,
                    self.memory.available,
                ),
            ]
        } else {
            Seq::empty()
        }) + (if !self.spec_disk_ok(tenths) {
            seq![spec_disk_issue(spec_required_disk(tenths) as u64, self.disk.available)]
        } else {
            Seq::empty()
        }) + (if self.cpu_cores < 2 {
            seq![spec_cpu_issue()]
        } else {
            Seq::empty()
        })
    }

    /// Judges whether this host can run `model`: the verdict is false
    /// exactly when available memory or available disk falls short of the
    /// variant's estimates, and each firing check contributes its issue
    /// string, in a fixed order.
    pub fn can_run_model(&self, model: &PhiModel) -> (r: (bool, Vec<String>))
        requires
            model@.wf(),
        ensures
            r.0 == self.spec_can_run(model@.parameter_count_tenths),
            r.1.deep_view() == self.spec_run_issues(model@.parameter_count_tenths),
    {
        let ghost tenths = model@.parameter_count_tenths;
        let required_memory = required_memory_bytes(model);
        let required_disk = 2 * required_memory;
        assert(required_disk == spec_required_disk(tenths));
        let mut can_run = true;
        let mut issues: Vec<String> = Vec::new();

        if self.memory.available < required_memory {
            can_run = false;
            let mut msg = String::new();
            msg.append("Insufficient memory: need ~");
            let need = format_bytes(required_memory);
            msg.append(need.as_str());
            msg.append(", have ");
            let have = format_bytes(self.memory.available);
            msg.append(have.as_str());
            assert(msg@ == spec_memory_issue(spec_required_memory(tenths) as u64,
                self.memory.available));
            issues.push(msg);
        }

        if self.disk.available < required_disk {
            can_run = false;
            let mut msg = String::new();
            msg.append("Insufficient disk space: need ~");
            let need = format_bytes(required_disk);
            msg.append(need.as_str());
            msg.append(", have ");
            let have = format_bytes(self.disk.available);
            msg.append(have.as_str());
            assert(msg@ == spec_disk_issue(spec_required_disk(tenths) as u64,
                self.disk.available));
            issues.push(msg);
        }

        if self.cpu_cores < 2 {
            issues.push("Recommend at least 2 CPU cores for optimal performance".to_owned());
        }

        proof {
            assert(issues.deep_view() =~~= self.spec_run_issues(tenths));
        }
        (can_run, issues)
    }

    /// The backend identifier preferred on this host, in the fixed priority
    /// order CUDA, then Metal, then Vulkan, with the CPU fallback always
    /// valid.
    pub fn recommended_backend(&self) -> (r: &'static str)
        ensures
            r@ == spec_recommended_backend(self.gpu),
    {
        if self.gpu.has_cuda {
            "cuda"
        } else if self.gpu.has_metal {
            "metal"
        } else if self.gpu.has_vulkan {
            "wgpu"
        } else {
            "ndarray"
        }
    }
}

/// The backend chosen for a host with accelerators `gpu`: the first present
/// accelerator in priority order, or the CPU fallback.
pub open spec fn spec_recommended_backend(gpu: GpuInfo) -> Seq<char> {
    if gpu.has_cuda {
        "cuda"@
    } else if gpu.has_metal {
        "metal"@
    } else if gpu.has_vulkan {
        "wgpu"@
    } else {
        "ndarray"@
    }
}

/// The variant's memory estimate as a byte count; exact because the
/// well-formedness bound keeps it (and its doubling for disk) within `u64`.
pub fn required_memory_bytes(model: &PhiModel) -> (r: u64)
    requires
        model@.wf(),
    ensures
        r == spec_required_memory(model@.parameter_count_tenths),
        2 * r <= u64::MAX,
{
    let num: u128 = (model.parameter_count_tenths as u128) * (BYTES_PER_PARAMETER as u128)
        * 0x40000000;
    let q: u128 = num / 10;
    proof {
        assert(num <= 40000000000u128 * 2 * 0x40000000) by (nonlinear_arith)
            requires
                num == model.parameter_count_tenths as u128 * 2 * 0x40000000,
                model.parameter_count_tenths <= 40000000000u64,
        ;
        assert(q <= 40000000000u128 * 2 * 0x40000000 / 10) by (nonlinear_arith)
            requires
                num <= 40000000000u128 * 2 * 0x40000000,
                q == num / 10,
        ;
    }
    q as u64
}

/// Memory snapshot used on hosts without a wired-up memory query: fixed
/// placeholder values of eight gigabytes total, half of them available.
pub fn check_macos_memory() -> (r: MemoryInfo)
    ensures
        r.total == 8 * 1024 * 1024 * 1024,
        r.available == 4 * 1024 * 1024 * 1024,
{
    MemoryInfo { total: 8 * 1024 * 1024 * 1024, available: 4 * 1024 * 1024 * 1024 }
}

/// Memory snapshot used on hosts without a wired-up memory query: fixed
/// placeholder values of sixteen gigabytes total, half of them available.
pub fn check_windows_memory() -> (r: MemoryInfo)
    ensures
        r.total == 16 * 1024 * 1024 * 1024,
        r.available == 8 * 1024 * 1024 * 1024,
{
    MemoryInfo { total: 16 * 1024 * 1024 * 1024, available: 8 * 1024 * 1024 * 1024 }
}

/// Disk snapshot used until a real free-space query is wired up: fixed
/// placeholder values of one hundred gigabytes total, half of them
/// available.
pub fn placeholder_disk_info() -> (r: DiskInfo)
    ensures
        r.total == 100 * 1024 * 1024 * 1024,
        r.available == 50 * 1024 * 1024 * 1024,
{
    DiskInfo { total: 100 * 1024 * 1024 * 1024, available: 50 * 1024 * 1024 * 1024 }
}

/// Relies on `num_cpus::get`: the number of available logical CPUs, which
/// its documentation promises to be at least one.
#[verifier::external_body]
fn cpu_count() -> (r: usize)
    ensures
        1 <= r,
{
    num_cpus::get()
}

/// Assembles a snapshot of the host: the caller supplies what its platform
/// probes found (degraded to zero values on probe errors), and the CPU core
/// count is queried here.
pub fn check_system_requirements(memory: MemoryInfo, disk: DiskInfo, gpu: GpuInfo) -> (r:
    SystemInfo)
    ensures
        r.memory == memory,
        r.disk == disk,
        r.gpu == gpu,
        1 <= r.cpu_cores,
{
    SystemInfo { memory, disk, cpu_cores: cpu_count(), gpu }
}

} // verus!
