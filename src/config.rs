//! The load configuration: how many workers run, and how much memory is held.
use vstd::prelude::*;
use crate::registry::{all_digits, digits_value};

verus! {

/// What bytesize reads from a human-readable size such as `512M` or `1GiB`.
pub uninterp spec fn byte_size_of(s: Seq<char>) -> Option<u64>;

/// Relies on bytesize's `FromStr for ByteSize`: the byte count that the text
/// denotes, `None` where it does not parse. A string of plain decimal digits
/// that fits in a `u64` is read as that many bytes.
#[verifier::external_body]
fn parse_byte_size(s: &str) -> (r: Option<u64>)
    ensures
        r == byte_size_of(s@),
        s@.len() > 0 && all_digits(s@) && digits_value(s@) <= u64::MAX ==> r == Some(
            digits_value(s@) as u64,
        ),
{
    s.parse::<bytesize::ByteSize>().ok().map(|b| b.as_u64())
}

/// Relies on `num_cpus::get`: the number of logical cores of this machine.
#[verifier::external_body]
fn logical_cores() -> (r: usize) {
    num_cpus::get()
}

/// The memory that a start asks to hold.
#[derive(Clone, Copy, Debug, PartialEq, Eq, Structural)]
pub enum MemoryRequest {
    /// No size was given: nothing is allocated.
    Absent,
    /// The size did not parse (or does not fit in memory's address range):
    /// nothing is allocated, and the operator is warned.
    Invalid,
    /// Hold this many bytes.
    Bytes(usize),
}

pub open spec fn request_of_size(size: Option<u64>) -> MemoryRequest {
    match size {
        None => MemoryRequest::Invalid,
        Some(n) => if n <= usize::MAX {
            MemoryRequest::Bytes(n as usize)
        } else {
            MemoryRequest::Invalid
        },
    }
}

pub open spec fn request_of_text(text: Option<Seq<char>>) -> MemoryRequest {
    match text {
        None => MemoryRequest::Absent,
        Some(t) => request_of_size(byte_size_of(t)),
    }
}

/// The request for a size that has already been read (`None`: it did not parse).
pub fn memory_request_of_size(size: Option<u64>) -> (r: MemoryRequest)
    ensures
        r == request_of_size(size),
{
    match size {
        None => MemoryRequest::Invalid,
        Some(n) => if n <= usize::MAX as u64 {
            MemoryRequest::Bytes(n as usize)
        } else {
            MemoryRequest::Invalid
        },
    }
}

/// The request for the text of a `--memory` option, if one was given.
pub fn memory_request(text: Option<&str>) -> (r: MemoryRequest)
    ensures
        r == request_of_text(
            match text {
                None => None,
                Some(t) => Some(t@),
            },
        ),
{
    match text {
        None => MemoryRequest::Absent,
        Some(t) => memory_request_of_size(parse_byte_size(t)),
    }
}

pub open spec fn min_nat(a: nat, b: nat) -> nat {
    if a <= b { a } else { b }
}

/// Workers that run for `requested` cores on a machine with `available`
/// logical cores: the request clamped to the machine, and at least one.
pub open spec fn clamp_cores(requested: nat, available: nat) -> nat {
    let m = min_nat(requested, available);
    if m >= 1 { m } else { 1 }
}

pub fn worker_count(requested: usize, available: usize) -> (r: usize)
    ensures
        r as nat == clamp_cores(requested as nat, available as nat),
{
    let m = if requested <= available { requested } else { available };
    if m >= 1 { m } else { 1 }
}

/// The core count used when none is given: half the machine, at least one.
pub fn default_cores(available: usize) -> (r: usize)
    ensures
        r == (if available / 2 >= 1 { available / 2 } else { 1 }),
{
    let h = available / 2;
    if h >= 1 { h } else { 1 }
}

/// The default core count on this machine.
pub fn default_core_count() -> (r: usize)
    ensures
        r >= 1,
{
    default_cores(logical_cores())
}

/// The configuration of one start, fixed before any worker runs.
#[derive(Clone, Copy, Debug, PartialEq, Eq, Structural)]
pub struct LoadConfig {
    /// Workers to run: at least one, at most the machine's logical cores.
    pub cores: usize,
    pub memory: MemoryRequest,
}

impl LoadConfig {
    /// The configuration for `requested` cores on a machine with `available`
    /// logical cores, and the given `--memory` text.
    pub fn new(requested: usize, available: usize, memory: Option<&str>) -> (r: LoadConfig)
        ensures
            r.cores as nat == clamp_cores(requested as nat, available as nat),
            r.memory == request_of_text(
                match memory {
                    None => None,
                    Some(t) => Some(t@),
                },
            ),
    {
        LoadConfig { cores: worker_count(requested, available), memory: memory_request(memory) }
    }

    /// The configuration for `requested` cores on this machine.
    pub fn for_this_machine(requested: usize, memory: Option<&str>) -> (r: LoadConfig)
        ensures
            1 <= r.cores,
            requested >= 1 ==> r.cores <= requested,
            r.memory == request_of_text(
                match memory {
                    None => None,
                    Some(t) => Some(t@),
                },
            ),
    {
        LoadConfig::new(requested, logical_cores(), memory)
    }

    /// The bytes to hold, if any.
    pub fn reservation(&self) -> (r: Option<usize>)
        ensures
            r == reservation_of(self.memory),
    {
        match self.memory {
            MemoryRequest::Bytes(n) => Some(n),
            _ => None,
        }
    }
}

pub open spec fn reservation_of(m: MemoryRequest) -> Option<usize> {
    match m {
        MemoryRequest::Bytes(n) => Some(n),
        _ => None,
    }
}

/// A zero-filled block of `n` bytes, held to put the machine's memory under
/// pressure.
pub fn reserve_memory(n: usize) -> (r: Vec<u8>)
    ensures
        r@ == Seq::new(n as nat, |i: int| 0u8),
{
    let r = vec![0u8; n];
    assert(r@ =~= Seq::new(n as nat, |i: int| 0u8));
    r
}

/// With at least one core requested, the workers number the smaller of the
/// request and the machine's logical cores.
pub proof fn lemma_worker_count(requested: nat, available: nat)
    requires
        requested >= 1,
        available >= 1,
    ensures
        clamp_cores(requested, available) == min_nat(requested, available),
{
}

} // verus!
