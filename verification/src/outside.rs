//! Types and functions of other crates, with what the proofs rest on.

use vm_memory::GuestMemory;
use vstd::prelude::*;

verus! {

/// `std::io::Error`: carried from the failed operation to the caller, never looked into.
#[verifier::external_type_specification]
#[verifier::external_body]
pub struct ExIoError(std::io::Error);

/// `std::io::ErrorKind`: what sort of failure an I/O error is.
#[verifier::external_type_specification]
pub struct ExErrorKind(std::io::ErrorKind);

/// What `std::io::Error::new` returns for a kind and a message.
pub uninterp spec fn io_error(kind: std::io::ErrorKind, message: Seq<char>) -> std::io::Error;

/// Calls `std::io::Error::new`: the I/O error of the given kind with the given message. The error is
/// named by the two; what can be read back from it is not spoken of.
#[verifier::external_body]
pub(crate) fn new_io_error(kind: std::io::ErrorKind, message: &'static str) -> (e: std::io::Error)
    ensures
        e == io_error(kind, message@),
{
    std::io::Error::new(kind, message)
}

/// `vmm_sys_util::errno::Error`: carried from the failed operation to the caller, never looked into.
#[verifier::external_type_specification]
#[verifier::external_body]
pub struct ExErrnoError(vmm_sys_util::errno::Error);

/// `vm_memory::GuestRegionCollection`: the regions that make up the memory of a guest.
#[verifier::external_type_specification]
#[verifier::external_body]
#[verifier::reject_recursive_types(R)]
pub struct ExGuestRegionCollection<R>(vm_memory::GuestRegionCollection<R>);

/// `vm_memory::GuestRegionMmap`: one region of guest memory, mapped into this process.
#[verifier::external_type_specification]
#[verifier::external_body]
#[verifier::reject_recursive_types(B)]
pub struct ExGuestRegionMmap<B>(vm_memory::GuestRegionMmap<B>);

/// What a guest memory holds: each guest-physical address that a region of it contains, with the
/// host virtual address at which that region maps it.
pub uninterp spec fn host_addresses(
    memory: vm_memory::GuestRegionCollection<vm_memory::GuestRegionMmap<()>>,
) -> Map<u64, u64>;

/// Calls `vm_memory::GuestMemory::get_host_address`: the host address of a guest-physical address
/// that lies in a region of the memory, and nothing for one that lies in none. The outside error is
/// dropped.
#[verifier::external_body]
pub(crate) fn host_address(memory: &vm_memory::GuestMemoryMmap<()>, gpa: u64) -> (r: Option<u64>)
    ensures
        r == (if host_addresses(*memory).contains_key(gpa) {
            Some(host_addresses(*memory)[gpa])
        } else {
            None::<u64>
        }),
{
    memory.get_host_address(vm_memory::GuestAddress(gpa)).ok().map(|p| p as u64)
}

/// The number that bytes spell with the least significant byte first.
pub open spec fn little_endian_value(bytes: Seq<u8>) -> nat
    decreases bytes.len(),
{
    if bytes.len() == 0 {
        0
    } else {
        bytes.first() as nat + 256 * little_endian_value(bytes.drop_first())
    }
}

/// The number that bytes spell in the byte order of the machine that runs the code.
pub open spec fn native_value(bytes: Seq<u8>) -> nat {
    match vstd::endian::endianness() {
        vstd::endian::Endian::Little => little_endian_value(bytes),
        vstd::endian::Endian::Big => little_endian_value(bytes.reverse()),
    }
}

/// Calls `u64::from_ne_bytes`: the number whose memory representation, in the byte order of the
/// machine, is the given bytes.
#[verifier::external_body]
pub(crate) fn u64_from_ne_bytes(bytes: [u8; 8]) -> (value: u64)
    ensures
        value == native_value(bytes@),
{
    u64::from_ne_bytes(bytes)
}

/// `semver::Prerelease`: the pre-release part of a version, never looked into.
#[verifier::external_type_specification]
#[verifier::external_body]
pub struct ExPrerelease(semver::Prerelease);

/// `semver::BuildMetadata`: the build part of a version, never looked into.
#[verifier::external_type_specification]
#[verifier::external_body]
pub struct ExBuildMetadata(semver::BuildMetadata);

/// `semver::Version`: a version, by its public fields.
#[verifier::external_type_specification]
pub struct ExVersion(semver::Version);

/// What `semver::Version::new` returns for three numbers.
pub uninterp spec fn version_of(major: u64, minor: u64, patch: u64) -> semver::Version;

/// `semver::Version::new`: the version with these numbers. It is named by the three, which fixes its
/// pre-release and build parts too; that these are empty is not spoken of.
pub assume_specification[ semver::Version::new ](major: u64, minor: u64, patch: u64) -> (v:
    semver::Version)
    ensures
        v == version_of(major, minor, patch),
        v.major == major,
        v.minor == minor,
        v.patch == patch,
;

} // verus!
