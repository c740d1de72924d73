//! Guest memory of a restored microVM, run against a simulated file system.

use std::collections::BTreeMap;
use std::io::{Error, ErrorKind};

use vmm::persist::error::{
    GuestMemoryFromFileError, GuestMemoryFromUffdError, MemoryError, UffdError,
};
use vmm::persist::memory_file::{
    guest_memory_from_file, guest_memory_from_shared_file, FileAction, FileEvent,
    SharedFileAction, SharedFileEvent, FICLONE,
};
use vmm::persist::uffd::{
    create_guest_memory, guest_memory_from_uffd, GuestRegionUffdMapping, MappedRegion, UffdAction,
    UffdEvent,
};
use vmm::vmm_config::HugePageConfig;
use vmm::vstate::memory::{GuestMemoryRegionState, GuestMemoryState, GuestRegionType};

fn io_error() -> Error {
    Error::new(ErrorKind::Other, "simulated")
}

fn memory_error() -> MemoryError {
    MemoryError("simulated".to_string())
}

fn single_region_memory_state(size: usize) -> GuestMemoryState {
    GuestMemoryState {
        regions: vec![GuestMemoryRegionState {
            base_address: 0,
            size,
            region_type: GuestRegionType::Dram,
            plugged: vec![true],
        }],
    }
}

/// Maps each region somewhere in a simulated address space.
fn map_anonymous(regions: &[(u64, usize)]) -> Vec<MappedRegion> {
    regions
        .iter()
        .map(|(gpa, size)| MappedRegion {
            host_addr: 0x7f00_0000_0000 + gpa,
            size: *size,
        })
        .collect()
}

/// What goes wrong in a simulated file system.
#[derive(Default)]
struct Faults {
    no_clone: bool,
    open_source: bool,
    stat_source: bool,
    create_target: bool,
    truncate: bool,
    rewind_source: bool,
    rewind_target: bool,
    measure: bool,
    copy: bool,
    source_grows: bool,
}

/// Files by path; a file that is not regular has no contents.
struct Files {
    files: BTreeMap<String, Option<Vec<u8>>>,
    faults: Faults,
}

impl Files {
    fn new(faults: Faults) -> Files {
        Files {
            files: BTreeMap::new(),
            faults,
        }
    }

    fn holds(&self, path: &str) -> bool {
        self.files.contains_key(path)
    }

    fn bytes(&self, path: &str) -> &[u8] {
        self.files[path].as_ref().unwrap()
    }

    fn io(failing: bool) -> Result<(), Error> {
        if failing {
            Err(io_error())
        } else {
            Ok(())
        }
    }
}

/// Restores guest memory from a source file by a live file; returns what was done and the result.
fn restore_shared(
    files: &mut Files,
    source: &str,
    live: &str,
    mem_state: &GuestMemoryState,
    track_dirty_pages: bool,
) -> (Vec<&'static str>, Result<(), GuestMemoryFromFileError>) {
    let (mut job, mut action) = guest_memory_from_shared_file(
        &source.to_string(),
        &live.to_string(),
        mem_state,
        track_dirty_pages,
    );
    let mut done = Vec::new();
    loop {
        let (name, event) = match action {
            SharedFileAction::CheckTarget { path } => {
                assert_eq!(path, live);
                ("check", SharedFileEvent::TargetChecked(files.holds(live)))
            }
            SharedFileAction::OpenSource { path } => {
                assert_eq!(path, source);
                (
                    "open",
                    SharedFileEvent::SourceOpened(Files::io(files.faults.open_source)),
                )
            }
            SharedFileAction::CheckSource => (
                "stat",
                SharedFileEvent::SourceChecked(
                    Files::io(files.faults.stat_source).map(|()| files.files[source].is_some()),
                ),
            ),
            SharedFileAction::CreateTarget { path } => {
                let r = Files::io(files.faults.create_target);
                if r.is_ok() {
                    files.files.insert(path, Some(Vec::new()));
                }
                ("create", SharedFileEvent::TargetCreated(r))
            }
            SharedFileAction::CloneExtents => {
                if !files.faults.no_clone {
                    let bytes = files.files[source].clone();
                    files.files.insert(live.to_string(), bytes);
                }
                (
                    "clone",
                    SharedFileEvent::ExtentsCloned(!files.faults.no_clone),
                )
            }
            SharedFileAction::TruncateTarget => (
                "truncate",
                SharedFileEvent::TargetTruncated(Files::io(files.faults.truncate)),
            ),
            SharedFileAction::RewindSource => (
                "rewind source",
                SharedFileEvent::SourceRewound(Files::io(files.faults.rewind_source)),
            ),
            SharedFileAction::RewindTarget => (
                "rewind live",
                SharedFileEvent::TargetRewound(Files::io(files.faults.rewind_target)),
            ),
            SharedFileAction::MeasureSource => (
                "measure",
                SharedFileEvent::SourceMeasured(
                    Files::io(files.faults.measure).map(|()| files.bytes(source).len() as u64),
                ),
            ),
            SharedFileAction::CopySource => {
                let mut bytes = files.bytes(source).to_vec();
                if files.faults.source_grows {
                    bytes.push(0);
                }
                let copied = bytes.len() as u64;
                let r = Files::io(files.faults.copy).map(|()| copied);
                files.files.insert(live.to_string(), Some(bytes));
                ("copy", SharedFileEvent::SourceCopied(r))
            }
            SharedFileAction::MapTarget {
                regions,
                track_dirty_pages: track,
            } => {
                assert_eq!(track, track_dirty_pages);
                let needed: usize = regions.iter().map(|(_, size)| size).sum();
                let r = if files.bytes(live).len() < needed {
                    Err(memory_error())
                } else {
                    Ok(())
                };
                ("map", SharedFileEvent::TargetMapped(r))
            }
            SharedFileAction::RemoveTarget { path } => {
                files.files.remove(&path);
                ("remove", SharedFileEvent::TargetRemoved)
            }
            SharedFileAction::Finished(result) => return (done, result),
        };
        done.push(name);
        let next = job.step(event);
        job = next.0;
        action = next.1;
    }
}

fn with_source(bytes: &[u8], faults: Faults) -> Files {
    let mut files = Files::new(faults);
    files
        .files
        .insert("source".to_string(), Some(bytes.to_vec()));
    files
}

#[test]
fn test_create_guest_memory() {
    let mem_state = GuestMemoryState {
        regions: vec![GuestMemoryRegionState {
            base_address: 0,
            size: 0x20000,
            region_type: GuestRegionType::Dram,
            plugged: vec![true],
        }],
    };

    let mapped = map_anonymous(&mem_state.regions());
    let (_, uffd_regions) =
        create_guest_memory(Ok(mapped), HugePageConfig::NoHugePages).unwrap();

    assert_eq!(uffd_regions.len(), 1);
    assert_eq!(uffd_regions[0].size, 0x20000);
    assert_eq!(uffd_regions[0].offset, 0);
    assert_eq!(
        uffd_regions[0].page_size,
        HugePageConfig::NoHugePages.page_size()
    );
}

#[test]
fn mappings_follow_one_another_in_the_backend() {
    let regions = vec![
        MappedRegion {
            host_addr: 0x1000_0000,
            size: 0x100000,
        },
        MappedRegion {
            host_addr: 0x5000_0000,
            size: 0x200000,
        },
        MappedRegion {
            host_addr: 0x3000_0000,
            size: 0x1000,
        },
    ];
    let (kept, mappings) =
        create_guest_memory(Ok(regions.clone()), HugePageConfig::Hugetlbfs2M).unwrap();
    assert_eq!(kept, regions);
    let mapping = |base_host_virt_addr: u64, size: usize, offset: u64| GuestRegionUffdMapping {
        base_host_virt_addr,
        size,
        offset,
        page_size: 2 * 1024 * 1024,
        page_size_kib: 2 * 1024 * 1024,
    };
    assert_eq!(
        mappings,
        vec![
            mapping(0x1000_0000, 0x100000, 0),
            mapping(0x5000_0000, 0x200000, 0x100000),
            mapping(0x3000_0000, 0x1000, 0x300000),
        ]
    );
    assert!(matches!(
        create_guest_memory(Err(memory_error()), HugePageConfig::NoHugePages),
        Err(GuestMemoryFromUffdError::Restore(_))
    ));
}

#[test]
fn huge_pages_have_their_sizes() {
    assert_eq!(HugePageConfig::NoHugePages.page_size(), 4096);
    assert_eq!(HugePageConfig::Hugetlbfs2M.page_size(), 2097152);
    assert!(!HugePageConfig::default().is_hugetlbfs());
    assert!(HugePageConfig::Hugetlbfs2M.is_hugetlbfs());
}

#[test]
fn test_guest_memory_from_shared_file_isolates_checkpoint() {
    for no_clone in [false, true] {
        let mut source = vec![0u8; 4096];
        source[..10].copy_from_slice(b"checkpoint");
        let mut files = with_source(
            &source,
            Faults {
                no_clone,
                ..Default::default()
            },
        );

        let (_, result) = restore_shared(
            &mut files,
            "source",
            "live",
            &single_region_memory_state(4096),
            true,
        );
        result.unwrap();

        // The guest writes through the mapping of the live file.
        files.files.get_mut("live").unwrap().as_mut().unwrap()[..11]
            .copy_from_slice(b"live-memory");
        assert_eq!(&files.bytes("live")[..11], b"live-memory");
        assert_eq!(&files.bytes("source")[..10], b"checkpoint");
    }
}

#[test]
fn test_guest_memory_from_shared_file_rejects_existing_target() {
    let mut files = with_source(&[0u8; 4096], Faults::default());
    files.files.insert("live".to_string(), Some(vec![7]));

    let (done, result) = restore_shared(
        &mut files,
        "source",
        "live",
        &single_region_memory_state(4096),
        false,
    );
    assert!(matches!(
        result.unwrap_err(),
        GuestMemoryFromFileError::LiveMemoryTargetExists(path)
            if path == "live"
    ));
    assert_eq!(done, vec!["check"]);
    assert_eq!(files.bytes("live"), &[7]);
}

#[test]
fn test_guest_memory_from_shared_file_removes_invalid_target() {
    let mut files = with_source(&[0u8; 1], Faults::default());

    let (_, result) = restore_shared(
        &mut files,
        "source",
        "live",
        &single_region_memory_state(4096),
        false,
    );
    assert!(matches!(
        result.unwrap_err(),
        GuestMemoryFromFileError::Restore(_)
    ));
    assert!(!files.holds("live"));
}

#[test]
fn test_guest_memory_from_shared_file_rejects_non_regular_source() {
    let mut files = Files::new(Faults::default());
    files.files.insert("tmp".to_string(), None);

    let (_, result) = restore_shared(
        &mut files,
        "tmp",
        "live",
        &single_region_memory_state(4096),
        false,
    );
    assert!(matches!(
        result.unwrap_err(),
        GuestMemoryFromFileError::SharedSourceNotRegular(path)
            if path == "tmp"
    ));
    assert!(!files.holds("live"));
}

#[test]
fn cloning_extents_is_the_fast_way() {
    assert_eq!(FICLONE, 0x4004_9409);
    let mut files = with_source(&[1u8; 4096], Faults::default());
    let (done, result) = restore_shared(
        &mut files,
        "source",
        "live",
        &single_region_memory_state(4096),
        false,
    );
    assert!(result.is_ok());
    assert_eq!(done, vec!["check", "open", "stat", "create", "clone", "map"]);

    let mut files = with_source(
        &[1u8; 4096],
        Faults {
            no_clone: true,
            ..Default::default()
        },
    );
    let (done, result) = restore_shared(
        &mut files,
        "source",
        "live",
        &single_region_memory_state(4096),
        false,
    );
    assert!(result.is_ok());
    assert_eq!(
        done,
        vec![
            "check",
            "open",
            "stat",
            "create",
            "clone",
            "truncate",
            "rewind source",
            "rewind live",
            "measure",
            "copy",
            "map"
        ]
    );
    assert_eq!(files.bytes("live"), &[1u8; 4096]);
}

#[test]
fn no_failure_leaves_a_live_file_behind() {
    let before_creation = [
        Faults {
            open_source: true,
            ..Default::default()
        },
        Faults {
            stat_source: true,
            ..Default::default()
        },
        Faults {
            create_target: true,
            ..Default::default()
        },
    ];
    for faults in before_creation {
        let mut files = with_source(&[0u8; 4096], faults);
        let (done, result) = restore_shared(
            &mut files,
            "source",
            "live",
            &single_region_memory_state(4096),
            false,
        );
        assert!(matches!(result, Err(GuestMemoryFromFileError::File(_))));
        assert!(!done.contains(&"remove"));
        assert!(!files.holds("live"));
    }

    let after_creation = [
        Faults {
            no_clone: true,
            truncate: true,
            ..Default::default()
        },
        Faults {
            no_clone: true,
            rewind_source: true,
            ..Default::default()
        },
        Faults {
            no_clone: true,
            rewind_target: true,
            ..Default::default()
        },
        Faults {
            no_clone: true,
            measure: true,
            ..Default::default()
        },
        Faults {
            no_clone: true,
            copy: true,
            ..Default::default()
        },
    ];
    for faults in after_creation {
        let mut files = with_source(&[0u8; 4096], faults);
        let (done, result) = restore_shared(
            &mut files,
            "source",
            "live",
            &single_region_memory_state(4096),
            false,
        );
        assert!(matches!(result, Err(GuestMemoryFromFileError::File(_))));
        assert_eq!(done.last(), Some(&"remove"));
        assert!(!files.holds("live"));
    }
}

#[test]
fn a_source_that_changes_is_noticed() {
    let mut files = with_source(
        &[0u8; 4096],
        Faults {
            no_clone: true,
            source_grows: true,
            ..Default::default()
        },
    );
    let (_, result) = restore_shared(
        &mut files,
        "source",
        "live",
        &single_region_memory_state(4096),
        false,
    );
    assert!(matches!(
        result,
        Err(GuestMemoryFromFileError::File(e))
            if e.kind() == ErrorKind::UnexpectedEof
                && e.to_string() == "checkpoint memory changed while copying"
    ));
    assert!(!files.holds("live"));
}

#[test]
fn a_memory_file_is_opened_and_mapped() {
    let mem_state = single_region_memory_state(4096);
    let (job, action) = guest_memory_from_file(&"mem".to_string(), &mem_state, true);
    assert!(matches!(action, FileAction::Open { path } if path == "mem"));
    let (job, action) = job.step(FileEvent::Opened(Ok(())));
    assert!(matches!(
        action,
        FileAction::MapPrivate { regions, track_dirty_pages: true } if regions == vec![(0, 4096)]
    ));
    let (_, action) = job.step(FileEvent::Mapped(Ok(())));
    assert!(matches!(action, FileAction::Finished(Ok(()))));

    let (job, _) = guest_memory_from_file(&"mem".to_string(), &mem_state, true);
    let (_, action) = job.step(FileEvent::Opened(Err(io_error())));
    assert!(matches!(
        action,
        FileAction::Finished(Err(GuestMemoryFromFileError::File(_)))
    ));

    let (job, _) = guest_memory_from_file(&"mem".to_string(), &mem_state, true);
    let (job, _) = job.step(FileEvent::Opened(Ok(())));
    let (_, action) = job.step(FileEvent::Mapped(Err(memory_error())));
    assert!(matches!(
        action,
        FileAction::Finished(Err(GuestMemoryFromFileError::Restore(_)))
    ));
}

/// Sets up guest memory of two regions; the named action fails. Returns what was done and the
/// result.
fn restore_uffd(failing: &str) -> (Vec<String>, Result<(), GuestMemoryFromUffdError>) {
    let mem_state = GuestMemoryState {
        regions: vec![
            GuestMemoryRegionState {
                base_address: 0,
                size: 0x1000,
                region_type: GuestRegionType::Dram,
                plugged: vec![true],
            },
            GuestMemoryRegionState {
                base_address: 0x10000,
                size: 0x3000,
                region_type: GuestRegionType::Hotpluggable,
                plugged: vec![true, false],
            },
        ],
    };
    let (mut job, mut action) = guest_memory_from_uffd(
        &"handler".to_string(),
        &mem_state,
        true,
        HugePageConfig::NoHugePages,
    );
    let mut done: Vec<String> = Vec::new();
    let uffd = |name: &str| {
        if name == failing {
            Err(UffdError(name.to_string()))
        } else {
            Ok(())
        }
    };
    loop {
        let (name, event) = match action {
            UffdAction::MapAnonymous {
                regions,
                track_dirty_pages,
                huge_pages,
            } => {
                assert!(track_dirty_pages);
                assert_eq!(huge_pages, HugePageConfig::NoHugePages);
                let r = if failing == "map" {
                    Err(memory_error())
                } else {
                    Ok(map_anonymous(&regions))
                };
                ("map".to_string(), UffdEvent::Mapped(r))
            }
            UffdAction::CreateUffd => ("create".to_string(), UffdEvent::Created(uffd("create"))),
            UffdAction::Register { host_addr, len } => (
                format!("register {host_addr:x} {len:x}"),
                UffdEvent::Registered(uffd("register")),
            ),
            UffdAction::Connect { path } => {
                assert_eq!(path, "handler");
                let r = if failing == "connect" {
                    Err(io_error())
                } else {
                    Ok(())
                };
                ("connect".to_string(), UffdEvent::Connected(r))
            }
            UffdAction::SendMappings { mappings } => {
                assert_eq!(mappings.len(), 2);
                assert_eq!(mappings[1].offset, 0x1000);
                assert_eq!(mappings[1].base_host_virt_addr, 0x7f00_0001_0000);
                let r = if failing == "send" {
                    Err(vmm_sys_util::errno::Error::new(32))
                } else {
                    Ok(())
                };
                ("send".to_string(), UffdEvent::Sent(r))
            }
            UffdAction::Finished(result) => return (done, result),
        };
        done.push(name);
        let next = job.step(event);
        job = next.0;
        action = next.1;
    }
}

#[test]
fn every_region_is_registered_before_the_handshake() {
    let (done, result) = restore_uffd("");
    assert_eq!(
        done,
        vec![
            "map",
            "create",
            "register 7f0000000000 1000",
            "register 7f0000010000 3000",
            "connect",
            "send"
        ]
    );
    assert!(result.is_ok());
}

#[test]
fn uffd_failures_are_told_apart() {
    let (done, result) = restore_uffd("map");
    assert!(matches!(result, Err(GuestMemoryFromUffdError::Restore(_))));
    assert_eq!(done.len(), 1);
    let (done, result) = restore_uffd("create");
    assert!(matches!(result, Err(GuestMemoryFromUffdError::Create(_))));
    assert_eq!(done.len(), 2);
    let (done, result) = restore_uffd("register");
    assert!(matches!(result, Err(GuestMemoryFromUffdError::Register(_))));
    assert_eq!(done.len(), 3);
    let (done, result) = restore_uffd("connect");
    assert!(matches!(result, Err(GuestMemoryFromUffdError::Connect(_))));
    assert_eq!(done.len(), 5);
    let (done, result) = restore_uffd("send");
    assert!(matches!(
        result,
        Err(GuestMemoryFromUffdError::Send(e)) if e.errno() == 32
    ));
    assert_eq!(done.len(), 6);
}

#[test]
fn memory_without_regions_needs_no_registration() {
    let (job, _) = guest_memory_from_uffd(
        &"handler".to_string(),
        &GuestMemoryState { regions: vec![] },
        false,
        HugePageConfig::NoHugePages,
    );
    let (job, _) = job.step(UffdEvent::Mapped(Ok(vec![])));
    let (job, action) = job.step(UffdEvent::Created(Ok(())));
    assert!(matches!(action, UffdAction::Connect { .. }));
    let (_, action) = job.step(UffdEvent::Connected(Ok(())));
    assert!(matches!(action, UffdAction::SendMappings { mappings } if mappings.is_empty()));
}
