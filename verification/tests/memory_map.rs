use memmap2::{Mmap, MmapMut};
use ps_mmap::{MemoryMap, PsMmapError, ReadGuard, ReadableMemoryMap, WritableMemoryMap, WriteGuard};
use std::sync::atomic::{AtomicBool, Ordering};
use std::sync::Arc;

fn read_only(content: &[u8]) -> Mmap {
    let mut mmap = MmapMut::map_anon(content.len()).expect("Failed to map");
    mmap.copy_from_slice(content);
    mmap.make_read_only().expect("Failed to protect the mapping")
}

fn readable(content: &[u8]) -> MemoryMap<()> {
    MemoryMap::Readable(ReadableMemoryMap::from_parts((), read_only(content)))
}

fn writable(length: usize) -> MemoryMap<()> {
    MemoryMap::map_anonymous(length).expect("Failed to map")
}

struct Flag(Arc<AtomicBool>);

impl Drop for Flag {
    fn drop(&mut self) {
        self.0.store(true, Ordering::SeqCst);
    }
}

#[test]
fn anonymous_mapping_is_writable_and_as_long_as_asked() {
    let map = writable(1000);
    assert!(matches!(map, MemoryMap::Writable(_)));
    assert_eq!(map.len(), 1000);
    assert!(!map.is_empty());
    assert_eq!(map.read().len(), 1000);
    assert_eq!(map.try_write().expect("writable").len(), 1000);
}

#[test]
fn anonymous_mapping_of_no_bytes_is_empty() {
    let map = writable(0);
    assert_eq!(map.len(), 0);
    assert!(map.is_empty());
    assert_eq!(map.read().len(), 0);
}

#[test]
fn anonymous_mapping_longer_than_a_slice_is_refused() {
    assert!(matches!(MemoryMap::<()>::map_anonymous(usize::MAX), Err(_)));
    let just_too_long = isize::MAX.unsigned_abs() + 1;
    assert!(matches!(MemoryMap::<()>::map_anonymous(just_too_long), Err(_)));
    assert!(matches!(WritableMemoryMap::<()>::map_anonymous(usize::MAX), Err(_)));
}

#[test]
fn anonymous_mapping_has_no_file() {
    let map = WritableMemoryMap::<u32>::map_anonymous(8).expect("Failed to map");
    assert!(map.file().is_none());
    match MemoryMap::<u32>::map_anonymous(8).expect("Failed to map") {
        MemoryMap::Writable(inner) => {
            assert!(inner.file().is_none());
            assert_eq!(inner.len(), 8);
        },
        MemoryMap::Readable(_) => panic!("an anonymous mapping is writable"),
    }
}

#[test]
fn write_is_visible_to_every_later_guard() {
    let map = writable(64);
    for offset in 0..64usize {
        let value = (offset * 3 + 1) as u8;
        {
            let mut guard = map.try_write().expect("writable");
            guard[offset] = value;
            assert_eq!(guard[offset], value);
        }
        assert_eq!(map.read()[offset], value);
        assert_eq!(map.clone().read()[offset], value);
        assert_eq!(map.try_write().expect("writable")[offset], value);
    }
    let guard = map.read();
    for offset in 0..64usize {
        assert_eq!(guard[offset], (offset * 3 + 1) as u8);
    }
}

#[test]
fn write_leaves_other_offsets_alone() {
    let map = writable(4);
    {
        let mut guard = map.try_write().expect("writable");
        guard.copy_from_slice(&[10, 20, 30, 40]);
    }
    {
        let mut guard = map.try_write().expect("writable");
        guard.as_bytes_mut()[2] = 31;
    }
    assert_eq!(map.read().as_bytes(), &[10, 20, 31, 40]);
}

#[test]
fn read_only_mapping_never_yields_a_writer() {
    let map = readable(b"fixed");
    assert!(matches!(map.try_write(), Err(PsMmapError::ReadOnly)));
    assert!(matches!(map.clone().try_into_write(), Err(PsMmapError::ReadOnly)));
    assert!(matches!(map.try_as_mut_ptr(), Err(PsMmapError::ReadOnly)));
    assert!(matches!(map.clone().rw(), Err(PsMmapError::ReadOnly)));
    assert!(matches!(WriteGuard::try_from(&map), Err(PsMmapError::ReadOnly)));
    assert!(matches!(WriteGuard::try_from(map.clone()), Err(PsMmapError::ReadOnly)));

    let called = AtomicBool::new(false);
    let outcome = map.try_write_with(|bytes| {
        called.store(true, Ordering::SeqCst);
        bytes[0] = b'F';
    });
    assert!(matches!(outcome, Err(PsMmapError::ReadOnly)));
    assert!(!called.load(Ordering::SeqCst));
    assert_eq!(map.read().as_bytes(), b"fixed");
}

#[test]
fn read_only_mapping_refuses_again_after_being_read() {
    let map = readable(b"fixed");
    let guard = map.read();
    let back = MemoryMap::from(guard);
    assert!(matches!(back.try_write(), Err(PsMmapError::ReadOnly)));
}

#[test]
fn writable_mapping_yields_a_writer() {
    let map = writable(16);
    assert!(matches!(map.try_write(), Ok(WriteGuard::Writable(_))));
    assert!(matches!(map.clone().try_into_write(), Ok(WriteGuard::Writable(_))));
    assert!(map.try_as_mut_ptr().is_ok());
    assert!(map.clone().rw().is_ok());
    assert!(WriteGuard::try_from(&map).is_ok());
    assert!(WriteGuard::try_from(map).is_ok());
}

#[test]
fn shared_guards_coexist() {
    let map = writable(8);
    map.try_write().expect("writable")[3] = 9;
    let first = map.read();
    let second = map.read();
    let third = map.clone().into_read();
    assert_eq!(first[3], 9);
    assert_eq!(second[3], 9);
    assert_eq!(third[3], 9);
    assert!(matches!(first, ReadGuard::Writable(_)));
}

#[test]
fn read_only_guards_coexist_without_a_lock() {
    let map = readable(b"abc");
    let first = map.read();
    let second = map.read();
    assert!(matches!(first, ReadGuard::Readable(_)));
    assert_eq!(first.as_bytes(), b"abc");
    assert_eq!(second.as_bytes(), b"abc");
}

#[test]
fn len_stays_the_same_whatever_happens() {
    let map = writable(100);
    let before = map.len();
    let clone = map.clone();
    {
        let mut guard = map.try_write().expect("writable");
        assert_eq!(guard.len(), before);
        guard.fill(7);
        assert_eq!(guard.len(), before);
        assert_eq!(guard.map().len(), before);
    }
    {
        let first = map.read();
        let second = clone.read();
        assert_eq!(first.len(), before);
        assert_eq!(second.len(), before);
        assert_eq!(map.len(), before);
        assert_eq!(first.map().len(), before);
    }
    assert_eq!(map.len(), 100);
    assert_eq!(clone.len(), 100);
    assert_eq!(MemoryMap::from(map.read()).len(), 100);
    assert_eq!(MemoryMap::from(map.try_write().expect("writable")).len(), 100);

    let fixed = readable(b"twelve bytes");
    assert_eq!(fixed.len(), 12);
    assert_eq!(fixed.read().len(), 12);
    assert_eq!(fixed.clone().len(), 12);
    assert!(!fixed.is_empty());
    assert!(readable(b"").is_empty());
}

#[test]
fn read_with_hands_the_bytes_to_the_closure() {
    let fixed = readable(b"hello");
    assert_eq!(fixed.read_with(|bytes| bytes.to_vec()), b"hello".to_vec());
    assert_eq!(fixed.read_with(|bytes| bytes.len()), 5);

    let map = writable(3);
    map.try_write().expect("writable").copy_from_slice(&[1, 2, 3]);
    assert_eq!(map.read_with(|bytes| bytes.iter().map(|b| u32::from(*b)).sum::<u32>()), 6);
}

#[test]
fn try_write_with_hands_the_bytes_to_the_closure_and_releases() {
    let map = writable(3);
    let outcome = map.try_write_with(|bytes| {
        bytes.copy_from_slice(&[4, 5, 6]);
        bytes.len()
    });
    assert!(matches!(outcome, Ok(3)));
    let early = map.try_write_with(|bytes| {
        if bytes[0] == 4 {
            return "early";
        }
        bytes[0] = 0;
        "late"
    });
    assert!(matches!(early, Ok("early")));
    assert_eq!(map.try_write().expect("released").as_bytes(), &[4, 5, 6]);
    assert_eq!(map.read_with(|bytes| bytes[1]), 5);
}

#[test]
fn clones_share_the_bytes() {
    let map = writable(2);
    let clone = map.clone();
    map.try_write().expect("writable")[1] = 200;
    assert_eq!(clone.read()[1], 200);
    clone.try_write().expect("writable")[0] = 100;
    assert_eq!(map.read().as_bytes(), &[100, 200]);
}

#[test]
fn address_is_where_the_bytes_are() {
    let map = writable(32);
    let address = map.as_ptr();
    assert_eq!(address, map.read().as_ptr() as usize);
    assert_eq!(map.try_as_mut_ptr().expect("writable"), address);
    assert_eq!(map.clone().as_ptr(), address);
    if let MemoryMap::Writable(inner) = &map {
        assert_eq!(inner.as_ptr(), address);
        assert_eq!(inner.as_mut_ptr(), address);
    }

    let fixed = readable(b"somewhere");
    assert_eq!(fixed.as_ptr(), fixed.read().as_ptr() as usize);
    assert_ne!(fixed.as_ptr(), address);
}

#[test]
fn handle_lives_as_long_as_any_owner() {
    let dropped = Arc::new(AtomicBool::new(false));
    let mmap = MmapMut::map_anon(8).expect("Failed to map");
    let map = MemoryMap::Writable(WritableMemoryMap::from_parts(Some(Flag(dropped.clone())), mmap));
    let clone = map.clone();
    let reader = map.read();
    std::mem::drop(map);
    assert!(!dropped.load(Ordering::SeqCst));
    std::mem::drop(clone);
    assert!(!dropped.load(Ordering::SeqCst));
    assert_eq!(reader.len(), 8);
    let back = MemoryMap::from(&reader);
    std::mem::drop(reader);
    assert!(!dropped.load(Ordering::SeqCst));
    let writer = back.try_into_write().expect("writable");
    assert!(!dropped.load(Ordering::SeqCst));
    std::mem::drop(writer);
    assert!(dropped.load(Ordering::SeqCst));
}

#[test]
fn handle_of_a_read_only_mapping_lives_as_long_as_any_owner() {
    let dropped = Arc::new(AtomicBool::new(false));
    let map = ReadableMemoryMap::from_parts(Flag(dropped.clone()), read_only(b"kept"));
    let guard = ReadGuard::from(map.clone());
    std::mem::drop(map);
    assert!(!dropped.load(Ordering::SeqCst));
    assert_eq!(guard.as_bytes(), b"kept");
    std::mem::drop(guard);
    assert!(dropped.load(Ordering::SeqCst));
}

#[test]
fn interleaved_writers_lose_no_increment() {
    const WRITERS: usize = 8;
    const INCREMENTS: usize = 25;
    let map = writable(1);
    let writers: Vec<MemoryMap<()>> = (0..WRITERS).map(|_| map.clone()).collect();
    for _ in 0..INCREMENTS {
        for writer in &writers {
            let mut guard = writer.try_write().expect("writable");
            guard[0] += 1;
        }
    }
    assert_eq!(usize::from(map.read()[0]), WRITERS * INCREMENTS);
}
