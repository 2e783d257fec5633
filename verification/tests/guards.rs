use memmap2::MmapMut;
use ps_mmap::{
    MemoryMap, MutableMemoryMapping, ReadGuard, ReadableMemoryMap, WritableMemoryMap, WriteGuard,
};

fn writable(content: &[u8]) -> WritableMemoryMap<()> {
    let mut mmap = MmapMut::map_anon(content.len()).expect("Failed to map");
    mmap.copy_from_slice(content);
    WritableMemoryMap::from_parts(None, mmap)
}

fn readable(content: &[u8]) -> ReadableMemoryMap<()> {
    let mut mmap = MmapMut::map_anon(content.len()).expect("Failed to map");
    mmap.copy_from_slice(content);
    ReadableMemoryMap::from_parts((), mmap.make_read_only().expect("Failed to protect"))
}

#[test]
fn read_guard_from_every_source() {
    let fixed = readable(b"one");
    let guard = ReadGuard::from(fixed.clone());
    assert!(matches!(guard, ReadGuard::Readable(_)));
    assert_eq!(guard.as_bytes(), b"one");

    let map = writable(b"two");
    let guard = ReadGuard::from(map.clone());
    assert!(matches!(guard, ReadGuard::Writable(_)));
    assert_eq!(guard.as_bytes(), b"two");
    assert_eq!(&*guard, b"two");

    let either = MemoryMap::Writable(map);
    let by_ref = ReadGuard::from(&either);
    let by_value: ReadGuard<()> = either.clone().into();
    assert_eq!(by_ref.as_bytes(), b"two");
    assert_eq!(by_value.as_bytes(), b"two");

    let either = MemoryMap::Readable(fixed);
    assert!(matches!(ReadGuard::from(&either), ReadGuard::Readable(_)));
    assert!(matches!(either.into_read(), ReadGuard::Readable(_)));
}

#[test]
fn read_guard_gives_its_mapping_back() {
    let map = MemoryMap::Writable(writable(b"x"));
    let guard = map.read();
    assert!(matches!(guard.map(), MemoryMap::Writable(_)));
    assert!(matches!(MemoryMap::from(&guard), MemoryMap::Writable(_)));
    let back = guard.into_map();
    back.try_write().expect("the read guard is gone")[0] = b'y';
    assert_eq!(map.read().as_bytes(), b"y");

    let fixed = MemoryMap::Readable(readable(b"z"));
    assert!(matches!(MemoryMap::from(fixed.read()), MemoryMap::Readable(_)));
}

#[test]
fn write_guard_reads_and_writes() {
    let map = writable(b"abcd");
    let mut guard = map.write();
    assert_eq!(guard.as_bytes(), b"abcd");
    guard.as_bytes_mut()[0] = b'A';
    guard[3] = b'D';
    assert_eq!(guard.as_bytes(), b"AbcD");
    assert_eq!(&*guard, b"AbcD");
    assert_eq!(guard.len(), 4);
    std::mem::drop(guard);
    assert_eq!(map.read().as_bytes(), b"AbcD");
}

#[test]
fn write_guard_from_a_writable_mapping() {
    let map = writable(b"pq");
    let mut guard = WriteGuard::from(map.clone());
    guard[1] = b'r';
    std::mem::drop(guard);
    let mut guard = map.clone().into_write();
    guard[0] = b's';
    std::mem::drop(guard);
    assert_eq!(map.read().as_bytes(), b"sr");
}

#[test]
fn write_guard_gives_its_mapping_back() {
    let map = writable(b"k");
    let guard = map.write();
    let clone = guard.map();
    let by_ref = WritableMemoryMap::from(&guard);
    let either = MemoryMap::from(&guard);
    assert_eq!(clone.len(), 1);
    assert_eq!(by_ref.len(), 1);
    assert!(matches!(either, MemoryMap::Writable(_)));
    let back = WritableMemoryMap::from(guard);
    back.write()[0] = b'l';
    assert_eq!(map.read().as_bytes(), b"l");
    let either = MemoryMap::from(map.write());
    assert_eq!(either.read().as_bytes(), b"l");
    assert_eq!(map.write().into_map().len(), 1);
}

#[test]
fn mutable_mapping_round_trip() {
    let map = writable(b"rw");
    let handle = MutableMemoryMapping::from(map.clone());
    handle.lock()[0] = b'R';
    let clone = handle.clone();
    clone.lock()[1] = b'W';
    let back = handle.done();
    assert!(matches!(back, MemoryMap::Writable(_)));
    assert_eq!(back.read().as_bytes(), b"RW");
    assert_eq!(map.read().as_bytes(), b"RW");
    let again = back.rw().expect("still writable");
    assert_eq!(again.lock().len(), 2);
}
