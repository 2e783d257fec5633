use memmap2::MmapMut;
use ps_mmap::{MemoryMap, ReadableMemoryMap};

#[test]
fn as_ptr() {
    let toml = b"[package]\nname = \"ps-mmap\"\n";
    let mut mmap = MmapMut::map_anon(toml.len()).expect("Failed to map");
    mmap.copy_from_slice(toml);
    let mmap = mmap.make_read_only().expect("Failed to protect the mapping");
    let mmap = MemoryMap::Readable(ReadableMemoryMap::from_parts((), mmap));
    let ptr = mmap.as_ptr();
    let guard = mmap.read();

    assert_eq!(ptr, guard.as_ptr() as usize, "as_ptr() returned an incorrect pointer!");

    let equals = guard[15];

    assert_eq!(equals, b'=', "as_ptr() returned an incorrect pointer!");

    let pkg = &guard[..9];

    assert_eq!(pkg, b"[package]", "Failed to read [package] from Cargo.toml");
}

#[test]
fn try_as_mut_ptr() {
    let mmap = MemoryMap::<()>::map_anonymous(11).expect("Failed to map");
    mmap.try_write().expect("writable").copy_from_slice(b"/Cargo.lock");
    let ptr = mmap.try_as_mut_ptr().expect("Couldn't get mut ptr");

    {
        let mut guard = mmap.try_write().expect("writable");

        assert_eq!(ptr, guard.as_mut_ptr() as usize);

        guard[7] = b'L';
    }

    let mut buf = [0u8; 11];

    buf.copy_from_slice(&mmap.read());

    assert_eq!(buf, *b"/Cargo.Lock");

    mmap.try_write().expect("writable")[7] = b'l';

    assert_eq!(mmap.read().as_bytes(), b"/Cargo.lock");
}
