use embedded_storage_file::{
    BufferBackend, Error, MmapFile, NorMemoryAsync, NorMemoryInFile, NorMemoryInram, ERASED_BYTE,
};
use rand::RngExt;
use rand::SeedableRng;

#[test]
fn test_inmemory() {
    let mem_len = 4096_usize;
    let nor = NorMemoryInram::<256, 256, 256>::new(mem_len);
    let mut storage = nor.storage();

    let vin = rand_vector(mem_len, 7);
    storage.write(0, &vin).unwrap();
    let mut vread = vec![0u8; mem_len];
    storage.read(0, &mut vread).unwrap();
    assert_eq!(vin, vread);
}

#[test]
fn test_async_mem() {
    let mem_len = 4096_usize;
    let nor = NorMemoryInram::<256, 256, 256>::new(mem_len);
    let mut anor = NorMemoryAsync::new(nor);
    let vin = rand_vector(mem_len, rand::rng().random());
    anor.write(0, &vin).unwrap();
    let mut vread = vec![0u8; mem_len];
    anor.read(0, &mut vread).unwrap();
    assert_eq!(vin, vread);
}

#[test]
fn fresh_inmemory_reads_zero() {
    let mut nor = NorMemoryInram::<16, 16, 16>::new(64);
    assert_eq!(nor.capacity(), 64);
    let mut buf = vec![0xAB_u8; 64];
    nor.read(0, &mut buf).unwrap();
    assert_eq!(buf, vec![0u8; 64]);
}

#[test]
fn fresh_mapped_region_filled_reads_erased() {
    let mmap = memmap2::MmapOptions::new().len(1024).map_anon().unwrap();
    let mut backend = MmapFile { mmap };
    backend.fill_range(0, 1024, ERASED_BYTE).unwrap();
    let mut nor = NorMemoryInFile::<256, 256, 256>::new_from_mmap(backend);
    let mut buf = vec![0u8; 1024];
    nor.read(0, &mut buf).unwrap();
    assert_eq!(buf, vec![0xFF_u8; 1024]);
}

#[test]
fn mapped_region_storage_round_trip() {
    let mmap = memmap2::MmapOptions::new().len(1024).map_anon().unwrap();
    let mut storage = NorMemoryInFile::<4, 4, 256>::new_from_mmap(MmapFile { mmap }).storage();
    let vin = rand_vector(700, 21);
    storage.write(100, &vin).unwrap();
    let mut vread = vec![0u8; 700];
    storage.read(100, &mut vread).unwrap();
    assert_eq!(vin, vread);
}

#[test]
fn erase_misaligned_fails() {
    let mut nor = NorMemoryInram::<1, 1, 256>::new(4096);
    assert_eq!(nor.erase(1, 256), Err(Error::NotAligned));
    assert_eq!(nor.erase(0, 100), Err(Error::NotAligned));
    assert_eq!(nor.erase(255, 511), Err(Error::NotAligned));
    let mut nor8 = NorMemoryInram::<1, 1, 8>::new(64);
    assert_eq!(nor8.erase(4, 16), Err(Error::NotAligned));
    assert_eq!(nor8.erase(8, 15), Err(Error::NotAligned));
    // misalignment is reported even when the range is also out of bounds
    assert_eq!(nor8.erase(3, 1000), Err(Error::NotAligned));
    assert_eq!(nor8.erase(0, 64), Ok(()));
}

#[test]
fn erase_out_of_bounds_fails_and_mutates_nothing() {
    let mut nor = NorMemoryInram::<1, 1, 8>::new(64);
    let vin = rand_vector(64, 3);
    nor.write(0, &vin).unwrap();
    assert_eq!(nor.erase(16, 8), Err(Error::OutOfBounds));
    assert_eq!(nor.erase(0, 72), Err(Error::OutOfBounds));
    let mut vread = vec![0u8; 64];
    nor.read(0, &mut vread).unwrap();
    assert_eq!(vin, vread);
}

#[test]
fn read_write_out_of_bounds_fail_and_mutate_nothing() {
    let mut nor = NorMemoryInram::<1, 1, 8>::new(64);
    let vin = rand_vector(64, 5);
    nor.write(0, &vin).unwrap();
    assert_eq!(nor.write(60, &vec![0u8; 5]), Err(Error::OutOfBounds));
    assert_eq!(nor.write(65, &vec![0u8; 1]), Err(Error::OutOfBounds));
    let mut huge = vec![7u8; 65];
    assert_eq!(nor.read(0, &mut huge), Err(Error::OutOfBounds));
    assert_eq!(huge, vec![7u8; 65]);
    let mut vread = vec![0u8; 64];
    nor.read(0, &mut vread).unwrap();
    assert_eq!(vin, vread);
}

#[test]
fn erase_effect_inside_and_outside() {
    let mut nor = NorMemoryInram::<1, 1, 8>::new(64);
    let vin = rand_vector(64, 11);
    nor.write(0, &vin).unwrap();
    nor.erase(16, 32).unwrap();
    let mut vread = vec![0u8; 64];
    nor.read(0, &mut vread).unwrap();
    for i in 0..64 {
        if (16..32).contains(&i) {
            assert_eq!(vread[i], 0xFF);
        } else {
            assert_eq!(vread[i], vin[i]);
        }
    }
}

#[test]
fn empty_erase_is_a_no_op() {
    let mut nor = NorMemoryInram::<1, 1, 8>::new(64);
    let vin = rand_vector(64, 13);
    nor.write(0, &vin).unwrap();
    assert_eq!(nor.erase(16, 16), Ok(()));
    let mut vread = vec![0u8; 64];
    nor.read(0, &mut vread).unwrap();
    assert_eq!(vin, vread);
}

#[test]
fn storage_write_unaligned_keeps_other_bytes() {
    let nor = NorMemoryInram::<1, 1, 8>::new(64);
    let mut storage = nor.storage();
    let vin = rand_vector(10, 17);
    storage.write(13, &vin).unwrap();
    let mut all = vec![0u8; 64];
    storage.read(0, &mut all).unwrap();
    for i in 0..64 {
        if (13..23).contains(&i) {
            assert_eq!(all[i], vin[i - 13]);
        } else {
            assert_eq!(all[i], 0u8);
        }
    }
}

#[test]
fn storage_conversions_keep_bytes() {
    let mut nor = NorMemoryInram::<1, 1, 8>::new(64);
    let vin = rand_vector(64, 19);
    nor.write(0, &vin).unwrap();
    let storage = nor.storage();
    assert_eq!(storage.capacity(), 64);
    let mut back = storage.nor_flash();
    let mut vread = vec![0u8; 64];
    back.read(0, &mut vread).unwrap();
    assert_eq!(vin, vread);
}

#[test]
fn backend_write_range_length_mismatch_fails() {
    let mut backend: Vec<u8> = vec![0u8; 16];
    let data = vec![1u8, 2, 3];
    assert_eq!(backend.write_range(0, 4, &data), Err(Error::OutOfBounds));
    assert_eq!(backend.write_range(2, 5, &data), Ok(()));
    assert_eq!(backend, vec![0, 0, 1, 2, 3, 0, 0, 0, 0, 0, 0, 0, 0, 0, 0, 0]);
    assert_eq!(backend.write_range(5, 4, &vec![]), Err(Error::OutOfBounds));
    assert_eq!(backend.read_range(20, 24), Err(Error::OutOfBounds));
}

#[test]
fn adapter_matches_direct_calls() {
    let mut direct = NorMemoryInram::<1, 1, 8>::new(64);
    let mut adapted = NorMemoryAsync::new(NorMemoryInram::<1, 1, 8>::new(64));
    let vin = rand_vector(40, 23);

    assert_eq!(direct.write(5, &vin), adapted.write(5, &vin));
    assert_eq!(direct.erase(8, 24), adapted.erase(8, 24));
    assert_eq!(direct.erase(1, 24), adapted.erase(1, 24));
    assert_eq!(direct.write(60, &vin), adapted.write(60, &vin));
    assert_eq!(direct.capacity(), adapted.capacity());

    let mut dread = vec![0u8; 64];
    let mut aread = vec![0u8; 64];
    assert_eq!(direct.read(0, &mut dread), adapted.read(0, &mut aread));
    assert_eq!(dread, aread);

    let mut unwrapped = adapted.get_sync();
    let mut uread = vec![0u8; 64];
    unwrapped.read(0, &mut uread).unwrap();
    assert_eq!(dread, uread);
}

// Generate a random vector of bytes given a size and a seed.
fn rand_vector(size: usize, seed: u64) -> Vec<u8> {
    let mut rng = rand::rngs::SmallRng::seed_from_u64(seed);
    let mut v = Vec::with_capacity(size);
    for _ in 0..size {
        v.push(rng.random());
    }
    v
}

