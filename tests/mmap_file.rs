use memmap2::MmapMut;
use ranged_mmap::allocator::sequential::Allocator;
use ranged_mmap::allocator::{concurrent, RangeAllocator, ALIGNMENT};
use ranged_mmap::{Error, MmapFile, MmapFileInner};

fn create_default(size: u64) -> (MmapFile, Allocator) {
    let map = MmapMut::map_anon(size as usize).unwrap();
    MmapFile::with_default_allocator(MmapFileInner::from_mapping(map).unwrap())
}

#[test]
fn default_allocator_is_fresh() {
    let map = MmapMut::map_anon(8192).unwrap();
    let (mut file, mut allocator) = MmapFile::with_default_allocator(MmapFileInner::from_mapping(map).unwrap());
    assert_eq!(allocator.next_pos(), 0);
    assert_eq!(allocator.total_size(), 8192);
    let first = allocator.allocate(100).unwrap();
    assert_eq!(first.as_range_tuple(), (0, 4096));
    let receipt = file.write_range(first, &vec![0x01u8; 4096]).unwrap();
    assert_eq!((receipt.start(), receipt.end()), (0, 4096));
}

#[test]
fn test_create_with_allocator() {
    let (file, allocator) = create_default(ALIGNMENT * 10);
    assert_eq!(file.size(), ALIGNMENT * 10);
    assert_eq!(allocator.total_size(), ALIGNMENT * 10);
    assert_eq!(allocator.next_pos(), 0);
}

#[test]
fn test_basic_write_and_read() {
    let (mut file, mut allocator) = create_default(ALIGNMENT * 2);
    let range1 = allocator.allocate(ALIGNMENT).unwrap();
    let range2 = allocator.allocate(ALIGNMENT).unwrap();
    let data1 = vec![1u8; ALIGNMENT as usize];
    let data2 = vec![2u8; ALIGNMENT as usize];
    let receipt1 = file.write_range(range1, &data1).unwrap();
    let receipt2 = file.write_range(range2, &data2).unwrap();
    assert_eq!(receipt1.len(), ALIGNMENT);
    assert_eq!(receipt2.len(), ALIGNMENT);
    file.sync_all().unwrap();
    let mut buf1 = vec![0u8; ALIGNMENT as usize];
    let mut buf2 = vec![0u8; ALIGNMENT as usize];
    file.read_range(range1, &mut buf1).unwrap();
    file.read_range(range2, &mut buf2).unwrap();
    assert_eq!(buf1, data1);
    assert_eq!(buf2, data2);
}

#[test]
fn test_write_range_all() {
    let (mut file, mut allocator) = create_default(ALIGNMENT);
    let range = allocator.allocate(ALIGNMENT).unwrap();
    let data = vec![0u8; ALIGNMENT as usize];
    let receipt = file.write_range_all(range, &data).unwrap();
    assert_eq!(receipt.len(), ALIGNMENT);
    assert_eq!(receipt.start(), 0);
    assert_eq!(receipt.end(), ALIGNMENT);
}

#[test]
fn test_data_length_match() {
    let (mut file, mut allocator) = create_default(ALIGNMENT);
    let range = allocator.allocate(ALIGNMENT).unwrap();
    let receipt = file.write_range(range, &vec![0u8; ALIGNMENT as usize]).unwrap();
    assert_eq!(receipt.len(), ALIGNMENT);
}

#[test]
fn test_read_range_buffer_too_small() {
    let (mut file, mut allocator) = create_default(ALIGNMENT);
    let range = allocator.allocate(ALIGNMENT).unwrap();
    let data = vec![0x42u8; ALIGNMENT as usize];
    file.write_range(range, &data).unwrap();
    let mut buf = vec![0u8; 100];
    let result = file.read_range(range, &mut buf);
    assert!(result.is_err());
    let mut buf = vec![0u8; ALIGNMENT as usize];
    let result = file.read_range(range, &mut buf);
    assert!(result.is_ok());
    assert_eq!(buf, data);
    let mut buf = vec![0u8; ALIGNMENT as usize * 2];
    let result = file.read_range(range, &mut buf);
    assert!(result.is_ok());
    assert_eq!(&buf[..ALIGNMENT as usize], &data[..]);
}

#[test]
fn test_flush_operations() {
    let (mut file, mut allocator) = create_default(ALIGNMENT * 2);
    let range1 = allocator.allocate(ALIGNMENT).unwrap();
    let range2 = allocator.allocate(ALIGNMENT).unwrap();
    let receipt1 = file.write_range(range1, &vec![1u8; ALIGNMENT as usize]).unwrap();
    let receipt2 = file.write_range(range2, &vec![2u8; ALIGNMENT as usize]).unwrap();
    file.flush().unwrap();
    file.flush_range(receipt1).unwrap();
    file.flush_range(receipt2).unwrap();
    file.sync_all().unwrap();
}

#[test]
fn tests_test_write_receipt_properties() {
    let (mut file, mut allocator) = create_default(ALIGNMENT);
    let range = allocator.allocate(ALIGNMENT).unwrap();
    let receipt = file.write_range(range, &vec![0u8; ALIGNMENT as usize]).unwrap();
    assert_eq!(receipt.start(), 0);
    assert_eq!(receipt.end(), ALIGNMENT);
    assert_eq!(receipt.len(), ALIGNMENT);
    assert!(!receipt.is_empty());
    assert_eq!(receipt.range(), range);
}

#[test]
fn test_write_receipt_equality() {
    let (mut file, mut allocator) = create_default(ALIGNMENT * 2);
    let range1 = allocator.allocate(ALIGNMENT).unwrap();
    let range2 = allocator.allocate(ALIGNMENT).unwrap();
    let receipt1 = file.write_range(range1, &vec![1u8; ALIGNMENT as usize]).unwrap();
    let receipt2 = file.write_range(range2, &vec![2u8; ALIGNMENT as usize]).unwrap();
    assert_eq!(receipt1, receipt1);
    assert_ne!(receipt1, receipt2);
    let receipt1_clone = receipt1;
    assert_eq!(receipt1, receipt1_clone);
}

#[test]
fn test_multiple_receipts_from_same_range() {
    let (mut file, mut allocator) = create_default(ALIGNMENT);
    let range = allocator.allocate(ALIGNMENT).unwrap();
    let receipt1 = file.write_range(range, &vec![1u8; ALIGNMENT as usize]).unwrap();
    let receipt2 = file.write_range(range, &vec![2u8; ALIGNMENT as usize]).unwrap();
    assert_eq!(receipt1.range(), receipt2.range());
}

#[test]
fn two_block_file_example() {
    let (mut file, mut allocator) = create_default(8192);
    let first = allocator.allocate(100).unwrap();
    let second = allocator.allocate(100).unwrap();
    assert_eq!(first.as_range_tuple(), (0, 4096));
    assert_eq!(second.as_range_tuple(), (4096, 8192));
    for size in [1u64, 100, 4096, u64::MAX] {
        assert!(allocator.allocate(size).is_none());
    }
    file.write_range(first, &vec![0x01u8; 4096]).unwrap();
    let mut buf = vec![0u8; 4096];
    assert_eq!(file.read_range(first, &mut buf).unwrap(), 4096);
    assert!(buf.iter().all(|&b| b == 0x01));
}

#[test]
fn many_writers_each_see_their_own_fill_byte() {
    let workers = 150u64;
    let (mut file, _) = create_default(workers * ALIGNMENT);
    let shared = concurrent::Allocator::new(workers * ALIGNMENT);
    let mut ranges = Vec::new();
    while let Some(range) = shared.allocate(ALIGNMENT) {
        ranges.push(range);
    }
    assert_eq!(ranges.len() as u64, workers);
    let mut receipts = Vec::new();
    for (i, range) in ranges.iter().enumerate() {
        receipts.push(file.write_range(*range, &vec![i as u8; ALIGNMENT as usize]).unwrap());
    }
    file.sync_all().unwrap();
    for (i, range) in ranges.iter().enumerate() {
        let mut buf = vec![0u8; ALIGNMENT as usize];
        file.read_range(*range, &mut buf).unwrap();
        assert!(buf.iter().all(|&b| b == i as u8), "range {} was overwritten", i);
    }
    for receipt in receipts {
        file.flush_range(receipt).unwrap();
    }
}

#[test]
fn receipt_flushes_exactly_the_written_range() {
    let (mut file, mut allocator) = create_default(3 * ALIGNMENT);
    let range = allocator.allocate(2 * ALIGNMENT).unwrap();
    let receipt = file.write_range(range, &vec![5u8; 2 * ALIGNMENT as usize]).unwrap();
    assert_eq!(receipt.range(), range);
    file.flush_range(receipt).unwrap();
}

#[test]
fn mismatched_data_is_refused_and_changes_nothing() {
    let (mut file, mut allocator) = create_default(ALIGNMENT);
    let range = allocator.allocate(ALIGNMENT).unwrap();
    match file.write_range(range, &[1u8; 10]) {
        Err(Error::DataLengthMismatch { data_len, range_len }) => {
            assert_eq!((data_len, range_len), (10, ALIGNMENT));
        }
        other => panic!("expected DataLengthMismatch, got {:?}", other),
    }
    let mut buf = vec![9u8; ALIGNMENT as usize];
    file.read_range(range, &mut buf).unwrap();
    assert!(buf.iter().all(|&b| b == 0));
}

#[test]
fn short_buffer_is_refused_and_left_alone() {
    let (file, mut allocator) = create_default(ALIGNMENT);
    let range = allocator.allocate(ALIGNMENT).unwrap();
    let mut buf = vec![3u8; 100];
    match file.read_range(range, &mut buf) {
        Err(Error::BufferTooSmall { buffer_len, range_len }) => {
            assert_eq!((buffer_len, range_len), (100, ALIGNMENT));
        }
        other => panic!("expected BufferTooSmall, got {:?}", other),
    }
    assert_eq!(buf, vec![3u8; 100]);
}

#[test]
fn range_of_a_larger_file_is_refused() {
    let (mut small, _) = create_default(ALIGNMENT);
    let (mut large, mut allocator) = create_default(2 * ALIGNMENT);
    allocator.allocate(ALIGNMENT).unwrap();
    let far = allocator.allocate(ALIGNMENT).unwrap();
    match small.write_range(far, &vec![1u8; ALIGNMENT as usize]) {
        Err(Error::WriteExceedsFileSize { offset, len, file_size }) => {
            assert_eq!((offset, len, file_size), (ALIGNMENT, ALIGNMENT, ALIGNMENT));
        }
        other => panic!("expected WriteExceedsFileSize, got {:?}", other),
    }
    let receipt = large.write_range(far, &vec![1u8; ALIGNMENT as usize]).unwrap();
    assert!(matches!(small.flush_range(receipt), Err(Error::FlushRangeExceedsFileSize { .. })));
    let mut buf = vec![0u8; ALIGNMENT as usize];
    assert_eq!(small.read_range(far, &mut buf).unwrap(), 0);
}

#[test]
fn test_concurrent_writes_with_allocated_ranges() {
    let num_ranges = 10;
    let (mut file, mut allocator) = create_default(ALIGNMENT * num_ranges);
    let mut ranges = Vec::new();
    for _ in 0..num_ranges {
        ranges.push(allocator.allocate(ALIGNMENT).unwrap());
    }
    for (i, range) in ranges.into_iter().enumerate() {
        let data = vec![i as u8; ALIGNMENT as usize];
        let _receipt = file.write_range(range, &data).unwrap();
    }
    file.sync_all().unwrap();
    let mut allocator2 = Allocator::new(ALIGNMENT * num_ranges);
    for i in 0..num_ranges as usize {
        let range = allocator2.allocate(ALIGNMENT).unwrap();
        let mut buf = vec![0u8; ALIGNMENT as usize];
        file.read_range(range, &mut buf).unwrap();
        assert_eq!(buf, vec![i as u8; ALIGNMENT as usize]);
    }
}

#[test]
fn tests_test_high_concurrency() {
    let num_threads = 100u64;
    let chunk_size = ALIGNMENT;
    let file_size = num_threads * chunk_size;
    let (mut file, mut allocator) = create_default(file_size);
    let mut ranges = Vec::new();
    for _ in 0..num_threads {
        ranges.push(allocator.allocate(chunk_size).unwrap());
    }
    for (i, range) in ranges.into_iter().enumerate() {
        let data = vec![i as u8; chunk_size as usize];
        let _receipt = file.write_range(range, &data).unwrap();
    }
    file.sync_all().unwrap();
    let mut allocator2 = Allocator::new(file_size);
    for i in 0..num_threads as usize {
        let range = allocator2.allocate(chunk_size).unwrap();
        let mut buf = vec![0u8; chunk_size as usize];
        file.read_range(range, &mut buf).unwrap();
        assert_eq!(buf, vec![i as u8; chunk_size as usize]);
    }
}

#[test]
fn any_allocator_can_be_paired_with_a_file() {
    let map = MmapMut::map_anon(3 * ALIGNMENT as usize).unwrap();
    let (file, shared) =
        MmapFile::with_allocator::<concurrent::Allocator>(MmapFileInner::from_mapping(map).unwrap());
    assert_eq!(shared.total_size(), file.size());
    assert_eq!(shared.allocate(1).unwrap().as_range_tuple(), (0, ALIGNMENT));
}
