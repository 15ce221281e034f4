use bench_agent::cpu::{fold_le_words, integer_mix, lcg_next, work_unit_checksum};
use bench_agent::disk::{align_offset, next_random_read, AlignedBuf, ALIGN};
use bench_agent::memory::{index_buffer, pass};

#[test]
fn lcg_step_value() {
    assert_eq!(lcg_next(0), 1442695040888963407);
    assert_eq!(
        lcg_next(1),
        6364136223846793005u64.wrapping_add(1442695040888963407)
    );
}

#[test]
fn integer_mix_values() {
    assert_eq!(integer_mix(0), 2345701023015857602);
    assert_eq!(integer_mix(1), 7659130905215983367);
    assert_eq!(integer_mix(42), 4887633812443248323);
}

#[test]
fn work_unit_checksum_hashes_state() {
    assert_eq!(work_unit_checksum(0, 0), 9007974302373828586);
    assert_eq!(
        work_unit_checksum(7659130905215983367, 0x3ff0000000000000),
        9594424084577149827
    );
}

#[test]
fn fold_words_ignores_partial_tail() {
    let mut b = vec![0u8; 17];
    b[0] = 1;
    b[8] = 2;
    b[16] = 0xff;
    assert_eq!(fold_le_words(&b), 3);
    let c = [0x01u8, 0x02, 0, 0, 0, 0, 0, 0x80];
    assert_eq!(fold_le_words(&c), 0x8000_0000_0000_0201);
}

#[test]
fn memory_pass_updates_every_word() {
    let mut buf: Vec<u64> = vec![0, 1, 2, 3];
    let acc = pass(&mut buf, 5);
    assert_eq!(buf, vec![13272178805, 15926614566, 18581050327, 21235486088]);
    assert_eq!(acc, 6693900);
    let mut big = vec![u64::MAX];
    pass(&mut big, 1);
    assert_eq!(big, vec![0]);
}

#[test]
fn index_buffer_counts_up() {
    assert_eq!(index_buffer(5), vec![0, 1, 2, 3, 4]);
    assert!(index_buffer(0).is_empty());
}

#[test]
fn aligned_buffer_is_aligned_and_filled() {
    let b = AlignedBuf::new(8192, 0xAB);
    let s = b.slice();
    assert_eq!(s.len(), 8192);
    assert!(s.iter().all(|&x| x == 0xAB));
    assert_eq!(s.as_ptr() as usize % ALIGN, 0);
}

#[test]
fn aligned_buffer_writes_are_kept() {
    let mut b = AlignedBuf::new(16, 0);
    {
        let w = b.slice_mut();
        assert_eq!(w.len(), 16);
        assert_eq!(w.as_ptr() as usize % ALIGN, 0);
        w[0] = 9;
        w[15] = 7;
    }
    let s = b.slice();
    assert_eq!(s[0], 9);
    assert_eq!(s[15], 7);
    assert_eq!(s[1], 0);
}

#[test]
fn random_reads_follow_generator() {
    let (rng, offset) = next_random_read(0x9E3779B97F4A7C15);
    assert_eq!(rng, 3236661110929538048);
    assert_eq!(offset, 62914560);
    let mut r = 12345u64;
    for _ in 0..1000 {
        let (next, off) = next_random_read(r);
        assert_eq!(off % 4096, 0);
        assert!(off + 4096 <= 128 * 1024 * 1024);
        r = next;
    }
}

#[test]
fn align_offset_reaches_next_boundary() {
    assert_eq!(align_offset(0), 0);
    assert_eq!(align_offset(1), 4095);
    assert_eq!(align_offset(4096), 0);
    assert_eq!(align_offset(4097), 4095);
    assert_eq!(align_offset(8191), 1);
}
