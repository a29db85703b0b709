use rcm_inject::layout::{build_payload, BuildError, HEADER_LEN};

const SPRAY_WORD: [u8; 4] = [0x00, 0x00, 0x01, 0x40];

fn relocator(n: usize) -> Vec<u8> {
    (0..n).map(|i| (i % 251) as u8 + 1).collect()
}

fn target(n: usize) -> Vec<u8> {
    (0..n).map(|i| (i % 241) as u8 + 3).collect()
}

#[test]
fn small_payload_layout() {
    let reloc = relocator(64);
    let tgt = target(8);
    let blob = build_payload(&tgt, &reloc).unwrap();
    assert_eq!(blob.len(), 0x8000);
    assert_eq!(&blob[0..4], &[0x98, 0x02, 0x03, 0x00]);
    assert!(blob[4..680].iter().all(|&b| b == 0));
    assert_eq!(&blob[680..744], &reloc[..]);
    assert!(blob[744..4328].iter().all(|&b| b == 0));
    assert_eq!(&blob[4328..4336], &tgt[..]);
    assert!(blob[4336..20712].iter().all(|&b| b == 0));
    for k in 0..2160 {
        let at = 20712 + 4 * k;
        assert_eq!(&blob[at..at + 4], &SPRAY_WORD);
    }
    assert!(blob[29352..].iter().all(|&b| b == 0));
}

#[test]
fn spray_offset_does_not_depend_on_payload_size() {
    for &t in &[0usize, 1, 8, 0x3FFF, 0x4000, 0x4001, 30000] {
        let blob = build_payload(&target(t), &relocator(64)).unwrap();
        for k in 0..2160 {
            assert_eq!(&blob[20712 + 4 * k..20712 + 4 * k + 4], &SPRAY_WORD);
        }
    }
}

#[test]
fn blob_is_whole_chunks_with_relocator_in_place() {
    for &(r, t) in &[(0usize, 0usize), (1, 1), (64, 8), (3648, 100), (100, 16384), (200, 50000), (17, 183639)] {
        let reloc = relocator(r);
        let blob = build_payload(&target(t), &reloc).unwrap();
        assert_eq!(blob.len() % 0x1000, 0);
        assert_eq!(&blob[HEADER_LEN..HEADER_LEN + r], &reloc[..]);
    }
}

#[test]
fn empty_inputs_give_eight_chunks() {
    let blob = build_payload(&[], &[]).unwrap();
    assert_eq!(blob.len(), 0x8000);
    assert!(blob[4..20712].iter().all(|&b| b == 0));
    assert_eq!(&blob[20712..20716], &SPRAY_WORD);
}

#[test]
fn spray_at_window_offset_for_long_payload() {
    let tgt = target(20000);
    let blob = build_payload(&tgt, &relocator(300)).unwrap();
    let spray = 680 + 0x4E40;
    assert_eq!(&blob[680 + 0xE40..spray], &tgt[..0x4000]);
    for k in 0..2160 {
        assert_eq!(&blob[spray + 4 * k..spray + 4 * k + 4], &SPRAY_WORD);
    }
    let after = spray + 8640;
    assert_eq!(&blob[after..after + (20000 - 0x4000)], &tgt[0x4000..]);
    assert!(blob[after + (20000 - 0x4000)..].iter().all(|&b| b == 0));
}

#[test]
fn aligned_body_gets_a_whole_extra_chunk() {
    // 12968 + 183640 bytes is exactly 48 chunks, so a full chunk of padding follows.
    assert_eq!(
        build_payload(&target(183640), &relocator(10)),
        Err(BuildError::PayloadTooLarge { excess: 3432 })
    );
}

#[test]
fn largest_payload_that_fits() {
    let blob = build_payload(&target(183639), &relocator(10)).unwrap();
    assert_eq!(blob.len(), 196608);
}

#[test]
fn oversize_reports_exact_overage() {
    assert_eq!(
        build_payload(&target(200000), &relocator(64)),
        Err(BuildError::PayloadTooLarge { excess: 15720 })
    );
}

#[test]
fn relocator_past_payload_start_is_refused() {
    assert_eq!(
        build_payload(&target(8), &relocator(0xE41)),
        Err(BuildError::RelocatorTooLarge { size: 0xE41 })
    );
    assert!(build_payload(&target(8), &relocator(0xE40)).is_ok());
}
