use terrain_view::codec::{decode_words, encode_words};
use terrain_view::params::{init_params, RayParams, TerrainParams, TimeUniform, ViewParams};
use terrain_view::readback::{
    decode_records, interleave, read_pair, BufferMapping, DebugRecord, PairFailure,
};

#[test]
fn words_are_little_endian() {
    assert_eq!(encode_words(&[0x3f80_0000, 0x0102_0304]), vec![0, 0, 0x80, 0x3f, 4, 3, 2, 1]);
    assert_eq!(decode_words(&[4, 3, 2, 1, 0xff]), vec![0x0102_0304]);
}

#[test]
fn ray_params_round_trip() {
    let p = RayParams { epsilon: 0.25f32.to_bits(), max_dist: 1500.0f32.to_bits(), max_steps: 7 };
    let bytes = p.to_bytes();
    assert_eq!(bytes.len(), 12);
    assert_eq!(&bytes[..4], &0.25f32.to_le_bytes());
    assert_eq!(RayParams::from_bytes(&bytes), Some(p));
    assert_eq!(RayParams::from_bytes(&bytes[..11]), None);
}

#[test]
fn view_params_round_trip() {
    let p = init_params().view_params;
    let bytes = p.to_bytes();
    assert_eq!(bytes.len(), 28);
    assert_eq!(&bytes[8..12], &1.0f32.to_le_bytes());
    assert_eq!(ViewParams::from_bytes(&bytes), Some(p));
}

#[test]
fn terrain_params_round_trip() {
    let p = TerrainParams { f1_octaves: 7, f2_octaves: -3, f3_octaves: i32::MIN };
    let bytes = p.to_bytes();
    assert_eq!(&bytes[4..8], &(-3i32).to_le_bytes());
    assert_eq!(TerrainParams::from_bytes(&bytes), Some(p));
}

#[test]
fn time_uniform_bytes() {
    let t = TimeUniform { time: 2.5f32.to_bits() };
    assert_eq!(t.to_bytes(), 2.5f32.to_le_bytes().to_vec());
}

#[test]
fn initial_params_values() {
    let p = init_params();
    assert_eq!(f32::from_bits(p.ray_params.epsilon), 0.01);
    assert_eq!(f32::from_bits(p.ray_params.max_dist), 1500.0);
    assert_eq!(f32::from_bits(p.ray_params.max_steps), 2500.0);
    assert_eq!(f32::from_bits(p.view_params.zoom), 1.0);
    assert_eq!(f32::from_bits(p.view_params.x_shift), 0.0);
    assert_eq!(f32::from_bits(p.view_params.time_modifier), 1.0);
    assert_eq!(f32::from_bits(p.view_params.fov_degrees), 90.0);
    assert_eq!(p.terrain_params.f2_octaves, 7);
}

#[test]
fn zero_buffer_reads_zero_records() {
    let bytes = vec![0u8; 16 * 512];
    let records = decode_records(&bytes);
    assert_eq!(records.len(), 512);
    assert!(records.iter().all(|r| *r == DebugRecord { x: 0, y: 0, z: 0, w: 0 }));
}

#[test]
fn records_in_index_order() {
    let mut bytes = Vec::new();
    for v in [1.0f32, 2.0, 3.0, 4.0, 5.0, 6.0, 7.0, 8.0] {
        bytes.extend_from_slice(&v.to_le_bytes());
    }
    bytes.push(9);
    let records = decode_records(&bytes);
    assert_eq!(records.len(), 2);
    assert_eq!(f32::from_bits(records[1].x), 5.0);
    assert_eq!(f32::from_bits(records[0].w), 4.0);
}

#[test]
fn interleave_pairs_index_by_index() {
    let a = vec![DebugRecord { x: 1, y: 0, z: 0, w: 0 }, DebugRecord { x: 2, y: 0, z: 0, w: 0 }];
    let b = vec![DebugRecord { x: 3, y: 0, z: 0, w: 0 }];
    let pairs = interleave(&a, &b);
    assert_eq!(pairs, vec![(a[0], b[0])]);
}

#[test]
fn read_pair_reports_each_failure() {
    let ok = Some(vec![0u8; 32]);
    assert_eq!(
        read_pair(None, ok.clone()),
        Err(PairFailure { first_failed: true, second_failed: false })
    );
    assert_eq!(
        read_pair(ok.clone(), None),
        Err(PairFailure { first_failed: false, second_failed: true })
    );
    assert_eq!(read_pair(None, None), Err(PairFailure { first_failed: true, second_failed: true }));
    let pairs = read_pair(ok.clone(), Some(vec![0u8; 48])).unwrap();
    assert_eq!(pairs.len(), 2);
}

#[test]
fn mapping_cycle_confirmed() {
    let mut m = BufferMapping::new();
    assert!(m.can_copy_into());
    assert!(!m.can_read());
    assert!(m.request());
    assert!(!m.request());
    assert!(!m.can_copy_into());
    assert!(!m.can_read());
    assert!(m.complete(true));
    assert!(m.can_read());
    assert!(!m.can_copy_into());
    assert!(m.release());
    assert!(m.can_copy_into());
    assert!(!m.release());
}

#[test]
fn mapping_cycle_refused() {
    let mut m = BufferMapping::new();
    assert!(!m.complete(true));
    assert!(m.request());
    assert!(!m.complete(false));
    assert!(!m.can_read());
    assert!(!m.release());
    assert!(m.can_copy_into());
}
