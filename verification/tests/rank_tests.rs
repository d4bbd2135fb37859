use rknn_driver::buffer::{bytes_until_nul, words_from_le};
use rknn_driver::rank::{comes_before, rank_descending, top_k, total_order_key, Ranked};

fn keys_of(scores: &[f32]) -> Vec<u32> {
    scores.iter().map(|f| total_order_key(f.to_bits())).collect()
}

#[test]
fn top_five_of_synthetic_output_buffer() {
    let scores = [0.1f32, 0.9, 0.3, 0.7, 0.2, 0.05];
    let keys = keys_of(&scores);
    let top = top_k(&keys, 5);
    let indices: Vec<usize> = top.iter().map(|r| r.index).collect();
    assert_eq!(indices, vec![1, 3, 2, 4, 0]);
    let expected = [0.9f32, 0.7, 0.3, 0.2, 0.1];
    for (entry, want) in top.iter().zip(expected.iter()) {
        assert_eq!(entry.value, total_order_key(want.to_bits()));
    }
}

#[test]
fn full_ranking_quotes_every_score_once() {
    let scores = [0.1f32, 0.9, 0.3, 0.7, 0.2, 0.05];
    let keys = keys_of(&scores);
    let ranked = rank_descending(&keys);
    assert_eq!(ranked.len(), keys.len());
    let mut seen = vec![false; keys.len()];
    for r in &ranked {
        assert_eq!(r.value, keys[r.index]);
        assert!(!seen[r.index]);
        seen[r.index] = true;
    }
    assert!(seen.iter().all(|s| *s));
}

#[test]
fn ties_break_by_index_order() {
    let keys: Vec<u32> = vec![5, 5, 3, 5];
    let ranked = rank_descending(&keys);
    let pairs: Vec<(usize, u32)> = ranked.iter().map(|r| (r.index, r.value)).collect();
    assert_eq!(pairs, vec![(0, 5), (1, 5), (3, 5), (2, 3)]);
}

#[test]
fn top_k_longer_than_buffer_returns_all() {
    let keys: Vec<u32> = vec![2, 9];
    let top = top_k(&keys, 5);
    assert_eq!(top.len(), 2);
    assert_eq!(top[0], Ranked { index: 1, value: 9 });
    assert_eq!(top[1], Ranked { index: 0, value: 2 });
}

#[test]
fn total_order_key_agrees_with_float_total_order() {
    let floats = [
        f32::NEG_INFINITY,
        -3.5f32,
        -0.1,
        -0.0,
        0.0,
        0.05,
        0.1,
        0.2,
        0.3,
        0.7,
        0.9,
        3.5,
        f32::INFINITY,
    ];
    for a in &floats {
        for b in &floats {
            let ka = total_order_key(a.to_bits());
            let kb = total_order_key(b.to_bits());
            assert_eq!(ka.cmp(&kb), a.total_cmp(b));
        }
    }
}

#[test]
fn total_order_key_exact_values() {
    // positive floats flip the sign bit; negative floats invert all bits
    assert_eq!(total_order_key(0x0000_0000), 0x8000_0000);
    assert_eq!(total_order_key(0x3f80_0000), 0xbf80_0000);
    assert_eq!(total_order_key(0x8000_0000), 0x7fff_ffff);
    assert_eq!(total_order_key(0xbf80_0000), 0x407f_ffff);
}

#[test]
fn comes_before_orders_by_value_then_index() {
    assert!(comes_before(Ranked { index: 4, value: 9 }, Ranked { index: 0, value: 2 }));
    assert!(comes_before(Ranked { index: 0, value: 9 }, Ranked { index: 1, value: 9 }));
    assert!(!comes_before(Ranked { index: 1, value: 9 }, Ranked { index: 0, value: 9 }));
    assert!(!comes_before(Ranked { index: 0, value: 2 }, Ranked { index: 4, value: 9 }));
}

#[test]
fn words_from_le_reads_float_bits() {
    let scores = [0.1f32, 0.9, 0.3];
    let mut bytes: Vec<u8> = Vec::new();
    for f in &scores {
        bytes.extend_from_slice(&f.to_le_bytes());
    }
    let words = words_from_le(&bytes).expect("whole number of words");
    assert_eq!(words.len(), 3);
    for (w, f) in words.iter().zip(scores.iter()) {
        assert_eq!(*w, f.to_bits());
    }
}

#[test]
fn words_from_le_rejects_ragged_buffer() {
    let bytes: Vec<u8> = vec![1, 2, 3, 4, 5];
    assert!(words_from_le(&bytes).is_none());
    let empty: Vec<u8> = Vec::new();
    assert_eq!(words_from_le(&empty), Some(Vec::new()));
}

#[test]
fn bytes_until_nul_takes_prefix() {
    let chars: Vec<u8> = vec![b'n', b'p', b'u', 0, b'x'];
    assert_eq!(bytes_until_nul(&chars), Some(vec![b'n', b'p', b'u']));
    let unterminated: Vec<u8> = vec![b'a', b'b'];
    assert_eq!(bytes_until_nul(&unterminated), None);
    let empty_name: Vec<u8> = vec![0, b'z'];
    assert_eq!(bytes_until_nul(&empty_name), Some(Vec::new()));
}
