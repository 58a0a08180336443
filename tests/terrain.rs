use noise::{NoiseFn, Seedable};
use rand::rngs::StdRng;
use rand::{RngExt, SeedableRng};
use sha2::Digest;
use std::hash::{DefaultHasher, Hash, Hasher};
use terrain_gen::{sample_index, terrain_sample_indices, DrawError, RandBox};

fn sizes(rb: &mut RandBox, n: usize) -> Vec<usize> {
    (0..n).map(|_| rb.rand_usize(0, 1000).unwrap()).collect()
}

#[test]
fn same_seed_gives_same_draws() {
    let mut a = RandBox::new("abc".to_string());
    let mut b = RandBox::new("abc".to_string());
    assert_eq!(sizes(&mut a, 20), sizes(&mut b, 20));
    assert_eq!(a.perlin.seed(), b.perlin.seed());
    assert_eq!(a.simplex.seed(), b.simplex.seed());
}

#[test]
fn different_seeds_give_different_draws() {
    let mut a = RandBox::new("abc".to_string());
    let mut b = RandBox::new("abd".to_string());
    assert_ne!(sizes(&mut a, 20), sizes(&mut b, 20));
}

#[test]
fn reset_replays_the_stream() {
    let mut rb = RandBox::new("terrain".to_string());
    let first = sizes(&mut rb, 10);
    let b1 = rb.rand_u8(3, 200).unwrap();
    let e1 = *rb.rand_element(&['a', 'b', 'c', 'd']).unwrap();
    rb.reset();
    assert_eq!(sizes(&mut rb, 10), first);
    assert_eq!(rb.rand_u8(3, 200).unwrap(), b1);
    assert_eq!(*rb.rand_element(&['a', 'b', 'c', 'd']).unwrap(), e1);
}

#[test]
fn reset_keeps_noise_fields() {
    let mut rb = RandBox::new("terrain".to_string());
    let before = rb.simplex.get([0.3, 0.7]);
    sizes(&mut rb, 5);
    rb.reset();
    assert_eq!(rb.simplex.get([0.3, 0.7]), before);
}

#[test]
fn generator_is_seeded_by_sha256_of_the_text() {
    let mut rb = RandBox::new("abc".to_string());
    let seed: [u8; 32] = sha2::Sha256::digest("abc".as_bytes()).into();
    let mut expected = StdRng::from_seed(seed);
    for _ in 0..10 {
        let want: usize = expected.random_range(0..1000);
        assert_eq!(rb.rand_usize(0, 1000), Ok(want));
    }
}

#[test]
fn simplex_seed_is_one_past_perlin_seed() {
    for text in ["", "abc", "terrain", "a longer seed text"] {
        let rb = RandBox::new(text.to_string());
        assert_eq!(rb.simplex.seed(), rb.perlin.seed().wrapping_add(1));
    }
}

#[test]
fn noise_seeds_differ_between_texts() {
    let a = RandBox::new("abc".to_string());
    let b = RandBox::new("xyz".to_string());
    assert_ne!(a.perlin.seed(), b.perlin.seed());
}

#[test]
fn draws_stay_in_range() {
    let mut rb = RandBox::new("range".to_string());
    for _ in 0..200 {
        let v = rb.rand_u8(10, 20).unwrap();
        assert!((10..20).contains(&v));
        let w = rb.rand_usize(5, 6).unwrap();
        assert_eq!(w, 5);
    }
}

#[test]
fn empty_or_inverted_range_is_rejected() {
    let mut rb = RandBox::new("range".to_string());
    assert_eq!(rb.rand_u8(5, 5), Err(DrawError::InvalidRange));
    assert_eq!(rb.rand_u8(9, 2), Err(DrawError::InvalidRange));
    assert_eq!(rb.rand_usize(7, 7), Err(DrawError::InvalidRange));
    assert_eq!(rb.rand_usize(8, 1), Err(DrawError::InvalidRange));
}

#[test]
fn rejected_draw_leaves_the_stream() {
    let mut a = RandBox::new("stream".to_string());
    let mut b = RandBox::new("stream".to_string());
    assert_eq!(a.rand_usize(3, 3), Err(DrawError::InvalidRange));
    assert_eq!(sizes(&mut a, 5), sizes(&mut b, 5));
}

#[test]
fn pick_from_empty_slice_is_rejected() {
    let mut rb = RandBox::new("pick".to_string());
    let empty: [u32; 0] = [];
    assert_eq!(rb.rand_element(&empty), Err(DrawError::EmptyCollection));
}

#[test]
fn pick_returns_an_element() {
    let mut rb = RandBox::new("pick".to_string());
    let items = [10, 20, 30];
    for _ in 0..50 {
        let v = *rb.rand_element(&items).unwrap();
        assert!(items.contains(&v));
    }
    assert_eq!(*rb.rand_element(&[42]).unwrap(), 42);
}

#[test]
fn noise_fields_stay_in_range() {
    let rb = RandBox::new("abc".to_string());
    for i in 0..40 {
        for j in 0..40 {
            let (x, y) = (i as f64 * 0.37 - 7.0, j as f64 * 0.53 - 9.0);
            let p = rb.perlin.get([x, y]);
            let s = rb.simplex.get([x, y]);
            assert!((-1.0..=1.0).contains(&p));
            assert!((-1.0..=1.0).contains(&s));
            assert!((0.0..=1.0).contains(&((p + 1.0) / 2.0)));
            assert!((0.0..=1.0).contains(&((s + 1.0) / 2.0)));
        }
    }
}

#[test]
fn grid_is_row_major() {
    assert_eq!(
        terrain_sample_indices(2, 2, false, false, false),
        vec![(0, 0), (1, 0), (0, 1), (1, 1)]
    );
}

#[test]
fn grid_identity_transform() {
    let (w, h) = (4usize, 3usize);
    let cells = terrain_sample_indices(w, h, false, false, false);
    assert_eq!(cells.len(), w * h);
    for row in 0..h {
        for col in 0..w {
            assert_eq!(cells[row * w + col], (col as i64, row as i64));
        }
    }
}

#[test]
fn grid_flip_x() {
    assert_eq!(
        terrain_sample_indices(3, 2, true, false, false),
        vec![(2, 0), (1, 0), (0, 0), (2, 1), (1, 1), (0, 1)]
    );
}

#[test]
fn grid_flip_y() {
    assert_eq!(
        terrain_sample_indices(2, 2, false, true, false),
        vec![(0, 1), (1, 1), (0, 0), (1, 0)]
    );
}

#[test]
fn grid_rotate_swaps_indices() {
    assert_eq!(
        terrain_sample_indices(2, 3, false, false, true),
        vec![(0, 0), (0, 1), (1, 0), (1, 1), (2, 0), (2, 1)]
    );
}

#[test]
fn grid_rotate_and_flip_on_non_square_grid() {
    // the column flip spans the width even after the swap
    assert_eq!(sample_index(2, 3, 0, 2, true, false, true), (-1, 0));
    assert_eq!(sample_index(2, 3, 1, 2, false, true, true), (2, 1));
}

#[test]
fn flip_twice_gives_the_column_back() {
    let w = 5usize;
    let once = terrain_sample_indices(w, 1, true, false, false);
    for c in 0..w {
        let f = once[c].0 as usize;
        assert_eq!(once[f].0 as usize, c);
    }
}

#[test]
fn empty_grids() {
    assert!(terrain_sample_indices(0, 5, false, false, false).is_empty());
    assert!(terrain_sample_indices(5, 0, true, true, true).is_empty());
}

#[test]
fn perlin_seed_is_low_half_of_default_hash() {
    for text in ["", "abc", "terrain"] {
        let mut hasher = DefaultHasher::new();
        text.to_string().hash(&mut hasher);
        let expected = (hasher.finish() & 0xFFFF_FFFF) as u32;
        let rb = RandBox::new(text.to_string());
        assert_eq!(rb.perlin.seed(), expected);
        assert_eq!(rb.simplex.seed(), expected.wrapping_add(1));
    }
}

#[test]
fn byte_draws_follow_the_seeded_generator() {
    let mut rb = RandBox::new("bytes".to_string());
    let seed: [u8; 32] = sha2::Sha256::digest("bytes".as_bytes()).into();
    let mut expected = StdRng::from_seed(seed);
    for _ in 0..10 {
        let want: u8 = expected.random_range(7..250);
        assert_eq!(rb.rand_u8(7, 250), Ok(want));
    }
    let want: usize = expected.random_range(0..3);
    assert_eq!(*rb.rand_element(&[0usize, 1, 2]).unwrap(), want);
}

#[test]
fn widest_ranges() {
    let mut rb = RandBox::new("wide".to_string());
    for _ in 0..50 {
        assert!(rb.rand_u8(0, u8::MAX).unwrap() < u8::MAX);
        assert!(rb.rand_usize(0, usize::MAX).unwrap() < usize::MAX);
    }
}
