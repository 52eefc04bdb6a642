use spore_warriors_core::errors::Error;
use spore_warriors_core::rng::SporeRng;

#[test]
fn fixed_seed_reproduces_stream() {
    let mut a = SporeRng::new(77);
    let mut b = SporeRng::new(77);
    for _ in 0..32 {
        assert_eq!(a.next_u32(), b.next_u32());
    }
    assert_eq!(a.rotation_count(), 0);
}

#[test]
fn different_seeds_diverge() {
    let mut a = SporeRng::new(1);
    let mut b = SporeRng::new(2);
    let left: Vec<u32> = (0..8).map(|_| a.next_u32()).collect();
    let right: Vec<u32> = (0..8).map(|_| b.next_u32()).collect();
    assert_ne!(left, right);
}

#[test]
fn rotation_counts_only_wide_draws() {
    let mut rng = SporeRng::new(9);
    rng.next_u32();
    rng.next_u32();
    assert_eq!(rng.rotation_count(), 0);
    rng.next_u64();
    rng.next_u64();
    rng.next_u64();
    assert_eq!(rng.rotation_count(), 3);
}

#[test]
fn rotate_to_replays_the_same_draw_sequence() {
    // Fast-forwarding to rotation n must equal consuming n draws from the
    // start: the subsequent draw sequences coincide exactly.
    let mut rotated = SporeRng::new(123456);
    assert!(rotated.rotate_to(5).is_ok());
    assert_eq!(rotated.rotation_count(), 5);

    let mut stepped = SporeRng::new(123456);
    for _ in 0..5 {
        stepped.next_u64();
    }
    for _ in 0..16 {
        assert_eq!(rotated.next_u32(), stepped.next_u32());
    }
}

#[test]
fn rotate_to_refuses_moving_backwards() {
    let mut rng = SporeRng::new(4);
    rng.next_u64();
    rng.next_u64();
    assert_eq!(rng.rotate_to(1), Err(Error::RngRotationError));
    assert_eq!(rng.rotation_count(), 2);
    assert!(rng.rotate_to(2).is_ok());
}

#[test]
fn pick_index_stays_in_range() {
    let mut rng = SporeRng::new(31337);
    for len in 1..40usize {
        let i = rng.pick_index(len);
        assert!(i < len);
    }
}
