use enum_derived::sampler::Rand;
use enum_derived::{select_variant, WeightError};
use rand::rngs::StdRng;
use rand::SeedableRng;

#[test]
fn no_weight_has_no_distribution() {
    let mut rng = StdRng::seed_from_u64(1);
    assert_eq!(select_variant(&vec![], &mut rng), Err(WeightError::NoItem));
}

#[test]
fn negative_weight_has_no_distribution() {
    let mut rng = StdRng::seed_from_u64(1);
    assert_eq!(select_variant(&vec![-1], &mut rng), Err(WeightError::InvalidWeight));
    assert_eq!(select_variant(&vec![3, 0, -1, 4], &mut rng), Err(WeightError::InvalidWeight));
    assert_eq!(select_variant(&vec![0, 0, i64::MIN], &mut rng), Err(WeightError::InvalidWeight));
}

#[test]
fn weights_beyond_the_range_have_no_distribution() {
    let mut rng = StdRng::seed_from_u64(1);
    assert_eq!(select_variant(&vec![i64::MAX, 1], &mut rng), Err(WeightError::InvalidWeight));
    assert_eq!(
        select_variant(&vec![i64::MAX, 0, i64::MAX], &mut rng),
        Err(WeightError::InvalidWeight)
    );
    assert_eq!(select_variant(&vec![1, i64::MAX, -1], &mut rng), Err(WeightError::InvalidWeight));
}

#[test]
fn zero_weights_have_no_distribution() {
    let mut rng = StdRng::seed_from_u64(1);
    assert_eq!(select_variant(&vec![0], &mut rng), Err(WeightError::AllWeightsZero));
    assert_eq!(select_variant(&vec![0, 0, 0], &mut rng), Err(WeightError::AllWeightsZero));
}

#[test]
fn largest_total_has_a_distribution() {
    let mut rng = StdRng::seed_from_u64(1);
    let weights = vec![i64::MAX - 1, 0, 1];
    for _ in 0..100 {
        let i = select_variant(&weights, &mut rng).unwrap();
        assert!(i == 0 || i == 2);
    }
}

#[test]
fn single_weight_is_always_picked() {
    let mut rng = StdRng::seed_from_u64(9);
    for _ in 0..100 {
        assert_eq!(select_variant(&vec![7], &mut rng), Ok(0));
    }
    for _ in 0..100 {
        assert_eq!(select_variant(&vec![0, 0, 5, 0], &mut rng), Ok(2));
    }
}

#[test]
fn zero_weight_is_never_picked_and_the_others_all_are() {
    let mut rng = StdRng::seed_from_u64(42);
    let weights = vec![3, 0, 1, 0, 6];
    let mut seen = vec![0u32; weights.len()];
    for _ in 0..2000 {
        let i = select_variant(&weights, &mut rng).unwrap();
        assert!(i < weights.len());
        seen[i] += 1;
    }
    assert!(seen[0] > 0);
    assert_eq!(seen[1], 0);
    assert!(seen[2] > 0);
    assert_eq!(seen[3], 0);
    assert!(seen[4] > 0);
}

#[test]
fn frequency_follows_the_weights() {
    let mut rng = StdRng::seed_from_u64(2024);
    let draws = 40_000;
    let mut first = 0u32;
    for _ in 0..draws {
        if select_variant(&vec![1, 3], &mut rng).unwrap() == 0 {
            first += 1;
        }
    }
    let frequency = first as f64 / draws as f64;
    assert!((frequency - 0.25).abs() < 0.02, "frequency {frequency}");
}

#[test]
fn same_seed_gives_the_same_picks() {
    let weights = vec![2, 5, 1, 9];
    let mut a = StdRng::seed_from_u64(77);
    let mut b = StdRng::seed_from_u64(77);
    for _ in 0..200 {
        assert_eq!(select_variant(&weights, &mut a), select_variant(&weights, &mut b));
    }
}

#[test]
fn scalars_have_an_entry_point() {
    let mut rng = StdRng::seed_from_u64(5);
    let mut bytes = std::collections::HashSet::new();
    let mut flags = std::collections::HashSet::new();
    for _ in 0..10_000 {
        bytes.insert(<u8 as Rand<()>>::rand(&(), &mut rng));
        flags.insert(<bool as Rand<()>>::rand(&(), &mut rng));
    }
    assert_eq!(bytes.len(), 256);
    assert_eq!(flags.len(), 2);
    let wide: u64 = <u64 as Rand<()>>::rand(&(), &mut rng);
    let other: u64 = <u64 as Rand<()>>::rand(&(), &mut rng);
    assert_ne!(wide, other);
}

#[test]
fn scalars_have_no_entry_point_without_a_context() {
    assert_eq!(<u8 as Rand<()>>::rand_deprecated(), None);
    assert_eq!(<bool as Rand<()>>::rand_deprecated(), None);
    assert_eq!(<i64 as Rand<()>>::rand_deprecated(), None);
}

#[test]
fn wide_and_pointer_sized_scalars_have_an_entry_point() {
    let mut rng = StdRng::seed_from_u64(21);
    let mut wide = std::collections::HashSet::new();
    let mut signed = std::collections::HashSet::new();
    let mut sizes = std::collections::HashSet::new();
    let mut offsets = std::collections::HashSet::new();
    let mut chars = std::collections::HashSet::new();
    for _ in 0..100 {
        wide.insert(<u128 as Rand<()>>::rand(&(), &mut rng));
        signed.insert(<i128 as Rand<()>>::rand(&(), &mut rng));
        sizes.insert(<usize as Rand<()>>::rand(&(), &mut rng));
        offsets.insert(<isize as Rand<()>>::rand(&(), &mut rng));
        chars.insert(<char as Rand<()>>::rand(&(), &mut rng));
    }
    assert_eq!(wide.len(), 100);
    assert_eq!(signed.len(), 100);
    assert_eq!(sizes.len(), 100);
    assert_eq!(offsets.len(), 100);
    assert!(chars.len() > 90);
    assert!(wide.iter().any(|v| *v > u64::MAX as u128));
    assert!(signed.iter().any(|v| *v < 0));
    assert!(offsets.iter().any(|v| *v < 0));
    assert_eq!(<char as Rand<()>>::rand_deprecated(), None);
}
