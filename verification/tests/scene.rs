use solas::scene::nearest_hit_index;

#[test]
fn empty_scene_misses() {
    let keys: Vec<Option<u64>> = vec![];
    assert_eq!(nearest_hit_index(&keys), None);
}

#[test]
fn all_misses_resolve_to_none() {
    let keys: Vec<Option<u64>> = vec![None, None, None];
    assert_eq!(nearest_hit_index(&keys), None);
}

#[test]
fn single_hit_is_kept() {
    let keys: Vec<Option<u64>> = vec![None, Some(42), None];
    assert_eq!(nearest_hit_index(&keys), Some(1));
}

#[test]
fn overlapping_hits_resolve_to_the_nearer() {
    // Two spheres both hit along one ray: the smaller parameter wins.
    let near = 3.0f64.to_bits();
    let far = 7.0f64.to_bits();
    assert_eq!(nearest_hit_index(&vec![Some(far), Some(near)]), Some(1));
}

#[test]
fn swapping_the_spheres_gives_the_same_hit() {
    let near = 3.0f64.to_bits();
    let far = 7.0f64.to_bits();
    let one_order = nearest_hit_index(&vec![Some(far), Some(near)]).unwrap();
    let other_order = nearest_hit_index(&vec![Some(near), Some(far)]).unwrap();
    assert_eq!(vec![Some(far), Some(near)][one_order], Some(near));
    assert_eq!(vec![Some(near), Some(far)][other_order], Some(near));
}

#[test]
fn equal_hits_keep_the_first() {
    let t = 5.0f64.to_bits();
    assert_eq!(nearest_hit_index(&vec![None, Some(t), Some(t)]), Some(1));
}

// The near-root ray parameter of a sphere centered on the z axis, for a
// ray from the origin down the negative z axis.
fn near_root(center_z: f64, radius: f64) -> f64 {
    // oc = origin - center = (0, 0, -center_z); direction = (0, 0, -1).
    let a = 1.0;
    let b = center_z;
    let c = center_z * center_z - radius * radius;
    let discriminant: f64 = b * b - a * c;
    assert!(discriminant >= 0.0);
    (-b - discriminant.sqrt()) / a
}

#[test]
fn overlapping_spheres_resolve_to_the_smaller_parameter() {
    // Two spheres that overlap in space, both crossed by one ray; the
    // resolved hit is the one with the smaller ray parameter, and listing
    // the spheres in the other order picks the same hit.
    let t_near = near_root(-3.0, 1.5);
    let t_far = near_root(-4.0, 1.5);
    assert!(0.001 < t_near && t_near < t_far && t_far < 10000.0);

    let keys = vec![Some(t_near.to_bits()), Some(t_far.to_bits())];
    let swapped = vec![Some(t_far.to_bits()), Some(t_near.to_bits())];
    let picked = nearest_hit_index(&keys).unwrap();
    let picked_swapped = nearest_hit_index(&swapped).unwrap();
    assert_eq!(keys[picked], Some(t_near.to_bits()));
    assert_eq!(swapped[picked_swapped], Some(t_near.to_bits()));
}

#[test]
fn float_bits_order_as_the_floats_do() {
    // The keys handed to the selection are bit patterns of positive finite
    // doubles, which compare as unsigned integers exactly as the doubles
    // compare: check the corners the tracer meets.
    let samples: [f64; 6] = [0.001, 0.5, 1.0, 3.5, 999.0, 10000.0];
    for a in samples {
        for b in samples {
            assert_eq!(a < b, a.to_bits() < b.to_bits());
        }
    }
}
