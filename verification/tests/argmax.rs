use canary_engine::logits::argmax;

fn bits(values: &[f32]) -> Vec<u32> {
    values.iter().map(|v| v.to_bits()).collect()
}

fn reference(values: &[f32]) -> usize {
    let mut max_idx = 0;
    let mut max_val = f32::NEG_INFINITY;
    for (i, &v) in values.iter().enumerate() {
        if v > max_val {
            max_val = v;
            max_idx = i;
        }
    }
    max_idx
}

#[test]
fn test_argmax() {
    assert_eq!(argmax(&bits(&[1.0, 3.0, 2.0])), 1);
    assert_eq!(argmax(&bits(&[-1.0, -3.0, -0.5])), 2);
    assert_eq!(argmax(&bits(&[5.0])), 0);
}

#[test]
fn argmax_of_nothing_is_zero() {
    assert_eq!(argmax(&[]), 0);
}

#[test]
fn argmax_takes_the_first_of_equals() {
    assert_eq!(argmax(&bits(&[1.0, 7.0, 7.0, 2.0])), 1);
    assert_eq!(argmax(&bits(&[-0.0, 0.0])), 0);
    assert_eq!(argmax(&bits(&[0.0, -0.0])), 0);
}

#[test]
fn argmax_passes_over_what_is_not_a_number() {
    assert_eq!(argmax(&bits(&[f32::NAN, 1.0, f32::NAN, 2.0, -f32::NAN])), 3);
    assert_eq!(argmax(&bits(&[f32::NAN, f32::NAN])), 0);
}

#[test]
fn argmax_of_minus_infinities_is_zero() {
    let inf = f32::NEG_INFINITY;
    assert_eq!(argmax(&bits(&[f32::NAN, inf, inf])), 0);
    assert_eq!(argmax(&bits(&[inf, inf, f32::MIN])), 2);
    assert_eq!(argmax(&bits(&[1.0, f32::INFINITY])), 1);
}

#[test]
fn argmax_orders_as_the_numbers_are_ordered() {
    let values = [
        f32::NEG_INFINITY,
        f32::MIN,
        -1.5,
        -f32::MIN_POSITIVE,
        -1.0e-45,
        -0.0,
        0.0,
        1.0e-45,
        f32::MIN_POSITIVE,
        0.5,
        3.0e9,
        f32::MAX,
        f32::INFINITY,
        f32::NAN,
        -f32::NAN,
    ];
    for &a in values.iter() {
        for &b in values.iter() {
            for &c in values.iter() {
                let s = [a, b, c];
                assert_eq!(argmax(&bits(&s)), reference(&s), "{:?}", s);
            }
        }
    }
}
