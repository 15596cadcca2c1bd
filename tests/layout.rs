use charts::{
    add, bar_colors, date_label, decimal_string, greet, grid_levels, line_order, order_key,
    time_grid_levels, time_order, BarColor, GridLevel, GRID_STEPS,
};

fn key(x: f64) -> Option<u64> {
    order_key(x.to_bits())
}

#[test]
fn empty_store_has_no_line_and_no_time_grid_but_full_price_grid() {
    let none: Vec<u64> = Vec::new();
    assert!(line_order(&none).is_empty());
    assert!(time_grid_levels(0).is_empty());
    assert_eq!(grid_levels().len(), 11);
}

#[test]
fn single_sample_has_no_line_and_no_time_grid() {
    assert!(line_order(&vec![42]).is_empty());
    assert!(time_grid_levels(1).is_empty());
    assert!(!grid_levels().is_empty());
}

#[test]
fn two_samples_get_a_line_and_a_time_grid() {
    assert_eq!(line_order(&vec![9, 4]), vec![1, 0]);
    assert_eq!(time_grid_levels(2), grid_levels());
}

#[test]
fn grid_has_eleven_levels_with_majors_every_fifth() {
    let levels = grid_levels();
    assert_eq!(GRID_STEPS, 10);
    assert_eq!(levels.len(), 11);
    for (i, level) in levels.iter().enumerate() {
        assert_eq!(level.step as usize, i);
        assert_eq!(level.major, i == 0 || i == 5 || i == 10);
    }
    assert_eq!(levels[5], GridLevel { step: 5, major: true });
    assert_eq!(levels[3], GridLevel { step: 3, major: false });
}

#[test]
fn time_order_sorts_ascending() {
    assert_eq!(time_order(&vec![30, 10, 20]), vec![1, 2, 0]);
}

#[test]
fn time_order_keeps_storage_order_on_equal_keys() {
    assert_eq!(time_order(&vec![5, 3, 5, 3, 1]), vec![4, 1, 3, 0, 2]);
}

#[test]
fn time_order_of_nothing_and_of_one() {
    assert!(time_order(&Vec::new()).is_empty());
    assert_eq!(time_order(&vec![7]), vec![0]);
}

#[test]
fn time_order_of_timestamps_with_float_keys() {
    let stamps = [3000.0, -5.0, 1000.0, 0.0, -0.0];
    let keys: Vec<u64> = stamps.iter().map(|t| key(*t).unwrap()).collect();
    assert_eq!(time_order(&keys), vec![1, 3, 4, 2, 0]);
}

#[test]
fn volume_colors_up_up_down() {
    let prices = vec![key(100.0), key(105.0), key(102.0)];
    assert_eq!(
        bar_colors(&prices),
        vec![BarColor::Up, BarColor::Up, BarColor::Down]
    );
    let plain = vec![Some(100), Some(105), Some(102)];
    assert_eq!(
        bar_colors(&plain),
        vec![BarColor::Up, BarColor::Up, BarColor::Down]
    );
}

#[test]
fn volume_colors_equal_price_is_up_and_first_is_up() {
    assert_eq!(bar_colors(&vec![key(7.0), key(7.0)]), vec![BarColor::Up, BarColor::Up]);
    assert_eq!(bar_colors(&vec![key(f64::NAN)]), vec![BarColor::Up]);
    assert!(bar_colors(&Vec::new()).is_empty());
}

#[test]
fn volume_colors_nan_is_down() {
    let prices = vec![key(1.0), key(f64::NAN), key(2.0)];
    assert_eq!(
        bar_colors(&prices),
        vec![BarColor::Up, BarColor::Down, BarColor::Down]
    );
}

#[test]
fn bar_color_fills() {
    assert_eq!(BarColor::Up.css(), "rgba(33, 150, 243, 0.5)");
    assert_eq!(BarColor::Down.css(), "rgba(244, 67, 54, 0.5)");
}

#[test]
fn order_key_follows_float_order() {
    let xs = [
        f64::NEG_INFINITY,
        f64::MIN,
        -2.5,
        -1.0,
        -f64::MIN_POSITIVE,
        0.0,
        f64::MIN_POSITIVE,
        1.0,
        2.5,
        f64::MAX,
        f64::INFINITY,
    ];
    for a in xs {
        for b in xs {
            assert_eq!(key(a).unwrap() <= key(b).unwrap(), a <= b, "{} {}", a, b);
            assert_eq!(key(a).unwrap() == key(b).unwrap(), a == b, "{} {}", a, b);
        }
    }
}

#[test]
fn order_key_zeroes_and_nan() {
    assert_eq!(key(0.0), key(-0.0));
    assert_eq!(key(0.0), Some(0x8000_0000_0000_0000));
    assert_eq!(key(f64::NAN), None);
    assert_eq!(key(-f64::NAN), None);
    assert_eq!(key(1.0), Some(0x8000_0000_0000_0000 + 1.0f64.to_bits()));
}

#[test]
fn date_labels() {
    assert_eq!(date_label(4, 17), "5/17");
    assert_eq!(date_label(0, 1), "1/1");
    assert_eq!(date_label(11, 31), "12/31");
    assert_eq!(date_label(9, 0), "10/0");
}

#[test]
fn decimal_strings() {
    assert_eq!(decimal_string(0), "0");
    assert_eq!(decimal_string(7), "7");
    assert_eq!(decimal_string(10), "10");
    assert_eq!(decimal_string(1203), "1203");
    assert_eq!(decimal_string(u32::MAX), "4294967295");
}

#[test]
fn greeting() {
    assert_eq!(greet("chart"), "Hello chart from Rust WASM!");
    assert_eq!(greet(""), "Hello  from Rust WASM!");
}

#[test]
fn addition() {
    assert_eq!(add(2, 3), 5);
    assert_eq!(add(-7, 4), -3);
    assert_eq!(add(i32::MAX, 0), i32::MAX);
}
