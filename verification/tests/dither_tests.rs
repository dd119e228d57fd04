use braillix::canvas::dither::{max_brightness, threshold};

#[test]
fn interleave_algorithm() {
    let bayer_3: [[usize; 8]; 8] = [
        [0, 48, 12, 60, 3, 51, 15, 63],
        [32, 16, 44, 28, 35, 19, 47, 31],
        [8, 56, 4, 52, 11, 59, 7, 55],
        [40, 24, 36, 20, 43, 27, 39, 23],
        [2, 50, 14, 62, 1, 49, 13, 61],
        [34, 18, 46, 30, 33, 17, 45, 29],
        [10, 58, 6, 54, 9, 57, 5, 53],
        [42, 26, 38, 22, 41, 25, 37, 21],
    ];

    let dim3 = 1 << 3;
    for y in 0..dim3 {
        for x in 0..dim3 {
            assert_eq!(threshold(x, y), bayer_3[y][x]);
        }
    }
}

#[test]
fn max_brightness_value() {
    assert_eq!(max_brightness(), 64);
}

#[test]
fn threshold_is_periodic() {
    for y in 0..8 {
        for x in 0..8 {
            assert_eq!(threshold(x, y), threshold(x + 8, y));
            assert_eq!(threshold(x, y), threshold(x, y + 24));
            assert_eq!(threshold(x, y), threshold(x + 16, y + 8));
        }
    }
}
