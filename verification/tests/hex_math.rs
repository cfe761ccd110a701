use hexmap::fixed::FRAC_ONE;
use hexmap::hex::{round_hex, world_to_cube, FracCube, HexCell};

const ONE: i64 = FRAC_ONE;

#[test]
fn round_cube_sums_to_zero() {
    let inputs = vec![
        FracCube { x: 98304, y: 19661, z: -117965 },
        FracCube { x: 1, y: 2, z: -3 },
        FracCube { x: -90000, y: 50000, z: 40000 },
        FracCube { x: 7 * ONE + 123, y: -3 * ONE - 456, z: -4 * ONE + 333 },
        FracCube { x: 0, y: 0, z: 0 },
    ];
    for f in inputs {
        let h = round_hex(f);
        assert_eq!(h.x as i64 + h.y as i64 + h.z as i64, 0);
    }
}

#[test]
fn round_cube_resets_largest_error_axis() {
    // (1.5, 0.3, -1.8): x rounds to 2 with the largest error, so x is
    // reset to -(y + z).
    let f = FracCube { x: 98304, y: 19661, z: -117965 };
    let h = round_hex(f);
    assert_eq!(h, HexCell { x: 2, y: 0, z: -2 });
}

#[test]
fn round_cube_exact_input_is_fixed() {
    let f = FracCube { x: 3 * ONE, y: -1 * ONE, z: -2 * ONE };
    let h = round_hex(f);
    assert_eq!(h, HexCell { x: 3, y: -1, z: -2 });
}

#[test]
fn round_cube_tie_prefers_earlier_axis() {
    // (0.5, -0.5, 0): x and y err by exactly half a unit each. The x
    // condition demands a strictly largest error, so the y branch wins.
    let f = FracCube { x: ONE / 2, y: -ONE / 2, z: 0 };
    let h = round_hex(f);
    assert_eq!(h, HexCell { x: 1, y: -1, z: 0 });
}

#[test]
fn world_to_cube_axes_cancel() {
    let f = world_to_cube(0, ONE);
    assert_eq!(f.x + f.y + f.z, 0);
    // q = (65536 * 37838) / 65536 exactly.
    assert_eq!(f, FracCube { x: -37838, y: 75676, z: -37838 });
}

#[test]
fn round_cube_negative_half_rounds_away_from_zero() {
    // (-0.5, 0.5, 0): both halves round away from zero, to -1 and 1; the
    // y axis then absorbs the correction and the result is unchanged.
    let f = FracCube { x: -ONE / 2, y: ONE / 2, z: 0 };
    let h = round_hex(f);
    assert_eq!(h, HexCell { x: -1, y: 1, z: 0 });
}

#[test]
fn world_to_cube_negative_axis() {
    let f = world_to_cube(0, -ONE);
    assert_eq!(f, FracCube { x: 37838, y: -75676, z: 37838 });
    assert_eq!(f.x + f.y + f.z, 0);
}

#[test]
fn world_to_cube_x_axis_unit() {
    let f = world_to_cube(ONE, 0);
    assert_eq!(f, FracCube { x: ONE, y: 0, z: -ONE });
    let h = round_hex(f);
    assert_eq!(h, HexCell { x: 1, y: 0, z: -1 });
}
