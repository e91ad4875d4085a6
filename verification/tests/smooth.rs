use fvm_shared::bigint::BigInt;
use power_pledge::smooth::{FilterEstimate, PRECISION};

fn big(n: i128) -> BigInt {
    BigInt::from(n)
}

#[test]
fn new_scales_whole_values_up() {
    let e = FilterEstimate::new(big(3), big(-2));
    assert_eq!(e.position, big(3) << 128u32);
    assert_eq!(e.velocity, big(-2) << 128u32);
    assert_eq!(PRECISION, 128);
}

#[test]
fn estimate_is_the_whole_part_of_the_position() {
    let e = FilterEstimate { position: (big(3) << 128u32) + big(5), velocity: big(0) };
    assert_eq!(e.estimate(), big(3));
    let e = FilterEstimate { position: (big(1) << 128u32) - big(1), velocity: big(0) };
    assert_eq!(e.estimate(), big(0));
}

#[test]
fn estimate_rounds_a_negative_position_down() {
    let e = FilterEstimate { position: -(big(5) << 128u32) + big(1), velocity: big(0) };
    assert_eq!(e.estimate(), big(-5));
    let e = FilterEstimate { position: big(-1), velocity: big(0) };
    assert_eq!(e.estimate(), big(-1));
}

#[test]
fn extrapolate_adds_the_velocity_for_each_epoch() {
    let e = FilterEstimate {
        position: (big(3) << 128u32) + big(5),
        velocity: (big(2) << 128u32) + big(1),
    };
    let expected: BigInt =
        "2663218052458272494742132655199821880630313882813547049859475051293478504890368"
            .parse()
            .unwrap();
    assert_eq!(e.extrapolate(10), expected);
    let expected: BigInt =
        "-578960446186580977117854925043439539266009640961281881733824545432133879988224"
            .parse()
            .unwrap();
    assert_eq!(e.extrapolate(-4), expected);
    assert_eq!(e.extrapolate(0), &e.position << 128u32);
}
