use nyx::Bps;

fn with_floats(n: u64) -> String {
    let value = n as f64;
    if n < 1024 {
        format!("{:.2} B/s", value)
    } else if n < 1_048_576 {
        format!("{:.2} KiB/s", value / 1024.0)
    } else if n < 1_073_741_824 {
        format!("{:.2} MiB/s", value / 1_048_576.0)
    } else if n < 1_099_511_627_776 {
        format!("{:.2} GiB/s", value / 1_073_741_824.0)
    } else {
        format!("{:.2} TiB/s", value / 1_099_511_627_776.0)
    }
}

#[test]
fn formats_the_first_rate_of_each_band() {
    assert_eq!(Bps(0).to_string(), "0.00 B/s");
    assert_eq!(Bps(1).to_string(), "1.00 B/s");
    assert_eq!(Bps(1024).to_string(), "1.00 KiB/s");
    assert_eq!(Bps(1_048_576).to_string(), "1.00 MiB/s");
    assert_eq!(Bps(1_073_741_824).to_string(), "1.00 GiB/s");
    assert_eq!(Bps(1_099_511_627_776).to_string(), "1.00 TiB/s");
}

#[test]
fn formats_the_last_rate_of_each_band() {
    assert_eq!(Bps(1023).to_string(), "1023.00 B/s");
    assert_eq!(Bps(1_048_575).to_string(), "1024.00 KiB/s");
    assert_eq!(Bps(1_073_741_823).to_string(), "1024.00 MiB/s");
    assert_eq!(Bps(1_099_511_627_775).to_string(), "1024.00 GiB/s");
    assert_eq!(Bps(u64::MAX).to_string(), "16777216.00 TiB/s");
}

#[test]
fn rounds_a_tie_to_the_even_hundredth() {
    assert_eq!(Bps(1152).to_string(), "1.12 KiB/s");
    assert_eq!(Bps(1408).to_string(), "1.38 KiB/s");
    assert_eq!(Bps(1152).to_string(), with_floats(1152));
    assert_eq!(Bps(1408).to_string(), with_floats(1408));
}

#[test]
fn agrees_with_float_formatting_near_band_edges() {
    let edges: [u64; 4] = [1024, 1_048_576, 1_073_741_824, 1_099_511_627_776];
    for edge in edges {
        for offset in 0..2000u64 {
            assert_eq!(Bps(edge + offset).to_string(), with_floats(edge + offset));
            assert_eq!(Bps(edge - 1 - offset % 1024).to_string(), with_floats(edge - 1 - offset % 1024));
        }
    }
}

#[test]
fn agrees_with_float_formatting_across_the_range() {
    let mut n: u64 = 1;
    let mut state: u64 = 0x9E37_79B9_7F4A_7C15;
    for _ in 0..200_000 {
        state = state.wrapping_mul(6364136223846793005).wrapping_add(1442695040888963407);
        let shift = (state >> 58) as u32;
        n = (state ^ n.rotate_left(17)) >> shift;
        assert_eq!(Bps(n).to_string(), with_floats(n), "rate {}", n);
    }
}

#[test]
fn agrees_with_float_formatting_at_the_top() {
    for offset in 0..5000u64 {
        let n = u64::MAX - offset;
        assert_eq!(Bps(n).to_string(), with_floats(n));
        let m = (1u64 << 53) - 2500 + offset;
        assert_eq!(Bps(m).to_string(), with_floats(m));
    }
}

#[test]
fn renders_the_digits_of_the_nearest_double() {
    // 3181593229030651327 / 2^40 is 2893642.1849999..., but the nearest
    // double is 3181593229030651392, and that over 2^40 is 2893642.1850000...
    assert_eq!(Bps(3_181_593_229_030_651_327).to_string(), "2893642.19 TiB/s");
    assert_eq!(Bps(3_181_593_229_030_651_327).to_string(), with_floats(3_181_593_229_030_651_327));
    assert_eq!(Bps(13_448_953_612_545_483_080).to_string(), with_floats(13_448_953_612_545_483_080));
}
