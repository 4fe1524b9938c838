use mproc::mem_fmt::get_mem_string;
use mproc::mem_fmt::to_decimal;

#[test]
fn zero_bytes() {
    assert_eq!(get_mem_string(0), "0 B");
}

#[test]
fn one_byte() {
    assert_eq!(get_mem_string(1), "1 B");
}

#[test]
fn just_below_one_kib() {
    assert_eq!(get_mem_string(1023), "1023 B");
}

#[test]
fn exactly_one_kib_moves_up_a_unit() {
    assert_eq!(get_mem_string(1024), "1 KiB");
}

#[test]
fn fraction_truncates() {
    assert_eq!(get_mem_string(1536), "1 KiB");
    assert_eq!(get_mem_string(2047), "1 KiB");
    assert_eq!(get_mem_string(2048), "2 KiB");
}

#[test]
fn one_mib() {
    assert_eq!(get_mem_string(1024 * 1024), "1 MiB");
}

#[test]
fn fifteen_mib() {
    assert_eq!(get_mem_string(15 * 1024 * 1024), "15 MiB");
}

#[test]
fn one_gib_tib_and_beyond() {
    assert_eq!(get_mem_string(1 << 30), "1 GiB");
    assert_eq!(get_mem_string(1 << 40), "1 TiB");
    assert_eq!(get_mem_string(1 << 50), "1 EiB");
    assert_eq!(get_mem_string(1 << 60), "1 PiB");
}

#[test]
fn clamps_at_the_last_unit() {
    assert_eq!(get_mem_string(usize::MAX), "15 PiB");
}

#[test]
fn format_is_deterministic() {
    for b in [0usize, 1, 999, 1024, 123_456_789, usize::MAX] {
        let first = get_mem_string(b);
        assert!(!first.is_empty());
        assert_eq!(first, get_mem_string(b));
    }
}

#[test]
fn decimal_rendering() {
    assert_eq!(to_decimal(0), "0");
    assert_eq!(to_decimal(9), "9");
    assert_eq!(to_decimal(10), "10");
    assert_eq!(to_decimal(305), "305");
    assert_eq!(to_decimal(u64::MAX), "18446744073709551615");
}
