use std::path::Path;

use byte_unit::{Byte, ByteUnit};
use xcompress::compression::{volume_argument, volume_size};
use xcompress::text::{decimal, lower_char, lower_chars, stem_of};

#[test]
fn decimal_numerals() {
    assert_eq!(decimal(0), "0");
    assert_eq!(decimal(7), "7");
    assert_eq!(decimal(10), "10");
    assert_eq!(decimal(4096), "4096");
    assert_eq!(decimal(u64::MAX), "18446744073709551615");
}

#[test]
fn ascii_case_folding() {
    assert_eq!(lower_char('A'), 'a');
    assert_eq!(lower_char('Z'), 'z');
    assert_eq!(lower_char('m'), 'm');
    assert_eq!(lower_char('7'), '7');
    assert_eq!(lower_char('É'), 'É');
    assert_eq!(lower_chars("A.Tar.GZ"), vec!['a', '.', 't', 'a', 'r', '.', 'g', 'z']);
}

#[test]
fn stems_of_file_names() {
    assert_eq!(stem_of("out.zip"), "out");
    assert_eq!(stem_of("a.tar.gz"), "a.tar");
    assert_eq!(stem_of("noext"), "noext");
    assert_eq!(stem_of(".hidden"), ".hidden");
    assert_eq!(stem_of(".hidden.gz"), ".hidden");
    assert_eq!(stem_of("trailing."), "trailing");
    assert_eq!(stem_of(".."), "..");
    assert_eq!(stem_of(""), "");
}

#[test]
fn volume_sizes_round_to_the_nearest_kib() {
    assert_eq!(volume_size(65536), 64);
    assert_eq!(volume_size(102400), 100);
    assert_eq!(volume_size(100000), 98);
    assert_eq!(volume_size(66047), 64);
    assert_eq!(volume_size(66048), 65);
    assert_eq!(volume_size(0), 0);
    assert_eq!(volume_size(511), 0);
    assert_eq!(volume_size(512), 1);
}

#[test]
fn volume_sizes_are_capped() {
    assert_eq!(volume_size(u128::MAX), u32::MAX);
    assert_eq!(volume_size(4398046510080), 4294967295);
    assert_eq!(volume_size(4398046509568), 4294967295);
    assert_eq!(volume_size(4398046509567), 4294967294);
}

#[test]
fn volume_arguments_end_in_k() {
    assert_eq!(volume_argument(102400), "100k");
    assert_eq!(volume_argument(65536), "64k");
}

#[test]
fn volume_sizes_agree_with_rounded_kib_of_byte_unit() {
    let mut samples: Vec<u128> = vec![0, 1, 511, 512, 513, 1023, 1024, 1535, 1536, 1537, 65535, 65536];
    for shift in 10..128u32 {
        let power = 1u128 << shift;
        for delta in [0u128, 1, 511, 512, 513, 1023] {
            samples.push(power.saturating_add(delta));
            samples.push(power - delta.min(power));
            samples.push((power / 3).saturating_add(delta));
        }
    }
    samples.push(u128::MAX);
    samples.push(u32::MAX as u128 * 1024);
    samples.push(u32::MAX as u128 * 1024 + 511);
    samples.push(u32::MAX as u128 * 1024 + 512);
    samples.push(u32::MAX as u128 * 1024 - 512);
    samples.push(u32::MAX as u128 * 1024 - 513);
    for bytes in samples {
        let expected = Byte::from_bytes(bytes).get_adjusted_unit(ByteUnit::KiB).get_value().round() as u32;
        assert_eq!(volume_size(bytes), expected, "{} bytes", bytes);
    }
}

#[test]
fn stems_agree_with_the_standard_library() {
    for name in [
        "out.zip", "a.tar.gz", "noext", ".hidden", ".hidden.gz", "trailing.", "..a", "a..", "a.b.c.d",
        "x", ".x.", "...", "a b.c", "über.txt", "日本語.tar.xz", "a.",
    ] {
        let expected = Path::new(name).file_stem().and_then(|s| s.to_str()).map(String::from);
        assert_eq!(Some(stem_of(name)), expected, "{:?}", name);
    }
}
