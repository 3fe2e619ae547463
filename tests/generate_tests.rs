use uuidgen::format::{DispatchError, UUIDFormat};
use uuidgen::generate::{generate, generate_bytes, Inputs};
use uuidgen::text::render;

fn is_canonical(s: &str) -> bool {
    let cs: Vec<char> = s.chars().collect();
    cs.len() == 36
        && cs.iter().enumerate().all(|(i, c)| {
            if i == 8 || i == 13 || i == 18 || i == 23 {
                *c == '-'
            } else {
                c.is_ascii_digit() || ('a'..='f').contains(c)
            }
        })
}

fn named(name: &str) -> Inputs {
    let mut inp = Inputs::standard();
    inp.name = name.as_bytes().to_vec();
    inp
}

#[test]
fn render_dns_namespace() {
    let inp = Inputs::standard();
    assert_eq!(render(&inp.namespace), "6ba7b810-9dad-11d1-80b4-00c04fd430c8");
}

#[test]
fn render_all_zero_and_all_ff() {
    assert_eq!(render(&[0u8; 16]), "00000000-0000-0000-0000-000000000000");
    assert_eq!(render(&[0xffu8; 16]), "ffffffff-ffff-ffff-ffff-ffffffffffff");
}

#[test]
fn standard_inputs() {
    let inp = Inputs::standard();
    assert_eq!(inp.name, b"test".to_vec());
    assert_eq!(inp.clock_seq, 42);
    assert_eq!(inp.seconds, 1497624119);
    assert_eq!(inp.subsec_nanos, 1234);
    assert_eq!(inp.node, [1, 2, 3, 4, 5, 6]);
}

#[test]
fn every_format_gives_canonical_text() {
    let inp = Inputs::standard();
    for f in [UUIDFormat::V1, UUIDFormat::V3, UUIDFormat::V4, UUIDFormat::V5] {
        let s = generate(f, &inp).unwrap();
        assert!(is_canonical(&s), "{}", s);
    }
}

#[test]
fn versions_and_variant_are_set() {
    let inp = Inputs::standard();
    for (f, v) in [
        (UUIDFormat::V1, '1'),
        (UUIDFormat::V3, '3'),
        (UUIDFormat::V4, '4'),
        (UUIDFormat::V5, '5'),
    ] {
        let s: Vec<char> = generate(f, &inp).unwrap().chars().collect();
        assert_eq!(s[14], v);
        assert!(['8', '9', 'a', 'b'].contains(&s[19]));
    }
}

#[test]
fn md5_name_based_standard() {
    let inp = Inputs::standard();
    assert_eq!(generate(UUIDFormat::V3, &inp).unwrap(), "45a113ac-c7f2-30b0-90a5-a399ab912716");
}

#[test]
fn md5_name_based_example_org() {
    assert_eq!(
        generate(UUIDFormat::V3, &named("example.org")).unwrap(),
        "04738bdf-b25a-3829-a801-b21a1d25095b"
    );
}

#[test]
fn sha1_name_based_standard() {
    let inp = Inputs::standard();
    assert_eq!(generate(UUIDFormat::V5, &inp).unwrap(), "4be0643f-1d98-573b-97cd-ca98a65347dd");
}

#[test]
fn sha1_name_based_example_org() {
    assert_eq!(
        generate(UUIDFormat::V5, &named("example.org")).unwrap(),
        "aad03681-8b63-5304-89e0-8ca8f49461b5"
    );
}

#[test]
fn time_based_standard() {
    let inp = Inputs::standard();
    assert_eq!(generate(UUIDFormat::V1, &inp).unwrap(), "f3b4958c-52a1-11e7-802a-010203040506");
}

#[test]
fn time_based_other_time_and_clock() {
    let mut inp = Inputs::standard();
    inp.clock_seq = 0;
    inp.seconds = 1_496_854_535;
    inp.subsec_nanos = 812_946_000;
    assert_eq!(generate(UUIDFormat::V1, &inp).unwrap(), "20616934-4ba2-11e7-8000-010203040506");
}

#[test]
fn time_based_keeps_fourteen_bits_of_clock_sequence() {
    let mut inp = Inputs::standard();
    inp.clock_seq = 0xffff;
    let s = generate(UUIDFormat::V1, &inp).unwrap();
    assert_eq!(&s[19..23], "bfff");
}

#[test]
fn md5_twice_is_identical() {
    let inp = Inputs::standard();
    assert_eq!(generate(UUIDFormat::V3, &inp), generate(UUIDFormat::V3, &inp));
}

#[test]
fn sha1_twice_is_identical() {
    let inp = Inputs::standard();
    assert_eq!(generate(UUIDFormat::V5, &inp), generate(UUIDFormat::V5, &inp));
}

#[test]
fn time_based_twice_is_identical() {
    let inp = Inputs::standard();
    assert_eq!(generate(UUIDFormat::V1, &inp), generate(UUIDFormat::V1, &inp));
}

#[test]
fn random_twice_differs() {
    let inp = Inputs::standard();
    let a = generate(UUIDFormat::V4, &inp).unwrap();
    let b = generate(UUIDFormat::V4, &inp).unwrap();
    assert_ne!(a, b);
}

#[test]
fn time_based_largest_time() {
    let mut inp = Inputs::standard();
    inp.seconds = 1_832_455_114_570;
    inp.subsec_nanos = 0;
    assert!(generate_bytes(UUIDFormat::V1, &inp).is_ok());
}

#[test]
fn time_based_overflowing_time() {
    let mut inp = Inputs::standard();
    inp.seconds = 1_832_455_114_571;
    assert_eq!(generate_bytes(UUIDFormat::V1, &inp), Err(DispatchError::TimestampOutOfRange));
    inp.seconds = u64::MAX;
    assert_eq!(generate(UUIDFormat::V1, &inp), Err(DispatchError::TimestampOutOfRange));
}

#[test]
fn overflowing_time_does_not_affect_other_formats() {
    let mut inp = Inputs::standard();
    inp.seconds = u64::MAX;
    assert!(generate(UUIDFormat::V3, &inp).is_ok());
    assert!(generate(UUIDFormat::V4, &inp).is_ok());
    assert!(generate(UUIDFormat::V5, &inp).is_ok());
}
