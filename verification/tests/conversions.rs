use sinsemilla::conversions::i2lebsp;
use sinsemilla::conversions::i2lebsp_k;
use sinsemilla::conversions::lebs2ip_k;
use sinsemilla::no_alloc_concat;
use sinsemilla::K;

#[test]
fn lebs2ip_k_round_trip() {
    for value in [0usize, 1, 2, 255, 256, 511, 512, 777, 1023] {
        assert_eq!(lebs2ip_k(&i2lebsp_k(value)) as usize, value);
    }
}

#[test]
fn i2lebsp_k_round_trip() {
    let patterns: [&[u8]; 4] = [
        &[0, 0, 0, 0, 0, 0, 0, 0, 0, 0],
        &[1, 1, 1, 1, 1, 1, 1, 1, 1, 1],
        &[1, 1, 0, 1, 0, 1, 0, 1, 0, 1],
        &[0, 0, 0, 1, 1, 0, 0, 1, 0, 1],
    ];
    for pattern in patterns {
        let bitstring: Vec<bool> = pattern.iter().map(|b| *b == 1).collect();
        assert_eq!(i2lebsp_k(lebs2ip_k(&bitstring) as usize), bitstring);
    }
}

#[test]
fn lebs2ip_k_exact_values() {
    let one: Vec<bool> = (0..K).map(|i| i == 0).collect();
    assert_eq!(lebs2ip_k(&one), 1);

    let three: Vec<bool> = (0..K).map(|i| i < 2).collect();
    assert_eq!(lebs2ip_k(&three), 3);

    let top: Vec<bool> = (0..K).map(|i| i == K - 1).collect();
    assert_eq!(lebs2ip_k(&top), 512);

    let all: Vec<bool> = (0..K).map(|_| true).collect();
    assert_eq!(lebs2ip_k(&all), 1023);
}

#[test]
fn i2lebsp_exact_values() {
    assert_eq!(i2lebsp(5, 4), vec![true, false, true, false]);
    assert_eq!(i2lebsp(0, 0), Vec::<bool>::new());
    assert_eq!(i2lebsp(1, 1), vec![true]);
    assert_eq!(
        i2lebsp(0x8000_0000_0000_0000, 64),
        (0..64).map(|i| i == 63).collect::<Vec<bool>>()
    );
}

#[test]
fn concat_appends_exact_suffix() {
    assert_eq!(no_alloc_concat("test", "-M"), "test-M");
    assert_eq!(no_alloc_concat("", "-r"), "-r");
    assert_eq!(no_alloc_concat("a", ""), "a");
}
