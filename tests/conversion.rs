use lumos::hex::{digit_value, Hex, HexString, ParseError};
use lumos::hls::HLS;
use lumos::rgb::RGB;
use lumos::{run, Config};

fn rgb_of(code: &str) -> Result<RGB, ParseError> {
    HexString::new(code.to_string()).to_rgb()
}

fn rgb(r: u8, g: u8, b: u8) -> RGB {
    RGB { r, g, b }
}

fn hue_degrees(h: &HLS) -> f64 {
    h.hue_num as f64 / h.hue_den as f64
}

fn saturation_percent(h: &HLS) -> f64 {
    h.saturation_num as f64 / h.saturation_den as f64
}

#[test]
fn black_and_white_decode() {
    assert_eq!(rgb_of("000000"), Ok(rgb(0, 0, 0)));
    assert_eq!(rgb_of("FFFFFF"), Ok(rgb(255, 255, 255)));
}

#[test]
fn red_to_hls() {
    let h = rgb_of("FF0000").unwrap().to_hls();
    assert_eq!(h.lightness, 50);
    assert_eq!(h.saturation_num, 100 * h.saturation_den);
    assert_eq!(h.hue_num, 0);
}

#[test]
fn green_to_hls() {
    let h = rgb_of("00FF00").unwrap().to_hls();
    assert_eq!(h.hue_num, 120 * h.hue_den as i32);
    assert_eq!(h.lightness, 50);
    assert_eq!(h.saturation_num, 100 * h.saturation_den);
}

#[test]
fn gray_to_hls() {
    let h = rgb_of("808080").unwrap().to_hls();
    assert_eq!(h.hue_num, 0);
    assert_eq!(h.saturation_num, 0);
    assert_eq!(h.lightness, 50);
}

#[test]
fn mixed_colour_to_hls() {
    let c = rgb_of("1A2B3C").unwrap();
    assert_eq!(c, rgb(26, 43, 60));
    let h = c.to_hls();
    assert_eq!((h.hue_num, h.hue_den), (7140, 34));
    assert!((hue_degrees(&h) - 210.0).abs() < 1e-9);
    assert_eq!(h.lightness, 17);
    assert_eq!((h.saturation_num, h.saturation_den), (3400, 86));
    assert!((saturation_percent(&h) - 39.534883720930).abs() < 1e-9);
}

#[test]
fn bright_colour_uses_upper_saturation_formula() {
    let h = HLS::new(255, 128, 128);
    assert_eq!(h.lightness, 75);
    assert_eq!((h.saturation_num, h.saturation_den), (12700, 127));
    assert_eq!(h.hue_num, 0);
    let h = HLS::new(200, 150, 100);
    assert_eq!(h.lightness, 59);
    assert_eq!((h.saturation_num, h.saturation_den), (10000, 210));
    assert_eq!((h.hue_num, h.hue_den), (3000, 100));
}

#[test]
fn blue_to_hls() {
    let h = HLS::new(0, 0, 255);
    assert!((hue_degrees(&h) - 240.0).abs() < 1e-9);
    assert_eq!(h.lightness, 50);
}

#[test]
fn tie_for_largest_leaves_hue_zero() {
    let h = rgb_of("FFFF00").unwrap().to_hls();
    assert_eq!(h.hue_num, 0);
    assert_eq!(h.hue_den, 1);
    assert_eq!(h.lightness, 50);
    assert_eq!(h.saturation_num, 100 * h.saturation_den);
}

#[test]
fn red_with_more_blue_than_green_gives_negative_hue() {
    let h = rgb_of("FF0080").unwrap().to_hls();
    assert_eq!((h.hue_num, h.hue_den), (-7680, 255));
    assert!(hue_degrees(&h) < 0.0 && hue_degrees(&h) > -60.0);
}

#[test]
fn outputs_stay_in_range() {
    for r in (0..=255u32).step_by(15) {
        for g in (0..=255u32).step_by(17) {
            for b in (0..=255u32).step_by(51) {
                let h = HLS::new(r as u8, g as u8, b as u8);
                assert!(h.lightness <= 100);
                assert!(h.saturation_den > 0 && h.saturation_num <= 100 * h.saturation_den);
                let hue = hue_degrees(&h);
                assert!(hue > -60.0 && hue < 300.0);
                if !(r > g && r > b && b > g) {
                    assert!(hue >= 0.0 && hue < 360.0);
                }
            }
        }
    }
}

#[test]
fn short_input_is_a_length_error() {
    assert_eq!(rgb_of(""), Err(ParseError::InvalidHexLength));
    assert_eq!(rgb_of("FFFFF"), Err(ParseError::InvalidHexLength));
    assert_eq!(rgb_of("ééééé"), Err(ParseError::InvalidHexLength));
}

#[test]
fn non_hex_character_is_a_digit_error() {
    assert_eq!(rgb_of("G00000"), Err(ParseError::InvalidHexDigit));
    assert_eq!(rgb_of("00z000"), Err(ParseError::InvalidHexDigit));
    assert_eq!(rgb_of("00000x"), Err(ParseError::InvalidHexDigit));
    assert_eq!(rgb_of("#00FF00"), Err(ParseError::InvalidHexDigit));
    assert_eq!(rgb_of("+F0000"), Err(ParseError::InvalidHexDigit));
    assert_eq!(rgb_of("ÿÿÿÿÿÿ"), Err(ParseError::InvalidHexDigit));
}

#[test]
fn characters_after_the_sixth_are_ignored() {
    assert_eq!(rgb_of("00ff00zz"), Ok(rgb(0, 255, 0)));
}

#[test]
fn decoding_is_case_insensitive() {
    assert_eq!(rgb_of("abcdef"), rgb_of("ABCDEF"));
    assert_eq!(rgb_of("aBcDeF"), Ok(rgb(0xAB, 0xCD, 0xEF)));
}

#[test]
fn round_trip_gives_upper_case_code() {
    for code in ["1a2b3c", "000000", "FFFFFF", "c0ffee", "7F80a9"] {
        let c = rgb_of(code).unwrap();
        assert_eq!(c.to_hex(), code.to_uppercase());
    }
    assert_eq!(rgb(1, 2, 254).to_hex(), "0102FE");
}

#[test]
fn label_is_upper_case_with_hash() {
    let h = HexString::new("1a2b3c".to_string());
    assert_eq!(h.label(), "#1A2B3C");
    assert_eq!(h.as_str(), "1a2b3c");
}

#[test]
fn digits_and_pairs() {
    assert_eq!(digit_value('0'), Some(0));
    assert_eq!(digit_value('9'), Some(9));
    assert_eq!(digit_value('a'), Some(10));
    assert_eq!(digit_value('F'), Some(15));
    assert_eq!(digit_value('g'), None);
    assert_eq!(digit_value('/'), None);
    assert_eq!(Hex::new('f', 'F').to_dec(), Ok(255));
    assert_eq!(Hex::new('1', '0').to_dec(), Ok(16));
    assert_eq!(Hex::new('1', 'x').to_dec(), Err(ParseError::InvalidHexDigit));
}

#[test]
fn rgb_from_bytes() {
    assert_eq!(RGB::new(vec![1, 2, 3]), rgb(1, 2, 3));
    assert_eq!(RGB::new(vec![9, 8, 7, 6]), rgb(9, 8, 7));
}

#[test]
fn config_needs_an_argument() {
    let args = vec!["lumos".to_string()];
    assert_eq!(Config::new(&args).err(), Some("Not enought arguments!"));
    let args: Vec<String> = vec![];
    assert!(Config::new(&args).is_err());
}

#[test]
fn config_takes_second_argument() {
    let args = vec!["lumos".to_string(), "c0ffee".to_string(), "x".to_string()];
    let config = Config::new(&args).ok().unwrap();
    assert_eq!(config.hex.as_str(), "c0ffee");
}

#[test]
fn run_converts_the_code() {
    let args = vec!["lumos".to_string(), "ff0000".to_string()];
    let (label, c, h) = run(Config::new(&args).ok().unwrap()).unwrap();
    assert_eq!(label, "#FF0000");
    assert_eq!(c, rgb(255, 0, 0));
    assert_eq!(h, HLS::new(255, 0, 0));
    let args = vec!["lumos".to_string(), "ff00".to_string()];
    assert_eq!(run(Config::new(&args).ok().unwrap()), Err(ParseError::InvalidHexLength));
}
