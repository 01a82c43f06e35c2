use mathx::colors::Color;
use mathx::colors::from_hex;
use mathx::colors::get_byte_from_doubled_hex;

fn cb(x: f32) -> u32 {
    x.to_bits()
}

fn cf(u: u32) -> f32 {
    f32::from_bits(u)
}

#[test]
fn float_channels_are_clamped_and_kept() {
    let rgb = Color::new(cb(0.5), cb(0.75), cb(0.4980392157));
    assert_eq!(0.5, cf(rgb.red()));
    assert_eq!(127, rgb.red_as_byte());
    assert_eq!(0.75, cf(rgb.green()));
    assert_eq!(191, rgb.green_as_byte());
    assert_eq!(0.4980392157, cf(rgb.blue()));
    assert_eq!(127, rgb.blue_as_byte());
    assert_eq!(1.0, cf(rgb.alpha()));
    assert_eq!(255, rgb.alpha_as_byte());
    let clamped = Color::new(cb(2.0), cb(-1.0), cb(0.25));
    assert_eq!(1.0, cf(clamped.red()));
    assert_eq!(0.0, cf(clamped.green()));
}

#[test]
fn alpha_constructor_keeps_small_alphas() {
    let rgb = Color::new_alpha(cb(0.5), cb(0.75), cb(0.4980392157), cb(0.00001));
    assert_eq!(0.00001, cf(rgb.alpha()));
    assert_eq!(0, rgb.alpha_as_byte());
}

#[test]
fn byte_channels_divide_by_255() {
    let rgb = Color::new_rgba(127, 20, 200, 50);
    assert!((cf(rgb.red()) - 0.4980392157).abs() < 1e-6);
    assert_eq!(127, rgb.red_as_byte());
    assert!((cf(rgb.green()) - 0.07843137255).abs() < 1e-6);
    assert_eq!(20, rgb.green_as_byte());
    assert!((cf(rgb.blue()) - 0.7843137255).abs() < 1e-6);
    assert_eq!(200, rgb.blue_as_byte());
    assert!((cf(rgb.alpha()) - 0.1960784314).abs() < 1e-6);
    assert_eq!(50, rgb.alpha_as_byte());
    let opaque = Color::new_rgb(127, 20, 200);
    assert_eq!(255, opaque.alpha_as_byte());
}

#[test]
fn channel_setters_clamp_and_convert() {
    let mut color = Color::new_alpha(cb(1.0), cb(1.0), cb(1.0), cb(0.4));
    assert_eq!(102, color.alpha_as_byte());
    color.set_alpha_as_byte(200);
    assert_eq!(200, color.alpha_as_byte());
    color.set_red(cb(7.5));
    assert_eq!(1.0, cf(color.red()));
    color.set_green(cb(-0.5));
    assert_eq!(0.0, cf(color.green()));
    color.set_blue_as_byte(51);
    assert!((cf(color.blue()) - 0.2).abs() < 1e-6);
}

#[test]
fn six_digit_hex_strings_parse_to_bytes() {
    let color = from_hex("#F0F8FF").unwrap();
    assert_eq!(240, color.red_as_byte());
    assert_eq!(248, color.green_as_byte());
    assert_eq!(255, color.blue_as_byte());
    assert_eq!(255, color.alpha_as_byte());
    let with_alpha = from_hex("#11223344").unwrap();
    assert_eq!(0x11, with_alpha.red_as_byte());
    assert_eq!(0x22, with_alpha.green_as_byte());
    assert_eq!(0x33, with_alpha.blue_as_byte());
    assert_eq!(0x44, with_alpha.alpha_as_byte());
}

#[test]
fn short_hex_strings_double_their_digits() {
    let color = from_hex("#fa0").unwrap();
    assert_eq!(0xFF, color.red_as_byte());
    assert_eq!(0xAA, color.green_as_byte());
    assert_eq!(0x00, color.blue_as_byte());
    assert_eq!(255, color.alpha_as_byte());
    let with_alpha = from_hex("#fa08").unwrap();
    assert_eq!(0x88, with_alpha.alpha_as_byte());
}

#[test]
fn malformed_hex_strings_are_rejected() {
    assert!(from_hex("F0F8FF").is_none());
    assert!(from_hex("#GGHHII").is_none());
    assert!(from_hex("#fzg").is_none());
    assert!(from_hex("").is_none());
}

#[test]
fn unhandled_hex_lengths_fall_back_to_black() {
    let color = from_hex("#").unwrap();
    assert_eq!(0, color.red_as_byte());
    assert_eq!(0, color.green_as_byte());
    assert_eq!(0, color.blue_as_byte());
    assert_eq!(255, color.alpha_as_byte());
}

#[test]
fn doubled_hex_digits_fill_both_halves() {
    assert_eq!(Ok(0xFF), get_byte_from_doubled_hex("f"));
    assert_eq!(Ok(0xAA), get_byte_from_doubled_hex("A"));
    assert_eq!(Ok(0x00), get_byte_from_doubled_hex("0"));
    assert_eq!(Ok(0x77), get_byte_from_doubled_hex("7"));
    assert_eq!(Err(()), get_byte_from_doubled_hex("g"));
    assert_eq!(Err(()), get_byte_from_doubled_hex(""));
}

#[test]
fn known_names_resolve_to_their_hex_values() {
    let tomato = Color::new_str("tomato");
    assert_eq!(0xFF, tomato.red_as_byte());
    assert_eq!(0x63, tomato.green_as_byte());
    assert_eq!(0x47, tomato.blue_as_byte());
    let black = Color::new_str("black");
    assert_eq!(0, black.red_as_byte());
    let aqua = Color::new_str("aqua");
    assert_eq!(0, aqua.red_as_byte());
    assert_eq!(255, aqua.green_as_byte());
    assert_eq!(255, aqua.blue_as_byte());
}

#[test]
fn hex_codes_pass_through_the_name_lookup() {
    let color = Color::new_str("#5A9CA4");
    assert_eq!(0x5A, color.red_as_byte());
    assert_eq!(0x9C, color.green_as_byte());
    assert_eq!(0xA4, color.blue_as_byte());
    assert_eq!(255, color.alpha_as_byte());
    let with_alpha = Color::new_str("#5A9CA4DD");
    assert_eq!(0xDD, with_alpha.alpha_as_byte());
    let short = Color::new_str("#669");
    assert_eq!(0x66, short.red_as_byte());
    assert_eq!(0x66, short.green_as_byte());
    assert_eq!(0x99, short.blue_as_byte());
    let short_alpha = Color::new_str("#669D");
    assert_eq!(0xDD, short_alpha.alpha_as_byte());
}

#[test]
fn unknown_names_fall_back_to_opaque_black() {
    let color = Color::new_str("not a color");
    assert_eq!(0, color.red_as_byte());
    assert_eq!(0, color.green_as_byte());
    assert_eq!(0, color.blue_as_byte());
    assert_eq!(255, color.alpha_as_byte());
}

#[test]
fn colors_compare_approximately() {
    let a = Color::new(cb(0.5), cb(0.25), cb(0.75));
    let b = Color::new(cb(0.5000001), cb(0.25), cb(0.75));
    assert!(a == b);
    let c = Color::new(cb(0.6), cb(0.25), cb(0.75));
    assert!(a != c);
}
