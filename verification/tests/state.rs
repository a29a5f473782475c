use lifxi::http::{
    Binary32, Color, ColorParseError, ColorValidationError, Draft, Duration, Power, State,
    StateChange,
};

fn num(x: f32) -> Binary32 {
    Binary32::from_bits(x.to_bits())
}

fn read(text: &str) -> Result<Binary32, std::num::ParseFloatError> {
    text.parse::<f32>().map(num)
}

fn parse(s: &str) -> Result<Color, ColorParseError> {
    match Color::scan(s)? {
        Draft::Color(color) => Ok(color),
        Draft::Saturation(text) => Color::saturation(read(&text)),
        Draft::Brightness(text) => Color::brightness(read(&text)),
    }
}

fn render(color: &Color) -> String {
    let number = match color.number() {
        Some(n) => format!("{}", f32::from_bits(n.to_bits())),
        None => String::new(),
    };
    color.render(&number)
}

#[test]
fn state_builder() {
    let state = State::new()
        .power(true)
        .transition(::std::time::Duration::from_secs(1))
        .color(Color::White)
        .infrared(num(0.7))
        .brightness(num(0.3));
    assert_eq!(state.power, Some(Power(true)));
    assert_eq!(state.duration.map(|d| d.as_secs()), Some(1));
    assert_eq!(state.brightness, Some(num(0.3)));
    assert_eq!(state.infrared, Some(num(0.7)));
    assert_eq!(state.color.map(|c| render(&c)), Some("white".to_string()));
}

#[test]
fn builder() {
    let change = StateChange::new()
        .power(true)
        .transition(::std::time::Duration::from_secs(3))
        .hue(120)
        .saturation(num(-0.3))
        .brightness(num(0.1))
        .kelvin(500);
    assert_eq!(change.power, Some(Power(true)));
    assert_eq!(change.duration.map(|d| d.as_secs()), Some(3));
    assert_eq!(change.hue, Some(120));
    assert_eq!(change.saturation, Some(num(-0.3)));
    assert_eq!(change.brightness, Some(num(0.1)));
    assert_eq!(change.kelvin, Some(500));
}

#[test]
fn state_serialize() {
    let color = Color::Red;
    assert_eq!(&render(&color), "red");
    let color = Color::Orange;
    assert_eq!(&render(&color), "orange");
    let color = Color::Yellow;
    assert_eq!(&render(&color), "yellow");
    let color = Color::Green;
    assert_eq!(&render(&color), "green");
    let color = Color::Blue;
    assert_eq!(&render(&color), "blue");
    let color = Color::Purple;
    assert_eq!(&render(&color), "purple");
    let color = Color::Pink;
    assert_eq!(&render(&color), "pink");
    let color = Color::White;
    assert_eq!(&render(&color), "white");
    let color = Color::Custom("cyan".to_string());
    assert_eq!(&render(&color), "cyan");
    let color = Color::Hue(240);
    assert_eq!(&render(&color), "hue:240");
    let color = Color::Saturation(num(0.531));
    assert_eq!(&render(&color), "saturation:0.531");
    let color = Color::Brightness(num(0.3));
    assert_eq!(&render(&color), "brightness:0.3");
    let color = Color::Kelvin(3500);
    assert_eq!(&render(&color), "kelvin:3500");
    let color = Color::Rgb([0, 17, 36]);
    assert_eq!(&render(&color), "rgb:0,17,36");
    let color = Color::RgbStr("123456".to_string());
    assert_eq!(&render(&color), "#123456");
    let color = Color::RgbStr("#000000".to_string());
    assert_eq!(&render(&color), "#000000");
}

#[test]
fn state_deserialize() {
    let color = parse("red");
    assert_eq!(color, Ok(Color::Red));
    let color = parse("orange");
    assert_eq!(color, Ok(Color::Orange));
    let color = parse("yellow");
    assert_eq!(color, Ok(Color::Yellow));
    let color = parse("green");
    assert_eq!(color, Ok(Color::Green));
    let color = parse("blue");
    assert_eq!(color, Ok(Color::Blue));
    let color = parse("purple");
    assert_eq!(color, Ok(Color::Purple));
    let color = parse("pink");
    assert_eq!(color, Ok(Color::Pink));
    let color = parse("white");
    assert_eq!(color, Ok(Color::White));
    let color = parse("cyan");
    assert!(color.is_err());
    let color = parse("hue:240");
    assert_eq!(color, Ok(Color::Hue(240)));
    let color = parse("saturation:0.531");
    assert_eq!(color, Ok(Color::Saturation(num(0.531))));
    let color = parse("brightness:0.3");
    assert_eq!(color, Ok(Color::Brightness(num(0.3))));
    let color = parse("kelvin:3500");
    assert_eq!(color, Ok(Color::Kelvin(3500)));
    let color = parse("rgb:0,17,36");
    assert_eq!(color, Ok(Color::Rgb([0, 17, 36])));
    let color = parse("#123456");
    assert_eq!(color, Ok(Color::RgbStr("#123456".to_string())));
    let color = parse("#000000");
    assert_eq!(color, Ok(Color::RgbStr("#000000".to_string())));
}

#[test]
fn validate() {
    let color = Color::Red;
    assert!(color.validate().is_ok());
    let color = Color::Orange;
    assert!(color.validate().is_ok());
    let color = Color::Yellow;
    assert!(color.validate().is_ok());
    let color = Color::Green;
    assert!(color.validate().is_ok());
    let color = Color::Blue;
    assert!(color.validate().is_ok());
    let color = Color::Purple;
    assert!(color.validate().is_ok());
    let color = Color::White;
    assert!(color.validate().is_ok());
    let color = Color::Hue(370);
    assert_eq!(color.validate(), Err(ColorValidationError::Hue(370)));
    let color = Color::Hue(300);
    assert!(color.validate().is_ok());
    let color = Color::Hue(0);
    assert!(color.validate().is_ok());
    let color = Color::Hue(0);
    assert!(color.validate().is_ok());
    let color = Color::Saturation(num(-1.0));
    assert_eq!(color.validate(), Err(ColorValidationError::SaturationLow(num(-1.0))));
    let color = Color::Saturation(num(0.0));
    assert!(color.validate().is_ok());
    let color = Color::Saturation(num(1.0));
    assert!(color.validate().is_ok());
    let color = Color::Saturation(num(2.0));
    assert_eq!(color.validate(), Err(ColorValidationError::SaturationHigh(num(2.0))));
    let color = Color::Brightness(num(-0.3));
    assert_eq!(color.validate(), Err(ColorValidationError::BrightnessLow(num(-0.3))));
    let color = Color::Brightness(num(0.0));
    assert!(color.validate().is_ok());
    let color = Color::Brightness(num(3.4));
    assert_eq!(color.validate(), Err(ColorValidationError::BrightnessHigh(num(3.4))));
    let color = Color::Kelvin(1000);
    assert_eq!(color.validate(), Err(ColorValidationError::KelvinLow(1000)));
    let color = Color::Kelvin(1500);
    assert!(color.validate().is_ok());
    let color = Color::Kelvin(9000);
    assert!(color.validate().is_ok());
    let color = Color::Kelvin(9001);
    assert_eq!(color.validate(), Err(ColorValidationError::KelvinHigh(9001)));
    let color = Color::RgbStr("#12345".to_string());
    assert_eq!(
        color.validate(),
        Err(ColorValidationError::RgbStrShort(true, "#12345".to_string()))
    );
    let color = Color::RgbStr("12345".to_string());
    assert_eq!(
        color.validate(),
        Err(ColorValidationError::RgbStrShort(false, "12345".to_string()))
    );
    let color = Color::RgbStr("123456".to_string());
    assert!(color.validate().is_ok());
    let color = Color::RgbStr("#123456".to_string());
    assert!(color.validate().is_ok());
    let color = Color::RgbStr("1234567".to_string());
    assert_eq!(
        color.validate(),
        Err(ColorValidationError::RgbStrLong(false, "1234567".to_string()))
    );
    let color = Color::RgbStr("#1234567".to_string());
    assert_eq!(
        color.validate(),
        Err(ColorValidationError::RgbStrLong(true, "#1234567".to_string()))
    );
}

#[test]
fn color_validation_boundaries() {
    assert!(Color::Hue(360).validate().is_ok());
    assert_eq!(Color::Hue(361).validate(), Err(ColorValidationError::Hue(361)));
    assert!(Color::Kelvin(1500).validate().is_ok());
    assert!(Color::Kelvin(9000).validate().is_ok());
    assert_eq!(Color::Kelvin(1499).validate(), Err(ColorValidationError::KelvinLow(1499)));
    assert_eq!(Color::Kelvin(9001).validate(), Err(ColorValidationError::KelvinHigh(9001)));
    assert!(Color::Saturation(num(0.0)).validate().is_ok());
    assert!(Color::Saturation(num(1.0)).validate().is_ok());
    assert!(Color::Saturation(num(-0.0)).validate().is_ok());
    assert_eq!(
        Color::Saturation(num(1.1)).validate(),
        Err(ColorValidationError::SaturationHigh(num(1.1)))
    );
    assert_eq!(
        Color::Saturation(num(-0.1)).validate(),
        Err(ColorValidationError::SaturationLow(num(-0.1)))
    );
    assert_eq!(
        Color::Brightness(num(1.1)).validate(),
        Err(ColorValidationError::BrightnessHigh(num(1.1)))
    );
    assert_eq!(
        Color::Brightness(num(-0.1)).validate(),
        Err(ColorValidationError::BrightnessLow(num(-0.1)))
    );
    assert!(Color::Rgb([255, 0, 255]).validate().is_ok());
    assert!(Color::Custom(String::new()).validate().is_ok());
    assert!(Color::Custom("not a color at all".to_string()).validate().is_ok());
}

#[test]
fn color_validation_agrees_with_the_numbers() {
    let samples = [
        0.0f32,
        -0.0,
        1.0,
        -1.0,
        0.999_999_94,
        1.000_000_1,
        f32::MIN_POSITIVE,
        -f32::MIN_POSITIVE,
        1e-45,
        -1e-45,
        f32::MAX,
        f32::MIN,
        f32::INFINITY,
        f32::NEG_INFINITY,
        f32::NAN,
        -f32::NAN,
        0.5,
        3.4,
    ];
    for x in samples {
        let verdict = Color::Saturation(num(x)).validate();
        if x > 1.0 {
            assert_eq!(verdict, Err(ColorValidationError::SaturationHigh(num(x))));
        } else if x < 0.0 {
            assert_eq!(verdict, Err(ColorValidationError::SaturationLow(num(x))));
        } else {
            assert_eq!(verdict, Ok(()));
        }
        assert_eq!(num(x).is_above_one(), x > 1.0);
        assert_eq!(num(x).is_below_zero(), x < 0.0);
    }
}

#[test]
fn color_rgb_string_length() {
    assert_eq!(Color::RgbStr("123456".to_string()).validate(), Ok(()));
    assert_eq!(Color::RgbStr("#123456".to_string()).validate(), Ok(()));
    assert_eq!(
        Color::RgbStr("12345".to_string()).validate(),
        Err(ColorValidationError::RgbStrShort(false, "12345".to_string()))
    );
    assert_eq!(
        Color::RgbStr("#12345".to_string()).validate(),
        Err(ColorValidationError::RgbStrShort(true, "#12345".to_string()))
    );
    assert_eq!(
        Color::RgbStr("1234567".to_string()).validate(),
        Err(ColorValidationError::RgbStrLong(false, "1234567".to_string()))
    );
    assert_eq!(
        Color::RgbStr("#1234567".to_string()).validate(),
        Err(ColorValidationError::RgbStrLong(true, "#1234567".to_string()))
    );
    assert_eq!(
        Color::RgbStr(String::new()).validate(),
        Err(ColorValidationError::RgbStrShort(false, String::new()))
    );
    assert_eq!(
        Color::RgbStr("#".to_string()).validate(),
        Err(ColorValidationError::RgbStrShort(true, "#".to_string()))
    );
}

#[test]
fn color_parse_error_specificity() {
    assert_eq!(parse("hue:"), Err(ColorParseError::NoHue));
    assert_eq!(parse("saturation:"), Err(ColorParseError::NoSaturation));
    assert_eq!(parse("brightness:"), Err(ColorParseError::NoBrightness));
    assert_eq!(parse("kelvin:"), Err(ColorParseError::NoKelvin));
    assert_eq!(parse("rgb:"), Err(ColorParseError::NoRed));
    assert_eq!(parse("rgb:,1,2"), Err(ColorParseError::NoRed));
    assert_eq!(parse("rgb:0"), Err(ColorParseError::NoGreen));
    assert_eq!(parse("rgb:0,"), Err(ColorParseError::NoGreen));
    assert_eq!(parse("rgb:0,,2"), Err(ColorParseError::NoGreen));
    assert_eq!(parse("rgb:0,1"), Err(ColorParseError::NoBlue));
    assert_eq!(parse("rgb:0,1,"), Err(ColorParseError::NoBlue));
    assert_eq!(parse("rgb:x,,"), Err(ColorParseError::NoGreen));
    assert_eq!(
        parse("hue:x"),
        Err(ColorParseError::NonNumericHue("x".parse::<u16>().unwrap_err()))
    );
    assert_eq!(
        parse("hue:70000"),
        Err(ColorParseError::NonNumericHue("70000".parse::<u16>().unwrap_err()))
    );
    assert_eq!(
        parse("hue: 240"),
        Err(ColorParseError::NonNumericHue(" 240".parse::<u16>().unwrap_err()))
    );
    assert_eq!(
        parse("hue:12:34"),
        Err(ColorParseError::NonNumericHue("12:34".parse::<u16>().unwrap_err()))
    );
    assert_eq!(
        parse("kelvin:-1"),
        Err(ColorParseError::NonNumericKelvin("-1".parse::<u16>().unwrap_err()))
    );
    assert_eq!(
        parse("saturation:j"),
        Err(ColorParseError::NonNumericSaturation("j".parse::<f32>().unwrap_err()))
    );
    assert_eq!(
        parse("brightness:j"),
        Err(ColorParseError::NonNumericBrightness("j".parse::<f32>().unwrap_err()))
    );
    assert_eq!(
        parse("rgb:j,1,2"),
        Err(ColorParseError::NonNumericRed("j".parse::<u8>().unwrap_err()))
    );
    assert_eq!(
        parse("rgb:0,256,j"),
        Err(ColorParseError::NonNumericGreen("256".parse::<u8>().unwrap_err()))
    );
    assert_eq!(
        parse("rgb:0,1,j"),
        Err(ColorParseError::NonNumericBlue("j".parse::<u8>().unwrap_err()))
    );
    assert_eq!(
        parse("rgb:0,1,2,3"),
        Err(ColorParseError::NonNumericBlue("2,3".parse::<u8>().unwrap_err()))
    );
    assert_eq!(parse("foo"), Err(ColorParseError::ShortString));
    assert_eq!(parse(""), Err(ColorParseError::ShortString));
    assert_eq!(parse("#12345"), Err(ColorParseError::ShortString));
    assert_eq!(parse("foobarbaz"), Err(ColorParseError::LongString));
    assert_eq!(parse("#1234567"), Err(ColorParseError::LongString));
    assert_eq!(parse("Red"), Err(ColorParseError::ShortString));
}

#[test]
fn color_numbers_are_read_as_std_reads_them() {
    assert_eq!(parse("hue:+240"), Ok(Color::Hue(240)));
    assert_eq!(parse("hue:000360"), Ok(Color::Hue(360)));
    assert_eq!(parse("hue:65535"), Ok(Color::Hue(65535)));
    assert!(parse("hue:65536").is_err());
    assert!(parse("hue:+").is_err());
    assert!(parse("hue:++1").is_err());
    assert!(parse("hue:1_0").is_err());
    assert_eq!(parse("kelvin:0"), Ok(Color::Kelvin(0)));
    assert_eq!(parse("rgb:+1,02,255"), Ok(Color::Rgb([1, 2, 255])));
    assert_eq!(parse("saturation:1e-1"), Ok(Color::Saturation(num(0.1))));
}

#[test]
fn color_scan_leaves_numbers_to_the_caller() {
    assert_eq!(Color::scan("saturation:0.25"), Ok(Draft::Saturation("0.25".to_string())));
    assert_eq!(Color::scan("brightness: x"), Ok(Draft::Brightness(" x".to_string())));
    assert_eq!(Color::scan("hue:7"), Ok(Draft::Color(Color::Hue(7))));
    assert_eq!(Color::Saturation(num(0.25)).number(), Some(num(0.25)));
    assert_eq!(Color::Brightness(num(0.5)).number(), Some(num(0.5)));
    assert_eq!(Color::Hue(7).number(), None);
    assert_eq!(Color::Hue(7).render("ignored"), "hue:7");
}

#[test]
fn color_text_is_read_back() {
    let colors = vec![
        Color::Red,
        Color::Hue(0),
        Color::Hue(360),
        Color::Saturation(num(0.531)),
        Color::Brightness(num(1.0)),
        Color::Kelvin(9000),
        Color::Rgb([255, 0, 9]),
        Color::RgbStr("#a0b1c2".to_string()),
    ];
    for color in colors {
        assert_eq!(parse(&render(&color)), Ok(color));
    }
    assert_eq!(
        parse(&render(&Color::RgbStr("a0b1c2".to_string()))),
        Ok(Color::RgbStr("#a0b1c2".to_string()))
    );
}

#[test]
fn power_words() {
    assert_eq!(Power(true).as_str(), "on");
    assert_eq!(Power(false).as_str(), "off");
    assert_eq!(Power::from_word("on"), Power(true));
    assert_eq!(Power::from_word("off"), Power(false));
    assert_eq!(Power::from_word("ON"), Power(false));
    assert_eq!(Power::from(true), Power(true));
}

#[test]
fn duration_keeps_seconds_and_fraction() {
    let d = Duration::from(::std::time::Duration::from_millis(2750));
    assert_eq!(d.as_secs(), 2);
    assert_eq!(d.subsec_nanos(), 750_000_000);
    assert_eq!(d.subsec_millis(), 750);
    assert_eq!(Duration::from_secs(9).as_secs(), 9);
    assert_eq!(Duration::from_secs(9).subsec_nanos(), 0);
    assert_eq!(Duration::new(1, 999_999_999).map(|d| d.subsec_millis()), Some(999));
    assert_eq!(Duration::new(1, 1_000_000_000), None);
    assert!(Duration::from_secs(1) < Duration::from_secs(2));
}

#[test]
fn state_transition_takes_either_duration() {
    let own = Duration::new(4, 500_000_000).unwrap();
    assert_eq!(State::new().transition(own).duration, Some(own));
    assert_eq!(StateChange::new().transition(own).duration, Some(own));
    assert_eq!(
        State::new().transition(::std::time::Duration::from_millis(4500)).duration,
        Some(own)
    );
}

#[test]
fn state_absent_fields_stay_absent() {
    let state = State::builder().color(Color::Red);
    assert_eq!(state.power, None);
    assert_eq!(state.brightness, None);
    assert_eq!(state.duration, None);
    assert_eq!(state.infrared, None);
    assert_eq!(State::new(), State::default());
    assert_eq!(StateChange::new(), StateChange::default());
    let change = StateChange::builder().infrared(num(0.25));
    assert_eq!(change.infrared, Some(num(0.25)));
    assert_eq!(change.hue, None);
}
