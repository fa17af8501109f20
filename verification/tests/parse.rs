use libwaysip::error::{BoxInfoError, ColorError};
use libwaysip::parse::BoxFields;
use libwaysip::state::BoxInfo;
use libwaysip::{Color, Style};

#[test]
fn a_colour_is_eight_hexadecimal_digits() {
    assert_eq!(
        Color::hex_to_color("#66666680".to_string()),
        Ok(Color { r: 0x66, g: 0x66, b: 0x66, a: 0x80 })
    );
    assert_eq!(
        Color::hex_to_color("0a1B2c3D".to_string()),
        Ok(Color { r: 0x0a, g: 0x1b, b: 0x2c, a: 0x3d })
    );
    assert_eq!(
        Color::hex_to_color("##ffFF00ff".to_string()),
        Ok(Color { r: 255, g: 255, b: 0, a: 255 })
    );
    assert_eq!(Color::hex_to_color("00000000".to_string()), Ok(Color { r: 0, g: 0, b: 0, a: 0 }));
}

#[test]
fn anything_else_is_no_colour() {
    for text in
        ["", "#", "#fff", "#1234567", "#123456789", "#12345g78", "12 45678", "#öäüß", "1234567#"]
    {
        assert_eq!(
            Color::hex_to_color(text.to_string()),
            Err(ColorError::InvalidColorFormat(text.to_string())),
            "{text}"
        );
    }
}

#[test]
fn the_default_colours() {
    assert_eq!(Color::default(), Color { r: 0, g: 0, b: 0, a: 128 });
    let style = Style::default();
    assert_eq!(style.background_color, Color { r: 102, g: 102, b: 102, a: 128 });
    assert_eq!(style.foreground_color, Color { r: 0, g: 0, b: 0, a: 0 });
    assert_eq!(style.border_text_color, Color { r: 0, g: 0, b: 0, a: 255 });
    assert_eq!(style.box_color, Color { r: 102, g: 102, b: 102, a: 128 });
    assert_eq!(style.border_weight, 256);
    assert_eq!(style.font_size, 12);
    assert_eq!(style.font_name, "Sans");
    assert_eq!(style.duplicate(), style);
}

#[test]
fn a_box_is_split_into_its_four_numbers() {
    assert_eq!(
        BoxInfo::split_box_string("10,20 300x400"),
        Ok(BoxFields {
            x: "10".to_string(),
            y: "20".to_string(),
            width: "300".to_string(),
            height: "400".to_string()
        })
    );
    assert_eq!(
        BoxInfo::split_box_string("-1.5,2e3 0x7fx9 rest"),
        Ok(BoxFields {
            x: "-1.5".to_string(),
            y: "2e3".to_string(),
            width: "0".to_string(),
            height: "7fx9 rest".to_string()
        })
    );
    assert_eq!(
        BoxInfo::split_box_string(", x"),
        Ok(BoxFields {
            x: String::new(),
            y: String::new(),
            width: String::new(),
            height: String::new()
        })
    );
}

#[test]
fn the_first_missing_separator_is_the_error() {
    assert_eq!(
        BoxInfo::split_box_string("10,20,300x400"),
        Err(BoxInfoError::InvalidBoxString("10,20,300x400".to_string()))
    );
    assert_eq!(
        BoxInfo::split_box_string(""),
        Err(BoxInfoError::InvalidBoxString(String::new()))
    );
    assert_eq!(
        BoxInfo::split_box_string("10;20 300x400"),
        Err(BoxInfoError::InvalidBoxCoordsString("10;20".to_string()))
    );
    assert_eq!(
        BoxInfo::split_box_string("10;20 300,400"),
        Err(BoxInfoError::InvalidBoxCoordsString("10;20".to_string()))
    );
    assert_eq!(
        BoxInfo::split_box_string("10,20 300*400 y"),
        Err(BoxInfoError::InvalidBoxSizeString("300*400 y".to_string()))
    );
    assert_eq!(
        BoxInfo::split_box_string("10,20 300*400"),
        Err(BoxInfoError::InvalidBoxSizeString("300*400".to_string()))
    );
    assert_eq!(
        BoxInfo::split_box_string("x10,20 "),
        Err(BoxInfoError::InvalidBoxSizeString(String::new()))
    );
}

#[test]
fn a_box_reaches_from_its_origin_over_its_size() {
    assert_eq!(
        BoxInfo::from_origin_and_size(2560, 5120, 76800, 102400),
        BoxInfo { start_x: 2560, start_y: 5120, end_x: 79360, end_y: 107520 }
    );
    assert_eq!(
        BoxInfo::from_origin_and_size(10, 10, -20, 0),
        BoxInfo { start_x: 10, start_y: 10, end_x: -10, end_y: 10 }
    );
    assert_eq!(
        BoxInfo::from_origin_and_size(i64::MAX, i64::MIN, 1, -1),
        BoxInfo { start_x: i64::MAX, start_y: i64::MIN, end_x: i64::MAX, end_y: i64::MIN }
    );
}

#[test]
fn a_box_contains_its_edges() {
    let area = BoxInfo { start_x: 0, start_y: 0, end_x: 100, end_y: 50 };
    let p = |x, y| libwaysip::Position { x, y };
    assert!(area.encloses(p(0, 0)));
    assert!(area.encloses(p(100, 50)));
    assert!(area.encloses(p(50, 25)));
    assert!(!area.encloses(p(101, 25)));
    assert!(!area.encloses(p(50, 51)));
    assert!(!area.encloses(p(-1, 0)));
    assert!(!area.encloses(p(0, -1)));
}
