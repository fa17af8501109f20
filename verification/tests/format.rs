use libwaysip::fixed::{from_pixels, to_pixels, wide_to_pixels, saturate};
use libwaysip::format::{
    apply_format, expand_format, push_decimal, push_decimal_nat, FormatValues,
};
use libwaysip::state::{AreaInfo, BoxInfo, ScreenInfo};
use libwaysip::{Position, Size};

fn area(start: (i32, i32), end: (i32, i32)) -> AreaInfo {
    AreaInfo {
        box_info: BoxInfo {
            start_x: from_pixels(start.0),
            start_y: from_pixels(start.1),
            end_x: from_pixels(end.0),
            end_y: from_pixels(end.1),
        },
        screen_info: ScreenInfo {
            position: Position { x: 1920, y: 0 },
            screen_size: Size { width: 1280, height: 1024 },
            wl_output: 1,
            output_size: Size { width: 2560, height: 2048 },
            name: "DP-2".to_string(),
            description: "Right hand".to_string(),
        },
    }
}

fn decimal(v: i64) -> String {
    let mut text = String::new();
    push_decimal(&mut text, v);
    text
}

#[test]
fn integers_are_written_in_decimal() {
    assert_eq!(decimal(0), "0");
    assert_eq!(decimal(7), "7");
    assert_eq!(decimal(10), "10");
    assert_eq!(decimal(-1), "-1");
    assert_eq!(decimal(1234567890), "1234567890");
    assert_eq!(decimal(i64::MAX), i64::MAX.to_string());
    assert_eq!(decimal(i64::MIN), i64::MIN.to_string());
    let mut text = "n=".to_string();
    push_decimal(&mut text, -42);
    assert_eq!(text, "n=-42");
    let mut count = "#".to_string();
    push_decimal_nat(&mut count, u64::MAX);
    assert_eq!(count, "#18446744073709551615");
}

#[test]
fn sub_pixels_round_toward_zero() {
    assert_eq!(from_pixels(3), 768);
    assert_eq!(from_pixels(-3), -768);
    assert_eq!(to_pixels(767), 2);
    assert_eq!(to_pixels(768), 3);
    assert_eq!(to_pixels(-1), 0);
    assert_eq!(to_pixels(-255), 0);
    assert_eq!(to_pixels(-256), -1);
    assert_eq!(to_pixels(-257), -1);
    assert_eq!(to_pixels(i64::MAX), i32::MAX);
    assert_eq!(to_pixels(i64::MIN), i32::MIN);
    assert_eq!(wide_to_pixels(i128::from(i64::MAX) * 2), i32::MAX);
    assert_eq!(wide_to_pixels(-513), -2);
    assert_eq!(saturate(i128::from(i64::MAX) + 1), i64::MAX);
    assert_eq!(saturate(i128::from(i64::MIN) - 1), i64::MIN);
    assert_eq!(saturate(-5), -5);
}

#[test]
fn the_default_format_gives_corner_and_size() {
    let info = area((2000, 80), (1950, 20));
    assert_eq!(apply_format(&info, "%x,%y %wx%h\n", false), "1950,20 50x60\n");
}

#[test]
fn relative_values_are_counted_from_the_display() {
    let info = area((2000, 80), (1950, 20));
    assert_eq!(apply_format(&info, "%X,%Y %Wx%H", false), "30,20 50x60");
    // A selection that reaches beyond the display is cut off at its edge.
    let wide = area((3000, 1000), (3500, 1100));
    assert_eq!(apply_format(&wide, "%X,%Y %Wx%H", false), "1080,1000 200x24");
}

#[test]
fn a_point_has_an_extent_of_one_pixel() {
    let info = area((1925, 5), (1925, 5));
    assert_eq!(apply_format(&info, "%x,%y %wx%h", false), "1925,5 1x1");
}

#[test]
fn a_screen_is_described_by_its_own_rectangle() {
    let info = area((2000, 80), (1950, 20));
    assert_eq!(
        apply_format(
            &info,
            "Screen : %o %d\nlogic_width: %w, logic_height: %h\nwidth: %L, height: %T",
            true
        ),
        "Screen : DP-2 Right hand\nlogic_width: 1280, logic_height: 1024\nwidth: 2560, height: 2048"
    );
    assert_eq!(apply_format(&info, "%x,%y %X,%Y %Wx%H %l", true), "1920,0 0,0 1280x1024 DP-2");
}

#[test]
fn escapes_and_unknown_directives() {
    let info = area((2000, 80), (1950, 20));
    assert_eq!(apply_format(&info, "100%% %q %é", false), "100% q é");
    assert_eq!(apply_format(&info, "a\\nb\\\\c\\td", false), "a\nb\\ctd");
    assert_eq!(apply_format(&info, "tail%", false), "tail%");
    assert_eq!(apply_format(&info, "tail\\", false), "tail\\");
    assert_eq!(apply_format(&info, "", false), "");
    assert_eq!(apply_format(&info, "žluťoučký %w", false), "žluťoučký 50");
}

#[test]
fn the_values_of_a_format() {
    let info = area((2000, 80), (1950, 20));
    let values = info.format_values(false);
    assert_eq!(
        values,
        FormatValues {
            x: 1950,
            y: 20,
            width: 50,
            height: 60,
            rel_x: 30,
            rel_y: 20,
            rel_width: 50,
            rel_height: 60,
            name: "DP-2".to_string(),
            description: "Right hand".to_string(),
            mode_width: 2560,
            mode_height: 2048,
        }
    );
    assert_eq!(expand_format("%h/%w", &values), "60/50");
}
