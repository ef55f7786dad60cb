use aqi::band::{color_name_for, Band, Color};

#[test]
fn boundary_values_map_per_table() {
    assert_eq!(color_name_for(0), "green");
    assert_eq!(color_name_for(50), "green");
    assert_eq!(color_name_for(51), "yellow");
    assert_eq!(color_name_for(100), "yellow");
    assert_eq!(color_name_for(101), "orange");
    assert_eq!(color_name_for(150), "orange");
    assert_eq!(color_name_for(151), "red");
    assert_eq!(color_name_for(200), "red");
    assert_eq!(color_name_for(201), "purple");
    assert_eq!(color_name_for(300), "purple");
    assert_eq!(color_name_for(301), "maroon");
    assert_eq!(color_name_for(500), "maroon");
    assert_eq!(color_name_for(501), "white");
    assert_eq!(color_name_for(-1), "white");
}

#[test]
fn every_value_of_a_range_has_the_range_color() {
    let mut a: i64 = -20;
    while a <= 520 {
        let expected = if a < 0 {
            "white"
        } else if a <= 50 {
            "green"
        } else if a <= 100 {
            "yellow"
        } else if a <= 150 {
            "orange"
        } else if a <= 200 {
            "red"
        } else if a <= 300 {
            "purple"
        } else if a <= 500 {
            "maroon"
        } else {
            "white"
        };
        assert_eq!(color_name_for(a), expected, "aqi {}", a);
        a += 1;
    }
}

#[test]
fn extreme_values_are_unknown() {
    assert_eq!(Band::of(i64::MIN), Band::Unknown);
    assert_eq!(Band::of(i64::MAX), Band::Unknown);
    assert_eq!(Band::of(4_294_967_295), Band::Unknown);
}

#[test]
fn bands_by_name() {
    assert_eq!(Band::of(25), Band::Good);
    assert_eq!(Band::of(75), Band::Moderate);
    assert_eq!(Band::of(125), Band::UnhealthyForSensitiveGroups);
    assert_eq!(Band::of(175), Band::Unhealthy);
    assert_eq!(Band::of(250), Band::VeryUnhealthy);
    assert_eq!(Band::of(400), Band::Hazardous);
    assert_eq!(Band::of(-5), Band::Unknown);
}

#[test]
fn band_colors() {
    assert_eq!(Band::Good.color(), Color::Green);
    assert_eq!(Band::Moderate.color(), Color::Yellow);
    assert_eq!(Band::UnhealthyForSensitiveGroups.color(), Color::Orange);
    assert_eq!(Band::Unhealthy.color(), Color::Red);
    assert_eq!(Band::VeryUnhealthy.color(), Color::Purple);
    assert_eq!(Band::Hazardous.color(), Color::Maroon);
    assert_eq!(Band::Unknown.color(), Color::White);
}

#[test]
fn color_names() {
    assert_eq!(Color::Green.name(), "green");
    assert_eq!(Color::Yellow.name(), "yellow");
    assert_eq!(Color::Orange.name(), "orange");
    assert_eq!(Color::Red.name(), "red");
    assert_eq!(Color::Purple.name(), "purple");
    assert_eq!(Color::Maroon.name(), "maroon");
    assert_eq!(Color::White.name(), "white");
}
