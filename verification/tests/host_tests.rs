use door::host::{
    battery, caps_lock_on, in_trusted_roots, is_capslock_led, is_svg, kb_layout, now_date, now_hm,
    now_minutes, now_month, vet_dimensions, vet_location, AssetStep, Battery, LedReading,
    LocalTime, PowerSupply,
};

#[test]
fn refuses_a_valid_image_outside_the_trusted_roots() {
    assert_eq!(
        vet_location("/tmp/door-vet-4242.png", false),
        AssetStep::Refuse,
        "a valid image under /tmp must be refused by the trusted-roots allowlist"
    );
}

#[test]
fn trusted_roots_compare_by_component() {
    assert!(in_trusted_roots("/usr/share/door/bg.png"));
    assert!(in_trusted_roots("/etc/door/logo.svg"));
    assert!(!in_trusted_roots("/usr/share/doorway/bg.png"));
    assert!(!in_trusted_roots("/etc/doorbell"));
    assert!(!in_trusted_roots("usr/share/door/bg.png"));
    assert_eq!(vet_location("/usr/share/door/logo.SVG", false), AssetStep::Accept);
    assert_eq!(vet_location("/usr/share/door/bg.png", false), AssetStep::Probe);
    assert_eq!(vet_location("/home/me/bg.png", true), AssetStep::Probe);
}

#[test]
fn svg_detection() {
    assert!(is_svg("/usr/share/door/logo.svg"));
    assert!(is_svg("logo.SvG"));
    assert!(!is_svg("/usr/share/door/logo.png"));
    assert!(!is_svg(".svg"));
    assert!(is_svg("/a/logo.svg/"));
}

#[test]
fn dimension_cap() {
    assert!(vet_dimensions(Some((1920, 1080))));
    assert!(vet_dimensions(Some((8192, 4096))));
    assert!(!vet_dimensions(Some((8193, 10))));
    assert!(!vet_dimensions(Some((8192, 8192))));
    assert!(!vet_dimensions(None));
}

#[test]
fn keyboard_layout_sources_in_order() {
    assert_eq!(kb_layout(Some(" \"us,de\" "), None, None), Some("us".to_string()));
    let xorg = "Section \"InputClass\"\n    Option \"XkbLayout\" \"de,us\"\nEndSection\n";
    assert_eq!(kb_layout(None, Some(xorg), None), Some("de".to_string()));
    assert_eq!(kb_layout(Some(""), Some(xorg), None), Some("de".to_string()));
    let vc = "KEYMAP=fr\nXKBLAYOUT=\"fr\"\n";
    assert_eq!(kb_layout(None, None, Some(vc)), Some("fr".to_string()));
    assert_eq!(kb_layout(None, Some("nothing here"), Some("KEYMAP=us")), None);
}

#[test]
fn battery_from_the_first_real_battery() {
    let supplies = vec![
        PowerSupply {
            kind: Some("Mains\n".to_string()),
            capacity: None,
            status: None,
        },
        PowerSupply {
            kind: Some("Battery\n".to_string()),
            capacity: Some("oops".to_string()),
            status: None,
        },
        PowerSupply {
            kind: Some("Battery\n".to_string()),
            capacity: Some("87\n".to_string()),
            status: Some("Charging\n".to_string()),
        },
    ];
    assert_eq!(
        battery(&supplies),
        Some(Battery {
            percent: 87,
            charging: true
        })
    );
    assert_eq!(battery(&vec![]), None);
    let over = vec![PowerSupply {
        kind: Some("Battery".to_string()),
        capacity: Some("250".to_string()),
        status: Some("Discharging".to_string()),
    }];
    assert_eq!(
        battery(&over),
        Some(Battery {
            percent: 100,
            charging: false
        })
    );
}

#[test]
fn caps_lock_from_the_led() {
    assert!(is_capslock_led("input3::capslock"));
    assert!(!is_capslock_led("input3::numlock"));
    let leds = vec![
        LedReading {
            name: "input3::numlock".to_string(),
            brightness: Some("1\n".to_string()),
        },
        LedReading {
            name: "input3::capslock".to_string(),
            brightness: Some("0\n".to_string()),
        },
    ];
    assert_eq!(caps_lock_on(&leds), Some(false));
    let on = vec![LedReading {
        name: "input3::capslock".to_string(),
        brightness: Some("1".to_string()),
    }];
    assert_eq!(caps_lock_on(&on), Some(true));
    assert_eq!(caps_lock_on(&vec![]), None);
}

fn at(hour: i32, minute: i32, second: i32) -> LocalTime {
    LocalTime {
        hour,
        minute,
        second,
        month: 5,
        month_day: 27,
        weekday: 5,
    }
}

#[test]
fn clock_text_formats() {
    assert_eq!(now_hm(Some(at(7, 5, 9)), true, false), "07:05");
    assert_eq!(now_hm(Some(at(7, 5, 9)), true, true), "07:05:09");
    assert_eq!(now_hm(Some(at(0, 30, 0)), false, false), "12:30 AM");
    assert_eq!(now_hm(Some(at(13, 0, 1)), false, true), "1:00:01 PM");
    assert_eq!(now_hm(None, true, false), "");
}

#[test]
fn day_minutes_month_and_date() {
    assert_eq!(now_minutes(Some(at(19, 30, 0))), 1170);
    assert_eq!(now_minutes(None), 720);
    assert_eq!(now_month(Some(at(1, 0, 0))), 6);
    assert_eq!(now_month(None), 6);
    assert_eq!(now_date(Some(at(1, 0, 0))), "Friday, June 27");
    assert_eq!(now_date(None), "");
}
