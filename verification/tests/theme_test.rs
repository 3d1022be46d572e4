use bakeneko::theme::{accent_rgb, color_schemes, scheme_id, scheme_key, scheme_label, scheme_palette, Rgb};

#[test]
fn labels_round_trip_through_ids() {
    for label in color_schemes() {
        assert_eq!(scheme_label(scheme_id(label)), label);
        assert_eq!(scheme_key(scheme_label(label)), scheme_key(label));
    }
}

#[test]
fn keys_from_stored_values() {
    assert_eq!(scheme_key("  TOKYO night "), "tokyo-night");
    assert_eq!(scheme_key("Rosé Pine"), "rose-pine");
    assert_eq!(scheme_key("mate"), "matecito");
    assert_eq!(scheme_key("#7c5cbf"), "terracotta");
    assert_eq!(scheme_label("catppuccin"), "Catppuccin Mocha");
}

#[test]
fn palettes() {
    let (bg, text, accent) = scheme_palette("Nord");
    assert_eq!(bg, Rgb { r: 0x2E, g: 0x34, b: 0x40 });
    assert_eq!(text, Rgb { r: 0xEC, g: 0xEF, b: 0xF4 });
    assert_eq!(accent, Rgb { r: 0x88, g: 0xC0, b: 0xD0 });
    assert_eq!(accent_rgb("unknown"), Rgb { r: 0xE0, g: 0x78, b: 0x56 });
}

#[test]
fn listed_labels_are_fixed_and_every_label_is_listed() {
    let listed = color_schemes();
    for label in listed.iter() {
        assert_eq!(scheme_label(label), *label);
        assert_eq!(scheme_label(scheme_id(label)), *label);
    }
    for value in ["", "  NORD ", "Rosé Pine", "#7c5cbf", "something else", "mate cocido"] {
        assert!(listed.contains(&scheme_label(value)));
        assert_eq!(scheme_id(scheme_label(value)), scheme_id(value));
    }
    assert_eq!(scheme_id("  NORD "), "nord");
    assert_eq!(scheme_id("Rosé Pine"), "rose-pine");
    assert_eq!(scheme_id("#7c5cbf"), "terracotta");
}
