use cursor_icon::CursorIcon;
use wayland_tablet::cursor::{
    cursor_request, place_cursor, CursorError, CursorImage, CursorLookup, CursorPlacement, Damage,
};

#[test]
fn request_falls_back_to_default_theme_and_size() {
    let r = cursor_request(CursorIcon::Default, None, None);
    assert_eq!(r.theme, "default");
    assert_eq!(r.size, 24);
    assert_eq!(r.icon, "default");
}

#[test]
fn request_uses_configured_theme_and_size() {
    let r = cursor_request(CursorIcon::Pointer, Some("Adwaita".to_string()), Some("32".to_string()));
    assert_eq!(r.theme, "Adwaita");
    assert_eq!(r.size, 32);
    assert_eq!(r.icon, "pointer");
    let plus = cursor_request(CursorIcon::Text, None, Some("+48".to_string()));
    assert_eq!(plus.size, 48);
    assert_eq!(plus.icon, "text");
}

#[test]
fn request_ignores_unparsable_size() {
    for bad in ["abc", "", "-1", "12px", " 16", "4294967296"] {
        let r = cursor_request(CursorIcon::Wait, None, Some(bad.to_string()));
        assert_eq!(r.size, 24, "size text {:?}", bad);
    }
    assert_eq!(cursor_request(CursorIcon::Wait, None, Some("4294967295".to_string())).size, u32::MAX);
}

#[test]
fn placement_damages_buffer_on_recent_surfaces() {
    let img = CursorImage { width: 48, height: 40, hotspot_x: 9, hotspot_y: 5 };
    assert_eq!(
        place_cursor(CursorLookup::Found(img), 4, 2),
        Ok(CursorPlacement {
            buffer_scale: 2,
            damage: Damage::Buffer { width: 48, height: 40 },
            hotspot_x: 4,
            hotspot_y: 2,
        })
    );
}

#[test]
fn placement_damages_surface_on_old_surfaces() {
    let img = CursorImage { width: 25, height: 24, hotspot_x: 3, hotspot_y: 3 };
    assert_eq!(
        place_cursor(CursorLookup::Found(img), 3, 2),
        Ok(CursorPlacement {
            buffer_scale: 2,
            damage: Damage::Surface { width: 12, height: 12 },
            hotspot_x: 1,
            hotspot_y: 1,
        })
    );
}

#[test]
fn placement_reports_lookup_failures() {
    assert_eq!(place_cursor(CursorLookup::ThemeUnavailable, 4, 1), Err(CursorError::ThemeLoad));
    assert_eq!(place_cursor(CursorLookup::IconMissing, 4, 1), Err(CursorError::IconNotFound));
}
