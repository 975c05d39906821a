//! What a stylus cursor change needs: which theme, size and icon to ask the
//! cursor resolver for, and where the resolved image goes on the cursor
//! surface.

use vstd::prelude::*;

use cursor_icon::CursorIcon;

verus! {

#[verifier::external_type_specification]
#[verifier::external_body]
pub struct ExCursorIcon(CursorIcon);

/// The cursor name of an icon.
pub uninterp spec fn icon_name(icon: CursorIcon) -> Seq<char>;

/// Relies on CursorIcon::name: the name depends on the icon alone.
pub assume_specification[ CursorIcon::name ](icon: &CursorIcon) -> (r: &'static str)
    ensures
        r@ == icon_name(*icon),
;

/// Theme asked for when none is configured.
pub const DEFAULT_THEME: &'static str = "default";

/// Cursor size, in pixels, asked for when none is configured or the
/// configured one does not parse.
pub const DEFAULT_SIZE: u32 = 24;

/// Surface version from which damage can be given in buffer pixels.
pub const DAMAGE_BUFFER_SINCE: u32 = 4;

/// Value of a string of decimal digits.
pub open spec fn digits_value(s: Seq<char>) -> nat
    decreases s.len(),
{
    if s.len() == 0 {
        0
    } else {
        digits_value(s.drop_last()) * 10 + (s.last() as nat - '0' as nat) as nat
    }
}

/// Whether every character of `s` is an ASCII digit.
pub open spec fn all_digits(s: Seq<char>) -> bool {
    forall|i: int| 0 <= i < s.len() ==> '0' <= #[trigger] s[i] <= '9'
}

/// What parsing `s` as a `u32` gives: an optional `+`, then at least one
/// decimal digit and nothing else, with a value that fits.
pub open spec fn decimal_u32(s: Seq<char>) -> Option<u32> {
    let digits = if s.len() > 0 && s[0] == '+' {
        s.subrange(1, s.len() as int)
    } else {
        s
    };
    if digits.len() > 0 && all_digits(digits) && digits_value(digits) <= u32::MAX {
        Some(digits_value(digits) as u32)
    } else {
        None
    }
}

/// Relies on `str::parse::<u32>`, which accepts exactly an optional `+`
/// followed by decimal digits whose value fits in a `u32`.
#[verifier::external_body]
fn parse_u32(s: &str) -> (r: Option<u32>)
    ensures
        r == decimal_u32(s@),
{
    s.parse::<u32>().ok()
}

/// The theme asked for, given the configured one.
pub open spec fn theme_name(configured: Option<Seq<char>>) -> Seq<char> {
    match configured {
        Some(name) => name,
        None => DEFAULT_THEME@,
    }
}

/// The size asked for, given the configured one.
pub open spec fn theme_size(configured: Option<Seq<char>>) -> u32 {
    match configured {
        Some(text) => match decimal_u32(text) {
            Some(n) => n,
            None => DEFAULT_SIZE,
        },
        None => DEFAULT_SIZE,
    }
}

/// The view of an optional string.
pub open spec fn opt_view(s: Option<String>) -> Option<Seq<char>> {
    match s {
        Some(t) => Some(t@),
        None => None,
    }
}

/// What to ask the cursor resolver for.
pub struct CursorRequest {
    pub theme: String,
    pub size: u32,
    pub icon: String,
}

/// The request for `icon`, with the theme and size that the configuration
/// gives (`theme` and `size` as configured, if they are), falling back to
/// the default theme and size.
pub fn cursor_request(icon: CursorIcon, theme: Option<String>, size: Option<String>) -> (r:
    CursorRequest)
    ensures
        r.theme@ == theme_name(opt_view(theme)),
        r.size == theme_size(opt_view(size)),
        r.icon@ == icon_name(icon),
{
    let theme_name = match theme {
        Some(name) => name,
        None => DEFAULT_THEME.to_owned(),
    };
    let size_px = match size {
        Some(text) => match parse_u32(text.as_str()) {
            Some(n) => n,
            None => DEFAULT_SIZE,
        },
        None => DEFAULT_SIZE,
    };
    let icon_text = icon.name().to_owned();
    CursorRequest { theme: theme_name, size: size_px, icon: icon_text }
}

/// A cursor image as the resolver gives it, in buffer pixels.
#[derive(Debug, Copy, Clone, PartialEq, Eq, Structural)]
pub struct CursorImage {
    pub width: u32,
    pub height: u32,
    pub hotspot_x: u32,
    pub hotspot_y: u32,
}

/// The region of the cursor surface to damage after attaching the image.
#[derive(Debug, Copy, Clone, PartialEq, Eq, Structural)]
pub enum Damage {
    /// In buffer pixels, from the origin.
    Buffer { width: u32, height: u32 },
    /// In surface pixels, from the origin, for surfaces too old to take
    /// buffer damage.
    Surface { width: u32, height: u32 },
}

/// How to present a resolved image on the tool's cursor surface.
#[derive(Debug, Copy, Clone, PartialEq, Eq, Structural)]
pub struct CursorPlacement {
    pub buffer_scale: u32,
    pub damage: Damage,
    /// Hot spot, in surface pixels.
    pub hotspot_x: u32,
    pub hotspot_y: u32,
}

/// What the cursor resolver answered.
#[derive(Debug, Copy, Clone, PartialEq, Eq, Structural)]
pub enum CursorLookup {
    /// The theme could not be loaded.
    ThemeUnavailable,
    /// The theme has no cursor of the requested name.
    IconMissing,
    Found(CursorImage),
}

/// Why a cursor change failed.
#[derive(Debug, Copy, Clone, PartialEq, Eq, Structural)]
pub enum CursorError {
    ThemeLoad,
    IconNotFound,
}

/// The placement of `img` on a surface of version `version` at `scale`.
pub open spec fn placement_of(img: CursorImage, version: u32, scale: u32) -> CursorPlacement {
    CursorPlacement {
        buffer_scale: scale,
        damage: if version >= DAMAGE_BUFFER_SINCE {
            Damage::Buffer { width: img.width, height: img.height }
        } else {
            Damage::Surface { width: (img.width / scale) as u32, height: (img.height / scale) as u32 }
        },
        hotspot_x: (img.hotspot_x / scale) as u32,
        hotspot_y: (img.hotspot_y / scale) as u32,
    }
}

/// The placement of the image the resolver found, or why there is none.
pub fn place_cursor(lookup: CursorLookup, surface_version: u32, scale: u32) -> (r: Result<
    CursorPlacement,
    CursorError,
>)
    requires
        scale >= 1,
    ensures
        lookup is ThemeUnavailable ==> r == Err::<CursorPlacement, CursorError>(CursorError::ThemeLoad),
        lookup is IconMissing ==> r == Err::<CursorPlacement, CursorError>(CursorError::IconNotFound),
        lookup is Found ==> r == Ok::<CursorPlacement, CursorError>(
            placement_of(lookup->0, surface_version, scale),
        ),
{
    match lookup {
        CursorLookup::ThemeUnavailable => Err(CursorError::ThemeLoad),
        CursorLookup::IconMissing => Err(CursorError::IconNotFound),
        CursorLookup::Found(img) => {
            let damage = if surface_version >= DAMAGE_BUFFER_SINCE {
                Damage::Buffer { width: img.width, height: img.height }
            } else {
                Damage::Surface { width: img.width / scale, height: img.height / scale }
            };
            Ok(
                CursorPlacement {
                    buffer_scale: scale,
                    damage,
                    hotspot_x: img.hotspot_x / scale,
                    hotspot_y: img.hotspot_y / scale,
                },
            )
        },
    }
}

} // verus!
