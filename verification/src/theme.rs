//! Themes: the named default styling a chart starts from.  A theme
//! supplies an initial value for every style field a caller left unset.

use vstd::prelude::*;
use crate::color::Color;

verus! {

/// The default style fields of a named theme.
pub struct Theme {
    pub is_light: bool,
    pub background_color: Color,
    pub title_font_color: Color,
    pub legend_font_color: Color,
    pub axis_stroke_color: Color,
    pub axis_font_color: Color,
    pub grid_stroke_color: Color,
    pub series_colors: Vec<Color>,
}

/// The series palette shared by both built-in themes.
pub open spec fn spec_palette() -> Seq<Color> {
    seq![
        Color { r: 0x54, g: 0x70, b: 0xC6, a: 255 },
        Color { r: 0x91, g: 0xCC, b: 0x75, a: 255 },
        Color { r: 0xFA, g: 0xC8, b: 0x58, a: 255 },
        Color { r: 0xEE, g: 0x66, b: 0x66, a: 255 },
        Color { r: 0x73, g: 0xC0, b: 0xDE, a: 255 },
        Color { r: 0x3B, g: 0xA2, b: 0x72, a: 255 },
    ]
}

/// The name of the theme used when none is given.
pub fn get_default_theme() -> (s: String)
    ensures
        s@ == "light"@,
{
    "light".to_owned()
}

/// Whether two pieces of text hold the same characters.
pub fn str_eq(a: &str, b: &str) -> (r: bool)
    ensures
        r == (a@ == b@),
{
    let n = a.unicode_len();
    let m = b.unicode_len();
    if n != m {
        proof {
            assert(a@ != b@);
        }
        return false;
    }
    let mut i: usize = 0;
    while i < n
        invariant
            i <= n,
            n == a@.len(),
            n == b@.len(),
            forall|j: int| 0 <= j < i ==> a@[j] == b@[j],
        decreases n - i,
    {
        if a.get_char(i) != b.get_char(i) {
            proof {
                assert(a@ != b@);
            }
            return false;
        }
        i = i + 1;
    }
    proof {
        assert(a@ =~= b@);
    }
    true
}

/// The theme a name denotes: `dark`, or the light default for any other
/// name (an unknown name degrades to the default rather than failing).
pub fn get_theme(name: &str) -> (t: Theme)
    ensures
        t.is_light == (name@ != "dark"@),
        name@ == "dark"@ ==> {
            &&& t.background_color == (Color { r: 0x10, g: 0x0C, b: 0x2A, a: 255 })
            &&& t.title_font_color == (Color { r: 0xEE, g: 0xEE, b: 0xEE, a: 255 })
            &&& t.legend_font_color == (Color { r: 0xEE, g: 0xEE, b: 0xEE, a: 255 })
            &&& t.axis_stroke_color == (Color { r: 0x6E, g: 0x71, b: 0x79, a: 255 })
            &&& t.axis_font_color == (Color { r: 0xCC, g: 0xCC, b: 0xCC, a: 255 })
            &&& t.grid_stroke_color == (Color { r: 0x40, g: 0x44, b: 0x4D, a: 255 })
        },
        name@ != "dark"@ ==> {
            &&& t.background_color == (Color { r: 255, g: 255, b: 255, a: 255 })
            &&& t.title_font_color == (Color { r: 0x46, g: 0x46, b: 0x4B, a: 255 })
            &&& t.legend_font_color == (Color { r: 0x46, g: 0x46, b: 0x4B, a: 255 })
            &&& t.axis_stroke_color == (Color { r: 0x6E, g: 0x71, b: 0x79, a: 255 })
            &&& t.axis_font_color == (Color { r: 0x70, g: 0x70, b: 0x70, a: 255 })
            &&& t.grid_stroke_color == (Color { r: 0xE0, g: 0xE6, b: 0xF1, a: 255 })
        },
        t.series_colors@ == spec_palette(),
{
    let mut palette: Vec<Color> = Vec::new();
    palette.push(Color { r: 0x54, g: 0x70, b: 0xC6, a: 255 });
    palette.push(Color { r: 0x91, g: 0xCC, b: 0x75, a: 255 });
    palette.push(Color { r: 0xFA, g: 0xC8, b: 0x58, a: 255 });
    palette.push(Color { r: 0xEE, g: 0x66, b: 0x66, a: 255 });
    palette.push(Color { r: 0x73, g: 0xC0, b: 0xDE, a: 255 });
    palette.push(Color { r: 0x3B, g: 0xA2, b: 0x72, a: 255 });
    proof {
        assert(palette@ =~= spec_palette());
    }
    if str_eq(name, "dark") {
        Theme {
            is_light: false,
            background_color: Color { r: 0x10, g: 0x0C, b: 0x2A, a: 255 },
            title_font_color: Color { r: 0xEE, g: 0xEE, b: 0xEE, a: 255 },
            legend_font_color: Color { r: 0xEE, g: 0xEE, b: 0xEE, a: 255 },
            axis_stroke_color: Color { r: 0x6E, g: 0x71, b: 0x79, a: 255 },
            axis_font_color: Color { r: 0xCC, g: 0xCC, b: 0xCC, a: 255 },
            grid_stroke_color: Color { r: 0x40, g: 0x44, b: 0x4D, a: 255 },
            series_colors: palette,
        }
    } else {
        Theme {
            is_light: true,
            background_color: Color { r: 255, g: 255, b: 255, a: 255 },
            title_font_color: Color { r: 0x46, g: 0x46, b: 0x4B, a: 255 },
            legend_font_color: Color { r: 0x46, g: 0x46, b: 0x4B, a: 255 },
            axis_stroke_color: Color { r: 0x6E, g: 0x71, b: 0x79, a: 255 },
            axis_font_color: Color { r: 0x70, g: 0x70, b: 0x70, a: 255 },
            grid_stroke_color: Color { r: 0xE0, g: 0xE6, b: 0xF1, a: 255 },
            series_colors: palette,
        }
    }
}

} // verus!
