//! The color palettes themed panels draw from: one set of named color
//! values per brightness, each pinned to its exact value.

use vstd::prelude::*;

verus! {

/// The named colors of a theme.
#[derive(Clone, Debug)]
pub struct ColorTheme {
    pub color_neutral_background_disabled: String,
    pub color_neutral_background_1: String,
    pub color_neutral_background_1_hover: String,
    pub color_neutral_background_1_pressed: String,
    pub color_neutral_foreground_disabled: String,
    pub color_neutral_foreground_1: String,
    pub color_neutral_foreground_1_hover: String,
    pub color_neutral_foreground_1_pressed: String,
    pub color_neutral_foreground_2: String,
    pub color_neutral_foreground_2_hover: String,
    pub color_neutral_foreground_2_pressed: String,
    pub color_neutral_foreground_2_brand_hover: String,
    pub color_neutral_foreground_2_brand_pressed: String,
    pub color_neutral_foreground_on_brand: String,
    pub color_neutral_stroke_disabled: String,
    pub color_neutral_stroke_1: String,
    pub color_neutral_stroke_1_hover: String,
    pub color_neutral_stroke_1_pressed: String,
    pub color_neutral_stroke_accessible: String,
    pub color_compound_brand_stroke: String,
    pub color_brand_background: String,
    pub color_brand_background_hover: String,
    pub color_brand_background_pressed: String,
    pub color_subtle_background: String,
    pub color_subtle_background_hover: String,
    pub color_subtle_background_pressed: String,
    pub color_transparent_background: String,
    pub color_transparent_background_hover: String,
    pub color_transparent_background_pressed: String,
}

impl ColorTheme {
    /// The light palette.
    pub fn light() -> (r: ColorTheme)
        ensures
            r.color_neutral_background_disabled@ == "#f0f0f0"@,
            r.color_neutral_background_1@ == "#fff"@,
            r.color_neutral_background_1_hover@ == "#f5f5f5"@,
            r.color_neutral_background_1_pressed@ == "#e0e0e0"@,
            r.color_neutral_foreground_disabled@ == "#bdbdbd"@,
            r.color_neutral_foreground_1@ == "#242424"@,
            r.color_neutral_foreground_1_hover@ == "#242424"@,
            r.color_neutral_foreground_1_pressed@ == "#242424"@,
            r.color_neutral_foreground_2@ == "#424242"@,
            r.color_neutral_foreground_2_hover@ == "#242424"@,
            r.color_neutral_foreground_2_pressed@ == "#242424"@,
            r.color_neutral_foreground_2_brand_hover@ == "#0f6cbd"@,
            r.color_neutral_foreground_2_brand_pressed@ == "#115ea3"@,
            r.color_neutral_foreground_on_brand@ == "#fff"@,
            r.color_neutral_stroke_disabled@ == "#e0e0e0"@,
            r.color_neutral_stroke_1@ == "#d1d1d1"@,
            r.color_neutral_stroke_1_hover@ == "#c7c7c7"@,
            r.color_neutral_stroke_1_pressed@ == "#b3b3b3"@,
            r.color_neutral_stroke_accessible@ == "#616161"@,
            r.color_compound_brand_stroke@ == "#0f6cbd"@,
            r.color_brand_background@ == "#0f6cbd"@,
            r.color_brand_background_hover@ == "#115ea3"@,
            r.color_brand_background_pressed@ == "#0c3b5e"@,
            r.color_subtle_background@ == "transparent"@,
            r.color_subtle_background_hover@ == "#f5f5f5"@,
            r.color_subtle_background_pressed@ == "#e0e0e0"@,
            r.color_transparent_background@ == "transparent"@,
            r.color_transparent_background_hover@ == "transparent"@,
            r.color_transparent_background_pressed@ == "transparent"@,
    {
        ColorTheme {
            color_neutral_background_disabled: "#f0f0f0".to_owned(),
            color_neutral_background_1: "#fff".to_owned(),
            color_neutral_background_1_hover: "#f5f5f5".to_owned(),
            color_neutral_background_1_pressed: "#e0e0e0".to_owned(),
            color_neutral_foreground_disabled: "#bdbdbd".to_owned(),
            color_neutral_foreground_1: "#242424".to_owned(),
            color_neutral_foreground_1_hover: "#242424".to_owned(),
            color_neutral_foreground_1_pressed: "#242424".to_owned(),
            color_neutral_foreground_2: "#424242".to_owned(),
            color_neutral_foreground_2_hover: "#242424".to_owned(),
            color_neutral_foreground_2_pressed: "#242424".to_owned(),
            color_neutral_foreground_2_brand_hover: "#0f6cbd".to_owned(),
            color_neutral_foreground_2_brand_pressed: "#115ea3".to_owned(),
            color_neutral_foreground_on_brand: "#fff".to_owned(),
            color_neutral_stroke_disabled: "#e0e0e0".to_owned(),
            color_neutral_stroke_1: "#d1d1d1".to_owned(),
            color_neutral_stroke_1_hover: "#c7c7c7".to_owned(),
            color_neutral_stroke_1_pressed: "#b3b3b3".to_owned(),
            color_neutral_stroke_accessible: "#616161".to_owned(),
            color_compound_brand_stroke: "#0f6cbd".to_owned(),
            color_brand_background: "#0f6cbd".to_owned(),
            color_brand_background_hover: "#115ea3".to_owned(),
            color_brand_background_pressed: "#0c3b5e".to_owned(),
            color_subtle_background: "transparent".to_owned(),
            color_subtle_background_hover: "#f5f5f5".to_owned(),
            color_subtle_background_pressed: "#e0e0e0".to_owned(),
            color_transparent_background: "transparent".to_owned(),
            color_transparent_background_hover: "transparent".to_owned(),
            color_transparent_background_pressed: "transparent".to_owned(),
        }
    }

    /// The dark palette.
    pub fn dark() -> (r: ColorTheme)
        ensures
            r.color_neutral_background_disabled@ == "#141414"@,
            r.color_neutral_background_1@ == "#292929"@,
            r.color_neutral_background_1_hover@ == "#3d3d3d"@,
            r.color_neutral_background_1_pressed@ == "#1f1f1f"@,
            r.color_neutral_foreground_disabled@ == "#5c5c5c"@,
            r.color_neutral_foreground_1@ == "#fff"@,
            r.color_neutral_foreground_1_hover@ == "#fff"@,
            r.color_neutral_foreground_1_pressed@ == "#fff"@,
            r.color_neutral_foreground_2@ == "#d6d6d6"@,
            r.color_neutral_foreground_2_hover@ == "#fff"@,
            r.color_neutral_foreground_2_pressed@ == "#fff"@,
            r.color_neutral_foreground_2_brand_hover@ == "#479ef5"@,
            r.color_neutral_foreground_2_brand_pressed@ == "#2886de"@,
            r.color_neutral_foreground_on_brand@ == "#fff"@,
            r.color_neutral_stroke_disabled@ == "#424242"@,
            r.color_neutral_stroke_1@ == "#666666"@,
            r.color_neutral_stroke_1_hover@ == "#757575"@,
            r.color_neutral_stroke_1_pressed@ == "#6b6b6b"@,
            r.color_neutral_stroke_accessible@ == "#adadad"@,
            r.color_compound_brand_stroke@ == "#479ef5"@,
            r.color_brand_background@ == "#115ea3"@,
            r.color_brand_background_hover@ == "#0f6cbd"@,
            r.color_brand_background_pressed@ == "#0c3b5e"@,
            r.color_subtle_background@ == "transparent"@,
            r.color_subtle_background_hover@ == "#383838"@,
            r.color_subtle_background_pressed@ == "#2e2e2e"@,
            r.color_transparent_background@ == "transparent"@,
            r.color_transparent_background_hover@ == "transparent"@,
            r.color_transparent_background_pressed@ == "transparent"@,
    {
        ColorTheme {
            color_neutral_background_disabled: "#141414".to_owned(),
            color_neutral_background_1: "#292929".to_owned(),
            color_neutral_background_1_hover: "#3d3d3d".to_owned(),
            color_neutral_background_1_pressed: "#1f1f1f".to_owned(),
            color_neutral_foreground_disabled: "#5c5c5c".to_owned(),
            color_neutral_foreground_1: "#fff".to_owned(),
            color_neutral_foreground_1_hover: "#fff".to_owned(),
            color_neutral_foreground_1_pressed: "#fff".to_owned(),
            color_neutral_foreground_2: "#d6d6d6".to_owned(),
            color_neutral_foreground_2_hover: "#fff".to_owned(),
            color_neutral_foreground_2_pressed: "#fff".to_owned(),
            color_neutral_foreground_2_brand_hover: "#479ef5".to_owned(),
            color_neutral_foreground_2_brand_pressed: "#2886de".to_owned(),
            color_neutral_foreground_on_brand: "#fff".to_owned(),
            color_neutral_stroke_disabled: "#424242".to_owned(),
            color_neutral_stroke_1: "#666666".to_owned(),
            color_neutral_stroke_1_hover: "#757575".to_owned(),
            color_neutral_stroke_1_pressed: "#6b6b6b".to_owned(),
            color_neutral_stroke_accessible: "#adadad".to_owned(),
            color_compound_brand_stroke: "#479ef5".to_owned(),
            color_brand_background: "#115ea3".to_owned(),
            color_brand_background_hover: "#0f6cbd".to_owned(),
            color_brand_background_pressed: "#0c3b5e".to_owned(),
            color_subtle_background: "transparent".to_owned(),
            color_subtle_background_hover: "#383838".to_owned(),
            color_subtle_background_pressed: "#2e2e2e".to_owned(),
            color_transparent_background: "transparent".to_owned(),
            color_transparent_background_hover: "transparent".to_owned(),
            color_transparent_background_pressed: "transparent".to_owned(),
        }
    }

}

} // verus!
