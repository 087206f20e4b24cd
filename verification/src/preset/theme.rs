//! The built-in theme.
use vstd::prelude::*;
use crate::context::Context;
use crate::theme::{StrMap, ThemeValue, ThemeValueView};

verus! {

fn put(m: &mut StrMap, key: &str, value: &str)
    requires
        old(m).wf(),
    ensures
        final(m).wf(),
        final(m)@ == old(m)@.insert(key@, value@),
{
    m.insert(key.to_owned(), value.to_owned());
}

/// The built-in `colors` table: empty.
pub open spec fn colors_values() -> Map<Seq<char>, Seq<char>> {
    Map::empty()
}

fn colors() -> (r: StrMap)
    ensures
        r.wf(),
        r@ == colors_values(),
{
    StrMap::new()
}

/// The built-in `spacing` table: empty.
pub open spec fn spacing_values() -> Map<Seq<char>, Seq<char>> {
    Map::empty()
}

fn spacing() -> (r: StrMap)
    ensures
        r.wf(),
        r@ == spacing_values(),
{
    StrMap::new()
}

/// The built-in `translate` table.
pub open spec fn translate_values() -> Map<Seq<char>, Seq<char>> {
    map![
        "0"@ => "0"@,
        "px"@ => "1px"@,
        "1/2"@ => "50%"@,
        "1/3"@ => "33.333333%"@,
        "2/3"@ => "66.666667%"@,
        "1/4"@ => "25%"@,
        "2/4"@ => "50%"@,
        "3/4"@ => "75%"@,
        "full"@ => "100%"@,
    ]
}

fn translate() -> (r: StrMap)
    ensures
        r.wf(),
        r@ == translate_values(),
{
    let mut m = StrMap::new();
    put(&mut m, "0", "0");
    put(&mut m, "px", "1px");
    put(&mut m, "1/2", "50%");
    put(&mut m, "1/3", "33.333333%");
    put(&mut m, "2/3", "66.666667%");
    put(&mut m, "1/4", "25%");
    put(&mut m, "2/4", "50%");
    put(&mut m, "3/4", "75%");
    put(&mut m, "full", "100%");
    m
}

/// The built-in `blur` table.
pub open spec fn blur_values() -> Map<Seq<char>, Seq<char>> {
    map![
        "0"@ => "0"@,
        "none"@ => "0"@,
        "sm"@ => "4px"@,
        "DEFAULT"@ => "8px"@,
        "md"@ => "12px"@,
        "lg"@ => "16px"@,
        "xl"@ => "24px"@,
        "2xl"@ => "40px"@,
        "3xl"@ => "64px"@,
    ]
}

fn blur() -> (r: StrMap)
    ensures
        r.wf(),
        r@ == blur_values(),
{
    let mut m = StrMap::new();
    put(&mut m, "0", "0");
    put(&mut m, "none", "0");
    put(&mut m, "sm", "4px");
    put(&mut m, "DEFAULT", "8px");
    put(&mut m, "md", "12px");
    put(&mut m, "lg", "16px");
    put(&mut m, "xl", "24px");
    put(&mut m, "2xl", "40px");
    put(&mut m, "3xl", "64px");
    m
}

/// The built-in `ringWidth` table.
pub open spec fn ring_width_values() -> Map<Seq<char>, Seq<char>> {
    map![
        "DEFAULT"@ => "3px"@,
        "0"@ => "0px"@,
        "1"@ => "1px"@,
        "2"@ => "2px"@,
        "4"@ => "4px"@,
        "8"@ => "8px"@,
    ]
}

fn ring_width() -> (r: StrMap)
    ensures
        r.wf(),
        r@ == ring_width_values(),
{
    let mut m = StrMap::new();
    put(&mut m, "DEFAULT", "3px");
    put(&mut m, "0", "0px");
    put(&mut m, "1", "1px");
    put(&mut m, "2", "2px");
    put(&mut m, "4", "4px");
    put(&mut m, "8", "8px");
    m
}

/// The built-in `ringOffsetWidth` table.
pub open spec fn ring_offset_width_values() -> Map<Seq<char>, Seq<char>> {
    map![
        "0"@ => "0px"@,
        "1"@ => "1px"@,
        "2"@ => "2px"@,
        "4"@ => "4px"@,
        "8"@ => "8px"@,
    ]
}

fn ring_offset_width() -> (r: StrMap)
    ensures
        r.wf(),
        r@ == ring_offset_width_values(),
{
    let mut m = StrMap::new();
    put(&mut m, "0", "0px");
    put(&mut m, "1", "1px");
    put(&mut m, "2", "2px");
    put(&mut m, "4", "4px");
    put(&mut m, "8", "8px");
    m
}

/// The built-in `backgroundPosition` table.
pub open spec fn background_position_values() -> Map<Seq<char>, Seq<char>> {
    map![
        "bottom"@ => "bottom"@,
        "center"@ => "center"@,
        "left"@ => "left"@,
        "left-bottom"@ => "left bottom"@,
        "left-top"@ => "left top"@,
        "right"@ => "right"@,
        "right-bottom"@ => "right bottom"@,
        "right-top"@ => "right top"@,
        "top"@ => "top"@,
    ]
}

fn background_position() -> (r: StrMap)
    ensures
        r.wf(),
        r@ == background_position_values(),
{
    let mut m = StrMap::new();
    put(&mut m, "bottom", "bottom");
    put(&mut m, "center", "center");
    put(&mut m, "left", "left");
    put(&mut m, "left-bottom", "left bottom");
    put(&mut m, "left-top", "left top");
    put(&mut m, "right", "right");
    put(&mut m, "right-bottom", "right bottom");
    put(&mut m, "right-top", "right top");
    put(&mut m, "top", "top");
    m
}

/// The built-in `backgroundSize` table.
pub open spec fn background_size_values() -> Map<Seq<char>, Seq<char>> {
    map![
        "auto"@ => "auto"@,
        "cover"@ => "cover"@,
        "contain"@ => "contain"@,
    ]
}

fn background_size() -> (r: StrMap)
    ensures
        r.wf(),
        r@ == background_size_values(),
{
    let mut m = StrMap::new();
    put(&mut m, "auto", "auto");
    put(&mut m, "cover", "cover");
    put(&mut m, "contain", "contain");
    m
}

/// The built-in `backgroundImage` table.
pub open spec fn background_image_values() -> Map<Seq<char>, Seq<char>> {
    map![
        "none"@ => "none"@,
        "gradient-to-t"@ => "linear-gradient(to top, var(--tw-gradient-stops,))"@,
        "gradient-to-tr"@ => "linear-gradient(to top right, var(--tw-gradient-stops,))"@,
        "gradient-to-r"@ => "linear-gradient(to right, var(--tw-gradient-stops,))"@,
        "gradient-to-br"@ => "linear-gradient(to bottom right, var(--tw-gradient-stops,))"@,
        "gradient-to-b"@ => "linear-gradient(to bottom, var(--tw-gradient-stops,))"@,
        "gradient-to-bl"@ => "linear-gradient(to bottom left, var(--tw-gradient-stops,))"@,
        "gradient-to-l"@ => "linear-gradient(to left, var(--tw-gradient-stops,))"@,
        "gradient-to-tl"@ => "linear-gradient(to top left, var(--tw-gradient-stops,))"@,
    ]
}

fn background_image() -> (r: StrMap)
    ensures
        r.wf(),
        r@ == background_image_values(),
{
    let mut m = StrMap::new();
    put(&mut m, "none", "none");
    put(&mut m, "gradient-to-t", "linear-gradient(to top, var(--tw-gradient-stops,))");
    put(&mut m, "gradient-to-tr", "linear-gradient(to top right, var(--tw-gradient-stops,))");
    put(&mut m, "gradient-to-r", "linear-gradient(to right, var(--tw-gradient-stops,))");
    put(&mut m, "gradient-to-br", "linear-gradient(to bottom right, var(--tw-gradient-stops,))");
    put(&mut m, "gradient-to-b", "linear-gradient(to bottom, var(--tw-gradient-stops,))");
    put(&mut m, "gradient-to-bl", "linear-gradient(to bottom left, var(--tw-gradient-stops,))");
    put(&mut m, "gradient-to-l", "linear-gradient(to left, var(--tw-gradient-stops,))");
    put(&mut m, "gradient-to-tl", "linear-gradient(to top left, var(--tw-gradient-stops,))");
    m
}

/// The built-in `opacity` table.
pub open spec fn opacity_values() -> Map<Seq<char>, Seq<char>> {
    map![
        "0"@ => "0"@,
        "5"@ => "0.05"@,
        "10"@ => "0.1"@,
        "20"@ => "0.2"@,
        "25"@ => "0.25"@,
        "30"@ => "0.3"@,
        "40"@ => "0.4"@,
        "50"@ => "0.5"@,
        "60"@ => "0.6"@,
        "70"@ => "0.7"@,
        "75"@ => "0.75"@,
        "80"@ => "0.8"@,
        "90"@ => "0.9"@,
        "95"@ => "0.95"@,
        "100"@ => "1"@,
    ]
}

fn opacity() -> (r: StrMap)
    ensures
        r.wf(),
        r@ == opacity_values(),
{
    let mut m = StrMap::new();
    put(&mut m, "0", "0");
    put(&mut m, "5", "0.05");
    put(&mut m, "10", "0.1");
    put(&mut m, "20", "0.2");
    put(&mut m, "25", "0.25");
    put(&mut m, "30", "0.3");
    put(&mut m, "40", "0.4");
    put(&mut m, "50", "0.5");
    put(&mut m, "60", "0.6");
    put(&mut m, "70", "0.7");
    put(&mut m, "75", "0.75");
    put(&mut m, "80", "0.8");
    put(&mut m, "90", "0.9");
    put(&mut m, "95", "0.95");
    put(&mut m, "100", "1");
    m
}

/// The built-in `lineClamp` table.
pub open spec fn line_clamp_values() -> Map<Seq<char>, Seq<char>> {
    map![
        "1"@ => "1"@,
        "2"@ => "2"@,
        "3"@ => "3"@,
        "4"@ => "4"@,
        "5"@ => "5"@,
        "6"@ => "6"@,
    ]
}

fn line_clamp() -> (r: StrMap)
    ensures
        r.wf(),
        r@ == line_clamp_values(),
{
    let mut m = StrMap::new();
    put(&mut m, "1", "1");
    put(&mut m, "2", "2");
    put(&mut m, "3", "3");
    put(&mut m, "4", "4");
    put(&mut m, "5", "5");
    put(&mut m, "6", "6");
    m
}

/// The built-in `borderWidth` table.
pub open spec fn border_width_values() -> Map<Seq<char>, Seq<char>> {
    map![
        "DEFAULT"@ => "1px"@,
        "0"@ => "0"@,
        "2"@ => "2px"@,
        "4"@ => "4px"@,
        "8"@ => "8px"@,
    ]
}

fn border_width() -> (r: StrMap)
    ensures
        r.wf(),
        r@ == border_width_values(),
{
    let mut m = StrMap::new();
    put(&mut m, "DEFAULT", "1px");
    put(&mut m, "0", "0");
    put(&mut m, "2", "2px");
    put(&mut m, "4", "4px");
    put(&mut m, "8", "8px");
    m
}

/// The built-in `breakpoints` table.
pub open spec fn breakpoints_values() -> Map<Seq<char>, Seq<char>> {
    map![
        "sm"@ => "640px"@,
        "md"@ => "768px"@,
        "lg"@ => "1024px"@,
        "xl"@ => "1280px"@,
        "2xl"@ => "1536px"@,
    ]
}

fn breakpoints() -> (r: StrMap)
    ensures
        r.wf(),
        r@ == breakpoints_values(),
{
    let mut m = StrMap::new();
    put(&mut m, "sm", "640px");
    put(&mut m, "md", "768px");
    put(&mut m, "lg", "1024px");
    put(&mut m, "xl", "1280px");
    put(&mut m, "2xl", "1536px");
    m
}

/// The built-in `lineHeight` table.
pub open spec fn line_height_values() -> Map<Seq<char>, Seq<char>> {
    map![
        "3"@ => "0.75rem"@,
        "4"@ => "1rem"@,
        "5"@ => "1.25rem"@,
        "6"@ => "1.5rem"@,
        "7"@ => "1.75rem"@,
        "8"@ => "2rem"@,
        "9"@ => "2.25rem"@,
        "10"@ => "2.5rem"@,
        "none"@ => "1"@,
        "tight"@ => "1.25"@,
        "snug"@ => "1.375"@,
        "normal"@ => "1.5"@,
        "relaxed"@ => "1.625"@,
        "loose"@ => "2"@,
    ]
}

fn line_height() -> (r: StrMap)
    ensures
        r.wf(),
        r@ == line_height_values(),
{
    let mut m = StrMap::new();
    put(&mut m, "3", "0.75rem");
    put(&mut m, "4", "1rem");
    put(&mut m, "5", "1.25rem");
    put(&mut m, "6", "1.5rem");
    put(&mut m, "7", "1.75rem");
    put(&mut m, "8", "2rem");
    put(&mut m, "9", "2.25rem");
    put(&mut m, "10", "2.5rem");
    put(&mut m, "none", "1");
    put(&mut m, "tight", "1.25");
    put(&mut m, "snug", "1.375");
    put(&mut m, "normal", "1.5");
    put(&mut m, "relaxed", "1.625");
    put(&mut m, "loose", "2");
    m
}

/// The built-in `animate` table.
pub open spec fn animate_values() -> Map<Seq<char>, Seq<char>> {
    map![
        "none"@ => "none"@,
        "spin"@ => "spin 1s linear infinite"@,
        "ping"@ => "ping 1s cubic-bezier(0, 0, 0.2, 1) infinite"@,
        "pulse"@ => "pulse 2s cubic-bezier(0.4, 0, 0.6, 1) infinite"@,
        "bounce"@ => "bounce 1s infinite"@,
    ]
}

fn animate() -> (r: StrMap)
    ensures
        r.wf(),
        r@ == animate_values(),
{
    let mut m = StrMap::new();
    put(&mut m, "none", "none");
    put(&mut m, "spin", "spin 1s linear infinite");
    put(&mut m, "ping", "ping 1s cubic-bezier(0, 0, 0.2, 1) infinite");
    put(&mut m, "pulse", "pulse 2s cubic-bezier(0.4, 0, 0.6, 1) infinite");
    put(&mut m, "bounce", "bounce 1s infinite");
    m
}

/// The built-in `fontSize` table.
pub open spec fn font_size_values() -> Map<Seq<char>, Seq<char>> {
    map![
        "xs"@ => "0.75rem"@,
        "sm"@ => "0.875rem"@,
        "base"@ => "1rem"@,
        "lg"@ => "1.125rem"@,
        "xl"@ => "1.25rem"@,
        "2xl"@ => "1.5rem"@,
        "3xl"@ => "1.875rem"@,
        "4xl"@ => "2.25rem"@,
        "5xl"@ => "3rem"@,
        "6xl"@ => "4rem"@,
    ]
}

fn font_size() -> (r: StrMap)
    ensures
        r.wf(),
        r@ == font_size_values(),
{
    let mut m = StrMap::new();
    put(&mut m, "xs", "0.75rem");
    put(&mut m, "sm", "0.875rem");
    put(&mut m, "base", "1rem");
    put(&mut m, "lg", "1.125rem");
    put(&mut m, "xl", "1.25rem");
    put(&mut m, "2xl", "1.5rem");
    put(&mut m, "3xl", "1.875rem");
    put(&mut m, "4xl", "2.25rem");
    put(&mut m, "5xl", "3rem");
    put(&mut m, "6xl", "4rem");
    m
}

/// The built-in `fontSize:lineHeight` table.
pub open spec fn font_size_line_height_values() -> Map<Seq<char>, Seq<char>> {
    map![
        "xs"@ => "1.5"@,
        "sm"@ => "1.5"@,
        "base"@ => "1.5"@,
        "lg"@ => "1.5"@,
        "xl"@ => "1.5"@,
        "2xl"@ => "1.5"@,
        "3xl"@ => "1.25"@,
        "4xl"@ => "1.25"@,
        "5xl"@ => "1.25"@,
        "6xl"@ => "1.125"@,
    ]
}

fn font_size_line_height() -> (r: StrMap)
    ensures
        r.wf(),
        r@ == font_size_line_height_values(),
{
    let mut m = StrMap::new();
    put(&mut m, "xs", "1.5");
    put(&mut m, "sm", "1.5");
    put(&mut m, "base", "1.5");
    put(&mut m, "lg", "1.5");
    put(&mut m, "xl", "1.5");
    put(&mut m, "2xl", "1.5");
    put(&mut m, "3xl", "1.25");
    put(&mut m, "4xl", "1.25");
    put(&mut m, "5xl", "1.25");
    put(&mut m, "6xl", "1.125");
    m
}

/// The built-in `fontWeight` table.
pub open spec fn font_weight_values() -> Map<Seq<char>, Seq<char>> {
    map![
        "thin"@ => "100"@,
        "extralight"@ => "200"@,
        "light"@ => "300"@,
        "normal"@ => "400"@,
        "medium"@ => "500"@,
        "semibold"@ => "600"@,
        "bold"@ => "700"@,
        "extrabold"@ => "800"@,
        "black"@ => "900"@,
    ]
}

fn font_weight() -> (r: StrMap)
    ensures
        r.wf(),
        r@ == font_weight_values(),
{
    let mut m = StrMap::new();
    put(&mut m, "thin", "100");
    put(&mut m, "extralight", "200");
    put(&mut m, "light", "300");
    put(&mut m, "normal", "400");
    put(&mut m, "medium", "500");
    put(&mut m, "semibold", "600");
    put(&mut m, "bold", "700");
    put(&mut m, "extrabold", "800");
    put(&mut m, "black", "900");
    m
}

/// The built-in `gradientColorStopPositions` table.
pub open spec fn gradient_color_stop_positions_values() -> Map<Seq<char>, Seq<char>> {
    map![
        "0%"@ => "0%"@,
        "5%"@ => "5%"@,
        "10%"@ => "10%"@,
        "15%"@ => "15%"@,
        "20%"@ => "20%"@,
        "25%"@ => "25%"@,
        "30%"@ => "30%"@,
        "35%"@ => "35%"@,
        "40%"@ => "40%"@,
        "45%"@ => "45%"@,
        "50%"@ => "50%"@,
        "55%"@ => "55%"@,
        "60%"@ => "60%"@,
        "65%"@ => "65%"@,
        "70%"@ => "70%"@,
        "75%"@ => "75%"@,
        "80%"@ => "80%"@,
        "85%"@ => "85%"@,
        "90%"@ => "90%"@,
        "95%"@ => "95%"@,
        "100%"@ => "100%"@,
    ]
}

fn gradient_color_stop_positions() -> (r: StrMap)
    ensures
        r.wf(),
        r@ == gradient_color_stop_positions_values(),
{
    let mut m = StrMap::new();
    put(&mut m, "0%", "0%");
    put(&mut m, "5%", "5%");
    put(&mut m, "10%", "10%");
    put(&mut m, "15%", "15%");
    put(&mut m, "20%", "20%");
    put(&mut m, "25%", "25%");
    put(&mut m, "30%", "30%");
    put(&mut m, "35%", "35%");
    put(&mut m, "40%", "40%");
    put(&mut m, "45%", "45%");
    put(&mut m, "50%", "50%");
    put(&mut m, "55%", "55%");
    put(&mut m, "60%", "60%");
    put(&mut m, "65%", "65%");
    put(&mut m, "70%", "70%");
    put(&mut m, "75%", "75%");
    put(&mut m, "80%", "80%");
    put(&mut m, "85%", "85%");
    put(&mut m, "90%", "90%");
    put(&mut m, "95%", "95%");
    put(&mut m, "100%", "100%");
    m
}

/// The built-in `stokeWidth` table.
pub open spec fn stroke_width_values() -> Map<Seq<char>, Seq<char>> {
    map![
        "0"@ => "0"@,
        "1"@ => "1"@,
        "2"@ => "2"@,
        "3"@ => "3"@,
    ]
}

fn stroke_width() -> (r: StrMap)
    ensures
        r.wf(),
        r@ == stroke_width_values(),
{
    let mut m = StrMap::new();
    put(&mut m, "0", "0");
    put(&mut m, "1", "1");
    put(&mut m, "2", "2");
    put(&mut m, "3", "3");
    m
}

/// The built-in `brightness` table.
pub open spec fn brightness_values() -> Map<Seq<char>, Seq<char>> {
    map![
        "0"@ => "0"@,
        "50"@ => ".5"@,
        "75"@ => ".75"@,
        "90"@ => ".9"@,
        "95"@ => ".95"@,
        "100"@ => "1.0"@,
        "105"@ => "1.05"@,
        "110"@ => "1.1"@,
        "125"@ => "1.25"@,
        "150"@ => "1.5"@,
        "200"@ => "2"@,
    ]
}

fn brightness() -> (r: StrMap)
    ensures
        r.wf(),
        r@ == brightness_values(),
{
    let mut m = StrMap::new();
    put(&mut m, "0", "0");
    put(&mut m, "50", ".5");
    put(&mut m, "75", ".75");
    put(&mut m, "90", ".9");
    put(&mut m, "95", ".95");
    put(&mut m, "100", "1.0");
    put(&mut m, "105", "1.05");
    put(&mut m, "110", "1.1");
    put(&mut m, "125", "1.25");
    put(&mut m, "150", "1.5");
    put(&mut m, "200", "2");
    m
}

/// The built-in `contrast` table.
pub open spec fn contrast_values() -> Map<Seq<char>, Seq<char>> {
    map![
        "0"@ => "0"@,
        "50"@ => ".5"@,
        "75"@ => ".75"@,
        "100"@ => "1.0"@,
        "125"@ => "1.25"@,
        "150"@ => "1.5"@,
        "200"@ => "2"@,
    ]
}

fn contrast() -> (r: StrMap)
    ensures
        r.wf(),
        r@ == contrast_values(),
{
    let mut m = StrMap::new();
    put(&mut m, "0", "0");
    put(&mut m, "50", ".5");
    put(&mut m, "75", ".75");
    put(&mut m, "100", "1.0");
    put(&mut m, "125", "1.25");
    put(&mut m, "150", "1.5");
    put(&mut m, "200", "2");
    m
}

/// The built-in `grayscale` table.
pub open spec fn grayscale_values() -> Map<Seq<char>, Seq<char>> {
    map![
        "0"@ => "0"@,
        "DEFAULT"@ => "100%"@,
    ]
}

fn grayscale() -> (r: StrMap)
    ensures
        r.wf(),
        r@ == grayscale_values(),
{
    let mut m = StrMap::new();
    put(&mut m, "0", "0");
    put(&mut m, "DEFAULT", "100%");
    m
}

/// The built-in `hueRotate` table.
pub open spec fn hue_rotate_values() -> Map<Seq<char>, Seq<char>> {
    map![
        "0"@ => "0deg"@,
        "15"@ => "15deg"@,
        "30"@ => "30deg"@,
        "60"@ => "60deg"@,
        "90"@ => "90deg"@,
        "180"@ => "180deg"@,
    ]
}

fn hue_rotate() -> (r: StrMap)
    ensures
        r.wf(),
        r@ == hue_rotate_values(),
{
    let mut m = StrMap::new();
    put(&mut m, "0", "0deg");
    put(&mut m, "15", "15deg");
    put(&mut m, "30", "30deg");
    put(&mut m, "60", "60deg");
    put(&mut m, "90", "90deg");
    put(&mut m, "180", "180deg");
    m
}

/// The built-in `invert` table.
pub open spec fn invert_values() -> Map<Seq<char>, Seq<char>> {
    map![
        "0"@ => "0"@,
        "DEFAULT"@ => "100%"@,
    ]
}

fn invert() -> (r: StrMap)
    ensures
        r.wf(),
        r@ == invert_values(),
{
    let mut m = StrMap::new();
    put(&mut m, "0", "0");
    put(&mut m, "DEFAULT", "100%");
    m
}

/// The built-in `saturate` table.
pub open spec fn saturate_values() -> Map<Seq<char>, Seq<char>> {
    map![
        "0"@ => "0"@,
        "50"@ => ".5"@,
        "100"@ => "1"@,
        "150"@ => "1.5"@,
        "200"@ => "2"@,
    ]
}

fn saturate() -> (r: StrMap)
    ensures
        r.wf(),
        r@ == saturate_values(),
{
    let mut m = StrMap::new();
    put(&mut m, "0", "0");
    put(&mut m, "50", ".5");
    put(&mut m, "100", "1");
    put(&mut m, "150", "1.5");
    put(&mut m, "200", "2");
    m
}

/// The built-in `sepia` table.
pub open spec fn sepia_values() -> Map<Seq<char>, Seq<char>> {
    map![
        "0"@ => "0"@,
        "DEFAULT"@ => "100%"@,
    ]
}

fn sepia() -> (r: StrMap)
    ensures
        r.wf(),
        r@ == sepia_values(),
{
    let mut m = StrMap::new();
    put(&mut m, "0", "0");
    put(&mut m, "DEFAULT", "100%");
    m
}

/// The built-in `flex` table.
pub open spec fn flex_values() -> Map<Seq<char>, Seq<char>> {
    map![
        "1"@ => "1 1 0%"@,
        "auto"@ => "1 1 auto"@,
        "initial"@ => "0 1 auto"@,
        "none"@ => "none"@,
    ]
}

fn flex() -> (r: StrMap)
    ensures
        r.wf(),
        r@ == flex_values(),
{
    let mut m = StrMap::new();
    put(&mut m, "1", "1 1 0%");
    put(&mut m, "auto", "1 1 auto");
    put(&mut m, "initial", "0 1 auto");
    put(&mut m, "none", "none");
    m
}

/// The built-in `flexShrink` table.
pub open spec fn flex_shrink_values() -> Map<Seq<char>, Seq<char>> {
    map![
        "0"@ => "0"@,
        "DEFAULT"@ => "1"@,
    ]
}

fn flex_shrink() -> (r: StrMap)
    ensures
        r.wf(),
        r@ == flex_shrink_values(),
{
    let mut m = StrMap::new();
    put(&mut m, "0", "0");
    put(&mut m, "DEFAULT", "1");
    m
}

/// The built-in `flexGrow` table.
pub open spec fn flex_grow_values() -> Map<Seq<char>, Seq<char>> {
    map![
        "0"@ => "0"@,
        "DEFAULT"@ => "1"@,
    ]
}

fn flex_grow() -> (r: StrMap)
    ensures
        r.wf(),
        r@ == flex_grow_values(),
{
    let mut m = StrMap::new();
    put(&mut m, "0", "0");
    put(&mut m, "DEFAULT", "1");
    m
}

/// The built-in `borderRadius` table.
pub open spec fn border_radius_values() -> Map<Seq<char>, Seq<char>> {
    map![
        "none"@ => "0"@,
        "sm"@ => "0.125rem"@,
        "DEFAULT"@ => "0.25rem"@,
        "md"@ => "0.375rem"@,
        "lg"@ => "0.5rem"@,
        "xl"@ => "0.75rem"@,
        "2xl"@ => "1rem"@,
        "3xl"@ => "1.5rem"@,
        "full"@ => "9999px"@,
    ]
}

fn border_radius() -> (r: StrMap)
    ensures
        r.wf(),
        r@ == border_radius_values(),
{
    let mut m = StrMap::new();
    put(&mut m, "none", "0");
    put(&mut m, "sm", "0.125rem");
    put(&mut m, "DEFAULT", "0.25rem");
    put(&mut m, "md", "0.375rem");
    put(&mut m, "lg", "0.5rem");
    put(&mut m, "xl", "0.75rem");
    put(&mut m, "2xl", "1rem");
    put(&mut m, "3xl", "1.5rem");
    put(&mut m, "full", "9999px");
    m
}

/// The built-in `scale` table.
pub open spec fn scale_values() -> Map<Seq<char>, Seq<char>> {
    map![
        "0"@ => "0"@,
        "50"@ => ".5"@,
        "75"@ => ".75"@,
        "90"@ => ".9"@,
        "95"@ => ".95"@,
        "100"@ => "1"@,
        "105"@ => "1.05"@,
        "110"@ => "1.1"@,
        "125"@ => "1.25"@,
        "150"@ => "1.5"@,
    ]
}

fn scale() -> (r: StrMap)
    ensures
        r.wf(),
        r@ == scale_values(),
{
    let mut m = StrMap::new();
    put(&mut m, "0", "0");
    put(&mut m, "50", ".5");
    put(&mut m, "75", ".75");
    put(&mut m, "90", ".9");
    put(&mut m, "95", ".95");
    put(&mut m, "100", "1");
    put(&mut m, "105", "1.05");
    put(&mut m, "110", "1.1");
    put(&mut m, "125", "1.25");
    put(&mut m, "150", "1.5");
    m
}

/// The built-in `rotate` table.
pub open spec fn rotate_values() -> Map<Seq<char>, Seq<char>> {
    map![
        "0"@ => "0deg"@,
        "1"@ => "1deg"@,
        "2"@ => "2deg"@,
        "3"@ => "3deg"@,
        "6"@ => "6deg"@,
        "12"@ => "12deg"@,
        "45"@ => "45deg"@,
        "90"@ => "90deg"@,
        "180"@ => "180deg"@,
    ]
}

fn rotate() -> (r: StrMap)
    ensures
        r.wf(),
        r@ == rotate_values(),
{
    let mut m = StrMap::new();
    put(&mut m, "0", "0deg");
    put(&mut m, "1", "1deg");
    put(&mut m, "2", "2deg");
    put(&mut m, "3", "3deg");
    put(&mut m, "6", "6deg");
    put(&mut m, "12", "12deg");
    put(&mut m, "45", "45deg");
    put(&mut m, "90", "90deg");
    put(&mut m, "180", "180deg");
    m
}

/// The built-in `skew` table.
pub open spec fn skew_values() -> Map<Seq<char>, Seq<char>> {
    map![
        "0"@ => "0deg"@,
        "1"@ => "1deg"@,
        "2"@ => "2deg"@,
        "3"@ => "3deg"@,
        "6"@ => "6deg"@,
        "12"@ => "12deg"@,
    ]
}

fn skew() -> (r: StrMap)
    ensures
        r.wf(),
        r@ == skew_values(),
{
    let mut m = StrMap::new();
    put(&mut m, "0", "0deg");
    put(&mut m, "1", "1deg");
    put(&mut m, "2", "2deg");
    put(&mut m, "3", "3deg");
    put(&mut m, "6", "6deg");
    put(&mut m, "12", "12deg");
    m
}

/// The built-in `textDecorationThickness` table.
pub open spec fn text_decoration_thickness_values() -> Map<Seq<char>, Seq<char>> {
    map![
        "auto"@ => "auto"@,
        "from-font"@ => "from-font"@,
        "0"@ => "0px"@,
        "1"@ => "1px"@,
        "2"@ => "2px"@,
        "4"@ => "4px"@,
        "8"@ => "8px"@,
    ]
}

fn text_decoration_thickness() -> (r: StrMap)
    ensures
        r.wf(),
        r@ == text_decoration_thickness_values(),
{
    let mut m = StrMap::new();
    put(&mut m, "auto", "auto");
    put(&mut m, "from-font", "from-font");
    put(&mut m, "0", "0px");
    put(&mut m, "1", "1px");
    put(&mut m, "2", "2px");
    put(&mut m, "4", "4px");
    put(&mut m, "8", "8px");
    m
}

/// The built-in `gridAutoColumns` table.
pub open spec fn grid_auto_columns_values() -> Map<Seq<char>, Seq<char>> {
    map![
        "auto"@ => "auto"@,
        "min"@ => "min-content"@,
        "max"@ => "max-content"@,
        "fr"@ => "minmax(0, 1fr)"@,
    ]
}

fn grid_auto_columns() -> (r: StrMap)
    ensures
        r.wf(),
        r@ == grid_auto_columns_values(),
{
    let mut m = StrMap::new();
    put(&mut m, "auto", "auto");
    put(&mut m, "min", "min-content");
    put(&mut m, "max", "max-content");
    put(&mut m, "fr", "minmax(0, 1fr)");
    m
}

/// The built-in `gridAutoRows` table.
pub open spec fn grid_auto_rows_values() -> Map<Seq<char>, Seq<char>> {
    map![
        "auto"@ => "auto"@,
        "min"@ => "min-content"@,
        "max"@ => "max-content"@,
        "fr"@ => "minmax(0, 1fr)"@,
    ]
}

fn grid_auto_rows() -> (r: StrMap)
    ensures
        r.wf(),
        r@ == grid_auto_rows_values(),
{
    let mut m = StrMap::new();
    put(&mut m, "auto", "auto");
    put(&mut m, "min", "min-content");
    put(&mut m, "max", "max-content");
    put(&mut m, "fr", "minmax(0, 1fr)");
    m
}

/// Whether the theme holds every built-in theme value.
pub open spec fn has_preset_theme(t: Map<Seq<char>, ThemeValueView>) -> bool {
    &&& t.contains_key("colors"@)
    &&& t.contains_key("spacing"@)
    &&& t.contains_key("translate"@)
    &&& t.contains_key("blur"@)
    &&& t.contains_key("ringWidth"@)
    &&& t.contains_key("ringOffsetWidth"@)
    &&& t.contains_key("backgroundPosition"@)
    &&& t.contains_key("backgroundSize"@)
    &&& t.contains_key("backgroundImage"@)
    &&& t.contains_key("opacity"@)
    &&& t.contains_key("lineClamp"@)
    &&& t.contains_key("borderWidth"@)
    &&& t.contains_key("breakpoints"@)
    &&& t.contains_key("lineHeight"@)
    &&& t.contains_key("animate"@)
    &&& t.contains_key("fontSize"@)
    &&& t.contains_key("fontSize:lineHeight"@)
    &&& t.contains_key("fontWeight"@)
    &&& t.contains_key("gradientColorStopPositions"@)
    &&& t.contains_key("stokeWidth"@)
    &&& t.contains_key("brightness"@)
    &&& t.contains_key("contrast"@)
    &&& t.contains_key("grayscale"@)
    &&& t.contains_key("hueRotate"@)
    &&& t.contains_key("invert"@)
    &&& t.contains_key("saturate"@)
    &&& t.contains_key("sepia"@)
    &&& t.contains_key("flex"@)
    &&& t.contains_key("flexShrink"@)
    &&& t.contains_key("flexGrow"@)
    &&& t.contains_key("borderRadius"@)
    &&& t.contains_key("scale"@)
    &&& t.contains_key("rotate"@)
    &&& t.contains_key("skew"@)
    &&& t.contains_key("textDecorationThickness"@)
    &&& t.contains_key("gridAutoColumns"@)
    &&& t.contains_key("gridAutoRows"@)
}

/// The theme `t` with the built-in theme values stored over it.
pub open spec fn preset_theme(t: Map<Seq<char>, ThemeValueView>) -> Map<Seq<char>, ThemeValueView> {
    t
        .insert("colors"@, ThemeValueView::Static(colors_values()))
        .insert("spacing"@, ThemeValueView::Static(spacing_values()))
        .insert("translate"@, ThemeValueView::Static(translate_values()))
        .insert("blur"@, ThemeValueView::Static(blur_values()))
        .insert("ringWidth"@, ThemeValueView::Static(ring_width_values()))
        .insert("ringOffsetWidth"@, ThemeValueView::Static(ring_offset_width_values()))
        .insert("backgroundPosition"@, ThemeValueView::Static(background_position_values()))
        .insert("backgroundSize"@, ThemeValueView::Static(background_size_values()))
        .insert("backgroundImage"@, ThemeValueView::Static(background_image_values()))
        .insert("opacity"@, ThemeValueView::Static(opacity_values()))
        .insert("lineClamp"@, ThemeValueView::Static(line_clamp_values()))
        .insert("borderWidth"@, ThemeValueView::Static(border_width_values()))
        .insert("breakpoints"@, ThemeValueView::Static(breakpoints_values()))
        .insert("lineHeight"@, ThemeValueView::Static(line_height_values()))
        .insert("animate"@, ThemeValueView::Static(animate_values()))
        .insert("fontSize"@, ThemeValueView::Static(font_size_values()))
        .insert("fontSize:lineHeight"@, ThemeValueView::Static(font_size_line_height_values()))
        .insert("fontWeight"@, ThemeValueView::Static(font_weight_values()))
        .insert("gradientColorStopPositions"@, ThemeValueView::Static(gradient_color_stop_positions_values()))
        .insert("stokeWidth"@, ThemeValueView::Static(stroke_width_values()))
        .insert("brightness"@, ThemeValueView::Static(brightness_values()))
        .insert("contrast"@, ThemeValueView::Static(contrast_values()))
        .insert("grayscale"@, ThemeValueView::Static(grayscale_values()))
        .insert("hueRotate"@, ThemeValueView::Static(hue_rotate_values()))
        .insert("invert"@, ThemeValueView::Static(invert_values()))
        .insert("saturate"@, ThemeValueView::Static(saturate_values()))
        .insert("sepia"@, ThemeValueView::Static(sepia_values()))
        .insert("flex"@, ThemeValueView::Static(flex_values()))
        .insert("flexShrink"@, ThemeValueView::Static(flex_shrink_values()))
        .insert("flexGrow"@, ThemeValueView::Static(flex_grow_values()))
        .insert("borderRadius"@, ThemeValueView::Static(border_radius_values()))
        .insert("scale"@, ThemeValueView::Static(scale_values()))
        .insert("rotate"@, ThemeValueView::Static(rotate_values()))
        .insert("skew"@, ThemeValueView::Static(skew_values()))
        .insert("textDecorationThickness"@, ThemeValueView::Static(text_decoration_thickness_values()))
        .insert("gridAutoColumns"@, ThemeValueView::Static(grid_auto_columns_values()))
        .insert("gridAutoRows"@, ThemeValueView::Static(grid_auto_rows_values()))
}

/// Adds the built-in theme values, replacing those of the same names.
pub fn load_theme(ctx: &mut Context)
    requires
        old(ctx).wf(),
    ensures
        final(ctx).wf(),
        final(ctx).utilities == old(ctx).utilities,
        final(ctx).variants == old(ctx).variants,
        final(ctx).theme@ == preset_theme(old(ctx).theme@),
        has_preset_theme(final(ctx).theme@),
{
    ctx.theme.insert("colors".to_owned(), ThemeValue::Static(colors()));
    ctx.theme.insert("spacing".to_owned(), ThemeValue::Static(spacing()));
    ctx.theme.insert("translate".to_owned(), ThemeValue::Static(translate()));
    ctx.theme.insert("blur".to_owned(), ThemeValue::Static(blur()));
    ctx.theme.insert("ringWidth".to_owned(), ThemeValue::Static(ring_width()));
    ctx.theme.insert("ringOffsetWidth".to_owned(), ThemeValue::Static(ring_offset_width()));
    ctx.theme.insert("backgroundPosition".to_owned(), ThemeValue::Static(background_position()));
    ctx.theme.insert("backgroundSize".to_owned(), ThemeValue::Static(background_size()));
    ctx.theme.insert("backgroundImage".to_owned(), ThemeValue::Static(background_image()));
    ctx.theme.insert("opacity".to_owned(), ThemeValue::Static(opacity()));
    ctx.theme.insert("lineClamp".to_owned(), ThemeValue::Static(line_clamp()));
    ctx.theme.insert("borderWidth".to_owned(), ThemeValue::Static(border_width()));
    ctx.theme.insert("breakpoints".to_owned(), ThemeValue::Static(breakpoints()));
    ctx.theme.insert("lineHeight".to_owned(), ThemeValue::Static(line_height()));
    ctx.theme.insert("animate".to_owned(), ThemeValue::Static(animate()));
    ctx.theme.insert("fontSize".to_owned(), ThemeValue::Static(font_size()));
    ctx.theme.insert("fontSize:lineHeight".to_owned(), ThemeValue::Static(font_size_line_height()));
    ctx.theme.insert("fontWeight".to_owned(), ThemeValue::Static(font_weight()));
    ctx.theme.insert("gradientColorStopPositions".to_owned(), ThemeValue::Static(gradient_color_stop_positions()));
    ctx.theme.insert("stokeWidth".to_owned(), ThemeValue::Static(stroke_width()));
    ctx.theme.insert("brightness".to_owned(), ThemeValue::Static(brightness()));
    ctx.theme.insert("contrast".to_owned(), ThemeValue::Static(contrast()));
    ctx.theme.insert("grayscale".to_owned(), ThemeValue::Static(grayscale()));
    ctx.theme.insert("hueRotate".to_owned(), ThemeValue::Static(hue_rotate()));
    ctx.theme.insert("invert".to_owned(), ThemeValue::Static(invert()));
    ctx.theme.insert("saturate".to_owned(), ThemeValue::Static(saturate()));
    ctx.theme.insert("sepia".to_owned(), ThemeValue::Static(sepia()));
    ctx.theme.insert("flex".to_owned(), ThemeValue::Static(flex()));
    ctx.theme.insert("flexShrink".to_owned(), ThemeValue::Static(flex_shrink()));
    ctx.theme.insert("flexGrow".to_owned(), ThemeValue::Static(flex_grow()));
    ctx.theme.insert("borderRadius".to_owned(), ThemeValue::Static(border_radius()));
    ctx.theme.insert("scale".to_owned(), ThemeValue::Static(scale()));
    ctx.theme.insert("rotate".to_owned(), ThemeValue::Static(rotate()));
    ctx.theme.insert("skew".to_owned(), ThemeValue::Static(skew()));
    ctx.theme.insert("textDecorationThickness".to_owned(), ThemeValue::Static(text_decoration_thickness()));
    ctx.theme.insert("gridAutoColumns".to_owned(), ThemeValue::Static(grid_auto_columns()));
    ctx.theme.insert("gridAutoRows".to_owned(), ThemeValue::Static(grid_auto_rows()));
}

} // verus!
