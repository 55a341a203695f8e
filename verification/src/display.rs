//! What the display is asked to show.
//!
//! The panel itself is driven elsewhere; this module only decides what to
//! draw and where, as plain values. Colours are RGB565 words and geometry is
//! in pixels, both computed by `embedded-graphics` so that what is decided
//! here is what the drawing code will see.

use vstd::prelude::*;

verus! {

/// The caption of the sample screen.
pub const SAMPLE_TEXT: &'static str = "Rust and M5Stack !!";

/// How far below the centre of the panel the caption is anchored, in pixels.
pub const CAPTION_DROP: i32 = 15;

/// The width of the border of the sample screen, in pixels.
pub const BORDER_WIDTH: u32 = 8;

/// A pixel position.
#[derive(Clone, Copy, Debug, PartialEq, Eq, Structural)]
pub struct Point {
    pub x: i32,
    pub y: i32,
}

/// A size in pixels.
#[derive(Clone, Copy, Debug, PartialEq, Eq, Structural)]
pub struct Size {
    pub width: u32,
    pub height: u32,
}

/// A rectangle of pixels.
#[derive(Clone, Copy, Debug, PartialEq, Eq, Structural)]
pub struct Area {
    pub top_left: Point,
    pub size: Size,
}

/// A colour as an RGB565 word: five bits of red, six of green, five of blue.
#[derive(Clone, Copy, Debug, PartialEq, Eq, Structural)]
pub struct Color {
    pub raw: u16,
}

/// One request to the display.
#[derive(Clone, Copy, Debug, PartialEq, Eq)]
pub enum DrawCommand {
    /// Fill `area` with `color`.
    PaintBackground { area: Area, color: Color },
    /// Stroke the inside edge of `area`, `width` pixels wide.
    DrawBorder { area: Area, color: Color, width: u32 },
    /// Draw `text` centred horizontally on `anchor`.
    DrawText { text: &'static str, anchor: Point, color: Color },
}

/// The RGB565 word of three channel values; bits of a channel value above
/// the channel's width are dropped.
pub open spec fn rgb565(r: u8, g: u8, b: u8) -> u16 {
    (((r & 0x1f) as u16) << 11) | (((g & 0x3f) as u16) << 5) | ((b & 0x1f) as u16)
}

/// The distance from the first pixel of an extent to its middle pixel,
/// rounded down.
pub open spec fn center_offset(extent: u32) -> int {
    if extent == 0 {
        0
    } else {
        (extent - 1) / 2
    }
}

/// Whether the middle pixel of `area` has coordinates that fit in `i32`.
pub open spec fn has_center(area: Area) -> bool {
    &&& area.top_left.x + center_offset(area.size.width) <= i32::MAX
    &&& area.top_left.y + center_offset(area.size.height) <= i32::MAX
}

/// The whole panel of the given size.
pub open spec fn panel_area(panel: Size) -> Area {
    Area { top_left: Point { x: 0, y: 0 }, size: panel }
}

/// Calls `Rgb565::new` and reads the colour's storage word back with
/// `IntoStorage::into_storage`. The constructor masks each channel to its
/// width and shifts red by 11 and green by 5 bits; the contract states that
/// word.
#[verifier::external_body]
fn pack_rgb565(r: u8, g: u8, b: u8) -> (raw: u16)
    ensures
        raw == rgb565(r, g, b),
{
    let color = embedded_graphics::pixelcolor::Rgb565::new(r, g, b);
    embedded_graphics::pixelcolor::IntoStorage::into_storage(color)
}

/// Calls `Rectangle::center`, which adds to the top left corner half of the
/// size less one, rounded down, and adds with plain `+`; the inputs on which
/// that sum leaves `i32` are excluded.
#[verifier::external_body]
fn rectangle_center(area: Area) -> (center: Point)
    requires
        has_center(area),
    ensures
        center.x == area.top_left.x + center_offset(area.size.width),
        center.y == area.top_left.y + center_offset(area.size.height),
{
    let rectangle = embedded_graphics::primitives::Rectangle::new(
        embedded_graphics::geometry::Point::new(area.top_left.x, area.top_left.y),
        embedded_graphics::geometry::Size::new(area.size.width, area.size.height),
    );
    let center = rectangle.center();
    Point { x: center.x, y: center.y }
}

impl Color {
    /// The colour of three channel values.
    pub fn rgb(r: u8, g: u8, b: u8) -> (color: Color)
        ensures
            color.raw == rgb565(r, g, b),
    {
        Color { raw: pack_rgb565(r, g, b) }
    }
}

impl Area {
    /// The whole panel of the given size.
    pub fn panel(panel: Size) -> (area: Area)
        ensures
            area == panel_area(panel),
    {
        Area { top_left: Point { x: 0, y: 0 }, size: panel }
    }

    /// The middle pixel, rounded towards the top left; `None` exactly when
    /// its coordinates do not fit in `i32`.
    pub fn center(&self) -> (center: Option<Point>)
        ensures
            center is Some <==> has_center(*self),
            center matches Some(p) ==> {
                &&& p.x == self.top_left.x + center_offset(self.size.width)
                &&& p.y == self.top_left.y + center_offset(self.size.height)
            },
    {
        let across: i64 = self.top_left.x as i64 + Self::offset(self.size.width) as i64;
        let down: i64 = self.top_left.y as i64 + Self::offset(self.size.height) as i64;
        if across <= i32::MAX as i64 && down <= i32::MAX as i64 {
            Some(rectangle_center(*self))
        } else {
            None
        }
    }

    fn offset(extent: u32) -> (offset: u32)
        ensures
            offset == center_offset(extent),
    {
        if extent == 0 {
            0
        } else {
            (extent - 1) / 2
        }
    }
}

/// The fill that clears a panel of the given size to green.
pub fn background(panel: Size) -> (command: DrawCommand)
    ensures
        command == (DrawCommand::PaintBackground {
            area: panel_area(panel),
            color: Color { raw: rgb565(0, 255, 0) },
        }),
{
    DrawCommand::PaintBackground { area: Area::panel(panel), color: Color::rgb(0, 255, 0) }
}

/// Where the caption of the sample screen is anchored on a panel: below the
/// middle pixel by [`CAPTION_DROP`].
pub open spec fn caption_anchor(panel: Size) -> (int, int) {
    (center_offset(panel.width), center_offset(panel.height) + CAPTION_DROP)
}

/// The sample screen for a panel of the given size: a blue border along the
/// inside edge of the panel and a black caption below its middle. `None`
/// exactly when the panel is so tall that the anchor of the caption does not
/// fit in `i32`.
pub fn sample_screen(panel: Size) -> (screen: Option<(DrawCommand, DrawCommand)>)
    ensures
        screen is Some <==> caption_anchor(panel).1 <= i32::MAX,
        screen matches Some(commands) ==> {
            &&& commands.0 == (DrawCommand::DrawBorder {
                area: panel_area(panel),
                color: Color { raw: rgb565(0, 0, 31) },
                width: BORDER_WIDTH,
            })
            &&& commands.1 matches DrawCommand::DrawText { text, anchor, color }
            &&& text@ == SAMPLE_TEXT@
            &&& anchor.x == caption_anchor(panel).0
            &&& anchor.y == caption_anchor(panel).1
            &&& color == (Color { raw: rgb565(0, 0, 0) })
        },
{
    let area: Area = Area::panel(panel);
    match area.center() {
        Some(center) => match center.y.checked_add(CAPTION_DROP) {
            Some(y) => Some(
                (
                    DrawCommand::DrawBorder {
                        area,
                        color: Color::rgb(0, 0, 31),
                        width: BORDER_WIDTH,
                    },
                    DrawCommand::DrawText {
                        text: SAMPLE_TEXT,
                        anchor: Point { x: center.x, y },
                        color: Color::rgb(0, 0, 0),
                    },
                ),
            ),
            None => None,
        },
        None => None,
    }
}

/// Channel values that differ only above their channel's width give the same colour.
pub proof fn lemma_rgb565_drops_high_bits(r: u8, g: u8, b: u8)
    ensures
        rgb565(r, g, b) == rgb565(r & 0x1f, g & 0x3f, b & 0x1f),
        (rgb565(r, g, b) >> 11) == (r & 0x1f) as u16,
        ((rgb565(r, g, b) >> 5) & 0x3f) == (g & 0x3f) as u16,
        (rgb565(r, g, b) & 0x1f) == (b & 0x1f) as u16,
{
    assert(rgb565(r, g, b) == rgb565(r & 0x1f, g & 0x3f, b & 0x1f)) by (bit_vector);
    assert((rgb565(r, g, b) >> 11) == (r & 0x1f) as u16) by (bit_vector);
    assert(((rgb565(r, g, b) >> 5) & 0x3f) == (g & 0x3f) as u16) by (bit_vector);
    assert((rgb565(r, g, b) & 0x1f) == (b & 0x1f) as u16) by (bit_vector);
}

} // verus!
