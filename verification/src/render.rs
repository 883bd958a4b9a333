//! The renderer: the layout of one frame for a given image and view state.
//!
//! A frame is a background fill, the scaled image placed on it, and the
//! spotlight on top while it is shown. The host scales and paints; this
//! module says what size the scaled image has, where it goes, and where the
//! spotlight lies.

use vstd::prelude::*;
use crate::geometry::{Point, Vector, UNITS_PER_PIXEL};
use crate::image::Size;
use crate::state::{StateModel, TransformState, SCALE_MAX, SCALE_ONE};

verus! {

/// Radius of the spotlight: 70 pixels, in coordinate units.
pub const HIGHLIGHT_RADIUS: i64 = 70 * UNITS_PER_PIXEL;

/// Level of each colour channel of the background, in percent: a dark gray.
pub const BACKGROUND_LEVEL: u8 = 10;

/// Level of each colour channel of the spotlight, in percent: white.
pub const HIGHLIGHT_LEVEL: u8 = 100;

/// Opacity of the spotlight, in percent.
pub const HIGHLIGHT_ALPHA: u8 = 40;

/// Full opacity, in percent.
pub const OPAQUE: u8 = 100;

/// A colour with its opacity. Each channel is a percentage.
#[derive(Clone, Copy, Debug, PartialEq, Eq)]
pub struct Color {
    pub red: u8,
    pub green: u8,
    pub blue: u8,
    pub alpha: u8,
}

impl Color {
    /// The colour behind the image: an opaque dark gray.
    pub open spec fn background() -> Color {
        Color {
            red: BACKGROUND_LEVEL,
            green: BACKGROUND_LEVEL,
            blue: BACKGROUND_LEVEL,
            alpha: OPAQUE,
        }
    }

    /// The colour of the spotlight: a translucent white, so that what lies
    /// under it looks lit.
    pub open spec fn highlight() -> Color {
        Color {
            red: HIGHLIGHT_LEVEL,
            green: HIGHLIGHT_LEVEL,
            blue: HIGHLIGHT_LEVEL,
            alpha: HIGHLIGHT_ALPHA,
        }
    }
}

/// A length of `length` pixels at a scale of `scale` tenths, in whole
/// pixels: the fraction is dropped.
pub open spec fn scaled_length(length: int, scale: int) -> int {
    length * scale / (SCALE_ONE as int)
}

/// The size of an image of size `source` at a scale of `scale` tenths, or
/// `None` where no raster has that size: where the width or the height
/// would be zero, or too large for a `Size`.
pub open spec fn scaled_size_of(source: Size, scale: int) -> Option<Size> {
    let width = scaled_length(source.width as int, scale);
    let height = scaled_length(source.height as int, scale);
    if 0 < width <= u32::MAX && 0 < height <= u32::MAX {
        Some(Size { width: width as u32, height: height as u32 })
    } else {
        None
    }
}

/// One length of the scaled image.
fn scale_length(length: u32, scale: u8) -> (r: u64)
    requires
        scale <= SCALE_MAX,
    ensures
        r == scaled_length(length as int, scale as int),
{
    assert(length * scale <= 0x1D_FFFF_FFE2) by (nonlinear_arith)
        requires
            length <= 0xFFFF_FFFF,
            scale <= 30,
    ;
    (length as u64) * (scale as u64) / (SCALE_ONE as u64)
}

/// The size to which the host has to scale an image of size `source` for
/// the current zoom factor, or `None` where no raster has that size.
pub fn scaled_size(source: Size, state: &TransformState) -> (r: Option<Size>)
    ensures
        r == scaled_size_of(source, state@.scale),
{
    let scale: u8 = state.scale();
    let width: u64 = scale_length(source.width, scale);
    let height: u64 = scale_length(source.height, scale);
    if 0 < width && width <= u32::MAX as u64 && 0 < height && height <= u32::MAX as u64 {
        Some(Size { width: width as u32, height: height as u32 })
    } else {
        None
    }
}

/// Where a scaled length begins so that it stays centred on the unscaled
/// one: half of what it has grown, to the left, in coordinate units.
pub open spec fn centred(source: int, scaled: int) -> int {
    -((scaled - source) * UNITS_PER_PIXEL) / 2
}

/// Where the scaled image goes: the place that keeps it centred on the
/// unscaled image, moved against the pan.
pub open spec fn blit_position_of(source: Size, scaled: Size, offset: Vector) -> Vector {
    Vector {
        x: centred(source.width as int, scaled.width as int) - offset.x,
        y: centred(source.height as int, scaled.height as int) - offset.y,
    }
}

/// The scaled image on a frame.
#[derive(Clone, Copy, Debug, PartialEq, Eq)]
pub struct Blit {
    /// Size of the scaled image.
    pub size: Size,
    /// Where its top left corner goes.
    pub position: Point,
}

/// The scaled image on a frame, as the contracts see it.
pub struct BlitModel {
    pub size: Size,
    pub position: Vector,
}

impl View for Blit {
    type V = BlitModel;

    open spec fn view(&self) -> BlitModel {
        BlitModel { size: self.size, position: self.position@ }
    }
}

/// A filled circle on a frame.
#[derive(Clone, Copy, Debug, PartialEq, Eq)]
pub struct Disc {
    pub center: Point,
    /// In coordinate units.
    pub radius: i64,
    pub color: Color,
}

/// A filled circle on a frame, as the contracts see it.
pub struct DiscModel {
    pub center: Vector,
    pub radius: int,
    pub color: Color,
}

impl View for Disc {
    type V = DiscModel;

    open spec fn view(&self) -> DiscModel {
        DiscModel { center: self.center@, radius: self.radius as int, color: self.color }
    }
}

/// What the host has to paint for one frame, from bottom to top.
#[derive(Clone, Copy, Debug, PartialEq, Eq)]
pub struct Frame {
    /// Fills the whole viewport.
    pub background: Color,
    /// The scaled image, unless it could not be made.
    pub image: Option<Blit>,
    /// The spotlight, while it is shown.
    pub highlight: Option<Disc>,
}

/// A frame as the contracts see it.
pub struct FrameModel {
    pub background: Color,
    pub image: Option<BlitModel>,
    pub highlight: Option<DiscModel>,
}

impl View for Frame {
    type V = FrameModel;

    open spec fn view(&self) -> FrameModel {
        FrameModel {
            background: self.background,
            image: match self.image {
                Some(blit) => Some(blit@),
                None => None,
            },
            highlight: match self.highlight {
                Some(disc) => Some(disc@),
                None => None,
            },
        }
    }
}

/// The spotlight at `pointer`.
pub open spec fn spotlight(pointer: Vector) -> DiscModel {
    DiscModel { center: pointer, radius: HIGHLIGHT_RADIUS as int, color: Color::highlight() }
}

/// The frame for an image of size `source` in state `s`, where `scaled` is
/// the size of the scaled image that the host made, or `None` where it could
/// not make one.
///
/// Without a scaled image the frame is the background alone. With one, the
/// image is placed by `blit_position_of`, and the spotlight lies at the
/// pointer while it is shown.
pub open spec fn frame_of(source: Size, scaled: Option<Size>, s: StateModel) -> FrameModel {
    match scaled {
        Some(size) => FrameModel {
            background: Color::background(),
            image: Some(
                BlitModel { size, position: blit_position_of(source, size, s.offset) },
            ),
            highlight: if s.highlight_active {
                Some(spotlight(s.pointer_position))
            } else {
                None
            },
        },
        None => FrameModel { background: Color::background(), image: None, highlight: None },
    }
}

/// Where one scaled length begins, before the pan.
fn centre(source: u32, scaled: u32) -> (r: i64)
    ensures
        r == centred(source as int, scaled as int),
        -0x80_0000_0000 <= r <= 0x80_0000_0000,
{
    let grown: i64 = scaled as i64 - source as i64;
    -(grown * (UNITS_PER_PIXEL / 2))
}

/// Lays out one frame. `source` is the size of the image that is shown, and
/// `scaled` the size of the scaled image that the host made for this frame,
/// or `None` where it could not make one.
pub fn compose_frame(source: Size, scaled: Option<Size>, state: &TransformState) -> (frame: Frame)
    ensures
        frame@ == frame_of(source, scaled, state@),
{
    let background = Color {
        red: BACKGROUND_LEVEL,
        green: BACKGROUND_LEVEL,
        blue: BACKGROUND_LEVEL,
        alpha: OPAQUE,
    };
    match scaled {
        Some(size) => {
            let offset: Point = state.offset();
            let position = Point {
                x: centre(source.width, size.width) - offset.x,
                y: centre(source.height, size.height) - offset.y,
            };
            let highlight = if state.highlight_active() {
                Some(
                    Disc {
                        center: state.pointer_position(),
                        radius: HIGHLIGHT_RADIUS,
                        color: Color {
                            red: HIGHLIGHT_LEVEL,
                            green: HIGHLIGHT_LEVEL,
                            blue: HIGHLIGHT_LEVEL,
                            alpha: HIGHLIGHT_ALPHA,
                        },
                    },
                )
            } else {
                None
            };
            Frame { background, image: Some(Blit { size, position }), highlight }
        },
        None => Frame { background, image: None, highlight: None },
    }
}

impl BlitModel {
    /// Whether the scaled image covers the point `p` of the viewport.
    pub open spec fn covers(self, p: Vector) -> bool {
        &&& self.position.x <= p.x < self.position.x + self.size.width * UNITS_PER_PIXEL
        &&& self.position.y <= p.y < self.position.y + self.size.height * UNITS_PER_PIXEL
    }
}

impl DiscModel {
    /// Whether the circle covers the point `p` of the viewport: whether `p`
    /// is no farther from the centre than the radius.
    pub open spec fn covers(self, p: Vector) -> bool {
        let dx = p.x - self.center.x;
        let dy = p.y - self.center.y;
        dx * dx + dy * dy <= self.radius * self.radius
    }
}

/// What a frame paints at one point of the viewport, from bottom to top.
pub struct Sample {
    /// The background colour.
    pub background: Color,
    /// Where the image covers the point: the place in the scaled image that
    /// lies there, counted from its top left corner.
    pub image: Option<Vector>,
    /// Where the spotlight covers the point: its colour.
    pub highlight: Option<Color>,
}

impl FrameModel {
    /// What the frame paints at the point `p` of the viewport.
    pub open spec fn sample_at(self, p: Vector) -> Sample {
        Sample {
            background: self.background,
            image: match self.image {
                Some(blit) => if blit.covers(p) {
                    Some(Vector { x: p.x - blit.position.x, y: p.y - blit.position.y })
                } else {
                    None
                },
                None => None,
            },
            highlight: match self.highlight {
                Some(disc) => if disc.covers(p) {
                    Some(disc.color)
                } else {
                    None
                },
                None => None,
            },
        }
    }
}

/// At scale 1.0 and without pan the image is shown as it is: the scaled
/// image has the size of the source, and goes to the origin.
pub proof fn unscaled_image_is_unshifted(source: Size, s: StateModel)
    requires
        source.width > 0,
        source.height > 0,
        s.scale == SCALE_ONE,
        s.offset == (Vector { x: 0, y: 0 }),
    ensures
        scaled_size_of(source, s.scale) == Some(source),
        blit_position_of(source, source, s.offset) == (Vector { x: 0, y: 0 }),
        frame_of(source, scaled_size_of(source, s.scale), s).image == Some(
            BlitModel { size: source, position: Vector { x: 0, y: 0 } },
        ),
{
}

/// Zooming grows the image about its centre: without pan, the middle of the
/// scaled image lies on the middle of the unscaled one, whatever the sizes;
/// the pan then moves it the opposite way.
pub proof fn scaled_image_stays_centred(source: Size, scaled: Size, offset: Vector)
    ensures
        2 * blit_position_of(source, scaled, offset).x + scaled.width * UNITS_PER_PIXEL
            == source.width * UNITS_PER_PIXEL - 2 * offset.x,
        2 * blit_position_of(source, scaled, offset).y + scaled.height * UNITS_PER_PIXEL
            == source.height * UNITS_PER_PIXEL - 2 * offset.y,
{
    lemma_centred_is_exact(source.width as int, scaled.width as int);
    lemma_centred_is_exact(source.height as int, scaled.height as int);
}

/// Halving in `centred` leaves no remainder: a pixel is an even number of
/// coordinate units.
proof fn lemma_centred_is_exact(source: int, scaled: int)
    ensures
        2 * centred(source, scaled) == (source - scaled) * UNITS_PER_PIXEL,
{
    let half = (source - scaled) * (UNITS_PER_PIXEL / 2);
    assert(-((scaled - source) * UNITS_PER_PIXEL) == 2 * half);
    assert((2 * half) / 2 == half);
}

/// The spotlight shows inside its disc and nowhere else: the frame with the
/// spotlight and the frame without it, for the same image and the same state
/// otherwise, paint the same at every point that is farther than
/// `HIGHLIGHT_RADIUS` from the pointer. Where a scaled image was made, they
/// differ at every point that is not.
pub proof fn highlight_shows_only_in_disc(
    source: Size,
    scaled: Option<Size>,
    s: StateModel,
    p: Vector,
)
    ensures
        ({
            let lit = frame_of(source, scaled, StateModel { highlight_active: true, ..s });
            let dark = frame_of(source, scaled, StateModel { highlight_active: false, ..s });
            &&& lit.background == dark.background
            &&& lit.image == dark.image
            &&& lit.sample_at(p) != dark.sample_at(p) ==> spotlight(s.pointer_position).covers(p)
            &&& scaled is Some && spotlight(s.pointer_position).covers(p) ==> lit.sample_at(p)
                != dark.sample_at(p)
        }),
{
}

} // verus!
