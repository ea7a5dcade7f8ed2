//! Visual feedback: the three icon states a bound key can show, the
//! fallback colours used when an icon file cannot be loaded, and the
//! store of pre-loaded images the state machine draws from.

use vstd::prelude::*;

verus! {

/// The three visual states a bound key can show.
#[derive(Clone, Copy, Debug, PartialEq, Eq, Structural)]
pub enum IconState {
    /// No recording exists for the key ("rec off").
    Empty,
    /// The key is armed for a hold or actively recording ("rec on").
    Recording,
    /// A finished recording exists and can be played or deleted ("play").
    HasFile,
}

/// The fill colour of a generated fallback icon, as an (r, g, b) triple:
/// grey for an empty key, red while recording, green for a playable file.
pub open spec fn spec_fallback_color(icon: IconState) -> (u8, u8, u8) {
    match icon {
        IconState::Empty => (80u8, 80u8, 80u8),
        IconState::Recording => (255u8, 0u8, 0u8),
        IconState::HasFile => (0u8, 255u8, 0u8),
    }
}

pub fn fallback_color(icon: IconState) -> (c: (u8, u8, u8))
    ensures
        c == spec_fallback_color(icon),
{
    match icon {
        IconState::Empty => (80, 80, 80),
        IconState::Recording => (255, 0, 0),
        IconState::HasFile => (0, 255, 0),
    }
}

/// Side length, in pixels, of a generated fallback icon.
pub const FALLBACK_ICON_SIZE: u32 = 72;

#[verifier::external_type_specification]
#[verifier::external_body]
pub struct ExDynamicImage(image::DynamicImage);

/// Relies on `image::ImageBuffer::from_pixel`: a square image filled with
/// one colour, wrapped as a `DynamicImage`. At the fixed icon size the
/// buffer is far below a vector's maximum length, so the call cannot panic.
#[verifier::external_body]
fn create_fallback_image(color: (u8, u8, u8)) -> image::DynamicImage {
    let (r, g, b) = color;
    image::DynamicImage::ImageRgb8(image::RgbImage::from_pixel(
        FALLBACK_ICON_SIZE,
        FALLBACK_ICON_SIZE,
        image::Rgb([r, g, b]),
    ))
}

/// Pre-loaded icon images, one per visual state.
pub struct IconStore {
    pub rec_off: image::DynamicImage,
    pub rec_on: image::DynamicImage,
    pub play: image::DynamicImage,
}

impl IconStore {
    /// Builds the store from whatever icon images could be loaded,
    /// generating a solid fallback in that state's colour for each one
    /// that could not.
    pub fn with_fallbacks(
        rec_off: Option<image::DynamicImage>,
        rec_on: Option<image::DynamicImage>,
        play: Option<image::DynamicImage>,
    ) -> (s: IconStore)
        ensures
            rec_off is Some ==> s.rec_off == rec_off->0,
            rec_on is Some ==> s.rec_on == rec_on->0,
            play is Some ==> s.play == play->0,
    {
        let rec_off = match rec_off {
            Some(img) => img,
            None => create_fallback_image(fallback_color(IconState::Empty)),
        };
        let rec_on = match rec_on {
            Some(img) => img,
            None => create_fallback_image(fallback_color(IconState::Recording)),
        };
        let play = match play {
            Some(img) => img,
            None => create_fallback_image(fallback_color(IconState::HasFile)),
        };
        IconStore { rec_off, rec_on, play }
    }

    /// The stored image a key in `icon` state shows.
    pub fn image_for(&self, icon: IconState) -> (r: &image::DynamicImage)
        ensures
            icon == IconState::Empty ==> r == self.rec_off,
            icon == IconState::Recording ==> r == self.rec_on,
            icon == IconState::HasFile ==> r == self.play,
    {
        match icon {
            IconState::Empty => &self.rec_off,
            IconState::Recording => &self.rec_on,
            IconState::HasFile => &self.play,
        }
    }
}

} // verus!
