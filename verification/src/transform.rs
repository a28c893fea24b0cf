//! The viewport that a renderer projects logical coordinates onto.

use vstd::prelude::*;
use crate::scalar::Scalar;

verus! {

/// What a [`CoordinateTransform`] is, as a mathematical value. A projection
/// of a point is a function of these three numbers and the point.
pub struct ViewportModel {
    pub screen_width: Scalar,
    pub screen_height: Scalar,
    /// Display units per logical unit. Fixed when the transform is made.
    pub scale: Scalar,
}

impl ViewportModel {
    /// Whether points can be projected both ways: the scale is a finite
    /// number above zero.
    pub open spec fn well_formed(self) -> bool {
        self.scale.positive()
    }

    /// The viewport after a resize to `width` by `height`. The scale stays.
    pub open spec fn resized(self, width: Scalar, height: Scalar) -> ViewportModel {
        ViewportModel { screen_width: width, screen_height: height, ..self }
    }
}

/// The size of the display surface and the scale at which logical units are
/// drawn on it. The logical origin is shown at the centre of the surface,
/// with the y axis pointing up.
pub struct CoordinateTransform {
    screen_width: Scalar,
    screen_height: Scalar,
    scale: Scalar,
}

impl View for CoordinateTransform {
    type V = ViewportModel;

    closed spec fn view(&self) -> ViewportModel {
        ViewportModel {
            screen_width: self.screen_width,
            screen_height: self.screen_height,
            scale: self.scale,
        }
    }
}

impl CoordinateTransform {
    /// A transform for a surface of the given size. It is well formed if
    /// `scale` is a finite number above zero.
    pub fn new(screen_width: Scalar, screen_height: Scalar, scale: Scalar) -> (transform:
        CoordinateTransform)
        ensures
            transform@ == (ViewportModel { screen_width, screen_height, scale }),
            transform@.well_formed() <==> scale.positive(),
    {
        CoordinateTransform { screen_width, screen_height, scale }
    }

    /// Takes over a new size of the display surface. The scale stays.
    pub fn update_screen_size(&mut self, width: Scalar, height: Scalar)
        ensures
            final(self)@ == old(self)@.resized(width, height),
    {
        self.screen_width = width;
        self.screen_height = height;
    }

    /// Whether points can be projected both ways.
    pub fn is_well_formed(&self) -> (well_formed: bool)
        ensures
            well_formed == self@.well_formed(),
    {
        self.scale.is_positive()
    }

    pub fn screen_width(&self) -> (width: Scalar)
        ensures
            width == self@.screen_width,
    {
        self.screen_width
    }

    pub fn screen_height(&self) -> (height: Scalar)
        ensures
            height == self@.screen_height,
    {
        self.screen_height
    }

    pub fn scale(&self) -> (scale: Scalar)
        ensures
            scale == self@.scale,
    {
        self.scale
    }
}

/// Resizing twice to the same size leaves the viewport as resizing once
/// does, so every projection made afterwards is the same.
pub proof fn lemma_resize_is_idempotent(viewport: ViewportModel, width: Scalar, height: Scalar)
    ensures
        viewport.resized(width, height).resized(width, height) == viewport.resized(width, height),
{
}

/// A resize forgets the size before it, and only the size: the scale stays,
/// and with it a well-formed viewport stays well formed.
pub proof fn lemma_last_resize_wins(
    viewport: ViewportModel,
    first_width: Scalar,
    first_height: Scalar,
    width: Scalar,
    height: Scalar,
)
    ensures
        viewport.resized(first_width, first_height).resized(width, height) == viewport.resized(
            width,
            height,
        ),
        viewport.resized(width, height).scale == viewport.scale,
        viewport.resized(width, height).well_formed() == viewport.well_formed(),
{
}

} // verus!
