//! Images placed on the canvas and sprite sheets: a loaded image element
//! together with the geometry and frame table that the game logic reads.
use crate::geometry::{Cell, Point, Rect, Sheet};
use vstd::prelude::*;
use web_sys::HtmlImageElement;

verus! {

#[verifier::external_type_specification]
#[verifier::external_body]
pub struct ExHtmlImageElement(HtmlImageElement);

/// Relies on web_sys `HtmlImageElement::width`: the element's current
/// width in pixels. It depends on the page, so nothing is stated of it.
/// The binding only works inside a browser's WebAssembly runtime.
#[verifier::external_body]
fn element_width(element: &HtmlImageElement) -> u32 {
    element.width()
}

/// Relies on web_sys `HtmlImageElement::height`: the element's current
/// height in pixels. It depends on the page, so nothing is stated of it.
/// The binding only works inside a browser's WebAssembly runtime.
#[verifier::external_body]
fn element_height(element: &HtmlImageElement) -> u32 {
    element.height()
}

/// An image element placed on the canvas, with its bounding box.
pub struct Image {
    element: HtmlImageElement,
    bounding_box: Rect,
}

impl Image {
    pub closed spec fn spec_bounding_box(&self) -> Rect {
        self.bounding_box
    }

    /// Places the element at `position`; the bounding box takes the
    /// element's size, cut to 16 bits.
    pub fn new(element: HtmlImageElement, position: Point) -> (r: Image)
        ensures
            r.spec_bounding_box().position == position,
    {
        let width = element_width(&element) as i16;
        let height = element_height(&element) as i16;
        let bounding_box = Rect { position, width, height };
        Image { element, bounding_box }
    }

    /// The image element, for drawing.
    pub fn element(&self) -> (r: &HtmlImageElement) {
        &self.element
    }

    pub fn bounding_box(&self) -> (r: &Rect)
        ensures
            *r == self.spec_bounding_box(),
    {
        &self.bounding_box
    }

    /// Moves the image `distance` pixels to the right (left if negative).
    pub fn move_horizontally(&mut self, distance: i16)
        requires
            i16::MIN <= old(self).spec_bounding_box().position.x + distance <= i16::MAX,
        ensures
            final(self).spec_bounding_box() == (Rect {
                position: Point {
                    x: (old(self).spec_bounding_box().position.x + distance) as i16,
                    ..old(self).spec_bounding_box().position
                },
                ..old(self).spec_bounding_box()
            }),
    {
        self.set_x(self.bounding_box.x() + distance);
    }

    /// Moves the image horizontally so that its left edge is at `x`.
    pub fn set_x(&mut self, x: i16)
        ensures
            final(self).spec_bounding_box() == (Rect {
                position: Point { x, ..old(self).spec_bounding_box().position },
                ..old(self).spec_bounding_box()
            }),
    {
        self.bounding_box.set_x(x);
    }

    /// The x coordinate of the bounding box's right edge.
    pub fn right(&self) -> (r: i16)
        requires
            i16::MIN <= self.spec_bounding_box().position.x + self.spec_bounding_box().width
                <= i16::MAX,
        ensures
            r == self.spec_bounding_box().position.x + self.spec_bounding_box().width,
    {
        self.bounding_box.right()
    }
}

/// A sprite sheet: its frame table and the image the frames are cut from.
pub struct SpriteSheet {
    sheet: Sheet,
    image: HtmlImageElement,
}

impl SpriteSheet {
    pub closed spec fn spec_frames(&self) -> Seq<(String, Cell)> {
        self.sheet.frames@
    }

    pub fn new(sheet: Sheet, image: HtmlImageElement) -> (r: SpriteSheet)
        ensures
            r.spec_frames() == sheet.frames@,
    {
        SpriteSheet { sheet, image }
    }

    /// The image the frames are cut from, for drawing.
    pub fn image(&self) -> (r: &HtmlImageElement) {
        &self.image
    }

    /// The first cell listed under `name`, if any.
    pub fn cell(&self, name: &str) -> (r: Option<&Cell>)
        ensures
            match r {
                Some(c) => exists|i: int|
                    0 <= i < self.spec_frames().len() && self.spec_frames()[i].0@ == name@ && *c
                        == self.spec_frames()[i].1 && forall|j: int|
                        0 <= j < i ==> self.spec_frames()[j].0@ != name@,
                None => forall|j: int|
                    0 <= j < self.spec_frames().len() ==> self.spec_frames()[j].0@ != name@,
            },
    {
        let frames = &self.sheet.frames;
        let wanted = name.to_owned();
        let mut i: usize = 0;
        while i < frames.len()
            invariant
                frames@ == self.spec_frames(),
                i <= frames@.len(),
                wanted@ == name@,
                forall|j: int| 0 <= j < i ==> frames@[j].0@ != name@,
            decreases frames@.len() - i,
        {
            let entry = &frames[i];
            if entry.0 == wanted {
                let found = &entry.1;
                assert(0 <= i < frames@.len() && frames@[i as int].0@ == name@ && *found
                    == frames@[i as int].1);
                return Some(found);
            }
            i = i + 1;
        }
        None
    }
}

} // verus!
