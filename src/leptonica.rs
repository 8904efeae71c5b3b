//! Images, rectangles and rectangle collections, modelled by the plain
//! values that the rest of the library reads.
use vstd::prelude::*;

verus! {

/// The image encodings that Leptonica can write, in the order of its
/// `IFF_*` identifiers.
#[derive(Clone, Copy, Debug, PartialEq, Eq, Structural)]
pub enum FileFormat {
    Unknown,
    Bmp,
    JfifJpeg,
    Png,
    Tiff,
    TiffPackbits,
    TiffRle,
    TiffG3,
    TiffG4,
    TiffLzw,
    TiffZip,
    Pnm,
    Ps,
    Gif,
    Jp2,
    Webp,
    Lpdf,
    TiffJpeg,
    Default,
    Spix,
}

impl FileFormat {
    /// Leptonica's numeric identifier of the encoding (`IFF_UNKNOWN` is 0,
    /// `IFF_SPIX` is 19, and the others follow the declaration order).
    pub open spec fn code(self) -> int {
        match self {
            FileFormat::Unknown => 0,
            FileFormat::Bmp => 1,
            FileFormat::JfifJpeg => 2,
            FileFormat::Png => 3,
            FileFormat::Tiff => 4,
            FileFormat::TiffPackbits => 5,
            FileFormat::TiffRle => 6,
            FileFormat::TiffG3 => 7,
            FileFormat::TiffG4 => 8,
            FileFormat::TiffLzw => 9,
            FileFormat::TiffZip => 10,
            FileFormat::Pnm => 11,
            FileFormat::Ps => 12,
            FileFormat::Gif => 13,
            FileFormat::Jp2 => 14,
            FileFormat::Webp => 15,
            FileFormat::Lpdf => 16,
            FileFormat::TiffJpeg => 17,
            FileFormat::Default => 18,
            FileFormat::Spix => 19,
        }
    }

    /// The identifier handed to Leptonica's writer for this encoding.
    pub fn to_int(&self) -> (r: i32)
        ensures
            r as int == self.code(),
            0 <= r < 20,
    {
        match self {
            FileFormat::Unknown => 0,
            FileFormat::Bmp => 1,
            FileFormat::JfifJpeg => 2,
            FileFormat::Png => 3,
            FileFormat::Tiff => 4,
            FileFormat::TiffPackbits => 5,
            FileFormat::TiffRle => 6,
            FileFormat::TiffG3 => 7,
            FileFormat::TiffG4 => 8,
            FileFormat::TiffLzw => 9,
            FileFormat::TiffZip => 10,
            FileFormat::Pnm => 11,
            FileFormat::Ps => 12,
            FileFormat::Gif => 13,
            FileFormat::Jp2 => 14,
            FileFormat::Webp => 15,
            FileFormat::Lpdf => 16,
            FileFormat::TiffJpeg => 17,
            FileFormat::Default => 18,
            FileFormat::Spix => 19,
        }
    }
}


/// An axis-aligned rectangle, Leptonica's `BOX`: left edge `x`, top edge `y`,
/// width `w` and height `h`. It never changes once made.
#[derive(Clone, Copy, Debug, PartialEq, Eq, Structural)]
pub struct Box {
    x: i32,
    y: i32,
    w: i32,
    h: i32,
}

impl View for Box {
    type V = (i32, i32, i32, i32);

    /// The rectangle as `(x, y, w, h)`.
    closed spec fn view(&self) -> (i32, i32, i32, i32) {
        (self.x, self.y, self.w, self.h)
    }
}

impl Box {
    /// Both extents are positive: the rectangle covers some area.
    pub open spec fn wf(&self) -> bool {
        self@.2 > 0 && self@.3 > 0
    }

    /// The rectangle at `(x, y)` of width `w` and height `h`.
    pub fn new(x: i32, y: i32, w: i32, h: i32) -> (r: Box)
        requires
            w > 0,
            h > 0,
        ensures
            r@ == (x, y, w, h),
            r.wf(),
    {
        Box { x, y, w, h }
    }

    /// The x position of the box.
    pub fn x(&self) -> (r: i32)
        ensures
            r == self@.0,
    {
        self.x
    }

    /// The y position of the box.
    pub fn y(&self) -> (r: i32)
        ensures
            r == self@.1,
    {
        self.y
    }

    /// The width of the box.
    pub fn w(&self) -> (r: i32)
        ensures
            r == self@.2,
    {
        self.w
    }

    /// The height of the box.
    pub fn h(&self) -> (r: i32)
        ensures
            r == self@.3,
    {
        self.h
    }
}

/// Why an image could not be had or kept.
#[derive(Clone, Copy, Debug, PartialEq, Eq, Structural)]
pub enum ImageError {
    /// The file is missing, unreadable or does not decode.
    ResourceUnavailable,
    /// Encoding or storing the image failed.
    WriteFailure,
}

/// A decoded raster image, Leptonica's `PIX`, by its dimensions.
pub struct Pix {
    w: u32,
    h: u32,
}

impl View for Pix {
    type V = (u32, u32);

    /// The image as `(width, height)`.
    closed spec fn view(&self) -> (u32, u32) {
        (self.w, self.h)
    }
}

/// The smaller of two integers.
pub open spec fn min_int(a: int, b: int) -> int {
    if a < b { a } else { b }
}

/// The larger of two integers.
pub open spec fn max_int(a: int, b: int) -> int {
    if a < b { b } else { a }
}

impl Pix {
    /// An image of `w` by `h` pixels.
    pub fn new(w: u32, h: u32) -> (r: Pix)
        ensures
            r@ == (w, h),
    {
        Pix { w, h }
    }

    /// The outcome of reading an image file, given the dimensions of what
    /// the decoder produced, or `None` where it produced nothing.
    pub fn from_decoded(decoded: Option<(u32, u32)>) -> (r: Result<Pix, ImageError>)
        ensures
            decoded is None <==> r is Err,
            r is Err ==> r->Err_0 == ImageError::ResourceUnavailable,
            decoded is Some ==> r is Ok && r->Ok_0@ == decoded->0,
    {
        match decoded {
            Some((w, h)) => Ok(Pix::new(w, h)),
            None => Err(ImageError::ResourceUnavailable),
        }
    }

    /// The outcome of writing an image, given the encoder's status: zero is
    /// success.
    pub fn write_outcome(status: i32) -> (r: Result<(), ImageError>)
        ensures
            r is Ok <==> status == 0,
            r is Err ==> r->Err_0 == ImageError::WriteFailure,
    {
        if status == 0 {
            Ok(())
        } else {
            Err(ImageError::WriteFailure)
        }
    }

    /// The width in pixels.
    pub fn w(&self) -> (r: u32)
        ensures
            r == self@.0,
    {
        self.w
    }

    /// The height in pixels.
    pub fn h(&self) -> (r: u32)
        ensures
            r == self@.1,
    {
        self.h
    }

    /// The rectangle shares some area with the image.
    pub open spec fn overlaps(&self, b: Box) -> bool {
        &&& b.wf()
        &&& b@.0 < self@.0
        &&& b@.1 < self@.1
        &&& b@.0 + b@.2 > 0
        &&& b@.1 + b@.3 > 0
    }

    /// The rectangle lies wholly inside the image.
    pub open spec fn contains(&self, b: Box) -> bool {
        &&& b.wf()
        &&& 0 <= b@.0
        &&& 0 <= b@.1
        &&& b@.0 + b@.2 <= self@.0
        &&& b@.1 + b@.3 <= self@.1
    }

    /// The width of the part of the image that the rectangle covers.
    pub open spec fn clip_w(&self, b: Box) -> int {
        min_int(b@.0 + b@.2, self@.0 as int) - max_int(b@.0 as int, 0)
    }

    /// The height of the part of the image that the rectangle covers.
    pub open spec fn clip_h(&self, b: Box) -> int {
        min_int(b@.1 + b@.3, self@.1 as int) - max_int(b@.1 as int, 0)
    }

    /// The image cut down to the part that `rectangle` covers: the
    /// rectangle is first clipped to the image's bounds.
    pub fn clip(&self, rectangle: &Box) -> (r: Pix)
        requires
            self.overlaps(*rectangle),
        ensures
            r@.0 == self.clip_w(*rectangle),
            r@.1 == self.clip_h(*rectangle),
    {
        let x0: i64 = if rectangle.x() < 0 { 0 } else { rectangle.x() as i64 };
        let y0: i64 = if rectangle.y() < 0 { 0 } else { rectangle.y() as i64 };
        let xe: i64 = rectangle.x() as i64 + rectangle.w() as i64;
        let ye: i64 = rectangle.y() as i64 + rectangle.h() as i64;
        let x1: i64 = if xe < self.w as i64 { xe } else { self.w as i64 };
        let y1: i64 = if ye < self.h as i64 { ye } else { self.h as i64 };
        Pix::new((x1 - x0) as u32, (y1 - y0) as u32)
    }
}

/// Clipping an image to a rectangle that lies inside it gives an image of
/// exactly the rectangle's size.
pub proof fn lemma_clip_inside(image: Pix, rectangle: Box)
    requires
        image.contains(rectangle),
    ensures
        image.overlaps(rectangle),
        image.clip_w(rectangle) == rectangle@.2,
        image.clip_h(rectangle) == rectangle@.3,
{
}

/// A read-only, ordered collection of rectangles, Leptonica's `BOXA`. Its
/// length is fixed when it is made; reading a slot hands out a copy.
pub struct Boxes {
    items: Vec<Box>,
}

impl View for Boxes {
    type V = Seq<Box>;

    closed spec fn view(&self) -> Seq<Box> {
        self.items@
    }
}

impl Boxes {
    /// The collection of the given rectangles, in the given order.
    pub fn from_vec(items: Vec<Box>) -> (r: Boxes)
        ensures
            r@ == items@,
    {
        Boxes { items }
    }

    /// The number of rectangles.
    pub fn len(&self) -> (r: usize)
        ensures
            r == self@.len(),
    {
        self.items.len()
    }

    /// An independent copy of the rectangle in slot `index`.
    pub fn get(&self, index: usize) -> (r: Box)
        requires
            index < self@.len(),
        ensures
            r == self@[index as int],
    {
        self.items[index]
    }

    /// A traversal that takes the collection over and hands out each slot
    /// in ascending order.
    pub fn into_iter(self) -> (r: BoxesIterator)
        ensures
            r.wf(),
            r.items() == self@,
            r.pos() == 0,
    {
        let count = self.len();
        BoxesIterator { boxa: self, index: 0, count }
    }

    /// A traversal that leaves the collection in place and hands out each
    /// slot in ascending order.
    pub fn iter(&self) -> (r: BoxaRefIterator<'_>)
        ensures
            r.wf(),
            r.items() == self@,
            r.pos() == 0,
    {
        let count = self.len();
        BoxaRefIterator { boxa: self, index: 0, count }
    }
}

/// What a traversal still has to hand out when it stands at slot `pos` of
/// `items`: each later slot once, in ascending order.
pub open spec fn yield_from(items: Seq<Box>, pos: int) -> Seq<Box>
    decreases items.len() - pos,
{
    if pos < 0 || pos >= items.len() {
        Seq::empty()
    } else {
        seq![items[pos]] + yield_from(items, pos + 1)
    }
}

/// A traversal that owns its collection.
pub struct BoxesIterator {
    boxa: Boxes,
    index: usize,
    count: usize,
}

impl BoxesIterator {
    /// The rectangles of the collection being traversed.
    pub closed spec fn items(&self) -> Seq<Box> {
        self.boxa@
    }

    /// The slot that the next step hands out.
    pub closed spec fn pos(&self) -> int {
        self.index as int
    }

    pub closed spec fn wf(&self) -> bool {
        self.count == self.boxa@.len() && self.index <= self.count
    }

    /// The next rectangle, or `None` once every slot has been handed out.
    pub fn next(&mut self) -> (r: Option<Box>)
        requires
            old(self).wf(),
        ensures
            final(self).wf(),
            final(self).items() == old(self).items(),
            old(self).pos() < old(self).items().len() ==> r == Some(old(self).items()[old(self).pos()])
                && final(self).pos() == old(self).pos() + 1,
            old(self).pos() >= old(self).items().len() ==> r is None && final(self).pos() == old(self).pos(),
    {
        if self.index >= self.count {
            return None;
        }
        let re = self.boxa.get(self.index);
        self.index = self.index + 1;
        Some(re)
    }
}

/// A traversal that borrows its collection.
pub struct BoxaRefIterator<'a> {
    boxa: &'a Boxes,
    index: usize,
    count: usize,
}

impl<'a> BoxaRefIterator<'a> {
    /// The rectangles of the collection being traversed.
    pub closed spec fn items(&self) -> Seq<Box> {
        self.boxa@
    }

    /// The slot that the next step hands out.
    pub closed spec fn pos(&self) -> int {
        self.index as int
    }

    pub closed spec fn wf(&self) -> bool {
        self.count == self.boxa@.len() && self.index <= self.count
    }

    /// The next rectangle, or `None` once every slot has been handed out.
    pub fn next(&mut self) -> (r: Option<Box>)
        requires
            old(self).wf(),
        ensures
            final(self).wf(),
            final(self).items() == old(self).items(),
            old(self).pos() < old(self).items().len() ==> r == Some(old(self).items()[old(self).pos()])
                && final(self).pos() == old(self).pos() + 1,
            old(self).pos() >= old(self).items().len() ==> r is None && final(self).pos() == old(self).pos(),
    {
        if self.index >= self.count {
            return None;
        }
        let re = self.boxa.get(self.index);
        self.index = self.index + 1;
        Some(re)
    }
}

proof fn lemma_yield_from_suffix(items: Seq<Box>, pos: int)
    requires
        0 <= pos <= items.len(),
    ensures
        yield_from(items, pos) == items.subrange(pos, items.len() as int),
    decreases items.len() - pos,
{
    if pos < items.len() {
        lemma_yield_from_suffix(items, pos + 1);
        assert(yield_from(items, pos) =~= items.subrange(pos, items.len() as int));
    } else {
        assert(yield_from(items, pos) =~= items.subrange(pos, items.len() as int));
    }
}

/// A fresh consuming traversal and a fresh borrowing traversal of the same
/// collection hand out the same rectangles: every slot exactly once, in
/// ascending index order, and nothing more.
pub proof fn lemma_traversals_agree(b: Boxes, owned: BoxesIterator, borrowed: BoxaRefIterator)
    requires
        owned.items() == b@,
        owned.pos() == 0,
        borrowed.items() == b@,
        borrowed.pos() == 0,
    ensures
        yield_from(owned.items(), owned.pos()) == b@,
        yield_from(borrowed.items(), borrowed.pos()) == b@,
        yield_from(owned.items(), owned.pos()).len() == b@.len(),
{
    lemma_yield_from_suffix(b@, 0);
    assert(b@.subrange(0, b@.len() as int) =~= b@);
}

} // verus!
