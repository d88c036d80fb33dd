//! An image buffer handle.
//!
//! A `ZBarImage` owns its pixel buffer and dimensions, carries what its
//! pixel content encodes — the symbols a scan can recognize — and, once
//! scanned, the attached result set. Construction validates that width
//! times height matches the buffer length; resizing afterwards only moves
//! the logical size, as an origin-anchored crop or grow.

use std::rc::Rc;
use vstd::prelude::*;
use crate::format::Format;
use crate::symbol::{share_rc, views_of, SymbolData, SymbolModel, ZBarSymbol};
use crate::symbol_set::ZBarSymbolSet;

verus! {

/// Why an image could not be constructed.
#[derive(Clone, Copy, Debug, PartialEq, Eq, Structural, Hash)]
pub enum ZBarImageError {
    /// Width and height do not match the buffer length; carries the
    /// offending width, height and actual length.
    Len(u32, u32, usize),
}

/// The spec-level state of an image.
pub ghost struct ImageModel {
    pub width: u32,
    pub height: u32,
    pub format: Format,
    pub sequence: u32,
    pub crop: (u32, u32, u32, u32),
    pub data: Seq<u8>,
    /// The attached user metadata, if any.
    pub userdata: Option<Seq<u8>>,
    /// Whether the metadata was handed in owned (as opposed to borrowed).
    pub userdata_owned: bool,
    pub encoded: Seq<SymbolModel>,
    pub symbols: Option<Seq<SymbolModel>>,
}

/// The crop window `(x, y, w, h)` clamped to an image's bounds: the
/// origin moves at most to the far edge, and the window is cut at it.
pub open spec fn clamped_crop(
    width: u32,
    height: u32,
    x: u32,
    y: u32,
    w: u32,
    h: u32,
) -> (u32, u32, u32, u32) {
    let cx = if x > width { width } else { x };
    let cy = if y > height { height } else { y };
    let cw = if x + w > width { width - cx } else { x + w - cx };
    let ch = if y + h > height { height - cy } else { y + h - cy };
    (cx as u32, cy as u32, cw as u32, ch as u32)
}

/// An image: an owned pixel buffer with dimensions and pixel format,
/// what the pixels encode, and the result set of the latest scan.
pub struct ZBarImage {
    width: u32,
    height: u32,
    format: Format,
    sequence: u32,
    crop: (u32, u32, u32, u32),
    data: Rc<Vec<u8>>,
    userdata: Option<Vec<u8>>,
    userdata_owned: bool,
    encoded: Vec<SymbolData>,
    symbols: Option<ZBarSymbolSet>,
}

impl View for ZBarImage {
    type V = ImageModel;

    closed spec fn view(&self) -> ImageModel {
        ImageModel {
            width: self.width,
            height: self.height,
            format: self.format,
            sequence: self.sequence,
            crop: self.crop,
            data: self.data@,
            userdata: match self.userdata {
                Some(ref d) => Some(d@),
                None => None,
            },
            userdata_owned: self.userdata_owned,
            encoded: views_of(self.encoded@),
            symbols: match self.symbols {
                Some(s) => Some(s@),
                None => None,
            },
        }
    }
}

impl ZBarImage {
    /// Creates an image from dimensions, pixel format and pixel data.
    ///
    /// Fails exactly when `width * height` differs from the buffer
    /// length, reporting the offending values. A fresh image has sequence
    /// number zero, encodes no symbols and carries no scan results.
    pub fn new(width: u32, height: u32, format: Format, data: Vec<u8>) -> (r: Result<
        ZBarImage,
        ZBarImageError,
    >)
        ensures
            match r {
                Ok(image) => (width as int) * (height as int) == data@.len() && image@
                    == (ImageModel {
                    width,
                    height,
                    format,
                    sequence: 0,
                    crop: (0u32, 0u32, width, height),
                    data: data@,
                    userdata: None::<Seq<u8>>,
                    userdata_owned: false,
                    encoded: Seq::<SymbolModel>::empty(),
                    symbols: None::<Seq<SymbolModel>>,
                }),
                Err(e) => (width as int) * (height as int) != data@.len() && e
                    == ZBarImageError::Len(width, height, data@.len() as usize),
            },
    {
        proof {
            assert((width as int) * (height as int) < 0x10000000000000000) by (nonlinear_arith)
                requires
                    width <= u32::MAX && height <= u32::MAX,
            ;
        }
        if (width as u64) * (height as u64) == (data.len() as u64) {
            let image = ZBarImage {
                width,
                height,
                format,
                sequence: 0,
                crop: (0, 0, width, height),
                data: Rc::new(data),
                userdata: None,
                userdata_owned: false,
                encoded: Vec::new(),
                symbols: None,
            };
            proof {
                assert(views_of(image.encoded@) =~= Seq::<SymbolModel>::empty());
            }
            Ok(image)
        } else {
            Err(ZBarImageError::Len(width, height, data.len()))
        }
    }

    /// The pixel format.
    pub fn format(&self) -> (r: Format)
        ensures
            r == self@.format,
    {
        self.format
    }

    /// The sequence number, used to order frames of one capture.
    pub fn sequence(&self) -> (r: u32)
        ensures
            r == self@.sequence,
    {
        self.sequence
    }

    /// The width in pixels.
    pub fn width(&self) -> (r: u32)
        ensures
            r == self@.width,
    {
        self.width
    }

    /// The height in pixels.
    pub fn height(&self) -> (r: u32)
        ensures
            r == self@.height,
    {
        self.height
    }

    /// The pixel buffer, borrowed from the image.
    pub fn data(&self) -> (r: &[u8])
        ensures
            r@ == self@.data,
    {
        self.data.as_slice()
    }

    /// Sets the sequence number.
    pub fn set_sequence(&mut self, sequence_num: u32)
        ensures
            final(self)@ == (ImageModel { sequence: sequence_num, ..old(self)@ }),
    {
        self.sequence = sequence_num;
    }

    /// Moves the logical size without touching the buffer — an
    /// origin-anchored crop or grow — and resets the crop window to the
    /// full new size.
    pub fn set_size(&mut self, width: u32, height: u32)
        ensures
            final(self)@ == (ImageModel {
                width,
                height,
                crop: (0u32, 0u32, width, height),
                ..old(self)@
            }),
    {
        self.width = width;
        self.height = height;
        self.crop = (0, 0, width, height);
    }

    /// The logical size as a `(width, height)` pair.
    pub fn size(&self) -> (r: (u32, u32))
        ensures
            r == (self@.width, self@.height),
    {
        (self.width, self.height)
    }

    /// The crop window as an `(x, y, width, height)` tuple.
    pub fn crop(&self) -> (r: (u32, u32, u32, u32))
        ensures
            r == self@.crop,
    {
        self.crop
    }

    /// Sets the crop window, clamped to the image's bounds.
    pub fn set_crop(&mut self, x: u32, y: u32, width: u32, height: u32)
        ensures
            final(self)@ == (ImageModel {
                crop: clamped_crop(old(self)@.width, old(self)@.height, x, y, width, height),
                ..old(self)@
            }),
    {
        let cx = if x > self.width {
            self.width
        } else {
            x
        };
        let cy = if y > self.height {
            self.height
        } else {
            y
        };
        let x_end = x as u64 + width as u64;
        let cw = if x_end > self.width as u64 {
            self.width - cx
        } else {
            (x_end - cx as u64) as u32
        };
        let y_end = y as u64 + height as u64;
        let ch = if y_end > self.height as u64 {
            self.height - cy
        } else {
            (y_end - cy as u64) as u32
        };
        self.crop = (cx, cy, cw, ch);
    }

    /// Attaches owned user metadata, or detaches it.
    pub fn set_userdata(&mut self, userdata: Option<Vec<u8>>)
        ensures
            final(self)@ == (ImageModel {
                userdata: match userdata {
                    Some(d) => Some(d@),
                    None => None::<Seq<u8>>,
                },
                userdata_owned: true,
                ..old(self)@
            }),
    {
        self.userdata = userdata;
        self.userdata_owned = true;
    }

    /// Attaches user metadata handed in borrowed, or detaches it. The
    /// bytes are kept for the image's own lifetime.
    pub fn set_userdata_borrowed(&mut self, userdata: Option<&[u8]>)
        ensures
            final(self)@ == (ImageModel {
                userdata: match userdata {
                    Some(d) => Some(d@),
                    None => None::<Seq<u8>>,
                },
                userdata_owned: false,
                ..old(self)@
            }),
    {
        self.userdata = match userdata {
            Some(d) => Some(copy_user_bytes(d)),
            None => None,
        };
        self.userdata_owned = false;
    }

    /// The attached user metadata, if any.
    pub fn userdata(&self) -> (r: Option<&Vec<u8>>)
        ensures
            match r {
                Some(d) => self@.userdata == Some(d@),
                None => self@.userdata is None,
            },
    {
        self.userdata.as_ref()
    }

    /// Declares what the pixel content encodes: the symbols a scan of
    /// this image can recognize.
    pub fn set_encoded_symbols(&mut self, encoded: Vec<SymbolData>)
        ensures
            final(self)@ == (ImageModel { encoded: views_of(encoded@), ..old(self)@ }),
    {
        self.encoded = encoded;
    }

    /// The result set attached by the latest scan, if the image has been
    /// scanned.
    pub fn symbols(&self) -> (r: Option<ZBarSymbolSet>)
        ensures
            match r {
                Some(s) => self@.symbols == Some(s@),
                None => self@.symbols is None,
            },
    {
        match &self.symbols {
            Some(s) => Some(s.clone()),
            None => None,
        }
    }

    /// Attaches or detaches a result set.
    pub fn set_symbols(&mut self, symbols: Option<&ZBarSymbolSet>)
        ensures
            final(self)@ == (ImageModel {
                symbols: match symbols {
                    Some(s) => Some(s@),
                    None => None::<Seq<SymbolModel>>,
                },
                ..old(self)@
            }),
    {
        self.symbols = match symbols {
            Some(s) => Some(s.clone()),
            None => None,
        };
    }

    /// The first symbol of the latest scan's results, if the image has
    /// been scanned and the scan found any.
    pub fn first_symbol(&self) -> (r: Option<ZBarSymbol>)
        ensures
            match r {
                Some(s) => self@.symbols is Some && self@.symbols->0.len() > 0 && s.rest()
                    == self@.symbols->0,
                None => self@.symbols is None || self@.symbols->0.len() == 0,
            },
    {
        match &self.symbols {
            Some(set) => set.first_symbol(),
            None => None,
        }
    }

    /// The engine's on-disk raster form of this image: a binary graymap
    /// header carrying width, height and the maximum sample value,
    /// followed by the raw pixel bytes. Writing the bytes to a path is
    /// the caller's part; reading the format back is unsupported.
    pub fn to_raster_bytes(&self) -> (r: Vec<u8>)
        ensures
            r@ == raster_view(self@),
    {
        let mut out: Vec<u8> = Vec::new();
        out.push(80);
        out.push(53);
        out.push(10);
        let width_digits = crate::text::u32_to_dec_bytes(self.width);
        append_bytes(&mut out, &width_digits);
        out.push(32);
        let height_digits = crate::text::u32_to_dec_bytes(self.height);
        append_bytes(&mut out, &height_digits);
        out.push(10);
        out.push(50);
        out.push(53);
        out.push(53);
        out.push(10);
        append_bytes(&mut out, &*self.data);
        proof {
            assert(out@ =~= raster_view(self@));
        }
        out
    }

    /// Reading an image back from disk: the engine's on-disk format is
    /// write-only, so there is never an image to return.
    pub fn read(_path: &str) -> (r: Option<ZBarImage>)
        ensures
            r is None,
    {
        None
    }

    /// Clears the attached scan results, as scan recycling does.
    pub(crate) fn clear_symbols(&mut self)
        ensures
            final(self)@ == (ImageModel { symbols: None::<Seq<SymbolModel>>, ..old(self)@ }),
    {
        self.symbols = None;
    }

    /// The encoded symbols, for the scanner to read.
    pub(crate) fn encoded_records(&self) -> (r: &Vec<SymbolData>)
        ensures
            views_of(r@) == self@.encoded,
    {
        &self.encoded
    }

    /// Attaches a result set, for the scanner.
    pub(crate) fn attach_symbols(&mut self, symbols: ZBarSymbolSet)
        ensures
            final(self)@ == (ImageModel { symbols: Some(symbols@), ..old(self)@ }),
    {
        self.symbols = Some(symbols);
    }
}

impl Clone for ZBarImage {
    /// Shares the pixel buffer and the attached result set, if any, and
    /// copies the lightweight fields: no pixel data is duplicated.
    fn clone(&self) -> (r: Self)
        ensures
            r@ == self@,
    {
        ZBarImage {
            width: self.width,
            height: self.height,
            format: self.format,
            sequence: self.sequence,
            crop: self.crop,
            data: share_rc(&self.data),
            userdata: match &self.userdata {
                Some(d) => Some(copy_user_bytes(d.as_slice())),
                None => None,
            },
            userdata_owned: self.userdata_owned,
            encoded: copy_records(&self.encoded),
            symbols: match &self.symbols {
                Some(s) => Some(s.clone()),
                None => None,
            },
        }
    }
}

/// The engine's on-disk raster form of an image: the binary graymap
/// header `P5`, newline, width, space, height, newline, the maximum
/// sample value `255`, newline, then the raw pixel bytes.
pub open spec fn raster_view(m: ImageModel) -> Seq<u8> {
    seq![80u8, 53u8, 10u8] + crate::text::dec_bytes(m.width as int) + seq![32u8]
        + crate::text::dec_bytes(m.height as int) + seq![10u8, 50u8, 53u8, 53u8, 10u8] + m.data
}

/// Appends every byte of `src` to `dst`.
fn append_bytes(dst: &mut Vec<u8>, src: &Vec<u8>)
    ensures
        final(dst)@ == old(dst)@ + src@,
{
    let mut i: usize = 0;
    while i < src.len()
        invariant
            i <= src@.len(),
            dst@ =~= old(dst)@ + src@.take(i as int),
        decreases src@.len() - i,
    {
        dst.push(src[i]);
        proof {
            assert(old(dst)@ + src@.take(i as int + 1) =~= (old(dst)@ + src@.take(i as int)).push(
                src@[i as int],
            ));
        }
        i = i + 1;
    }
    proof {
        assert(src@.take(src@.len() as int) =~= src@);
    }
}

/// The FOURCC value images converted from outside raster data carry:
/// the engine's single-byte grayscale format.
pub const GRAY_FOURCC: u32 = 0x5945_5247;

#[verifier::external_type_specification]
#[verifier::external_body]
pub struct ExDynamicImage(::image::DynamicImage);

/// The grayscale form of a raster image: its width, its height, and its
/// one-byte-per-pixel buffer. A function of the image alone.
pub uninterp spec fn luma_of(image: ::image::DynamicImage) -> (u32, u32, Seq<u8>);

/// Relies on `::image::DynamicImage::width`, `height` and `into_luma8`,
/// and `image::ImageBuffer::into_raw`: grayscale conversion is
/// deterministic in the image; the buffer holds one byte per pixel, pixel
/// `(x, y)` at index `y * width + x`, and is at least `width * height`
/// long.
#[verifier::external_body]
fn gray_parts(image: ::image::DynamicImage) -> (r: (u32, u32, Vec<u8>))
    ensures
        (r.0, r.1, r.2@) == luma_of(image),
        r.2@.len() >= (r.0 as int) * (r.1 as int),
{
    let width = image.width();
    let height = image.height();
    let buffer = image.into_luma8().into_raw();
    (width, height, buffer)
}

impl ZBarImage {
    /// Creates an image from an outside raster image: its grayscale
    /// form's exact pixels, in the engine's grayscale format.
    pub fn from_dyn_image(image: ::image::DynamicImage) -> (r: ZBarImage)
        ensures
            ({
                let (width, height, bytes) = luma_of(image);
                r@.width == width && r@.height == height && r@.format.spec_value() == GRAY_FOURCC
                    && r@.sequence == 0 && r@.data == bytes.take((width as int) * (height as int))
                    && r@.userdata is None && r@.encoded == Seq::<SymbolModel>::empty()
                    && r@.symbols is None
            }),
    {
        let (width, height, buffer) = gray_parts(image);
        Self::create_image((width, height), buffer)
    }

    /// Creates a grayscale image from dimensions and a buffer that is at
    /// least large enough, keeping exactly the first `width * height`
    /// pixel bytes.
    pub fn create_image(dimensions: (u32, u32), data: Vec<u8>) -> (r: ZBarImage)
        requires
            data@.len() >= (dimensions.0 as int) * (dimensions.1 as int),
        ensures
            r@.width == dimensions.0,
            r@.height == dimensions.1,
            r@.format.spec_value() == GRAY_FOURCC,
            r@.sequence == 0,
            r@.data == data@.take((dimensions.0 as int) * (dimensions.1 as int)),
            r@.userdata is None,
            r@.encoded == Seq::<SymbolModel>::empty(),
            r@.symbols is None,
    {
        let (width, height) = dimensions;
        let mut buffer = data;
        proof {
            assert((width as int) * (height as int) < 0x10000000000000000) by (nonlinear_arith)
                requires
                    width <= u32::MAX && height <= u32::MAX,
            ;
        }
        let pixel_count = (width as u64) * (height as u64);
        proof {
            assert(pixel_count <= buffer@.len());
        }
        buffer.truncate(pixel_count as usize);
        match Self::new(width, height, Format::from_value(GRAY_FOURCC), buffer) {
            Ok(image) => image,
            Err(_) => {
                proof {
                    assert(false);
                }
                vstd::pervasive::unreached()
            },
        }
    }
}

/// Copies a byte slice into an owned vector, element by element.
fn copy_user_bytes(bytes: &[u8]) -> (r: Vec<u8>)
    ensures
        r@ == bytes@,
{
    let mut out: Vec<u8> = Vec::new();
    let mut i: usize = 0;
    while i < bytes.len()
        invariant
            i <= bytes@.len(),
            out@ =~= bytes@.take(i as int),
        decreases bytes@.len() - i,
    {
        out.push(bytes[i]);
        i = i + 1;
    }
    proof {
        assert(bytes@.take(bytes@.len() as int) =~= bytes@);
    }
    out
}

/// Copies a record vector element by element.
pub(crate) fn copy_records(records: &Vec<SymbolData>) -> (r: Vec<SymbolData>)
    ensures
        views_of(r@) == views_of(records@),
{
    let mut out: Vec<SymbolData> = Vec::new();
    let mut i: usize = 0;
    while i < records.len()
        invariant
            i <= records@.len(),
            views_of(out@) =~= views_of(records@).take(i as int),
        decreases records@.len() - i,
    {
        out.push(records[i].clone());
        proof {
            assert(views_of(out@) =~= views_of(out@.drop_last()).push(out@.last()@));
            assert(views_of(records@).take(i as int + 1) =~= views_of(records@).take(i as int).push(
                records@[i as int]@,
            ));
        }
        i = i + 1;
    }
    proof {
        assert(views_of(records@).take(records@.len() as int) =~= views_of(records@));
    }
    out
}

} // verus!
