//! The icon of the program, and copies of it in other sizes.
use vstd::prelude::*;

verus! {

/// A picture, line by line from the top, with four bytes a pixel: red, green, blue and opacity.
pub struct Picture {
    pub width: u32,
    pub height: u32,
    pub rgba: Vec<u8>,
}

/// The contents of a [`Picture`].
#[verifier::ext_equal]
pub struct PictureView {
    pub width: u32,
    pub height: u32,
    pub rgba: Seq<u8>,
}

impl View for Picture {
    type V = PictureView;

    open spec fn view(&self) -> PictureView {
        PictureView { width: self.width, height: self.height, rgba: self.rgba@ }
    }
}

impl PictureView {
    /// Every pixel is there.
    pub open spec fn valid(self) -> bool {
        self.rgba.len() == 4 * self.width * self.height
    }
}

/// The error of `image`.
#[verifier::external_type_specification]
#[verifier::external_body]
pub struct ExImageError(image::ImageError);

/// The width, the height and the pixels of the picture that `data` holds in a file format that
/// `image` reads; none where it cannot read it.
pub uninterp spec fn decoded(data: Seq<u8>) -> Option<(u32, u32, Seq<u8>)>;

/// Calls `image::load_from_memory` and turns the picture into one of four bytes a pixel with
/// `DynamicImage::into_rgba8`. What comes out depends on the data alone, as long as no decoder of
/// another crate is hooked into `image`; a picture that comes out is complete.
#[verifier::external_body]
fn decode(data: &[u8]) -> (r: Result<Picture, image::ImageError>)
    ensures
        r matches Ok(p) ==> p@.valid() && decoded(data@) == Some((p.width, p.height, p.rgba@)),
        r is Err ==> decoded(data@) is None,
{
    match image::load_from_memory(data) {
        Ok(i) => {
            let i = i.into_rgba8();
            Ok(Picture { width: i.width(), height: i.height(), rgba: i.into_raw() })
        },
        Err(e) => Err(e),
    }
}

/// Channel `c` of the four has the value `v` in every pixel.
pub open spec fn channel_is(p: PictureView, c: int, v: u8) -> bool {
    forall|j: int| 0 <= j < p.rgba.len() && j % 4 == c ==> #[trigger] p.rgba[j] == v
}

/// The picture has pixels, and no side of it is longer than 1024 of them.
pub open spec fn of_icon_size(p: PictureView) -> bool {
    0 < p.width <= 1024 && 0 < p.height <= 1024
}

/// `r` is a copy of `p` in the given size. One of the size of `p` is `p` itself, and one of a
/// picture without pixels is transparent. Where a channel is the same throughout a picture of the
/// size of an icon, it is the same throughout a copy that is not tiny.
pub open spec fn is_scaled(p: PictureView, size: u32, r: PictureView) -> bool {
    &&& r.width == size
    &&& r.height == size
    &&& r.valid()
    &&& p.width == size && p.height == size ==> r == p
    &&& p.width == 0 || p.height == 0 ==> forall|i: int|
        0 <= i < r.rgba.len() ==> r.rgba[i] == 0
    &&& of_icon_size(p) && size >= 16 ==> forall|c: int, v: u8|
        0 <= c < 4 && #[trigger] channel_is(p, c, v) ==> channel_is(r, c, v)
}

/// Calls `image::imageops::resize` with the filter Lanczos3. The copy has the asked size and is
/// complete; a picture that has the size already is copied as it is, and of one without pixels the
/// copy is transparent. Each channel of a pixel is a mean of that channel in the pixels around it,
/// with weights that sum to 1, rounded to the nearest number. So a channel that has one value
/// throughout keeps it, as long as the rounding of the sums stays far below one half, which it does
/// in the sizes of icons. The pixels of any other copy are not stated: the weights rest on the sine
/// of the machine, whose last digits differ between platforms.
#[verifier::external_body]
fn resize(p: &Picture, size: u32) -> (r: Picture)
    requires
        p@.valid(),
        0 < size <= 65_536,
    ensures
        is_scaled(p@, size, r@),
{
    let whole = image::RgbaImage::from_raw(p.width, p.height, p.rgba.clone()).unwrap();
    let out = image::imageops::resize(&whole, size, size, image::imageops::FilterType::Lanczos3);
    Picture { width: out.width(), height: out.height(), rgba: out.into_raw() }
}

/// The picture that the icon's file holds, where it can be read.
pub open spec fn icon_view(data: Seq<u8>) -> Option<PictureView> {
    match decoded(data) {
        Some((width, height, rgba)) => Some(PictureView { width, height, rgba }),
        None => None,
    }
}

/// Reads the picture that the icon's file holds.
pub fn load_icon(data: &[u8]) -> (r: Option<Picture>)
    ensures
        r matches Some(p) ==> icon_view(data@) == Some(p@) && p@.valid(),
        r is None ==> icon_view(data@) is None,
{
    match decode(data) {
        Ok(p) => Some(p),
        Err(_) => None,
    }
}

/// The sizes in which the icon is installed.
pub open spec fn icon_sizes() -> Seq<u32> {
    seq![128u32, 64u32, 48u32, 32u32]
}

/// The contents of a list of pictures.
pub open spec fn picture_views(v: Seq<Picture>) -> Seq<PictureView> {
    v.map_values(|p: Picture| p@)
}

/// `copies` are copies of `p` in the sizes in which the icon is installed.
pub open spec fn are_copies(p: PictureView, copies: Seq<PictureView>) -> bool {
    &&& copies.len() == icon_sizes().len()
    &&& forall|i: int|
        0 <= i < copies.len() ==> is_scaled(p, icon_sizes()[i], #[trigger] copies[i])
}

/// Copies the icon in the sizes in which it is installed.
pub fn scale_icon(p: &Picture) -> (r: Vec<Picture>)
    requires
        p@.valid(),
    ensures
        are_copies(p@, picture_views(r@)),
{
    let v = vec![resize(p, 128), resize(p, 64), resize(p, 48), resize(p, 32)];
    assert(v@.len() == 4);
    assert forall|i: int| 0 <= i < 4 implies is_scaled(
        p@,
        icon_sizes()[i],
        #[trigger] picture_views(v@)[i],
    ) by {
        assert(picture_views(v@)[i] == v@[i]@);
        assert(i == 0 || i == 1 || i == 2 || i == 3);
    }
    v
}

} // verus!
