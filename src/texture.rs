use vstd::prelude::*;

verus! {

/// `image::ImageFormat`, with its variants: the format that a file extension
/// names and that decoding is asked for.
#[verifier::external_type_specification]
pub struct ExImageFormat(image::ImageFormat);

/// `image::ImageError`, opaque: why decoding failed.
#[verifier::external_type_specification]
#[verifier::external_body]
pub struct ExImageError(image::ImageError);

/// `image::DynamicImage`, opaque: a decoded image between decoding and its
/// conversion to four bytes per pixel.
#[verifier::external_type_specification]
#[verifier::external_body]
pub struct ExDynamicImage(image::DynamicImage);

/// `std::io::Error`, opaque: why an image file could not be read.
#[verifier::external_type_specification]
#[verifier::external_body]
pub struct ExIoError(std::io::Error);

/// Why a texture could not be made from an image file.
#[derive(Debug)]
#[allow(inconsistent_fields)]
pub enum CreationError {
    /// The path names no file extension.
    NoFileExtension { path: String },
    /// The file extension names no image format.
    UnknownFileExtension { path: String, extension: String },
    /// The file could not be read.
    FileOpenFailed { error_message: String, file_path: String, io_error: std::io::Error },
    /// The file's contents are not an image of the format that its extension names.
    ImageLoadingFailed { path: String, extension: image::ImageFormat, error: image::ImageError },
    /// The graphics context refused to create a texture object.
    TextureCreationFailed { path: String, extension: image::ImageFormat, error_message: String },
}

impl CreationError {
    /// The error that the path `path` names no file extension.
    pub open spec fn is_no_extension(&self, path: Seq<char>) -> bool {
        self matches CreationError::NoFileExtension { path: p } && p@ == path
    }

    /// The error that the extension `ext` of the path `path` names no format.
    pub open spec fn is_unknown_extension(&self, path: Seq<char>, ext: Seq<char>) -> bool {
        self matches CreationError::UnknownFileExtension { path: p, extension: x } && p@ == path
            && x@ == ext
    }

    /// The error that the file at `path` holds no image of format `format`,
    /// for the reason `error`.
    pub open spec fn is_loading_failure(
        &self,
        path: Seq<char>,
        format: image::ImageFormat,
        error: image::ImageError,
    ) -> bool {
        self matches CreationError::ImageLoadingFailed { path: p, extension: f, error: x } && p@
            == path && f == format && x == error
    }
}

/// `c` is the lower-case ASCII letter `lower`, or that letter in upper case,
/// or equal to `lower` where `lower` is no letter.
pub open spec fn char_matches_ignoring_case(c: char, lower: char) -> bool {
    c == lower || ('A' <= c && c <= 'Z' && c as u32 + 32 == lower as u32)
}

/// `s` equals the lower-case `lower` once its ASCII letters are lowered.
pub open spec fn matches_ignoring_case(s: Seq<char>, lower: Seq<char>) -> bool {
    &&& s.len() == lower.len()
    &&& forall|i: int| 0 <= i < s.len() ==> char_matches_ignoring_case(s[i], lower[i])
}

/// The image format that the file extension `ext` names, whatever the case of
/// its ASCII letters; `None` where it names none.
pub open spec fn format_of_extension(ext: Seq<char>) -> Option<image::ImageFormat> {
    if matches_ignoring_case(ext, seq!['a', 'v', 'i', 'f']) {
        Some(image::ImageFormat::Avif)
    } else if matches_ignoring_case(ext, seq!['j', 'p', 'g']) || matches_ignoring_case(ext, seq!['j', 'p', 'e', 'g']) || matches_ignoring_case(ext, seq!['j', 'f', 'i', 'f']) {
        Some(image::ImageFormat::Jpeg)
    } else if matches_ignoring_case(ext, seq!['p', 'n', 'g']) || matches_ignoring_case(ext, seq!['a', 'p', 'n', 'g']) {
        Some(image::ImageFormat::Png)
    } else if matches_ignoring_case(ext, seq!['g', 'i', 'f']) {
        Some(image::ImageFormat::Gif)
    } else if matches_ignoring_case(ext, seq!['w', 'e', 'b', 'p']) {
        Some(image::ImageFormat::WebP)
    } else if matches_ignoring_case(ext, seq!['t', 'i', 'f']) || matches_ignoring_case(ext, seq!['t', 'i', 'f', 'f']) {
        Some(image::ImageFormat::Tiff)
    } else if matches_ignoring_case(ext, seq!['t', 'g', 'a']) {
        Some(image::ImageFormat::Tga)
    } else if matches_ignoring_case(ext, seq!['d', 'd', 's']) {
        Some(image::ImageFormat::Dds)
    } else if matches_ignoring_case(ext, seq!['b', 'm', 'p']) {
        Some(image::ImageFormat::Bmp)
    } else if matches_ignoring_case(ext, seq!['i', 'c', 'o']) {
        Some(image::ImageFormat::Ico)
    } else if matches_ignoring_case(ext, seq!['h', 'd', 'r']) {
        Some(image::ImageFormat::Hdr)
    } else if matches_ignoring_case(ext, seq!['e', 'x', 'r']) {
        Some(image::ImageFormat::OpenExr)
    } else if matches_ignoring_case(ext, seq!['p', 'b', 'm']) || matches_ignoring_case(ext, seq!['p', 'a', 'm']) || matches_ignoring_case(ext, seq!['p', 'p', 'm']) || matches_ignoring_case(ext, seq!['p', 'g', 'm']) || matches_ignoring_case(ext, seq!['p', 'n', 'm']) {
        Some(image::ImageFormat::Pnm)
    } else if matches_ignoring_case(ext, seq!['f', 'f']) {
        Some(image::ImageFormat::Farbfeld)
    } else if matches_ignoring_case(ext, seq!['q', 'o', 'i']) {
        Some(image::ImageFormat::Qoi)
    } else {
        None
    }
}

/// Relies on `image::ImageFormat::from_extension`: it lowers the ASCII letters
/// of the extension and looks it up in its table of extensions, giving `None`
/// for any other.
#[verifier::external_body]
fn format_from_extension(ext: &str) -> (r: Option<image::ImageFormat>)
    ensures
        r == format_of_extension(ext@),
{
    image::ImageFormat::from_extension(ext)
}

/// Relies on `std::path::Path::extension`: the part of the path's last
/// component after its last `.`, if that component has a `.` that does not
/// begin it. A path without any `.` has none.
#[verifier::external_body]
fn path_extension(path: &str) -> (r: Option<String>)
    ensures
        r matches Some(e) ==> !e@.contains('.'),
        !path@.contains('.') ==> r is None,
{
    std::path::Path::new(path).extension().map(|e| e.to_string_lossy().into_owned())
}

/// The image format that the extension `extension` of the file at `path` names.
pub fn format_for_extension(path: &str, extension: Option<&str>) -> (r: Result<
    image::ImageFormat,
    CreationError,
>)
    ensures
        (match extension {
            None => r matches Err(e) && e.is_no_extension(path@),
            Some(x) => match format_of_extension(x@) {
                Some(f) => r == Ok::<image::ImageFormat, CreationError>(f),
                None => r matches Err(e) && e.is_unknown_extension(path@, x@),
            },
        }),
{
    match extension {
        None => Err(CreationError::NoFileExtension { path: path.to_owned() }),
        Some(e) => match format_from_extension(e) {
            Some(format) => Ok(format),
            None => Err(
                CreationError::UnknownFileExtension { path: path.to_owned(), extension: e.to_owned() },
            ),
        },
    }
}

/// The image format that the extension of the file at `path` names.
///
/// A path without any `.` has no extension. Where the path has one, that
/// extension is free of `.`, and the result is the format it names, or the
/// error that it names none.
pub fn image_format(path: &str) -> (r: Result<image::ImageFormat, CreationError>)
    ensures
        !path@.contains('.') ==> (r matches Err(e) && e.is_no_extension(path@)),
        r matches Ok(f) ==> exists|x: Seq<char>|
            !x.contains('.') && #[trigger] format_of_extension(x) == Some(f),
        r is Ok || (r matches Err(e) && e.is_no_extension(path@)) || (r matches Err(e) && exists|
            x: Seq<char>,
        | !x.contains('.') && format_of_extension(x) is None && #[trigger] e.is_unknown_extension(
            path@,
            x,
        )),
{
    let extension = path_extension(path);
    match extension {
        None => format_for_extension(path, None),
        Some(e) => format_for_extension(path, Some(e.as_str())),
    }
}

/// An image ready to be uploaded as a texture: its rows run from the bottom
/// row of the picture up, as OpenGL reads them, and each pixel is four bytes,
/// red, green, blue and alpha.
#[derive(Debug)]
pub struct TextureImage {
    pub width: u32,
    pub height: u32,
    pub pixels: Vec<u8>,
}

impl TextureImage {
    /// The buffer holds at least four bytes for each of the `width * height`
    /// pixels.
    pub open spec fn wf(&self) -> bool {
        self.pixels@.len() >= 4 * self.width * self.height
    }
}

/// Relies on `image::load_from_memory_with_format`: decodes `bytes` as an
/// image of the format `format`, or says why they are none.
#[verifier::external_body]
fn decode_image(bytes: &[u8], format: image::ImageFormat) -> (r: Result<
    image::DynamicImage,
    image::ImageError,
>) {
    image::load_from_memory_with_format(bytes, format)
}

/// Relies on `image::DynamicImage::flipv`: the image turned upside down.
#[verifier::external_body]
fn flip_vertically(img: &image::DynamicImage) -> (r: image::DynamicImage) {
    img.flipv()
}

/// Relies on `image::DynamicImage::into_rgba8`: the image with four bytes per
/// pixel, given as its width, its height and its buffer; an `ImageBuffer`
/// always holds a buffer large enough for its dimensions.
#[verifier::external_body]
fn rgba8_pixels(img: image::DynamicImage) -> (r: (u32, u32, Vec<u8>))
    ensures
        r.2@.len() >= 4 * r.0 * r.1,
{
    let rgba = img.into_rgba8();
    (rgba.width(), rgba.height(), rgba.into_raw())
}

/// The texture image that a decoding of the file at `path` as format `format`
/// gives: the decoded image turned upside down for OpenGL with four bytes per
/// pixel, or the error that the file holds no such image, with its reason.
pub fn texture_from_decoded(
    path: &str,
    format: image::ImageFormat,
    decoded: Result<image::DynamicImage, image::ImageError>,
) -> (r: Result<TextureImage, CreationError>)
    ensures
        (match decoded {
            Ok(_) => r matches Ok(t) && t.wf(),
            Err(e) => r matches Err(x) && x.is_loading_failure(path@, format, e),
        }),
{
    match decoded {
        Ok(img) => {
            let (width, height, pixels) = rgba8_pixels(flip_vertically(&img));
            Ok(TextureImage { width, height, pixels })
        },
        Err(error) => Err(
            CreationError::ImageLoadingFailed { path: path.to_owned(), extension: format, error },
        ),
    }
}

/// Decodes the contents `bytes` of the file at `path` as an image of format
/// `format`, turned upside down for OpenGL and with four bytes per pixel.
///
/// Whether the contents are such an image the decoder decides; the one error
/// is that they are not, with its reason.
pub fn decode_texture(path: &str, format: image::ImageFormat, bytes: &[u8]) -> (r: Result<
    TextureImage,
    CreationError,
>)
    ensures
        r matches Ok(t) ==> t.wf(),
        r is Err ==> (r matches Err(x) && exists|e: image::ImageError|
            #[trigger] x.is_loading_failure(path@, format, e)),
{
    let decoded = decode_image(bytes, format);
    texture_from_decoded(path, format, decoded)
}

} // verus!
