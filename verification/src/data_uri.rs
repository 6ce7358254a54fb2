//! Turning file icons and the desktop wallpaper into `data:` URIs.

use vstd::prelude::*;
use base64::Engine;
use image::ImageEncoder;
use crate::win_path::{lacks_separators, path_file_name, path_file_name_of, law_file_name_is_last_component};
use crate::text::{
    lacks_char, law_extension_after_last_dot, law_no_extension_without_inner_dot,
    extension_of, file_extension, lowercase, terminated_len, terminated_text, to_lowercase,
    utf16_lossy,
};

verus! {

/// The character of the standard Base64 alphabet for the 6-bit value `v`:
/// `A`..`Z`, `a`..`z`, `0`..`9`, `+`, `/`.
pub open spec fn base64_digit(v: int) -> char {
    if v < 26 {
        ('A' as int + v) as char
    } else if v < 52 {
        ('a' as int + (v - 26)) as char
    } else if v < 62 {
        ('0' as int + (v - 52)) as char
    } else if v == 62 {
        '+'
    } else {
        '/'
    }
}

/// The standard Base64 encoding of `bytes` with `=` padding: each group of
/// three bytes becomes four characters, a last group of one or two bytes
/// becomes two or three characters followed by `==` or `=`.
pub open spec fn base64_standard(bytes: Seq<u8>) -> Seq<char>
    decreases bytes.len(),
{
    let b0 = bytes[0] as int;
    let b1 = bytes[1] as int;
    let b2 = bytes[2] as int;
    if bytes.len() == 0 {
        Seq::empty()
    } else if bytes.len() == 1 {
        seq![base64_digit(b0 / 4), base64_digit((b0 % 4) * 16), '=', '=']
    } else if bytes.len() == 2 {
        seq![
            base64_digit(b0 / 4),
            base64_digit((b0 % 4) * 16 + b1 / 16),
            base64_digit((b1 % 16) * 4),
            '=',
        ]
    } else {
        seq![
            base64_digit(b0 / 4),
            base64_digit((b0 % 4) * 16 + b1 / 16),
            base64_digit((b1 % 16) * 4 + b2 / 64),
            base64_digit(b2 % 64),
        ] + base64_standard(bytes.skip(3))
    }
}

/// Calls `Engine::encode` of `base64::engine::general_purpose::STANDARD`
/// (the standard alphabet with padding); its result is `base64_standard` of
/// the bytes.
#[verifier::external_body]
fn base64_encode(bytes: &[u8]) -> (s: String)
    ensures
        s@ == base64_standard(bytes@),
{
    base64::engine::general_purpose::STANDARD.encode(bytes)
}

#[verifier::external_type_specification]
#[verifier::external_body]
pub struct ExImageError(image::ImageError);

/// The PNG file that the `image` crate's `PngEncoder`, with its default
/// compression and filter, writes for an 8-bit RGBA image of the given size.
pub uninterp spec fn png_rgba8(pixels: Seq<u8>, width: u32, height: u32) -> Seq<u8>;

/// The text of the error that the PNG encoder gives for an image of zero
/// width or zero height (the png writer checks the width first).
pub open spec fn png_size_error_text(width: u32) -> Seq<char> {
    if width == 0 {
        "Zero width not allowed"@
    } else {
        "Zero height not allowed"@
    }
}

/// Calls `ImageEncoder::write_image` of a fresh `image::codecs::png::PngEncoder`
/// writing into memory, with the color type `Rgba8`. It succeeds exactly
/// when the image is neither zero pixels wide nor zero pixels high (the png
/// writer refuses those sizes, and writing into a `Vec` does not fail); the
/// bytes written are then `png_rgba8` of the arguments. On failure it
/// returns the `ImageError` together with its `Display` text, which is the
/// png writer's message for the size it refused (carried through an
/// `io::Error`). The encoder panics unless the buffer holds exactly
/// `width * height * 4` bytes, which `requires` rules out.
#[verifier::external_body]
fn encode_png_rgba8(pixels: &[u8], width: u32, height: u32) -> (r: Result<
    Vec<u8>,
    (image::ImageError, String),
>)
    requires
        pixels@.len() == width * height * 4,
    ensures
        r is Ok <==> (0 < width && 0 < height),
        r matches Ok(png) ==> png@ == png_rgba8(pixels@, width, height),
        r matches Err((_, text)) ==> text@ == png_size_error_text(width),
{
    let mut buf = std::io::Cursor::new(Vec::new());
    let encoder = image::codecs::png::PngEncoder::new(&mut buf);
    match encoder.write_image(pixels, width, height, image::ExtendedColorType::Rgba8) {
        Ok(()) => Ok(buf.into_inner()),
        Err(e) => {
            let text = format!("{}", e);
            Err((e, text))
        },
    }
}

/// The icon size asked for: the given one, 64 pixels by default.
pub fn icon_request_size(size: Option<u16>) -> (r: u16)
    ensures
        r == match size {
            Some(s) => s,
            None => 64u16,
        },
{
    match size {
        Some(s) => s,
        None => 64,
    }
}

/// A `data:` URI of the given media type holding `payload` in Base64.
pub open spec fn data_uri(mime: Seq<char>, payload: Seq<u8>) -> Seq<char> {
    "data:"@ + mime + ";base64,"@ + base64_standard(payload)
}

fn make_data_uri(mime: &str, payload: &[u8]) -> (s: String)
    ensures
        s@ == data_uri(mime@, payload@),
{
    let b64 = base64_encode(payload);
    let s = "data:".to_owned();
    let s = s.concat(mime);
    let s = s.concat(";base64,");
    s.concat(b64.as_str())
}

/// The prefix of the message for an icon that could not be encoded.
pub open spec fn png_error_prefix() -> Seq<char> {
    "PNG 编码失败: "@
}

/// The outcome of the icon request once the PNG encoding is done: the PNG as
/// a `data:image/png` URI, or the encoder's message behind `PNG 编码失败: `.
pub fn icon_data_uri_from(encoded: Result<Vec<u8>, String>) -> (r: Result<String, String>)
    ensures
        match encoded {
            Ok(png) => r matches Ok(uri) && uri@ == data_uri("image/png"@, png@),
            Err(detail) => r matches Err(m) && m@ == png_error_prefix() + detail@,
        },
{
    match encoded {
        Ok(png) => Ok(make_data_uri("image/png", png.as_slice())),
        Err(detail) => {
            let m = "PNG 编码失败: ".to_owned();
            Err(m.concat(detail.as_str()))
        },
    }
}

/// Encodes an icon of 8-bit RGBA pixels as PNG and returns it as a
/// `data:image/png` URI; an icon of zero width or height cannot be encoded,
/// and the result is then the encoder's message behind `PNG 编码失败: `.
pub fn file_icon_data_uri(pixels: &[u8], width: u32, height: u32) -> (r: Result<String, String>)
    requires
        pixels@.len() == width * height * 4,
    ensures
        r is Ok <==> (0 < width && 0 < height),
        match r {
            Ok(uri) => uri@ == data_uri("image/png"@, png_rgba8(pixels@, width, height)),
            Err(m) => m@ == png_error_prefix() + png_size_error_text(width),
        },
{
    let encoded = match encode_png_rgba8(pixels, width, height) {
        Ok(png) => Ok(png),
        Err((_, text)) => Err(text),
    };
    icon_data_uri_from(encoded)
}

/// The message when no wallpaper is set.
pub open spec fn no_wallpaper_message() -> Seq<char> {
    "未设置壁纸"@
}

/// The wallpaper path held in the zero-terminated UTF-16 buffer that the
/// system filled: the text before the first zero unit, or the message
/// `未设置壁纸` when that text is empty or the buffer holds no zero unit.
pub fn wallpaper_path(buf: &[u16]) -> (r: Result<String, String>)
    ensures
        match r {
            Ok(path) => terminated_len(buf@) > 0 && path@ == utf16_lossy(
                buf@.take(terminated_len(buf@)),
            ),
            Err(m) => terminated_len(buf@) == 0 && m@ == no_wallpaper_message(),
        },
{
    match terminated_text(buf) {
        Some(path) => Ok(path),
        None => Err("未设置壁纸".to_owned()),
    }
}

/// The lowercased extension of the wallpaper file, `jpg` when it has none.
pub open spec fn wallpaper_extension(file_name: Option<Seq<char>>) -> Seq<char> {
    lowercase(
        match file_name {
            Some(n) => match extension_of(n) {
                Some(e) => e,
                None => "jpg"@,
            },
            None => "jpg"@,
        },
    )
}

/// The media type of a wallpaper with the given lowercased extension.
pub open spec fn wallpaper_mime_for(ext: Seq<char>) -> Seq<char> {
    if ext == "png"@ {
        "image/png"@
    } else if ext == "bmp"@ {
        "image/bmp"@
    } else if ext == "gif"@ {
        "image/gif"@
    } else {
        "image/jpeg"@
    }
}

/// The media type of the wallpaper file named `file_name` (`None` when the
/// path has no file name).
pub fn wallpaper_mime(file_name: Option<&str>) -> (mime: String)
    ensures
        mime@ == wallpaper_mime_for(
            wallpaper_extension(
                match file_name {
                    Some(n) => Some(n@),
                    None => None,
                },
            ),
        ),
{
    let ext = match file_name {
        Some(n) => match file_extension(n) {
            Some(e) => e,
            None => "jpg".to_owned(),
        },
        None => "jpg".to_owned(),
    };
    let ext = to_lowercase(ext.as_str());
    if ext == "png".to_owned() {
        "image/png".to_owned()
    } else if ext == "bmp".to_owned() {
        "image/bmp".to_owned()
    } else if ext == "gif".to_owned() {
        "image/gif".to_owned()
    } else {
        "image/jpeg".to_owned()
    }
}

/// The wallpaper file's contents as a `data:` URI whose media type follows
/// the extension of the file that the Windows path `path` names.
pub fn wallpaper_data_uri(path: &str, bytes: &[u8]) -> (uri: String)
    ensures
        uri@ == data_uri(wallpaper_mime_for(wallpaper_extension(path_file_name_of(path@))), bytes@),
{
    let name = path_file_name(path);
    let mime = match &name {
        Some(n) => wallpaper_mime(Some(n.as_str())),
        None => wallpaper_mime(None),
    };
    make_data_uri(mime.as_str(), bytes)
}


/// The wallpaper's extension is the lowercased text after the last dot of
/// its file name, however many dots come before.
pub proof fn law_wallpaper_extension_after_last_dot(n: Seq<char>, e: Seq<char>)
    requires
        n.len() > 0,
        lacks_char(e, '.'),
        !(n == seq!['.'] && e.len() == 0),
    ensures
        wallpaper_extension(Some(n + seq!['.'] + e)) == lowercase(e),
{
    law_extension_after_last_dot(n, e);
}

/// A wallpaper whose file name has no dot after its first character, or
/// whose path names no file, is taken for a `jpg`.
pub proof fn law_wallpaper_extension_defaults_to_jpg(name: Option<Seq<char>>)
    requires
        name matches Some(n) ==> forall|i: int| 1 <= i < n.len() ==> n[i] != '.',
    ensures
        wallpaper_extension(name) == lowercase("jpg"@),
{
    if let Some(n) = name {
        law_no_extension_without_inner_dot(n);
    }
}

/// The media type of the wallpaper at `dir\name.ext` follows the lowercased
/// `ext` after the last dot of the file name, and the URI carries the
/// file's bytes in Base64.
pub proof fn law_wallpaper_type_follows_extension(
    dir: Seq<char>,
    stem: Seq<char>,
    ext: Seq<char>,
    bytes: Seq<u8>,
)
    requires
        dir.len() == 0 || (dir[0] != '\\' && dir[0] != '/'),
        stem.len() > 0,
        lacks_separators(stem),
        lacks_separators(ext),
        lacks_char(ext, '.'),
        stem != seq!['.'],
    ensures
        data_uri(
            wallpaper_mime_for(
                wallpaper_extension(path_file_name_of(dir + seq!['\\'] + (stem + seq!['.'] + ext))),
            ),
            bytes,
        ) == "data:"@ + wallpaper_mime_for(lowercase(ext)) + ";base64,"@ + base64_standard(
            bytes,
        ),
{
    let name = stem + seq!['.'] + ext;
    assert forall|i: int| 0 <= i < name.len() implies name[i] != '\\' && name[i] != '/' by {
        if i < stem.len() {
            assert(name[i] == stem[i]);
        } else if i > stem.len() {
            assert(name[i] == ext[i - stem.len() - 1]);
        }
    }
    if name == seq!['.'] {
        assert(name.len() == 1);
    }
    if name == seq!['.', '.'] {
        assert(name.len() == 2);
        assert(stem.len() == 1 && ext.len() == 0);
        assert(stem[0] == name[0]);
        assert(stem =~= seq!['.']);
    }
    law_file_name_is_last_component(dir, name);
    law_extension_after_last_dot(stem, ext);
}

} // verus!
