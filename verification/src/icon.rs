//! Decoding the tray icon from PNG bytes.
use crate::text::{append, owned};
use vstd::prelude::*;

verus! {

/// The first frame of a PNG as the decoder delivers it: the output buffer,
/// the frame's size, its colour type and bit depth as PNG codes them, and how
/// many leading bytes of the buffer the frame fills.
pub struct PngFrame {
    pub buffer: Vec<u8>,
    pub width: u32,
    pub height: u32,
    pub color_type: u8,
    pub bit_depth: u8,
    pub frame_len: usize,
}

impl View for PngFrame {
    type V = (Seq<u8>, u32, u32, u8, u8, usize);

    open spec fn view(&self) -> Self::V {
        (self.buffer@, self.width, self.height, self.color_type, self.bit_depth, self.frame_len)
    }
}

/// What the `png` crate decodes from `bytes` on a target whose buffers may
/// hold at most `address_limit` bytes (`isize::MAX`; a frame whose output
/// would not fit is refused): the first frame, or the message of the decoding
/// error.
pub uninterp spec fn png_first_frame(bytes: Seq<u8>, address_limit: int) -> Result<
    (Seq<u8>, u32, u32, u8, u8, usize),
    Seq<char>,
>;

/// Decodes the first frame of `bytes` with the `png` crate: `Decoder::new`
/// over the bytes, `Reader::read_info`, a zeroed buffer of
/// `Reader::output_buffer_size` bytes (none when that is unknown), then
/// `Reader::next_frame`. The result, or the error's message, is named
/// `png_first_frame(bytes@, isize::MAX)`: the decoder compares the output size
/// with `isize::MAX`, so the target enters the result. Nothing more is claimed
/// of it.
#[verifier::external_body]
fn decode_png(bytes: &[u8]) -> (decoded: Result<PngFrame, String>)
    ensures
        match (decoded, png_first_frame(bytes@, isize::MAX as int)) {
            (Ok(frame), Ok(v)) => frame@ == v,
            (Err(e), Err(m)) => e@ == m,
            _ => false,
        },
{
    let mut reader = match png::Decoder::new(std::io::Cursor::new(bytes)).read_info() {
        Ok(reader) => reader,
        Err(error) => return Err(error.to_string()),
    };
    let mut buffer = vec![0u8; reader.output_buffer_size().unwrap_or(0)];
    let info = match reader.next_frame(&mut buffer) {
        Ok(info) => info,
        Err(error) => return Err(error.to_string()),
    };
    let (color_type, bit_depth) = (info.color_type as u8, info.bit_depth as u8);
    Ok(PngFrame { buffer, width: info.width, height: info.height, color_type, bit_depth, frame_len: info.buffer_size() })
}

/// The PNG code of the RGBA colour type.
pub const PNG_RGBA: u8 = 6;

/// A decoded RGBA image of `width` by `height` pixels.
#[derive(Debug, PartialEq, Eq)]
pub struct DecodedIcon {
    pub rgba: Vec<u8>,
    pub width: u32,
    pub height: u32,
}

#[derive(Debug, PartialEq, Eq)]
pub enum TrayError {
    /// The bytes are not a PNG the decoder reads; the decoder's message.
    Png(String),
    /// A PNG that is not 8-bit RGBA.
    UnexpectedFormat,
}

/// The message of a tray error.
pub open spec fn tray_error_text(e: TrayError) -> Seq<char> {
    match e {
        TrayError::Png(message) => message@,
        TrayError::UnexpectedFormat => "tray icon PNG is not 8-bit RGBA"@,
    }
}

impl TrayError {
    pub fn message(&self) -> (text: String)
        ensures
            text@ == tray_error_text(*self),
    {
        match self {
            TrayError::Png(message) => {
                let mut text = String::new();
                append(&mut text, message.as_str());
                proof {
                    assert(text@ =~= message@);
                }
                text
            },
            TrayError::UnexpectedFormat => owned("tray icon PNG is not 8-bit RGBA"),
        }
    }
}

/// The icon a decoded PNG frame gives: its pixels when it is 8-bit RGBA (the
/// buffer cut to the bytes the frame fills), else an error; a decoding
/// failure is passed on.
pub fn icon_from_png(decoded: Result<PngFrame, String>) -> (icon: Result<DecodedIcon, TrayError>)
    ensures
        match decoded {
            Err(message) => icon == Err::<DecodedIcon, TrayError>(TrayError::Png(message)),
            Ok(frame) => if frame.color_type == PNG_RGBA && frame.bit_depth == 8 {
                icon matches Ok(i) && i.rgba@ == frame.buffer@.take(
                    if frame.frame_len <= frame.buffer@.len() {
                        frame.frame_len as int
                    } else {
                        frame.buffer@.len() as int
                    },
                ) && i.width == frame.width && i.height == frame.height
            } else {
                icon == Err::<DecodedIcon, TrayError>(TrayError::UnexpectedFormat)
            },
        },
{
    match decoded {
        Err(message) => Err(TrayError::Png(message)),
        Ok(frame) => {
            if frame.color_type != PNG_RGBA || frame.bit_depth != 8 {
                return Err(TrayError::UnexpectedFormat);
            }
            let mut rgba = frame.buffer;
            rgba.truncate(frame.frame_len);
            Ok(DecodedIcon { rgba, width: frame.width, height: frame.height })
        },
    }
}

/// Decodes `bytes` as a PNG into raw RGBA, refusing any format but 8-bit
/// RGBA. The decoding is the `png` crate's.
pub fn decode_icon(bytes: &[u8]) -> (icon: Result<DecodedIcon, TrayError>)
    ensures
        match png_first_frame(bytes@, isize::MAX as int) {
            Err(message) => icon matches Err(TrayError::Png(m)) && m@ == message,
            Ok((buffer, width, height, color_type, bit_depth, frame_len)) => if color_type
                == PNG_RGBA && bit_depth == 8 {
                icon matches Ok(i) && i.rgba@ == buffer.take(
                    if frame_len <= buffer.len() {
                        frame_len as int
                    } else {
                        buffer.len() as int
                    },
                ) && i.width == width && i.height == height
            } else {
                icon == Err::<DecodedIcon, TrayError>(TrayError::UnexpectedFormat)
            },
        },
{
    icon_from_png(decode_png(bytes))
}

} // verus!
