//! Command-line value parsing, device choice and errors.
//!
//! The value parsers reject anything the transforms cannot represent (such as
//! a rotation that is not a multiple of 90 degrees) before a configuration is
//! built.
use crate::capture::{capture_error_text, device_views, CaptureError, DeviceInfo, DeviceInfoView};
use crate::pipeline::{pipeline_error_text, PipelineError};
use crate::publish::{publish_error_text, PublishError};
use crate::selector::{resolution, select_error_text, DeviceSelector, DeviceSelectorView, SelectError};
use crate::text::{
    append, append_u64, chars_of, decimal, equals_str, is_ascii_digit, owned, parse_u32_chars,
    parses_as_u32, split_first, split_once, string_of, trim, trim_drops_white_space_at_either_end,
    trim_keeps_text_without_white_space_at_ends, trimmed, unicode_white_space,
};
use crate::transform::config::{CropRect, Flip, Rotation, ScaleSize};
use vstd::prelude::*;

verus! {

/// Whether an exec result carries the same value or message as its model.
pub open spec fn same_outcome<T>(result: Result<T, String>, model: Result<T, Seq<char>>) -> bool {
    match (result, model) {
        (Ok(a), Ok(b)) => a == b,
        (Err(a), Err(b)) => a@ == b,
        _ => false,
    }
}

// ---------------------------------------------------------------------------
// Rotation, flip, fps
// ---------------------------------------------------------------------------
pub open spec fn rotation_outcome(input: Seq<char>) -> Result<Rotation, Seq<char>> {
    if input == "0"@ {
        Ok(Rotation::R0)
    } else if input == "90"@ {
        Ok(Rotation::R90)
    } else if input == "180"@ {
        Ok(Rotation::R180)
    } else if input == "270"@ {
        Ok(Rotation::R270)
    } else {
        Err("invalid rotation \""@ + input + "\" (expected one of: 0, 90, 180, 270)"@)
    }
}

pub fn parse_rotation(input: &str) -> (result: Result<Rotation, String>)
    ensures
        same_outcome(result, rotation_outcome(input@)),
{
    let chars = chars_of(input);
    if equals_str(&chars, "0") {
        Ok(Rotation::R0)
    } else if equals_str(&chars, "90") {
        Ok(Rotation::R90)
    } else if equals_str(&chars, "180") {
        Ok(Rotation::R180)
    } else if equals_str(&chars, "270") {
        Ok(Rotation::R270)
    } else {
        let mut message = String::new();
        append(&mut message, "invalid rotation \"");
        append(&mut message, input);
        append(&mut message, "\" (expected one of: 0, 90, 180, 270)");
        proof {
            assert(message@ =~= "invalid rotation \""@ + input@
                + "\" (expected one of: 0, 90, 180, 270)"@);
        }
        Err(message)
    }
}

pub open spec fn flip_outcome(input: Seq<char>) -> Result<Flip, Seq<char>> {
    if input == "h"@ {
        Ok(Flip::Horizontal)
    } else if input == "v"@ {
        Ok(Flip::Vertical)
    } else if input == "hv"@ {
        Ok(Flip::Both)
    } else {
        Err("invalid flip \""@ + input + "\" (expected one of: h, v, hv)"@)
    }
}

pub fn parse_flip(input: &str) -> (result: Result<Flip, String>)
    ensures
        same_outcome(result, flip_outcome(input@)),
{
    let chars = chars_of(input);
    if equals_str(&chars, "h") {
        Ok(Flip::Horizontal)
    } else if equals_str(&chars, "v") {
        Ok(Flip::Vertical)
    } else if equals_str(&chars, "hv") {
        Ok(Flip::Both)
    } else {
        let mut message = String::new();
        append(&mut message, "invalid flip \"");
        append(&mut message, input);
        append(&mut message, "\" (expected one of: h, v, hv)");
        proof {
            assert(message@ =~= "invalid flip \""@ + input@ + "\" (expected one of: h, v, hv)"@);
        }
        Err(message)
    }
}

pub open spec fn fps_outcome(input: Seq<char>) -> Result<u32, Seq<char>> {
    match parses_as_u32(input) {
        None => Err("invalid fps \""@ + input + "\" (expected a positive integer)"@),
        Some(fps) => if fps == 0 {
            Err("invalid fps \"0\" (must be greater than 0)"@)
        } else {
            Ok(fps)
        },
    }
}

pub fn parse_fps(input: &str) -> (result: Result<u32, String>)
    ensures
        same_outcome(result, fps_outcome(input@)),
{
    let chars = chars_of(input);
    let fps = match parse_u32_chars(&chars) {
        Some(fps) => fps,
        None => {
            let mut message = String::new();
            append(&mut message, "invalid fps \"");
            append(&mut message, input);
            append(&mut message, "\" (expected a positive integer)");
            proof {
                assert(message@ =~= "invalid fps \""@ + input@
                    + "\" (expected a positive integer)"@);
            }
            return Err(message);
        },
    };
    if fps == 0 {
        return Err(owned("invalid fps \"0\" (must be greater than 0)"));
    }
    Ok(fps)
}

// ---------------------------------------------------------------------------
// Crop and scale
// ---------------------------------------------------------------------------
pub open spec fn crop_format_error_text(input: Seq<char>) -> Seq<char> {
    "invalid crop \""@ + input + "\" (expected format WxH+X+Y, e.g. 1280x720+320+180)"@
}

pub fn crop_format_error(input: &str) -> (message: String)
    ensures
        message@ == crop_format_error_text(input@),
{
    let mut message = String::new();
    append(&mut message, "invalid crop \"");
    append(&mut message, input);
    append(&mut message, "\" (expected format WxH+X+Y, e.g. 1280x720+320+180)");
    proof {
        assert(message@ =~= crop_format_error_text(input@));
    }
    message
}

/// `WxH+X+Y`, each number as `str::parse::<u32>` reads it, with a non-zero
/// width and height.
pub open spec fn crop_outcome(input: Seq<char>) -> Result<CropRect, Seq<char>> {
    match split_first(input, '+') {
        None => Err(crop_format_error_text(input)),
        Some((size, coords)) => match split_first(size, 'x') {
            None => Err(crop_format_error_text(input)),
            Some((w, h)) => match (parses_as_u32(w), parses_as_u32(h)) {
                (Some(width), Some(height)) => match split_first(coords, '+') {
                    None => Err(crop_format_error_text(input)),
                    Some((xs, ys)) => match (parses_as_u32(xs), parses_as_u32(ys)) {
                        (Some(x), Some(y)) => if width == 0 || height == 0 {
                            Err(
                                "crop dimensions must be non-zero (got "@ + decimal(width as nat)
                                    + "x"@ + decimal(height as nat) + ")"@,
                            )
                        } else {
                            Ok(CropRect { width, height, x, y })
                        },
                        _ => Err(crop_format_error_text(input)),
                    },
                },
                _ => Err(crop_format_error_text(input)),
            },
        },
    }
}

/// `"<prefix>WxH)"` for the zero-size messages.
fn zero_size_message(prefix: &str, width: u32, height: u32) -> (message: String)
    ensures
        message@ == prefix@ + decimal(width as nat) + "x"@ + decimal(height as nat) + ")"@,
{
    let mut message = String::new();
    append(&mut message, prefix);
    append_u64(&mut message, width as u64);
    append(&mut message, "x");
    append_u64(&mut message, height as u64);
    append(&mut message, ")");
    proof {
        assert(message@ =~= prefix@ + decimal(width as nat) + "x"@ + decimal(height as nat) + ")"@);
    }
    message
}

pub fn parse_crop(input: &str) -> (result: Result<CropRect, String>)
    ensures
        same_outcome(result, crop_outcome(input@)),
{
    let chars = chars_of(input);
    let Some((size, coords)) = split_once(&chars, '+') else {
        return Err(crop_format_error(input));
    };
    let Some((width, height)) = split_once(&size, 'x') else {
        return Err(crop_format_error(input));
    };
    let Some(width) = parse_u32_chars(&width) else {
        return Err(crop_format_error(input));
    };
    let Some(height) = parse_u32_chars(&height) else {
        return Err(crop_format_error(input));
    };
    let Some((x, y)) = split_once(&coords, '+') else {
        return Err(crop_format_error(input));
    };
    let Some(x) = parse_u32_chars(&x) else {
        return Err(crop_format_error(input));
    };
    let Some(y) = parse_u32_chars(&y) else {
        return Err(crop_format_error(input));
    };
    if width == 0 || height == 0 {
        return Err(zero_size_message("crop dimensions must be non-zero (got ", width, height));
    }
    Ok(CropRect { width, height, x, y })
}

pub open spec fn scale_format_error_text(input: Seq<char>) -> Seq<char> {
    "invalid scale \""@ + input + "\" (expected WxH or a positive factor, e.g. 960x540 or 0.5)"@
}

pub fn scale_format_error(input: &str) -> (message: String)
    ensures
        message@ == scale_format_error_text(input@),
{
    let mut message = String::new();
    append(&mut message, "invalid scale \"");
    append(&mut message, input);
    append(&mut message, "\" (expected WxH or a positive factor, e.g. 960x540 or 0.5)");
    proof {
        assert(message@ =~= scale_format_error_text(input@));
    }
    message
}

/// The `WxH` form of a scale value: `None` when the input has no `x` (it is
/// then a factor), else the size or the message rejecting it.
pub open spec fn scale_size_outcome(input: Seq<char>) -> Option<Result<ScaleSize, Seq<char>>> {
    match split_first(input, 'x') {
        None => None,
        Some((w, h)) => Some(
            match (parses_as_u32(w), parses_as_u32(h)) {
                (Some(width), Some(height)) => if width == 0 || height == 0 {
                    Err(
                        "scale dimensions must be non-zero (got "@ + decimal(width as nat) + "x"@
                            + decimal(height as nat) + ")"@,
                    )
                } else {
                    Ok(ScaleSize { width, height })
                },
                _ => Err(scale_format_error_text(input)),
            },
        ),
    }
}

pub fn parse_scale_size(input: &str) -> (result: Option<Result<ScaleSize, String>>)
    ensures
        match (result, scale_size_outcome(input@)) {
            (None, None) => true,
            (Some(r), Some(m)) => same_outcome(r, m),
            _ => false,
        },
{
    let chars = chars_of(input);
    let Some((width, height)) = split_once(&chars, 'x') else {
        return None;
    };
    let Some(width) = parse_u32_chars(&width) else {
        return Some(Err(scale_format_error(input)));
    };
    let Some(height) = parse_u32_chars(&height) else {
        return Some(Err(scale_format_error(input)));
    };
    if width == 0 || height == 0 {
        return Some(
            Err(zero_size_message("scale dimensions must be non-zero (got ", width, height)),
        );
    }
    Some(Ok(ScaleSize { width, height }))
}

// ---------------------------------------------------------------------------
// Device choice
// ---------------------------------------------------------------------------
/// How typed or positional input selects a device: all-digit input that fits
/// in `u32` is an index; anything else (a name, a pasted id) is a query. The
/// input is trimmed first.
pub open spec fn device_selector_for(input: Seq<char>) -> DeviceSelectorView {
    let t = trimmed(input);
    if t.len() > 0 && (forall|k: int| 0 <= k < t.len() ==> is_ascii_digit(#[trigger] t[k]))
        && parses_as_u32(t) is Some {
        DeviceSelectorView::Index(parses_as_u32(t)->0)
    } else {
        DeviceSelectorView::Query(t)
    }
}

pub fn parse_device(input: &str) -> (selector: DeviceSelector)
    ensures
        selector@ == device_selector_for(input@),
{
    let trimmed_chars = trim(input);
    let n = trimmed_chars.len();
    let mut all_digits = n > 0;
    let mut i: usize = 0;
    while i < n
        invariant
            n == trimmed_chars@.len(),
            i <= n,
            all_digits == (n > 0 && forall|k: int| 0 <= k < i ==> is_ascii_digit(
                #[trigger] trimmed_chars@[k],
            )),
        decreases n - i,
    {
        let c = trimmed_chars[i];
        if !('0' <= c && c <= '9') {
            all_digits = false;
        }
        i = i + 1;
    }
    if all_digits {
        if let Some(index) = parse_u32_chars(&trimmed_chars) {
            return DeviceSelector::Index(index);
        }
    }
    DeviceSelector::Query(string_of(trimmed_chars.as_slice()))
}

/// A line typed at the prompt selects the same device with or without the
/// line ending that reading it leaves on: a trailing `\n`, `\r\n`, or any other
/// Unicode white-space character at either end changes nothing, so typing `1`
/// selects index 1.
pub proof fn typed_line_ending_is_ignored(s: Seq<char>, c: char)
    requires
        unicode_white_space(c),
    ensures
        device_selector_for(s.push('\n')) == device_selector_for(s),
        device_selector_for(s.push('\r').push('\n')) == device_selector_for(s),
        device_selector_for(s.push(c)) == device_selector_for(s),
        device_selector_for(seq![c] + s) == device_selector_for(s),
{
    trim_drops_white_space_at_either_end(s, c);
    trim_drops_white_space_at_either_end(s, '\n');
    trim_drops_white_space_at_either_end(s, '\r');
    trim_drops_white_space_at_either_end(s.push('\r'), '\n');
}

/// Digits typed at the prompt select by index: an all-digit line that fits in
/// `u32`, with its line ending, selects the index it spells.
pub proof fn typed_digits_select_by_index(s: Seq<char>)
    requires
        s.len() > 0,
        forall|k: int| 0 <= k < s.len() ==> is_ascii_digit(#[trigger] s[k]),
        parses_as_u32(s) is Some,
    ensures
        device_selector_for(s.push('\n')) == DeviceSelectorView::Index(parses_as_u32(s)->0),
{
    typed_line_ending_is_ignored(s, '\n');
    assert(is_ascii_digit(s[0]) && is_ascii_digit(s[s.len() - 1]));
    trim_keeps_text_without_white_space_at_ends(s);
}

#[derive(Debug, PartialEq, Eq)]
pub enum DeviceResolution {
    Device(DeviceInfo),
    NeedsPrompt,
}

#[derive(Debug)]
pub enum CliError {
    Capture(CaptureError),
    Publish(PublishError),
    Pipeline(PipelineError),
    Select(SelectError),
    NonInteractive,
    SelectionCancelled,
    UnsupportedPlatform,
}

/// The message of a CLI error.
pub open spec fn cli_error_text(e: CliError) -> Seq<char> {
    match e {
        CliError::Capture(c) => capture_error_text(c),
        CliError::Publish(p) => publish_error_text(p),
        CliError::Pipeline(p) => pipeline_error_text(p),
        CliError::Select(s) => select_error_text(s@),
        CliError::NonInteractive => "no device specified and stdin is not a TTY"@,
        CliError::SelectionCancelled => "device selection cancelled"@,
        CliError::UnsupportedPlatform => "Syphon/Spout publishing is not supported on this platform"@,
    }
}

impl CliError {
    pub fn message(&self) -> (text: String)
        ensures
            text@ == cli_error_text(*self),
    {
        match self {
            CliError::Capture(c) => c.message(),
            CliError::Publish(p) => p.message(),
            CliError::Pipeline(p) => p.message(),
            CliError::Select(s) => s.message(),
            CliError::NonInteractive => owned("no device specified and stdin is not a TTY"),
            CliError::SelectionCancelled => owned("device selection cancelled"),
            CliError::UnsupportedPlatform => owned(
                "Syphon/Spout publishing is not supported on this platform",
            ),
        }
    }
}

/// Picks the device the CLI will open: the one `requested` names, a prompt
/// when nothing was requested on an interactive terminal, else an error.
pub fn resolve_device(requested: Option<&str>, available: &[DeviceInfo], interactive: bool) -> (result:
    Result<DeviceResolution, CliError>)
    ensures
        match requested {
            None => if interactive {
                result == Ok::<DeviceResolution, CliError>(DeviceResolution::NeedsPrompt)
            } else {
                result matches Err(CliError::NonInteractive)
            },
            Some(text) => match resolution(device_selector_for(text@), device_views(available@)) {
                Ok(p) => result matches Ok(DeviceResolution::Device(d)) && d == available@[p],
                Err(e) => result matches Err(CliError::Select(s)) && s@ == e,
            },
        },
{
    let Some(text) = requested else {
        if interactive {
            return Ok(DeviceResolution::NeedsPrompt);
        }
        return Err(CliError::NonInteractive);
    };
    match parse_device(text).resolve(available) {
        Ok(device) => Ok(DeviceResolution::Device(device.clone())),
        Err(error) => Err(CliError::Select(error)),
    }
}

} // verus!
