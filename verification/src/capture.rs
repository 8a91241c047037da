//! Capture-device records and the pure decisions behind opening a camera.
use crate::frame::{frame_error_text, Frame, FrameError};
use crate::selector::{device_line, device_line_text, DeviceId};
use crate::text::{append, owned, trimmed};
use vstd::prelude::*;

verus! {

/// A source of frames, such as a camera.
pub trait CaptureSource {
    fn next_frame(&mut self) -> Result<Frame, CaptureError>;
}

#[derive(Debug, PartialEq, Eq)]
pub struct DeviceInfo {
    pub index: u32,
    pub name: String,
    pub id: Option<DeviceId>,
}

/// Model of a `DeviceInfo`.
pub struct DeviceInfoView {
    pub index: u32,
    pub name: Seq<char>,
    pub id: Option<Seq<char>>,
}

impl View for DeviceInfo {
    type V = DeviceInfoView;

    open spec fn view(&self) -> DeviceInfoView {
        DeviceInfoView {
            index: self.index,
            name: self.name@,
            id: match self.id {
                Some(id) => Some(id@),
                None => None,
            },
        }
    }
}

/// Models of every device, in order.
pub open spec fn device_views(devices: Seq<DeviceInfo>) -> Seq<DeviceInfoView> {
    devices.map_values(|d: DeviceInfo| d@)
}

impl Clone for DeviceInfo {
    fn clone(&self) -> (copy: Self)
        ensures
            copy == *self,
    {
        let id = match &self.id {
            Some(id) => Some(id.clone()),
            None => None,
        };
        DeviceInfo { index: self.index, name: self.name.clone(), id }
    }
}

#[derive(Debug, PartialEq, Eq)]
pub enum CaptureError {
    NoDevices,
    OpenFailed { device: String, reason: String },
    FrameRead { reason: String },
    FormatUnsupported { format: String },
    QueryFailed { reason: String },
}

/// The message of a capture error.
pub open spec fn capture_error_text(e: CaptureError) -> Seq<char> {
    match e {
        CaptureError::NoDevices => "no capture devices found"@,
        CaptureError::OpenFailed { device, reason } => "failed to open device "@ + device@ + ": "@
            + reason@,
        CaptureError::FrameRead { reason } => "failed to read frame: "@ + reason@,
        CaptureError::FormatUnsupported { format } => "unsupported camera pixel format: "@
            + format@,
        CaptureError::QueryFailed { reason } => "failed to query devices: "@ + reason@,
    }
}

impl CaptureError {
    pub fn message(&self) -> (text: String)
        ensures
            text@ == capture_error_text(*self),
    {
        let mut text = String::new();
        match self {
            CaptureError::NoDevices => append(&mut text, "no capture devices found"),
            CaptureError::OpenFailed { device, reason } => {
                append(&mut text, "failed to open device ");
                append(&mut text, device.as_str());
                append(&mut text, ": ");
                append(&mut text, reason.as_str());
            },
            CaptureError::FrameRead { reason } => {
                append(&mut text, "failed to read frame: ");
                append(&mut text, reason.as_str());
            },
            CaptureError::FormatUnsupported { format } => {
                append(&mut text, "unsupported camera pixel format: ");
                append(&mut text, format.as_str());
            },
            CaptureError::QueryFailed { reason } => {
                append(&mut text, "failed to query devices: ");
                append(&mut text, reason.as_str());
            },
        }
        proof {
            assert(text@ =~= capture_error_text(*self));
        }
        text
    }
}

/// The reason a device could not be opened, labelled with the device.
pub fn open_failed(device: &DeviceInfo, reason: String) -> (error: CaptureError)
    ensures
        error matches CaptureError::OpenFailed { device: label, reason: r } && label@
            == device_line_text(device@) && r == reason,
{
    CaptureError::OpenFailed { device: device_line(device), reason }
}

pub fn frame_read_failed(reason: String) -> (error: CaptureError)
    ensures
        error == (CaptureError::FrameRead { reason }),
{
    CaptureError::FrameRead { reason }
}

pub fn query_failed(reason: String) -> (error: CaptureError)
    ensures
        error == (CaptureError::QueryFailed { reason }),
{
    CaptureError::QueryFailed { reason }
}

// ---------------------------------------------------------------------------
// RGB8 to BGRA8
// ---------------------------------------------------------------------------
/// `a * b`, or `usize::MAX` when that overflows.
pub open spec fn saturating_product(a: int, b: int) -> int {
    if a * b > usize::MAX {
        usize::MAX as int
    } else {
        a * b
    }
}

fn saturating_mul(a: usize, b: usize) -> (p: usize)
    ensures
        p == saturating_product(a as int, b as int),
{
    match a.checked_mul(b) {
        Some(p) => p,
        None => usize::MAX,
    }
}

/// The number of whole pixels `rgb_to_bgra` converts.
pub open spec fn converted_pixels(rgb_len: int, out_len: int) -> int {
    if rgb_len / 3 < out_len / 4 {
        rgb_len / 3
    } else {
        out_len / 4
    }
}

/// Converts tightly-packed RGB8 to tightly-packed BGRA8 with opaque alpha.
/// The output has room for `width * height` pixels; pixels the input does not
/// cover stay zero.
pub fn rgb_to_bgra(rgb: &[u8], width: u32, height: u32) -> (bgra: Vec<u8>)
    ensures
        bgra@.len() == saturating_product(saturating_product(width as int, height as int), 4),
        forall|p: int|
            0 <= p < converted_pixels(rgb@.len() as int, bgra@.len() as int) ==> {
                &&& #[trigger] bgra@[4 * p] == rgb@[3 * p + 2]
                &&& bgra@[4 * p + 1] == rgb@[3 * p + 1]
                &&& bgra@[4 * p + 2] == rgb@[3 * p]
                &&& bgra@[4 * p + 3] == 255
            },
        forall|k: int|
            4 * converted_pixels(rgb@.len() as int, bgra@.len() as int) <= k < bgra@.len()
                ==> #[trigger] bgra@[k] == 0,
{
    let pixel_count = saturating_mul(width as usize, height as usize);
    let len = saturating_mul(pixel_count, 4);
    let mut bgra: Vec<u8> = vec![0u8; len];
    let n = if rgb.len() / 3 < len / 4 {
        rgb.len() / 3
    } else {
        len / 4
    };
    let mut p: usize = 0;
    while p < n
        invariant
            p <= n,
            n == converted_pixels(rgb@.len() as int, len as int),
            bgra@.len() == len,
            n * 3 <= rgb@.len(),
            n * 4 <= len,
            forall|q: int|
                0 <= q < p ==> {
                    &&& #[trigger] bgra@[4 * q] == rgb@[3 * q + 2]
                    &&& bgra@[4 * q + 1] == rgb@[3 * q + 1]
                    &&& bgra@[4 * q + 2] == rgb@[3 * q]
                    &&& bgra@[4 * q + 3] == 255
                },
            forall|k: int| 4 * p <= k < len ==> #[trigger] bgra@[k] == 0,
        decreases n - p,
    {
        let src = 3 * p;
        let dst = 4 * p;
        let ghost before = bgra@;
        bgra.set(dst, rgb[src + 2]);
        bgra.set(dst + 1, rgb[src + 1]);
        bgra.set(dst + 2, rgb[src]);
        bgra.set(dst + 3, 255);
        proof {
            assert forall|q: int| 0 <= q < p + 1 implies {
                &&& #[trigger] bgra@[4 * q] == rgb@[3 * q + 2]
                &&& bgra@[4 * q + 1] == rgb@[3 * q + 1]
                &&& bgra@[4 * q + 2] == rgb@[3 * q]
                &&& bgra@[4 * q + 3] == 255
            } by {
                if q < p {
                    assert(before[4 * q] == rgb@[3 * q + 2]);
                    assert(before[4 * q + 1] == rgb@[3 * q + 1]);
                    assert(before[4 * q + 2] == rgb@[3 * q]);
                    assert(before[4 * q + 3] == 255);
                }
            }
        }
        p = p + 1;
    }
    bgra
}

/// The frame a camera delivered as tightly packed RGB of `width` by `height`
/// pixels, converted to BGRA with opaque alpha; bytes of pixels the input does
/// not cover are zero. Sizes that make no valid frame are a read failure
/// carrying the frame error's message.
pub fn frame_from_rgb(rgb: &[u8], width: u32, height: u32) -> (result: Result<Frame, CaptureError>)
    ensures
        width == 0 || height == 0 ==> (result matches Err(CaptureError::FrameRead { reason })
            && reason@ == frame_error_text(FrameError::ZeroDimension { width, height })),
        width > 0 && height > 0 && width * height * 4 <= usize::MAX ==> (result matches Ok(frame)
            && frame@.width == width && frame@.height == height && forall|p: int|
            0 <= p < converted_pixels(rgb@.len() as int, width * height * 4) ==> {
                &&& #[trigger] frame@.data[4 * p] == rgb@[3 * p + 2]
                &&& frame@.data[4 * p + 1] == rgb@[3 * p + 1]
                &&& frame@.data[4 * p + 2] == rgb@[3 * p]
                &&& frame@.data[4 * p + 3] == 255
            } && forall|k: int|
            4 * converted_pixels(rgb@.len() as int, width * height * 4) <= k < width * height * 4
                ==> #[trigger] frame@.data[k] == 0),
{
    let bgra = rgb_to_bgra(rgb, width, height);
    proof {
        if width > 0 && height > 0 && width * height * 4 <= usize::MAX {
            assert(width * height <= width * height * 4) by (nonlinear_arith)
                requires
                    width > 0,
                    height > 0,
            ;
            assert(saturating_product(width as int, height as int) == width * height);
            assert(bgra@.len() == width * height * 4);
        }
    }
    match Frame::new(width, height, bgra) {
        Ok(frame) => Ok(frame),
        Err(error) => Err(CaptureError::FrameRead { reason: error.message() }),
    }
}

// ---------------------------------------------------------------------------
// Device enumeration
// ---------------------------------------------------------------------------
/// What a camera backend reports of one device: its display name and its
/// backend-specific stable identifier (empty when it has none).
pub struct CameraEntry {
    pub human_name: String,
    pub misc: String,
}

/// The device at enumeration position `position`.
pub fn to_device_info(position: u32, info: &CameraEntry) -> (device: DeviceInfo)
    ensures
        device.index == position,
        device.name@ == info.human_name@,
        device.id is None <==> trimmed(info.misc@).len() == 0,
        device.id matches Some(id) ==> id@ == info.misc@,
{
    DeviceInfo {
        index: position,
        name: info.human_name.clone(),
        id: DeviceId::new(info.misc.as_str()),
    }
}

/// Numbers the entries by position; `NoDevices` when there are none.
pub fn devices_from(infos: Vec<CameraEntry>) -> (result: Result<Vec<DeviceInfo>, CaptureError>)
    ensures
        infos@.len() == 0 <==> result == Err::<Vec<DeviceInfo>, CaptureError>(CaptureError::NoDevices),
        result matches Ok(devices) ==> {
            &&& devices@.len() == infos@.len()
            &&& forall|p: int|
                0 <= p < devices@.len() ==> {
                    &&& #[trigger] devices@[p].index == (if p <= u32::MAX {
                        p
                    } else {
                        u32::MAX as int
                    })
                    &&& devices@[p].name@ == infos@[p].human_name@
                    &&& (devices@[p].id is None <==> trimmed(infos@[p].misc@).len() == 0)
                    &&& (devices@[p].id matches Some(id) ==> id@ == infos@[p].misc@)
                }
        },
{
    if infos.len() == 0 {
        return Err(CaptureError::NoDevices);
    }
    let mut devices: Vec<DeviceInfo> = Vec::new();
    let mut p: usize = 0;
    while p < infos.len()
        invariant
            p <= infos@.len(),
            devices@.len() == p,
            forall|q: int|
                0 <= q < p ==> {
                    &&& #[trigger] devices@[q].index == (if q <= u32::MAX {
                        q
                    } else {
                        u32::MAX as int
                    })
                    &&& devices@[q].name@ == infos@[q].human_name@
                    &&& (devices@[q].id is None <==> trimmed(infos@[q].misc@).len() == 0)
                    &&& (devices@[q].id matches Some(id) ==> id@ == infos@[q].misc@)
                },
        decreases infos@.len() - p,
    {
        let position: u32 = if p <= u32::MAX as usize {
            p as u32
        } else {
            u32::MAX
        };
        devices.push(to_device_info(position, &infos[p]));
        p = p + 1;
    }
    Ok(devices)
}

/// How a camera is addressed when opened.
#[derive(Debug, PartialEq, Eq)]
pub enum CameraIndex {
    Index(u32),
    String(String),
}

/// A device with a stable id is opened by that id, which survives index
/// reshuffles; one without falls back to its enumeration position.
pub fn camera_index(device: &DeviceInfo) -> (index: CameraIndex)
    ensures
        match device.id {
            Some(id) => index matches CameraIndex::String(s) && s@ == id@,
            None => index == CameraIndex::Index(device.index),
        },
{
    match &device.id {
        Some(id) => CameraIndex::String(owned(id.as_str())),
        None => CameraIndex::Index(device.index),
    }
}

// ---------------------------------------------------------------------------
// Format negotiation
// ---------------------------------------------------------------------------
/// How the camera is asked for a format when it is first opened.
#[derive(Debug, Clone, Copy, PartialEq, Eq, Structural)]
pub enum RequestedFormatType {
    /// The exact frame rate, at the highest resolution offering it.
    HighestFrameRate(u32),
    /// The highest resolution the camera offers.
    AbsoluteHighestResolution,
}

/// Ordered attempts for opening a camera: the exact fps first when one was
/// requested, then the highest resolution, so a camera lacking that exact fps
/// still opens.
pub fn format_candidates(requested_fps: Option<u32>) -> (candidates: Vec<RequestedFormatType>)
    ensures
        candidates@ == match requested_fps {
            Some(fps) => seq![
                RequestedFormatType::HighestFrameRate(fps),
                RequestedFormatType::AbsoluteHighestResolution,
            ],
            None => seq![RequestedFormatType::AbsoluteHighestResolution],
        },
{
    match requested_fps {
        Some(fps) => {
            let v = vec![
                RequestedFormatType::HighestFrameRate(fps),
                RequestedFormatType::AbsoluteHighestResolution,
            ];
            proof {
                assert(v@ =~= seq![
                    RequestedFormatType::HighestFrameRate(fps),
                    RequestedFormatType::AbsoluteHighestResolution,
                ]);
            }
            v
        },
        None => {
            let v = vec![RequestedFormatType::AbsoluteHighestResolution];
            proof {
                assert(v@ =~= seq![RequestedFormatType::AbsoluteHighestResolution]);
            }
            v
        },
    }
}

/// Pixel encodings a camera can deliver.
#[derive(Debug, Clone, Copy, PartialEq, Eq, Structural)]
pub enum FrameFormat {
    MJPEG,
    YUYV,
    NV12,
    GRAY,
    RAWRGB,
    RAWBGR,
}

/// One capture mode a camera offers.
#[derive(Debug, Clone, Copy, PartialEq, Eq, Structural)]
pub struct CameraFormat {
    pub width: u32,
    pub height: u32,
    pub format: FrameFormat,
    pub frame_rate: u32,
}

/// Largest width of an automatically chosen MJPEG mode.
pub const MAX_MJPEG_WIDTH: u32 = 1920;

/// Largest height of an automatically chosen MJPEG mode.
pub const MAX_MJPEG_HEIGHT: u32 = 1080;

pub open spec fn area(f: CameraFormat) -> int {
    f.width * f.height
}

pub open spec fn fps_distance(rate: u32, fps: u32) -> int {
    if rate >= fps {
        rate - fps
    } else {
        fps - rate
    }
}

/// MJPEG and within the size cap.
pub open spec fn eligible(f: CameraFormat, max_width: u32, max_height: u32) -> bool {
    f.format == FrameFormat::MJPEG && f.width <= max_width && f.height <= max_height
}

/// Whether `a` ranks at least as high as `b`: the higher frame rate (or, with a
/// requested fps, the closer one), then the larger area.
pub open spec fn ranks_at_least(a: CameraFormat, b: CameraFormat, requested_fps: Option<u32>) -> bool {
    match requested_fps {
        Some(fps) => fps_distance(a.frame_rate, fps) < fps_distance(b.frame_rate, fps) || (
        fps_distance(a.frame_rate, fps) == fps_distance(b.frame_rate, fps) && area(a) >= area(b)),
        None => a.frame_rate > b.frame_rate || (a.frame_rate == b.frame_rate && area(a) >= area(
            b,
        )),
    }
}

/// Position of the best eligible format among the first `n`; of several that
/// rank equally the last one wins.
pub open spec fn best_format(
    formats: Seq<CameraFormat>,
    requested_fps: Option<u32>,
    max_width: u32,
    max_height: u32,
    n: int,
) -> Option<int>
    decreases n,
{
    if n <= 0 {
        None
    } else {
        let previous = best_format(formats, requested_fps, max_width, max_height, n - 1);
        if !eligible(formats[n - 1], max_width, max_height) {
            previous
        } else {
            match previous {
                None => Some(n - 1),
                Some(j) => if ranks_at_least(formats[n - 1], formats[j], requested_fps) {
                    Some(n - 1)
                } else {
                    Some(j)
                },
            }
        }
    }
}

fn ranks_at_least_exec(a: &CameraFormat, b: &CameraFormat, requested_fps: Option<u32>) -> (r: bool)
    ensures
        r == ranks_at_least(*a, *b, requested_fps),
{
    proof {
        assert(a.width * a.height <= u32::MAX * u32::MAX) by (nonlinear_arith)
            requires
                a.width <= u32::MAX,
                a.height <= u32::MAX,
        ;
        assert(b.width * b.height <= u32::MAX * u32::MAX) by (nonlinear_arith)
            requires
                b.width <= u32::MAX,
                b.height <= u32::MAX,
        ;
    }
    let area_a = a.width as u64 * a.height as u64;
    let area_b = b.width as u64 * b.height as u64;
    match requested_fps {
        Some(fps) => {
            let da = if a.frame_rate >= fps {
                a.frame_rate - fps
            } else {
                fps - a.frame_rate
            };
            let db = if b.frame_rate >= fps {
                b.frame_rate - fps
            } else {
                fps - b.frame_rate
            };
            da < db || (da == db && area_a >= area_b)
        },
        None => a.frame_rate > b.frame_rate || (a.frame_rate == b.frame_rate && area_a >= area_b),
    }
}

/// Chooses the MJPEG mode within the size cap with the highest frame rate (or,
/// with `requested_fps`, the closest one), breaking ties on the larger area;
/// `None` when no MJPEG mode fits the cap.
pub fn select_mjpeg_format(
    formats: &[CameraFormat],
    requested_fps: Option<u32>,
    max_width: u32,
    max_height: u32,
) -> (chosen: Option<CameraFormat>)
    ensures
        chosen == match best_format(
            formats@,
            requested_fps,
            max_width,
            max_height,
            formats@.len() as int,
        ) {
            Some(i) => Some(formats@[i]),
            None => None,
        },
{
    let mut best: Option<usize> = None;
    let mut i: usize = 0;
    while i < formats.len()
        invariant
            i <= formats@.len(),
            match best_format(formats@, requested_fps, max_width, max_height, i as int) {
                Some(j) => best == Some(j as usize) && 0 <= j < i,
                None => best is None,
            },
        decreases formats@.len() - i,
    {
        let f = &formats[i];
        if f.format == FrameFormat::MJPEG && f.width <= max_width && f.height <= max_height {
            match best {
                None => {
                    best = Some(i);
                },
                Some(j) => {
                    if ranks_at_least_exec(f, &formats[j], requested_fps) {
                        best = Some(i);
                    }
                },
            }
        }
        i = i + 1;
    }
    match best {
        Some(j) => Some(formats[j]),
        None => None,
    }
}

proof fn lemma_ranking_order(a: CameraFormat, b: CameraFormat, c: CameraFormat, requested_fps: Option<u32>)
    ensures
        ranks_at_least(a, a, requested_fps),
        ranks_at_least(a, b, requested_fps) || ranks_at_least(b, a, requested_fps),
        ranks_at_least(a, b, requested_fps) && ranks_at_least(b, c, requested_fps) ==> ranks_at_least(
            a,
            c,
            requested_fps,
        ),
{
}

proof fn lemma_best_among_first(
    formats: Seq<CameraFormat>,
    requested_fps: Option<u32>,
    max_width: u32,
    max_height: u32,
    n: int,
)
    requires
        0 <= n <= formats.len(),
    ensures
        match best_format(formats, requested_fps, max_width, max_height, n) {
            Some(i) => {
                &&& 0 <= i < n
                &&& eligible(formats[i], max_width, max_height)
                &&& forall|k: int|
                    0 <= k < n && eligible(#[trigger] formats[k], max_width, max_height)
                        ==> ranks_at_least(formats[i], formats[k], requested_fps)
            },
            None => forall|k: int| 0 <= k < n ==> !eligible(#[trigger] formats[k], max_width, max_height),
        },
    decreases n,
{
    if n > 0 {
        lemma_best_among_first(formats, requested_fps, max_width, max_height, n - 1);
        let last = formats[n - 1];
        match best_format(formats, requested_fps, max_width, max_height, n - 1) {
            Some(j) => {
                assert forall|k: int|
                    0 <= k < n && eligible(#[trigger] formats[k], max_width, max_height)
                        implies ranks_at_least(
                        formats[best_format(formats, requested_fps, max_width, max_height, n)->0],
                        formats[k],
                        requested_fps,
                    ) by {
                    lemma_ranking_order(last, formats[j], formats[k], requested_fps);
                    lemma_ranking_order(formats[j], last, formats[k], requested_fps);
                    lemma_ranking_order(formats[k], last, formats[j], requested_fps);
                }
            },
            None => {
                if eligible(last, max_width, max_height) {
                    lemma_ranking_order(last, last, last, requested_fps);
                }
            },
        }
    }
}

/// The chosen mode is an MJPEG mode within the cap that ranks at least as
/// high as every such mode; nothing is chosen only when no mode qualifies.
pub proof fn chosen_format_is_best(
    formats: Seq<CameraFormat>,
    requested_fps: Option<u32>,
    max_width: u32,
    max_height: u32,
)
    ensures
        match best_format(formats, requested_fps, max_width, max_height, formats.len() as int) {
            Some(i) => {
                &&& 0 <= i < formats.len()
                &&& eligible(formats[i], max_width, max_height)
                &&& forall|k: int|
                    0 <= k < formats.len() && eligible(#[trigger] formats[k], max_width, max_height)
                        ==> ranks_at_least(formats[i], formats[k], requested_fps)
            },
            None => forall|k: int|
                0 <= k < formats.len() ==> !eligible(#[trigger] formats[k], max_width, max_height),
        },
{
    lemma_best_among_first(formats, requested_fps, max_width, max_height, formats.len() as int);
}

/// What opening a camera does next.
#[derive(Debug, PartialEq, Eq)]
pub enum OpenStep {
    /// Ask the camera for this format.
    Try(RequestedFormatType),
    /// Stop, reporting this error.
    GiveUp(CaptureError),
}

/// The first step of opening `device` with the given candidate formats: the
/// first candidate, or an error when there is none.
pub fn first_open_step(device: &DeviceInfo, candidates: &[RequestedFormatType]) -> (step: OpenStep)
    ensures
        candidates@.len() > 0 ==> step == OpenStep::Try(candidates@[0]),
        candidates@.len() == 0 ==> (step matches OpenStep::GiveUp(CaptureError::OpenFailed {
            device: label,
            reason,
        }) && label@ == device_line_text(device@) && reason@ == "no capture format candidates"@),
{
    if candidates.len() > 0 {
        OpenStep::Try(candidates[0])
    } else {
        OpenStep::GiveUp(open_failed(device, owned("no capture format candidates")))
    }
}

/// The step after candidate `failed` was refused for `reason`: the next
/// candidate, or, after the last, giving up with this refusal, since it
/// answers the most relaxed request.
pub fn next_open_step(
    device: &DeviceInfo,
    candidates: &[RequestedFormatType],
    failed: usize,
    reason: String,
) -> (step: OpenStep)
    ensures
        failed + 1 < candidates@.len() ==> step == OpenStep::Try(candidates@[failed + 1]),
        failed + 1 >= candidates@.len() ==> (step matches OpenStep::GiveUp(
            CaptureError::OpenFailed { device: label, reason: r },
        ) && label@ == device_line_text(device@) && r == reason),
{
    if failed < candidates.len() && failed + 1 < candidates.len() {
        OpenStep::Try(candidates[failed + 1])
    } else {
        OpenStep::GiveUp(open_failed(device, reason))
    }
}

/// The MJPEG mode to switch an opened camera to, if any: none when the camera
/// could not list its modes, else the best one within the size cap.
pub fn mjpeg_switch(formats: Option<Vec<CameraFormat>>, requested_fps: Option<u32>) -> (chosen:
    Option<CameraFormat>)
    ensures
        match formats {
            None => chosen is None,
            Some(fs) => chosen == match best_format(
                fs@,
                requested_fps,
                MAX_MJPEG_WIDTH,
                MAX_MJPEG_HEIGHT,
                fs@.len() as int,
            ) {
                Some(i) => Some(fs@[i]),
                None => None,
            },
        },
{
    match formats {
        None => None,
        Some(fs) => select_mjpeg_format(fs.as_slice(), requested_fps, MAX_MJPEG_WIDTH, MAX_MJPEG_HEIGHT),
    }
}

/// With a requested frame rate, a mode whose rate is strictly closer to the
/// request (by absolute difference, above or below it) ranks strictly above
/// the other, whatever the two areas; a mode at exactly the requested rate
/// therefore ranks strictly above every mode at another rate.
pub proof fn closer_rate_ranks_first(a: CameraFormat, b: CameraFormat, fps: u32)
    requires
        (if a.frame_rate >= fps {
            a.frame_rate - fps
        } else {
            fps - a.frame_rate
        }) < (if b.frame_rate >= fps {
            b.frame_rate - fps
        } else {
            fps - b.frame_rate
        }),
    ensures
        ranks_at_least(a, b, Some(fps)),
        !ranks_at_least(b, a, Some(fps)),
{
}

/// When a mode within the cap offers exactly the requested frame rate, the
/// chosen mode has that rate.
pub proof fn requested_rate_is_chosen_when_offered(
    formats: Seq<CameraFormat>,
    fps: u32,
    max_width: u32,
    max_height: u32,
)
    requires
        exists|k: int|
            0 <= k < formats.len() && eligible(#[trigger] formats[k], max_width, max_height)
                && formats[k].frame_rate == fps,
    ensures
        best_format(formats, Some(fps), max_width, max_height, formats.len() as int) matches Some(i)
            && formats[i].frame_rate == fps,
{
    chosen_format_is_best(formats, Some(fps), max_width, max_height);
    let k = choose|k: int|
        0 <= k < formats.len() && eligible(#[trigger] formats[k], max_width, max_height)
            && formats[k].frame_rate == fps;
    let i = best_format(formats, Some(fps), max_width, max_height, formats.len() as int)->0;
    if formats[i].frame_rate != fps {
        closer_rate_ranks_first(formats[k], formats[i], fps);
    }
}

/// Without a requested rate, a mode with a strictly higher frame rate ranks
/// strictly above the other, whatever the areas; at equal rates, or at equal
/// distance from a requested rate, a strictly larger area ranks strictly above.
pub proof fn ranking_prefers_rate_then_area(a: CameraFormat, b: CameraFormat, fps: u32)
    ensures
        a.frame_rate > b.frame_rate ==> ranks_at_least(a, b, None) && !ranks_at_least(b, a, None),
        a.frame_rate == b.frame_rate && a.width * a.height > b.width * b.height ==> {
            &&& ranks_at_least(a, b, None)
            &&& !ranks_at_least(b, a, None)
            &&& ranks_at_least(a, b, Some(fps))
            &&& !ranks_at_least(b, a, Some(fps))
        },
        a.frame_rate + b.frame_rate == 2 * fps && a.width * a.height > b.width * b.height ==> {
            &&& ranks_at_least(a, b, Some(fps))
            &&& !ranks_at_least(b, a, Some(fps))
        },
{
}

} // verus!
