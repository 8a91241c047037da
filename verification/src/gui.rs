//! Pure state logic of the desktop front end: persisted device choice, segmented
//! control indices, crop re-fitting, preview pixel order, the frame-rate meter
//! and the licenses filter.
use crate::capture::{device_views, DeviceInfo, DeviceInfoView};
use crate::text::{
    append, chars_of, contains, equals, has_substring, lowercase, occurs_at, owned, same_text,
    to_lowercase,
};
use crate::transform::config::{CropRect, Flip, Rotation, ScaleSize};
use vstd::prelude::*;

verus! {

// ---------------------------------------------------------------------------
// Persisted selection
// ---------------------------------------------------------------------------
/// The persisted part of the front end's state: the last selected device.
#[derive(Debug, Clone, PartialEq, Eq)]
pub struct GuiConfig {
    /// Stable id of the last selected device.
    pub device_id: Option<String>,
    /// Its display name when it was saved, used to name it when it is gone.
    pub device_name: Option<String>,
}

impl Default for GuiConfig {
    fn default() -> (config: Self)
        ensures
            config.device_id is None,
            config.device_name is None,
    {
        GuiConfig { device_id: None, device_name: None }
    }
}

/// Whether device `d` has the stable id `id`.
pub open spec fn has_id(d: DeviceInfoView, id: Seq<char>) -> bool {
    d.id == Some(id)
}

/// Position of the first device with id `id` at or after `from`.
pub open spec fn first_with_id(devices: Seq<DeviceInfoView>, id: Seq<char>, from: int) -> Option<int>
    decreases devices.len() - from,
{
    if from < 0 || from >= devices.len() {
        None
    } else if has_id(devices[from], id) {
        Some(from)
    } else {
        first_with_id(devices, id, from + 1)
    }
}

/// Finds the device whose stable id is `id`, wherever it now sits.
pub fn position_of_id(devices: &[DeviceInfo], id: &str) -> (position: Option<usize>)
    ensures
        match first_with_id(device_views(devices@), id@, 0) {
            Some(p) => position == Some(p as usize) && 0 <= p < devices@.len(),
            None => position is None,
        },
{
    let ghost views = device_views(devices@);
    let wanted = chars_of(id);
    let mut i: usize = 0;
    while i < devices.len()
        invariant
            i <= devices@.len(),
            views == device_views(devices@),
            views.len() == devices@.len(),
            wanted@ == id@,
            first_with_id(views, id@, 0) == first_with_id(views, id@, i as int),
        decreases devices@.len() - i,
    {
        let same = match &devices[i].id {
            Some(device_id) => {
                let have = chars_of(device_id.as_str());
                equals(&have, &wanted)
            },
            None => false,
        };
        proof {
            assert(views[i as int] == devices@[i as int]@);
        }
        if same {
            return Some(i);
        }
        i = i + 1;
    }
    None
}

pub open spec fn missing_camera_text(saved_name: Seq<char>, devices: Seq<DeviceInfoView>) -> Seq<char> {
    if devices.len() > 0 {
        "saved camera \""@ + saved_name + "\" is not connected \u{2014} using "@ + devices[0].name
    } else {
        "saved camera \""@ + saved_name + "\" is not connected"@
    }
}

pub fn missing_camera_banner(saved_name: &str, devices: &[DeviceInfo]) -> (banner: String)
    ensures
        banner@ == missing_camera_text(saved_name@, device_views(devices@)),
{
    let mut banner = String::new();
    append(&mut banner, "saved camera \"");
    append(&mut banner, saved_name);
    if devices.len() > 0 {
        append(&mut banner, "\" is not connected \u{2014} using ");
        append(&mut banner, devices[0].name.as_str());
    } else {
        append(&mut banner, "\" is not connected");
    }
    proof {
        assert(banner@ =~= missing_camera_text(saved_name@, device_views(devices@)));
    }
    banner
}

/// The characters of an optional string.
pub open spec fn opt_chars(s: Option<String>) -> Option<Seq<char>> {
    match s {
        Some(t) => Some(t@),
        None => None,
    }
}

/// The position to select after a restart and the banner to show, if any.
pub open spec fn restored(device_id: Option<Seq<char>>, device_name: Option<Seq<char>>, devices: Seq<
    DeviceInfoView,
>) -> (int, Option<Seq<char>>) {
    match device_id {
        None => (0, None),
        Some(id) => match first_with_id(devices, id, 0) {
            Some(p) => (p, None),
            None => (
                0,
                Some(
                    missing_camera_text(
                        match device_name {
                            Some(n) => n,
                            None => id,
                        },
                        devices,
                    ),
                ),
            ),
        },
    }
}

/// Restores the saved selection against a fresh device list: the saved
/// device wherever it now sits, else position 0 with a banner naming the
/// missing device.
pub fn restore_selection(config: &GuiConfig, devices: &[DeviceInfo]) -> (selection: (usize, Option<String>))
    ensures
        selection.0 == restored(
            opt_chars(config.device_id),
            opt_chars(config.device_name),
            device_views(devices@),
        ).0,
        match (selection.1, restored(
            opt_chars(config.device_id),
            opt_chars(config.device_name),
            device_views(devices@),
        ).1) {
            (Some(b), Some(t)) => b@ == t,
            (None, None) => true,
            _ => false,
        },
{
    let saved_id = match &config.device_id {
        Some(id) => id,
        None => return (0, None),
    };
    proof {
        assert(config.device_id == Some(*saved_id));
    }
    let saved_str = saved_id.as_str();
    let _ = devices.len();
    let found = position_of_id(devices, saved_str);
    if let Some(position) = found {
        proof {
            assert(opt_chars(config.device_id) == Some(saved_id@));
            assert(saved_str@ == saved_id@);
        }
        return (position, None);
    }
    let saved_name = match &config.device_name {
        Some(name) => name.as_str(),
        None => saved_id.as_str(),
    };
    (0, Some(missing_camera_banner(saved_name, devices)))
}

// ---------------------------------------------------------------------------
// Segmented controls
// ---------------------------------------------------------------------------
/// (h, v) toggle state to `Flip`.
pub fn flip_from_toggles(h: bool, v: bool) -> (flip: Flip)
    ensures
        flip == (if h && v {
            Flip::Both
        } else if h {
            Flip::Horizontal
        } else if v {
            Flip::Vertical
        } else {
            Flip::Keep
        }),
{
    match (h, v) {
        (false, false) => Flip::Keep,
        (true, false) => Flip::Horizontal,
        (false, true) => Flip::Vertical,
        (true, true) => Flip::Both,
    }
}

pub open spec fn rotation_index(rotation: Rotation) -> int {
    match rotation {
        Rotation::R0 => 0,
        Rotation::R90 => 1,
        Rotation::R180 => 2,
        Rotation::R270 => 3,
    }
}

/// `Rotation` to its cell in the `0 / 90 / 180 / 270` control.
pub fn rotation_segment_index(rotation: Rotation) -> (index: usize)
    ensures
        index == rotation_index(rotation),
{
    match rotation {
        Rotation::R0 => 0,
        Rotation::R90 => 1,
        Rotation::R180 => 2,
        Rotation::R270 => 3,
    }
}

/// A cell of the rotation control to its `Rotation`; any index past the last
/// cell is the last cell.
pub fn rotation_from_segment_index(index: usize) -> (rotation: Rotation)
    ensures
        rotation == (if index == 0 {
            Rotation::R0
        } else if index == 1 {
            Rotation::R90
        } else if index == 2 {
            Rotation::R180
        } else {
            Rotation::R270
        }),
{
    match index {
        0 => Rotation::R0,
        1 => Rotation::R90,
        2 => Rotation::R180,
        _ => Rotation::R270,
    }
}

pub open spec fn flip_index(h: bool, v: bool) -> int {
    if !h && !v {
        0
    } else if h && !v {
        1
    } else if !h && v {
        2
    } else {
        3
    }
}

/// (h, v) toggles to their cell in the `none / H / V / H+V` control.
pub fn flip_segment_index(h: bool, v: bool) -> (index: usize)
    ensures
        index == flip_index(h, v),
{
    match (h, v) {
        (false, false) => 0,
        (true, false) => 1,
        (false, true) => 2,
        (true, true) => 3,
    }
}

/// A cell of the flip control to its toggles; any index past the last cell is
/// H+V.
pub fn flip_from_segment_index(index: usize) -> (toggles: (bool, bool))
    ensures
        toggles == (if index == 0 {
            (false, false)
        } else if index == 1 {
            (true, false)
        } else if index == 2 {
            (false, true)
        } else {
            (true, true)
        }),
{
    match index {
        0 => (false, false),
        1 => (true, false),
        2 => (false, true),
        _ => (true, true),
    }
}

/// Every rotation comes back from its cell, and every cell from its rotation.
pub proof fn rotation_index_round_trip(rotation: Rotation, index: usize)
    ensures
        ({
            let i = rotation_index(rotation);
            (if i == 0 {
                Rotation::R0
            } else if i == 1 {
                Rotation::R90
            } else if i == 2 {
                Rotation::R180
            } else {
                Rotation::R270
            }) == rotation
        }),
        index < 4 ==> rotation_index(
            if index == 0 {
                Rotation::R0
            } else if index == 1 {
                Rotation::R90
            } else if index == 2 {
                Rotation::R180
            } else {
                Rotation::R270
            },
        ) == index,
{
}

/// Every toggle pair comes back from its cell, and every cell from its pair.
pub proof fn flip_index_round_trip(h: bool, v: bool, index: usize)
    ensures
        ({
            let i = flip_index(h, v);
            (if i == 0 {
                (false, false)
            } else if i == 1 {
                (true, false)
            } else if i == 2 {
                (false, true)
            } else {
                (true, true)
            }) == (h, v)
        }),
        index < 4 ==> ({
            let t = if index == 0 {
                (false, false)
            } else if index == 1 {
                (true, false)
            } else if index == 2 {
                (false, true)
            } else {
                (true, true)
            };
            flip_index(t.0, t.1) == index
        }),
{
}

// ---------------------------------------------------------------------------
// Crop re-fitting
// ---------------------------------------------------------------------------
pub open spec fn min(a: int, b: int) -> int {
    if a <= b {
        a
    } else {
        b
    }
}

/// `crop` shrunk to at most the frame and moved inside it; a zero width or
/// height grows to one pixel first.
pub open spec fn clamped(crop: CropRect, width: u32, height: u32) -> CropRect {
    let w = min(if crop.width == 0 { 1 } else { crop.width as int }, width as int);
    let h = min(if crop.height == 0 { 1 } else { crop.height as int }, height as int);
    CropRect {
        width: w as u32,
        height: h as u32,
        x: min(crop.x as int, width - w) as u32,
        y: min(crop.y as int, height - h) as u32,
    }
}

/// Clamps `crop` into a `width x height` frame.
pub fn clamp_rect(crop: CropRect, width: u32, height: u32) -> (rect: CropRect)
    ensures
        rect == clamped(crop, width, height),
{
    let w0 = if crop.width == 0 { 1 } else { crop.width };
    let w = if w0 <= width { w0 } else { width };
    let h0 = if crop.height == 0 { 1 } else { crop.height };
    let h = if h0 <= height { h0 } else { height };
    let x = if crop.x <= width - w { crop.x } else { width - w };
    let y = if crop.y <= height - h { crop.y } else { height - h };
    CropRect { width: w, height: h, x, y }
}

/// Re-clamps `crop` against a `width x height` frame; `None` when it already
/// fits and nothing moved.
pub fn refit_crop(crop: CropRect, width: u32, height: u32) -> (refit: Option<CropRect>)
    ensures
        refit == (if clamped(crop, width, height) == crop {
            None
        } else {
            Some(clamped(crop, width, height))
        }),
{
    let clamped_rect = clamp_rect(crop, width, height);
    if clamped_rect == crop {
        None
    } else {
        Some(clamped_rect)
    }
}

/// A clamped crop is non-empty and lies inside any non-empty frame, and a crop
/// that already does is left unchanged.
pub proof fn clamp_laws(crop: CropRect, width: u32, height: u32)
    requires
        width > 0,
        height > 0,
    ensures
        clamped(crop, width, height).width > 0,
        clamped(crop, width, height).height > 0,
        clamped(crop, width, height).x + clamped(crop, width, height).width <= width,
        clamped(crop, width, height).y + clamped(crop, width, height).height <= height,
        crop.width > 0 && crop.height > 0 && crop.x + crop.width <= width && crop.y + crop.height
            <= height ==> clamped(crop, width, height) == crop,
        clamped(clamped(crop, width, height), width, height) == clamped(crop, width, height),
{
}

// ---------------------------------------------------------------------------
// Turning the crop on and off
// ---------------------------------------------------------------------------
/// Half of `side`, at least one pixel.
pub open spec fn half_side(side: u32) -> u32 {
    if side / 2 == 0 {
        1
    } else {
        (side / 2) as u32
    }
}

/// The crop a new crop starts with: half the frame in each direction,
/// centred.
pub open spec fn seeded(width: u32, height: u32) -> CropRect {
    let w = half_side(width);
    let h = half_side(height);
    CropRect {
        width: w,
        height: h,
        x: if width >= w { ((width - w) / 2) as u32 } else { 0 },
        y: if height >= h { ((height - h) / 2) as u32 } else { 0 },
    }
}

/// The crop a new crop starts with in a `width x height` frame: a centred
/// rect half the frame's size in each direction.
pub fn seed_rect(width: u32, height: u32) -> (rect: CropRect)
    ensures
        rect == seeded(width, height),
        width > 0 && height > 0 ==> rect.x + rect.width <= width && rect.y + rect.height <= height,
{
    let w = if width / 2 == 0 {
        1
    } else {
        width / 2
    };
    let h = if height / 2 == 0 {
        1
    } else {
        height / 2
    };
    CropRect {
        width: w,
        height: h,
        x: if width >= w {
            (width - w) / 2
        } else {
            0
        },
        y: if height >= h {
            (height - h) / 2
        } else {
            0
        },
    }
}

/// What the crop control's off/edit choice does.
#[derive(Debug, Clone, Copy, PartialEq, Eq, Structural)]
pub enum CropToggle {
    /// Nothing changes.
    Unchanged,
    /// Cropping starts with this rect, edited on the raw preview.
    Start(CropRect),
    /// Cropping cannot start before a frame has arrived; the user is told so.
    NoFrameYet,
    /// Cropping stops: no crop, no drag, the output preview.
    Clear,
}

/// The effect of choosing segment `chosen` (0 off, 1 edit) of the crop
/// control while a crop is or is not active, given the size of the latest
/// input frame, if any.
pub fn crop_toggle(cropping: bool, chosen: usize, input_dims: Option<(u32, u32)>) -> (toggle:
    CropToggle)
    ensures
        toggle == if !cropping && chosen == 1 {
            match input_dims {
                Some((w, h)) => CropToggle::Start(seeded(w, h)),
                None => CropToggle::NoFrameYet,
            }
        } else if cropping && chosen == 0 {
            CropToggle::Clear
        } else {
            CropToggle::Unchanged
        },
{
    if !cropping && chosen == 1 {
        match input_dims {
            Some((w, h)) => CropToggle::Start(seed_rect(w, h)),
            None => CropToggle::NoFrameYet,
        }
    } else if cropping && chosen == 0 {
        CropToggle::Clear
    } else {
        CropToggle::Unchanged
    }
}

/// The banner shown when a crop is asked for before any frame has arrived.
pub fn no_frame_for_crop_message() -> (message: String)
    ensures
        message@ == "no frame yet \u{2014} start capture before adding a crop"@,
{
    owned("no frame yet \u{2014} start capture before adding a crop")
}

// ---------------------------------------------------------------------------
// Preview pixel order
// ---------------------------------------------------------------------------
/// BGRA8 to RGBA8; trailing bytes that do not form a whole pixel are dropped.
pub fn bgra_to_rgba(bgra: &[u8]) -> (rgba: Vec<u8>)
    ensures
        rgba@.len() == (bgra@.len() / 4) * 4,
        forall|p: int|
            0 <= p < bgra@.len() / 4 ==> {
                &&& #[trigger] rgba@[4 * p] == bgra@[4 * p + 2]
                &&& rgba@[4 * p + 1] == bgra@[4 * p + 1]
                &&& rgba@[4 * p + 2] == bgra@[4 * p]
                &&& rgba@[4 * p + 3] == bgra@[4 * p + 3]
            },
{
    let len = bgra.len();
    let n = len / 4;
    let mut rgba: Vec<u8> = Vec::new();
    let mut p: usize = 0;
    while p < n
        invariant
            len == bgra@.len(),
            n == bgra@.len() / 4,
            p <= n,
            rgba@.len() == 4 * p,
            forall|q: int|
                0 <= q < p ==> {
                    &&& #[trigger] rgba@[4 * q] == bgra@[4 * q + 2]
                    &&& rgba@[4 * q + 1] == bgra@[4 * q + 1]
                    &&& rgba@[4 * q + 2] == bgra@[4 * q]
                    &&& rgba@[4 * q + 3] == bgra@[4 * q + 3]
                },
        decreases n - p,
    {
        let i = 4 * p;
        let ghost before = rgba@;
        rgba.push(bgra[i + 2]);
        rgba.push(bgra[i + 1]);
        rgba.push(bgra[i]);
        rgba.push(bgra[i + 3]);
        proof {
            assert forall|q: int| 0 <= q < p + 1 implies {
                &&& #[trigger] rgba@[4 * q] == bgra@[4 * q + 2]
                &&& rgba@[4 * q + 1] == bgra@[4 * q + 1]
                &&& rgba@[4 * q + 2] == bgra@[4 * q]
                &&& rgba@[4 * q + 3] == bgra@[4 * q + 3]
            } by {
                if q < p {
                    assert(before[4 * q] == bgra@[4 * q + 2]);
                    assert(before[4 * q + 1] == bgra@[4 * q + 1]);
                    assert(before[4 * q + 2] == bgra@[4 * q]);
                    assert(before[4 * q + 3] == bgra@[4 * q + 3]);
                }
            }
        }
        p = p + 1;
    }
    rgba
}

// ---------------------------------------------------------------------------
// Frame-rate meter
// ---------------------------------------------------------------------------
/// Length of the sliding window, in nanoseconds.
pub const WINDOW_NANOS: u64 = 1_000_000_000;

/// Age of a sample taken at `sample` as seen at `now`; zero for a sample in
/// the future.
pub open spec fn age(sample: u64, now: u64) -> int {
    if now >= sample {
        now - sample
    } else {
        0
    }
}

/// `samples` with its stale front removed: every leading sample older than the
/// window as of `now`.
pub open spec fn without_stale(samples: Seq<u64>, now: u64) -> Seq<u64>
    decreases samples.len(),
{
    if samples.len() > 0 && age(samples[0], now) > WINDOW_NANOS {
        without_stale(samples.drop_first(), now)
    } else {
        samples
    }
}

/// Sliding one-second frame counter, driven by injected timestamps (in
/// nanoseconds from any fixed origin).
pub struct FpsMeter {
    samples: std::collections::VecDeque<u64>,
}

impl View for FpsMeter {
    type V = Seq<u64>;

    closed spec fn view(&self) -> Seq<u64> {
        self.samples@
    }
}

impl FpsMeter {
    pub fn new() -> (meter: Self)
        ensures
            meter@ == Seq::<u64>::empty(),
    {
        FpsMeter { samples: std::collections::VecDeque::new() }
    }

    /// Records one frame-published event at `now`.
    pub fn record(&mut self, now: u64)
        ensures
            final(self)@ == old(self)@.push(now),
    {
        self.samples.push_back(now);
    }

    /// Evicts the samples older than the window as of `now`, then returns the
    /// number that remain: the frames per second.
    pub fn rate(&mut self, now: u64) -> (count: usize)
        ensures
            final(self)@ == without_stale(old(self)@, now),
            count == final(self)@.len(),
    {
        self.evict_stale(now);
        self.samples.len()
    }

    fn evict_stale(&mut self, now: u64)
        ensures
            final(self)@ == without_stale(old(self)@, now),
    {
        while self.samples.len() > 0
            invariant
                without_stale(self@, now) == without_stale(old(self)@, now),
            ensures
                without_stale(self@, now) == self@,
            decreases self@.len(),
        {
            let oldest = self.samples[0];
            let age = if now >= oldest {
                now - oldest
            } else {
                0
            };
            if age <= WINDOW_NANOS {
                break;
            }
            let ghost before = self@;
            let _ = self.samples.pop_front();
            proof {
                assert(self@ =~= before.drop_first());
            }
        }
    }
}

impl Default for FpsMeter {
    fn default() -> (meter: Self)
        ensures
            meter@ == Seq::<u64>::empty(),
    {
        FpsMeter::new()
    }
}

/// After eviction no sample at the front is older than the window; when the
/// samples were recorded in order, none at all is, and every sample within the
/// window is kept.
pub proof fn evicted_samples_are_fresh(samples: Seq<u64>, now: u64)
    ensures
        without_stale(samples, now).len() > 0 ==> age(without_stale(samples, now)[0], now)
            <= WINDOW_NANOS,
        (forall|i: int, j: int| 0 <= i <= j < samples.len() ==> samples[i] <= samples[j])
            ==> forall|k: int|
            0 <= k < without_stale(samples, now).len() ==> age(
                #[trigger] without_stale(samples, now)[k],
                now,
            ) <= WINDOW_NANOS,
        forall|k: int|
            0 <= k < samples.len() && age(samples[k], now) <= WINDOW_NANOS ==> without_stale(
                samples,
                now,
            ).contains(#[trigger] samples[k]),
    decreases samples.len(),
{
    if samples.len() > 0 && age(samples[0], now) > WINDOW_NANOS {
        let rest = samples.drop_first();
        evicted_samples_are_fresh(rest, now);
        assert forall|k: int|
            0 <= k < samples.len() && age(samples[k], now) <= WINDOW_NANOS implies without_stale(
            samples,
            now,
        ).contains(#[trigger] samples[k]) by {
            assert(k > 0);
            assert(rest[k - 1] == samples[k]);
        }
    } else {
        assert forall|k: int|
            0 <= k < samples.len() && age(samples[k], now) <= WINDOW_NANOS implies without_stale(
            samples,
            now,
        ).contains(#[trigger] samples[k]) by {
            assert(without_stale(samples, now)[k] == samples[k]);
        }
        if samples.len() > 0 && (forall|i: int, j: int|
            0 <= i <= j < samples.len() ==> samples[i] <= samples[j]) {
            assert forall|k: int| 0 <= k < samples.len() implies age(#[trigger] samples[k], now)
                <= WINDOW_NANOS by {
                assert(samples[0] <= samples[k]);
            }
        }
    }
}

// ---------------------------------------------------------------------------
// Licenses window
// ---------------------------------------------------------------------------
/// Which source a license entry came from.
#[derive(Debug, Clone, Copy, PartialEq, Eq, Structural)]
pub enum LicenseCategory {
    Library,
    Font,
    Native,
}

#[derive(Debug, Clone, PartialEq, Eq)]
pub struct LicenseEntry {
    pub name: String,
    pub version: Option<String>,
    pub license: String,
    pub text: String,
    pub homepage: Option<String>,
    pub category: LicenseCategory,
}

/// Whether an entry passes the filter, given the lowercase forms of its name
/// and of the query: the query occurs in the name, and the entry has the
/// category when one is given.
pub open spec fn passes_lowered(
    name_lower: Seq<char>,
    query_lower: Seq<char>,
    entry_category: LicenseCategory,
    category: Option<LicenseCategory>,
) -> bool {
    &&& has_substring(name_lower, query_lower)
    &&& match category {
        Some(c) => entry_category == c,
        None => true,
    }
}

/// Whether an entry passes the filter: a case-insensitive substring match on
/// the name, and the category when one is given.
pub open spec fn passes_filter(entry: LicenseEntry, query: Seq<char>, category: Option<LicenseCategory>) -> bool {
    passes_lowered(lowercase(entry.name@), lowercase(query), entry.category, category)
}

/// Whether an entry passes the filter, given the lowercase forms of its name
/// and of the query.
pub fn passes_lowered_filter(
    name_lower: &str,
    query_lower: &str,
    entry_category: LicenseCategory,
    category: Option<LicenseCategory>,
) -> (pass: bool)
    ensures
        pass == passes_lowered(name_lower@, query_lower@, entry_category, category),
{
    let name_chars = chars_of(name_lower);
    let query_chars = chars_of(query_lower);
    let name_hit = contains(&name_chars, &query_chars);
    let category_hit = match category {
        Some(wanted) => entry_category == wanted,
        None => true,
    };
    name_hit && category_hit
}

proof fn lemma_everything_passes(
    entries: Seq<LicenseEntry>,
    query: Seq<char>,
    category: Option<LicenseCategory>,
    n: int,
)
    requires
        0 <= n <= entries.len(),
        forall|k: int| 0 <= k < n ==> passes_filter(#[trigger] entries[k], query, category),
    ensures
        passing_positions(entries, query, category, n) == Seq::new(n as nat, |k: int| k),
    decreases n,
{
    if n > 0 {
        lemma_everything_passes(entries, query, category, n - 1);
        assert(passing_positions(entries, query, category, n) =~= Seq::new(n as nat, |k: int| k));
    } else {
        assert(passing_positions(entries, query, category, n) =~= Seq::new(n as nat, |k: int| k));
    }
}

/// Positions below `n` of the entries that pass the filter, in order.
pub open spec fn passing_positions(
    entries: Seq<LicenseEntry>,
    query: Seq<char>,
    category: Option<LicenseCategory>,
    n: int,
) -> Seq<int>
    decreases n,
{
    if n <= 0 {
        Seq::empty()
    } else if passes_filter(entries[n - 1], query, category) {
        passing_positions(entries, query, category, n - 1).push(n - 1)
    } else {
        passing_positions(entries, query, category, n - 1)
    }
}

/// The entries that pass the filter, in the order they were given. An empty query
/// matches every name.
pub fn filter_entries<'a>(entries: &'a [LicenseEntry], query: &str, category: Option<LicenseCategory>) -> (kept: Vec<&'a LicenseEntry>)
    ensures
        ({
            let ps = passing_positions(entries@, query@, category, entries@.len() as int);
            &&& kept@.len() == ps.len()
            &&& forall|k: int| 0 <= k < ps.len() ==> *kept@[k] == entries@[#[trigger] ps[k]]
        }),
        query@.len() == 0 && category is None ==> {
            &&& kept@.len() == entries@.len()
            &&& forall|k: int| 0 <= k < kept@.len() ==> *kept@[k] == entries@[k]
        },
{
    let lower = to_lowercase(query);
    let mut kept: Vec<&'a LicenseEntry> = Vec::new();
    let mut i: usize = 0;
    while i < entries.len()
        invariant
            i <= entries@.len(),
            lower@ == lowercase(query@),
            ({
                let ps = passing_positions(entries@, query@, category, i as int);
                &&& kept@.len() == ps.len()
                &&& forall|k: int| 0 <= k < ps.len() ==> *kept@[k] == entries@[#[trigger] ps[k]]
            }),
        decreases entries@.len() - i,
    {
        let entry = &entries[i];
        let name_lower = to_lowercase(entry.name.as_str());
        let pass = passes_lowered_filter(name_lower.as_str(), lower.as_str(), entry.category, category);
        if pass {
            kept.push(entry);
        }
        proof {
            let ps = passing_positions(entries@, query@, category, i as int);
            let ps1 = passing_positions(entries@, query@, category, i + 1);
            if pass {
                assert forall|k: int| 0 <= k < ps1.len() implies *kept@[k] == entries@[
                    #[trigger] ps1[k]] by {
                    if k < ps.len() {
                        assert(ps1[k] == ps[k]);
                    }
                }
            }
        }
        i = i + 1;
    }
    proof {
        if query@.len() == 0 && category is None {
            assert(lowercase(query@).len() == 0);
            assert forall|k: int| 0 <= k < entries@.len() implies passes_filter(
                #[trigger] entries@[k],
                query@,
                category,
            ) by {
                let name = lowercase(entries@[k].name@);
                assert(name.subrange(0, 0) =~= lowercase(query@));
                assert(occurs_at(name, lowercase(query@), 0));
            }
            lemma_everything_passes(entries@, query@, category, entries@.len() as int);
            let ps = passing_positions(entries@, query@, category, entries@.len() as int);
            assert forall|k: int| 0 <= k < kept@.len() implies *kept@[k] == entries@[k] by {
                assert(ps[k] == k);
            }
        }
    }
    kept
}

// ---------------------------------------------------------------------------
// Capture worker parameters
// ---------------------------------------------------------------------------
/// Parameters for one capture-thread run. Changing any of them needs a fresh
/// camera and publisher, so a new run is started rather than a running one
/// changed.
#[derive(Debug)]
pub struct WorkerSpec {
    pub device: DeviceInfo,
    pub requested_fps: Option<u32>,
    pub server_name: String,
}

/// What happens to the capture worker.
#[derive(Debug, Clone, Copy, PartialEq, Eq, Structural)]
pub enum WorkerCommand {
    /// Leave it as it is.
    Keep,
    /// Start one.
    Start,
    /// Stop the running one.
    Stop,
    /// Stop the one there is and start a fresh one with the new settings.
    Restart,
}

/// What a change of a setting the worker was started with (the device, the
/// committed server name) does: a worker that exists is restarted so the
/// change takes effect; without one, nothing happens.
pub fn restart_on_change(changed: bool, worker_exists: bool) -> (command: WorkerCommand)
    ensures
        command == if changed && worker_exists {
            WorkerCommand::Restart
        } else {
            WorkerCommand::Keep
        },
{
    if changed && worker_exists {
        WorkerCommand::Restart
    } else {
        WorkerCommand::Keep
    }
}

/// What a click of the publish button does: stop a running worker, else
/// start one.
pub fn publish_button_command(running: bool) -> (command: WorkerCommand)
    ensures
        command == if running {
            WorkerCommand::Stop
        } else {
            WorkerCommand::Start
        },
{
    if running {
        WorkerCommand::Stop
    } else {
        WorkerCommand::Start
    }
}

/// The label of the publish button.
pub fn publish_button_label(running: bool) -> (label: &'static str)
    ensures
        label@ == if running {
            "STOP PUBLISHING"@
        } else {
            "START PUBLISHING"@
        },
{
    if running {
        "STOP PUBLISHING"
    } else {
        "START PUBLISHING"
    }
}

/// The selection after the device list was reloaded: kept where it still
/// names a device, else the first.
pub fn selection_after_reload(selected: usize, device_count: usize) -> (position: usize)
    ensures
        position == if selected < device_count {
            selected
        } else {
            0
        },
{
    if selected < device_count {
        selected
    } else {
        0
    }
}

/// The parameters of a worker for the selected device; `None` when nothing
/// is selected (the list is empty or the selection is past its end).
pub fn worker_spec_for(
    devices: &[DeviceInfo],
    selected: usize,
    requested_fps: Option<u32>,
    server_name: &str,
) -> (spec: Option<WorkerSpec>)
    ensures
        selected < devices@.len() ==> (spec matches Some(w) && w.device == devices@[selected as int]
            && w.requested_fps == requested_fps && w.server_name@ == server_name@),
        selected >= devices@.len() ==> spec is None,
{
    if selected < devices.len() {
        Some(
            WorkerSpec {
                device: devices[selected].clone(),
                requested_fps,
                server_name: owned(server_name),
            },
        )
    } else {
        None
    }
}

/// The banner shown when publishing is asked for with no device selected.
pub fn no_device_selected_message() -> (message: String)
    ensures
        message@ == "no capture device selected \u{2014} refresh the device list"@,
{
    owned("no capture device selected \u{2014} refresh the device list")
}

/// The crop to push after a new input frame: the re-fitted crop when the
/// input size has changed and the active crop no longer fits it; `None`
/// otherwise (no frame, no crop, the same size, or a crop that still fits).
pub fn refit_on_new_input(
    new_dims: Option<(u32, u32)>,
    old_dims: Option<(u32, u32)>,
    crop: Option<CropRect>,
) -> (refit: Option<CropRect>)
    ensures
        refit == match (new_dims, crop) {
            (Some((w, h)), Some(c)) => if new_dims != old_dims && clamped(c, w, h) != c {
                Some(clamped(c, w, h))
            } else {
                None
            },
            _ => None,
        },
{
    match (new_dims, crop) {
        (Some((w, h)), Some(c)) => {
            let same = match old_dims {
                Some((ow, oh)) => ow == w && oh == h,
                None => false,
            };
            if same {
                None
            } else {
                refit_crop(c, w, h)
            }
        },
        _ => None,
    }
}

/// What the exact-size scale control asks for: its width and height, each
/// raised to at least one so that a field passing through zero while being
/// edited never collapses the frame.
pub fn exact_scale_from_input(width: u32, height: u32) -> (size: ScaleSize)
    ensures
        size.width == if width == 0 { 1 } else { width },
        size.height == if height == 0 { 1 } else { height },
{
    ScaleSize {
        width: if width == 0 { 1 } else { width },
        height: if height == 0 { 1 } else { height },
    }
}

/// The custom item of the application menu.
#[derive(Debug, Clone, Copy, PartialEq, Eq, Structural)]
pub enum MenuAction {
    OpenLicenses,
}

/// The items of the tray menu.
#[derive(Debug, Clone, Copy, PartialEq, Eq, Structural)]
pub enum TrayAction {
    Show,
    Quit,
}

/// The menu action of a fired menu item, the items being known by their ids:
/// the licenses item's id opens the licenses; any other id is not ours.
pub fn menu_action_for(event_id: &str, licenses_id: &str) -> (action: Option<MenuAction>)
    ensures
        action == if event_id@ == licenses_id@ {
            Some(MenuAction::OpenLicenses)
        } else {
            None
        },
{
    if same_text(event_id, licenses_id) {
        Some(MenuAction::OpenLicenses)
    } else {
        None
    }
}

/// The tray action of a fired menu item: the show item's id shows the
/// window, the quit item's id quits, any other id is not ours.
pub fn tray_action_for(id: &str, show_id: &str, quit_id: &str) -> (action: Option<TrayAction>)
    ensures
        action == if id@ == show_id@ {
            Some(TrayAction::Show)
        } else if id@ == quit_id@ {
            Some(TrayAction::Quit)
        } else {
            None
        },
{
    if same_text(id, show_id) {
        Some(TrayAction::Show)
    } else if same_text(id, quit_id) {
        Some(TrayAction::Quit)
    } else {
        None
    }
}

/// What the big preview pane shows: the transformed output, identical to
/// what is published, or the raw frame with the crop overlay for editing.
#[derive(Debug, Clone, Copy, PartialEq, Eq, Structural)]
pub enum PreviewMode {
    Output,
    CropEdit,
}

} // verus!
