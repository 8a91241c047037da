//! Stable device selection: resolves a user- or config-supplied selector
//! against the current device enumeration.
//!
//! Numeric device indices can change between runs, so anything persisted across
//! runs must key off `DeviceId` instead of `DeviceInfo::index`.
use crate::capture::{device_views, DeviceInfo, DeviceInfoView};
use crate::text::{
    append, append_u64, chars_of, contains, decimal, equals, has_prefix, has_substring, is_blank,
    lowercase, owned, starts_with, to_lowercase, trimmed,
};
use vstd::prelude::*;

verus! {

/// Opaque, backend-defined stable identifier; never blank. Never parsed, only
/// compared.
#[derive(Debug, PartialEq, Eq)]
pub struct DeviceId(String);

impl View for DeviceId {
    type V = Seq<char>;

    closed spec fn view(&self) -> Seq<char> {
        self.0@
    }
}

impl DeviceId {
    #[verifier::type_invariant]
    spec fn inv(self) -> bool {
        trimmed(self.0@).len() > 0
    }

    /// `None` for empty or whitespace-only input.
    pub fn new(raw: &str) -> (id: Option<Self>)
        ensures
            id is None <==> trimmed(raw@).len() == 0,
            id matches Some(i) ==> i@ == raw@,
    {
        if is_blank(raw) {
            None
        } else {
            Some(DeviceId(owned(raw)))
        }
    }

    pub fn as_str(&self) -> (s: &str)
        ensures
            s@ == self@,
            trimmed(self@).len() > 0,
    {
        proof {
            use_type_invariant(self);
        }
        self.0.as_str()
    }
}

impl Clone for DeviceId {
    fn clone(&self) -> (copy: Self)
        ensures
            copy == *self,
    {
        proof {
            use_type_invariant(self);
        }
        DeviceId(self.0.clone())
    }
}

/// How a caller identifies which capture device it wants.
#[derive(Debug, PartialEq, Eq)]
pub enum DeviceSelector {
    /// Positional index into the current enumeration order.
    Index(u32),
    /// Exact stable-id equality only.
    Id(DeviceId),
    /// Free text: matched against names and ids by tier.
    Query(String),
}

#[derive(Debug)]
pub enum SelectError {
    IndexOutOfRange { index: u32, available: Vec<DeviceInfo> },
    NoMatch { query: String, available: Vec<DeviceInfo> },
    Ambiguous { query: String, matches: Vec<DeviceInfo> },
}

/// Model of a `SelectError`.
pub enum SelectErrorView {
    IndexOutOfRange { index: u32, available: Seq<DeviceInfoView> },
    NoMatch { query: Seq<char>, available: Seq<DeviceInfoView> },
    Ambiguous { query: Seq<char>, matches: Seq<DeviceInfoView> },
}

impl View for SelectError {
    type V = SelectErrorView;

    open spec fn view(&self) -> SelectErrorView {
        match self {
            SelectError::IndexOutOfRange { index, available } => SelectErrorView::IndexOutOfRange {
                index: *index,
                available: device_views(available@),
            },
            SelectError::NoMatch { query, available } => SelectErrorView::NoMatch {
                query: query@,
                available: device_views(available@),
            },
            SelectError::Ambiguous { query, matches } => SelectErrorView::Ambiguous {
                query: query@,
                matches: device_views(matches@),
            },
        }
    }
}

// ---------------------------------------------------------------------------
// Text of device lists
// ---------------------------------------------------------------------------
/// `"<index>: <name>  [<id>]"`, without the bracket when there is no id.
pub open spec fn device_line_text(d: DeviceInfoView) -> Seq<char> {
    match d.id {
        Some(id) => decimal(d.index as nat) + ": "@ + d.name + "  ["@ + id + "]"@,
        None => decimal(d.index as nat) + ": "@ + d.name,
    }
}

/// The lines of `devices`, separated by newlines.
pub open spec fn device_list_text(devices: Seq<DeviceInfoView>) -> Seq<char>
    decreases devices.len(),
{
    if devices.len() == 0 {
        Seq::empty()
    } else if devices.len() == 1 {
        device_line_text(devices[0])
    } else {
        device_list_text(devices.drop_last()) + "\n"@ + device_line_text(devices.last())
    }
}

/// Formats one device as `"<index>: <name>  [<id>]"`, omitting the bracket
/// when the device has no stable id.
pub fn device_line(device: &DeviceInfo) -> (line: String)
    ensures
        line@ == device_line_text(device@),
{
    let mut line = String::new();
    append_u64(&mut line, device.index as u64);
    append(&mut line, ": ");
    append(&mut line, device.name.as_str());
    match &device.id {
        Some(id) => {
            append(&mut line, "  [");
            append(&mut line, id.as_str());
            append(&mut line, "]");
            proof {
                assert(line@ =~= device_line_text(device@));
            }
        },
        None => {
            proof {
                assert(line@ =~= device_line_text(device@));
            }
        },
    }
    line
}

pub fn format_devices(devices: &[DeviceInfo]) -> (text: String)
    ensures
        text@ == device_list_text(device_views(devices@)),
{
    let ghost views = device_views(devices@);
    let mut text = String::new();
    let mut i: usize = 0;
    while i < devices.len()
        invariant
            i <= devices@.len(),
            views == device_views(devices@),
            views.len() == devices@.len(),
            text@ == device_list_text(views.take(i as int)),
        decreases devices@.len() - i,
    {
        let line = device_line(&devices[i]);
        if i > 0 {
            append(&mut text, "\n");
        }
        append(&mut text, line.as_str());
        proof {
            assert(views.take(i + 1).drop_last() =~= views.take(i as int));
            assert(views[i as int] == devices@[i as int]@);
            if i == 0 {
                assert(text@ =~= device_list_text(views.take(1)));
            } else {
                assert(text@ =~= device_list_text(views.take(i + 1)));
            }
        }
        i = i + 1;
    }
    proof {
        assert(views.take(devices@.len() as int) =~= views);
    }
    text
}

impl SelectError {
    /// The error's message: the failure, then the devices that were available
    /// or that matched, one per line.
    pub fn message(&self) -> (text: String)
        ensures
            text@ == select_error_text(self@),
    {
        let mut text = String::new();
        match self {
            SelectError::IndexOutOfRange { index, available } => {
                append(&mut text, "device index ");
                append_u64(&mut text, *index as u64);
                append(&mut text, " not found\n");
                let list = format_devices(available.as_slice());
                append(&mut text, list.as_str());
            },
            SelectError::NoMatch { query, available } => {
                append(&mut text, "no device matches \"");
                append(&mut text, query.as_str());
                append(&mut text, "\"\n");
                let list = format_devices(available.as_slice());
                append(&mut text, list.as_str());
            },
            SelectError::Ambiguous { query, matches } => {
                append(&mut text, "\"");
                append(&mut text, query.as_str());
                append(&mut text, "\" matches multiple devices\n");
                let list = format_devices(matches.as_slice());
                append(&mut text, list.as_str());
            },
        }
        proof {
            assert(text@ =~= select_error_text(self@));
        }
        text
    }
}

/// The message of a select error.
pub open spec fn select_error_text(e: SelectErrorView) -> Seq<char> {
    match e {
        SelectErrorView::IndexOutOfRange { index, available } => "device index "@ + decimal(
            index as nat,
        ) + " not found\n"@ + device_list_text(available),
        SelectErrorView::NoMatch { query, available } => "no device matches \""@ + query
            + "\"\n"@ + device_list_text(available),
        SelectErrorView::Ambiguous { query, matches } => "\""@ + query
            + "\" matches multiple devices\n"@ + device_list_text(matches),
    }
}

// ---------------------------------------------------------------------------
// Resolution
// ---------------------------------------------------------------------------
/// Position of the first device in `devices[from..]` that satisfies `pred`.
pub open spec fn first_position(
    devices: Seq<DeviceInfoView>,
    pred: spec_fn(DeviceInfoView) -> bool,
    from: int,
) -> Option<int>
    decreases devices.len() - from,
{
    if from < 0 || from >= devices.len() {
        None
    } else if pred(devices[from]) {
        Some(from)
    } else {
        first_position(devices, pred, from + 1)
    }
}

/// Positions below `n` of the devices that satisfy `pred`, in order.
pub open spec fn positions(devices: Seq<DeviceInfoView>, pred: spec_fn(DeviceInfoView) -> bool, n: int) -> Seq<int>
    decreases n,
{
    if n <= 0 {
        Seq::empty()
    } else if pred(devices[n - 1]) {
        positions(devices, pred, n - 1).push(n - 1)
    } else {
        positions(devices, pred, n - 1)
    }
}

/// Whether a device satisfies tier `tier`, given the lowercase forms of its
/// name, of its id (where it has one) and of the query: equal names, equal
/// ids, the query a prefix of the name, the query inside the name.
pub open spec fn lowered_tier_hit(
    tier: int,
    name_lower: Seq<char>,
    id_lower: Option<Seq<char>>,
    query_lower: Seq<char>,
) -> bool {
    if tier == 0 {
        name_lower == query_lower
    } else if tier == 1 {
        id_lower == Some(query_lower)
    } else if tier == 2 {
        has_prefix(name_lower, query_lower)
    } else {
        has_substring(name_lower, query_lower)
    }
}

/// Query tiers, tried in order: exact name, exact id, name prefix, name
/// substring; all compare lowercase forms.
pub open spec fn tier_pred(tier: int, query: Seq<char>) -> spec_fn(DeviceInfoView) -> bool {
    |d: DeviceInfoView|
        lowered_tier_hit(
            tier,
            lowercase(d.name),
            match d.id {
                Some(id) => Some(lowercase(id)),
                None => None,
            },
            lowercase(query),
        )
}

/// The outcome of resolving `query` from tier `tier` on: the position of the
/// device it names, or the error.
pub open spec fn query_from_tier(query: Seq<char>, devices: Seq<DeviceInfoView>, tier: int) -> Result<
    int,
    SelectErrorView,
>
    decreases 4 - tier,
{
    if tier >= 4 {
        Err(SelectErrorView::NoMatch { query, available: devices })
    } else {
        let hits = positions(devices, tier_pred(tier, query), devices.len() as int);
        if hits.len() == 0 {
            query_from_tier(query, devices, tier + 1)
        } else if hits.len() == 1 {
            Ok(hits[0])
        } else {
            Err(
                SelectErrorView::Ambiguous {
                    query,
                    matches: hits.map_values(|p: int| devices[p]),
                },
            )
        }
    }
}

/// What resolving `selector` against `devices` gives: a position or an error.
pub open spec fn resolution(selector: DeviceSelectorView, devices: Seq<DeviceInfoView>) -> Result<
    int,
    SelectErrorView,
> {
    match selector {
        DeviceSelectorView::Index(index) => match first_position(
            devices,
            |d: DeviceInfoView| d.index == index,
            0,
        ) {
            Some(p) => Ok(p),
            None => Err(SelectErrorView::IndexOutOfRange { index, available: devices }),
        },
        DeviceSelectorView::Id(id) => match first_position(
            devices,
            |d: DeviceInfoView| d.id == Some(id),
            0,
        ) {
            Some(p) => Ok(p),
            None => Err(SelectErrorView::NoMatch { query: id, available: devices }),
        },
        DeviceSelectorView::Query(query) => if trimmed(query).len() == 0 {
            Err(SelectErrorView::NoMatch { query, available: devices })
        } else {
            query_from_tier(query, devices, 0)
        },
    }
}

/// Model of a `DeviceSelector`.
pub enum DeviceSelectorView {
    Index(u32),
    Id(Seq<char>),
    Query(Seq<char>),
}

impl View for DeviceSelector {
    type V = DeviceSelectorView;

    open spec fn view(&self) -> DeviceSelectorView {
        match self {
            DeviceSelector::Index(i) => DeviceSelectorView::Index(*i),
            DeviceSelector::Id(id) => DeviceSelectorView::Id(id@),
            DeviceSelector::Query(q) => DeviceSelectorView::Query(q@),
        }
    }
}

/// Whether `result` is what `resolution` says for `devices`.
pub open spec fn resolves_as<'a>(
    result: Result<&'a DeviceInfo, SelectError>,
    expected: Result<int, SelectErrorView>,
    devices: Seq<DeviceInfo>,
) -> bool {
    match (result, expected) {
        (Ok(d), Ok(p)) => 0 <= p < devices.len() && *d == devices[p],
        (Err(e), Err(v)) => e@ == v,
        _ => false,
    }
}

impl DeviceSelector {
    pub fn resolve<'a>(&self, devices: &'a [DeviceInfo]) -> (result: Result<&'a DeviceInfo, SelectError>)
        ensures
            resolves_as(result, resolution(self@, device_views(devices@)), devices@),
    {
        match self {
            DeviceSelector::Index(index) => resolve_index(*index, devices),
            DeviceSelector::Id(id) => resolve_id(id, devices),
            DeviceSelector::Query(query) => resolve_query(query.as_str(), devices),
        }
    }
}

/// Clones of every device, in order.
fn copy_devices(devices: &[DeviceInfo]) -> (copies: Vec<DeviceInfo>)
    ensures
        copies@ == devices@,
{
    let mut copies: Vec<DeviceInfo> = Vec::new();
    let mut i: usize = 0;
    while i < devices.len()
        invariant
            i <= devices@.len(),
            copies@ == devices@.take(i as int),
        decreases devices@.len() - i,
    {
        copies.push(devices[i].clone());
        proof {
            assert(devices@.take(i + 1) =~= devices@.take(i as int).push(devices@[i as int]));
        }
        i = i + 1;
    }
    proof {
        assert(devices@.take(devices@.len() as int) =~= devices@);
    }
    copies
}

fn resolve_index<'a>(index: u32, devices: &'a [DeviceInfo]) -> (result: Result<&'a DeviceInfo, SelectError>)
    ensures
        resolves_as(
            result,
            resolution(DeviceSelectorView::Index(index), device_views(devices@)),
            devices@,
        ),
{
    let ghost views = device_views(devices@);
    let ghost pred = |d: DeviceInfoView| d.index == index;
    let mut i: usize = 0;
    while i < devices.len()
        invariant
            i <= devices@.len(),
            views == device_views(devices@),
            views.len() == devices@.len(),
            pred == (|d: DeviceInfoView| d.index == index),
            first_position(views, pred, 0) == first_position(views, pred, i as int),
        decreases devices@.len() - i,
    {
        if devices[i].index == index {
            proof {
                assert(views[i as int] == devices@[i as int]@);
            }
            return Ok(&devices[i]);
        }
        proof {
            assert(views[i as int] == devices@[i as int]@);
        }
        i = i + 1;
    }
    Err(SelectError::IndexOutOfRange { index, available: copy_devices(devices) })
}

fn resolve_id<'a>(id: &DeviceId, devices: &'a [DeviceInfo]) -> (result: Result<&'a DeviceInfo, SelectError>)
    ensures
        resolves_as(result, resolution(DeviceSelectorView::Id(id@), device_views(devices@)), devices@),
{
    let ghost views = device_views(devices@);
    let ghost pred = |d: DeviceInfoView| d.id == Some(id@);
    let wanted = chars_of(id.as_str());
    let mut i: usize = 0;
    while i < devices.len()
        invariant
            i <= devices@.len(),
            views == device_views(devices@),
            views.len() == devices@.len(),
            wanted@ == id@,
            pred == (|d: DeviceInfoView| d.id == Some(id@)),
            first_position(views, pred, 0) == first_position(views, pred, i as int),
        decreases devices@.len() - i,
    {
        let same = match &devices[i].id {
            Some(device_id) => {
                let have = chars_of(device_id.as_str());
                equals(&have, &wanted)
            },
            None => false,
        };
        proof {
            assert(views[i as int] == devices@[i as int]@);
        }
        if same {
            return Ok(&devices[i]);
        }
        i = i + 1;
    }
    let query = owned(id.as_str());
    Err(SelectError::NoMatch { query, available: copy_devices(devices) })
}

/// Whether a device satisfies tier `tier`, given the lowercase forms of its
/// name, of its id (where it has one) and of the query.
pub fn tier_hit(tier: u8, name_lower: &str, id_lower: Option<&str>, query_lower: &str) -> (hit: bool)
    ensures
        hit == lowered_tier_hit(
            tier as int,
            name_lower@,
            match id_lower {
                Some(i) => Some(i@),
                None => None,
            },
            query_lower@,
        ),
{
    let query_chars = chars_of(query_lower);
    if tier == 1 {
        match id_lower {
            Some(id) => {
                let id_chars = chars_of(id);
                equals(&id_chars, &query_chars)
            },
            None => false,
        }
    } else {
        let name_chars = chars_of(name_lower);
        if tier == 0 {
            equals(&name_chars, &query_chars)
        } else if tier == 2 {
            starts_with(&name_chars, &query_chars)
        } else {
            contains(&name_chars, &query_chars)
        }
    }
}

/// Whether device `d` satisfies tier `tier` for a query whose lowercase form is
/// `query_lower`.
fn tier_matches(tier: u8, device: &DeviceInfo, query_lower: &str, query: Ghost<Seq<char>>) -> (hit: bool)
    requires
        query_lower@ == lowercase(query@),
    ensures
        hit == (tier_pred(tier as int, query@))(device@),
{
    let name_lower = to_lowercase(device.name.as_str());
    match &device.id {
        Some(id) => {
            let id_lower = to_lowercase(id.as_str());
            tier_hit(tier, name_lower.as_str(), Some(id_lower.as_str()), query_lower)
        },
        None => tier_hit(tier, name_lower.as_str(), None, query_lower),
    }
}

/// Positions of the devices that satisfy tier `tier`.
fn match_tier(tier: u8, query: &str, devices: &[DeviceInfo]) -> (hits: Vec<usize>)
    ensures
        hits@.map_values(|p: usize| p as int) == positions(
            device_views(devices@),
            tier_pred(tier as int, query@),
            devices@.len() as int,
        ),
{
    let query_lower = to_lowercase(query);
    let ghost views = device_views(devices@);
    let ghost pred = tier_pred(tier as int, query@);
    let mut hits: Vec<usize> = Vec::new();
    let mut i: usize = 0;
    while i < devices.len()
        invariant
            i <= devices@.len(),
            views == device_views(devices@),
            views.len() == devices@.len(),
            query_lower@ == lowercase(query@),
            pred == tier_pred(tier as int, query@),
            hits@.map_values(|p: usize| p as int) == positions(views, pred, i as int),
        decreases devices@.len() - i,
    {
        let hit = tier_matches(tier, &devices[i], query_lower.as_str(), Ghost(query@));
        proof {
            assert(views[i as int] == devices@[i as int]@);
        }
        if hit {
            let ghost before = hits@;
            hits.push(i);
            proof {
                assert(hits@.map_values(|p: usize| p as int) =~= before.map_values(
                    |p: usize| p as int,
                ).push(i as int));
            }
        }
        i = i + 1;
    }
    hits
}

/// Match by exact name (case-insensitive).
fn match_exact_name(query: &str, devices: &[DeviceInfo]) -> (hits: Vec<usize>)
    ensures
        hits@.map_values(|p: usize| p as int) == positions(
            device_views(devices@),
            tier_pred(0, query@),
            devices@.len() as int,
        ),
{
    match_tier(0, query, devices)
}

/// Match by exact id (case-insensitive).
fn match_exact_id(query: &str, devices: &[DeviceInfo]) -> (hits: Vec<usize>)
    ensures
        hits@.map_values(|p: usize| p as int) == positions(
            device_views(devices@),
            tier_pred(1, query@),
            devices@.len() as int,
        ),
{
    match_tier(1, query, devices)
}

/// Match by name prefix (case-insensitive).
fn match_name_prefix(query: &str, devices: &[DeviceInfo]) -> (hits: Vec<usize>)
    ensures
        hits@.map_values(|p: usize| p as int) == positions(
            device_views(devices@),
            tier_pred(2, query@),
            devices@.len() as int,
        ),
{
    match_tier(2, query, devices)
}

/// Match by name substring (case-insensitive).
fn match_name_substring(query: &str, devices: &[DeviceInfo]) -> (hits: Vec<usize>)
    ensures
        hits@.map_values(|p: usize| p as int) == positions(
            device_views(devices@),
            tier_pred(3, query@),
            devices@.len() as int,
        ),
{
    match_tier(3, query, devices)
}

/// Turns one tier's hits into an outcome, or `None` to fall through to the
/// next tier. More than one hit within a tier is always ambiguous.
fn settle_tier<'a>(hits: Vec<usize>, query: &str, devices: &'a [DeviceInfo]) -> (outcome: Option<
    Result<&'a DeviceInfo, SelectError>,
>)
    requires
        forall|k: int| 0 <= k < hits@.len() ==> #[trigger] hits@[k] < devices@.len(),
    ensures
        hits@.len() == 0 ==> outcome is None,
        hits@.len() == 1 ==> (outcome matches Some(Ok(d)) && *d == devices@[hits@[0] as int]),
        hits@.len() > 1 ==> (outcome matches Some(Err(e)) && e@ == SelectErrorView::Ambiguous {
            query: query@,
            matches: hits@.map_values(|p: usize| device_views(devices@)[p as int]),
        }),
{
    if hits.len() == 0 {
        None
    } else if hits.len() == 1 {
        Some(Ok(&devices[hits[0]]))
    } else {
        let mut matches: Vec<DeviceInfo> = Vec::new();
        let mut k: usize = 0;
        while k < hits.len()
            invariant
                k <= hits@.len(),
                forall|j: int| 0 <= j < hits@.len() ==> #[trigger] hits@[j] < devices@.len(),
                device_views(matches@) == hits@.take(k as int).map_values(
                    |p: usize| device_views(devices@)[p as int],
                ),
            decreases hits@.len() - k,
        {
            let copy = devices[hits[k]].clone();
            let ghost before = matches@;
            matches.push(copy);
            proof {
                assert(hits@.take(k + 1).map_values(|p: usize| device_views(devices@)[p as int])
                    =~= hits@.take(k as int).map_values(
                    |p: usize| device_views(devices@)[p as int],
                ).push(device_views(devices@)[hits@[k as int] as int]));
                assert(device_views(matches@) =~= device_views(before).push(copy@));
            }
            k = k + 1;
        }
        proof {
            assert(hits@.take(hits@.len() as int) =~= hits@);
        }
        Some(Err(SelectError::Ambiguous { query: owned(query), matches }))
    }
}

fn resolve_query<'a>(query: &str, devices: &'a [DeviceInfo]) -> (result: Result<
    &'a DeviceInfo,
    SelectError,
>)
    ensures
        resolves_as(
            result,
            resolution(DeviceSelectorView::Query(query@), device_views(devices@)),
            devices@,
        ),
{
    if is_blank(query) {
        return Err(SelectError::NoMatch { query: owned(query), available: copy_devices(devices) });
    }
    let ghost views = device_views(devices@);
    proof {
        reveal_with_fuel(query_from_tier, 5);
    }
    let hits = match_exact_name(query, devices);
    proof {
        lemma_positions_bound(views, tier_pred(0, query@), devices@.len() as int);
        lemma_hits(hits@, views, tier_pred(0, query@));
    }
    if let Some(outcome) = settle_tier(hits, query, devices) {
        return outcome;
    }
    let hits = match_exact_id(query, devices);
    proof {
        lemma_positions_bound(views, tier_pred(1, query@), devices@.len() as int);
        lemma_hits(hits@, views, tier_pred(1, query@));
    }
    if let Some(outcome) = settle_tier(hits, query, devices) {
        return outcome;
    }
    let hits = match_name_prefix(query, devices);
    proof {
        lemma_positions_bound(views, tier_pred(2, query@), devices@.len() as int);
        lemma_hits(hits@, views, tier_pred(2, query@));
    }
    if let Some(outcome) = settle_tier(hits, query, devices) {
        return outcome;
    }
    let hits = match_name_substring(query, devices);
    proof {
        lemma_positions_bound(views, tier_pred(3, query@), devices@.len() as int);
        lemma_hits(hits@, views, tier_pred(3, query@));
    }
    if let Some(outcome) = settle_tier(hits, query, devices) {
        return outcome;
    }
    Err(SelectError::NoMatch { query: owned(query), available: copy_devices(devices) })
}

proof fn lemma_positions_bound(devices: Seq<DeviceInfoView>, pred: spec_fn(DeviceInfoView) -> bool, n: int)
    requires
        0 <= n <= devices.len(),
    ensures
        forall|k: int| 0 <= k < positions(devices, pred, n).len() ==> 0 <= #[trigger] positions(devices, pred, n)[k] < n,
        positions(devices, pred, n).len() <= n,
    decreases n,
{
    if n > 0 {
        lemma_positions_bound(devices, pred, n - 1);
    }
}

/// Facts about a tier's hit list that `resolve_query` passes on.
proof fn lemma_hits(hits: Seq<usize>, devices: Seq<DeviceInfoView>, pred: spec_fn(DeviceInfoView) -> bool)
    requires
        hits.map_values(|p: usize| p as int) == positions(devices, pred, devices.len() as int),
        forall|k: int| 0 <= k < positions(devices, pred, devices.len() as int).len() ==> 0 <= #[trigger] positions(devices, pred, devices.len() as int)[k] < devices.len(),
    ensures
        hits.len() == positions(devices, pred, devices.len() as int).len(),
        forall|k: int| 0 <= k < hits.len() ==> #[trigger] hits[k] < devices.len(),
        hits.len() > 0 ==> hits[0] == positions(devices, pred, devices.len() as int)[0],
        hits.map_values(|p: usize| devices[p as int]) == positions(devices, pred, devices.len() as int).map_values(|p: int| devices[p]),
{
    let ps = positions(devices, pred, devices.len() as int);
    let idx0 = hits.map_values(|p: usize| p as int);
    assert(idx0.len() == hits.len());
    assert forall|k: int| 0 <= k < hits.len() implies #[trigger] hits[k] < devices.len() by {
        assert(idx0[k] == hits[k] as int);
        assert(idx0[k] == ps[k]);
    }
    if hits.len() > 0 {
        assert(idx0[0] == ps[0]);
    }
    let a = hits.map_values(|p: usize| devices[p as int]);
    let b = ps.map_values(|p: int| devices[p]);
    let idx = hits.map_values(|p: usize| p as int);
    assert forall|k: int| 0 <= k < hits.len() implies #[trigger] a[k] == b[k] by {
        assert(idx[k] == ps[k]);
    }
    assert(a =~= b);
}

} // verus!
