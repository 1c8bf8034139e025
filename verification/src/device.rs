//! Device-context resolution: a structured device description is extracted
//! from browser client hints when possible, and otherwise from the already
//! parsed user agent, with a fixed precedence and no merging of the two.

use vstd::prelude::*;
use vstd::string::StrSliceExecFns;
use crate::text::{str_chars, chars_string, copy_range, trim_chars, trim_spec};

verus! {

/// The recognized client-hint headers, as sent by the browser. Only the
/// model hint is consumed by device resolution here.
pub struct ClientHints {
    pub sec_ch_ua_platform: Option<String>,
    pub sec_ch_ua_platform_version: Option<String>,
    pub sec_ch_ua: Option<String>,
    pub sec_ch_ua_model: Option<String>,
}

/// The raw user-agent header together with the client hints, both taken from
/// the request headers.
pub struct RawUserAgentInfo {
    pub user_agent: Option<String>,
    pub client_hints: ClientHints,
}

/// What the external user-agent parsing capability yields for a raw
/// user-agent string: the device family, and optionally a model and a brand.
pub struct ParsedDevice {
    pub family: String,
    pub model: Option<String>,
    pub brand: Option<String>,
}

/// Device information attached to an event. Every field is independently
/// optional; the levels and densities hold the bit pattern of the external
/// floating-point representation, and `other` carries forward-compatible
/// extra fields as raw text.
#[derive(Clone, Debug, PartialEq)]
pub struct DeviceContext {
    pub name: Option<String>,
    pub family: Option<String>,
    pub model: Option<String>,
    pub model_id: Option<String>,
    pub arch: Option<String>,
    pub battery_level: Option<u64>,
    pub orientation: Option<String>,
    pub manufacturer: Option<String>,
    pub brand: Option<String>,
    pub screen_resolution: Option<String>,
    pub screen_density: Option<u64>,
    pub screen_dpi: Option<u64>,
    pub online: Option<bool>,
    pub charging: Option<bool>,
    pub low_memory: Option<bool>,
    pub simulator: Option<bool>,
    pub memory_size: Option<u64>,
    pub free_memory: Option<u64>,
    pub usable_memory: Option<u64>,
    pub storage_size: Option<u64>,
    pub free_storage: Option<u64>,
    pub external_storage_size: Option<u64>,
    pub external_free_storage: Option<u64>,
    pub boot_time: Option<String>,
    pub timezone: Option<String>,
    pub processor_count: Option<u64>,
    pub cpu_description: Option<String>,
    pub processor_frequency: Option<u64>,
    pub device_type: Option<String>,
    pub battery_status: Option<String>,
    pub device_unique_identifier: Option<String>,
    pub supports_vibration: Option<bool>,
    pub supports_accelerometer: Option<bool>,
    pub supports_gyroscope: Option<bool>,
    pub supports_audio: Option<bool>,
    pub supports_location_service: Option<bool>,
    pub other: Vec<(String, String)>,
}

/// The view of an optional string.
pub open spec fn opt_view(o: Option<String>) -> Option<Seq<char>> {
    match o {
        Some(s) => Some(s@),
        None => None,
    }
}

/// Every field that device resolution never sets is absent.
pub open spec fn aux_fields_empty(d: &DeviceContext) -> bool {
    d.name is None && d.model_id is None && d.arch is None && d.battery_level is None
        && d.orientation is None && d.manufacturer is None && d.screen_resolution is None
        && d.screen_density is None && d.screen_dpi is None && d.online is None && d.charging
        is None && d.low_memory is None && d.simulator is None && d.memory_size is None
        && d.free_memory is None && d.usable_memory is None && d.storage_size is None
        && d.free_storage is None && d.external_storage_size is None && d.external_free_storage
        is None && d.boot_time is None && d.timezone is None && d.processor_count is None
        && d.cpu_description is None && d.processor_frequency is None && d.device_type is None
        && d.battery_status is None && d.device_unique_identifier is None && d.supports_vibration
        is None && d.supports_accelerometer is None && d.supports_gyroscope is None
        && d.supports_audio is None && d.supports_location_service is None && d.other@.len() == 0
}

/// A wholly empty device description.
pub open spec fn device_empty(d: &DeviceContext) -> bool {
    aux_fields_empty(d) && d.family is None && d.model is None && d.brand is None
}

/// A device description holding only the given model.
pub open spec fn model_only_device(d: &DeviceContext, m: Seq<char>) -> bool {
    aux_fields_empty(d) && d.family is None && d.brand is None && opt_view(d.model) == Some(m)
}

/// A device description holding exactly what the user-agent parse yielded.
pub open spec fn ua_device_matches(d: &DeviceContext, p: &ParsedDevice) -> bool {
    aux_fields_empty(d) && opt_view(d.family) == Some(p.family@) && opt_view(d.model) == opt_view(
        p.model) && opt_view(d.brand) == opt_view(p.brand)
}

/// The sequence with one surrounding pair of double quotes removed: one
/// leading and one trailing quote character are dropped when present;
/// interior quotes stay.
pub open spec fn strip_quotes(s: Seq<char>) -> Seq<char> {
    let a: int = if s.len() > 0 && s[0] == '"' {
        1
    } else {
        0
    };
    let b: int = if s.len() > a && s.last() == '"' {
        s.len() - 1
    } else {
        s.len() as int
    };
    s.subrange(a, b)
}

/// The cleaned form of a model hint value: surrounding whitespace trimmed,
/// then one surrounding pair of double quotes removed.
pub open spec fn strip_model(s: Seq<char>) -> Seq<char> {
    strip_quotes(trim_spec(s))
}

/// The model that the client hints yield: the cleaned model hint, unless the
/// hint is absent or cleans to the empty string.
pub open spec fn hint_model(model_hint: Option<Seq<char>>) -> Option<Seq<char>> {
    match model_hint {
        Some(h) => if strip_model(h).len() > 0 {
            Some(strip_model(h))
        } else {
            None
        },
        None => None,
    }
}

/// The parsed family is on the known-family allowlist.
pub open spec fn family_known(f: Seq<char>, known: Seq<String>) -> bool {
    exists|i: int| 0 <= i < known.len() && known[i]@ == f
}

/// Which of the two resolution paths contributes the device, if any.
#[derive(Clone, Copy, PartialEq, Eq, Structural, Debug)]
pub enum DeviceSource {
    Hints,
    UserAgent,
    NoDevice,
}

/// The path that device resolution takes: the client hints when they yield a
/// model, else the user-agent parse when its family is known, else nothing.
pub open spec fn resolution_source(
    model_hint: Option<Seq<char>>,
    ua_parsed: Option<ParsedDevice>,
    known: Seq<String>,
) -> DeviceSource {
    if hint_model(model_hint) is Some {
        DeviceSource::Hints
    } else {
        match ua_parsed {
            Some(p) => if family_known(p.family@, known) {
                DeviceSource::UserAgent
            } else {
                DeviceSource::NoDevice
            },
            None => DeviceSource::NoDevice,
        }
    }
}

/// A valid client hint takes precedence: whenever the hints yield a model,
/// the resolution comes from the hints alone and the user agent is never
/// consulted, whatever it holds; the two sources are never merged.
pub proof fn lemma_hints_take_precedence(
    model_hint: Option<Seq<char>>,
    ua_parsed: Option<ParsedDevice>,
    known: Seq<String>,
)
    requires
        hint_model(model_hint) is Some,
    ensures
        resolution_source(model_hint, ua_parsed, known) == DeviceSource::Hints,
{
}

/// A user-agent parse whose family is not on the known-family allowlist
/// yields no device, even when no client hint is present at all.
pub proof fn lemma_unknown_family_rejected(
    model_hint: Option<Seq<char>>,
    p: ParsedDevice,
    known: Seq<String>,
)
    requires
        hint_model(model_hint) is None,
        !family_known(p.family@, known),
    ensures
        resolution_source(model_hint, Some(p), known) == DeviceSource::NoDevice,
{
}

/// A model hint that cleans to the empty string behaves exactly like an
/// absent hint: resolution falls through to the user-agent path, with the
/// same known-family rule applying.
pub proof fn lemma_empty_hint_falls_through(
    h: Seq<char>,
    ua_parsed: Option<ParsedDevice>,
    known: Seq<String>,
)
    requires
        strip_model(h).len() == 0,
    ensures
        resolution_source(Some(h), ua_parsed, known) == resolution_source(None, ua_parsed, known),
{
}

/// The characters of `v` with one surrounding pair of double quotes removed.
fn strip_quotes_chars(v: &Vec<char>) -> (r: Vec<char>)
    ensures
        r@ == strip_quotes(v@),
{
    let n = v.len();
    let a: usize = if n > 0 && v[0] == '"' {
        1
    } else {
        0
    };
    let b: usize = if n > a && v[n - 1] == '"' {
        n - 1
    } else {
        n
    };
    copy_range(v, a, b)
}

impl DeviceContext {
    /// The key under which a device context is generally stored.
    pub fn default_key() -> (r: &'static str)
        ensures
            r@ == "device"@,
    {
        "device"
    }

    /// A device description with every field absent.
    pub fn empty() -> (r: DeviceContext)
        ensures
            device_empty(&r),
    {
        DeviceContext {
            name: None,
            family: None,
            model: None,
            model_id: None,
            arch: None,
            battery_level: None,
            orientation: None,
            manufacturer: None,
            brand: None,
            screen_resolution: None,
            screen_density: None,
            screen_dpi: None,
            online: None,
            charging: None,
            low_memory: None,
            simulator: None,
            memory_size: None,
            free_memory: None,
            usable_memory: None,
            storage_size: None,
            free_storage: None,
            external_storage_size: None,
            external_free_storage: None,
            boot_time: None,
            timezone: None,
            processor_count: None,
            cpu_description: None,
            processor_frequency: None,
            device_type: None,
            battery_status: None,
            device_unique_identifier: None,
            supports_vibration: None,
            supports_accelerometer: None,
            supports_gyroscope: None,
            supports_audio: None,
            supports_location_service: None,
            other: Vec::new(),
        }
    }

    /// Reads only the model hint: trims whitespace, strips one surrounding
    /// pair of double quotes, and yields a device holding just that model, or
    /// nothing when the hint is absent or cleans to the empty string. The
    /// user agent is never consulted here.
    pub fn parse_client_hints(hints: &ClientHints) -> (r: Option<DeviceContext>)
        ensures
            r is Some <==> hint_model(opt_view(hints.sec_ch_ua_model)) is Some,
            r is Some ==> model_only_device(
                &r->Some_0,
                hint_model(opt_view(hints.sec_ch_ua_model))->Some_0,
            ),
    {
        match &hints.sec_ch_ua_model {
            None => None,
            Some(m) => {
                let cs = str_chars(m.as_str());
                let trimmed = trim_chars(&cs);
                let stripped = strip_quotes_chars(&trimmed);
                if stripped.len() == 0 {
                    return None;
                }
                let mut d = DeviceContext::empty();
                d.model = Some(chars_string(&stripped));
                Some(d)
            }
        }
    }

    /// Accepts the externally parsed user agent only when its device family
    /// is on the known-family allowlist, and then yields a device holding
    /// exactly the parsed family, model and brand.
    #[verifier::loop_isolation(false)]
    pub fn parse_user_agent(parsed: &ParsedDevice, known: &Vec<String>) -> (r: Option<
        DeviceContext,
    >)
        ensures
            r is Some <==> family_known(parsed.family@, known@),
            r is Some ==> ua_device_matches(&r->Some_0, parsed),
    {
        let mut i: usize = 0;
        loop
            invariant
                i <= known@.len(),
                forall|k: int| 0 <= k < i ==> known@[k]@ != parsed.family@,
            decreases known@.len() - i,
        {
            if i >= known.len() {
                assert(!family_known(parsed.family@, known@));
                return None;
            }
            if known[i].eq(&parsed.family) {
                assert(family_known(parsed.family@, known@));
                let mut d = DeviceContext::empty();
                d.family = Some(clone_string(&parsed.family));
                d.model = clone_opt_string(&parsed.model);
                d.brand = clone_opt_string(&parsed.brand);
                return Some(d);
            }
            i = i + 1;
        }
    }

    /// Resolves the device with fixed precedence: the client hints first,
    /// and, only when they yield nothing, the externally parsed user agent
    /// under the known-family rule. The two paths are never merged.
    /// `ua_parsed` is what the external user-agent parser yielded for
    /// `info.user_agent`, or nothing when that header was absent.
    pub fn from_hints_or_ua(
        info: &RawUserAgentInfo,
        ua_parsed: &Option<ParsedDevice>,
        known: &Vec<String>,
    ) -> (r: Option<DeviceContext>)
        ensures
            ({
                let src = resolution_source(
                    opt_view(info.client_hints.sec_ch_ua_model),
                    *ua_parsed,
                    known@,
                );
                match src {
                    DeviceSource::Hints => r is Some && model_only_device(
                        &r->Some_0,
                        hint_model(opt_view(info.client_hints.sec_ch_ua_model))->Some_0,
                    ),
                    DeviceSource::UserAgent => r is Some && ua_device_matches(
                        &r->Some_0,
                        &ua_parsed->Some_0,
                    ),
                    DeviceSource::NoDevice => r is None,
                }
            }),
    {
        match Self::parse_client_hints(&info.client_hints) {
            Some(d) => Some(d),
            None => {
                match ua_parsed {
                    Some(p) => Self::parse_user_agent(p, known),
                    None => None,
                }
            }
        }
    }
}

/// The code of a character with an upper-case ASCII letter folded to lower
/// case.
pub open spec fn lower_code(c: char) -> int {
    if 'A' <= c && c <= 'Z' {
        c as u32 + 32
    } else {
        c as u32 as int
    }
}

/// Case-insensitive equality of two character sequences, folding ASCII
/// letters only.
pub open spec fn eq_ci(a: Seq<char>, b: Seq<char>) -> bool {
    a.len() == b.len() && forall|i: int| 0 <= i < a.len() ==> lower_code(a[i]) == lower_code(b[i])
}

/// Decides `eq_ci` on two strings.
pub fn str_eq_ci(a: &str, b: &str) -> (r: bool)
    ensures
        r == eq_ci(a@, b@),
{
    let na = a.unicode_len();
    let nb = b.unicode_len();
    if na != nb {
        return false;
    }
    let mut i: usize = 0;
    while i < na
        invariant
            i <= na,
            na == a@.len() == b@.len(),
            forall|k: int| 0 <= k < i ==> lower_code(a@[k]) == lower_code(b@[k]),
        decreases na - i,
    {
        let ca = a.get_char(i);
        let cb = b.get_char(i);
        let la: u32 = if 'A' <= ca && ca <= 'Z' {
            ca as u32 + 32
        } else {
            ca as u32
        };
        let lb: u32 = if 'A' <= cb && cb <= 'Z' {
            cb as u32 + 32
        } else {
            cb as u32
        };
        if la != lb {
            return false;
        }
        i = i + 1;
    }
    true
}

/// The value of the last header whose name equals `name` up to ASCII letter
/// case.
pub open spec fn header_lookup(hs: Seq<(String, String)>, name: Seq<char>) -> Option<Seq<char>>
    decreases hs.len()
{
    if hs.len() == 0 {
        None
    } else if eq_ci(hs.last().0@, name) {
        Some(hs.last().1@)
    } else {
        header_lookup(hs.drop_last(), name)
    }
}

impl RawUserAgentInfo {
    /// Collects the user-agent header and the client hints from request
    /// header pairs; header names match case-insensitively, later headers
    /// winning, and unrecognized headers are ignored.
    #[verifier::loop_isolation(false)]
    #[verifier::rlimit(60)]
    pub fn from_headers(headers: &Vec<(String, String)>) -> (r: RawUserAgentInfo)
        ensures
            opt_view(r.user_agent) == header_lookup(headers@, "user-agent"@),
            opt_view(r.client_hints.sec_ch_ua) == header_lookup(headers@, "sec-ch-ua"@),
            opt_view(r.client_hints.sec_ch_ua_model) == header_lookup(
                headers@,
                "sec-ch-ua-model"@,
            ),
            opt_view(r.client_hints.sec_ch_ua_platform) == header_lookup(
                headers@,
                "sec-ch-ua-platform"@,
            ),
            opt_view(r.client_hints.sec_ch_ua_platform_version) == header_lookup(
                headers@,
                "sec-ch-ua-platform-version"@,
            ),
    {
        proof {
            reveal_strlit("user-agent");
            reveal_strlit("sec-ch-ua");
            reveal_strlit("sec-ch-ua-model");
            reveal_strlit("sec-ch-ua-platform");
            reveal_strlit("sec-ch-ua-platform-version");
        }
        let mut ua: Option<String> = None;
        let mut ch_ua: Option<String> = None;
        let mut ch_model: Option<String> = None;
        let mut ch_platform: Option<String> = None;
        let mut ch_platform_version: Option<String> = None;
        let mut i: usize = 0;
        while i < headers.len()
            invariant
                i <= headers@.len(),
                opt_view(ua) == header_lookup(headers@.subrange(0, i as int), "user-agent"@),
                opt_view(ch_ua) == header_lookup(headers@.subrange(0, i as int), "sec-ch-ua"@),
                opt_view(ch_model) == header_lookup(
                    headers@.subrange(0, i as int),
                    "sec-ch-ua-model"@,
                ),
                opt_view(ch_platform) == header_lookup(
                    headers@.subrange(0, i as int),
                    "sec-ch-ua-platform"@,
                ),
                opt_view(ch_platform_version) == header_lookup(
                    headers@.subrange(0, i as int),
                    "sec-ch-ua-platform-version"@,
                ),
            decreases headers@.len() - i,
        {
            assert(headers@.subrange(0, i + 1 as int).drop_last() =~= headers@.subrange(
                0, i as int));
            assert(headers@.subrange(0, i + 1 as int).last() == headers@[i as int]);
            let k = &headers[i].0;
            let v = &headers[i].1;
            if str_eq_ci(k.as_str(), "user-agent") {
                ua = Some(clone_string(v));
            } else if str_eq_ci(k.as_str(), "sec-ch-ua") {
                ch_ua = Some(clone_string(v));
            } else if str_eq_ci(k.as_str(), "sec-ch-ua-model") {
                ch_model = Some(clone_string(v));
            } else if str_eq_ci(k.as_str(), "sec-ch-ua-platform") {
                ch_platform = Some(clone_string(v));
            } else if str_eq_ci(k.as_str(), "sec-ch-ua-platform-version") {
                ch_platform_version = Some(clone_string(v));
            }
            i = i + 1;
        }
        assert(headers@.subrange(0, headers@.len() as int) =~= headers@);
        RawUserAgentInfo {
            user_agent: ua,
            client_hints: ClientHints {
                sec_ch_ua_platform: ch_platform,
                sec_ch_ua_platform_version: ch_platform_version,
                sec_ch_ua: ch_ua,
                sec_ch_ua_model: ch_model,
            },
        }
    }
}

impl Default for DeviceContext {
    /// The wholly empty device description.
    fn default() -> (r: DeviceContext)
        ensures
            device_empty(&r),
    {
        DeviceContext::empty()
    }
}

/// A copy of a string with the same characters.
pub fn clone_string(s: &String) -> (r: String)
    ensures
        r@ == s@,
{
    let c: String = s.clone();
    c
}

/// A copy of an optional string with the same characters.
fn clone_opt_string(s: &Option<String>) -> (r: Option<String>)
    ensures
        opt_view(r) == opt_view(*s),
{
    match s {
        Some(x) => Some(clone_string(x)),
        None => None,
    }
}

} // verus!
