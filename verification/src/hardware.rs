use vstd::prelude::*;
use crate::text::{contains_text, has_substring, trim_text, trimmed};

verus! {

/// Marketing identity of the machine, as shown on the Windows "System" page.
pub struct SystemInfo {
    /// Marketing manufacturer, e.g. "Dell Inc."
    pub manufacturer: String,
    /// Marketing model, e.g. "G3 3590".
    pub model: String,
    /// Product family / friendly name, when available.
    pub family: String,
}

/// Identity of the main board.
pub struct Motherboard {
    pub manufacturer: String,
    pub product: String,
    pub version: String,
    pub serial: String,
}

/// Authoritative values read from the platform's hardware inventory; each
/// overrides the generic fallback when present. Memory is counted in tenths
/// of a GB (the inventory total is rounded to one decimal).
pub struct DmiOverrides {
    pub total_mem_tenths_gb: Option<i128>,
    pub cpu_name: Option<String>,
    pub cpu_max_clock_mhz: Option<u64>,
    pub cpu_cores: Option<usize>,
    pub cpu_threads: Option<usize>,
    pub gpu_name: Option<String>,
    pub os: Option<String>,
}

impl Default for DmiOverrides {
    fn default() -> (ov: DmiOverrides)
        ensures
            ov.total_mem_tenths_gb is None,
            ov.cpu_name is None,
            ov.cpu_max_clock_mhz is None,
            ov.cpu_cores is None,
            ov.cpu_threads is None,
            ov.gpu_name is None,
            ov.os is None,
    {
        DmiOverrides {
            total_mem_tenths_gb: None,
            cpu_name: None,
            cpu_max_clock_mhz: None,
            cpu_cores: None,
            cpu_threads: None,
            gpu_name: None,
            os: None,
        }
    }
}

/// Headline hardware summary of a result. Memory is in tenths of a GB.
pub struct Hardware {
    pub cpu_brand: String,
    pub cpu_cores: usize,
    pub cpu_threads: usize,
    pub cpu_max_clock_mhz: u64,
    pub mem_total_tenths_gb: i128,
    pub gpu_name: String,
    pub os: String,
}

/// Text of an optional field, or `fallback` when it is absent.
pub open spec fn text_or(v: Option<String>, fallback: Seq<char>) -> Seq<char> {
    match v {
        Some(s) => s@,
        None => fallback,
    }
}

/// Text of an optional field when present and non-empty, else `fallback`.
pub open spec fn nonempty_text_or(v: Option<String>, fallback: Seq<char>) -> Seq<char> {
    match v {
        Some(s) => if s@.len() > 0 { s@ } else { fallback },
        None => fallback,
    }
}

fn text_or_default(v: &Option<String>, fallback: &str) -> (s: String)
    ensures
        s@ == text_or(*v, fallback@),
{
    match v {
        Some(t) => t.clone(),
        None => String::from_str(fallback),
    }
}

/// Assemble the hardware summary: inventory values where known, otherwise
/// "Unknown ..." names, the logical thread count for core and thread counts,
/// and zero for clock and memory.
pub fn hardware_from(ov: &DmiOverrides, threads_fallback: usize) -> (hw: Hardware)
    ensures
        hw.cpu_brand@ == text_or(ov.cpu_name, "Unknown CPU"@),
        hw.cpu_cores == (match ov.cpu_cores { Some(c) => c, None => threads_fallback }),
        hw.cpu_threads == (match ov.cpu_threads { Some(t) => t, None => threads_fallback }),
        hw.cpu_max_clock_mhz == (match ov.cpu_max_clock_mhz { Some(m) => m, None => 0 }),
        hw.mem_total_tenths_gb == (match ov.total_mem_tenths_gb { Some(m) => m, None => 0 }),
        hw.gpu_name@ == nonempty_text_or(ov.gpu_name, "Unknown GPU"@),
        hw.os@ == text_or(ov.os, "Unknown OS"@),
{
    let gpu_name = match &ov.gpu_name {
        Some(g) => if g.unicode_len() > 0 {
            g.clone()
        } else {
            String::from_str("Unknown GPU")
        },
        None => String::from_str("Unknown GPU"),
    };
    Hardware {
        cpu_brand: text_or_default(&ov.cpu_name, "Unknown CPU"),
        cpu_cores: match ov.cpu_cores {
            Some(c) => c,
            None => threads_fallback,
        },
        cpu_threads: match ov.cpu_threads {
            Some(t) => t,
            None => threads_fallback,
        },
        cpu_max_clock_mhz: match ov.cpu_max_clock_mhz {
            Some(m) => m,
            None => 0,
        },
        mem_total_tenths_gb: match ov.total_mem_tenths_gb {
            Some(m) => m,
            None => 0,
        },
        gpu_name,
        os: text_or_default(&ov.os, "Unknown OS"),
    }
}

/// Lowercase form of a string (Unicode `Lowercase` mapping).
pub uninterp spec fn lowercase_of(s: Seq<char>) -> Seq<char>;

/// Lowercase copy of `s`, computed by `str::to_lowercase`. Trusted: the
/// result is that function's value on `s`.
#[verifier::external_body]
fn lowercase(s: &str) -> (l: String)
    ensures
        l@ == lowercase_of(s@),
{
    s.to_lowercase()
}

/// The value of an inventory text field: trimmed, and absent when nothing
/// but white space is left.
pub open spec fn field_value_of(raw: Seq<char>) -> Option<Seq<char>> {
    if trimmed(raw).len() == 0 {
        None
    } else {
        Some(trimmed(raw))
    }
}

/// Clean an inventory text field: trim it, and drop it when empty.
pub fn clean_field_text(raw: &str) -> (v: Option<String>)
    ensures
        v is None <==> field_value_of(raw@) is None,
        v matches Some(s) ==> field_value_of(raw@) == Some(s@),
{
    let t = trim_text(raw);
    if t.unicode_len() == 0 {
        None
    } else {
        Some(String::from_str(t))
    }
}

/// Display adapter names (lowercase) of virtual, remote-desktop and
/// fallback drivers, which are not what a user means by "the GPU".
pub open spec fn is_virtual_adapter(lower: Seq<char>) -> bool {
    ||| has_substring(lower, "virtual"@)
    ||| has_substring(lower, "idd"@)
    ||| has_substring(lower, "oray"@)
    ||| has_substring(lower, "todesk"@)
    ||| has_substring(lower, "parsec"@)
    ||| has_substring(lower, "sunshine"@)
    ||| has_substring(lower, "spacedesk"@)
    ||| has_substring(lower, "duet"@)
    ||| has_substring(lower, "remote"@)
    ||| has_substring(lower, "meeting"@)
    ||| has_substring(lower, "basic display"@)
    ||| has_substring(lower, "basic render"@)
    ||| has_substring(lower, "mirror"@)
    ||| has_substring(lower, "rdp"@)
}

/// Adapter names (lowercase) of discrete graphics vendors.
pub open spec fn is_discrete_adapter(lower: Seq<char>) -> bool {
    ||| has_substring(lower, "nvidia"@)
    ||| has_substring(lower, "geforce"@)
    ||| has_substring(lower, "radeon"@)
    ||| has_substring(lower, "amd"@)
}

/// A named, non-virtual adapter.
pub open spec fn is_real_gpu(name: Seq<char>) -> bool {
    name.len() > 0 && !is_virtual_adapter(lowercase_of(name))
}

/// A real adapter of a discrete vendor.
pub open spec fn is_discrete_gpu(name: Seq<char>) -> bool {
    is_real_gpu(name) && is_discrete_adapter(lowercase_of(name))
}

/// First name at or after `from` satisfying `p`.
pub open spec fn first_where(names: Seq<Seq<char>>, p: spec_fn(Seq<char>) -> bool, from: int) -> Option<
    Seq<char>,
>
    decreases names.len() - from,
{
    if from < 0 || from >= names.len() {
        None
    } else if p(names[from]) {
        Some(names[from])
    } else {
        first_where(names, p, from + 1)
    }
}

pub open spec fn discrete_test() -> spec_fn(Seq<char>) -> bool {
    |n: Seq<char>| is_discrete_gpu(n)
}

pub open spec fn real_test() -> spec_fn(Seq<char>) -> bool {
    |n: Seq<char>| is_real_gpu(n)
}

pub open spec fn named_test() -> spec_fn(Seq<char>) -> bool {
    |n: Seq<char>| n.len() > 0
}

/// The adapter a user cares about: the first real discrete card, else the
/// first real adapter, else the first adapter with a name.
pub open spec fn primary_gpu_of(names: Seq<Seq<char>>) -> Option<Seq<char>> {
    let discrete = first_where(names, discrete_test(), 0);
    let real_pick = first_where(names, real_test(), 0);
    let named = first_where(names, named_test(), 0);
    if discrete is Some {
        discrete
    } else if real_pick is Some {
        real_pick
    } else {
        named
    }
}

/// The views of a list of names.
pub open spec fn name_views(names: Seq<String>) -> Seq<Seq<char>> {
    names.map_values(|s: String| s@)
}

/// Whether a lowercase adapter name is that of a virtual, remote-desktop or
/// fallback display driver.
pub fn is_virtual_lower(lower: &str) -> (b: bool)
    ensures
        b == is_virtual_adapter(lower@),
{
    contains_text(lower, "virtual") || contains_text(lower, "idd") || contains_text(lower, "oray")
        || contains_text(lower, "todesk") || contains_text(lower, "parsec") || contains_text(
        lower,
        "sunshine",
    ) || contains_text(lower, "spacedesk") || contains_text(lower, "duet") || contains_text(
        lower,
        "remote",
    ) || contains_text(lower, "meeting") || contains_text(lower, "basic display")
        || contains_text(lower, "basic render") || contains_text(lower, "mirror")
        || contains_text(lower, "rdp")
}

/// Whether a lowercase adapter name is that of a discrete graphics vendor.
pub fn is_discrete_lower(lower: &str) -> (b: bool)
    ensures
        b == is_discrete_adapter(lower@),
{
    contains_text(lower, "nvidia") || contains_text(lower, "geforce") || contains_text(
        lower,
        "radeon",
    ) || contains_text(lower, "amd")
}

/// Choose the GPU a user actually cares about: skip virtual / remote-desktop
/// display adapters and prefer a discrete card, then an integrated one.
pub fn pick_primary_gpu(gpu_names: &[String]) -> (pick: Option<String>)
    ensures
        pick is None <==> primary_gpu_of(name_views(gpu_names@)) is None,
        pick matches Some(p) ==> primary_gpu_of(name_views(gpu_names@)) == Some(p@),
{
    let ghost names = name_views(gpu_names@);
    let ghost p_discrete = discrete_test();
    let ghost p_real = real_test();
    let ghost p_named = named_test();
    let n = gpu_names.len();
    let mut discrete: Option<usize> = None;
    let mut first_real: Option<usize> = None;
    let mut named: Option<usize> = None;
    let mut i: usize = 0;
    while i < n
        invariant
            n == gpu_names@.len(),
            names == name_views(gpu_names@),
            names.len() == n,
            p_discrete == discrete_test(),
            p_real == real_test(),
            p_named == named_test(),
            i <= n,
            discrete matches Some(k) ==> k < n && first_where(names, p_discrete, 0) == Some(
                names[k as int],
            ),
            discrete is None ==> first_where(names, p_discrete, 0) == first_where(
                names,
                p_discrete,
                i as int,
            ),
            first_real matches Some(k) ==> k < n && first_where(names, p_real, 0) == Some(
                names[k as int],
            ),
            first_real is None ==> first_where(names, p_real, 0) == first_where(names, p_real, i as int),
            named matches Some(k) ==> k < n && first_where(names, p_named, 0) == Some(
                names[k as int],
            ),
            named is None ==> first_where(names, p_named, 0) == first_where(
                names,
                p_named,
                i as int,
            ),
        decreases n - i,
    {
        let name = gpu_names[i].as_str();
        assert(names[i as int] == name@);
        let has_name = name.unicode_len() > 0;
        let lower = lowercase(name);
        let is_real = has_name && !is_virtual_lower(lower.as_str());
        let is_discrete = is_real && is_discrete_lower(lower.as_str());
        assert(is_real == p_real(names[i as int]));
        assert(is_discrete == p_discrete(names[i as int]));
        assert(has_name == p_named(names[i as int]));
        if discrete.is_none() && is_discrete {
            discrete = Some(i);
        }
        if first_real.is_none() && is_real {
            first_real = Some(i);
        }
        if named.is_none() && has_name {
            named = Some(i);
        }
        i = i + 1;
    }
    assert(first_where(names, p_discrete, n as int) == None::<Seq<char>>);
    assert(first_where(names, p_real, n as int) == None::<Seq<char>>);
    assert(first_where(names, p_named, n as int) == None::<Seq<char>>);
    let chosen = match discrete {
        Some(k) => Some(k),
        None => match first_real {
            Some(k) => Some(k),
            None => named,
        },
    };
    match chosen {
        Some(k) => Some(gpu_names[k].clone()),
        None => None,
    }
}

/// What `first_where` finds satisfies the test and is one of the names
/// searched; and it finds something whenever some searched name passes.
pub proof fn lemma_first_where(names: Seq<Seq<char>>, p: spec_fn(Seq<char>) -> bool, from: int)
    requires
        0 <= from,
    ensures
        first_where(names, p, from) matches Some(x) ==> p(x) && exists|i: int|
            from <= i < names.len() && names[i] == x,
        (exists|i: int| from <= i < names.len() && p(names[i])) ==> first_where(
            names,
            p,
            from,
        ) is Some,
    decreases names.len() - from,
{
    if from < names.len() && !p(names[from]) {
        lemma_first_where(names, p, from + 1);
        if exists|i: int| from <= i < names.len() && p(names[i]) {
            let i = choose|i: int| from <= i < names.len() && p(names[i]);
            assert(from + 1 <= i);
        }
    }
}

/// The chosen adapter is one of the detected ones, and there is a choice
/// exactly when some adapter has a name.
pub proof fn lemma_primary_gpu_is_detected(names: Seq<Seq<char>>)
    ensures
        primary_gpu_of(names) matches Some(x) ==> names.contains(x) && x.len() > 0,
        primary_gpu_of(names) is Some <==> exists|i: int| 0 <= i < names.len() && names[i].len() > 0,
{
    lemma_first_where(names, discrete_test(), 0);
    lemma_first_where(names, real_test(), 0);
    lemma_first_where(names, named_test(), 0);
    if exists|i: int| 0 <= i < names.len() && names[i].len() > 0 {
        let i = choose|i: int| 0 <= i < names.len() && names[i].len() > 0;
        assert(named_test()(names[i]));
    }
    if let Some(x) = primary_gpu_of(names) {
        let i = choose|i: int| 0 <= i < names.len() && names[i] == x;
        assert(names[i] == x);
    }
}

/// A virtual or remote-desktop adapter is never chosen while a real one is
/// present, and a discrete card is chosen whenever a real one is present.
pub proof fn lemma_primary_gpu_prefers_real(names: Seq<Seq<char>>)
    ensures
        (exists|i: int| 0 <= i < names.len() && is_real_gpu(names[i])) ==> (primary_gpu_of(names)
            matches Some(x) && is_real_gpu(x)),
        (exists|i: int| 0 <= i < names.len() && is_discrete_gpu(names[i])) ==> (primary_gpu_of(
            names,
        ) matches Some(x) && is_discrete_gpu(x)),
{
    lemma_first_where(names, discrete_test(), 0);
    lemma_first_where(names, real_test(), 0);
    if exists|i: int| 0 <= i < names.len() && is_real_gpu(names[i]) {
        let i = choose|i: int| 0 <= i < names.len() && is_real_gpu(names[i]);
        assert(real_test()(names[i]));
    }
    if exists|i: int| 0 <= i < names.len() && is_discrete_gpu(names[i]) {
        let i = choose|i: int| 0 <= i < names.len() && is_discrete_gpu(names[i]);
        assert(discrete_test()(names[i]));
    }
}

/// An adapter whose lowercase name mentions NVIDIA, GeForce, Radeon or AMD
/// is a discrete card; one that mentions any virtual, remote-desktop or
/// fallback driver keyword is a virtual adapter.
pub proof fn lemma_adapter_keywords(lower: Seq<char>)
    ensures
        has_substring(lower, "nvidia"@) ==> is_discrete_adapter(lower),
        has_substring(lower, "geforce"@) ==> is_discrete_adapter(lower),
        has_substring(lower, "radeon"@) ==> is_discrete_adapter(lower),
        has_substring(lower, "amd"@) ==> is_discrete_adapter(lower),
        has_substring(lower, "virtual"@) ==> is_virtual_adapter(lower),
        has_substring(lower, "idd"@) ==> is_virtual_adapter(lower),
        has_substring(lower, "oray"@) ==> is_virtual_adapter(lower),
        has_substring(lower, "todesk"@) ==> is_virtual_adapter(lower),
        has_substring(lower, "parsec"@) ==> is_virtual_adapter(lower),
        has_substring(lower, "sunshine"@) ==> is_virtual_adapter(lower),
        has_substring(lower, "spacedesk"@) ==> is_virtual_adapter(lower),
        has_substring(lower, "duet"@) ==> is_virtual_adapter(lower),
        has_substring(lower, "remote"@) ==> is_virtual_adapter(lower),
        has_substring(lower, "meeting"@) ==> is_virtual_adapter(lower),
        has_substring(lower, "basic display"@) ==> is_virtual_adapter(lower),
        has_substring(lower, "basic render"@) ==> is_virtual_adapter(lower),
        has_substring(lower, "mirror"@) ==> is_virtual_adapter(lower),
        has_substring(lower, "rdp"@) ==> is_virtual_adapter(lower),
{
}

/// With a real integrated adapter and a real NVIDIA card among the adapters,
/// the NVIDIA card (or another discrete card listed before it) is chosen,
/// never the integrated one.
pub proof fn lemma_nvidia_beats_integrated(names: Seq<Seq<char>>, k: int)
    requires
        0 <= k < names.len(),
        is_real_gpu(names[k]),
        has_substring(lowercase_of(names[k]), "nvidia"@),
    ensures
        primary_gpu_of(names) matches Some(x) && is_discrete_gpu(x),
{
    lemma_adapter_keywords(lowercase_of(names[k]));
    assert(is_discrete_gpu(names[k]));
    lemma_primary_gpu_prefers_real(names);
}

} // verus!
