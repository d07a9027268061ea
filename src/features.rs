//! The five hardening checks, each a pure function of an image's view, and
//! the score that sums them up.

use vstd::prelude::*;
use vstd::string::{StrSliceExecFns, StringExecFns};
use crate::image::{
    contains_run, is_named, ImageModel, ImageView, Segment, SymbolModel, DT_BIND_NOW, DT_FLAGS_1,
    ET_DYN, PF_X, PT_GNU_STACK,
};

verus! {

/// Whether relocation data is made read-only after start-up. `NoRelro` is
/// the state that reports call "None".
#[derive(Clone, Copy, Debug, PartialEq, Eq, Structural)]
pub enum RelroStatus {
    Full,
    Partial,
    NoRelro,
}

/// Whether the image is position-independent.
#[derive(Clone, Copy, Debug, PartialEq, Eq, Structural)]
pub enum PieStatus {
    PIE,
    NonPIE,
}

/// Whether the stack is declared non-executable.
#[derive(Clone, Copy, Debug, PartialEq, Eq, Structural)]
pub enum NxStatus {
    NX,
    NoNX,
}

/// Whether the code is instrumented with stack canaries.
#[derive(Clone, Copy, Debug, PartialEq, Eq, Structural)]
pub enum CanaryStatus {
    Enabled,
    Disabled,
}

/// Whether bounds-checked variants of libc calls are linked in.
#[derive(Clone, Copy, Debug, PartialEq, Eq, Structural)]
pub enum FortifyStatus {
    Enabled,
    Disabled,
}

/// The state of every hardening mechanism of one image.
#[derive(Clone, Copy, Debug, PartialEq, Eq, Structural)]
pub struct SecurityFeatures {
    pub relro: RelroStatus,
    pub pie: PieStatus,
    pub nx: NxStatus,
    pub canary: CanaryStatus,
    pub fortify_source: FortifyStatus,
}

/// Name of the handler that canary-instrumented code calls on a smashed stack.
pub open spec fn canary_handler() -> Seq<char> {
    "__stack_chk_fail"@
}

/// Marker carried by the names of the fortified libc variants.
pub open spec fn fortify_marker() -> Seq<char> {
    "_chk"@
}

/// The image has a dynamic section with an entry of tag `tag`.
pub open spec fn has_dynamic_entry(m: ImageModel, tag: u64) -> bool {
    match m.dynamic {
        Some(tags) => tags.contains(tag),
        None => false,
    }
}

pub open spec fn relro_of(m: ImageModel) -> RelroStatus {
    if has_dynamic_entry(m, DT_FLAGS_1) && has_dynamic_entry(m, DT_BIND_NOW) {
        RelroStatus::Full
    } else if has_dynamic_entry(m, DT_FLAGS_1) {
        RelroStatus::Partial
    } else {
        RelroStatus::NoRelro
    }
}

pub open spec fn pie_of(m: ImageModel) -> PieStatus {
    if m.image_type == ET_DYN {
        PieStatus::PIE
    } else {
        PieStatus::NonPIE
    }
}

/// The segment is the stack-permission segment and lacks execute permission.
pub open spec fn is_non_exec_stack(s: Segment) -> bool {
    s.p_type == PT_GNU_STACK && s.p_flags & PF_X == 0
}

pub open spec fn nx_of(m: ImageModel) -> NxStatus {
    if exists|i: int| 0 <= i < m.segments.len() && is_non_exec_stack(#[trigger] m.segments[i]) {
        NxStatus::NX
    } else {
        NxStatus::NoNX
    }
}

pub open spec fn is_canary_symbol(s: SymbolModel) -> bool {
    is_named(s) && s.name->0 == canary_handler()
}

pub open spec fn canary_of(m: ImageModel) -> CanaryStatus {
    if exists|i: int| 0 <= i < m.symbols.len() && is_canary_symbol(#[trigger] m.symbols[i]) {
        CanaryStatus::Enabled
    } else {
        CanaryStatus::Disabled
    }
}

pub open spec fn is_fortified_symbol(s: SymbolModel) -> bool {
    is_named(s) && contains_run(s.name->0, fortify_marker())
}

pub open spec fn fortify_of(m: ImageModel) -> FortifyStatus {
    if exists|i: int| 0 <= i < m.symbols.len() && is_fortified_symbol(#[trigger] m.symbols[i]) {
        FortifyStatus::Enabled
    } else {
        FortifyStatus::Disabled
    }
}

/// Every feature of an image, each decided by its own check.
pub open spec fn features_of(m: ImageModel) -> SecurityFeatures {
    SecurityFeatures {
        relro: relro_of(m),
        pie: pie_of(m),
        nx: nx_of(m),
        canary: canary_of(m),
        fortify_source: fortify_of(m),
    }
}

/// Scans the dynamic section, if any, for an entry of tag `tag`.
pub fn has_dynamic_tag(image: &ImageView, tag: u64) -> (r: bool)
    ensures
        r == has_dynamic_entry(image@, tag),
{
    match &image.dynamic {
        None => false,
        Some(tags) => {
            assert(image@.dynamic == Some(tags@));
            let mut i: usize = 0;
            while i < tags.len()
                invariant
                    image@.dynamic == Some(tags@),
                    0 <= i <= tags@.len(),
                    forall|j: int| 0 <= j < i ==> tags@[j] != tag,
                decreases tags@.len() - i,
            {
                if tags[i] == tag {
                    assert(tags@.contains(tag));
                    return true;
                }
                i += 1;
            }
            false
        }
    }
}

/// Full with both the flags entry and the bind-now entry, Partial with the
/// flags entry alone, None otherwise (a missing dynamic section included).
pub fn relro_status(image: &ImageView) -> (r: RelroStatus)
    ensures
        r == relro_of(image@),
        r == RelroStatus::Full <==> (has_dynamic_entry(image@, DT_FLAGS_1) && has_dynamic_entry(image@, DT_BIND_NOW)),
        r == RelroStatus::Partial <==> (has_dynamic_entry(image@, DT_FLAGS_1) && !has_dynamic_entry(image@, DT_BIND_NOW)),
        r == RelroStatus::NoRelro <==> !has_dynamic_entry(image@, DT_FLAGS_1),
{
    let flags = has_dynamic_tag(image, DT_FLAGS_1);
    let bind_now = has_dynamic_tag(image, DT_BIND_NOW);
    if flags && bind_now {
        RelroStatus::Full
    } else if flags {
        RelroStatus::Partial
    } else {
        RelroStatus::NoRelro
    }
}

/// PIE exactly when the image is of the shared-object type.
pub fn pie_status(image: &ImageView) -> (r: PieStatus)
    ensures
        r == pie_of(image@),
        r == PieStatus::PIE <==> image.image_type == ET_DYN,
{
    if image.image_type == ET_DYN {
        PieStatus::PIE
    } else {
        PieStatus::NonPIE
    }
}

/// NX exactly when a stack-permission segment without execute permission
/// exists; with no such segment the stack is taken as executable.
pub fn nx_status(image: &ImageView) -> (r: NxStatus)
    ensures
        r == nx_of(image@),
        r == NxStatus::NX <==> exists|i: int|
            0 <= i < image.segments@.len() && is_non_exec_stack(#[trigger] image.segments@[i]),
{
    let mut i: usize = 0;
    while i < image.segments.len()
        invariant
            0 <= i <= image.segments@.len(),
            forall|j: int| 0 <= j < i ==> !is_non_exec_stack(#[trigger] image.segments@[j]),
        decreases image.segments@.len() - i,
    {
        let s = image.segments[i];
        if s.p_type == PT_GNU_STACK && s.p_flags & PF_X == 0 {
            assert(is_non_exec_stack(image@.segments[i as int]));
            return NxStatus::NX;
        }
        i += 1;
    }
    NxStatus::NoNX
}

/// Whether `needle` occurs in `hay` as a contiguous run of characters.
pub fn contains_text(hay: &str, needle: &str) -> (r: bool)
    ensures
        r == contains_run(hay@, needle@),
{
    let n = hay.unicode_len();
    let m = needle.unicode_len();
    if m > n {
        return false;
    }
    if m == 0 {
        assert(hay@.subrange(0, 0 + needle@.len() as int) =~= needle@);
        return true;
    }
    let mut k: usize = 0;
    while k <= n - m
        invariant
            n == hay@.len(),
            m == needle@.len(),
            1 <= m <= n,
            0 <= k <= n - m + 1,
            forall|j: int| 0 <= j < k ==> #[trigger] hay@.subrange(j, j + m) != needle@,
        decreases n - m + 1 - k,
    {
        let mut t: usize = 0;
        let mut same = true;
        while t < m
            invariant
                n == hay@.len(),
                m == needle@.len(),
                k + m <= n,
                0 <= t <= m,
                same ==> forall|u: int| 0 <= u < t ==> hay@[k + u] == needle@[u],
                !same ==> hay@.subrange(k as int, k + m) != needle@,
            decreases m - t,
        {
            if same && hay.get_char(k + t) != needle.get_char(t) {
                assert(hay@.subrange(k as int, k + m)[t as int] != needle@[t as int]);
                same = false;
            }
            t += 1;
        }
        if same {
            assert(hay@.subrange(k as int, k + m) =~= needle@);
            return true;
        }
        k += 1;
    }
    false
}

/// Enabled exactly when some named symbol is called `__stack_chk_fail`;
/// a similar but different name does not count.
pub fn canary_status(image: &ImageView) -> (r: CanaryStatus)
    ensures
        r == canary_of(image@),
        r == CanaryStatus::Enabled <==> exists|i: int|
            0 <= i < image@.symbols.len() && is_canary_symbol(#[trigger] image@.symbols[i]),
{
    let handler = String::from_str("__stack_chk_fail");
    let mut i: usize = 0;
    while i < image.symbols.len()
        invariant
            0 <= i <= image.symbols@.len(),
            handler@ == canary_handler(),
            forall|j: int| 0 <= j < i ==> !is_canary_symbol(#[trigger] image@.symbols[j]),
        decreases image.symbols@.len() - i,
    {
        let s = &image.symbols[i];
        if s.name_offset != 0 {
            if let Some(name) = &s.name {
                if *name == handler {
                    assert(is_canary_symbol(image@.symbols[i as int]));
                    return CanaryStatus::Enabled;
                }
            }
        }
        i += 1;
    }
    CanaryStatus::Disabled
}

/// Enabled exactly when the name of at least one named symbol contains `_chk`.
pub fn fortify_status(image: &ImageView) -> (r: FortifyStatus)
    ensures
        r == fortify_of(image@),
        r == FortifyStatus::Enabled <==> exists|i: int|
            0 <= i < image@.symbols.len() && is_fortified_symbol(#[trigger] image@.symbols[i]),
{
    let mut i: usize = 0;
    while i < image.symbols.len()
        invariant
            0 <= i <= image.symbols@.len(),
            forall|j: int| 0 <= j < i ==> !is_fortified_symbol(#[trigger] image@.symbols[j]),
        decreases image.symbols@.len() - i,
    {
        let s = &image.symbols[i];
        if s.name_offset != 0 {
            if let Some(name) = &s.name {
                if contains_text(name.as_str(), "_chk") {
                    assert(is_fortified_symbol(image@.symbols[i as int]));
                    return FortifyStatus::Enabled;
                }
            }
        }
        i += 1;
    }
    FortifyStatus::Disabled
}

pub open spec fn relro_points(r: RelroStatus) -> int {
    match r {
        RelroStatus::Full => 2,
        RelroStatus::Partial => 1,
        RelroStatus::NoRelro => 0,
    }
}

pub open spec fn pie_points(p: PieStatus) -> int {
    if p == PieStatus::PIE { 2 } else { 0 }
}

pub open spec fn nx_points(n: NxStatus) -> int {
    if n == NxStatus::NX { 2 } else { 0 }
}

pub open spec fn canary_points(c: CanaryStatus) -> int {
    if c == CanaryStatus::Enabled { 2 } else { 0 }
}

pub open spec fn fortify_points(f: FortifyStatus) -> int {
    if f == FortifyStatus::Enabled { 2 } else { 0 }
}

/// The score: the sum of each feature's weight.
pub open spec fn score_of(f: SecurityFeatures) -> int {
    relro_points(f.relro) + pie_points(f.pie) + nx_points(f.nx) + canary_points(f.canary)
        + fortify_points(f.fortify_source)
}

/// `a` protects at least as much as `b`: Full over Partial over none.
pub open spec fn relro_at_least(a: RelroStatus, b: RelroStatus) -> bool {
    a == RelroStatus::Full || b == RelroStatus::NoRelro || a == b
}

/// Every feature of `g` is at least as strong as that of `f`.
pub open spec fn at_least_as_hardened(g: SecurityFeatures, f: SecurityFeatures) -> bool {
    &&& relro_at_least(g.relro, f.relro)
    &&& (g.pie == PieStatus::PIE || f.pie == PieStatus::NonPIE)
    &&& (g.nx == NxStatus::NX || f.nx == NxStatus::NoNX)
    &&& (g.canary == CanaryStatus::Enabled || f.canary == CanaryStatus::Disabled)
    &&& (g.fortify_source == FortifyStatus::Enabled || f.fortify_source == FortifyStatus::Disabled)
}

/// Every mechanism in its strongest state.
pub open spec fn fully_hardened() -> SecurityFeatures {
    SecurityFeatures {
        relro: RelroStatus::Full,
        pie: PieStatus::PIE,
        nx: NxStatus::NX,
        canary: CanaryStatus::Enabled,
        fortify_source: FortifyStatus::Enabled,
    }
}

/// Every mechanism absent.
pub open spec fn unhardened() -> SecurityFeatures {
    SecurityFeatures {
        relro: RelroStatus::NoRelro,
        pie: PieStatus::NonPIE,
        nx: NxStatus::NoNX,
        canary: CanaryStatus::Disabled,
        fortify_source: FortifyStatus::Disabled,
    }
}

impl SecurityFeatures {
    /// Runs every check on the image; each feature gets a definite state,
    /// decided by its own check alone.
    pub fn detect(image: &ImageView) -> (r: SecurityFeatures)
        ensures
            r == features_of(image@),
            r.relro == relro_of(image@),
            r.pie == pie_of(image@),
            r.nx == nx_of(image@),
            r.canary == canary_of(image@),
            r.fortify_source == fortify_of(image@),
    {
        SecurityFeatures {
            relro: relro_status(image),
            pie: pie_status(image),
            nx: nx_status(image),
            canary: canary_status(image),
            fortify_source: fortify_status(image),
        }
    }

    /// Two points for each feature in its strongest state, one for partial
    /// RELRO; at most 10.
    pub fn score(&self) -> (r: u8)
        ensures
            r as int == score_of(*self),
            r <= 10,
    {
        let mut score: u8 = 0;
        match self.relro {
            RelroStatus::Full => score += 2,
            RelroStatus::Partial => score += 1,
            RelroStatus::NoRelro => {},
        }
        if self.pie == PieStatus::PIE {
            score += 2;
        }
        if self.nx == NxStatus::NX {
            score += 2;
        }
        if self.canary == CanaryStatus::Enabled {
            score += 2;
        }
        if self.fortify_source == FortifyStatus::Enabled {
            score += 2;
        }
        score
    }
}

/// The score never decreases when any feature gets stronger, whatever the
/// others are.
pub proof fn lemma_score_monotonic(f: SecurityFeatures, g: SecurityFeatures)
    requires
        at_least_as_hardened(g, f),
    ensures
        score_of(f) <= score_of(g),
{
}

/// The score always lies between 0 and 10.
pub proof fn lemma_score_bounds(f: SecurityFeatures)
    ensures
        0 <= score_of(f) <= 10,
{
}

/// A fully hardened image scores 10, an image with no mitigation 0.
pub proof fn lemma_score_extremes()
    ensures
        score_of(fully_hardened()) == 10,
        score_of(unhardened()) == 0,
{
}

} // verus!
