//! The analysis of one image: its architecture, its hardening features, the
//! score and the text report.

use vstd::prelude::*;
use vstd::string::{StrSliceExecFns, StringExecFns};
use crate::elf::{has_elf_magic, parse_image, parsed_elf};
use crate::features::{
    features_of, score_of, CanaryStatus, FortifyStatus, NxStatus, PieStatus, RelroStatus,
    SecurityFeatures,
};
use crate::image::{ImageModel, ImageView, EM_386, EM_AARCH64, EM_ARM, EM_X86_64};

verus! {

/// The instruction sets this analysis accepts. Any other machine code is
/// refused with `BinaryAnalysisError::UnsupportedArchitecture`.
#[derive(Clone, Copy, Debug, PartialEq, Eq, Structural)]
pub enum Architecture {
    X86_64,
    X86,
    ARM,
    AARCH64,
}

/// Why an image could not be analysed.
#[derive(Clone, Debug)]
pub enum BinaryAnalysisError {
    /// The file could not be read; the text describes the cause.
    Io(String),
    /// The bytes are not a well-formed ELF image; the text is the parser's.
    InvalidElf(String),
    /// The header names a machine outside `Architecture`.
    UnsupportedArchitecture(u16),
}

/// The result of analysing one image.
#[derive(Clone, Debug)]
pub struct ELFBinary {
    pub path: String,
    pub architecture: Architecture,
    pub security_features: SecurityFeatures,
}

pub open spec fn arch_of(machine: u16) -> Option<Architecture> {
    if machine == EM_X86_64 {
        Some(Architecture::X86_64)
    } else if machine == EM_386 {
        Some(Architecture::X86)
    } else if machine == EM_ARM {
        Some(Architecture::ARM)
    } else if machine == EM_AARCH64 {
        Some(Architecture::AARCH64)
    } else {
        None
    }
}

/// What analysing an image of this structure, found at `path`, yields.
pub open spec fn analysis_of(path: String, m: ImageModel) -> Result<ELFBinary, BinaryAnalysisError> {
    match arch_of(m.machine) {
        Some(a) => Ok(ELFBinary { path, architecture: a, security_features: features_of(m) }),
        None => Err(BinaryAnalysisError::UnsupportedArchitecture(m.machine)),
    }
}

impl Architecture {
    /// Classifies a header's machine code.
    pub fn from_machine(machine: u16) -> (r: Result<Architecture, BinaryAnalysisError>)
        ensures
            r == match arch_of(machine) {
                Some(a) => Ok::<Architecture, BinaryAnalysisError>(a),
                None => Err(BinaryAnalysisError::UnsupportedArchitecture(machine)),
            },
    {
        if machine == EM_X86_64 {
            Ok(Architecture::X86_64)
        } else if machine == EM_386 {
            Ok(Architecture::X86)
        } else if machine == EM_ARM {
            Ok(Architecture::ARM)
        } else if machine == EM_AARCH64 {
            Ok(Architecture::AARCH64)
        } else {
            Err(BinaryAnalysisError::UnsupportedArchitecture(machine))
        }
    }
}

impl ELFBinary {
    /// Analyses an image already read into its structure.
    pub fn from_image(path: String, image: &ImageView) -> (r: Result<ELFBinary, BinaryAnalysisError>)
        ensures
            r == analysis_of(path, image@),
    {
        let architecture = match Architecture::from_machine(image.machine) {
            Ok(a) => a,
            Err(e) => return Err(e),
        };
        let security_features = SecurityFeatures::detect(image);
        Ok(ELFBinary { path, architecture, security_features })
    }

    /// Analyses the contents `data` of the file at `path`. Bytes that the ELF
    /// parser refuses give `InvalidElf`; a buffer without the ELF magic is
    /// always refused.
    pub fn analyze(path: String, data: &[u8]) -> (r: Result<ELFBinary, BinaryAnalysisError>)
        ensures
            match parsed_elf(data@) {
                Some(m) => r == analysis_of(path, m),
                None => r is Err && r->Err_0 is InvalidElf,
            },
            !has_elf_magic(data@) ==> (r is Err && r->Err_0 is InvalidElf),
    {
        match parse_image(data) {
            Ok(image) => ELFBinary::from_image(path, &image),
            Err(msg) => Err(BinaryAnalysisError::InvalidElf(msg)),
        }
    }

    /// The score of the image's features, between 0 and 10.
    pub fn security_score(&self) -> (r: u8)
        ensures
            r as int == score_of(self.security_features),
            r <= 10,
    {
        self.security_features.score()
    }
}

pub open spec fn arch_label(a: Architecture) -> Seq<char> {
    match a {
        Architecture::X86_64 => "X86_64"@,
        Architecture::X86 => "X86"@,
        Architecture::ARM => "ARM"@,
        Architecture::AARCH64 => "AARCH64"@,
    }
}

pub open spec fn relro_label(r: RelroStatus) -> Seq<char> {
    match r {
        RelroStatus::Full => "Full"@,
        RelroStatus::Partial => "Partial"@,
        RelroStatus::NoRelro => "None"@,
    }
}

pub open spec fn pie_label(p: PieStatus) -> Seq<char> {
    match p {
        PieStatus::PIE => "PIE"@,
        PieStatus::NonPIE => "NonPIE"@,
    }
}

pub open spec fn nx_label(n: NxStatus) -> Seq<char> {
    match n {
        NxStatus::NX => "NX"@,
        NxStatus::NoNX => "NoNX"@,
    }
}

pub open spec fn canary_label(c: CanaryStatus) -> Seq<char> {
    match c {
        CanaryStatus::Enabled => "Enabled"@,
        CanaryStatus::Disabled => "Disabled"@,
    }
}

pub open spec fn fortify_label(f: FortifyStatus) -> Seq<char> {
    match f {
        FortifyStatus::Enabled => "Enabled"@,
        FortifyStatus::Disabled => "Disabled"@,
    }
}

/// Decimal digits of a score between 0 and 10.
pub open spec fn score_text(n: int) -> Seq<char> {
    if n == 10 {
        "10"@
    } else {
        seq!["0123456789"@[n]]
    }
}

/// The text report: path, architecture, each feature by name, and the score.
pub open spec fn report_text(b: ELFBinary) -> Seq<char> {
    "Binary Analysis Report for: "@ + b.path@ + "\nArchitecture: "@ + arch_label(b.architecture)
        + "\nSecurity Features:\n- RELRO: "@ + relro_label(b.security_features.relro)
        + "\n- PIE: "@ + pie_label(b.security_features.pie) + "\n- NX: "@ + nx_label(
        b.security_features.nx,
    ) + "\n- Stack Canary: "@ + canary_label(b.security_features.canary)
        + "\n- FORTIFY_SOURCE: "@ + fortify_label(b.security_features.fortify_source)
        + "\nSecurity Score: "@ + score_text(score_of(b.security_features)) + "/10"@
}

impl Architecture {
    pub fn label(&self) -> (r: &'static str)
        ensures
            r@ == arch_label(*self),
    {
        match self {
            Architecture::X86_64 => "X86_64",
            Architecture::X86 => "X86",
            Architecture::ARM => "ARM",
            Architecture::AARCH64 => "AARCH64",
        }
    }
}

impl RelroStatus {
    pub fn label(&self) -> (r: &'static str)
        ensures
            r@ == relro_label(*self),
    {
        match self {
            RelroStatus::Full => "Full",
            RelroStatus::Partial => "Partial",
            RelroStatus::NoRelro => "None",
        }
    }
}

impl PieStatus {
    pub fn label(&self) -> (r: &'static str)
        ensures
            r@ == pie_label(*self),
    {
        match self {
            PieStatus::PIE => "PIE",
            PieStatus::NonPIE => "NonPIE",
        }
    }
}

impl NxStatus {
    pub fn label(&self) -> (r: &'static str)
        ensures
            r@ == nx_label(*self),
    {
        match self {
            NxStatus::NX => "NX",
            NxStatus::NoNX => "NoNX",
        }
    }
}

impl CanaryStatus {
    pub fn label(&self) -> (r: &'static str)
        ensures
            r@ == canary_label(*self),
    {
        match self {
            CanaryStatus::Enabled => "Enabled",
            CanaryStatus::Disabled => "Disabled",
        }
    }
}

impl FortifyStatus {
    pub fn label(&self) -> (r: &'static str)
        ensures
            r@ == fortify_label(*self),
    {
        match self {
            FortifyStatus::Enabled => "Enabled",
            FortifyStatus::Disabled => "Disabled",
        }
    }
}

/// Decimal digits of a score.
fn score_digits(n: u8) -> (r: &'static str)
    requires
        n <= 10,
    ensures
        r@ == score_text(n as int),
{
    if n == 10 {
        "10"
    } else {
        let digits = "0123456789";
        proof {
            reveal_strlit("0123456789");
        }
        let r = digits.substring_char(n as usize, n as usize + 1);
        assert(r@ =~= seq![digits@[n as int]]);
        r
    }
}

impl ELFBinary {
    /// The text report of this analysis.
    pub fn generate_report(&self) -> (r: String)
        ensures
            r@ == report_text(*self),
    {
        let f = &self.security_features;
        let mut out = String::from_str("Binary Analysis Report for: ");
        out.append(self.path.as_str());
        out.append("\nArchitecture: ");
        out.append(self.architecture.label());
        out.append("\nSecurity Features:\n- RELRO: ");
        out.append(f.relro.label());
        out.append("\n- PIE: ");
        out.append(f.pie.label());
        out.append("\n- NX: ");
        out.append(f.nx.label());
        out.append("\n- Stack Canary: ");
        out.append(f.canary.label());
        out.append("\n- FORTIFY_SOURCE: ");
        out.append(f.fortify_source.label());
        out.append("\nSecurity Score: ");
        out.append(score_digits(self.security_score()));
        out.append("/10");
        out
    }
}

} // verus!
