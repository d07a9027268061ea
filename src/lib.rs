//! Hardening assessment of ELF executables: which exploit mitigations an
//! image carries, and a score summarising them.

pub mod binary;
pub mod elf;
pub mod features;
pub mod image;

pub use binary::{Architecture, BinaryAnalysisError, ELFBinary};
pub use features::{
    CanaryStatus, FortifyStatus, NxStatus, PieStatus, RelroStatus, SecurityFeatures,
};
pub use image::{ImageView, Segment, Symbol};
