use elf_hardening::features::{
    canary_status, contains_text, fortify_status, nx_status, pie_status, relro_status,
};
use elf_hardening::image::{
    DT_BIND_NOW, DT_FLAGS_1, EM_X86_64, ET_DYN, ET_EXEC, PF_X, PT_GNU_STACK,
};
use elf_hardening::{
    CanaryStatus, FortifyStatus, ImageView, NxStatus, PieStatus, RelroStatus, SecurityFeatures,
    Segment, Symbol,
};

const PF_R: u32 = 4;
const PF_W: u32 = 2;
const PT_LOAD: u32 = 1;
const DT_NEEDED: u64 = 1;

fn image(dynamic: Option<Vec<u64>>, image_type: u16) -> ImageView {
    ImageView {
        machine: EM_X86_64,
        image_type,
        dynamic,
        segments: Vec::new(),
        symbols: Vec::new(),
    }
}

fn named(offset: usize, name: &str) -> Symbol {
    Symbol { name_offset: offset, name: Some(name.to_string()) }
}

fn with_symbols(symbols: Vec<Symbol>) -> ImageView {
    let mut img = image(None, ET_EXEC);
    img.symbols = symbols;
    img
}

fn with_segments(segments: Vec<Segment>) -> ImageView {
    let mut img = image(None, ET_EXEC);
    img.segments = segments;
    img
}

#[test]
fn relro_full_with_flags_and_bind_now() {
    let img = image(Some(vec![DT_NEEDED, DT_FLAGS_1, DT_BIND_NOW]), ET_DYN);
    assert_eq!(relro_status(&img), RelroStatus::Full);
}

#[test]
fn relro_partial_with_flags_only() {
    let img = image(Some(vec![DT_FLAGS_1, DT_NEEDED]), ET_DYN);
    assert_eq!(relro_status(&img), RelroStatus::Partial);
}

#[test]
fn relro_none_with_bind_now_only() {
    let img = image(Some(vec![DT_BIND_NOW]), ET_DYN);
    assert_eq!(relro_status(&img), RelroStatus::NoRelro);
}

#[test]
fn relro_none_with_neither_entry() {
    let img = image(Some(vec![DT_NEEDED]), ET_DYN);
    assert_eq!(relro_status(&img), RelroStatus::NoRelro);
}

#[test]
fn relro_none_without_dynamic_section() {
    let img = image(None, ET_EXEC);
    assert_eq!(relro_status(&img), RelroStatus::NoRelro);
}

#[test]
fn pie_for_shared_object_type() {
    assert_eq!(pie_status(&image(None, ET_DYN)), PieStatus::PIE);
}

#[test]
fn non_pie_for_executable_type() {
    assert_eq!(pie_status(&image(None, ET_EXEC)), PieStatus::NonPIE);
}

#[test]
fn nx_absent_stack_segment_is_no_nx() {
    let img = with_segments(vec![Segment { p_type: PT_LOAD, p_flags: PF_R }]);
    assert_eq!(nx_status(&img), NxStatus::NoNX);
}

#[test]
fn nx_executable_stack_is_no_nx() {
    let img = with_segments(vec![Segment { p_type: PT_GNU_STACK, p_flags: PF_R | PF_W | PF_X }]);
    assert_eq!(nx_status(&img), NxStatus::NoNX);
}

#[test]
fn nx_non_executable_stack_is_nx() {
    let img = with_segments(vec![
        Segment { p_type: PT_LOAD, p_flags: PF_R | PF_X },
        Segment { p_type: PT_GNU_STACK, p_flags: PF_R | PF_W },
    ]);
    assert_eq!(nx_status(&img), NxStatus::NX);
}

#[test]
fn canary_exact_name_enables() {
    let img = with_symbols(vec![named(1, "main"), named(6, "__stack_chk_fail")]);
    assert_eq!(canary_status(&img), CanaryStatus::Enabled);
}

#[test]
fn canary_similar_name_disables() {
    let img = with_symbols(vec![named(1, "__stack_chk_fail_local"), named(24, "__stack_chk")]);
    assert_eq!(canary_status(&img), CanaryStatus::Disabled);
}

#[test]
fn canary_ignores_symbol_at_offset_zero() {
    let img = with_symbols(vec![named(0, "__stack_chk_fail")]);
    assert_eq!(canary_status(&img), CanaryStatus::Disabled);
}

#[test]
fn canary_ignores_unresolved_name() {
    let img = with_symbols(vec![Symbol { name_offset: 9, name: None }]);
    assert_eq!(canary_status(&img), CanaryStatus::Disabled);
}

#[test]
fn fortify_marker_enables() {
    let img = with_symbols(vec![named(1, "puts"), named(6, "__printf_chk")]);
    assert_eq!(fortify_status(&img), FortifyStatus::Enabled);
}

#[test]
fn fortify_without_marker_disables() {
    let img = with_symbols(vec![named(1, "printf"), named(8, "memcpy"), named(15, "_ch_k")]);
    assert_eq!(fortify_status(&img), FortifyStatus::Disabled);
}

#[test]
fn fortify_ignores_symbol_at_offset_zero() {
    let img = with_symbols(vec![named(0, "__memcpy_chk")]);
    assert_eq!(fortify_status(&img), FortifyStatus::Disabled);
}

#[test]
fn one_symbol_can_satisfy_both_rules() {
    let img = with_symbols(vec![named(1, "__stack_chk_fail")]);
    assert_eq!(canary_status(&img), CanaryStatus::Enabled);
    assert_eq!(fortify_status(&img), FortifyStatus::Enabled);
}

#[test]
fn contains_text_cases() {
    assert!(contains_text("__printf_chk", "_chk"));
    assert!(contains_text("_chk", "_chk"));
    assert!(contains_text("abc", ""));
    assert!(!contains_text("_ch", "_chk"));
    assert!(!contains_text("chk_", "_chk"));
}

#[test]
fn detect_sets_every_feature() {
    let mut img = image(Some(vec![DT_FLAGS_1]), ET_DYN);
    img.segments = vec![Segment { p_type: PT_GNU_STACK, p_flags: PF_R | PF_W }];
    img.symbols = vec![named(1, "__memcpy_chk")];
    let f = SecurityFeatures::detect(&img);
    assert_eq!(f.relro, RelroStatus::Partial);
    assert_eq!(f.pie, PieStatus::PIE);
    assert_eq!(f.nx, NxStatus::NX);
    assert_eq!(f.canary, CanaryStatus::Disabled);
    assert_eq!(f.fortify_source, FortifyStatus::Enabled);
    assert_eq!(f.score(), 7);
}
