use tricore_probe::csa::{ContextLinkWord, LowerContext, SavedContext, UpperContext, CSA_SIZE};
use tricore_probe::pcxi::PCXI;
use tricore_probe::stacktrace::{
    snapshot_register_names, upper_from_register_words, Stacktrace, SNAPSHOT_REGISTER_COUNT,
};

fn le_words(words: &[u32]) -> Vec<u8> {
    let mut bytes = Vec::new();
    for w in words {
        bytes.extend_from_slice(&w.to_le_bytes());
    }
    bytes
}

#[test]
fn pcxi_fields_are_sliced_from_the_raw_word() {
    // offset 0xBEEF, segment 0xA, upper flag set:
    // bits = 0xBEEF | (0xA << 16) | (1 << 20)
    let pcxi = PCXI::new(0xBEEF | (0xA << 16) | (1 << 20));
    assert_eq!(pcxi.previous_context_pointer(), 0xBEEF);
    assert_eq!(pcxi.previous_segment_address(), 0xA);
    assert!(pcxi.is_upper());

    let pcxi = PCXI::new(0x0001_0001);
    assert_eq!(pcxi.previous_context_pointer(), 1);
    assert_eq!(pcxi.previous_segment_address(), 1);
    assert!(!pcxi.is_upper());
}

#[test]
fn empty_link_word_ends_the_chain() {
    // Both sub-fields zero: no link word, whatever the other bits hold.
    assert_eq!(PCXI::new(0).get_context(), None);
    let only_flag_bits = PCXI::new(1 << 20);
    assert_eq!(only_flag_bits.get_context(), None);

    let live = PCXI::new(0x0000_0001).get_context().unwrap();
    assert_eq!(live.context_offset, 1);
    assert_eq!(live.segment_address, 0);
}

#[test]
fn context_address_combines_segment_and_offset() {
    let link = ContextLinkWord { segment_address: 0xD, context_offset: 0x0FFC, is_upper: true };
    assert_eq!(link.get_context_address(), (0xD << 28) + (0x0FFC << 6));
    let link = ContextLinkWord { segment_address: 0, context_offset: 1, is_upper: false };
    assert_eq!(link.get_context_address(), 64);
}

#[test]
fn upper_context_decodes_all_sixteen_words() {
    let words: Vec<u32> = (100..116).collect();
    let bytes = le_words(&words);
    assert_eq!(bytes.len(), CSA_SIZE);
    let upper = UpperContext::from_bytes(&bytes);
    assert_eq!(upper.pcxi.bits, 100);
    assert_eq!(upper.psw, 101);
    assert_eq!(upper.a10, 102);
    assert_eq!(upper.a11, 103);
    assert_eq!(upper.d8, 104);
    assert_eq!(upper.d9, 105);
    assert_eq!(upper.d10, 106);
    assert_eq!(upper.d11, 107);
    assert_eq!(upper.a12, 108);
    assert_eq!(upper.a13, 109);
    assert_eq!(upper.a14, 110);
    assert_eq!(upper.a15, 111);
    assert_eq!(upper.d12, 112);
    assert_eq!(upper.d13, 113);
    assert_eq!(upper.d14, 114);
    assert_eq!(upper.d15, 115);
}

#[test]
fn lower_context_decodes_all_sixteen_words() {
    let words: Vec<u32> = (200..216).collect();
    let lower = LowerContext::from_bytes(&le_words(&words));
    assert_eq!(lower.pcxi.bits, 200);
    assert_eq!(lower.a11, 201);
    assert_eq!(lower.a2, 202);
    assert_eq!(lower.d7, 215);
}

#[test]
fn link_word_flag_selects_the_context_shape() {
    let words: Vec<u32> = (0..16).collect();
    let bytes = le_words(&words);
    let upper_link = ContextLinkWord { segment_address: 1, context_offset: 2, is_upper: true };
    let lower_link = ContextLinkWord { segment_address: 1, context_offset: 2, is_upper: false };
    assert!(matches!(upper_link.parse_context(&bytes), SavedContext::Upper(_)));
    assert!(matches!(lower_link.parse_context(&bytes), SavedContext::Lower(_)));
}

#[test]
fn saved_context_exposes_pcxi_and_return_address() {
    let mut upper = UpperContext::default();
    upper.pcxi = PCXI::new(0x77);
    upper.a11 = 0x8000_1234;
    let ctx = SavedContext::Upper(upper);
    assert_eq!(ctx.pcxi().bits, 0x77);
    assert_eq!(ctx.return_address(), 0x8000_1234);

    let mut lower = LowerContext::default();
    lower.pcxi = PCXI::new(0x99);
    lower.a11 = 0x8000_5678;
    let ctx = SavedContext::Lower(lower);
    assert_eq!(ctx.pcxi().bits, 0x99);
    assert_eq!(ctx.return_address(), 0x8000_5678);
}

#[test]
fn walker_finishes_immediately_on_terminal_pcxi() {
    // Scenario: the link register decodes to segment 0, offset 0; the
    // backtrace holds only the current program counter and upper context.
    let pcxi = PCXI::new(0);
    let walker = pcxi.walk_context();
    assert!(walker.next_link().is_none());

    let mut upper = UpperContext::default();
    upper.pcxi = pcxi;
    upper.a11 = 0x8000_0100;
    let trace = Stacktrace::new(0x8000_0042, upper, Vec::new());
    assert_eq!(trace.stack_frames.len(), 0);
    assert_eq!(trace.frame_addresses(), vec![0x8000_0042, 0x8000_0100]);
}

#[test]
fn walker_follows_the_chain_and_stops_at_the_terminal_link() {
    // Two chained frames: an upper context whose stored PCXI links to a
    // lower context whose stored PCXI is terminal.
    let head = PCXI::new(0x0001_0001); // segment 1, offset 1, lower shape
    let mut walker = head.walk_context();

    let first_link = walker.next_link().unwrap();
    assert_eq!(first_link.segment_address, 1);
    assert_eq!(first_link.context_offset, 1);
    assert!(!first_link.is_upper);

    // The first frame links onward to offset 2, segment 0, upper shape.
    let mut first_words = vec![0u32; 16];
    first_words[0] = 0x0010_0002; // upper flag (bit 20) + offset 2
    first_words[1] = 0xAAAA_0001; // a11 of the lower shape
    let first_frame = walker.advance(&le_words(&first_words));
    assert!(matches!(first_frame, SavedContext::Lower(_)));
    assert_eq!(first_frame.return_address(), 0xAAAA_0001);

    let second_link = walker.next_link().unwrap();
    assert!(second_link.is_upper);
    assert_eq!(second_link.context_offset, 2);

    // The second frame's stored PCXI is terminal: the walk ends.
    let mut second_words = vec![0u32; 16];
    second_words[0] = 0;
    second_words[3] = 0xBBBB_0002; // a11 of the upper shape
    let second_frame = walker.advance(&le_words(&second_words));
    assert!(matches!(second_frame, SavedContext::Upper(_)));
    assert_eq!(second_frame.return_address(), 0xBBBB_0002);

    assert!(walker.next_link().is_none());
}

#[test]
fn snapshot_names_order_matches_word_consumption() {
    let names = snapshot_register_names();
    assert_eq!(names.len(), SNAPSHOT_REGISTER_COUNT);
    assert_eq!(
        names,
        vec![
            "PCXI", "PSW", "A10", "A11", "D8", "D9", "D10", "D11", "A12", "A13", "A14", "A15",
            "D12", "D13", "D14", "D15", "PC",
        ]
    );

    let words: Vec<u32> = (500..517).collect();
    let upper = upper_from_register_words(&words);
    assert_eq!(upper.pcxi.bits, 500);
    assert_eq!(upper.psw, 501);
    assert_eq!(upper.a10, 502);
    assert_eq!(upper.a11, 503);
    assert_eq!(upper.d15, 515);
}

#[test]
fn frame_addresses_list_pc_call_site_then_return_addresses() {
    let mut upper = UpperContext::default();
    upper.a11 = 11;
    let mut first = UpperContext::default();
    first.a11 = 21;
    let mut second = LowerContext::default();
    second.a11 = 22;
    let trace = Stacktrace::new(
        1,
        upper,
        vec![SavedContext::Upper(first), SavedContext::Lower(second)],
    );
    assert_eq!(trace.frame_addresses(), vec![1, 11, 21, 22]);
}
