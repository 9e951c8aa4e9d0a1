use readline::bridge::{
    assemble_output, completion_source, decide, lines_to_send, BridgeResult, HelperEvent,
    MatchGenerator,
};
use readline::hook::HookSlot;
use readline::marshal::ForeignArray;
use readline::vec_to_c_array;

fn bytes(items: &[&str]) -> Vec<Vec<u8>> {
    items.iter().map(|s| s.as_bytes().to_vec()).collect()
}

fn strings(items: &[&str]) -> Vec<String> {
    items.iter().map(|s| s.to_string()).collect()
}

#[test]
fn scenario_single_candidate_is_echoed_back() {
    // One candidate: it is forwarded itself, and a helper that echoes it
    // produces a one-element result list.
    let sent = lines_to_send(&bytes(&["foo"]));
    assert_eq!(sent, bytes(&["foo"]));

    let d = decide(HelperEvent::ExitedOk(strings(&["foo"])));
    assert!(d.refresh);
    assert_eq!(d.result, BridgeResult::Replace(strings(&["foo"])));
}

#[test]
fn scenario_prefix_slot_is_skipped_and_restored() {
    // Several candidates: slot 0 (the common prefix) is never forwarded,
    // and a multi-line answer gets an empty placeholder prepended.
    let sent = lines_to_send(&bytes(&["pre", "apple", "apricot"]));
    assert_eq!(sent, bytes(&["apple", "apricot"]));

    let d = decide(HelperEvent::ExitedOk(strings(&["apple", "apricot"])));
    assert!(d.refresh);
    assert_eq!(d.result, BridgeResult::Replace(strings(&["", "apple", "apricot"])));
}

#[test]
fn scenario_nonzero_exit_empties_the_list() {
    let d = decide(HelperEvent::ExitedNonzero);
    assert!(d.refresh);
    assert_eq!(d.result, BridgeResult::Replace(Vec::new()));
}

#[test]
fn scenario_spawn_failure_keeps_the_original_array() {
    let d = decide(HelperEvent::SpawnFailed);
    assert!(!d.refresh);
    assert_eq!(d.result, BridgeResult::UseOriginal);
}

#[test]
fn wait_failure_keeps_the_original_array() {
    let d = decide(HelperEvent::WaitFailed);
    assert!(!d.refresh);
    assert_eq!(d.result, BridgeResult::UseOriginal);
}

#[test]
fn no_candidates_means_nothing_is_sent() {
    let sent = lines_to_send(&Vec::new());
    assert!(sent.is_empty());
}

#[test]
fn two_candidates_forward_only_the_second() {
    let sent = lines_to_send(&bytes(&["pre", "apple"]));
    assert_eq!(sent, bytes(&["apple"]));
}

#[test]
fn empty_candidates_are_never_forwarded() {
    let sent = lines_to_send(&bytes(&["pre", "", "x", ""]));
    assert_eq!(sent, bytes(&["x"]));

    let sent = lines_to_send(&bytes(&[""]));
    assert!(sent.is_empty());
}

#[test]
fn assembling_no_lines_yields_no_candidates() {
    let out = assemble_output(Vec::new());
    assert!(out.is_empty());
}

#[test]
fn assembling_one_line_keeps_it_alone() {
    let out = assemble_output(strings(&["only"]));
    assert_eq!(out, strings(&["only"]));
}

#[test]
fn assembling_many_lines_prepends_a_placeholder() {
    let out = assemble_output(strings(&["a", "b", "c"]));
    assert_eq!(out, strings(&["", "a", "b", "c"]));
}

#[test]
fn echoing_helper_round_trips_the_candidates() {
    // A helper that echoes its stdin verbatim: feeding the forwarded lines
    // back through the bridge reproduces the real candidates, with the
    // placeholder slot refilled whenever more than one of them remains.
    let original = bytes(&["pre", "apple", "apricot"]);
    let sent = lines_to_send(&original);
    let echoed: Vec<String> = sent
        .iter()
        .map(|l| String::from_utf8(l.clone()).unwrap())
        .collect();
    let d = decide(HelperEvent::ExitedOk(echoed));
    assert_eq!(d.result, BridgeResult::Replace(strings(&["", "apple", "apricot"])));

    let original = bytes(&["solo"]);
    let sent = lines_to_send(&original);
    let echoed: Vec<String> = sent
        .iter()
        .map(|l| String::from_utf8(l.clone()).unwrap())
        .collect();
    let d = decide(HelperEvent::ExitedOk(echoed));
    assert_eq!(d.result, BridgeResult::Replace(strings(&["solo"])));
}

#[test]
fn completion_source_prefers_the_saved_callback() {
    assert_eq!(completion_source(true, false), MatchGenerator::SavedCallback);
    assert_eq!(completion_source(true, true), MatchGenerator::SavedCallback);
}

#[test]
fn completion_source_falls_back_by_configuration() {
    assert_eq!(completion_source(false, true), MatchGenerator::CustomEntryFunction);
    assert_eq!(completion_source(false, false), MatchGenerator::FilenameCompletion);
}

#[test]
fn empty_list_marshals_to_the_null_array() {
    match vec_to_c_array(Vec::new()) {
        ForeignArray::Null => {}
        ForeignArray::Array(_) => panic!("expected the null array"),
    }
}

#[test]
fn marshaled_array_has_terminated_entries_and_a_null_sentinel() {
    match vec_to_c_array(strings(&["ab", "c"])) {
        ForeignArray::Null => panic!("expected a real array"),
        ForeignArray::Array(entries) => {
            assert_eq!(entries.len(), 3);
            assert_eq!(entries[0], Some(b"ab\0".to_vec()));
            assert_eq!(entries[1], Some(b"c\0".to_vec()));
            assert_eq!(entries[2], None);
        }
    }
}

#[test]
fn marshaled_single_candidate_still_gets_the_sentinel() {
    match vec_to_c_array(strings(&["foo"])) {
        ForeignArray::Null => panic!("expected a real array"),
        ForeignArray::Array(entries) => {
            assert_eq!(entries.len(), 2);
            assert_eq!(entries[0], Some(b"foo\0".to_vec()));
            assert_eq!(entries[1], None);
        }
    }
}

#[test]
fn hijack_restores_the_previous_callback() {
    let mut slot: HookSlot<u32> = HookSlot::new();
    slot.active = Some(7);
    slot.begin_hijack(9);
    assert_eq!(slot.active, Some(9));
    assert_eq!(slot.saved, Some(7));
    assert!(slot.hijack_active);
    slot.end_hijack();
    assert_eq!(slot.active, Some(7));
    assert!(!slot.hijack_active);
}

#[test]
fn hijack_of_an_unset_callback_leaves_it_unset() {
    let mut slot: HookSlot<u32> = HookSlot::new();
    slot.begin_hijack(3);
    assert_eq!(slot.active, Some(3));
    assert_eq!(slot.saved, None);
    slot.end_hijack();
    assert_eq!(slot.active, None);
}
