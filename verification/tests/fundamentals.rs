use basic_syntax::arithmetic::sum;
use basic_syntax::branching::{entry_allowed, entry_message};
use basic_syntax::globals::{MutableGlobal, CON, STA};
use basic_syntax::matching::{classify_language, language_message, str_eq, LanguageKind};
use basic_syntax::ownership::{borrowing, ownership};
use basic_syntax::primitives::primitive_showcase;
use basic_syntax::scopes::{more_scope_values, scope_value, shadowing_values, ScopeStack};
use basic_syntax::tables::{table_for, table_loop, table_while};

#[test]
fn constant_and_static_hold_their_literals() {
    assert_eq!(CON, 100_000);
    assert_eq!(STA, 50_000);
}

#[test]
fn mutable_global_starts_at_its_literal_and_mutates_to_the_new_one() {
    let mut global = MutableGlobal::startup();
    assert_eq!(global.read(), 20_000);
    let (before, after) = global.mutation_section();
    assert_eq!(before, 20_000);
    assert_eq!(after, 30_000);
    assert_eq!(global.read(), 30_000);
}

#[test]
fn sum_of_ten_and_twenty_is_thirty() {
    assert_eq!(sum(10, 20), 30);
}

#[test]
fn sum_handles_the_largest_operands_that_fit() {
    assert_eq!(sum(u32::MAX - 1, 1), u32::MAX);
    assert_eq!(sum(0, 0), 0);
}

#[test]
fn each_loop_style_produces_its_full_table() {
    let expected_10: Vec<(u16, u16, u16)> = (1..=10u16).map(|c| (10, c, 10 * c)).collect();
    let expected_20: Vec<(u16, u16, u16)> = (1..=10u16).map(|c| (20, c, 20 * c)).collect();
    let expected_30: Vec<(u16, u16, u16)> = (1..=10u16).map(|c| (30, c, 30 * c)).collect();
    assert_eq!(table_while(10), expected_10);
    assert_eq!(table_loop(20), expected_20);
    assert_eq!(table_for(30), expected_30);
}

#[test]
fn the_three_loop_styles_agree_on_one_multiplier() {
    let by_while = table_while(7);
    let by_break = table_loop(7);
    let by_range = table_for(7);
    assert_eq!(by_while, by_break);
    assert_eq!(by_break, by_range);
    assert_eq!(by_while.len(), 10);
}

#[test]
fn the_largest_allowed_multiplier_fills_its_table() {
    let rows = table_while(6553);
    assert_eq!(rows.len(), 10);
    assert_eq!(rows[9], (6553, 10, 65530));
}

#[test]
fn table_counters_ascend_from_one_to_ten() {
    let rows = table_for(3);
    for (i, row) in rows.iter().enumerate() {
        assert_eq!(row.1 as usize, i + 1);
        assert_eq!(row.2, row.0 * row.1);
    }
}

#[test]
fn scope_local_holds_its_literal() {
    assert_eq!(scope_value(), 10_000);
}

#[test]
fn nested_block_mutation_is_seen_outside_the_block() {
    assert_eq!(more_scope_values(), (10_000, 20_000));
}

#[test]
fn shadowing_shows_each_shadow_then_the_unchanged_outer_binding() {
    assert_eq!(shadowing_values(), vec![10_000, 20_000, 30_000, 10_000]);
}

#[test]
fn exiting_a_block_restores_the_outer_binding_unchanged() {
    let mut stack = ScopeStack::new(1);
    assert_eq!(stack.visible(), 1);
    stack.declare_shadow(2);
    assert_eq!(stack.visible(), 2);
    stack.declare_shadow(3);
    assert_eq!(stack.visible(), 3);
    stack.exit_block();
    assert_eq!(stack.visible(), 2);
    stack.exit_block();
    assert_eq!(stack.visible(), 1);
}

#[test]
fn seventeen_with_authorization_is_admitted() {
    assert!(entry_allowed(17, true));
    assert_eq!(entry_message(17, true), "You are an adult.");
}

#[test]
fn fifteen_with_authorization_is_not_admitted() {
    assert!(!entry_allowed(15, true));
    assert_eq!(entry_message(15, true), "You are happy.");
}

#[test]
fn admission_boundaries() {
    assert!(entry_allowed(18, false));
    assert!(!entry_allowed(16, false));
    assert!(entry_allowed(16, true));
    assert!(!entry_allowed(17, false));
}

#[test]
fn rust_gets_the_rustacean_message() {
    assert_eq!(classify_language("Rust"), LanguageKind::Rust);
    assert_eq!(language_message("Rust"), "You are a Rustacean.");
}

#[test]
fn unknown_language_gets_the_generic_message() {
    assert_eq!(classify_language("Klingon"), LanguageKind::Other);
    assert_eq!(language_message("Klingon"), "You are a human.");
}

#[test]
fn each_known_language_gets_its_own_message() {
    assert_eq!(language_message("Python"), "You are a Pythonista.");
    assert_eq!(language_message("JavaScript"), "You are a JavaScripter.");
}

#[test]
fn string_equality_decides_view_equality() {
    assert!(str_eq("Rust", "Rust"));
    assert!(!str_eq("Rust", "rust"));
    assert!(!str_eq("Rust", "Rus"));
    assert!(!str_eq("", "Rust"));
    assert!(str_eq("", ""));
}

#[test]
fn borrowing_appends_in_place_through_the_callers_binding() {
    let mut a_string = String::from("Vinicius");
    borrowing(&mut a_string);
    assert_eq!(a_string, "Vinicius is a Rustacean.");
}

#[test]
fn ownership_returns_the_mutated_original_buffer() {
    assert_eq!(ownership(), "Vinicius is a Rustacean.");
}

#[test]
fn primitive_showcase_values_and_sizes() {
    let shown = primitive_showcase();
    assert_eq!(shown.byte_value, 255);
    assert_eq!(shown.byte_size, 1);
    assert!(shown.boolean_first);
    assert!(!shown.boolean_second);
    assert_eq!(shown.boolean_size, 1);
    assert_eq!(shown.character, 'V');
    assert_eq!(shown.character_size, 4);
}
