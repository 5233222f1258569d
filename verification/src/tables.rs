//! The loop showcase: one multiplication table built three ways.
//!
//! A table for a multiplier is ten rows, one per counter from 1 to 10 in
//! ascending order, each row carrying the multiplier, the counter, and
//! their product. Three functions build it with three different
//! iteration constructs — a condition-checked `while`, an unconditional
//! `loop` with an explicit `break`, and a bounded range `for` — and each
//! is proved to produce exactly the same table.

use vstd::prelude::*;

verus! {

/// The largest multiplier whose full table fits in `u16`:
/// `6553 * 10 == 65530 <= u16::MAX`.
pub const MAX_MULTIPLIER: u16 = 6553;

/// One table row: the multiplier, the counter, and their product.
pub open spec fn table_row(multiple: u16, counter: int) -> (u16, u16, u16) {
    (multiple, counter as u16, (multiple as int * counter) as u16)
}

/// The full table for a multiplier: rows for counters 1 through 10,
/// in that order.
pub open spec fn full_table(multiple: u16) -> Seq<(u16, u16, u16)> {
    Seq::new(10, |i: int| table_row(multiple, i + 1))
}

/// One product entry, proved free of overflow for every row of a table
/// whose multiplier is within [`MAX_MULTIPLIER`].
fn table_product(multiple: u16, counter: u16) -> (product: u16)
    requires
        multiple <= MAX_MULTIPLIER,
        1 <= counter <= 10,
    ensures
        product == multiple as int * counter as int,
{
    proof {
        assert(multiple as int * counter as int <= 6553 * 10) by (nonlinear_arith)
            requires
                multiple <= 6553,
                counter <= 10,
        ;
    }
    multiple * counter
}

/// Builds the table with a pre-condition-checked `while` loop: the
/// counter is tested before every repetition and the loop ends exactly
/// when it reaches 10.
pub fn table_while(multiple: u16) -> (rows: Vec<(u16, u16, u16)>)
    requires
        multiple <= MAX_MULTIPLIER,
    ensures
        rows@ =~= full_table(multiple),
{
    let mut rows: Vec<(u16, u16, u16)> = Vec::new();
    let mut counter: u16 = 0;
    while counter < 10
        invariant
            counter <= 10,
            multiple <= MAX_MULTIPLIER,
            rows@ =~= full_table(multiple).take(counter as int),
        decreases 10 - counter,
    {
        counter = counter + 1;
        let product: u16 = table_product(multiple, counter);
        rows.push((multiple, counter, product));
    }
    rows
}

/// Builds the table with an unconditional `loop`: every repetition
/// appends a row, and an explicit `break` ends the loop once the
/// counter has reached 10.
pub fn table_loop(multiple: u16) -> (rows: Vec<(u16, u16, u16)>)
    requires
        multiple <= MAX_MULTIPLIER,
    ensures
        rows@ =~= full_table(multiple),
{
    let mut rows: Vec<(u16, u16, u16)> = Vec::new();
    let mut counter: u16 = 0;
    loop
        invariant_except_break
            counter <= 9,
            multiple <= MAX_MULTIPLIER,
            rows@ =~= full_table(multiple).take(counter as int),
        ensures
            rows@ =~= full_table(multiple),
        decreases 10 - counter,
    {
        counter = counter + 1;
        let product: u16 = table_product(multiple, counter);
        rows.push((multiple, counter, product));
        if counter >= 10 {
            break;
        }
    }
    rows
}

/// Builds the table by iterating over the bounded range of counters.
pub fn table_for(multiple: u16) -> (rows: Vec<(u16, u16, u16)>)
    requires
        multiple <= MAX_MULTIPLIER,
    ensures
        rows@ =~= full_table(multiple),
{
    let mut rows: Vec<(u16, u16, u16)> = Vec::new();
    for counter in 1..11u16
        invariant
            multiple <= MAX_MULTIPLIER,
            rows@ =~= full_table(multiple).take(counter - 1),
    {
        let product: u16 = table_product(multiple, counter);
        rows.push((multiple, counter, product));
    }
    rows
}

/// The shape of every full table: exactly ten rows; row `i` carries the
/// multiplier, counter `i + 1` — so the counters run from 1 to 10 in
/// ascending order — and the exact product of multiplier and counter.
pub proof fn lemma_full_table_shape(multiple: u16)
    requires
        multiple <= MAX_MULTIPLIER,
    ensures
        full_table(multiple).len() == 10,
        forall|i: int|
            0 <= i < 10 ==> #[trigger] full_table(multiple)[i] == (
                multiple,
                (i + 1) as u16,
                (multiple as int * (i + 1)) as u16,
            ),
        forall|i: int|
            0 <= i < 10 ==> (#[trigger] full_table(multiple)[i]).2 == multiple as int * (i + 1),
{
    assert forall|i: int| 0 <= i < 10 implies (#[trigger] full_table(multiple)[i]).2
        == multiple as int * (i + 1) by {
        assert(multiple as int * (i + 1) <= 6553 * 10) by (nonlinear_arith)
            requires
                multiple <= 6553,
                0 <= i < 10,
        ;
        assert(multiple as int * (i + 1) >= 0) by (nonlinear_arith)
            requires
                multiple >= 0,
                0 <= i,
        ;
    }
}

/// The three loop styles agree: any tables built by the
/// condition-checked loop, the loop with a `break`, and the bounded
/// range — each of which equals the full table for its multiplier — are
/// identical row for row.
pub proof fn lemma_loop_styles_agree(
    multiple: u16,
    by_while: Seq<(u16, u16, u16)>,
    by_break: Seq<(u16, u16, u16)>,
    by_range: Seq<(u16, u16, u16)>,
)
    requires
        by_while =~= full_table(multiple),
        by_break =~= full_table(multiple),
        by_range =~= full_table(multiple),
    ensures
        by_while == by_break,
        by_break == by_range,
{
}

} // verus!
