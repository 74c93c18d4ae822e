//! GROUP BY / aggregate evaluation for a relational query executor.
//!
//! Given rows already projected as aggregate input expressions followed by
//! grouping-key expressions, the engine groups rows by structural equality
//! of their trailing key values, feeds each group's leading values into
//! per-aggregate accumulator state, and emits one output row per distinct
//! key: the finalized aggregate results, then the key values.
//!
//! Five accumulators are provided — Count, Sum, Average, Max and Min —
//! with the sticky `Null`-poisoning semantics of Sum, Max and Min stated
//! and proved in their contracts. The engine itself is specified against a
//! sequence-level model (`table_fold`, `output_rows`), and the laws at the
//! bottom of each module — one output row per distinct key, idempotent
//! finalization, determinism of the output row multiset — are proved from
//! those contracts.

mod accumulator;
mod engine;
mod float_bits;
mod value;

pub use accumulator::AccV;
pub use accumulator::Accumulator;
pub use accumulator::Aggregate;
pub use accumulator::Average;
pub use accumulator::Count;
pub use accumulator::EvaluationError;
pub use accumulator::Max;
pub use accumulator::Min;
pub use accumulator::Sum;
pub use accumulator::acc_final;
pub use accumulator::acc_init;
pub use accumulator::acc_step;
pub use accumulator::avg_final;
pub use accumulator::count_final;
pub use accumulator::count_step;
pub use accumulator::div_trunc;
pub use accumulator::lemma_count_ignores_null;
pub use accumulator::lemma_finalize_idempotent;
pub use accumulator::lemma_max_poison_sticky;
pub use accumulator::lemma_min_poison_sticky;
pub use accumulator::lemma_sum_poison_sticky;
pub use accumulator::max_step;
pub use accumulator::min_step;
pub use accumulator::opt_final;
pub use accumulator::sum_step;
pub use accumulator::wrap_add_i64;
pub use engine::QueryOutput;
pub use engine::accs_init;
pub use engine::accs_step;
pub use engine::aggregate;
pub use engine::final_table;
pub use engine::find_key;
pub use engine::lemma_aggregate_deterministic;
pub use engine::lemma_output_row_count;
pub use engine::output_columns;
pub use engine::output_rows;
pub use engine::row_keys;
pub use engine::table_fold;
pub use engine::table_keys;
pub use engine::table_step;
pub use float_bits::f64_add_bits;
pub use float_bits::f64_cmp_bits;
pub use float_bits::f64_div_bits;
pub use float_bits::f64_of_count;
pub use value::Value;
pub use value::ValueV;
pub use value::cmp_text;
pub use value::cmp_value;
pub use value::compare_values;
pub use value::lemma_cmp_text_eq;
pub use value::same_datatype;
pub use value::value_clone;
pub use value::value_eq;
pub use value::values_same_datatype;
