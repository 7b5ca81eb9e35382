//! Tensor-ingestion adapter: counts, order and pairing against the shared
//! axis.

use plotly::common::NumOrString;
use plotly::json::Real;
use plotly::{ArrayTraces, Histogram, Scatter, Trace};

fn nums(xs: &[i64]) -> Vec<NumOrString> {
    xs.iter().map(|&i| NumOrString::Num(Real::from_int(i))).collect()
}

#[test]
fn scatter_over_columns_yields_one_trace_per_column() {
    // A 2 x 3 block: two points per trace, three traces.
    let block = vec![nums(&[1, 2, 3]), nums(&[4, 5, 6])];
    let x = nums(&[10, 20]);
    let traces = Scatter::new(nums(&[0]), nums(&[0])).to_traces(x, block, ArrayTraces::OverColumns);
    assert_eq!(traces.len(), 3);
    let rendered: Vec<String> = traces.iter().map(|t| t.serialize()).collect();
    assert_eq!(rendered[0], r#"{"type":"scatter","x":[10,20],"y":[1,4]}"#);
    assert_eq!(rendered[1], r#"{"type":"scatter","x":[10,20],"y":[2,5]}"#);
    assert_eq!(rendered[2], r#"{"type":"scatter","x":[10,20],"y":[3,6]}"#);
}

#[test]
fn scatter_over_rows_yields_one_trace_per_row() {
    let block = vec![nums(&[1, 2, 3]), nums(&[4, 5, 6])];
    let x = nums(&[7, 8, 9]);
    let traces = Scatter::new(nums(&[0]), nums(&[0])).to_traces(x, block, ArrayTraces::OverRows);
    assert_eq!(traces.len(), 2);
    let rendered: Vec<String> = traces.iter().map(|t| t.serialize()).collect();
    assert_eq!(rendered[0], r#"{"type":"scatter","x":[7,8,9],"y":[1,2,3]}"#);
    assert_eq!(rendered[1], r#"{"type":"scatter","x":[7,8,9],"y":[4,5,6]}"#);
}

#[test]
fn scatter_template_attributes_carry_into_every_trace() {
    let block = vec![nums(&[1]), nums(&[2])];
    let traces = Scatter::new(nums(&[0]), nums(&[0]))
        .name("wave")
        .to_traces(nums(&[5]), block, ArrayTraces::OverColumns);
    assert_eq!(traces.len(), 1);
    assert_eq!(traces[0].serialize(), r#"{"type":"scatter","name":"wave","x":[5],"y":[1,2]}"#);
}

#[test]
fn histogram_over_columns_replaces_samples() {
    let block = vec![nums(&[1, 2]), nums(&[3, 4]), nums(&[5, 6])];
    let traces = Histogram::new(nums(&[0])).to_traces(block, ArrayTraces::OverColumns);
    assert_eq!(traces.len(), 2);
    let rendered: Vec<String> = traces.iter().map(|t| t.serialize()).collect();
    assert_eq!(rendered[0], r#"{"type":"histogram","x":[1,3,5]}"#);
    assert_eq!(rendered[1], r#"{"type":"histogram","x":[2,4,6]}"#);
}

#[test]
fn histogram_over_rows_keeps_row_order() {
    let block = vec![nums(&[1, 2]), nums(&[3, 4])];
    let traces = Histogram::new(nums(&[0]))
        .opacity(Real::decimal(false, 5, 1))
        .to_traces(block, ArrayTraces::OverRows);
    assert_eq!(traces.len(), 2);
    let rendered: Vec<String> = traces.iter().map(|t| t.serialize()).collect();
    assert_eq!(rendered[0], r#"{"type":"histogram","opacity":0.5,"x":[1,2]}"#);
    assert_eq!(rendered[1], r#"{"type":"histogram","opacity":0.5,"x":[3,4]}"#);
}

#[test]
fn empty_block_yields_no_traces() {
    let traces = Histogram::new(nums(&[0])).to_traces(vec![], ArrayTraces::OverColumns);
    assert_eq!(traces.len(), 0);
}
