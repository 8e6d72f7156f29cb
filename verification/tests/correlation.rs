use sigtrace::correlate::{
    attach, current_context, default_filter_directive, no_context, AttachError, LogRecord,
    TraceContext, WithInfoPropagation,
};
use sigtrace::hex::{parse_span_id_hex, parse_trace_id_hex, span_id_hex, trace_id_hex};

#[test]
fn attach_renders_fixed_width_lowercase_hex() {
    let mut record = LogRecord::new();
    let context = TraceContext { trace_id: 1, span_id: 255 };
    assert_eq!(attach(&mut record, &context), Ok(()));
    assert_eq!(
        record.trace_id_field.as_deref(),
        Some("00000000000000000000000000000001")
    );
    assert_eq!(record.span_id_field.as_deref(), Some("00000000000000ff"));
}

#[test]
fn attach_rejects_zero_trace_with_nonzero_span() {
    let mut record = LogRecord::new();
    let context = TraceContext { trace_id: 0, span_id: 5 };
    assert_eq!(attach(&mut record, &context), Err(AttachError::InvalidContext));
    assert!(record.trace_id_field.is_none());
    assert!(record.span_id_field.is_none());
}

#[test]
fn attach_accepts_the_no_context_pair() {
    let mut record = LogRecord::new();
    let context = TraceContext { trace_id: 0, span_id: 0 };
    assert_eq!(attach(&mut record, &context), Ok(()));
    assert_eq!(
        record.trace_id_field.as_deref(),
        Some("00000000000000000000000000000000")
    );
    assert_eq!(record.span_id_field.as_deref(), Some("0000000000000000"));
}

#[test]
fn renderings_parse_back_to_the_original_identifiers() {
    let trace_id: u128 = 0x0123456789abcdef0123456789abcdef;
    let span_id: u64 = 0xfedcba9876543210;
    let t = trace_id_hex(trace_id);
    let s = span_id_hex(span_id);
    assert_eq!(t.len(), 32);
    assert_eq!(s.len(), 16);
    assert_eq!(parse_trace_id_hex(t.as_str()), Some(trace_id));
    assert_eq!(parse_span_id_hex(s.as_str()), Some(span_id));
}

#[test]
fn extreme_identifiers_render_and_round_trip() {
    let t = trace_id_hex(u128::MAX);
    assert_eq!(t, "ffffffffffffffffffffffffffffffff");
    assert_eq!(parse_trace_id_hex(t.as_str()), Some(u128::MAX));

    let s = span_id_hex(u64::MAX);
    assert_eq!(s, "ffffffffffffffff");
    assert_eq!(parse_span_id_hex(s.as_str()), Some(u64::MAX));

    let z = trace_id_hex(0);
    assert_eq!(z, "00000000000000000000000000000000");
    assert_eq!(parse_trace_id_hex(z.as_str()), Some(0));
}

#[test]
fn parsing_rejects_malformed_identifiers() {
    // Wrong width.
    assert_eq!(parse_trace_id_hex("00000001"), None);
    assert_eq!(parse_span_id_hex("0"), None);
    assert_eq!(parse_span_id_hex(""), None);
    // Uppercase digits are not the fixed-width lowercase form.
    assert_eq!(parse_span_id_hex("00000000000000FF"), None);
    // A non-hex character anywhere rejects the whole string.
    assert_eq!(parse_span_id_hex("000000000000000g"), None);
    assert_eq!(parse_trace_id_hex("0000000000000000000000000000000-"), None);
}

#[test]
fn parsing_accepts_exact_width_lowercase_hex() {
    assert_eq!(
        parse_trace_id_hex("00000000000000000000000000000001"),
        Some(1)
    );
    assert_eq!(parse_span_id_hex("00000000000000ff"), Some(255));
}

#[test]
fn with_propagation_attaches_both_fields() {
    let record = LogRecord::new();
    let context = TraceContext { trace_id: 42, span_id: 7 };
    let record = record.with_propagation(&context).unwrap();
    assert_eq!(
        record.trace_id_field.as_deref(),
        Some("0000000000000000000000000000002a")
    );
    assert_eq!(record.span_id_field.as_deref(), Some("0000000000000007"));
}

#[test]
fn with_propagation_surfaces_the_logic_error() {
    let record = LogRecord::new();
    let context = TraceContext { trace_id: 0, span_id: 1 };
    assert_eq!(
        record.with_propagation(&context).unwrap_err(),
        AttachError::InvalidContext
    );
}

#[test]
fn current_context_returns_the_active_context_or_the_zero_pair() {
    let active = TraceContext { trace_id: 9, span_id: 3 };
    assert_eq!(current_context(Some(active)), active);

    let none = current_context(None);
    assert_eq!(none, TraceContext { trace_id: 0, span_id: 0 });
    assert_eq!(none, no_context());
}

#[test]
fn default_filter_directive_targets_the_service_at_info() {
    let d = default_filter_directive("websocket-communicator");
    assert_eq!(d, "websocket-communicator=info");
}
