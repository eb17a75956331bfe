fn format_c_to_wasm_skip(reason: &str) -> String {
    format!("skipped: C-to-Wasm compiler unavailable ({reason})")
}

#[test]
fn format_c_to_wasm_skip_exact_string() {
    let msg = format_c_to_wasm_skip("compiler missing");
    assert_eq!(
        msg,
        "skipped: C-to-Wasm compiler unavailable (compiler missing)"
    );
}
