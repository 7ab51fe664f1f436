use lucet_runtime_internals::wat::generate_test_wat;

#[test]
fn smallest_test_program() {
    let expected = "(module\n  (func $localpalooza (export \"localpalooza\") (param i64) (result i64)\n(local i64 i64 i64 )\n(set_local 1 (i64.add (get_local 0) (i64.xor (get_local 1) (i64.const 1))))\n(set_local 2 (i64.add (get_local 1) (i64.xor (get_local 2) (i64.const 2))))\n(if (i32.wrap_i64 (get_local 0))\n  (then (set_local 2 (i64.add (get_local 1)\n      (call $localpalooza (i64.sub (get_local 0) (i64.const 1))))))\n  (else (set_local 2 (i64.add (get_local 1) (get_local 0)))))\n(get_local 2)\n))\n";
    assert_eq!(generate_test_wat(6, &[], None), expected);
    // an odd count of i32 locals rounds down to whole i64 locals
    assert_eq!(generate_test_wat(7, &[], None), expected);
}

#[test]
fn test_program_with_hostcalls_and_body() {
    let expected = "(module\n  (func $foo (import \"env\" \"foo\") (result i64))\n  (func $bar (import \"env\" \"bar\") (result i64))\n  (func $localpalooza (export \"localpalooza\") (param i64) (result i64)\n(local i64 i64 i64 i64 )\n(set_local 1 (i64.add (get_local 0) (i64.xor (get_local 1) (i64.const 1))))\n(set_local 2 (i64.add (get_local 1) (i64.xor (get_local 2) (i64.const 2))))\n(set_local 3 (i64.add (get_local 2) (i64.xor (get_local 3) (i64.const 3))))\n(set_local 2 (i64.add (get_local 1) (i64.and (get_local 2) (i64.const 2))))\n(if (i32.wrap_i64 (get_local 0))\n  (then (set_local 3 (i64.add (get_local 2)\n(drop (call $foo))\n      (call $localpalooza (i64.sub (get_local 0) (i64.const 1))))))\n  (else (set_local 3 (i64.add (get_local 2) (get_local 1)))))\n(get_local 3)\n))\n";
    assert_eq!(
        generate_test_wat(9, &["foo", "bar"], Some("(drop (call $foo))\n")),
        expected
    );
}

#[test]
fn larger_programs_number_their_locals_in_decimal() {
    let wat = generate_test_wat(48, &[], None);
    assert_eq!(wat.len(), 3864);
    assert!(wat.contains("(set_local 23 (i64.add (get_local 22) (i64.xor (get_local 23) (i64.const 23))))\n"));
    assert!(wat.contains("(set_local 22 (i64.add (get_local 21) (i64.and (get_local 22) (i64.const 22))))\n"));
    assert!(!wat.contains("(i64.and (get_local 23)"));
    assert!(wat.ends_with("(get_local 23)\n))\n"));
    // an empty body is the same as none
    assert_eq!(generate_test_wat(48, &[], Some("")), wat);
}
