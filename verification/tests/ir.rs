use wasm_git::fingerprint::{hash_parts, FingerprintHash};
use wasm_git::ir::{ExternalKindIr, Immediate, Opcode, ParsedOperator};
use wasm_git::text::{dedup_sorted, sort_strings};

fn op(opcode: Opcode, immediate: Immediate) -> ParsedOperator {
    ParsedOperator {
        offset: 0,
        opcode,
        immediate,
    }
}

#[test]
fn unrecognized_opcode_rendering_is_non_panicking() {
    let op = Opcode::Unrecognized("0xff".to_string());
    assert_eq!(op.variant_name(), "Unrecognized");
    assert_eq!(op.as_str(), "0xff");
}

#[test]
fn display_text_matches_report_format() {
    assert_eq!(
        op(Opcode::LocalGet, Immediate::Local(1)).display_text(),
        "LocalGet { local_index: 1 }"
    );
    assert_eq!(
        op(Opcode::I32Const, Immediate::I32Const(1)).display_text(),
        "I32Const { value: 1 }"
    );
    assert_eq!(
        op(Opcode::I64Const, Immediate::I64Const(-42)).display_text(),
        "I64Const { value: -42 }"
    );
    assert_eq!(op(Opcode::Nop, Immediate::Empty).display_text(), "Nop");
    assert_eq!(
        op(
            Opcode::I32Store,
            Immediate::MemArg {
                align: 2,
                offset: 16
            }
        )
        .display_text(),
        "I32Store { memarg: MemArg { align: 2, max_align: 0, offset: 16, memory: 0 } }"
    );
    assert_eq!(
        op(
            Opcode::BrTable,
            Immediate::BrTable {
                targets: vec![1, 2],
                default_target: 0
            }
        )
        .display_text(),
        "BrTable { targets: [1, 2], default: 0 }"
    );
    assert_eq!(
        op(Opcode::V128Const, Immediate::V128Const(vec![0x0a, 0xff])).display_text(),
        "V128Const { bytes: [0x0a, 0xff] }"
    );
    assert_eq!(
        op(
            Opcode::Select,
            Immediate::SelectTypes(vec!["i32".to_owned(), "f64".to_owned()])
        )
        .display_text(),
        "Select { types: [\"i32\", \"f64\"] }"
    );
    assert_eq!(
        op(
            Opcode::F32Const,
            Immediate::F32Const(0x3fc0_0000, "1.5".to_owned())
        )
        .display_text(),
        "F32Const { value: 1.5 }"
    );
    assert_eq!(
        op(
            Opcode::Unrecognized("Foo".to_owned()),
            Immediate::Unrecognized("Foo { x: 1 }".to_owned())
        )
        .display_text(),
        "Foo { x: 1 }"
    );
    assert_eq!(op(Opcode::I32Add, Immediate::Empty).kind_str(), "I32Add");
}

#[test]
fn hash_text_is_independent_of_display() {
    assert_eq!(Immediate::Call(3).as_hash_text(), "function_index:3");
    assert_eq!(Immediate::RefFunc(3).as_hash_text(), "function_index:3");
    assert_eq!(Immediate::I64Const(-5).as_hash_text(), "value:-5");
    assert_eq!(Immediate::V128Const(vec![1, 0xab]).as_hash_text(), "bytes:01ab");
    assert_eq!(
        Immediate::BrTable {
            targets: vec![1, 2],
            default_target: 0
        }
        .as_hash_text(),
        "br_table:[1,2],default:0"
    );
    let mut lanes = [0u8; 16];
    lanes[1] = 17;
    assert_eq!(
        Immediate::Shuffle(lanes).as_hash_text(),
        "lanes:[0,17,0,0,0,0,0,0,0,0,0,0,0,0,0,0]"
    );
    assert_eq!(
        Immediate::SelectTypes(vec!["i32".to_owned(), "i64".to_owned()]).as_hash_text(),
        "types:[i32,i64]"
    );
    assert_eq!(Immediate::Empty.as_hash_text(), "");
    assert_eq!(Immediate::Call(7).call_function_index(), Some(7));
    assert_eq!(Immediate::Local(7).call_function_index(), None);
}

#[test]
fn fingerprint_hash_hex_is_sixteen_digits() {
    assert_eq!(FingerprintHash::new(255).hex(), "00000000000000ff");
    assert_eq!(FingerprintHash::new(u64::MAX).hex(), "ffffffffffffffff");
}

#[test]
fn fnv_hash_of_parts_matches_reference_values() {
    assert_eq!(hash_parts(&vec![]).value(), 0xcbf29ce484222325);
    assert_eq!(hash_parts(&vec!["a".to_owned()]).hex(), "089bc907b544c769");
    assert_eq!(
        hash_parts(&vec!["type:i32,i32->i32".to_owned()]).hex(),
        "6ff1cd23fe0938b3"
    );
}

#[test]
fn sorting_and_dedup_of_names() {
    let names = vec!["b".to_owned(), "a".to_owned(), "b".to_owned(), "".to_owned()];
    assert_eq!(
        sort_strings(&names),
        vec!["".to_owned(), "a".to_owned(), "b".to_owned(), "b".to_owned()]
    );
    assert_eq!(
        dedup_sorted(names),
        vec!["".to_owned(), "a".to_owned(), "b".to_owned()]
    );
}

#[test]
fn external_kind_keywords() {
    assert_eq!(ExternalKindIr::Func.as_str(), "func");
    assert_eq!(ExternalKindIr::Table.as_str(), "table");
    assert_eq!(ExternalKindIr::Tag.as_str(), "tag");
}

#[test]
fn opcode_classes() {
    assert!(Opcode::BrIf.is_conditional_branch());
    assert!(Opcode::If.is_conditional_branch());
    assert!(!Opcode::Br.is_conditional_branch());
    assert!(Opcode::Br.is_terminator());
    assert!(Opcode::Return.is_terminator());
    assert!(Opcode::TryTable.is_terminator());
    assert!(!Opcode::BrIf.is_terminator());
    assert!(!Opcode::I32Add.is_terminator());
    assert!(Opcode::End.is_structural_marker());
    assert!(!Opcode::Call.is_structural_marker());
}

#[test]
fn scalar_hash_texts_tell_immediates_apart() {
    let a = Immediate::CallIndirect {
        type_index: 1,
        table_index: 23,
    };
    let b = Immediate::CallIndirect {
        type_index: 12,
        table_index: 3,
    };
    assert_eq!(a.as_hash_text(), "type_index:1,table_index:23");
    assert_eq!(b.as_hash_text(), "type_index:12,table_index:3");
    assert_ne!(a.as_hash_text(), b.as_hash_text());
    assert_eq!(Immediate::I32Const(-5).as_hash_text(), "value:-5");
    assert_ne!(
        Immediate::I64Const(-5).as_hash_text(),
        Immediate::I64Const(5).as_hash_text()
    );
}

#[test]
fn list_hash_texts_tell_immediates_apart() {
    let a = Immediate::BrTable {
        targets: vec![1, 23],
        default_target: 4,
    };
    let b = Immediate::BrTable {
        targets: vec![12, 3],
        default_target: 4,
    };
    assert_eq!(a.as_hash_text(), "br_table:[1,23],default:4");
    assert_ne!(a.as_hash_text(), b.as_hash_text());
    assert_eq!(Immediate::TryTable(vec![]).as_hash_text(), "tags:[]");
    assert_ne!(
        Immediate::V128Const(vec![1, 2]).as_hash_text(),
        Immediate::V128Const(vec![0x12]).as_hash_text()
    );
}
