use shimgen::compile_interface;
use shimgen::emit::emit_shim_module;
use shimgen::extract::extract_interface;
use shimgen::source::{
    FunctionDecl, NamespaceDecl, NamespaceItem, ReturnAnnotation, SourceModule, TopLevelItem,
};

fn func(name: &str, param_count: usize) -> NamespaceItem {
    NamespaceItem::ExportedFunction(FunctionDecl {
        name: name.to_string(),
        param_count,
        return_type: Some(ReturnAnnotation::Named("I32".to_string())),
    })
}

fn main_module(items: Vec<NamespaceItem>) -> SourceModule {
    SourceModule {
        items: vec![TopLevelItem::Namespace(NamespaceDecl {
            name: "main".to_string(),
            items,
        })],
    }
}

/// Header, Type section and Import section: identical for every module.
fn fixed_prefix() -> Vec<u8> {
    let mut bytes: Vec<u8> = Vec::new();
    // magic and version
    bytes.extend_from_slice(&[0x00, 0x61, 0x73, 0x6D, 0x01, 0x00, 0x00, 0x00]);
    // type section: (i32) -> i32 and () -> i32
    bytes.extend_from_slice(&[
        0x01, 0x0A, 0x02, 0x60, 0x01, 0x7F, 0x01, 0x7F, 0x60, 0x00, 0x01, 0x7F,
    ]);
    // import section: coremod.__invoke of type 0
    bytes.extend_from_slice(&[0x02, 0x14, 0x01, 0x07]);
    bytes.extend_from_slice(b"coremod");
    bytes.push(0x08);
    bytes.extend_from_slice(b"__invoke");
    bytes.extend_from_slice(&[0x00, 0x00]);
    bytes
}

/// A code section of `n` thunks: each pushes its declaration index,
/// calls import 0 and ends.
fn code_section(n: u8) -> Vec<u8> {
    let mut bytes: Vec<u8> = vec![0x0A, 1 + 7 * n, n];
    for i in 0..n {
        bytes.extend_from_slice(&[0x06, 0x00, 0x41, i, 0x10, 0x00, 0x0B]);
    }
    bytes
}

#[test]
fn emits_add_sub_module_exactly() {
    let module = main_module(vec![func("add", 2), func("sub", 2)]);
    let iface = extract_interface(&module).ok().unwrap();
    let bytes = emit_shim_module(&iface);

    let mut expected = fixed_prefix();
    // function section: two entries of type 1
    expected.extend_from_slice(&[0x03, 0x03, 0x02, 0x01, 0x01]);
    // export section: add -> 1, sub -> 2 (already sorted)
    expected.extend_from_slice(&[0x07, 0x0D, 0x02, 0x03]);
    expected.extend_from_slice(b"add");
    expected.extend_from_slice(&[0x00, 0x01, 0x03]);
    expected.extend_from_slice(b"sub");
    expected.extend_from_slice(&[0x00, 0x02]);
    // code section: add pushes 0, sub pushes 1
    expected.extend_from_slice(&code_section(2));

    assert_eq!(bytes, expected);
}

#[test]
fn emits_unsorted_declarations_with_declaration_order_constants() {
    // Declared zeta then alpha: the export section lists alpha (bound to
    // function index 1) before zeta (bound to 2), but code slot 0 still
    // pushes 0, the declaration index of zeta.
    let module = main_module(vec![func("zeta", 0), func("alpha", 0)]);
    let iface = extract_interface(&module).ok().unwrap();
    let bytes = emit_shim_module(&iface);

    let mut expected = fixed_prefix();
    expected.extend_from_slice(&[0x03, 0x03, 0x02, 0x01, 0x01]);
    expected.extend_from_slice(&[0x07, 0x10, 0x02, 0x05]);
    expected.extend_from_slice(b"alpha");
    expected.extend_from_slice(&[0x00, 0x01, 0x04]);
    expected.extend_from_slice(b"zeta");
    expected.extend_from_slice(&[0x00, 0x02]);
    expected.extend_from_slice(&code_section(2));

    assert_eq!(bytes, expected);
}

#[test]
fn emits_empty_module_with_empty_sections() {
    let module = main_module(vec![]);
    let iface = extract_interface(&module).ok().unwrap();
    let bytes = emit_shim_module(&iface);

    let mut expected = fixed_prefix();
    expected.extend_from_slice(&[0x03, 0x01, 0x00]); // function section, zero entries
    expected.extend_from_slice(&[0x07, 0x01, 0x00]); // export section, zero entries
    expected.extend_from_slice(&[0x0A, 0x01, 0x00]); // code section, zero entries

    assert_eq!(bytes, expected);
}

#[test]
fn emits_single_function_module_exactly() {
    let module = main_module(vec![func("f", 1)]);
    let iface = extract_interface(&module).ok().unwrap();
    let bytes = emit_shim_module(&iface);

    let mut expected = fixed_prefix();
    expected.extend_from_slice(&[0x03, 0x02, 0x01, 0x01]);
    expected.extend_from_slice(&[0x07, 0x05, 0x01, 0x01]);
    expected.extend_from_slice(b"f");
    expected.extend_from_slice(&[0x00, 0x01]);
    expected.extend_from_slice(&code_section(1));

    assert_eq!(bytes, expected);
}

#[test]
fn export_order_is_ascending_for_many_names() {
    let module = main_module(vec![
        func("delta", 0),
        func("bravo", 0),
        func("echo", 0),
        func("alfa", 0),
        func("charlie", 0),
    ]);
    let iface = extract_interface(&module).ok().unwrap();
    let bytes = emit_shim_module(&iface);

    let mut expected = fixed_prefix();
    expected.extend_from_slice(&[0x03, 0x06, 0x05, 0x01, 0x01, 0x01, 0x01, 0x01]);
    // alfa, bravo, charlie, delta, echo bound to 1..=5
    let mut exports: Vec<u8> = vec![0x05];
    for (i, name) in ["alfa", "bravo", "charlie", "delta", "echo"].iter().enumerate() {
        exports.push(name.len() as u8);
        exports.extend_from_slice(name.as_bytes());
        exports.push(0x00);
        exports.push(1 + i as u8);
    }
    expected.push(0x07);
    expected.push(exports.len() as u8);
    expected.extend_from_slice(&exports);
    expected.extend_from_slice(&code_section(5));

    assert_eq!(bytes, expected);
}

#[test]
fn emission_is_deterministic() {
    let module = main_module(vec![func("zeta", 0), func("alpha", 0), func("mid", 3)]);
    let first = compile_interface(&module).ok().unwrap();
    let second = compile_interface(&module).ok().unwrap();
    assert_eq!(first, second);

    let iface = extract_interface(&module).ok().unwrap();
    assert_eq!(emit_shim_module(&iface), first);
}

#[test]
fn compile_reports_extraction_errors() {
    let module = SourceModule {
        items: vec![TopLevelItem::Namespace(NamespaceDecl {
            name: "other".to_string(),
            items: vec![],
        })],
    };
    assert!(compile_interface(&module).is_err());
}

#[test]
fn compile_emits_same_bytes_as_the_two_stages() {
    let module = main_module(vec![func("add", 2), func("sub", 2)]);
    let compiled = compile_interface(&module).ok().unwrap();
    let iface = extract_interface(&module).ok().unwrap();
    assert_eq!(compiled, emit_shim_module(&iface));
}

#[test]
fn emits_name_at_the_length_limit() {
    let long_name = "a".repeat(shimgen::emit::MAX_NAME_CHARS);
    let module = main_module(vec![func(&long_name, 0)]);
    let first = compile_interface(&module).ok().unwrap();
    let second = compile_interface(&module).ok().unwrap();
    assert_eq!(first, second);
    // the export section carries the full name
    let name_bytes = long_name.as_bytes();
    assert!(first
        .windows(name_bytes.len())
        .any(|window| window == name_bytes));
}
