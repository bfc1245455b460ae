use shimgen::extract::{extract_interface, ExtractError};
use shimgen::source::{
    FunctionDecl, NamespaceDecl, NamespaceItem, ReturnAnnotation, SourceModule, TopLevelItem,
};

fn named(t: &str) -> Option<ReturnAnnotation> {
    Some(ReturnAnnotation::Named(t.to_string()))
}

fn func(name: &str, param_count: usize, ret: Option<ReturnAnnotation>) -> NamespaceItem {
    NamespaceItem::ExportedFunction(FunctionDecl {
        name: name.to_string(),
        param_count,
        return_type: ret,
    })
}

fn namespace(name: &str, items: Vec<NamespaceItem>) -> TopLevelItem {
    TopLevelItem::Namespace(NamespaceDecl { name: name.to_string(), items })
}

fn main_module(items: Vec<NamespaceItem>) -> SourceModule {
    SourceModule { items: vec![namespace("main", items)] }
}

#[test]
fn accepts_two_functions_in_order() {
    let module = main_module(vec![
        func("add", 2, named("I32")),
        func("sub", 2, named("I32")),
    ]);
    let iface = match extract_interface(&module) {
        Ok(iface) => iface,
        Err(_) => panic!("extraction should succeed"),
    };
    assert_eq!(iface.name, "main");
    assert_eq!(iface.functions.len(), 2);
    assert_eq!(iface.functions[0].name, "add");
    assert_eq!(iface.functions[1].name, "sub");
}

#[test]
fn parameters_become_placeholders() {
    let module = main_module(vec![func("add", 2, named("I32"))]);
    let iface = match extract_interface(&module) {
        Ok(iface) => iface,
        Err(_) => panic!("extraction should succeed"),
    };
    let sig = &iface.functions[0];
    assert_eq!(sig.params.len(), 2);
    for p in &sig.params {
        assert_eq!(p.name, "c");
        assert_eq!(p.ptype, "I32");
    }
    assert_eq!(sig.results.len(), 1);
    assert_eq!(sig.results[0].name, "result");
    assert_eq!(sig.results[0].ptype, "I32");
}

#[test]
fn return_type_name_is_kept() {
    let module = main_module(vec![func("get", 0, named("I64"))]);
    let iface = match extract_interface(&module) {
        Ok(iface) => iface,
        Err(_) => panic!("extraction should succeed"),
    };
    assert_eq!(iface.functions[0].results[0].ptype, "I64");
}

#[test]
fn accepts_empty_main_namespace() {
    let module = main_module(vec![]);
    let iface = match extract_interface(&module) {
        Ok(iface) => iface,
        Err(_) => panic!("extraction should succeed"),
    };
    assert_eq!(iface.name, "main");
    assert_eq!(iface.functions.len(), 0);
}

#[test]
fn rejects_wrong_namespace_name() {
    let module = SourceModule { items: vec![namespace("other", vec![])] };
    match extract_interface(&module) {
        Err(ExtractError::WrongNamespaceName(n)) => assert_eq!(n, "other"),
        _ => panic!("expected the namespace name to be rejected"),
    }
}

#[test]
fn rejects_missing_return_type() {
    let module = main_module(vec![func("add", 2, None)]);
    assert!(matches!(
        extract_interface(&module),
        Err(ExtractError::MissingReturnType)
    ));
}

#[test]
fn rejects_illegal_return_type() {
    let module = main_module(vec![func(
        "add",
        2,
        Some(ReturnAnnotation::Unsupported),
    )]);
    assert!(matches!(
        extract_interface(&module),
        Err(ExtractError::IllegalReturnType)
    ));
}

#[test]
fn rejects_non_export_item() {
    let module = main_module(vec![
        func("add", 2, named("I32")),
        NamespaceItem::NonExport("statement".to_string()),
    ]);
    match extract_interface(&module) {
        Err(ExtractError::NonExportItem(k)) => assert_eq!(k, "statement"),
        _ => panic!("expected the non-export item to be rejected"),
    }
}

#[test]
fn rejects_exported_non_function() {
    let module = main_module(vec![NamespaceItem::OtherExport("const".to_string())]);
    match extract_interface(&module) {
        Err(ExtractError::UnsupportedExportKind(k)) => assert_eq!(k, "const"),
        _ => panic!("expected the exported constant to be rejected"),
    }
}

#[test]
fn rejects_other_top_level_statement() {
    let module = SourceModule {
        items: vec![TopLevelItem::Other("expression statement".to_string())],
    };
    match extract_interface(&module) {
        Err(ExtractError::UnsupportedTopLevel(k)) => assert_eq!(k, "expression statement"),
        _ => panic!("expected the top-level statement to be rejected"),
    }
}

#[test]
fn rejects_module_without_main() {
    let module = SourceModule { items: vec![] };
    assert!(matches!(
        extract_interface(&module),
        Err(ExtractError::MissingMainNamespace)
    ));
}

#[test]
fn rejects_second_main_namespace() {
    let module = SourceModule {
        items: vec![
            namespace("main", vec![func("add", 2, named("I32"))]),
            namespace("main", vec![]),
        ],
    };
    assert!(matches!(
        extract_interface(&module),
        Err(ExtractError::DuplicateMainNamespace)
    ));
}

#[test]
fn first_violation_wins() {
    let module = main_module(vec![
        func("bad", 0, None),
        NamespaceItem::NonExport("statement".to_string()),
    ]);
    assert!(matches!(
        extract_interface(&module),
        Err(ExtractError::MissingReturnType)
    ));
}
