//! Extraction: validates the parsed source tree against the accepted
//! subset and produces the interface description, or the first violation
//! found, walking the tree top to bottom.

use vstd::prelude::*;

verus! {

use crate::interface::{Interface, InterfaceModel, Param, ParamModel, Signature, SignatureModel};
use crate::source::{
    FunctionDecl, FunctionDeclModel, NamespaceDecl, NamespaceItem, NamespaceItemModel,
    ReturnAnnotation, ReturnAnnotationModel, SourceModule, SourceModuleModel, TopLevelItem,
    TopLevelItemModel,
};

/// Why a source tree was rejected.
#[derive(Debug)]
pub enum ExtractError {
    /// A top-level statement that is not a namespace declaration; the
    /// string describes the construct.
    UnsupportedTopLevel(String),
    /// A namespace whose name is not `main`; the string is the found name.
    WrongNamespaceName(String),
    /// More than one `main` namespace declaration.
    DuplicateMainNamespace,
    /// No `main` namespace declaration at all.
    MissingMainNamespace,
    /// An item of the `main` body that is not an export; the string
    /// describes the item kind.
    NonExportItem(String),
    /// An export of something other than a function declaration; the
    /// string describes the declaration kind.
    UnsupportedExportKind(String),
    /// An exported function without a return-type annotation.
    MissingReturnType,
    /// A return-type annotation that is not a single named type.
    IllegalReturnType,
}

/// The mathematical value of an [`ExtractError`].
pub enum ExtractErrorModel {
    UnsupportedTopLevel(Seq<char>),
    WrongNamespaceName(Seq<char>),
    DuplicateMainNamespace,
    MissingMainNamespace,
    NonExportItem(Seq<char>),
    UnsupportedExportKind(Seq<char>),
    MissingReturnType,
    IllegalReturnType,
}

impl View for ExtractError {
    type V = ExtractErrorModel;

    open spec fn view(&self) -> ExtractErrorModel {
        match self {
            ExtractError::UnsupportedTopLevel(k) => ExtractErrorModel::UnsupportedTopLevel(k@),
            ExtractError::WrongNamespaceName(n) => ExtractErrorModel::WrongNamespaceName(n@),
            ExtractError::DuplicateMainNamespace => ExtractErrorModel::DuplicateMainNamespace,
            ExtractError::MissingMainNamespace => ExtractErrorModel::MissingMainNamespace,
            ExtractError::NonExportItem(k) => ExtractErrorModel::NonExportItem(k@),
            ExtractError::UnsupportedExportKind(k) => ExtractErrorModel::UnsupportedExportKind(k@),
            ExtractError::MissingReturnType => ExtractErrorModel::MissingReturnType,
            ExtractError::IllegalReturnType => ExtractErrorModel::IllegalReturnType,
        }
    }
}

/// The placeholder parameter list: parameter types are not yet consulted,
/// every declared parameter becomes the fixed placeholder.
pub open spec fn placeholder_params(n: nat) -> Seq<ParamModel> {
    Seq::new(n, |i: int| ParamModel { name: "c"@, ptype: "I32"@ })
}

/// What one declared function yields: its signature, or the first
/// violation of the return-type rules.
pub open spec fn signature_spec(f: FunctionDeclModel) -> Result<SignatureModel, ExtractErrorModel> {
    match f.return_type {
        Option::None => Result::Err(ExtractErrorModel::MissingReturnType),
        Option::Some(ReturnAnnotationModel::Unsupported) => Result::Err(
            ExtractErrorModel::IllegalReturnType,
        ),
        Option::Some(ReturnAnnotationModel::Named(t)) => Result::Ok(
            SignatureModel {
                name: f.name,
                params: placeholder_params(f.param_count),
                results: seq![ParamModel { name: "result"@, ptype: t }],
            },
        ),
    }
}

/// Walks the body of the `main` namespace, accumulating signatures in
/// declaration order; the first violation aborts the walk.
pub open spec fn scan_namespace(
    items: Seq<NamespaceItemModel>,
    acc: Seq<SignatureModel>,
) -> Result<Seq<SignatureModel>, ExtractErrorModel>
    decreases items.len(),
{
    if items.len() == 0 {
        Result::Ok(acc)
    } else {
        match items.first() {
            NamespaceItemModel::ExportedFunction(f) => match signature_spec(f) {
                Result::Ok(sig) => scan_namespace(items.drop_first(), acc.push(sig)),
                Result::Err(e) => Result::Err(e),
            },
            NamespaceItemModel::OtherExport(k) => Result::Err(
                ExtractErrorModel::UnsupportedExportKind(k),
            ),
            NamespaceItemModel::NonExport(k) => Result::Err(ExtractErrorModel::NonExportItem(k)),
        }
    }
}

/// Walks the top-level items: exactly one namespace named `main` is
/// accepted, and everything else is rejected by name.
pub open spec fn scan_top_level(
    items: Seq<TopLevelItemModel>,
    found: Option<Seq<SignatureModel>>,
) -> Result<InterfaceModel, ExtractErrorModel>
    decreases items.len(),
{
    if items.len() == 0 {
        match found {
            Option::Some(sigs) => Result::Ok(InterfaceModel { name: "main"@, functions: sigs }),
            Option::None => Result::Err(ExtractErrorModel::MissingMainNamespace),
        }
    } else {
        match items.first() {
            TopLevelItemModel::Other(k) => Result::Err(ExtractErrorModel::UnsupportedTopLevel(k)),
            TopLevelItemModel::Namespace(ns) => if ns.name != "main"@ {
                Result::Err(ExtractErrorModel::WrongNamespaceName(ns.name))
            } else if found is Some {
                Result::Err(ExtractErrorModel::DuplicateMainNamespace)
            } else {
                match scan_namespace(ns.items, Seq::empty()) {
                    Result::Ok(sigs) => scan_top_level(items.drop_first(), Option::Some(sigs)),
                    Result::Err(e) => Result::Err(e),
                }
            },
        }
    }
}

/// What extraction yields for a whole source tree.
pub open spec fn extract_spec(m: SourceModuleModel) -> Result<InterfaceModel, ExtractErrorModel> {
    scan_top_level(m.items, Option::None)
}

/// The signatures of a list, in order.
pub open spec fn signatures_view(s: Seq<Signature>) -> Seq<SignatureModel> {
    s.map_values(|x: Signature| x@)
}

/// Builds the signature of one declared function, or rejects it.
fn signature_of(f: &FunctionDecl) -> (r: Result<Signature, ExtractError>)
    ensures
        match r {
            Result::Ok(sig) => signature_spec(f@) == Result::<SignatureModel,
            ExtractErrorModel>::Ok(sig@),
            Result::Err(e) => signature_spec(f@) == Result::<SignatureModel,
            ExtractErrorModel>::Err(e@),
        },
{
    match &f.return_type {
        Option::None => Result::Err(ExtractError::MissingReturnType),
        Option::Some(ReturnAnnotation::Unsupported) => Result::Err(ExtractError::IllegalReturnType),
        Option::Some(ReturnAnnotation::Named(t)) => {
            let mut params: Vec<Param> = Vec::new();
            let mut k: usize = 0;
            while k < f.param_count
                invariant
                    k <= f.param_count,
                    params@.len() == k,
                    forall|i: int|
                        0 <= i < k ==> #[trigger] params@[i]@ == (ParamModel {
                            name: "c"@,
                            ptype: "I32"@,
                        }),
                decreases f.param_count - k,
            {
                params.push(Param { name: "c".to_owned(), ptype: "I32".to_owned() });
                k = k + 1;
            }
            let mut results: Vec<Param> = Vec::new();
            results.push(Param { name: "result".to_owned(), ptype: t.clone() });
            let sig = Signature { name: f.name.clone(), params, results };
            proof {
                let expected = signature_spec(f@)->Ok_0;
                assert(sig@.params =~~= expected.params);
                assert(sig@.results =~~= expected.results);
                assert(sig@ =~~= expected);
            }
            Result::Ok(sig)
        },
    }
}

/// Walks one namespace body and collects the exported function signatures.
fn extract_namespace(ns: &NamespaceDecl) -> (r: Result<Vec<Signature>, ExtractError>)
    ensures
        match r {
            Result::Ok(sigs) => scan_namespace(ns@.items, Seq::empty()) == Result::<
                Seq<SignatureModel>,
                ExtractErrorModel,
            >::Ok(signatures_view(sigs@)),
            Result::Err(e) => scan_namespace(ns@.items, Seq::empty()) == Result::<
                Seq<SignatureModel>,
                ExtractErrorModel,
            >::Err(e@),
        },
{
    let mut sigs: Vec<Signature> = Vec::new();
    let mut i: usize = 0;
    proof {
        assert(ns@.items.skip(0) =~= ns@.items);
        assert(signatures_view(sigs@) =~= Seq::<SignatureModel>::empty());
    }
    while i < ns.items.len()
        invariant
            i <= ns.items@.len(),
            ns@.items.len() == ns.items@.len(),
            scan_namespace(ns@.items, Seq::empty()) == scan_namespace(
                ns@.items.skip(i as int),
                signatures_view(sigs@),
            ),
        decreases ns.items@.len() - i,
    {
        proof {
            assert(ns@.items.skip(i as int).first() == ns@.items[i as int]);
            assert(ns@.items.skip(i as int).drop_first() =~= ns@.items.skip(i as int + 1));
        }
        match &ns.items[i] {
            NamespaceItem::ExportedFunction(f) => {
                match signature_of(f) {
                    Result::Ok(sig) => {
                        let ghost old_sigs = sigs@;
                        sigs.push(sig);
                        proof {
                            assert(signatures_view(sigs@) =~= signatures_view(old_sigs).push(
                                sig@,
                            ));
                        }
                    },
                    Result::Err(e) => {
                        return Result::Err(e);
                    },
                }
            },
            NamespaceItem::OtherExport(k) => {
                return Result::Err(ExtractError::UnsupportedExportKind(k.clone()));
            },
            NamespaceItem::NonExport(k) => {
                return Result::Err(ExtractError::NonExportItem(k.clone()));
            },
        }
        i = i + 1;
    }
    proof {
        assert(ns@.items.skip(i as int).len() == 0);
    }
    Result::Ok(sigs)
}

/// Extracts the interface description from a parsed source tree, or
/// reports the first violation of the accepted subset.
pub fn extract_interface(module: &SourceModule) -> (r: Result<Interface, ExtractError>)
    ensures
        match r {
            Result::Ok(iface) => extract_spec(module@) == Result::<InterfaceModel,
            ExtractErrorModel>::Ok(iface@),
            Result::Err(e) => extract_spec(module@) == Result::<InterfaceModel,
            ExtractErrorModel>::Err(e@),
        },
{
    let main_name: String = "main".to_owned();
    let mut found: Option<Vec<Signature>> = Option::None;
    let mut i: usize = 0;
    proof {
        assert(module@.items.skip(0) =~= module@.items);
    }
    while i < module.items.len()
        invariant
            i <= module.items@.len(),
            module@.items.len() == module.items@.len(),
            main_name@ == "main"@,
            scan_top_level(module@.items, Option::None) == scan_top_level(
                module@.items.skip(i as int),
                match found {
                    Option::Some(ref sigs) => Option::Some(signatures_view(sigs@)),
                    Option::None => Option::None,
                },
            ),
        decreases module.items@.len() - i,
    {
        proof {
            assert(module@.items.skip(i as int).first() == module@.items[i as int]);
            assert(module@.items.skip(i as int).drop_first() =~= module@.items.skip(i as int + 1));
        }
        match &module.items[i] {
            TopLevelItem::Other(k) => {
                return Result::Err(ExtractError::UnsupportedTopLevel(k.clone()));
            },
            TopLevelItem::Namespace(ns) => {
                if !(ns.name == main_name) {
                    return Result::Err(ExtractError::WrongNamespaceName(ns.name.clone()));
                }
                if found.is_some() {
                    return Result::Err(ExtractError::DuplicateMainNamespace);
                }
                match extract_namespace(ns) {
                    Result::Ok(sigs) => {
                        found = Option::Some(sigs);
                    },
                    Result::Err(e) => {
                        return Result::Err(e);
                    },
                }
            },
        }
        i = i + 1;
    }
    proof {
        assert(module@.items.skip(i as int).len() == 0);
    }
    match found {
        Option::Some(sigs) => {
            let iface = Interface { name: main_name, functions: sigs };
            proof {
                assert(iface@.functions =~= signatures_view(iface.functions@));
                assert(iface@ =~~= InterfaceModel {
                    name: "main"@,
                    functions: signatures_view(iface.functions@),
                });
            }
            Result::Ok(iface)
        },
        Option::None => Result::Err(ExtractError::MissingMainNamespace),
    }
}

} // verus!
