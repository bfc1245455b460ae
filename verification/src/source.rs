//! The shape of the parsed source text that extraction consumes.
//!
//! A front end parses the TypeScript-like input into a generic syntax
//! tree; the types here hold exactly what extraction reads of that tree.
//! Construct kinds outside the accepted subset are kept as a description
//! of the offending construct, so that rejection can name it.

use vstd::prelude::*;

verus! {

/// The return-type annotation of a declared function.
pub enum ReturnAnnotation {
    /// A single named type reference: a bare identifier.
    Named(String),
    /// Anything else (a union, a generic, a structural type, ...).
    Unsupported,
}

/// The mathematical value of a [`ReturnAnnotation`].
pub enum ReturnAnnotationModel {
    Named(Seq<char>),
    Unsupported,
}

impl View for ReturnAnnotation {
    type V = ReturnAnnotationModel;

    open spec fn view(&self) -> ReturnAnnotationModel {
        match self {
            ReturnAnnotation::Named(t) => ReturnAnnotationModel::Named(t@),
            ReturnAnnotation::Unsupported => ReturnAnnotationModel::Unsupported,
        }
    }
}

/// One declared function: its name, how many parameters it declares, and
/// its return-type annotation, if it carries one.
pub struct FunctionDecl {
    pub name: String,
    pub param_count: usize,
    pub return_type: Option<ReturnAnnotation>,
}

/// The mathematical value of a [`FunctionDecl`].
#[verifier::ext_equal]
pub struct FunctionDeclModel {
    pub name: Seq<char>,
    pub param_count: nat,
    pub return_type: Option<ReturnAnnotationModel>,
}

impl View for FunctionDecl {
    type V = FunctionDeclModel;

    open spec fn view(&self) -> FunctionDeclModel {
        FunctionDeclModel {
            name: self.name@,
            param_count: self.param_count as nat,
            return_type: match self.return_type {
                Option::Some(ref r) => Option::Some(r@),
                Option::None => Option::None,
            },
        }
    }
}

/// One item inside a namespace body.
pub enum NamespaceItem {
    /// An exported function declaration.
    ExportedFunction(FunctionDecl),
    /// An export of some other declaration kind (a constant, a class, ...);
    /// the string describes the kind.
    OtherExport(String),
    /// An item that is not an export at all; the string describes the kind.
    NonExport(String),
}

/// The mathematical value of a [`NamespaceItem`].
pub enum NamespaceItemModel {
    ExportedFunction(FunctionDeclModel),
    OtherExport(Seq<char>),
    NonExport(Seq<char>),
}

impl View for NamespaceItem {
    type V = NamespaceItemModel;

    open spec fn view(&self) -> NamespaceItemModel {
        match self {
            NamespaceItem::ExportedFunction(f) => NamespaceItemModel::ExportedFunction(f@),
            NamespaceItem::OtherExport(k) => NamespaceItemModel::OtherExport(k@),
            NamespaceItem::NonExport(k) => NamespaceItemModel::NonExport(k@),
        }
    }
}

/// A nested namespace declaration: its name and its body items in order.
pub struct NamespaceDecl {
    pub name: String,
    pub items: Vec<NamespaceItem>,
}

/// The mathematical value of a [`NamespaceDecl`].
#[verifier::ext_equal]
pub struct NamespaceDeclModel {
    pub name: Seq<char>,
    pub items: Seq<NamespaceItemModel>,
}

impl View for NamespaceDecl {
    type V = NamespaceDeclModel;

    open spec fn view(&self) -> NamespaceDeclModel {
        NamespaceDeclModel {
            name: self.name@,
            items: Seq::new(self.items@.len(), |i: int| self.items@[i]@),
        }
    }
}

/// One top-level item of the source file.
pub enum TopLevelItem {
    /// A nested namespace declaration.
    Namespace(NamespaceDecl),
    /// Any other top-level statement kind; the string describes it.
    Other(String),
}

/// The mathematical value of a [`TopLevelItem`].
pub enum TopLevelItemModel {
    Namespace(NamespaceDeclModel),
    Other(Seq<char>),
}

impl View for TopLevelItem {
    type V = TopLevelItemModel;

    open spec fn view(&self) -> TopLevelItemModel {
        match self {
            TopLevelItem::Namespace(ns) => TopLevelItemModel::Namespace(ns@),
            TopLevelItem::Other(k) => TopLevelItemModel::Other(k@),
        }
    }
}

/// The parsed source file: its top-level items in order.
pub struct SourceModule {
    pub items: Vec<TopLevelItem>,
}

/// The mathematical value of a [`SourceModule`].
#[verifier::ext_equal]
pub struct SourceModuleModel {
    pub items: Seq<TopLevelItemModel>,
}

impl View for SourceModule {
    type V = SourceModuleModel;

    open spec fn view(&self) -> SourceModuleModel {
        SourceModuleModel { items: Seq::new(self.items@.len(), |i: int| self.items@[i]@) }
    }
}

} // verus!
