//! The interface description: an ordered list of function signatures
//! extracted from the accepted source subset.

use vstd::prelude::*;

verus! {

/// One function parameter or result value: a name and the name of a
/// primitive numeric kind.
pub struct Param {
    pub name: String,
    pub ptype: String,
}

/// The mathematical value of a [`Param`].
#[verifier::ext_equal]
pub struct ParamModel {
    pub name: Seq<char>,
    pub ptype: Seq<char>,
}

impl View for Param {
    type V = ParamModel;

    open spec fn view(&self) -> ParamModel {
        ParamModel { name: self.name@, ptype: self.ptype@ }
    }
}

/// The signature of one declared function: its name, its parameters in
/// declaration order, and its results (exactly one for accepted input).
pub struct Signature {
    pub name: String,
    pub params: Vec<Param>,
    pub results: Vec<Param>,
}

/// The mathematical value of a [`Signature`].
#[verifier::ext_equal]
pub struct SignatureModel {
    pub name: Seq<char>,
    pub params: Seq<ParamModel>,
    pub results: Seq<ParamModel>,
}

impl View for Signature {
    type V = SignatureModel;

    open spec fn view(&self) -> SignatureModel {
        SignatureModel {
            name: self.name@,
            params: Seq::new(self.params@.len(), |i: int| self.params@[i]@),
            results: Seq::new(self.results@.len(), |i: int| self.results@[i]@),
        }
    }
}

/// The whole interface description: the namespace name (always `"main"`
/// for accepted input) and the declared functions in source order.
pub struct Interface {
    pub name: String,
    pub functions: Vec<Signature>,
}

/// The mathematical value of an [`Interface`].
#[verifier::ext_equal]
pub struct InterfaceModel {
    pub name: Seq<char>,
    pub functions: Seq<SignatureModel>,
}

impl View for Interface {
    type V = InterfaceModel;

    open spec fn view(&self) -> InterfaceModel {
        InterfaceModel {
            name: self.name@,
            functions: Seq::new(self.functions@.len(), |i: int| self.functions@[i]@),
        }
    }
}

/// The declared names of an interface's functions, in declaration order.
pub open spec fn declared_names(functions: Seq<SignatureModel>) -> Seq<Seq<char>> {
    functions.map_values(|s: SignatureModel| s.name)
}

} // verus!
