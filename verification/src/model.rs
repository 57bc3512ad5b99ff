//! The signature model and how it is built from a declaration.

use vstd::prelude::*;
use crate::span::SourceSpan;
use crate::types::{Shape, TypeRef};

verus! {

/// One parameter of a signature.
#[derive(Debug, PartialEq, Eq)]
pub struct ParamInfo {
    pub type_ref: TypeRef,
    /// The parameter's place in the list, counted from zero.
    pub position: usize,
    pub span: SourceSpan,
}

/// A return type that is written out, and where it is written.
#[derive(Debug, PartialEq, Eq)]
pub struct ReturnInfo {
    pub type_ref: TypeRef,
    pub span: SourceSpan,
}

/// The declared shape of a callable.
#[derive(Debug, PartialEq, Eq)]
pub struct SignatureModel {
    pub is_async: bool,
    pub parameters: Vec<ParamInfo>,
    /// `None` where no return type is written: the callable returns unit.
    pub return_type: Option<ReturnInfo>,
    /// The whole signature, from its first keyword to its end.
    pub span: SourceSpan,
}

/// A parameter as a mathematical value.
pub struct ParamView {
    pub shape: Shape,
    pub position: nat,
    pub span: SourceSpan,
}

/// A written return type as a mathematical value.
pub struct ReturnView {
    pub shape: Shape,
    pub span: SourceSpan,
}

/// A signature as a mathematical value.
pub struct SignatureView {
    pub is_async: bool,
    pub parameters: Seq<ParamView>,
    pub return_type: Option<ReturnView>,
    pub span: SourceSpan,
}

impl View for ParamInfo {
    type V = ParamView;

    open spec fn view(&self) -> ParamView {
        ParamView { shape: self.type_ref.shape(), position: self.position as nat, span: self.span }
    }
}

impl View for ReturnInfo {
    type V = ReturnView;

    open spec fn view(&self) -> ReturnView {
        ReturnView { shape: self.type_ref.shape(), span: self.span }
    }
}

/// A written return type, if there is one, as a mathematical value.
pub open spec fn written(return_type: Option<ReturnInfo>) -> Option<ReturnView> {
    match return_type {
        Some(info) => Some(info@),
        None => None,
    }
}

impl View for SignatureModel {
    type V = SignatureView;

    open spec fn view(&self) -> SignatureView {
        SignatureView {
            is_async: self.is_async,
            parameters: self.parameters@.map_values(|p: ParamInfo| p@),
            return_type: written(self.return_type),
            span: self.span,
        }
    }
}

impl SignatureView {
    /// Every parameter records the place at which it stands.
    pub open spec fn well_formed(self) -> bool {
        forall|i: int|
            0 <= i < self.parameters.len() ==> (#[trigger] self.parameters[i]).position == i
    }
}

/// One argument of a function declaration.
#[derive(Debug, PartialEq, Eq)]
pub struct ArgumentSyntax {
    pub type_ref: TypeRef,
    pub span: SourceSpan,
}

/// A function declaration, as the front end hands it over.
#[derive(Debug, PartialEq, Eq)]
pub struct FunctionSyntax {
    pub is_async: bool,
    pub inputs: Vec<ArgumentSyntax>,
    pub output: Option<ReturnInfo>,
    pub span: SourceSpan,
}

/// A declaration, as the front end hands it over.
#[derive(Debug, PartialEq, Eq)]
pub enum Declaration {
    Function(FunctionSyntax),
    /// Anything that is not a function, with the place where it stands.
    Other(SourceSpan),
}

/// Why no signature model could be built.
#[derive(Clone, Copy, Debug, PartialEq, Eq, Structural)]
pub enum BuildError {
    /// The declaration at `span` is not a function.
    NotAFunction { span: SourceSpan },
}

/// The model of the function `function`: its parts as they are, and each
/// argument with the place at which it stands.
pub open spec fn model_of(function: FunctionSyntax) -> SignatureView {
    SignatureView {
        is_async: function.is_async,
        parameters: Seq::new(
            function.inputs@.len(),
            |i: int|
                ParamView {
                    shape: function.inputs@[i].type_ref.shape(),
                    position: i as nat,
                    span: function.inputs@[i].span,
                },
        ),
        return_type: written(function.output),
        span: function.span,
    }
}

/// Whether `model` holds the written types of `function` as they are: each
/// argument's type at the argument's place, and the return type.
pub open spec fn carries_types(function: FunctionSyntax, model: SignatureModel) -> bool {
    &&& model.return_type == function.output
    &&& model.parameters@.len() == function.inputs@.len()
    &&& forall|i: int|
        0 <= i < function.inputs@.len() ==> (#[trigger] model.parameters@[i]).type_ref
            == function.inputs@[i].type_ref
}

/// Builds the signature model of a declaration. Fails on a declaration that
/// is not a function, and on nothing else. Nothing is judged here: types and
/// spans are carried over as they are written.
pub fn build_signature(declaration: Declaration) -> (built: Result<SignatureModel, BuildError>)
    ensures
        match declaration {
            Declaration::Function(function) => built is Ok && built->Ok_0@ == model_of(function)
                && built->Ok_0@.well_formed() && carries_types(function, built->Ok_0),
            Declaration::Other(span) => built == Err::<SignatureModel, BuildError>(
                BuildError::NotAFunction { span: span },
            ),
        },
{
    match declaration {
        Declaration::Function(function) => {
            let ghost inputs = function.inputs@;
            let mut parameters: Vec<ParamInfo> = Vec::new();
            for argument in it: function.inputs
                invariant
                    it.seq() == inputs,
                    parameters@.len() == it.index(),
                    forall|j: int|
                        0 <= j < parameters@.len() ==> (#[trigger] parameters@[j]).type_ref
                            == inputs[j].type_ref && parameters@[j].position == j
                            && parameters@[j].span == inputs[j].span,
            {
                let position: usize = parameters.len();
                parameters.push(
                    ParamInfo { type_ref: argument.type_ref, position: position, span: argument.span },
                );
            }
            let model = SignatureModel {
                is_async: function.is_async,
                parameters: parameters,
                return_type: function.output,
                span: function.span,
            };
            assert(model@.parameters =~= model_of(function).parameters);
            Ok(model)
        },
        Declaration::Other(span) => Err(BuildError::NotAFunction { span: span }),
    }
}

} // verus!
