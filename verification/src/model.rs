//! The data model of one generator invocation: delegation clauses, contract
//! definitions, the source scope they are found in, and the annotated
//! implementation block.

use vstd::prelude::*;
use crate::token::{Token, TokenV};

verus! {

/// One delegation clause, `use <expr> [for <name>, ...]`.
pub struct DelegationClause {
    /// The delegate target expression, stored verbatim as tokens and never
    /// evaluated by the generator.
    pub target: Vec<Token>,
    /// The explicit method names after `for`. `None` (or an empty list)
    /// means every method of the matched contract is delegated.
    pub names: Option<Vec<String>>,
}

/// The mathematical value of a [`DelegationClause`].
pub struct ClauseV {
    pub target: Seq<TokenV>,
    pub names: Option<Seq<Seq<char>>>,
}

impl DeepView for DelegationClause {
    type V = ClauseV;

    open spec fn deep_view(&self) -> ClauseV {
        ClauseV { target: self.target.deep_view(), names: self.names.deep_view() }
    }
}

/// How one parameter of a contract method is bound.
pub enum ParamPattern {
    /// Bound by a simple identifier; the identifier is passed through in the
    /// forwarding call.
    Plain(String),
    /// Bound by a non-trivial pattern; it contributes no forwarding-call
    /// argument.
    Complex,
}

/// The mathematical value of a [`ParamPattern`].
pub enum ParamV {
    Plain(Seq<char>),
    Complex,
}

impl DeepView for ParamPattern {
    type V = ParamV;

    open spec fn deep_view(&self) -> ParamV {
        match self {
            ParamPattern::Plain(s) => ParamV::Plain(s@),
            ParamPattern::Complex => ParamV::Complex,
        }
    }
}

/// One method signature of a contract.
pub struct MethodSignature {
    /// The method's name.
    pub name: String,
    /// The whole signature, verbatim as tokens; it is copied unchanged into
    /// the generated forwarding method.
    pub tokens: Vec<Token>,
    /// The non-receiver parameters, in declaration order.
    pub params: Vec<ParamPattern>,
}

/// The mathematical value of a [`MethodSignature`].
pub struct MethodSigV {
    pub name: Seq<char>,
    pub tokens: Seq<TokenV>,
    pub params: Seq<ParamV>,
}

impl DeepView for MethodSignature {
    type V = MethodSigV;

    open spec fn deep_view(&self) -> MethodSigV {
        MethodSigV {
            name: self.name@,
            tokens: self.tokens.deep_view(),
            params: self.params.deep_view(),
        }
    }
}

/// One member of a contract declaration.
pub enum ContractItem {
    /// A method signature.
    Method(MethodSignature),
    /// Any other member (an associated type or constant); the generator
    /// ignores it.
    Other,
}

/// The mathematical value of a [`ContractItem`].
pub enum ContractItemV {
    Method(MethodSigV),
    Other,
}

impl DeepView for ContractItem {
    type V = ContractItemV;

    open spec fn deep_view(&self) -> ContractItemV {
        match self {
            ContractItem::Method(m) => ContractItemV::Method(m.deep_view()),
            ContractItem::Other => ContractItemV::Other,
        }
    }
}

/// A contract (trait) declaration: its name and its members in declaration
/// order.
pub struct ContractDefinition {
    pub name: String,
    pub items: Vec<ContractItem>,
}

/// The mathematical value of a [`ContractDefinition`].
pub struct ContractV {
    pub name: Seq<char>,
    pub items: Seq<ContractItemV>,
}

impl DeepView for ContractDefinition {
    type V = ContractV;

    open spec fn deep_view(&self) -> ContractV {
        ContractV { name: self.name@, items: self.items.deep_view() }
    }
}

/// One top-level declaration of the source scope.
pub enum SourceItem {
    /// A contract declaration.
    Contract(ContractDefinition),
    /// Any other top-level declaration; the locator skips it.
    Other,
}

/// The mathematical value of a [`SourceItem`].
pub enum SourceItemV {
    Contract(ContractV),
    Other,
}

impl DeepView for SourceItem {
    type V = SourceItemV;

    open spec fn deep_view(&self) -> SourceItemV {
        match self {
            SourceItem::Contract(c) => SourceItemV::Contract(c.deep_view()),
            SourceItem::Other => SourceItemV::Other,
        }
    }
}

/// The source scope searched for contract declarations, in file order.
pub struct SourceScope {
    pub items: Vec<SourceItem>,
}

impl DeepView for SourceScope {
    type V = Seq<SourceItemV>;

    open spec fn deep_view(&self) -> Seq<SourceItemV> {
        self.items.deep_view()
    }
}

/// The contract named by the annotated implementation block.
pub struct ImplContract {
    /// The contract's path, verbatim as tokens, reproduced in the output
    /// block's header.
    pub path: Vec<Token>,
    /// The contract's unqualified name (the last path segment), the key the
    /// locator matches against.
    pub name: String,
}

/// The mathematical value of an [`ImplContract`].
pub struct ImplContractV {
    pub path: Seq<TokenV>,
    pub name: Seq<char>,
}

impl DeepView for ImplContract {
    type V = ImplContractV;

    open spec fn deep_view(&self) -> ImplContractV {
        ImplContractV { path: self.path.deep_view(), name: self.name@ }
    }
}

/// The annotated implementation block, as handed to the generator.
pub struct ImplBlock {
    /// The contract the block implements, or `None` when the block names no
    /// contract (which the generator rejects).
    pub contract: Option<ImplContract>,
    /// The implementing type, verbatim as tokens.
    pub self_ty: Vec<Token>,
    /// The hand-written members of the block, verbatim as tokens.
    pub body: Vec<Token>,
}

/// The mathematical value of an [`ImplBlock`].
pub struct ImplBlockV {
    pub contract: Option<ImplContractV>,
    pub self_ty: Seq<TokenV>,
    pub body: Seq<TokenV>,
}

impl DeepView for ImplBlock {
    type V = ImplBlockV;

    open spec fn deep_view(&self) -> ImplBlockV {
        ImplBlockV {
            contract: self.contract.deep_view(),
            self_ty: self.self_ty.deep_view(),
            body: self.body.deep_view(),
        }
    }
}

/// The fatal errors of one generator invocation.
#[derive(Clone, Copy, PartialEq, Eq, Structural, Debug)]
pub enum GenError {
    /// The clause list does not follow the grammar
    /// `use <expr> [for <name>, ...]` with clauses separated by `;`.
    MalformedClause,
    /// The annotated implementation block names no contract.
    MissingContract,
}

} // verus!
