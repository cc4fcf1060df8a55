//! What the analysis of a program knows of its types, expressions and famous definitions.
use crate::hover::ModuleDef;
use either::Either;
use vstd::prelude::*;

verus! {

/// Declares `either::Either`, with its two variants, for use in this crate.
#[verifier::external_type_specification]
#[verifier::reject_recursive_types(L)]
#[verifier::reject_recursive_types(R)]
pub struct ExEither<L, R>(Either<L, R>);

/// An enum, by the number that stands for it.
#[derive(Clone, Copy, PartialEq, Eq, Structural, Debug)]
pub struct Enum {
    pub id: u64,
}

/// A struct, a union or an enum.
#[derive(Clone, Copy, PartialEq, Eq, Structural, Debug)]
pub enum Adt {
    Struct,
    Union,
    Enum(Enum),
}

/// A type.
#[derive(Debug)]
pub struct Type {
    /// The number that stands for the type, see [`Type::agrees_with`].
    pub id: u64,
    /// How the type is written.
    pub display: String,
    /// The struct, union or enum that the type is an instance of.
    pub adt: Option<Adt>,
    /// The type arguments, in order.
    pub arguments: Vec<Type>,
    /// The definitions that a walk over the type meets, in the order of the walk.
    pub defs: Vec<ModuleDef>,
}

impl Type {
    /// Types with the same number are the same in all that is known of them: what they are
    /// instances of, how they are written, their arguments, and the definitions they lead to.
    pub open spec fn agrees_with(self, other: Type) -> bool {
        self.id == other.id ==> {
            &&& self.adt == other.adt
            &&& self.display@ == other.display@
            &&& self.defs@ == other.defs@
            &&& self.arguments@.len() == other.arguments@.len()
            &&& forall|i: int|
                #![trigger self.arguments@[i]]
                #![trigger other.arguments@[i]]
                0 <= i < self.arguments@.len() ==> self.arguments@[i].id == other.arguments@[i].id
        }
    }
}

/// The type of an expression or a pattern, and the type that it is coerced to, if it is.
#[derive(Debug)]
pub struct TypeInfo {
    pub original: Type,
    pub adjusted: Option<Type>,
}

/// An expression, with its type where that is known.
#[derive(Debug)]
pub struct Expr {
    pub ty: Option<TypeInfo>,
}

/// A pattern, with its type where that is known.
#[derive(Debug)]
pub struct Pat {
    pub ty: Option<TypeInfo>,
}

impl Expr {
    /// The type of the expression before any coercion.
    pub open spec fn spec_original(self) -> Option<Type> {
        match self.ty {
            Some(info) => Some(info.original),
            None => None,
        }
    }

    /// The type of the expression before any coercion.
    pub fn original(&self) -> (res: Option<&Type>)
        ensures
            res matches Some(ty) ==> self.spec_original() == Some(*ty),
            res is None ==> self.spec_original() is None,
    {
        match &self.ty {
            Some(info) => Some(&info.original),
            None => None,
        }
    }
}

/// What stands before the braces of a block.
#[derive(Clone, Copy, PartialEq, Eq, Structural, Debug)]
pub enum BlockModifier {
    Async,
    Unsafe,
    Try,
    Const,
    Label,
}

/// A node of the syntax tree, as far as it can end the search for the body around a `?`.
#[derive(Debug)]
pub enum SyntaxNode {
    /// A function, with the return type of its definition where it has one.
    Fn(Option<Type>),
    /// An item other than a function.
    Item,
    /// A closure, with its body where it has one.
    ClosureExpr(Option<Expr>),
    /// A block, which is an expression itself.
    BlockExpr(Option<BlockModifier>, Expr),
    /// Anything else.
    Other,
}

/// The expression `expr?`.
#[derive(Debug)]
pub struct TryExpr {
    /// What stands before the `?`.
    pub expr: Option<Expr>,
    /// The node itself and the nodes around it, from the inside out.
    pub ancestors: Vec<SyntaxNode>,
}

/// The expression `*expr`.
#[derive(Debug)]
pub struct DerefExpr {
    /// What stands behind the `*`.
    pub expr: Option<Expr>,
    /// The type of the whole expression.
    pub ty: Option<TypeInfo>,
}

/// A module.
#[derive(Debug)]
pub struct Module {
    pub def: ModuleDef,
    pub name: Option<String>,
    pub docs: Option<String>,
}

/// The definitions of the standard library that a crate sees.
#[derive(Debug)]
pub struct FamousDefs {
    /// The modules right below the root of `std`, `None` where the crate does not see `std`.
    pub std: Option<Vec<Module>>,
    /// `core::option::Option`.
    pub core_option: Option<Enum>,
    /// `core::result::Result`.
    pub core_result: Option<Enum>,
}

impl FamousDefs {
    /// `Option` and `Result` are two enums.
    pub open spec fn wf(self) -> bool {
        self.core_option is Some && self.core_result is Some ==> self.core_option
            != self.core_result
    }
}

} // verus!
