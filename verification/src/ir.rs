//! The intermediate representation the analysis engine consumes: a normalized
//! tree of statements and expressions for one function body, produced by a
//! front end and read-only for every detector.

use vstd::prelude::*;

verus! {

/// A region of the analysed source, used to anchor diagnostics.
#[derive(Clone, Copy, PartialEq, Eq, Structural, Debug)]
pub struct Span {
    pub lo: u64,
    pub hi: u64,
}

/// Binary operators that can appear in a `Binary` node.
#[derive(Clone, Copy, PartialEq, Eq, Structural, Debug)]
pub enum BinOp {
    Eq,
    Ne,
    Lt,
    Le,
    Gt,
    Ge,
    Add,
    Sub,
    Mul,
    Div,
    And,
    Or,
}

/// A literal value.
#[derive(Clone, Debug)]
pub enum Lit {
    Bool(bool),
    Int(u128),
    Text(String),
}

/// One node of the IR tree. Statement positions (the body of a function, the
/// branch of an `If`, the body of a `ForLoop`) hold a sequence of nodes; every
/// other child is a single nested node.
pub enum Expr {
    /// `receiver.method(args)`
    MethodCall { receiver: Box<Expr>, method: String, args: Vec<Expr>, span: Span },
    /// `callee(args)`, where `callee` is typically a `Path`
    Call { callee: Box<Expr>, args: Vec<Expr>, span: Span },
    /// `base.field`
    FieldAccess { base: Box<Expr>, field: String, span: Span },
    /// `lhs = rhs`
    Assign { lhs: Box<Expr>, rhs: Box<Expr>, span: Span },
    /// `left op right`
    Binary { op: BinOp, left: Box<Expr>, right: Box<Expr>, span: Span },
    /// `if cond { then_branch }`
    If { cond: Box<Expr>, then_branch: Vec<Expr>, span: Span },
    /// `for binding in iterable { body }`
    ForLoop { binding: String, iterable: Box<Expr>, body: Vec<Expr>, span: Span },
    /// `start..end`
    Range { start: Box<Expr>, end: Box<Expr>, span: Span },
    /// a literal
    Literal { value: Lit, span: Span },
    /// a (possibly qualified) name, as its segments
    Path { segments: Vec<String>, span: Span },
}

impl Expr {
    /// The source region this node covers.
    pub open spec fn spec_span(self) -> Span {
        match self {
            Expr::MethodCall { span, .. } => span,
            Expr::Call { span, .. } => span,
            Expr::FieldAccess { span, .. } => span,
            Expr::Assign { span, .. } => span,
            Expr::Binary { span, .. } => span,
            Expr::If { span, .. } => span,
            Expr::ForLoop { span, .. } => span,
            Expr::Range { span, .. } => span,
            Expr::Literal { span, .. } => span,
            Expr::Path { span, .. } => span,
        }
    }

    pub fn span(&self) -> (s: Span)
        ensures
            s == self.spec_span(),
    {
        match self {
            Expr::MethodCall { span, .. } => *span,
            Expr::Call { span, .. } => *span,
            Expr::FieldAccess { span, .. } => *span,
            Expr::Assign { span, .. } => *span,
            Expr::Binary { span, .. } => *span,
            Expr::If { span, .. } => *span,
            Expr::ForLoop { span, .. } => *span,
            Expr::Range { span, .. } => *span,
            Expr::Literal { span, .. } => *span,
            Expr::Path { span, .. } => *span,
        }
    }
}

/// The unit of analysis: the ordered statements of one function body.
pub struct FunctionBody {
    pub stmts: Vec<Expr>,
}

impl View for FunctionBody {
    type V = Seq<Expr>;

    open spec fn view(&self) -> Seq<Expr> {
        self.stmts@
    }
}

/// The expression reads a field of the contract's own receiver: a field
/// access whose base is a path with a segment containing `self`.
pub open spec fn is_receiver_field(e: Expr) -> bool {
    match e {
        Expr::FieldAccess { base, .. } => match *base {
            Expr::Path { segments, .. } => crate::names::any_segment_contains(segments@, "self"@),
            _ => false,
        },
        _ => false,
    }
}

/// Does this expression read a field rooted at the contract's own receiver?
pub fn receiver_field_check(e: &Expr) -> (r: bool)
    ensures
        r == is_receiver_field(*e),
{
    match e {
        Expr::FieldAccess { base, .. } => match &**base {
            Expr::Path { segments, .. } => crate::names::segments_contain(segments, "self"),
            _ => false,
        },
        _ => false,
    }
}


} // verus!
