use vstd::prelude::*;

verus! {

/// A half-open range of byte offsets into the original source text.
/// Every node of the syntax tree carries one; diagnostics point into the
/// source through it, and the printer downstream orders output by it.
#[derive(Clone, Copy, PartialEq, Eq, Structural, Debug)]
pub struct Span {
    pub lo: u32,
    pub hi: u32,
}

impl Span {
    /// A span is well formed when it does not end before it starts.
    pub open spec fn wf(self) -> bool {
        self.lo <= self.hi
    }

    /// `other` lies entirely inside `self`.
    pub open spec fn encloses(self, other: Span) -> bool {
        self.lo <= other.lo && other.hi <= self.hi
    }

    /// `self` ends at or before `other` begins: the two do not overlap and
    /// keep left-to-right source order.
    pub open spec fn precedes(self, other: Span) -> bool {
        self.hi <= other.lo
    }
}

#[derive(Clone, Copy, PartialEq, Eq, Structural, Debug)]
pub enum BinOp {
    Add,
    Sub,
    Mul,
}

/// An expression of the syntax tree, each child owned exclusively.
#[derive(Debug, PartialEq, Eq)]
pub enum Expr {
    Ident { name: String, span: Span },
    Num { value: u64, span: Span },
    Bin { op: BinOp, lhs: Box<Expr>, rhs: Box<Expr>, span: Span },
    Call { callee: Box<Expr>, args: Vec<Expr>, span: Span },
}

/// A braced statement list; it introduces one lexical scope.
#[derive(Debug, PartialEq, Eq)]
pub struct Block {
    pub stmts: Vec<Stmt>,
    pub span: Span,
}

/// A statement of the syntax tree.
#[derive(Debug, PartialEq, Eq)]
pub enum Stmt {
    Expr { expr: Expr, span: Span },
    VarDecl { name: String, init: Expr, span: Span },
    Block { block: Block },
    If { cond: Expr, cons: Block, span: Span },
    FnDecl { name: String, params: Vec<String>, body: Block, span: Span },
}

/// A whole module: the list of top-level statements.
#[derive(Debug, PartialEq, Eq)]
pub struct Program {
    pub body: Vec<Stmt>,
    pub span: Span,
}

/// The mathematical model of an expression: names as character sequences,
/// child lists as sequences. All contracts speak of this model.
pub enum ExprV {
    Ident { name: Seq<char>, span: Span },
    Num { value: u64, span: Span },
    Bin { op: BinOp, lhs: Box<ExprV>, rhs: Box<ExprV>, span: Span },
    Call { callee: Box<ExprV>, args: Seq<ExprV>, span: Span },
}

pub struct BlockV {
    pub stmts: Seq<StmtV>,
    pub span: Span,
}

pub enum StmtV {
    Expr { expr: ExprV, span: Span },
    VarDecl { name: Seq<char>, init: ExprV, span: Span },
    Block { block: BlockV },
    If { cond: ExprV, cons: BlockV, span: Span },
    FnDecl { name: Seq<char>, params: Seq<Seq<char>>, body: BlockV, span: Span },
}

pub struct ProgramV {
    pub body: Seq<StmtV>,
    pub span: Span,
}

impl Expr {
    pub open spec fn view_spec(self) -> ExprV
        decreases self,
    {
        match self {
            Expr::Ident { name, span } => ExprV::Ident { name: name@, span },
            Expr::Num { value, span } => ExprV::Num { value, span },
            Expr::Bin { op, lhs, rhs, span } => ExprV::Bin {
                op,
                lhs: Box::new(lhs.view_spec()),
                rhs: Box::new(rhs.view_spec()),
                span,
            },
            Expr::Call { callee, args, span } => ExprV::Call {
                callee: Box::new(callee.view_spec()),
                args: exprs_view(args@),
                span,
            },
        }
    }
}

impl View for Expr {
    type V = ExprV;

    open spec fn view(&self) -> ExprV {
        self.view_spec()
    }
}

pub open spec fn exprs_view(es: Seq<Expr>) -> Seq<ExprV>
    decreases es,
{
    if es.len() == 0 {
        Seq::empty()
    } else {
        seq![es[0].view_spec()] + exprs_view(es.drop_first())
    }
}

/// `exprs_view` maps the list element by element.
pub broadcast proof fn lemma_exprs_view(es: Seq<Expr>)
    ensures
        (#[trigger] exprs_view(es)).len() == es.len(),
        forall|i: int| 0 <= i < es.len() ==> exprs_view(es)[i] == es[i].view_spec(),
    decreases es,
{
    if es.len() > 0 {
        lemma_exprs_view(es.drop_first());
    }
}

impl Stmt {
    pub open spec fn view_spec(self) -> StmtV
        decreases self,
    {
        match self {
            Stmt::Expr { expr, span } => StmtV::Expr { expr: expr.view_spec(), span },
            Stmt::VarDecl { name, init, span } => StmtV::VarDecl {
                name: name@,
                init: init.view_spec(),
                span,
            },
            Stmt::Block { block } => StmtV::Block { block: block.view_spec() },
            Stmt::If { cond, cons, span } => StmtV::If {
                cond: cond.view_spec(),
                cons: cons.view_spec(),
                span,
            },
            Stmt::FnDecl { name, params, body, span } => StmtV::FnDecl {
                name: name@,
                params: params.deep_view(),
                body: body.view_spec(),
                span,
            },
        }
    }
}

impl View for Stmt {
    type V = StmtV;

    open spec fn view(&self) -> StmtV {
        self.view_spec()
    }
}

pub open spec fn stmts_view(ss: Seq<Stmt>) -> Seq<StmtV>
    decreases ss,
{
    if ss.len() == 0 {
        Seq::empty()
    } else {
        seq![ss[0].view_spec()] + stmts_view(ss.drop_first())
    }
}

/// `stmts_view` maps the list element by element.
pub broadcast proof fn lemma_stmts_view(ss: Seq<Stmt>)
    ensures
        (#[trigger] stmts_view(ss)).len() == ss.len(),
        forall|i: int| 0 <= i < ss.len() ==> stmts_view(ss)[i] == ss[i].view_spec(),
    decreases ss,
{
    if ss.len() > 0 {
        lemma_stmts_view(ss.drop_first());
    }
}

impl Block {
    pub open spec fn view_spec(self) -> BlockV
        decreases self,
    {
        BlockV { stmts: stmts_view(self.stmts@), span: self.span }
    }
}

impl View for Block {
    type V = BlockV;

    open spec fn view(&self) -> BlockV {
        self.view_spec()
    }
}

impl View for Program {
    type V = ProgramV;

    open spec fn view(&self) -> ProgramV {
        ProgramV { body: stmts_view(self.body@), span: self.span }
    }
}

impl ExprV {
    pub open spec fn span(self) -> Span {
        match self {
            ExprV::Ident { span, .. } => span,
            ExprV::Num { span, .. } => span,
            ExprV::Bin { span, .. } => span,
            ExprV::Call { span, .. } => span,
        }
    }

    /// Spans are valid throughout the subtree: each child lies inside its
    /// parent, and siblings keep left-to-right order without overlap.
    pub open spec fn wf(self) -> bool
        decreases self,
    {
        match self {
            ExprV::Ident { span, .. } => span.wf(),
            ExprV::Num { span, .. } => span.wf(),
            ExprV::Bin { op, lhs, rhs, span } => {
                &&& span.wf()
                &&& lhs.wf()
                &&& rhs.wf()
                &&& span.encloses(lhs.span())
                &&& span.encloses(rhs.span())
                &&& lhs.span().precedes(rhs.span())
            },
            ExprV::Call { callee, args, span } => {
                &&& span.wf()
                &&& callee.wf()
                &&& span.encloses(callee.span())
                &&& forall|i: int| 0 <= i < args.len() ==> (#[trigger] args[i]).wf()
                &&& forall|i: int| 0 <= i < args.len() ==> span.encloses((#[trigger] args[i]).span())
                &&& args.len() > 0 ==> callee.span().precedes(args[0].span())
                &&& forall|i: int|
                    0 <= i < args.len() - 1 ==> (#[trigger] args[i]).span().precedes(
                        args[i + 1].span(),
                    )
            },
        }
    }
}

impl StmtV {
    pub open spec fn span(self) -> Span {
        match self {
            StmtV::Expr { span, .. } => span,
            StmtV::VarDecl { span, .. } => span,
            StmtV::Block { block } => block.span,
            StmtV::If { span, .. } => span,
            StmtV::FnDecl { span, .. } => span,
        }
    }

    pub open spec fn wf(self) -> bool
        decreases self,
    {
        match self {
            StmtV::Expr { expr, span } => span.wf() && expr.wf() && span.encloses(expr.span()),
            StmtV::VarDecl { name, init, span } => span.wf() && init.wf() && span.encloses(
                init.span(),
            ),
            StmtV::Block { block } => block.wf(),
            StmtV::If { cond, cons, span } => {
                &&& span.wf()
                &&& cond.wf()
                &&& cons.wf()
                &&& span.encloses(cond.span())
                &&& span.encloses(cons.span)
                &&& cond.span().precedes(cons.span)
            },
            StmtV::FnDecl { name, params, body, span } => span.wf() && body.wf() && span.encloses(
                body.span,
            ),
        }
    }
}

/// Statement lists are well formed when every member is, each lies inside
/// `outer`, and they keep left-to-right source order without overlap.
pub open spec fn stmts_wf(ss: Seq<StmtV>, outer: Span) -> bool
    decreases ss,
{
    &&& forall|i: int| 0 <= i < ss.len() ==> (#[trigger] ss[i]).wf()
    &&& forall|i: int| 0 <= i < ss.len() ==> outer.encloses((#[trigger] ss[i]).span())
    &&& forall|i: int|
        0 <= i < ss.len() - 1 ==> (#[trigger] ss[i]).span().precedes(ss[i + 1].span())
}

impl BlockV {
    pub open spec fn wf(self) -> bool
        decreases self,
    {
        self.span.wf() && stmts_wf(self.stmts, self.span)
    }
}

impl ProgramV {
    pub open spec fn wf(self) -> bool {
        self.span.wf() && stmts_wf(self.body, self.span)
    }
}

// Node counts, the measure by which the walker's recursion terminates.

pub open spec fn expr_size(e: Expr) -> nat
    decreases e,
{
    match e {
        Expr::Ident { .. } => 1,
        Expr::Num { .. } => 1,
        Expr::Bin { op, lhs, rhs, span } => 1 + expr_size(*lhs) + expr_size(*rhs),
        Expr::Call { callee, args, span } => 1 + expr_size(*callee) + exprs_size(args@),
    }
}

pub open spec fn exprs_size(es: Seq<Expr>) -> nat
    decreases es,
{
    if es.len() == 0 {
        0
    } else {
        1 + expr_size(es[0]) + exprs_size(es.drop_first())
    }
}

pub open spec fn stmt_size(s: Stmt) -> nat
    decreases s,
{
    match s {
        Stmt::Expr { expr, span } => 1 + expr_size(expr),
        Stmt::VarDecl { name, init, span } => 1 + expr_size(init),
        Stmt::Block { block } => 1 + block_size(block),
        Stmt::If { cond, cons, span } => 1 + expr_size(cond) + block_size(cons),
        Stmt::FnDecl { name, params, body, span } => 1 + block_size(body),
    }
}

pub open spec fn block_size(b: Block) -> nat
    decreases b,
{
    1 + stmts_size(b.stmts@)
}

pub open spec fn stmts_size(ss: Seq<Stmt>) -> nat
    decreases ss,
{
    if ss.len() == 0 {
        0
    } else {
        1 + stmt_size(ss[0]) + stmts_size(ss.drop_first())
    }
}

impl Expr {
    /// The span this expression carries.
    pub fn span_of(&self) -> (s: Span)
        ensures
            s == self@.span(),
    {
        match self {
            Expr::Ident { span, .. } => *span,
            Expr::Num { span, .. } => *span,
            Expr::Bin { span, .. } => *span,
            Expr::Call { span, .. } => *span,
        }
    }
}

impl Stmt {
    /// The span this statement carries.
    pub fn span_of(&self) -> (s: Span)
        ensures
            s == self@.span(),
    {
        match self {
            Stmt::Expr { span, .. } => *span,
            Stmt::VarDecl { span, .. } => *span,
            Stmt::Block { block } => block.span,
            Stmt::If { span, .. } => *span,
            Stmt::FnDecl { span, .. } => *span,
        }
    }
}

} // verus!
