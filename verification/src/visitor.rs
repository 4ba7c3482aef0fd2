//! The pass itself: one class, and the walk over a whole program.

use crate::config::{Config, LogLevel};
use crate::extract::{ctor_arg_types, extract_ctor_args};
use crate::metadata::{class_method, exposes, string_array, Literal, CTOR_ARGS, CTOR_NAME};
use crate::report::{report, report_for, Report, ReportView};
use crate::syntax::{Class, ClassDecl, ClassExpr, ClassMember, Expr, Node, Program, Stmt};
use vstd::prelude::*;

verus! {

/// `after` is `before` with the two metadata members of a class named `name`
/// appended: every member of `before` is still in its place, the member that
/// yields the type names follows them, and the member that yields the class
/// name comes last.
pub open spec fn with_metadata(before: Class, after: Class, name: Seq<char>) -> bool {
    let len = before.body@.len() as int;
    &&& after.body@.len() == len + 2
    &&& after.body@.take(len) == before.body@
    &&& exposes(
        after.body@[len],
        CTOR_ARGS@,
        Literal::StringList(ctor_arg_types(before.body@)),
    )
    &&& exposes(after.body@[len + 1], CTOR_NAME@, Literal::Text(name))
}

/// What processing does to a class: one that has a name gains its metadata,
/// one without a name stays as it is.
pub open spec fn processed(before: Class, after: Class, name: Option<Seq<char>>) -> bool {
    match name {
        Some(name) => with_metadata(before, after, name),
        None => after == before,
    }
}

/// What is reported at `level` about a class with the members `body`: nothing
/// where the class has no name.
pub open spec fn class_report(level: LogLevel, body: Seq<ClassMember>, name: Option<Seq<char>>)
    -> Option<ReportView> {
    match name {
        Some(name) => report_for(level, name, ctor_arg_types(body)),
        None => None,
    }
}

/// What visiting does to a class declaration: the class gains the metadata
/// of its name.
pub open spec fn decl_visited(before: ClassDecl, after: ClassDecl) -> bool {
    &&& after.ident == before.ident
    &&& with_metadata(before.class, after.class, before.ident@)
}

/// What visiting does to a class expression: the class gains the metadata of
/// its name if it has one, and stays as it is if it has none.
pub open spec fn expr_visited(before: ClassExpr, after: ClassExpr) -> bool {
    &&& after.ident == before.ident
    &&& processed(before.class, after.class, before.ident.deep_view())
}

/// What the walk does to a node. A class is processed, and nothing inside
/// it is visited: a class nested in one of its members stays as it is. Any
/// other node keeps its shape, and each of its children is visited in turn.
pub open spec fn visited(before: Node, after: Node) -> bool
    decreases before,
{
    match before {
        Node::ClassDecl(decl) => after matches Node::ClassDecl(new_decl) && decl_visited(
            decl,
            new_decl,
        ),
        Node::ClassExpr(expr) => after matches Node::ClassExpr(new_expr) && expr_visited(
            expr,
            new_expr,
        ),
        Node::Other(children) => after matches Node::Other(new_children) && new_children@.len()
            == children@.len() && forall|i: int|
            0 <= i < children@.len() ==> visited(#[trigger] children@[i], new_children@[i]),
    }
}

/// Each node of `after` is the node of `before` at the same place, visited.
pub open spec fn all_visited(before: Seq<Node>, after: Seq<Node>) -> bool {
    &&& after.len() == before.len()
    &&& forall|i: int| 0 <= i < before.len() ==> visited(#[trigger] before[i], after[i])
}

/// The reports that the walk over `node` gives at `level`, in the order in
/// which the walk meets the classes.
pub open spec fn node_reports(level: LogLevel, node: Node) -> Seq<ReportView>
    decreases node, 0nat,
{
    match node {
        Node::ClassDecl(decl) => match report_for(
            level,
            decl.ident@,
            ctor_arg_types(decl.class.body@),
        ) {
            Some(found) => seq![found],
            None => Seq::empty(),
        },
        Node::ClassExpr(expr) => match class_report(
            level,
            expr.class.body@,
            expr.ident.deep_view(),
        ) {
            Some(found) => seq![found],
            None => Seq::empty(),
        },
        Node::Other(children) => nodes_reports(level, children@),
    }
}

/// The reports that the walk over `nodes`, one after the other, gives at
/// `level`.
pub open spec fn nodes_reports(level: LogLevel, nodes: Seq<Node>) -> Seq<ReportView>
    decreases nodes, 1nat,
{
    if nodes.len() == 0 {
        Seq::empty()
    } else {
        nodes_reports(level, nodes.drop_last()) + node_reports(level, nodes.last())
    }
}

/// The pass, built once from its configuration.
#[derive(Debug, PartialEq, Eq)]
pub struct TransformVisitor {
    pub config: Config,
}

impl TransformVisitor {
    /// Processes one class.
    ///
    /// A class without a name is left untouched and nothing is reported. For
    /// a class with a name, the type names of the first constructor's
    /// parameters are collected (none, where there is no constructor) and two
    /// members are appended to the class body: first the one that yields
    /// those type names, then the one that yields `class_name`. Members that
    /// are already there are never looked up, so processing a class again
    /// appends two more. The result is what `debug` asks to be reported.
    pub fn process_class(
        &self,
        class: &mut Class,
        class_name: Option<String>,
        debug: LogLevel,
    ) -> (found: Option<Report>)
        ensures
            processed(*old(class), *final(class), class_name.deep_view()),
            found.deep_view() == class_report(debug, old(class).body@, class_name.deep_view()),
    {
        let class_name = match class_name {
            Some(class_name) => class_name,
            None => {
                return None;
            },
        };
        let ghost before = class.body@;
        let ctor_args = extract_ctor_args(&class.body);
        let found = report(debug, class_name.as_str(), &ctor_args);

        let ctor_args_method = class_method(CTOR_ARGS, vec![Stmt::Return(string_array(&ctor_args))]);
        let ctor_name_method = class_method(CTOR_NAME, vec![Stmt::Return(Expr::Str(class_name))]);
        class.body.push(ClassMember::Method(ctor_args_method));
        class.body.push(ClassMember::Method(ctor_name_method));
        assert(class.body@.take(before.len() as int) =~= before);
        found
    }

    /// Visits a class declaration: processes its class under the declared
    /// name. Nothing inside the class is visited.
    pub fn visit_mut_class_decl(&self, class_decl: &mut ClassDecl) -> (found: Option<Report>)
        ensures
            decl_visited(*old(class_decl), *final(class_decl)),
            found.deep_view() == report_for(
                self.config.log,
                old(class_decl).ident@,
                ctor_arg_types(old(class_decl).class.body@),
            ),
    {
        let class_name = class_decl.ident.clone();
        self.process_class(&mut class_decl.class, Some(class_name), self.config.log)
    }

    /// Visits a class expression: processes its class under the name it
    /// carries, which leaves an anonymous class as it is. Nothing inside the
    /// class is visited.
    pub fn visit_mut_class_expr(&self, class_expr: &mut ClassExpr) -> (found: Option<Report>)
        ensures
            expr_visited(*old(class_expr), *final(class_expr)),
            found.deep_view() == class_report(
                self.config.log,
                old(class_expr).class.body@,
                old(class_expr).ident.deep_view(),
            ),
    {
        let class_name = match &class_expr.ident {
            Some(ident) => Some(ident.clone()),
            None => None,
        };
        self.process_class(&mut class_expr.class, class_name, self.config.log)
    }

    /// Walks `node` depth first and processes every class the walk meets,
    /// appending what is to be reported to `reports`. The walk does not
    /// enter a class, so a class nested in a member of another is not
    /// processed.
    pub fn visit_mut_node(&self, node: &mut Node, reports: &mut Vec<Report>)
        ensures
            visited(*old(node), *final(node)),
            final(reports).deep_view() == old(reports).deep_view() + node_reports(
                self.config.log,
                *old(node),
            ),
        decreases *old(node),
    {
        match node {
            Node::ClassDecl(class_decl) => {
                let found = self.visit_mut_class_decl(class_decl);
                push_report(reports, found);
            },
            Node::ClassExpr(class_expr) => {
                let found = self.visit_mut_class_expr(class_expr);
                push_report(reports, found);
            },
            Node::Other(children) => {
                let ghost before = children@;
                let ghost reported = reports.deep_view();
                let mut i: usize = 0;
                while i < children.len()
                    invariant
                        i <= children@.len(),
                        children@.len() == before.len(),
                        *old(node) matches Node::Other(old_children) && old_children@ == before,
                        forall|j: int| 0 <= j < i ==> visited(#[trigger] before[j], children@[j]),
                        forall|j: int| i <= j < before.len() ==> children@[j] == before[j],
                        reports.deep_view() == reported + nodes_reports(
                            self.config.log,
                            before.take(i as int),
                        ),
                    decreases children@.len() - i,
                {
                    proof {
                        let old_children = old(node)->Other_0;
                        assert(decreases_to!(*old(node) => old_children));
                        assert(decreases_to!(old_children => old_children[i as int]));
                        assert(before.take(i + 1).drop_last() =~= before.take(i as int));
                    }
                    self.visit_mut_node(&mut children[i], reports);
                    i += 1;
                }
                assert(before.take(before.len() as int) =~= before);
            },
        }
    }
}

/// Appends `found` to `reports`, if there is anything to append.
fn push_report(reports: &mut Vec<Report>, found: Option<Report>)
    ensures
        final(reports).deep_view() == old(reports).deep_view() + match found.deep_view() {
            Some(found) => seq![found],
            None => Seq::empty(),
        },
{
    let ghost before = reports.deep_view();
    if let Some(found) = found {
        let ghost view = found@;
        reports.push(found);
        assert(reports.deep_view() =~= before + seq![view]);
    } else {
        assert(before + Seq::<ReportView>::empty() =~= before);
    }
}

/// Runs the pass over a whole program under `config`.
///
/// Returns the program with every class processed that the walk meets, and
/// what is to be reported, in the order of the walk.
pub fn process_transform(program: Program, config: Config) -> (out: (Program, Vec<Report>))
    ensures
        all_visited(program.body@, out.0.body@),
        out.1.deep_view() == nodes_reports(config.log, program.body@),
{
    let visitor = TransformVisitor { config };
    let mut program = program;
    let mut reports: Vec<Report> = Vec::new();
    let ghost before = program.body@;
    assert(reports.deep_view() =~= Seq::<ReportView>::empty());
    let mut i: usize = 0;
    while i < program.body.len()
        invariant
            i <= program.body@.len(),
            program.body@.len() == before.len(),
            visitor.config == config,
            forall|j: int| 0 <= j < i ==> visited(#[trigger] before[j], program.body@[j]),
            forall|j: int| i <= j < before.len() ==> program.body@[j] == before[j],
            reports.deep_view() == nodes_reports(config.log, before.take(i as int)),
        decreases program.body@.len() - i,
    {
        assert(before.take(i + 1).drop_last() =~= before.take(i as int));
        visitor.visit_mut_node(&mut program.body[i], &mut reports);
        i += 1;
    }
    assert(before.take(before.len() as int) =~= before);
    (program, reports)
}

} // verus!
