//! The code generator: spec functions that define the emitted text for every
//! node, and executable renderers proved to produce exactly that text.

use vstd::prelude::*;
use crate::ast::{Node, Type};

verus! {

/// The text a [`Type`] renders to.  Every variant maps to exactly one
/// spelling; a pointer renders its inner type followed by ` *`.
pub open spec fn render_type(t: Type) -> Seq<char>
    decreases t,
{
    match t {
        Type::Uint32 => "unsigned int"@,
        Type::Uint64 => "unsigned long"@,
        Type::Int32 => "signed int"@,
        Type::Int64 => "signed long"@,
        Type::NoneType => "void"@,
        Type::Pointer(inner) => render_type(*inner) + " *"@,
    }
}

/// The text a [`Node`] renders to, one rule per variant.
///
/// Statement terminators are deliberately uneven and part of the contract:
/// `Declare` and `Reassign` end with `;\n`, `Return` ends with `;` and no
/// newline, `If` emits no newline after its closing brace.  A `Call` emits a
/// trailing comma after every argument and no closing parenthesis, and a
/// `FunctionDef` parameter list likewise ends every parameter, the last one
/// included, with a comma.  These quirks are kept as the emitted dialect;
/// producers that need different text must account for them.
pub open spec fn render_node(n: Node) -> Seq<char>
    decreases n,
{
    match n {
        Node::TypeRef(t) => render_type(t),
        Node::Name(x) => x@,
        Node::IntLiteral(x) => x@,
        Node::BinaryOp(op, a, b) => render_node(*a) + " "@ + op@ + " "@ + render_node(*b),
        Node::Declare(name, t, v) => render_node(*t) + " "@ + name@ + " = "@ + render_node(*v)
            + ";\n"@,
        Node::Reassign(name, v) => name@ + " = "@ + render_node(*v) + ";\n"@,
        Node::Import(module) => "#include \""@ + module@ + "\";\n"@,
        Node::FunctionDef(name, params, ret, body) => "\n"@ + render_node(*ret) + " "@ + name@
            + " ("@ + render_params(params@) + ") {\n"@ + render_node(*body) + "\n}\n"@,
        Node::Call(name, args) => name@ + "("@ + render_args(args@),
        Node::Block(items) => render_nodes(items@),
        Node::If(cond, thn, els) => {
            let head = "if ("@ + render_node(*cond) + ") {\n"@ + render_node(*thn) + "}"@;
            match els {
                Some(e) => head + " else {\n"@ + render_node(*e) + "}"@,
                None => head,
            }
        },
        Node::While(cond, body) => "while ("@ + render_node(*cond) + ") {\n"@ + render_node(*body)
            + "}\n"@,
        Node::Return(v) => "return "@ + render_node(*v) + ";"@,
    }
}

/// The concatenation, in order and with no separator, of the text each node
/// in the sequence renders to.
pub open spec fn render_nodes(ns: Seq<Node>) -> Seq<char>
    decreases ns,
{
    if ns.len() == 0 {
        Seq::empty()
    } else {
        render_nodes(ns.drop_last()) + render_node(ns.last())
    }
}

/// The text of a parameter list: each `(name, type)` pair in order as
/// `<type> <name>,` — every parameter, the last one included, ends with a
/// comma.
pub open spec fn render_params(ps: Seq<(String, Node)>) -> Seq<char>
    decreases ps,
{
    if ps.len() == 0 {
        Seq::empty()
    } else {
        render_params(ps.drop_last()) + render_node(ps.last().1) + " "@ + ps.last().0@ + ","@
    }
}

/// The text of a call's argument list: each pre-rendered argument in order,
/// each followed by a comma.  No closing parenthesis is part of it.
pub open spec fn render_args(args: Seq<String>) -> Seq<char>
    decreases args.len(),
{
    if args.len() == 0 {
        Seq::empty()
    } else {
        render_args(args.drop_last()) + args.last()@ + ","@
    }
}

/// Renders a type into its textual spelling.
pub fn compile_type(input_type: &Type) -> (compiled_output: String)
    ensures
        compiled_output@ == render_type(*input_type),
    decreases *input_type,
{
    match input_type {
        Type::Uint32 => String::from_str("unsigned int"),
        Type::Uint64 => String::from_str("unsigned long"),
        Type::Int32 => String::from_str("signed int"),
        Type::Int64 => String::from_str("signed long"),
        Type::NoneType => String::from_str("void"),
        Type::Pointer(x) => {
            let mut compiled_output = compile_type(x);
            compiled_output.append(" *");
            compiled_output
        },
    }
}

/// Renders one node into its source fragment, exactly as [`render_node`]
/// specifies.
#[verifier::loop_isolation(false)]
pub fn compile_node(node: &Node) -> (compiled_output: String)
    ensures
        compiled_output@ == render_node(*node),
    decreases *node,
{
    match node {
        Node::TypeRef(x) => compile_type(x),
        Node::Name(x) => String::from_str(x.as_str()),
        Node::IntLiteral(x) => String::from_str(x.as_str()),
        Node::BinaryOp(op, a, b) => {
            let mut compiled_output = compile_node(a);
            compiled_output.append(" ");
            compiled_output.append(op.as_str());
            compiled_output.append(" ");
            let right = compile_node(b);
            compiled_output.append(right.as_str());
            compiled_output
        },
        Node::Declare(name, input_type, val) => {
            let mut compiled_output = compile_node(input_type);
            compiled_output.append(" ");
            compiled_output.append(name.as_str());
            compiled_output.append(" = ");
            let value = compile_node(val);
            compiled_output.append(value.as_str());
            compiled_output.append(";\n");
            compiled_output
        },
        Node::Reassign(name, val) => {
            let mut compiled_output = String::from_str(name.as_str());
            compiled_output.append(" = ");
            let value = compile_node(val);
            compiled_output.append(value.as_str());
            compiled_output.append(";\n");
            compiled_output
        },
        Node::Import(module) => {
            let mut compiled_output = String::from_str("#include \"");
            compiled_output.append(module.as_str());
            compiled_output.append("\";\n");
            compiled_output
        },
        Node::FunctionDef(name, params, ret, body) => {
            let mut compiled_output = String::from_str("\n");
            let ret_text = compile_node(ret);
            compiled_output.append(ret_text.as_str());
            compiled_output.append(" ");
            compiled_output.append(name.as_str());
            compiled_output.append(" (");
            let mut idx: usize = 0;
            while idx < params.len()
                invariant
                    idx <= params.len(),
                    compiled_output@ == "\n"@ + render_node(**ret) + " "@ + name@ + " ("@
                        + render_params(params@.subrange(0, idx as int)),
                decreases params.len() - idx,
            {
                let param_type = compile_node(&params[idx].1);
                compiled_output.append(param_type.as_str());
                compiled_output.append(" ");
                compiled_output.append(params[idx].0.as_str());
                compiled_output.append(",");
                idx = idx + 1;
                proof {
                    let done = params@.subrange(0, idx as int);
                    assert(done.drop_last() =~= params@.subrange(0, idx - 1));
                    assert(done.last() == params@[idx - 1]);
                }
            }
            proof {
                assert(params@.subrange(0, params@.len() as int) =~= params@);
            }
            compiled_output.append(") {\n");
            let body_text = compile_node(body);
            compiled_output.append(body_text.as_str());
            compiled_output.append("\n}\n");
            compiled_output
        },
        Node::Call(func_name, args) => {
            let mut compiled_output = String::from_str(func_name.as_str());
            compiled_output.append("(");
            let mut idx: usize = 0;
            while idx < args.len()
                invariant
                    idx <= args.len(),
                    compiled_output@ == func_name@ + "("@
                        + render_args(args@.subrange(0, idx as int)),
                decreases args.len() - idx,
            {
                compiled_output.append(args[idx].as_str());
                compiled_output.append(",");
                idx = idx + 1;
                proof {
                    let done = args@.subrange(0, idx as int);
                    assert(done.drop_last() =~= args@.subrange(0, idx - 1));
                    assert(done.last() == args@[idx - 1]);
                }
            }
            proof {
                assert(args@.subrange(0, args@.len() as int) =~= args@);
            }
            compiled_output
        },
        Node::Block(all) => {
            let mut compiled_output = String::new();
            let mut idx: usize = 0;
            while idx < all.len()
                invariant
                    idx <= all.len(),
                    compiled_output@ == render_nodes(all@.subrange(0, idx as int)),
                decreases all.len() - idx,
            {
                let item = compile_node(&all[idx]);
                compiled_output.append(item.as_str());
                idx = idx + 1;
                proof {
                    let done = all@.subrange(0, idx as int);
                    assert(done.drop_last() =~= all@.subrange(0, idx - 1));
                    assert(done.last() == all@[idx - 1]);
                }
            }
            proof {
                assert(all@.subrange(0, all@.len() as int) =~= all@);
            }
            compiled_output
        },
        Node::If(cond, body, other) => {
            let mut compiled_output = String::from_str("if (");
            let cond_text = compile_node(cond);
            compiled_output.append(cond_text.as_str());
            compiled_output.append(") {\n");
            let body_text = compile_node(body);
            compiled_output.append(body_text.as_str());
            compiled_output.append("}");
            match other {
                Some(x) => {
                    compiled_output.append(" else {\n");
                    let else_text = compile_node(x);
                    compiled_output.append(else_text.as_str());
                    compiled_output.append("}");
                },
                None => {},
            }
            compiled_output
        },
        Node::While(cond, body) => {
            let mut compiled_output = String::from_str("while (");
            let cond_text = compile_node(cond);
            compiled_output.append(cond_text.as_str());
            compiled_output.append(") {\n");
            let body_text = compile_node(body);
            compiled_output.append(body_text.as_str());
            compiled_output.append("}\n");
            compiled_output
        },
        Node::Return(e) => {
            let mut compiled_output = String::from_str("return ");
            let value = compile_node(e);
            compiled_output.append(value.as_str());
            compiled_output.append(";");
            compiled_output
        },
    }
}

/// Renders each top-level node in order and concatenates the fragments, with
/// no separator, into the final output text.  Top-level order is preserved
/// exactly; the result is a pure function of the input sequence, so equal
/// trees always yield byte-identical output.
#[verifier::loop_isolation(false)]
pub fn compile(ast: &Vec<Node>) -> (compiled_output: String)
    ensures
        compiled_output@ == render_nodes(ast@),
{
    let mut compiled_output = String::new();
    let mut idx: usize = 0;
    while idx < ast.len()
        invariant
            idx <= ast.len(),
            compiled_output@ == render_nodes(ast@.subrange(0, idx as int)),
        decreases ast.len() - idx,
    {
        let item = compile_node(&ast[idx]);
        compiled_output.append(item.as_str());
        idx = idx + 1;
        proof {
            let done = ast@.subrange(0, idx as int);
            assert(done.drop_last() =~= ast@.subrange(0, idx - 1));
            assert(done.last() == ast@[idx - 1]);
        }
    }
    proof {
        assert(ast@.subrange(0, ast@.len() as int) =~= ast@);
    }
    compiled_output
}

/// Rendering a sequence of statements distributes over concatenation: the
/// text of `a + b` is the text of `a` followed by the text of `b`, with
/// nothing inserted between them.  Each statement keeps its own terminator.
pub proof fn lemma_render_nodes_append(a: Seq<Node>, b: Seq<Node>)
    ensures
        render_nodes(a + b) == render_nodes(a) + render_nodes(b),
    decreases b.len(),
{
    if b.len() == 0 {
        assert(a + b =~= a);
        assert(render_nodes(a) + render_nodes(b) =~= render_nodes(a));
    } else {
        lemma_render_nodes_append(a, b.drop_last());
        assert((a + b).drop_last() =~= a + b.drop_last());
        assert((a + b).last() == b.last());
        assert(render_nodes(a) + render_nodes(b.drop_last()) + render_node(b.last())
            =~= render_nodes(a) + (render_nodes(b.drop_last()) + render_node(b.last())));
    }
}

/// Order preservation: in the rendered text of a statement sequence, the
/// fragment of the node at position `i` stands exactly between the text of
/// the nodes before it and the text of the nodes after it.  Reordering the
/// input reorders the output the same way.
pub proof fn lemma_render_nodes_order(ns: Seq<Node>, i: int)
    requires
        0 <= i < ns.len(),
    ensures
        render_nodes(ns) == render_nodes(ns.subrange(0, i)) + render_node(ns[i])
            + render_nodes(ns.subrange(i + 1, ns.len() as int)),
{
    let front = ns.subrange(0, i);
    let middle = ns.subrange(i, i + 1);
    let back = ns.subrange(i + 1, ns.len() as int);
    assert(ns =~= front + middle + back);
    lemma_render_nodes_append(front + middle, back);
    lemma_render_nodes_append(front, middle);
    assert(middle.drop_last() =~= Seq::<Node>::empty());
    assert(render_nodes(middle) == render_nodes(Seq::<Node>::empty()) + render_node(middle.last()));
    assert(render_nodes(Seq::<Node>::empty()) + render_node(middle.last())
        =~= render_node(middle.last()));
    assert(middle.last() == ns[i]);
}

/// Determinism: the output is a function of the input tree alone, so any two
/// renderings of equal top-level sequences are byte-identical.
pub proof fn lemma_compile_deterministic(a: Seq<Node>, b: Seq<Node>)
    requires
        a == b,
    ensures
        render_nodes(a) == render_nodes(b),
{
}

/// Every type renders to at least four characters, and the text ends in `*`
/// exactly when the type is a pointer.
pub proof fn lemma_render_type_shape(t: Type)
    ensures
        render_type(t).len() >= 4,
        t is Pointer <==> render_type(t).last() == '*',
    decreases t,
{
    reveal_strlit("unsigned int");
    reveal_strlit("unsigned long");
    reveal_strlit("signed int");
    reveal_strlit("signed long");
    reveal_strlit("void");
    reveal_strlit(" *");
    match t {
        Type::Pointer(inner) => {
            lemma_render_type_shape(*inner);
            assert(render_type(t) == render_type(*inner) + " *"@);
            assert(render_type(t).last() == '*');
        },
        _ => {},
    }
}

/// Uniqueness of spellings: the type renderer is injective, so distinct
/// types never render to the same text, at any pointer depth.
pub proof fn lemma_render_type_injective(t1: Type, t2: Type)
    requires
        render_type(t1) == render_type(t2),
    ensures
        t1 == t2,
    decreases t1,
{
    reveal_strlit("unsigned int");
    reveal_strlit("unsigned long");
    reveal_strlit("signed int");
    reveal_strlit("signed long");
    reveal_strlit("void");
    reveal_strlit(" *");
    lemma_render_type_shape(t1);
    lemma_render_type_shape(t2);
    if t1 is Pointer && t2 is Pointer {
        let inner1 = *t1->Pointer_0;
        let inner2 = *t2->Pointer_0;
        let r1 = render_type(inner1);
        let r2 = render_type(inner2);
        assert(r1 + " *"@ == r2 + " *"@);
        assert(r1.len() == r2.len());
        assert(r1 =~= r2) by {
            assert forall|k: int| 0 <= k < r1.len() implies r1[k] == r2[k] by {
                assert((r1 + " *"@)[k] == r1[k]);
                assert((r2 + " *"@)[k] == r2[k]);
            }
        };
        lemma_render_type_injective(inner1, inner2);
    }
}

} // verus!
