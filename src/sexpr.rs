use vstd::prelude::*;

verus! {

broadcast use {vstd::std_specs::vec::axiom_vec_index_decreases, vstd::seq::axiom_seq_index_decreases};

/// The widest single-line form that the printer keeps on one line.
pub const LINE_WIDTH: usize = 80;

/// A leaf of the tree: text that is printed as it stands.
#[derive(Clone, Debug)]
pub struct Atom(pub String);

impl Atom {
    pub fn new(s: String) -> (r: Atom)
        ensures
            r.0@ == s@,
    {
        Atom(s)
    }
}

/// A headed node: `(head child child ...)`.
#[derive(Debug)]
pub struct Node {
    pub head: String,
    pub children: Vec<Expr>,
}

/// An element of the tree that the printer renders.
#[derive(Debug)]
pub enum Expr {
    Atom(Atom),
    SExpr(Node),
}

/// The tree as the contracts see it.
pub enum Sx {
    Atom(Seq<char>),
    Node(Seq<char>, Seq<Sx>),
}

pub open spec fn view_expr(e: Expr) -> Sx
    decreases e, 0nat,
{
    match e {
        Expr::Atom(a) => Sx::Atom(a.0@),
        Expr::SExpr(n) => Sx::Node(n.head@, view_exprs(n.children, n.children.len() as int)),
    }
}

/// The views of the first `k` elements of `v`.
pub open spec fn view_exprs(v: Vec<Expr>, k: int) -> Seq<Sx>
    decreases v, k,
{
    if k <= 0 || k > v.len() {
        seq![]
    } else {
        view_exprs(v, k - 1).push(view_expr(v[k - 1]))
    }
}

pub proof fn lemma_view_exprs(v: Vec<Expr>, k: int)
    requires
        0 <= k <= v.len(),
    ensures
        view_exprs(v, k).len() == k,
        forall|i: int| 0 <= i < k ==> #[trigger] view_exprs(v, k)[i] == view_expr(v[i]),
    decreases k,
{
    if k > 0 {
        lemma_view_exprs(v, k - 1);
    }
}

pub open spec fn spaces(n: nat) -> Seq<char> {
    Seq::new(n, |i: int| ' ')
}

/// The rendering of `e` with `ind` spaces of indentation, where each deeper
/// level adds `size` spaces.
pub open spec fn render(e: Sx, ind: nat, size: nat) -> Seq<char>
    decreases e, 0nat,
{
    match e {
        Sx::Atom(a) => spaces(ind) + a,
        Sx::Node(head, cs) => {
            if cs.len() == 0 {
                open_paren(head, ind) + seq![')']
            } else if candidate(head, ind, render_flat(cs, cs.len() as int)).len() <= LINE_WIDTH {
                candidate(head, ind, render_flat(cs, cs.len() as int))
            } else {
                multi_line(head, ind, render_lines(cs, cs.len() as int, ind + size, size))
            }
        },
    }
}

/// `(head`, indented.
pub open spec fn open_paren(head: Seq<char>, ind: nat) -> Seq<char> {
    spaces(ind) + seq!['('] + head
}

/// The single-line form of a node whose children, rendered without
/// indentation and joined by spaces, read `flat`.
pub open spec fn candidate(head: Seq<char>, ind: nat, flat: Seq<char>) -> Seq<char> {
    open_paren(head, ind) + seq![' '] + flat + seq![')']
}

/// The broken form of a node whose children, each on its own line, read `lines`.
pub open spec fn multi_line(head: Seq<char>, ind: nat, lines: Seq<char>) -> Seq<char> {
    open_paren(head, ind) + seq!['\n'] + lines + spaces(ind) + seq![')']
}

/// The first `k` children rendered without indentation, joined by one space.
pub open spec fn render_flat(v: Seq<Sx>, k: int) -> Seq<char>
    decreases v, k,
{
    if k <= 0 || k > v.len() {
        seq![]
    } else if k == 1 {
        render(v[0], 0, 2)
    } else {
        render_flat(v, k - 1) + seq![' '] + render(v[k - 1], 0, 2)
    }
}

/// The first `k` children, each rendered at `ind` and followed by a newline.
pub open spec fn render_lines(v: Seq<Sx>, k: int, ind: nat, size: nat) -> Seq<char>
    decreases v, k,
{
    if k <= 0 || k > v.len() {
        seq![]
    } else {
        render_lines(v, k - 1, ind, size) + render(v[k - 1], ind, size) + seq!['\n']
    }
}

fn push_spaces(r: &mut String, n: usize)
    ensures
        final(r)@ == old(r)@ + spaces(n as nat),
{
    let ghost start = r@;
    let mut i: usize = 0;
    let sp = " ";
    proof {
        reveal_strlit(" ");
    }
    while i < n
        invariant
            i <= n,
            r@ == start + spaces(i as nat),
            sp@ == seq![' '],
        decreases n - i,
    {
        r.append(sp);
        i = i + 1;
        assert(r@ =~= start + spaces(i as nat));
    }
}

fn push_char(r: &mut String, c: char)
    requires
        c == '(' || c == ')' || c == ' ' || c == '\n',
    ensures
        final(r)@ == old(r)@ + seq![c],
{
    let s = if c == '(' {
        "("
    } else if c == ')' {
        ")"
    } else if c == ' ' {
        " "
    } else {
        "\n"
    };
    proof {
        reveal_strlit("(");
        reveal_strlit(")");
        reveal_strlit(" ");
        reveal_strlit("\n");
    }
    r.append(s);
}

/// Renders `e` indented by `ind` spaces, where `pad` holds those spaces.
fn render_with(e: &Expr, pad: &String, ind: Ghost<nat>, size: usize) -> (r: String)
    requires
        pad@ == spaces(ind@),
    ensures
        r@ == render(view_expr(*e), ind@, size as nat),
    decreases e,
{
    match e {
        Expr::Atom(a) => {
            let mut r = pad.clone();
            r.append(a.0.as_str());
            r
        },
        Expr::SExpr(n) => {
            let mut open = pad.clone();
            push_char(&mut open, '(');
            open.append(n.head.as_str());
            let k = n.children.len();
            let ghost cs = view_exprs(n.children, k as int);
            proof {
                lemma_view_exprs(n.children, k as int);
            }
            if k == 0 {
                push_char(&mut open, ')');
                return open;
            }
            let mut flat = String::new();
            let empty = String::new();
            let mut i: usize = 0;
            while i < k
                invariant
                    i <= k,
                    k == n.children.len(),
                    empty@ == spaces(0),
                    flat@ == render_flat(cs, i as int),
                    e == Expr::SExpr(*n),
                    cs == view_exprs(n.children, k as int),
                    cs.len() == k,
                    forall|m: int| 0 <= m < k ==> #[trigger] cs[m] == view_expr(n.children[m]),
                decreases k - i,
            {
                if i > 0 {
                    push_char(&mut flat, ' ');
                }
                proof {
                    assert(decreases_to!(*e => (*e)->SExpr_0));
                    assert(decreases_to!(*n => n.children));
                    assert(decreases_to!(n.children => n.children[i as int]));
                }
                let c = render_with(&n.children[i], &empty, Ghost(0), 2);
                flat.append(c.as_str());
                i = i + 1;
            }
            let mut cand = open.clone();
            push_char(&mut cand, ' ');
            cand.append(flat.as_str());
            push_char(&mut cand, ')');
            if cand.as_str().unicode_len() <= LINE_WIDTH {
                return cand;
            }
            let mut inner = pad.clone();
            push_spaces(&mut inner, size);
            let mut r = open;
            push_char(&mut r, '\n');
            let ghost before = r@;
            let mut j: usize = 0;
            while j < k
                invariant
                    j <= k,
                    k == n.children.len(),
                    inner@ == spaces((ind@ + size) as nat),
                    r@ == before + render_lines(cs, j as int, (ind@ + size) as nat, size as nat),
                    e == Expr::SExpr(*n),
                    cs == view_exprs(n.children, k as int),
                    cs.len() == k,
                    forall|m: int| 0 <= m < k ==> #[trigger] cs[m] == view_expr(n.children[m]),
                decreases k - j,
            {
                proof {
                    assert(decreases_to!(*e => (*e)->SExpr_0));
                    assert(decreases_to!(*n => n.children));
                    assert(decreases_to!(n.children => n.children[j as int]));
                }
                let c = render_with(&n.children[j], &inner, Ghost((ind@ + size) as nat), size);
                r.append(c.as_str());
                push_char(&mut r, '\n');
                j = j + 1;
            }
            r.append(pad.as_str());
            push_char(&mut r, ')');
            r
        },
    }
}

/// How deep the rendering starts and how many spaces each level adds.
#[derive(Clone, Copy, Debug, Default)]
pub struct ToWatParams {
    pub indent_size: usize,
    pub indent_level: usize,
}

impl ToWatParams {
    /// The number of spaces in front of the first line.
    pub fn indent(&self) -> (r: usize)
        requires
            self.indent_size * self.indent_level <= usize::MAX,
        ensures
            r == self.indent_size * self.indent_level,
    {
        self.indent_size * self.indent_level
    }
}

impl Expr {
    /// Renders the tree as text: an atom as its text; a node on one line
    /// when that line is at most 80 characters wide, else with one child per
    /// line one level deeper and the closing paren on a line of its own.
    pub fn to_wat(&self, p: &ToWatParams) -> (r: String)
        ensures
            r@ == render(view_expr(*self), (p.indent_size * p.indent_level) as nat, p.indent_size as nat),
    {
        let mut pad = String::new();
        let mut l: usize = 0;
        while l < p.indent_level
            invariant
                l <= p.indent_level,
                pad@ == spaces((l * p.indent_size) as nat),
            decreases p.indent_level - l,
        {
            push_spaces(&mut pad, p.indent_size);
            proof {
                assert((l + 1) * p.indent_size == l * p.indent_size + p.indent_size) by (nonlinear_arith);
                assert(pad@ =~= spaces(((l + 1) * p.indent_size) as nat));
            }
            l = l + 1;
        }
        proof {
            assert(p.indent_size * p.indent_level == p.indent_level * p.indent_size) by (nonlinear_arith);
        }
        render_with(self, &pad, Ghost((p.indent_size * p.indent_level) as nat), p.indent_size)
    }
}

/// A node with children is printed on one line exactly when its single-line
/// candidate (`(head`, the children rendered without indentation and joined
/// by spaces, `)`) is at most 80 characters long. Otherwise `(head` stands on
/// its own line, every child follows on a line of its own, rendered by the
/// same rule one level deeper, and `)` closes at the node's own indentation.
pub proof fn lemma_width_rule(head: Seq<char>, cs: Seq<Sx>, ind: nat, size: nat)
    requires
        cs.len() > 0,
    ensures
        candidate(head, ind, render_flat(cs, cs.len() as int)).len() <= LINE_WIDTH ==> render(
            Sx::Node(head, cs),
            ind,
            size,
        ) == candidate(head, ind, render_flat(cs, cs.len() as int)),
        candidate(head, ind, render_flat(cs, cs.len() as int)).len() > LINE_WIDTH ==> render(
            Sx::Node(head, cs),
            ind,
            size,
        ) == multi_line(head, ind, render_lines(cs, cs.len() as int, ind + size, size)),
        forall|k: int|
            0 < k <= cs.len() ==> #[trigger] render_lines(cs, k, ind + size, size) == render_lines(
                cs,
                k - 1,
                ind + size,
                size,
            ) + render(cs[k - 1], ind + size, size) + seq!['\n'],
{
}

/// A node without children prints as `(head)`, indented.
pub proof fn lemma_empty_node(head: Seq<char>, ind: nat, size: nat)
    ensures
        render(Sx::Node(head, seq![]), ind, size) == spaces(ind) + seq!['('] + head + seq![')'],
{
}

/// A domain entity printed as a node: a head keyword and ordered children.
pub trait SExpr {
    spec fn car_spec(&self) -> Seq<char>;

    spec fn cdr_spec(&self) -> Seq<Sx>;

    /// The head keyword.
    fn car(&self) -> (r: String)
        ensures
            r@ == self.car_spec(),
    ;

    /// The children, in order.
    fn cdr(&self) -> (r: Vec<Expr>)
        ensures
            view_exprs(r, r.len() as int) == self.cdr_spec(),
    ;
}

/// The tree that an entity prints as.
pub open spec fn node_sx<T: SExpr>(x: T) -> Sx {
    Sx::Node(x.car_spec(), x.cdr_spec())
}

/// The entity as a node of the tree.
pub fn node<T: SExpr>(x: &T) -> (r: Expr)
    ensures
        view_expr(r) == node_sx(*x),
{
    let n = Node { head: x.car(), children: x.cdr() };
    Expr::SExpr(n)
}

pub proof fn lemma_view_exprs_append(a: Vec<Expr>, b: Vec<Expr>, ab: Vec<Expr>)
    requires
        ab@ == a@ + b@,
    ensures
        view_exprs(ab, ab.len() as int) == view_exprs(a, a.len() as int) + view_exprs(b, b.len() as int),
{
    lemma_view_exprs(a, a.len() as int);
    lemma_view_exprs(b, b.len() as int);
    lemma_view_exprs(ab, ab.len() as int);
    assert forall|i: int| 0 <= i < ab.len() implies #[trigger] view_exprs(ab, ab.len() as int)[i] == (
    view_exprs(a, a.len() as int) + view_exprs(b, b.len() as int))[i] by {
        if i >= a.len() {
            assert(ab@[i] == b@[i - a.len()]);
        }
    }
    assert(view_exprs(ab, ab.len() as int) =~= view_exprs(a, a.len() as int) + view_exprs(b, b.len() as int));
}

/// Adds `e` at the end of `v`.
pub fn push_expr(v: &mut Vec<Expr>, e: Expr)
    ensures
        view_exprs(*final(v), final(v).len() as int) == view_exprs(*old(v), old(v).len() as int).push(view_expr(e)),
{
    let ghost a = *v;
    v.push(e);
    proof {
        lemma_view_exprs(a, a.len() as int);
        lemma_view_exprs(*v, v.len() as int);
        assert(view_exprs(*v, v.len() as int) =~= view_exprs(a, a.len() as int).push(view_expr(e)));
    }
}

/// Adds the atom `s` at the end of `v`.
pub fn push_atom(v: &mut Vec<Expr>, s: String)
    ensures
        view_exprs(*final(v), final(v).len() as int) == view_exprs(*old(v), old(v).len() as int).push(Sx::Atom(s@)),
{
    push_expr(v, Expr::Atom(Atom::new(s)));
}

/// Moves the elements of `w` to the end of `v`.
pub fn append_exprs(v: &mut Vec<Expr>, w: Vec<Expr>)
    ensures
        view_exprs(*final(v), final(v).len() as int) == view_exprs(*old(v), old(v).len() as int) + view_exprs(
            w,
            w.len() as int,
        ),
{
    let ghost a = *v;
    let mut w = w;
    let ghost b = w;
    v.append(&mut w);
    proof {
        lemma_view_exprs_append(a, b, *v);
    }
}

/// The entities of `v` as nodes, in order.
pub fn nodes<T: SExpr>(v: &Vec<T>) -> (r: Vec<Expr>)
    ensures
        view_exprs(r, r.len() as int) == v@.map_values(|x: T| node_sx(x)),
{
    let mut r: Vec<Expr> = Vec::new();
    let mut i: usize = 0;
    while i < v.len()
        invariant
            i <= v.len(),
            view_exprs(r, r.len() as int) == v@.subrange(0, i as int).map_values(|x: T| node_sx(x)),
        decreases v.len() - i,
    {
        let ghost before = view_exprs(r, r.len() as int);
        push_expr(&mut r, node(&v[i]));
        i = i + 1;
        assert(v@.subrange(0, i as int).map_values(|x: T| node_sx(x)) =~= before.push(node_sx(v@[i - 1])));
    }
    assert(v@.subrange(0, v.len() as int) =~= v@);
    r
}

/// The source text `s` between double quotes.
pub open spec fn quoted(s: Seq<char>) -> Seq<char> {
    seq!['"'] + s + seq!['"']
}

/// `s` between double quotes, as it is printed.
pub fn quote(s: &str) -> (r: String)
    ensures
        r@ == quoted(s@),
{
    let q = "\"";
    proof {
        reveal_strlit("\"");
    }
    let mut r = q.to_string();
    r.append(s);
    r.append(q);
    r
}

} // verus!
