use vstd::prelude::*;
use vstd::string::*;

use crate::context::{Context, ContextType};
use crate::loc::Loc;
use crate::tree::Tree;

verus! {

/// The debug text of a string: quoted, with its special characters escaped.
pub uninterp spec fn debug_of(s: Seq<char>) -> Seq<char>;

/// Relies on `<str as Debug>::fmt`, reached through `format!("{:?}")`: the
/// quoted and escaped text, which depends on the characters alone.
#[verifier::external_body]
fn debug_text(s: &str) -> (r: String)
    ensures
        r@ == debug_of(s@),
{
    format!("{:?}", s)
}

/// How a value is written: as its debug text when `quote`, else as it is.
pub open spec fn value_text(s: Seq<char>, quote: bool) -> Seq<char> {
    if quote {
        debug_of(s)
    } else {
        s
    }
}

/// The text of a tree: `[]` when empty, a leaf by its value alone, any other
/// node as `[value left right]`.
pub open spec fn tree_text(t: Tree<String>, quote: bool) -> Seq<char>
    decreases t,
{
    match t {
        Tree::Empty => "[]"@,
        Tree::Node(b) => if b.left is Empty && b.right is Empty {
            value_text(b.data@, quote)
        } else {
            "["@ + value_text(b.data@, quote) + " "@ + tree_text(b.left, quote) + " "@ + tree_text(
                b.right,
                quote,
            ) + "]"@
        },
    }
}

/// The text of a path: `*` for the root, then one ` ^ [...]` per step from
/// the root down, with `.` where the hole is.
pub open spec fn context_text(c: Context<String>, quote: bool) -> Seq<char>
    decreases c,
{
    match c {
        Context::Root => "*"@,
        Context::Frame(f) => match f.ty {
            ContextType::Left => context_text(f.context, quote) + " ^ ["@ + value_text(f.data@, quote)
                + " "@ + tree_text(f.tree, quote) + " .]"@,
            ContextType::Right => context_text(f.context, quote) + " ^ ["@ + value_text(
                f.data@,
                quote,
            ) + " . "@ + tree_text(f.tree, quote) + "]"@,
        },
    }
}

/// The text of a cursor: its path, then ` ^ `, then the subtree in focus.
pub open spec fn loc_text(l: Loc<String>, quote: bool) -> Seq<char> {
    context_text(l.context, quote) + " ^ "@ + tree_text(l.tree, quote)
}

fn push_value(out: &mut String, s: &String, quote: bool)
    ensures
        final(out)@ == old(out)@ + value_text(s@, quote),
{
    if quote {
        let q = debug_text(s.as_str());
        out.append(q.as_str());
    } else {
        out.append(s.as_str());
    }
}

impl Tree<String> {
    fn write_to(&self, out: &mut String, quote: bool)
        ensures
            final(out)@ == old(out)@ + tree_text(*self, quote),
        decreases self,
    {
        match self {
            Tree::Empty => out.append("[]"),
            Tree::Node(b) => {
                if b.left.is_empty() && b.right.is_empty() {
                    push_value(out, &b.data, quote);
                } else {
                    out.append("[");
                    push_value(out, &b.data, quote);
                    out.append(" ");
                    b.left.write_to(out, quote);
                    out.append(" ");
                    b.right.write_to(out, quote);
                    out.append("]");
                }
            },
        }
    }

    /// The text of this tree, values written as their debug text.
    pub fn render(&self) -> (r: String)
        ensures
            r@ == tree_text(*self, true),
    {
        let mut out = String::new();
        self.write_to(&mut out, true);
        out
    }
}

impl Context<String> {
    fn write_to(&self, out: &mut String, quote: bool)
        ensures
            final(out)@ == old(out)@ + context_text(*self, quote),
        decreases self,
    {
        match self {
            Context::Root => out.append("*"),
            Context::Frame(f) => {
                f.context.write_to(out, quote);
                out.append(" ^ [");
                push_value(out, &f.data, quote);
                match f.ty {
                    ContextType::Left => {
                        out.append(" ");
                        f.tree.write_to(out, quote);
                        out.append(" .]");
                    },
                    ContextType::Right => {
                        out.append(" . ");
                        f.tree.write_to(out, quote);
                        out.append("]");
                    },
                }
            },
        }
    }

    /// The text of this path, values written as their debug text.
    pub fn render(&self) -> (r: String)
        ensures
            r@ == context_text(*self, true),
    {
        let mut out = String::new();
        self.write_to(&mut out, true);
        out
    }
}

impl Loc<String> {
    fn write_to(&self, out: &mut String, quote: bool)
        ensures
            final(out)@ == old(out)@ + loc_text(*self, quote),
    {
        self.context.write_to(out, quote);
        out.append(" ^ ");
        self.tree.write_to(out, quote);
    }

    /// The text of this cursor, values written as their debug text.
    pub fn render(&self) -> (r: String)
        ensures
            r@ == loc_text(*self, true),
    {
        let mut out = String::new();
        self.write_to(&mut out, true);
        out
    }

    /// The text of this cursor, values written as they are.
    pub fn render_plain(&self) -> (r: String)
        ensures
            r@ == loc_text(*self, false),
    {
        let mut out = String::new();
        self.write_to(&mut out, false);
        out
    }
}

/// The text of a cursor is a function of the cursor's value: equal cursors,
/// however their nodes are shared, render to equal text.
pub proof fn lemma_render_deterministic(a: Loc<String>, b: Loc<String>, quote: bool)
    requires
        a == b,
    ensures
        loc_text(a, quote) == loc_text(b, quote),
{
}

} // verus!
