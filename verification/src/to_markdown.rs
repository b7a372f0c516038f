//! Turn a syntax tree back into markdown.
//!
//! This serializer handles roots, paragraphs, and text: a root joins the
//! markdown of its children with blank lines between them, a paragraph joins
//! the markdown of its (phrasing) children directly, and text is written as
//! it is.

use vstd::prelude::*;
use vstd::string::StrSliceExecFns;
use crate::mdast::{List, Node, Paragraph, Root, Strong, Text};
use crate::util::debug::push_char;

verus! {

/// Names of constructs that can be on the stack of the serializer.
pub enum ConstructName {
    Autolink,
    Blockquote,
    CodeIndented,
    CodeFenced,
    CodeFencedLangGraveAccent,
    CodeFencedLangTilde,
    CodeFencedMetaGraveAccent,
    CodeFencedMetaTilde,
    Definition,
    DestinationLiteral,
    DestinationRaw,
    Emphasis,
    HeadingAtx,
    HeadingSetext,
    Image,
    ImageReference,
    Label,
    Link,
    LinkReference,
    List,
    ListItem,
    Paragraph,
    Phrasing,
    Reference,
    Strong,
    TitleApostrophe,
    TitleQuote,
}

/// Nodes whose first character can be known without serializing them.
pub trait PeekNode {
    /// The first character of the node's markdown.
    spec fn spec_peek(&self) -> Seq<char>;

    /// The first character of the node's markdown.
    fn handle_peek(&self) -> (r: String)
        ensures
            r@ == self.spec_peek(),
    ;
}

impl PeekNode for Strong {
    open spec fn spec_peek(&self) -> Seq<char> {
        "*"@
    }

    fn handle_peek(&self) -> (r: String) {
        String::from_str("*")
    }
}

/// Parents whose children are phrasing content.
pub trait PhrasingParent {
    /// The children.
    spec fn spec_children(&self) -> Seq<Node>;

    /// The children.
    fn children(&self) -> (r: &Vec<Node>)
        ensures
            r@ == self.spec_children(),
    ;
}

/// Parents whose children are flow content.
pub trait FlowParent {
    /// The children.
    spec fn spec_children(&self) -> Seq<Node>;

    /// Whether the parent is spread, for parents that have that field.
    spec fn spec_spread(&self) -> Option<bool>;

    /// The children.
    fn children(&self) -> (r: &Vec<Node>)
        ensures
            r@ == self.spec_children(),
    ;

    /// Whether the parent is spread (`None` when it has no `spread` field).
    fn spread(&self) -> (r: Option<bool>)
        ensures
            r == self.spec_spread(),
    ;
}

impl FlowParent for List {
    open spec fn spec_children(&self) -> Seq<Node> {
        self.children@
    }

    open spec fn spec_spread(&self) -> Option<bool> {
        Some(self.spread)
    }

    fn children(&self) -> (r: &Vec<Node>) {
        &self.children
    }

    fn spread(&self) -> (r: Option<bool>) {
        Some(self.spread)
    }
}

impl PhrasingParent for Paragraph {
    open spec fn spec_children(&self) -> Seq<Node> {
        self.children@
    }

    fn children(&self) -> (r: &Vec<Node>) {
        &self.children
    }
}

impl FlowParent for Root {
    open spec fn spec_children(&self) -> Seq<Node> {
        self.children@
    }

    open spec fn spec_spread(&self) -> Option<bool> {
        None
    }

    fn children(&self) -> (r: &Vec<Node>) {
        &self.children
    }

    fn spread(&self) -> (r: Option<bool>) {
        None
    }
}

/// How to join two blocks.
pub enum Join {
    /// That many blank lines (`1` means one blank line).
    Number(usize),
    /// A blank line (`true`), or a comment between blank lines (`false`).
    Bool(bool),
}

/// State of the serializer.
pub struct State {
    /// Constructs that are being serialized, innermost last.
    pub stack: Vec<ConstructName>,
    /// Index of the child being serialized in each container; `-1` marks a
    /// container whose children have not started.
    pub index_stack: Vec<i64>,
    /// The bullet of the last list.
    pub bullet_last_used: Option<String>,
}

/// What comes before and after the node being serialized.
pub struct Info<'a> {
    /// Text before.
    pub before: &'a str,
    /// Text after.
    pub after: &'a str,
}

impl<'a> Info<'a> {
    /// Create info.
    pub fn new(before: &'a str, after: &'a str) -> (r: Self)
        ensures
            r.before == before,
            r.after == after,
    {
        Info { before, after }
    }
}

/// Whether the serializer handles a node: roots and paragraphs of handled
/// nodes, and text.
/// Inside a paragraph, the markdown of every child but the last must end in
/// an ASCII character (the serializer looks at the last byte of the previous
/// result).
pub open spec fn handled(n: Node) -> bool
    decreases n,
{
    match n {
        Node::Root(x) => all_handled(x.children@),
        Node::Paragraph(x) => all_handled(x.children@) && phrasing_ends_ascii(x.children@),
        Node::Text(_) => true,
        _ => false,
    }
}

/// Every node in `v` is handled.
pub open spec fn all_handled(v: Seq<Node>) -> bool
    decreases v,
{
    if v.len() == 0 {
        true
    } else {
        all_handled(v.drop_last()) && handled(v.last())
    }
}

/// No root occurs in the node (it is not one, and none is nested in it).
pub open spec fn no_root(n: Node) -> bool
    decreases n,
{
    match n {
        Node::Root(_) => false,
        Node::Paragraph(x) => no_roots(x.children@),
        _ => true,
    }
}

/// No root occurs in the nodes of `v`.
pub open spec fn no_roots(v: Seq<Node>) -> bool
    decreases v,
{
    if v.len() == 0 {
        true
    } else {
        no_roots(v.drop_last()) && no_root(v.last())
    }
}

/// The entry that serializing flow children leaves on the index stack: the
/// index of the last child, or `-1` when there are none.
pub open spec fn last_index(v: Seq<Node>) -> i64 {
    if v.len() == 0 {
        -1i64
    } else {
        (v.len() - 1) as i64
    }
}

/// The text is not empty and its last character is ASCII.
pub open spec fn ends_ascii(t: Seq<char>) -> bool {
    t.len() > 0 && (t.last() as u32) < 128
}

/// The markdown of every node in `v` but the last ends in ASCII.
pub open spec fn phrasing_ends_ascii(v: Seq<Node>) -> bool
    decreases v,
{
    if v.len() <= 1 {
        true
    } else {
        phrasing_ends_ascii(v.drop_last()) && ends_ascii(markdown(v[v.len() - 2]))
    }
}

/// The markdown of a node: text as it is, a paragraph as the markdown of
/// its children one after the other, and a root as the markdown of its
/// children with a blank line between each two.
pub open spec fn markdown(n: Node) -> Seq<char>
    decreases n,
{
    match n {
        Node::Root(x) => markdown_blocks(x.children@),
        Node::Paragraph(x) => markdown_inline(x.children@),
        Node::Text(x) => x.value@,
        _ => Seq::empty(),
    }
}

/// The markdown of nodes, one after the other.
pub open spec fn markdown_inline(v: Seq<Node>) -> Seq<char>
    decreases v,
{
    if v.len() == 0 {
        Seq::empty()
    } else {
        markdown_inline(v.drop_last()) + markdown(v.last())
    }
}

/// The markdown of nodes, with `\n\n` between each two.
pub open spec fn markdown_blocks(v: Seq<Node>) -> Seq<char>
    decreases v,
{
    if v.len() == 0 {
        Seq::empty()
    } else if v.len() == 1 {
        markdown(v[0])
    } else {
        markdown_blocks(v.drop_last()) + "\n\n"@ + markdown(v.last())
    }
}

/// `a` is a prefix of `b`.
pub open spec fn is_prefix(a: Seq<i64>, b: Seq<i64>) -> bool {
    a.len() <= b.len() && b.subrange(0, a.len() as int) == a
}

/// Whether a node is formatted as indented code.
/// The serializer handles no code nodes, so this is only asked of others.
fn format_code_as_indented(node: &Node, _state: &State) -> (r: bool)
    requires
        !(*node is Code),
    ensures
        !r,
{
    false
}

/// Whether a heading is formatted as setext.
/// The serializer handles no heading nodes, so this is only asked of others.
fn format_heading_as_setext(node: &Node, _state: &State) -> (r: bool)
    requires
        !(*node is Heading),
    ensures
        !r,
{
    false
}

impl State {
    /// Create a new state.
    pub fn new() -> (r: Self)
        ensures
            r.stack@.len() == 0,
            r.index_stack@.len() == 0,
            r.bullet_last_used is None,
    {
        State { stack: Vec::new(), index_stack: Vec::new(), bullet_last_used: None }
    }

    fn enter(&mut self, name: ConstructName)
        ensures
            final(self).stack@ == old(self).stack@.push(name),
            final(self).index_stack == old(self).index_stack,
            final(self).bullet_last_used == old(self).bullet_last_used,
    {
        self.stack.push(name);
    }

    fn exit(&mut self)
        ensures
            final(self).stack@ == (if old(self).stack@.len() > 0 {
                old(self).stack@.drop_last()
            } else {
                old(self).stack@
            }),
            final(self).index_stack == old(self).index_stack,
            final(self).bullet_last_used == old(self).bullet_last_used,
    {
        self.stack.pop();
    }

    /// Serialize a node.
    pub fn handle(&mut self, node: &Node, info: Info) -> (r: String)
        requires
            handled(*node),
        ensures
            r@ == markdown(*node),
            final(self).stack@ == old(self).stack@,
            final(self).bullet_last_used == old(self).bullet_last_used,
            is_prefix(old(self).index_stack@, final(self).index_stack@),
            no_root(*node) ==> final(self).index_stack@ == old(self).index_stack@,
            *node matches Node::Root(x) ==> (no_roots(x.children@) ==> final(self).index_stack@
                == old(self).index_stack@.push(last_index(x.children@))),
        decreases node, 3int,
    {
        match node {
            Node::Root(root) => self.handle_root(root, info),
            Node::Paragraph(paragraph) => self.handle_paragraph(paragraph, info),
            Node::Text(text) => {
                assert(self.index_stack@.subrange(0, self.index_stack@.len() as int) =~= self.index_stack@);
                self.handle_text(text, info)
            },
            _ => {
                assert(false);
                String::new()
            },
        }
    }

    fn handle_root(&mut self, node: &Root, info: Info) -> (r: String)
        requires
            handled(Node::Root(*node)),
        ensures
            r@ == markdown(Node::Root(*node)),
            final(self).stack@ == old(self).stack@,
            final(self).bullet_last_used == old(self).bullet_last_used,
            is_prefix(old(self).index_stack@, final(self).index_stack@),
            no_roots(node.children@) ==> final(self).index_stack@ == old(self).index_stack@.push(
                last_index(node.children@),
            ),
        decreases Node::Root(*node), 2int,
    {
        self.container_flow(node, info)
    }

    fn handle_paragraph(&mut self, node: &Paragraph, info: Info) -> (r: String)
        requires
            handled(Node::Paragraph(*node)),
        ensures
            r@ == markdown(Node::Paragraph(*node)),
            final(self).stack@ == old(self).stack@,
            final(self).bullet_last_used == old(self).bullet_last_used,
            is_prefix(old(self).index_stack@, final(self).index_stack@),
            no_roots(node.children@) ==> final(self).index_stack@ == old(self).index_stack@,
        decreases Node::Paragraph(*node), 2int,
    {
        self.enter(ConstructName::Paragraph);
        self.enter(ConstructName::Phrasing);
        let value = self.container_phrasing(node, info);
        // exit phrasing
        self.exit();
        // exit paragraph
        self.exit();
        value
    }

    fn handle_text(&self, text: &Text, _info: Info) -> (r: String)
        ensures
            r@ == text.value@,
    {
        self.safe(text.value.clone())
    }

    fn safe(&self, value: String) -> (r: String)
        ensures
            r == value,
    {
        value
    }

    fn container_phrasing(&mut self, parent: &Paragraph, info: Info) -> (r: String)
        requires
            all_handled(parent.spec_children()),
            phrasing_ends_ascii(parent.spec_children()),
        ensures
            r@ == markdown_inline(parent.spec_children()),
            final(self).stack@ == old(self).stack@,
            final(self).bullet_last_used == old(self).bullet_last_used,
            is_prefix(old(self).index_stack@, final(self).index_stack@),
            no_roots(parent.spec_children()) ==> final(self).index_stack@ == old(
                self,
            ).index_stack@,
        decreases parent.children@, 1int,
    {
        let children = PhrasingParent::children(parent);
        let ghost kids = children@;
        let mut out = String::new();
        let mut previous: Option<String> = None;
        let mut index: usize = 0;
        let ghost stack0 = self.stack@;
        let ghost index_stack0 = self.index_stack@;
        self.index_stack.push(-1);
        proof {
            lemma_all_handled_prefix(kids, 0);
        }
        assert(out@ =~= markdown_inline(kids.take(0)));
        while index < children.len()
            invariant
                kids == children@,
                kids == parent.spec_children(),
                all_handled(kids),
                phrasing_ends_ascii(kids),
                index <= kids.len(),
                out@ == markdown_inline(kids.take(index as int)),
                index == 0 ==> previous is None,
                index > 0 ==> previous is Some && previous.unwrap()@ == markdown(kids[index - 1]),
                self.stack@ == stack0,
                self.bullet_last_used == old(self).bullet_last_used,
                self.index_stack@.len() > index_stack0.len(),
                self.index_stack@.subrange(0, index_stack0.len() as int) == index_stack0,
                no_roots(kids) ==> self.index_stack@ == index_stack0.push(
                    if index == 0 {
                        -1i64
                    } else {
                        (index - 1) as i64
                    },
                ),
            decreases kids.len() - index,
        {
            let len = self.index_stack.len();
            self.index_stack.set(len - 1, #[verifier::truncate] (index as i64));
            assert(self.index_stack@.subrange(0, index_stack0.len() as int) =~= index_stack0);
            proof {
                lemma_all_handled_at(kids, index as int);
                assert(decreases_to!(kids => kids[index as int]));
                if no_roots(kids) {
                    lemma_no_roots_at(kids, index as int);
                }
            }
            let mut after = String::new();
            if index + 1 < children.len() {
                proof {
                    lemma_all_handled_at(kids, index + 1);
                    if no_roots(kids) {
                        lemma_no_roots_at(kids, index + 1);
                    }
                    assert(decreases_to!(kids => kids[index + 1]));
                }
                let next = &children[index + 1];
                match self.determine_first_char(next) {
                    Some(after_char) => {
                        after = after_char;
                    },
                    None => {
                        let ghost pre = self.index_stack@;
                        let peeked = self.handle(next, Info::new("", ""));
                        assert(self.index_stack@.subrange(0, index_stack0.len() as int) =~= index_stack0) by {
                            assert(pre.subrange(0, index_stack0.len() as int) == index_stack0);
                            assert(self.index_stack@.subrange(0, pre.len() as int) == pre);
                        }
                        let n = peeked.as_str().unicode_len();
                        if n > 0 {
                            push_char(&mut after, peeked.as_str().get_char(0));
                        }
                    },
                }
            }
            let ghost pre = self.index_stack@;
            let result = match &previous {
                Some(result) => {
                    proof {
                        lemma_phrasing_ends_ascii_at(kids, index as int);
                    }
                    let n = result.as_str().unicode_len();
                    let last = result.as_str().substring_char(n - 1, n);
                    self.handle(&children[index], Info::new(last, after.as_str()))
                },
                None => self.handle(&children[index], Info::new(info.before, after.as_str())),
            };
            assert(self.index_stack@.subrange(0, index_stack0.len() as int) =~= index_stack0) by {
                assert(pre.subrange(0, index_stack0.len() as int) == index_stack0);
                assert(self.index_stack@.subrange(0, pre.len() as int) == pre);
            }
            out.append(result.as_str());
            assert(kids.take(index + 1).drop_last() =~= kids.take(index as int));
            previous = Some(result);
            index += 1;
        }
        assert(kids.take(index as int) =~= kids);
        self.index_stack.pop();
        assert(self.index_stack@.subrange(0, index_stack0.len() as int) =~= index_stack0);
        out
    }

    fn determine_first_char(&self, node: &Node) -> (r: Option<String>)
        ensures
            r is Some <==> *node is Strong,
            r is Some ==> r.unwrap()@ == "*"@,
    {
        match node {
            Node::Strong(strong) => Some(strong.handle_peek()),
            _ => None,
        }
    }

    fn container_flow(&mut self, parent: &Root, _info: Info) -> (r: String)
        requires
            all_handled(parent.spec_children()),
        ensures
            r@ == markdown_blocks(parent.spec_children()),
            final(self).stack@ == old(self).stack@,
            final(self).bullet_last_used == old(self).bullet_last_used,
            is_prefix(old(self).index_stack@, final(self).index_stack@),
            no_roots(parent.spec_children()) ==> final(self).index_stack@ == old(
                self,
            ).index_stack@.push(last_index(parent.spec_children())),
        decreases parent.children@, 1int,
    {
        let children = FlowParent::children(parent);
        let ghost kids = children@;
        let mut out = String::new();
        let mut index: usize = 0;
        let ghost stack0 = self.stack@;
        let ghost index_stack0 = self.index_stack@;
        self.index_stack.push(-1);
        assert(out@ =~= markdown_blocks(kids.take(0)));
        while index < children.len()
            invariant
                kids == children@,
                kids == parent.spec_children(),
                all_handled(kids),
                index <= kids.len(),
                index == kids.len() ==> out@ == markdown_blocks(kids),
                0 < index < kids.len() ==> out@ == markdown_blocks(kids.take(index as int)) + "\n\n"@,
                index == 0 ==> out@ == Seq::<char>::empty(),
                self.stack@ == stack0,
                self.bullet_last_used == old(self).bullet_last_used,
                self.index_stack@.len() > index_stack0.len(),
                self.index_stack@.subrange(0, index_stack0.len() as int) == index_stack0,
                no_roots(kids) ==> self.index_stack@ == index_stack0.push(
                    if index == 0 {
                        -1i64
                    } else {
                        (index - 1) as i64
                    },
                ),
            decreases kids.len() - index,
        {
            let len = self.index_stack.len();
            self.index_stack.set(len - 1, #[verifier::truncate] (index as i64));
            assert(self.index_stack@.subrange(0, index_stack0.len() as int) =~= index_stack0);
            let child = &children[index];
            if matches!(child, Node::List(_)) {
                self.bullet_last_used = None;
            }
            proof {
                lemma_all_handled_at(kids, index as int);
                assert(decreases_to!(kids => kids[index as int]));
                if no_roots(kids) {
                    lemma_no_roots_at(kids, index as int);
                }
            }
            let ghost pre = self.index_stack@;
            let result = self.handle(child, Info::new("\n", "\n"));
            assert(self.index_stack@.subrange(0, index_stack0.len() as int) =~= index_stack0) by {
                assert(pre.subrange(0, index_stack0.len() as int) == index_stack0);
                assert(self.index_stack@.subrange(0, pre.len() as int) == pre);
            }
            let ghost out0 = out@;
            out.append(result.as_str());
            proof {
                assert(kids.take(index + 1).drop_last() =~= kids.take(index as int));
                assert(kids.take(index + 1).last() == kids[index as int]);
                if index == 0 {
                    assert(out@ =~= markdown(kids[0]));
                    assert(markdown_blocks(kids.take(1)) == markdown(kids.take(1)[0]));
                }
            }
            if index + 1 < children.len() {
                proof {
                    lemma_all_handled_at(kids, index + 1);
                }
                let between = self.between(child, &children[index + 1], parent);
                out.append(between.as_str());
            }
            index += 1;
            proof {
                if index == kids.len() {
                    assert(kids.take(index as int) =~= kids);
                }
            }
        }
        out
    }

    fn between<T: FlowParent>(&self, left: &Node, right: &Node, parent: &T) -> (r: String)
        requires
            handled(*left),
            handled(*right),
        ensures
            parent.spec_spread() is None ==> r@ == "\n\n"@,
    {
        match self.join_defaults(left, right, parent) {
            Some(Join::Number(num)) => {
                if num == 1 {
                    String::from_str("\n\n")
                } else {
                    let mut r = String::new();
                    let mut i: usize = 0;
                    while i < 1 + num
                        invariant
                            num <= 1,
                            i <= 1 + num,
                            r@ == Seq::new(i as nat, |_k: int| '\n'),
                        decreases 1 + num - i,
                    {
                        r.append("\n");
                        i += 1;
                        proof {
                            reveal_strlit("\n");
                        }
                        assert(r@ =~= Seq::new(i as nat, |_k: int| '\n'));
                    }
                    r
                }
            },
            Some(Join::Bool(b)) => {
                if b {
                    String::from_str("\n\n")
                } else {
                    String::from_str("\n\n<!---->\n\n")
                }
            },
            None => String::from_str("\n\n"),
        }
    }

    fn join_defaults<T: FlowParent>(&self, left: &Node, right: &Node, parent: &T) -> (r: Option<Join>)
        requires
            handled(*left),
            handled(*right),
        ensures
            parent.spec_spread() is None ==> r == Some(Join::Bool(true)),
            r matches Some(Join::Number(n)) ==> n <= 1,
    {
        if format_code_as_indented(right, self) && (matches!(left, Node::List(_))
            || format_code_as_indented(left, self)) {
            return Some(Join::Bool(false));
        }
        if let Some(spread) = parent.spread() {
            if matches!(left, Node::Paragraph(_)) && Self::matches((left, right)) || matches!(
                right,
                Node::Definition(_)
            ) || format_heading_as_setext(right, self) {
                return None;
            }
            if spread {
                return Some(Join::Number(1));
            } else {
                return Some(Join::Number(0));
            }
        }
        Some(Join::Bool(true))
    }

    fn matches(nodes: (&Node, &Node)) -> (r: bool)
        ensures
            r == ((*nodes.0 is Root && *nodes.1 is Root) || (*nodes.0 is BlockQuote
                && *nodes.1 is BlockQuote) || (*nodes.0 is FootnoteDefinition
                && *nodes.1 is FootnoteDefinition) || (*nodes.0 is Heading && *nodes.1 is Heading)
                || (*nodes.0 is List && *nodes.1 is List) || (*nodes.0 is ListItem
                && *nodes.1 is ListItem) || (*nodes.0 is Paragraph && *nodes.1 is Paragraph) || (
            *nodes.0 is Table && *nodes.1 is Table)),
    {
        matches!(
            nodes,
            (Node::Root(_), Node::Root(_)) | (Node::BlockQuote(_), Node::BlockQuote(_)) | (
                Node::FootnoteDefinition(_),
                Node::FootnoteDefinition(_),
            ) | (Node::Heading(_), Node::Heading(_)) | (Node::List(_), Node::List(_)) | (
                Node::ListItem(_),
                Node::ListItem(_),
            ) | (Node::Paragraph(_), Node::Paragraph(_)) | (Node::Table(_), Node::Table(_))
        )
    }
}

/// Every node of a prefix of handled nodes is handled.
proof fn lemma_all_handled_prefix(v: Seq<Node>, n: int)
    requires
        all_handled(v),
        0 <= n <= v.len(),
    ensures
        all_handled(v.take(n)),
    decreases v.len(),
{
    if n < v.len() {
        lemma_all_handled_prefix(v.drop_last(), n);
        assert(v.drop_last().take(n) =~= v.take(n));
    } else {
        assert(v.take(n) =~= v);
    }
}

/// Each node of handled nodes is handled.
proof fn lemma_all_handled_at(v: Seq<Node>, i: int)
    requires
        all_handled(v),
        0 <= i < v.len(),
    ensures
        handled(v[i]),
    decreases v.len(),
{
    if i < v.len() - 1 {
        lemma_all_handled_at(v.drop_last(), i);
    }
}

/// No root occurs in each node of nodes without roots.
proof fn lemma_no_roots_at(v: Seq<Node>, i: int)
    requires
        no_roots(v),
        0 <= i < v.len(),
    ensures
        no_root(v[i]),
    decreases v.len(),
{
    if i < v.len() - 1 {
        lemma_no_roots_at(v.drop_last(), i);
    }
}

/// The markdown of each node but the last ends in ASCII.
proof fn lemma_phrasing_ends_ascii_at(v: Seq<Node>, i: int)
    requires
        phrasing_ends_ascii(v),
        1 <= i < v.len(),
    ensures
        ends_ascii(markdown(v[i - 1])),
    decreases v.len(),
{
    if i < v.len() - 1 {
        lemma_phrasing_ends_ascii_at(v.drop_last(), i);
    }
}

/// Serialize a tree as markdown.
pub fn serialize(tree: Node) -> (r: String)
    requires
        handled(tree),
    ensures
        r@ == markdown(tree),
{
    let mut state = State::new();
    let result = state.handle(&tree, Info::new("\n", "\n"));
    result
}

} // verus!
