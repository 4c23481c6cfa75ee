//! Composite tensors: a head presenting one logical view over ordered members, each an
//! ordinary tensor or a nested composite.
//!
//! The head's rule and shape are stated, not derived; its member count is the one
//! field taken from the members. Its `repr` nests with a depth budget so a deep tree
//! prints rather than runs away. Written to a file, every node gets a name of its own:
//! member `i` of a node named `p` is named `"p.i"`.

use vstd::prelude::*;
use crate::descriptor::{push_shape, shape_repr};
use crate::errors::ErrorClass;
use crate::layout::{CompositionRule, rule_name, spec_rule_name};
use crate::text::{decimal, joined, push_decimal, push_joined, views};

verus! {

/// A member of a composite.
#[derive(Debug)]
pub enum MemberNode {
    Tensor,
    Composite(Box<CompositeNode>),
}

/// A composite head with its members, in wire order.
#[derive(Debug)]
pub struct CompositeNode {
    pub rule: CompositionRule,
    pub shape: Vec<u64>,
    pub members: Vec<MemberNode>,
}

/// How deep a composite `repr` expands before eliding its members.
pub const MAX_REPR_DEPTH: usize = 3;

/// The `repr` of a composite at nesting depth `depth`.
pub open spec fn spec_repr_at(c: CompositeNode, depth: nat) -> Seq<char>
    decreases c, 0nat,
{
    "hurray.Composite(rule='"@ + spec_rule_name(c.rule) + "', shape="@ + shape_repr(c.shape@)
        + ", members=["@ + (if depth + 1 >= 3 {
        "\u{2026}"@
    } else {
        joined(member_items(c.members@, depth, 0))
    }) + "])"@
}

/// The spellings of members `i..`: `Tensor`, or a nested composite's `repr` one level
/// deeper.
pub open spec fn member_items(ms: Seq<MemberNode>, depth: nat, i: int) -> Seq<Seq<char>>
    decreases ms, ms.len() - i,
{
    if i < 0 || i >= ms.len() {
        Seq::empty()
    } else {
        seq![member_item(ms[i], depth)] + member_items(ms, depth, i + 1)
    }
}

/// The spelling of one member.
pub open spec fn member_item(m: MemberNode, depth: nat) -> Seq<char>
    decreases m, 0nat,
{
    match m {
        MemberNode::Tensor => "Tensor"@,
        MemberNode::Composite(b) => spec_repr_at(*b, depth + 1),
    }
}

proof fn lemma_member_items_step(ms: Seq<MemberNode>, depth: nat, i: int)
    requires
        0 <= i < ms.len(),
    ensures
        member_items(ms, depth, 0) == member_items_prefix(ms, depth, i) + seq![member_item(ms[i], depth)]
            + member_items(ms, depth, i + 1),
    decreases i,
{
    if i > 0 {
        lemma_member_items_step(ms, depth, i - 1);
        assert(member_items(ms, depth, i) =~= seq![member_item(ms[i], depth)] + member_items(
            ms,
            depth,
            i + 1,
        ));
        assert(member_items(ms, depth, 0) =~= member_items_prefix(ms, depth, i) + seq![
            member_item(ms[i], depth),
        ] + member_items(ms, depth, i + 1));
    } else {
        assert(member_items(ms, depth, 0) =~= member_items_prefix(ms, depth, 0) + seq![
            member_item(ms[0], depth),
        ] + member_items(ms, depth, 1));
    }
}

/// The spellings of members `..i`.
pub open spec fn member_items_prefix(ms: Seq<MemberNode>, depth: nat, i: int) -> Seq<Seq<char>>
    decreases i,
{
    if i <= 0 || i > ms.len() {
        Seq::empty()
    } else {
        member_items_prefix(ms, depth, i - 1) + seq![member_item(ms[i - 1], depth)]
    }
}

/// The `repr` of a composite at nesting depth `depth`.
pub fn repr_at(c: &CompositeNode, depth: usize) -> (r: String)
    requires
        depth < 3,
    ensures
        r@ == spec_repr_at(*c, depth as nat),
    decreases c,
{
    let mut s = String::new();
    s.append("hurray.Composite(rule='");
    s.append(rule_name(&c.rule));
    s.append("', shape=");
    push_shape(&mut s, &c.shape);
    s.append(", members=[");
    let ghost head = s@;
    if depth >= 2 {
        s.append("\u{2026}");
    } else {
        let mut items: Vec<String> = Vec::new();
        let mut i: usize = 0;
        while i < c.members.len()
            invariant
                i <= c.members@.len(),
                depth < 2,
                views(items@) == member_items_prefix(c.members@, depth as nat, i as int),
            decreases c.members.len() - i,
        {
            let item = match &c.members[i] {
                MemberNode::Tensor => {
                    proof {
                        reveal_strlit("Tensor");
                    }
                    String::from_str("Tensor")
                },
                MemberNode::Composite(b) => {
                    proof {
                        assert(decreases_to!(*c => c.members));
                        assert(decreases_to!(c.members => c.members@));
                        assert(decreases_to!(c.members@ => c.members@[i as int]));
                        assert(decreases_to!(c.members@[i as int] => *b));
                    }
                    repr_at(b, depth + 1)
                },
            };
            assert(item@ == member_item(c.members@[i as int], depth as nat));
            items.push(item);
            assert(views(items@) =~= member_items_prefix(c.members@, depth as nat, i + 1));
            i = i + 1;
        }
        proof {
            let ms = c.members@;
            if ms.len() > 0 {
                lemma_member_items_step(ms, depth as nat, ms.len() - 1);
                assert(member_items(ms, depth as nat, ms.len() as int) =~= Seq::<Seq<char>>::empty());
                assert(member_items(ms, depth as nat, 0) =~= member_items_prefix(
                    ms,
                    depth as nat,
                    ms.len() as int,
                ));
            } else {
                assert(member_items(ms, depth as nat, 0) =~= Seq::<Seq<char>>::empty());
            }
        }
        push_joined(&mut s, &items);
    }
    s.append("])");
    proof {
        reveal_strlit("hurray.Composite(rule='");
        reveal_strlit("', shape=");
        reveal_strlit(", members=[");
        reveal_strlit("\u{2026}");
        reveal_strlit("])");
    }
    assert(s@ =~= spec_repr_at(*c, depth as nat));
    s
}

/// The `repr` of a composite.
pub fn composite_repr(c: &CompositeNode) -> (r: String)
    ensures
        r@ == spec_repr_at(*c, 0),
{
    repr_at(c, 0)
}

/// A composite with more members than a `u32` counts; raises `InvalidDescriptorError`.
#[derive(Clone, Copy, Debug, PartialEq, Eq, Structural)]
pub struct TooManyMembers;

impl TooManyMembers {
    /// Raises `InvalidDescriptorError`.
    pub fn class(&self) -> (r: ErrorClass)
        ensures
            r == ErrorClass::InvalidDescriptor,
    {
        ErrorClass::InvalidDescriptor
    }
}

/// The member count a head declares: the number of members passed.
pub fn member_count(n: usize) -> (r: Result<u32, TooManyMembers>)
    ensures
        n <= u32::MAX ==> r == Ok::<u32, TooManyMembers>(n as u32),
        n > u32::MAX ==> r == Err::<u32, TooManyMembers>(TooManyMembers),
{
    if n > (u32::MAX as usize) {
        return Err(TooManyMembers);
    }
    Ok(n as u32)
}

/// A member that is neither a tensor nor a composite; raises `TypeError`.
#[derive(Clone, Copy, Debug, PartialEq, Eq, Structural)]
pub struct NotAMember {
    pub index: usize,
}

impl NotAMember {
    /// The error raises a plain `TypeError`.
    pub fn class(&self) -> (r: ErrorClass)
        ensures
            r == ErrorClass::Type,
    {
        ErrorClass::Type
    }
}

/// What a value passed as a member turned out to be.
#[derive(Clone, Copy, Debug, PartialEq, Eq, Structural)]
pub enum MemberKind {
    Tensor,
    Composite,
    Other,
}

/// Accept member `index` if it is a tensor or a composite.
pub fn check_member(kind: MemberKind, index: usize) -> (r: Result<MemberKind, NotAMember>)
    ensures
        r == (if kind == MemberKind::Other {
            Err::<MemberKind, NotAMember>(NotAMember { index })
        } else {
            Ok(kind)
        }),
{
    match kind {
        MemberKind::Other => Err(NotAMember { index }),
        _ => Ok(kind),
    }
}

/// The name of member `index` of a node named `parent`.
pub open spec fn spec_member_name(parent: Seq<char>, index: nat) -> Seq<char> {
    parent + "."@ + decimal(index)
}

/// Name member `index` of a node named `parent`.
pub fn member_name(parent: &str, index: usize) -> (r: String)
    ensures
        r@ == spec_member_name(parent@, index as nat),
{
    let mut s = String::new();
    s.append(parent);
    s.append(".");
    push_decimal(&mut s, index as u64);
    proof {
        reveal_strlit(".");
    }
    assert(s@ =~= spec_member_name(parent@, index as nat));
    s
}

/// A node's name and its members' named subtrees.
#[derive(Debug)]
pub struct NameTree {
    pub name: String,
    pub children: Vec<NameTree>,
}

/// `t` names the members of `c` under the parent name `parent`: one child per member,
/// child `i` named `"parent.i"`, and a nested composite's children named the same way
/// under the child's name; a tensor member has no children.
pub open spec fn names_members(t: Seq<NameTree>, c: CompositeNode, parent: Seq<char>) -> bool
    decreases c, 0nat,
{
    &&& t.len() == c.members@.len()
    &&& names_from(t, c.members@, parent, 0)
}

/// Children `i..` are named after their members.
pub open spec fn names_from(t: Seq<NameTree>, ms: Seq<MemberNode>, parent: Seq<char>, i: int) -> bool
    decreases ms, ms.len() - i,
{
    if i < 0 || i >= ms.len() {
        true
    } else {
        &&& t[i].name@ == spec_member_name(parent, i as nat)
        &&& names_member(t[i], ms[i])
        &&& names_from(t, ms, parent, i + 1)
    }
}

/// One child is named after its member.
pub open spec fn names_member(n: NameTree, m: MemberNode) -> bool
    decreases m, 0nat,
{
    match m {
        MemberNode::Tensor => n.children@.len() == 0,
        MemberNode::Composite(b) => names_members(n.children@, *b, n.name@),
    }
}

proof fn lemma_names_from_pointwise(t: Seq<NameTree>, ms: Seq<MemberNode>, parent: Seq<char>, i: int)
    requires
        0 <= i <= ms.len(),
        t.len() == ms.len(),
        forall|j: int| 0 <= j < ms.len() ==> (#[trigger] t[j]).name@ == spec_member_name(parent, j as nat),
        forall|j: int| 0 <= j < ms.len() ==> names_member(#[trigger] t[j], ms[j]),
    ensures
        names_from(t, ms, parent, i),
    decreases ms.len() - i,
{
    if i < ms.len() {
        lemma_names_from_pointwise(t, ms, parent, i + 1);
    }
}

/// Name every member of `c`, recursively, under the parent name `parent`.
pub fn name_members(c: &CompositeNode, parent: &str) -> (r: Vec<NameTree>)
    ensures
        names_members(r@, *c, parent@),
    decreases c,
{
    let mut out: Vec<NameTree> = Vec::new();
    let mut i: usize = 0;
    while i < c.members.len()
        invariant
            i <= c.members@.len(),
            out@.len() == i,
            forall|j: int| 0 <= j < i ==> (#[trigger] out@[j]).name@ == spec_member_name(parent@, j as nat),
            forall|j: int| 0 <= j < i ==> names_member(#[trigger] out@[j], c.members@[j]),
        decreases c.members.len() - i,
    {
        let name = member_name(parent, i);
        let children = match &c.members[i] {
            MemberNode::Tensor => Vec::new(),
            MemberNode::Composite(b) => {
                proof {
                    assert(decreases_to!(*c => c.members));
                    assert(decreases_to!(c.members => c.members@));
                    assert(decreases_to!(c.members@ => c.members@[i as int]));
                    assert(decreases_to!(c.members@[i as int] => *b));
                }
                name_members(b, name.as_str())
            },
        };
        let node = NameTree { name, children };
        assert(names_member(node, c.members@[i as int]));
        out.push(node);
        i = i + 1;
    }
    proof {
        lemma_names_from_pointwise(out@, c.members@, parent@, 0);
    }
    out
}

} // verus!
