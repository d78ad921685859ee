//! Lookups on a node that every decoder uses: a child or an attribute by name,
//! the node's text, and numbers written as text. Each failure carries the place
//! of the node on which the lookup was made.

use crate::pos_error::{spec_pos, PosError};
use crate::text::{chars_of, parse_uint, spec_parse_uint, str_eq};
use crate::tree::{Attr, Attribute, Node, Tag};
use vstd::prelude::*;
use vstd::string::StringExecFns;

verus! {

/// Why a lookup on a node failed.
#[derive(Debug, Clone, Copy, PartialEq, Eq, Hash)]
pub enum SharedError {
    /// The node has no child of that name.
    MissingChild(PosError, Tag),
    /// The node has no attribute of that name.
    MissingAttribute(PosError, Attr),
    /// The node holds no text.
    MissingText(PosError),
    /// The node's text, or one of its attributes, should be a number and is not
    /// one, or is one that the field cannot hold.
    NotANumber(PosError),
}

/// An outcome with its value seen through the value's view.
pub open spec fn viewed<T: View, E>(r: Result<T, E>) -> Result<T::V, E> {
    match r {
        Ok(value) => Ok(value@),
        Err(e) => Err(e),
    }
}

/// The nodes of `nodes` that are named `name`, in their order.
pub open spec fn named(nodes: Seq<Node>, name: Seq<char>) -> Seq<Node>
    decreases nodes.len(),
{
    if nodes.len() == 0 {
        Seq::empty()
    } else if nodes.last().tag@ == name {
        named(nodes.drop_last(), name).push(nodes.last())
    } else {
        named(nodes.drop_last(), name)
    }
}

/// The children of `node` that are named `tag`, in document order.
pub open spec fn spec_children(node: Node, tag: Tag) -> Seq<Node> {
    named(node.children@, tag.spec_name())
}

/// The first child of `node` that is named `tag`.
pub open spec fn spec_child(node: Node, tag: Tag) -> Option<Node> {
    if spec_children(node, tag).len() > 0 {
        Some(spec_children(node, tag)[0])
    } else {
        None
    }
}

/// The value of the first attribute named `name` at or after `from`.
pub open spec fn find_attr(attrs: Seq<Attribute>, name: Seq<char>, from: int) -> Option<Seq<char>>
    decreases attrs.len() - from,
{
    if from < 0 || from >= attrs.len() {
        None
    } else if attrs[from].name@ == name {
        Some(attrs[from].value@)
    } else {
        find_attr(attrs, name, from + 1)
    }
}

/// The value of the attribute `name` of `node`.
pub open spec fn spec_attr(node: Node, name: Attr) -> Option<Seq<char>> {
    find_attr(node.attributes@, name.spec_name(), 0)
}

/// The text of `node`.
pub open spec fn spec_text(node: Node) -> Option<Seq<char>> {
    match node.text {
        Some(s) => Some(s@),
        None => None,
    }
}

/// The text of `node` as a number of at most `max` in `radix`.
pub open spec fn spec_text_uint(node: Node, radix: nat, max: nat) -> Result<nat, SharedError> {
    match spec_text(node) {
        None => Err(SharedError::MissingText(spec_pos(node))),
        Some(s) => match spec_parse_uint(s, radix, max) {
            Some(v) => Ok(v),
            None => Err(SharedError::NotANumber(spec_pos(node))),
        },
    }
}

/// The attribute `name` of `node` as a decimal number of at most `max`, where
/// the node has that attribute.
pub open spec fn spec_attr_uint(node: Node, name: Attr, max: nat) -> Result<
    Option<nat>,
    SharedError,
> {
    match spec_attr(node, name) {
        None => Ok(None),
        Some(s) => match spec_parse_uint(s, 10, max) {
            Some(v) => Ok(Some(v)),
            None => Err(SharedError::NotANumber(spec_pos(node))),
        },
    }
}

/// Where no node has the name, none is selected.
pub proof fn lemma_named_none(nodes: Seq<Node>, name: Seq<char>)
    requires
        forall|j: int| 0 <= j < nodes.len() ==> nodes[j].tag@ != name,
    ensures
        named(nodes, name).len() == 0,
    decreases nodes.len(),
{
    if nodes.len() > 0 {
        lemma_named_none(nodes.drop_last(), name);
    }
}

/// The first node with the name is the first that is selected.
pub proof fn lemma_named_first(nodes: Seq<Node>, name: Seq<char>, i: int)
    requires
        0 <= i < nodes.len(),
        nodes[i].tag@ == name,
        forall|j: int| 0 <= j < i ==> nodes[j].tag@ != name,
    ensures
        named(nodes, name).len() > 0,
        named(nodes, name)[0] == nodes[i],
    decreases nodes.len(),
{
    if i == nodes.len() - 1 {
        lemma_named_none(nodes.drop_last(), name);
    } else {
        lemma_named_first(nodes.drop_last(), name, i);
    }
}

/// The first child of `node` that is named `tag`; its absence is an error at
/// `node`.
pub fn child<'a>(node: &'a Node, tag: Tag) -> (r: Result<&'a Node, SharedError>)
    ensures
        match r {
            Ok(c) => spec_child(*node, tag) == Some(*c),
            Err(e) => spec_child(*node, tag) is None && e == SharedError::MissingChild(
                spec_pos(*node),
                tag,
            ),
        },
{
    let name = tag.name();
    let mut i: usize = 0;
    while i < node.children.len()
        invariant
            i <= node.children@.len(),
            name@ == tag.spec_name(),
            forall|j: int| 0 <= j < i ==> node.children@[j].tag@ != name@,
        decreases node.children@.len() - i,
    {
        if str_eq(node.children[i].tag.as_str(), name) {
            proof {
                lemma_named_first(node.children@, name@, i as int);
            }
            return Ok(&node.children[i]);
        }
        i += 1;
    }
    proof {
        lemma_named_none(node.children@, name@);
    }
    Err(SharedError::MissingChild(PosError::from(node), tag))
}

/// The children of `node` that are named `tag`, in document order.
pub fn children_named<'a>(node: &'a Node, tag: Tag) -> (r: Vec<&'a Node>)
    ensures
        r@.len() == spec_children(*node, tag).len(),
        forall|k: int| 0 <= k < r@.len() ==> *#[trigger] r@[k] == spec_children(*node, tag)[k],
{
    let name = tag.name();
    let mut out: Vec<&'a Node> = Vec::new();
    let mut i: usize = 0;
    while i < node.children.len()
        invariant
            i <= node.children@.len(),
            name@ == tag.spec_name(),
            out@.len() == named(node.children@.take(i as int), name@).len(),
            forall|k: int|
                0 <= k < out@.len() ==> *#[trigger] out@[k] == named(
                    node.children@.take(i as int),
                    name@,
                )[k],
        decreases node.children@.len() - i,
    {
        proof {
            assert(node.children@.take(i + 1).drop_last() =~= node.children@.take(i as int));
        }
        if str_eq(node.children[i].tag.as_str(), name) {
            out.push(&node.children[i]);
        }
        i += 1;
    }
    proof {
        assert(node.children@.take(i as int) =~= node.children@);
    }
    out
}

/// The text of `node`; its absence is an error at `node`.
pub fn text<'a>(node: &'a Node) -> (r: Result<&'a str, SharedError>)
    ensures
        match r {
            Ok(s) => spec_text(*node) == Some(s@),
            Err(e) => spec_text(*node) is None && e == SharedError::MissingText(spec_pos(*node)),
        },
{
    match &node.text {
        Some(s) => Ok(s.as_str()),
        None => Err(SharedError::MissingText(PosError::from(node))),
    }
}

/// The text of `node`, where it is required.
pub open spec fn spec_owned_text(node: Node) -> Result<Seq<char>, SharedError> {
    match spec_text(node) {
        Some(s) => Ok(s),
        None => Err(SharedError::MissingText(spec_pos(node))),
    }
}

/// A copy of the text of `node`; its absence is an error at `node`.
pub fn owned_text(node: &Node) -> (r: Result<String, SharedError>)
    ensures
        viewed(r) == spec_owned_text(*node),
{
    match text(node) {
        Ok(s) => Ok(s.to_owned()),
        Err(e) => Err(e),
    }
}

/// The value of the attribute `name` of `node`, if the node has it.
pub fn optional_attr<'a>(node: &'a Node, name: Attr) -> (r: Option<&'a str>)
    ensures
        match r {
            Some(s) => spec_attr(*node, name) == Some(s@),
            None => spec_attr(*node, name) is None,
        },
{
    let wanted = name.name();
    let mut i: usize = 0;
    while i < node.attributes.len()
        invariant
            i <= node.attributes@.len(),
            wanted@ == name.spec_name(),
            spec_attr(*node, name) == find_attr(node.attributes@, wanted@, i as int),
        decreases node.attributes@.len() - i,
    {
        if str_eq(node.attributes[i].name.as_str(), wanted) {
            return Some(node.attributes[i].value.as_str());
        }
        i += 1;
    }
    None
}

/// The value of the attribute `name` of `node`; its absence is an error at
/// `node`.
pub fn attr<'a>(node: &'a Node, name: Attr) -> (r: Result<&'a str, SharedError>)
    ensures
        match r {
            Ok(s) => spec_attr(*node, name) == Some(s@),
            Err(e) => spec_attr(*node, name) is None && e == SharedError::MissingAttribute(
                spec_pos(*node),
                name,
            ),
        },
{
    match optional_attr(node, name) {
        Some(s) => Ok(s),
        None => Err(SharedError::MissingAttribute(PosError::from(node), name)),
    }
}

/// The text of `node` as a number of at most `max`, written in `radix`.
pub fn text_uint(node: &Node, radix: u32, max: u32) -> (r: Result<u32, SharedError>)
    ensures
        match r {
            Ok(v) => spec_text_uint(*node, radix as nat, max as nat) == Ok::<nat, SharedError>(
                v as nat,
            ),
            Err(e) => spec_text_uint(*node, radix as nat, max as nat) == Err::<nat, SharedError>(e),
        },
{
    let s = match text(node) {
        Ok(s) => s,
        Err(e) => {
            return Err(e);
        },
    };
    let chars = chars_of(s);
    match parse_uint(&chars, radix, max) {
        Some(v) => Ok(v),
        None => Err(SharedError::NotANumber(PosError::from(node))),
    }
}

/// The text of `node` as a decimal number that fits eight bits.
pub fn text_u8(node: &Node) -> (r: Result<u8, SharedError>)
    ensures
        match r {
            Ok(v) => spec_text_uint(*node, 10, 0xff) == Ok::<nat, SharedError>(v as nat),
            Err(e) => spec_text_uint(*node, 10, 0xff) == Err::<nat, SharedError>(e),
        },
{
    match text_uint(node, 10, 0xff) {
        Ok(v) => Ok(v as u8),
        Err(e) => Err(e),
    }
}

/// The text of `node` as a decimal number that fits sixteen bits.
pub fn text_u16(node: &Node) -> (r: Result<u16, SharedError>)
    ensures
        match r {
            Ok(v) => spec_text_uint(*node, 10, 0xffff) == Ok::<nat, SharedError>(v as nat),
            Err(e) => spec_text_uint(*node, 10, 0xffff) == Err::<nat, SharedError>(e),
        },
{
    match text_uint(node, 10, 0xffff) {
        Ok(v) => Ok(v as u16),
        Err(e) => Err(e),
    }
}

/// The attribute `name` of `node` as a decimal number of at most `max`: `None`
/// where the node has no such attribute, an error where its value is no such
/// number.
pub fn attr_uint(node: &Node, name: Attr, max: u32) -> (r: Result<Option<u32>, SharedError>)
    ensures
        match r {
            Ok(Some(v)) => spec_attr_uint(*node, name, max as nat) == Ok::<
                Option<nat>,
                SharedError,
            >(Some(v as nat)),
            Ok(None) => spec_attr_uint(*node, name, max as nat) == Ok::<Option<nat>, SharedError>(
                None,
            ),
            Err(e) => spec_attr_uint(*node, name, max as nat) == Err::<Option<nat>, SharedError>(
                e,
            ),
        },
{
    match optional_attr(node, name) {
        None => Ok(None),
        Some(s) => {
            let chars = chars_of(s);
            match parse_uint(&chars, 10, max) {
                Some(v) => Ok(Some(v)),
                None => Err(SharedError::NotANumber(PosError::from(node))),
            }
        },
    }
}


/// What a sequence of outcomes comes to: every value in order, or the first
/// error.
pub open spec fn collect<T, E>(outcomes: Seq<Result<T, E>>) -> Result<Seq<T>, E>
    decreases outcomes.len(),
{
    if outcomes.len() == 0 {
        Ok(Seq::empty())
    } else {
        match collect(outcomes.drop_last()) {
            Err(e) => Err(e),
            Ok(values) => match outcomes.last() {
                Ok(value) => Ok(values.push(value)),
                Err(e) => Err(e),
            },
        }
    }
}

/// Whether `f` can return a value for `node`.
pub open spec fn accepts<T, E, F: Fn(&Node) -> Result<T, E>>(f: F, node: Node) -> bool {
    exists|value: T| call_ensures(f, (&node,), Ok::<T, E>(value))
}

/// Whether `f` can return the error `e` for the node at `i` and a value for
/// every node before it.
pub open spec fn fails_at<T, E, F: Fn(&Node) -> Result<T, E>>(
    f: F,
    nodes: Seq<Node>,
    i: int,
    e: E,
) -> bool {
    &&& 0 <= i < nodes.len()
    &&& call_ensures(f, (&nodes[i],), Err::<T, E>(e))
    &&& forall|j: int| 0 <= j < i ==> accepts(f, #[trigger] nodes[j])
}

/// Whether `r` is what applying `f` to each of `nodes` in turn comes to: a value
/// of `f` for every node, or the error of `f` at the first node for which it
/// returned one.
pub open spec fn maps_to<T, E, F: Fn(&Node) -> Result<T, E>>(
    f: F,
    nodes: Seq<Node>,
    r: Result<Vec<T>, E>,
) -> bool {
    match r {
        Ok(values) => values@.len() == nodes.len() && forall|k: int|
            0 <= k < nodes.len() ==> call_ensures(f, (&nodes[k],), Ok::<T, E>(#[trigger] values@[k])),
        Err(e) => exists|i: int| fails_at(f, nodes, i, e),
    }
}

/// Decodes every child of `node` that is named `tag`, in document order, and
/// stops at the first child that `f` rejects.
pub fn children<T, E, F: Fn(&Node) -> Result<T, E>>(node: &Node, tag: Tag, f: F) -> (r: Result<
    Vec<T>,
    E,
>)
    requires
        forall|k: int|
            0 <= k < spec_children(*node, tag).len() ==> call_requires(
                f,
                (&#[trigger] spec_children(*node, tag)[k],),
            ),
    ensures
        maps_to(f, spec_children(*node, tag), r),
{
    let selected = children_named(node, tag);
    let ghost nodes = spec_children(*node, tag);
    let mut out: Vec<T> = Vec::new();
    let mut i: usize = 0;
    while i < selected.len()
        invariant
            i <= selected@.len(),
            out@.len() == i,
            nodes == spec_children(*node, tag),
            selected@.len() == nodes.len(),
            forall|k: int| 0 <= k < selected@.len() ==> *#[trigger] selected@[k] == nodes[k],
            forall|k: int| 0 <= k < nodes.len() ==> call_requires(f, (&#[trigger] nodes[k],)),
            forall|k: int|
                0 <= k < i ==> call_ensures(f, (&nodes[k],), Ok::<T, E>(#[trigger] out@[k])),
        decreases selected@.len() - i,
    {
        assert(*selected@[i as int] == nodes[i as int]);
        match f(selected[i]) {
            Ok(value) => {
                out.push(value);
            },
            Err(e) => {
                proof {
                    assert(call_ensures(f, (&nodes[i as int],), Err::<T, E>(e)));
                    assert forall|j: int| 0 <= j < i implies accepts(f, #[trigger] nodes[j]) by {
                        assert(call_ensures(f, (&nodes[j],), Ok::<T, E>(out@[j])));
                    }
                    assert(fails_at(f, nodes, i as int, e));
                    assert(Err::<Vec<T>, E>(e)->Err_0 == e);
                }
                return Err(e);
            },
        }
        i += 1;
    }
    Ok(out)
}

/// Outcomes that are all values come to those values.
pub proof fn lemma_collect_values<T, E>(outcomes: Seq<Result<T, E>>, values: Seq<T>)
    requires
        values.len() == outcomes.len(),
        forall|k: int| 0 <= k < outcomes.len() ==> outcomes[k] == Ok::<T, E>(values[k]),
    ensures
        collect(outcomes) == Ok::<Seq<T>, E>(values),
    decreases outcomes.len(),
{
    if outcomes.len() == 0 {
        assert(values =~= Seq::<T>::empty());
    } else {
        lemma_collect_values(outcomes.drop_last(), values.drop_last());
        assert(values.drop_last().push(values.last()) =~= values);
    }
}

/// Outcomes whose first error stands at `i` come to that error.
pub proof fn lemma_collect_error<T, E>(outcomes: Seq<Result<T, E>>, i: int, e: E)
    requires
        0 <= i < outcomes.len(),
        outcomes[i] == Err::<T, E>(e),
        forall|j: int| 0 <= j < i ==> outcomes[j] is Ok,
    ensures
        collect(outcomes) == Err::<Seq<T>, E>(e),
    decreases outcomes.len(),
{
    if i == outcomes.len() - 1 {
        let before = outcomes.drop_last();
        let values = Seq::new(before.len(), |k: int| before[k]->Ok_0);
        lemma_collect_values(before, values);
    } else {
        lemma_collect_error(outcomes.drop_last(), i, e);
    }
}

/// What outcomes come to says what they were: values only where every outcome
/// is a value, and otherwise the error of the first outcome that is one.
pub proof fn lemma_collected<T, E>(outcomes: Seq<Result<T, E>>)
    ensures
        match collect(outcomes) {
            Ok(values) => values.len() == outcomes.len() && forall|k: int|
                0 <= k < outcomes.len() ==> outcomes[k] == Ok::<T, E>(#[trigger] values[k]),
            Err(e) => exists|i: int|
                0 <= i < outcomes.len() && #[trigger] outcomes[i] == Err::<T, E>(e) && forall|
                    j: int,
                | 0 <= j < i ==> (#[trigger] outcomes[j]) is Ok,
        },
    decreases outcomes.len(),
{
    if outcomes.len() > 0 {
        let before = outcomes.drop_last();
        lemma_collected(before);
        match collect(before) {
            Ok(values) => {
                match outcomes.last() {
                    Ok(value) => {
                        assert forall|k: int| 0 <= k < outcomes.len() implies outcomes[k] == Ok::<
                            T,
                            E,
                        >(#[trigger] values.push(value)[k]) by {
                            if k < before.len() {
                                assert(outcomes[k] == before[k]);
                                assert(values[k] == values.push(value)[k]);
                            }
                        }
                    },
                    Err(e) => {
                        let i = outcomes.len() - 1;
                        assert(outcomes[i] == Err::<T, E>(e));
                        assert forall|j: int| 0 <= j < i implies (#[trigger] outcomes[j]) is Ok by {
                            assert(outcomes[j] == before[j]);
                            assert(before[j] == Ok::<T, E>(values[j]));
                        }
                    },
                }
            },
            Err(e) => {
                let i = choose|i: int|
                    0 <= i < before.len() && #[trigger] before[i] == Err::<T, E>(e) && forall|
                        j: int,
                    | 0 <= j < i ==> (#[trigger] before[j]) is Ok;
                assert(outcomes[i] == before[i]);
                assert forall|j: int| 0 <= j < i implies (#[trigger] outcomes[j]) is Ok by {
                    assert(outcomes[j] == before[j]);
                }
            },
        }
    }
}

/// Where every return of `f` is the outcome that `g` names for the node, seen
/// through `view`, what `children` returned is what those outcomes come to.
pub proof fn lemma_children<T, V, E, F: Fn(&Node) -> Result<T, E>>(
    f: F,
    nodes: Seq<Node>,
    r: Result<Vec<T>, E>,
    view: spec_fn(T) -> V,
    g: spec_fn(Node) -> Result<V, E>,
)
    requires
        maps_to(f, nodes, r),
        forall|n: Node, ret: Result<T, E>| #[trigger]
            call_ensures(f, (&n,), ret) ==> g(n) == match ret {
                Ok(value) => Ok::<V, E>(view(value)),
                Err(e) => Err::<V, E>(e),
            },
    ensures
        collect(nodes.map_values(g)) == match r {
            Ok(values) => Ok::<Seq<V>, E>(values@.map_values(view)),
            Err(e) => Err::<Seq<V>, E>(e),
        },
{
    let outcomes = nodes.map_values(g);
    match r {
        Ok(values) => {
            assert forall|k: int| 0 <= k < outcomes.len() implies outcomes[k] == Ok::<V, E>(
                values@.map_values(view)[k],
            ) by {
                assert(call_ensures(f, (&nodes[k],), Ok::<T, E>(values@[k])));
            }
            lemma_collect_values(outcomes, values@.map_values(view));
        },
        Err(e) => {
            let i = choose|i: int| fails_at(f, nodes, i, e);
            assert forall|j: int| 0 <= j < i implies outcomes[j] is Ok by {
                assert(accepts(f, nodes[j]));
                let value = choose|value: T| call_ensures(f, (&nodes[j],), Ok::<T, E>(value));
                assert(call_ensures(f, (&nodes[j],), Ok::<T, E>(value)));
            }
            lemma_collect_error(outcomes, i, e);
        },
    }
}


impl SharedError {
    /// What the error says: the component that reports it, then what went
    /// wrong, then what the error holds.
    pub open spec fn spec_message(self) -> Seq<char> {
        match self {
            SharedError::MissingChild(pos, tag) => "(Shared) Missing child: "@ + pos.spec_message() + ", "@ + tag.spec_name(),
            SharedError::MissingAttribute(pos, name) => "(Shared) Missing attribute: "@ + pos.spec_message() + ", "@ + name.spec_name(),
            SharedError::MissingText(pos) => "(Shared) Node contains no text: "@ + pos.spec_message(),
            SharedError::NotANumber(pos) => "(Shared) Not a number: "@ + pos.spec_message(),
        }
    }

    /// Appends what the error says to `out`.
    pub fn write(&self, out: &mut String)
        ensures
            final(out)@ == old(out)@ + self.spec_message(),
    {
        match *self {
            SharedError::MissingChild(pos, tag) => {
                out.append("(Shared) Missing child: ");
                pos.write(out);
                out.append(", ");
                out.append(tag.name());
                assert(out@ =~= old(out)@ + self.spec_message());
            },
            SharedError::MissingAttribute(pos, name) => {
                out.append("(Shared) Missing attribute: ");
                pos.write(out);
                out.append(", ");
                out.append(name.name());
                assert(out@ =~= old(out)@ + self.spec_message());
            },
            SharedError::MissingText(pos) => {
                out.append("(Shared) Node contains no text: ");
                pos.write(out);
                assert(out@ =~= old(out)@ + self.spec_message());
            },
            SharedError::NotANumber(pos) => {
                out.append("(Shared) Not a number: ");
                pos.write(out);
                assert(out@ =~= old(out)@ + self.spec_message());
            },
        }
    }

    /// What the error says.
    pub fn message(&self) -> (r: String)
        ensures
            r@ == self.spec_message(),
    {
        let mut out = String::new();
        self.write(&mut out);
        assert(out@ =~= self.spec_message());
        out
    }
}


/// What is selected from two lists in a row is what is selected from the first,
/// then what is selected from the second: the order of the nodes of one name is
/// kept, and nodes of other names between them change nothing.
pub proof fn lemma_named_concat(first: Seq<Node>, second: Seq<Node>, name: Seq<char>)
    ensures
        named(first + second, name) == named(first, name) + named(second, name),
    decreases second.len(),
{
    if second.len() == 0 {
        assert(first + second =~= first);
        assert(named(first, name) + named(second, name) =~= named(first, name));
    } else {
        let all = first + second;
        assert(all.drop_last() =~= first + second.drop_last());
        assert(all.last() == second.last());
        lemma_named_concat(first, second.drop_last(), name);
        if second.last().tag@ == name {
            assert((named(first, name) + named(second.drop_last(), name)).push(second.last())
                =~= named(first, name) + named(second.drop_last(), name).push(second.last()));
        }
    }
}

/// Every node that is selected has the name, and a list of nodes of other
/// names selects nothing.
pub proof fn lemma_named_members(nodes: Seq<Node>, name: Seq<char>)
    ensures
        forall|k: int| 0 <= k < named(nodes, name).len() ==> (#[trigger] named(nodes, name)[k]).tag@
            == name,
        named(nodes, name).len() <= nodes.len(),
    decreases nodes.len(),
{
    if nodes.len() > 0 {
        lemma_named_members(nodes.drop_last(), name);
    }
}

} // verus!
