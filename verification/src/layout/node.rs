//! The nodes of the document as the layout engine asks about them: what
//! kind of node one is, and what its attributes hold.

use vstd::prelude::*;

verus! {

/// The kind of an element, as far as layout tells elements apart.
#[derive(Clone, Copy, Debug, PartialEq, Eq, Structural)]
pub enum LayoutElementType {
    Element,
    HTMLBodyElement,
    HTMLBRElement,
    HTMLCanvasElement,
    HTMLHtmlElement,
    HTMLIFrameElement,
    HTMLImageElement,
    HTMLMediaElement,
    HTMLInputElement,
    HTMLOptGroupElement,
    HTMLOptionElement,
    HTMLObjectElement,
    HTMLParagraphElement,
    HTMLPreElement,
    HTMLSelectElement,
    HTMLTableCellElement,
    HTMLTableColElement,
    HTMLTableElement,
    HTMLTableRowElement,
    HTMLTableSectionElement,
    HTMLTextAreaElement,
    SVGImageElement,
    SVGSVGElement,
}

/// The kind of a node.
#[derive(Clone, Copy, Debug, PartialEq, Eq, Structural)]
pub enum LayoutNodeType {
    Element(LayoutElementType),
    Text,
}

/// The namespace of a name.
#[derive(Clone, Copy, Debug, PartialEq, Eq, Structural)]
pub enum Namespace {
    Html,
    Svg,
    MathMl,
    Other,
}

/// The name of an element or of an attribute.
pub struct QualName {
    pub ns: Namespace,
    pub local: String,
}

pub struct Attribute {
    pub name: QualName,
    pub value: String,
}

pub struct ElementData {
    pub name: QualName,
    pub attrs: Vec<Attribute>,
}

/// What a node is.
pub enum NodeData {
    Document,
    Element(ElementData),
    /// A block that layout made up; it has the data of the element that it
    /// was made for.
    AnonymousBlock(ElementData),
    Text(String),
    Comment,
}

/// A node of the document.
pub struct BlitzNode {
    pub data: NodeData,
    /// Whether the node belongs to the document, and nothing else is
    /// flagged on it.
    pub only_in_document: bool,
}

/// A node as the layout engine sees it.
#[derive(Clone, Copy)]
pub struct BlitzLayoutNode<'dom> {
    pub value: &'dom BlitzNode,
}

/// An element as the layout engine sees it: a node that is an element.
#[derive(Clone, Copy)]
pub struct BlitzLayoutElement<'dom> {
    pub value: &'dom BlitzNode,
}

/// A node together with the pseudo-element that it stands for, if any.
#[derive(Clone, Copy)]
pub struct SafeBlitzLayoutNode<'dom> {
    pub node: BlitzLayoutNode<'dom>,
    pub pseudo: Option<PseudoElement>,
}

/// An element together with the pseudo-element that it stands for, if any.
#[derive(Clone, Copy)]
pub struct SafeBlitzLayoutElement<'dom> {
    pub element: BlitzLayoutElement<'dom>,
    pub pseudo: Option<PseudoElement>,
}

#[derive(Clone, Copy, Debug, PartialEq, Eq, Structural)]
pub enum PseudoElement {
    Before,
    After,
    Marker,
    /// Any other pseudo-element.
    Other,
}

/// The kind of the element with this name.
pub open spec fn spec_element_type(ns: Namespace, local: Seq<char>) -> LayoutElementType {
    match ns {
        Namespace::Svg => {
            if local == "image"@ {
                LayoutElementType::SVGImageElement
            } else if local == "svg"@ {
                LayoutElementType::SVGSVGElement
            } else {
                LayoutElementType::Element
            }
        },
        Namespace::Html => {
            if local == "body"@ {
                LayoutElementType::HTMLBodyElement
            } else if local == "br"@ {
                LayoutElementType::HTMLBRElement
            } else if local == "canvas"@ {
                LayoutElementType::HTMLCanvasElement
            } else if local == "html"@ {
                LayoutElementType::HTMLHtmlElement
            } else if local == "iframe"@ {
                LayoutElementType::HTMLIFrameElement
            } else if local == "img"@ {
                LayoutElementType::HTMLImageElement
            } else if local == "image"@ {
                LayoutElementType::HTMLImageElement
            } else if local == "audio"@ {
                LayoutElementType::HTMLMediaElement
            } else if local == "video"@ {
                LayoutElementType::HTMLMediaElement
            } else if local == "input"@ {
                LayoutElementType::HTMLInputElement
            } else if local == "optgroup"@ {
                LayoutElementType::HTMLOptGroupElement
            } else if local == "option"@ {
                LayoutElementType::HTMLOptionElement
            } else if local == "object"@ {
                LayoutElementType::HTMLObjectElement
            } else if local == "p"@ {
                LayoutElementType::HTMLParagraphElement
            } else if local == "pre"@ {
                LayoutElementType::HTMLPreElement
            } else if local == "select"@ {
                LayoutElementType::HTMLSelectElement
            } else if local == "td"@ {
                LayoutElementType::HTMLTableCellElement
            } else if local == "col"@ {
                LayoutElementType::HTMLTableColElement
            } else if local == "table"@ {
                LayoutElementType::HTMLTableElement
            } else if local == "tr"@ {
                LayoutElementType::HTMLTableRowElement
            } else if local == "thead"@ {
                LayoutElementType::HTMLTableSectionElement
            } else if local == "textarea"@ {
                LayoutElementType::HTMLTextAreaElement
            } else {
                LayoutElementType::Element
            }
        },
        _ => LayoutElementType::Element,
    }
}

/// The kind of a node. A comment has none.
pub open spec fn spec_type_id(data: NodeData) -> Option<LayoutNodeType> {
    match data {
        NodeData::Document => Some(LayoutNodeType::Element(LayoutElementType::HTMLHtmlElement)),
        NodeData::Element(el) => Some(
            LayoutNodeType::Element(spec_element_type(el.name.ns, el.name.local@)),
        ),
        NodeData::AnonymousBlock(el) => Some(
            LayoutNodeType::Element(spec_element_type(el.name.ns, el.name.local@)),
        ),
        NodeData::Text(_) => Some(LayoutNodeType::Text),
        NodeData::Comment => None,
    }
}

/// Whether a node takes text input: a text area, or an input of any type
/// but `color`.
pub open spec fn spec_is_text_input(data: NodeData) -> bool {
    match data {
        NodeData::Element(el) => {
            if el.name.local@ == "textarea"@ {
                true
            } else if el.name.local@ == "input"@ {
                forall|i: int|
                    spec_first_local(el.attrs@, "type"@, i) ==> el.attrs@[i].value@ != "color"@
            } else {
                false
            }
        },
        _ => false,
    }
}

/// Whether attribute `i` is the first of `attrs` with this local name, in
/// whatever namespace.
pub open spec fn spec_first_local(attrs: Seq<Attribute>, local: Seq<char>, i: int) -> bool {
    &&& 0 <= i < attrs.len()
    &&& attrs[i].name.local@ == local
    &&& forall|j: int| 0 <= j < i ==> (#[trigger] attrs[j]).name.local@ != local
}

fn is_name(name: &String, literal: &str) -> (same: bool)
    ensures
        same == (name@ == literal@),
{
    *name == literal.to_owned()
}

/// The kind of an element, from its namespace and its local name.
pub fn element_data_local_name_to_layout_node_type(el: &ElementData) -> (kind: LayoutElementType)
    ensures
        kind == spec_element_type(el.name.ns, el.name.local@),
{
    let local = &el.name.local;
    match el.name.ns {
        Namespace::Svg => {
            if is_name(local, "image") {
                LayoutElementType::SVGImageElement
            } else if is_name(local, "svg") {
                LayoutElementType::SVGSVGElement
            } else {
                LayoutElementType::Element
            }
        },
        Namespace::Html => {
            if is_name(local, "body") {
                LayoutElementType::HTMLBodyElement
            } else if is_name(local, "br") {
                LayoutElementType::HTMLBRElement
            } else if is_name(local, "canvas") {
                LayoutElementType::HTMLCanvasElement
            } else if is_name(local, "html") {
                LayoutElementType::HTMLHtmlElement
            } else if is_name(local, "iframe") {
                LayoutElementType::HTMLIFrameElement
            } else if is_name(local, "img") {
                LayoutElementType::HTMLImageElement
            } else if is_name(local, "image") {
                LayoutElementType::HTMLImageElement
            } else if is_name(local, "audio") {
                LayoutElementType::HTMLMediaElement
            } else if is_name(local, "video") {
                LayoutElementType::HTMLMediaElement
            } else if is_name(local, "input") {
                LayoutElementType::HTMLInputElement
            } else if is_name(local, "optgroup") {
                LayoutElementType::HTMLOptGroupElement
            } else if is_name(local, "option") {
                LayoutElementType::HTMLOptionElement
            } else if is_name(local, "object") {
                LayoutElementType::HTMLObjectElement
            } else if is_name(local, "p") {
                LayoutElementType::HTMLParagraphElement
            } else if is_name(local, "pre") {
                LayoutElementType::HTMLPreElement
            } else if is_name(local, "select") {
                LayoutElementType::HTMLSelectElement
            } else if is_name(local, "td") {
                LayoutElementType::HTMLTableCellElement
            } else if is_name(local, "col") {
                LayoutElementType::HTMLTableColElement
            } else if is_name(local, "table") {
                LayoutElementType::HTMLTableElement
            } else if is_name(local, "tr") {
                LayoutElementType::HTMLTableRowElement
            } else if is_name(local, "thead") {
                LayoutElementType::HTMLTableSectionElement
            } else if is_name(local, "textarea") {
                LayoutElementType::HTMLTextAreaElement
            } else {
                LayoutElementType::Element
            }
        },
        _ => LayoutElementType::Element,
    }
}

impl ElementData {
    /// The value of the first attribute with this local name.
    pub fn attr(&self, local: &str) -> (value: Option<&String>)
        ensures
            match value {
                Some(found) => exists|i: int|
                    spec_first_local(self.attrs@, local@, i) && *found == self.attrs@[i].value,
                None => forall|i: int| 0 <= i < self.attrs@.len() ==> (
                #[trigger] self.attrs@[i]).name.local@ != local@,
            },
    {
        let mut i: usize = 0;
        while i < self.attrs.len()
            invariant
                i <= self.attrs.len(),
                forall|j: int| 0 <= j < i ==> (#[trigger] self.attrs@[j]).name.local@ != local@,
            decreases self.attrs.len() - i,
        {
            if is_name(&self.attrs[i].name.local, local) {
                assert(spec_first_local(self.attrs@, local@, i as int));
                return Some(&self.attrs[i].value);
            }
            i = i + 1;
        }
        None
    }
}

impl<'dom> BlitzLayoutNode<'dom> {
    pub fn to_threadsafe(&self) -> (safe: SafeBlitzLayoutNode<'dom>)
        ensures
            safe.node.value == self.value,
            safe.pseudo is None,
    {
        SafeBlitzLayoutNode { node: *self, pseudo: None }
    }

    /// The kind of the node. The document counts as the `html` element,
    /// and an anonymous block as the element that it was made for. A
    /// comment has no kind and is never asked for one.
    pub fn type_id(&self) -> (kind: LayoutNodeType)
        requires
            !(self.value.data is Comment),
        ensures
            Some(kind) == spec_type_id(self.value.data),
    {
        match &self.value.data {
            NodeData::Document => LayoutNodeType::Element(LayoutElementType::HTMLHtmlElement),
            NodeData::Element(el) => LayoutNodeType::Element(
                element_data_local_name_to_layout_node_type(el),
            ),
            NodeData::AnonymousBlock(el) => LayoutNodeType::Element(
                element_data_local_name_to_layout_node_type(el),
            ),
            NodeData::Text(_) => LayoutNodeType::Text,
            NodeData::Comment => unreached(),
        }
    }

    /// Whether the node is connected: it belongs to the document.
    pub fn is_connected(&self) -> (connected: bool)
        ensures
            connected == self.value.only_in_document,
    {
        self.value.only_in_document
    }

    /// Whether the node takes text input.
    pub fn is_text_input(&self) -> (text_input: bool)
        ensures
            text_input == spec_is_text_input(self.value.data),
    {
        match &self.value.data {
            NodeData::Element(el) => {
                if is_name(&el.name.local, "textarea") {
                    true
                } else if is_name(&el.name.local, "input") {
                    match el.attr("type") {
                        Some(kind) => {
                            let colour = is_name(kind, "color");
                            proof {
                                let found = choose|i: int|
                                    spec_first_local(el.attrs@, "type"@, i) && *kind == el.attrs@[i].value;
                                assert forall|i: int| spec_first_local(el.attrs@, "type"@, i) implies i
                                    == found by {
                                    if i < found {
                                        assert(el.attrs@[i].name.local@ != "type"@);
                                    } else if found < i {
                                        assert(el.attrs@[found].name.local@ != "type"@);
                                    }
                                }
                            }
                            !colour
                        },
                        None => true,
                    }
                } else {
                    false
                }
            },
            _ => false,
        }
    }
}

impl<'dom> BlitzLayoutElement<'dom> {
    /// The element as a node.
    pub fn as_node(&self) -> (node: BlitzLayoutNode<'dom>)
        ensures
            node.value == self.value,
    {
        BlitzLayoutNode { value: self.value }
    }
}

impl<'dom> SafeBlitzLayoutNode<'dom> {
    /// The kind of the node, unless it stands for a pseudo-element.
    pub fn type_id(&self) -> (kind: Option<LayoutNodeType>)
        requires
            self.pseudo is None ==> !(self.node.value.data is Comment),
        ensures
            kind == if self.pseudo is None {
                spec_type_id(self.node.value.data)
            } else {
                None
            },
    {
        if self.pseudo.is_none() {
            Some(self.node.type_id())
        } else {
            None
        }
    }

    pub fn pseudo_element(&self) -> (pseudo: Option<PseudoElement>)
        ensures
            pseudo == self.pseudo,
    {
        self.pseudo
    }
}

impl<'dom> SafeBlitzLayoutElement<'dom> {
    /// The element as a node: without a pseudo-element.
    pub fn as_node(&self) -> (node: SafeBlitzLayoutNode<'dom>)
        ensures
            node.node.value == self.element.value,
            node.pseudo is None,
    {
        SafeBlitzLayoutNode { node: BlitzLayoutNode { value: self.element.value }, pseudo: None }
    }

    /// Pseudo-elements are not supported: there is never one to switch to.
    pub fn with_pseudo(&self, pseudo: PseudoElement) -> (element: Option<Self>)
        ensures
            element is None,
    {
        None
    }

    pub fn pseudo_element(&self) -> (pseudo: Option<PseudoElement>)
        ensures
            pseudo == self.pseudo,
    {
        self.pseudo
    }
}

} // verus!
