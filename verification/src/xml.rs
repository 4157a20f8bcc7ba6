//! The nested markup document: elements with a tag, attributes in the order
//! in which they were given, and children or text, written depth-first on a
//! single line with nothing escaped.

use vstd::prelude::*;
use vstd::string::StringExecFns;
use crate::text::{concat, join};
use crate::util::{quote, quoted};

verus! {

/// The line that every document starts with.
pub open spec fn prolog() -> Seq<char> {
    "<?xml version=\"1.0\"?>"@
}

/// An element as text: an opening tag that holds `attrs` if there are any,
/// the content, and a closing tag. It is never self-closing.
pub open spec fn element_text(tag: Seq<char>, attrs: Seq<char>, content: Seq<char>) -> Seq<char> {
    if attrs.len() > 0 {
        "<"@ + tag + " "@ + attrs + ">"@ + content + "</"@ + tag + ">"@
    } else {
        "<"@ + tag + ">"@ + content + "</"@ + tag + ">"@
    }
}

/// One attribute as text: its name, an equals sign, its value as it stands.
pub open spec fn attr_text(attr: (Seq<char>, Seq<char>)) -> Seq<char> {
    attr.0 + "="@ + attr.1
}

/// The attributes in the order given, with one space between each two.
pub open spec fn attrs_text(attrs: Seq<(Seq<char>, Seq<char>)>) -> Seq<char> {
    join(attrs.map_values(|attr: (Seq<char>, Seq<char>)| attr_text(attr)), " "@)
}

/// The children in the order given, with nothing between them.
pub open spec fn children_text(children: Seq<Seq<char>>) -> Seq<char> {
    concat(children)
}

/// An element with child elements, as text.
pub open spec fn node_text(
    tag: Seq<char>,
    attrs: Seq<(Seq<char>, Seq<char>)>,
    children: Seq<Seq<char>>,
) -> Seq<char> {
    element_text(tag, attrs_text(attrs), children_text(children))
}

/// An element with text in it, as text.
pub open spec fn leaf_text(
    tag: Seq<char>,
    attrs: Seq<(Seq<char>, Seq<char>)>,
    content: Seq<char>,
) -> Seq<char> {
    element_text(tag, attrs_text(attrs), content)
}

/// An attribute whose value is `value` between double quotes.
pub open spec fn attr(name: Seq<char>, value: Seq<char>) -> (Seq<char>, Seq<char>) {
    (name, quoted(value))
}

/// The names and values of `attrs` as texts.
pub open spec fn attr_views(attrs: Seq<(String, String)>) -> Seq<(Seq<char>, Seq<char>)> {
    attrs.map_values(|attr: (String, String)| (attr.0@, attr.1@))
}

/// The texts of `elements`.
pub open spec fn element_views(elements: Seq<XmlElement>) -> Seq<Seq<char>> {
    elements.map_values(|element: XmlElement| element@)
}

/// A document. Its view is the text written so far.
pub struct XmlDocument {
    buff: String,
}

impl View for XmlDocument {
    type V = Seq<char>;

    closed spec fn view(&self) -> Seq<char> {
        self.buff@
    }
}

impl XmlDocument {
    /// A document that holds the prolog and nothing else.
    pub fn new() -> (doc: Self)
        ensures
            doc@ == prolog(),
    {
        XmlDocument { buff: String::from_str("<?xml version=\"1.0\"?>") }
    }

    /// Writes `child` directly behind what the document holds.
    pub fn append_element(&mut self, child: XmlElement)
        ensures
            final(self)@ == old(self)@ + child@,
    {
        xml_append(&mut self.buff, child.0.as_str());
    }

    /// The text of the document.
    pub fn to_string(self) -> (text: String)
        ensures
            text@ == self@,
    {
        self.buff
    }
}

/// A finished element. Its view is its text.
pub struct XmlElement(String);

impl View for XmlElement {
    type V = Seq<char>;

    closed spec fn view(&self) -> Seq<char> {
        self.0@
    }
}

impl XmlElement {
    /// The element with the tag `tag`, the attributes `attrs` as they are
    /// written in the opening tag, and the content `content`.
    pub fn new(tag: String, attrs: String, content: String) -> (element: Self)
        ensures
            element@ == element_text(tag@, attrs@, content@),
    {
        let mut xml = String::from_str("<");
        xml.append(tag.as_str());
        if !attrs.as_str().is_empty() {
            xml.append(" ");
            xml.append(attrs.as_str());
        }
        xml.append(">");
        xml.append(content.as_str());
        xml.append("</");
        xml.append(tag.as_str());
        xml.append(">");
        XmlElement(xml)
    }
}

/// An element under construction that holds child elements.
pub struct XmlElementBuilder {
    tag: String,
    attrs: Vec<(String, String)>,
    children: Vec<XmlElement>,
}

/// An element under construction that holds text.
pub struct XmlTextElementBuilder {
    tag: String,
    attrs: Vec<(String, String)>,
    text: String,
}

impl XmlElementBuilder {
    /// The tag of the element.
    pub closed spec fn tag_text(&self) -> Seq<char> {
        self.tag@
    }

    /// The attributes given so far, each with its value as it will be written.
    pub closed spec fn attr_list(&self) -> Seq<(Seq<char>, Seq<char>)> {
        attr_views(self.attrs@)
    }

    /// The texts of the children given so far.
    pub closed spec fn child_list(&self) -> Seq<Seq<char>> {
        element_views(self.children@)
    }

    /// The text of the element that `build` gives.
    pub open spec fn built_text(&self) -> Seq<char> {
        node_text(self.tag_text(), self.attr_list(), self.child_list())
    }

    /// An element without attributes or children.
    pub fn new(tag: &str) -> (builder: Self)
        ensures
            builder.tag_text() == tag@,
            builder.attr_list() == Seq::<(Seq<char>, Seq<char>)>::empty(),
            builder.child_list() == Seq::<Seq<char>>::empty(),
    {
        let builder = XmlElementBuilder {
            tag: String::from_str(tag),
            attrs: Vec::new(),
            children: Vec::new(),
        };
        builder
    }

    /// Adds the attribute `name` behind those given before, its value between
    /// double quotes.
    pub fn append_attr(&mut self, name: &str, value: &str) -> (builder: &mut Self)
        ensures
            builder.tag_text() == old(self).tag_text(),
            builder.attr_list() == old(self).attr_list().push(attr(name@, value@)),
            builder.child_list() == old(self).child_list(),
            *final(self) == *final(builder),
    {
        self.attrs.push((String::from_str(name), quote(value).to_string()));
        self
    }

    /// Adds `child` behind the children given before.
    pub fn append_child(&mut self, child: XmlElement) -> (builder: &mut Self)
        ensures
            builder.tag_text() == old(self).tag_text(),
            builder.attr_list() == old(self).attr_list(),
            builder.child_list() == old(self).child_list().push(child@),
            *final(self) == *final(builder),
    {
        self.children.push(child);
        self
    }

    /// The finished element.
    pub fn build(self) -> (element: XmlElement)
        ensures
            element@ == self.built_text(),
    {
        let attrs = format_attrs(self.attrs);
        let children = format_children(self.children);
        XmlElement::new(self.tag, attrs, children)
    }
}

impl XmlTextElementBuilder {
    /// The tag of the element.
    pub closed spec fn tag_text(&self) -> Seq<char> {
        self.tag@
    }

    /// The attributes given so far, each with its value as it will be written.
    pub closed spec fn attr_list(&self) -> Seq<(Seq<char>, Seq<char>)> {
        attr_views(self.attrs@)
    }

    /// The text given so far.
    pub closed spec fn content(&self) -> Seq<char> {
        self.text@
    }

    /// The text of the element that `build` gives.
    pub open spec fn built_text(&self) -> Seq<char> {
        leaf_text(self.tag_text(), self.attr_list(), self.content())
    }

    /// An element without attributes or text.
    pub fn new(tag: &str) -> (builder: Self)
        ensures
            builder.tag_text() == tag@,
            builder.attr_list() == Seq::<(Seq<char>, Seq<char>)>::empty(),
            builder.content() == Seq::<char>::empty(),
    {
        let builder = XmlTextElementBuilder {
            tag: String::from_str(tag),
            attrs: Vec::new(),
            text: String::new(),
        };
        builder
    }

    /// Adds the attribute `name` behind those given before, its value between
    /// double quotes.
    pub fn append_attr(&mut self, name: &str, value: &str) -> (builder: &mut Self)
        ensures
            builder.tag_text() == old(self).tag_text(),
            builder.attr_list() == old(self).attr_list().push(attr(name@, value@)),
            builder.content() == old(self).content(),
            *final(self) == *final(builder),
    {
        self.attrs.push((String::from_str(name), quote(value).to_string()));
        self
    }

    /// Writes `text` behind the text given before, as it stands.
    pub fn append_text(&mut self, text: &str) -> (builder: &mut Self)
        ensures
            builder.tag_text() == old(self).tag_text(),
            builder.attr_list() == old(self).attr_list(),
            builder.content() == old(self).content() + text@,
            *final(self) == *final(builder),
    {
        self.text.append(text);
        self
    }

    /// The finished element.
    pub fn build(self) -> (element: XmlElement)
        ensures
            element@ == self.built_text(),
    {
        let attrs = format_attrs(self.attrs);
        XmlElement::new(self.tag, attrs, self.text)
    }
}

/// The attributes as they stand in an opening tag: `name=value` for each, in
/// order, with one space between each two.
pub fn format_attrs(attrs: Vec<(String, String)>) -> (text: String)
    ensures
        text@ == attrs_text(attr_views(attrs@)),
{
    let ghost items = attr_views(attrs@).map_values(|attr: (Seq<char>, Seq<char>)| attr_text(attr));
    let mut text = String::new();
    let mut i: usize = 0;
    while i < attrs.len()
        invariant
            i <= attrs.len(),
            items == attr_views(attrs@).map_values(|attr: (Seq<char>, Seq<char>)| attr_text(attr)),
            text@ == join(items.take(i as int), " "@),
        decreases attrs.len() - i,
    {
        if i > 0 {
            text.append(" ");
        }
        let attr = &attrs[i];
        text.append(attr.0.as_str());
        text.append("=");
        text.append(attr.1.as_str());
        proof {
            let after = items.take(i + 1);
            assert(after.drop_last() =~= items.take(i as int));
        }
        i += 1;
    }
    proof {
        assert(items.take(i as int) =~= items);
    }
    text
}

/// The texts of the children in order, with nothing between them.
pub fn format_children(children: Vec<XmlElement>) -> (text: String)
    ensures
        text@ == children_text(element_views(children@)),
{
    let ghost items = element_views(children@);
    let mut text = String::new();
    let mut i: usize = 0;
    while i < children.len()
        invariant
            i <= children.len(),
            items == element_views(children@),
            text@ == concat(items.take(i as int)),
        decreases children.len() - i,
    {
        xml_append(&mut text, children[i].0.as_str());
        proof {
            let after = items.take(i + 1);
            assert(after.drop_last() =~= items.take(i as int));
        }
        i += 1;
    }
    proof {
        assert(items.take(i as int) =~= items);
    }
    text
}

/// Writes `s` directly behind what `xml` holds.
pub fn xml_append(xml: &mut String, s: &str)
    ensures
        final(xml)@ == old(xml)@ + s@,
{
    xml.append(s);
}

} // verus!
