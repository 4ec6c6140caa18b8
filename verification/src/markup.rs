//! The events of an XML document, as far as a manifest is read from them.

use vstd::prelude::*;

verus! {

/// An attribute of an element: its local name and its value.
#[derive(Clone, Debug, PartialEq, Eq)]
pub struct Attribute {
    pub name: String,
    pub value: String,
}

/// One event of a document.
#[derive(Clone, Debug, PartialEq, Eq)]
pub enum XmlItem {
    /// An element opens; `name` is its local name.
    Start { name: String, attributes: Vec<Attribute> },
    /// An element closes.
    End,
    /// Anything else: the document's start and end, text, a comment.
    Other,
    /// The document is not well-formed; no event follows this one.
    Failure { message: String },
}

/// An `Attribute` as a mathematical value.
pub struct AttributeView {
    pub name: Seq<char>,
    pub value: Seq<char>,
}

/// An `XmlItem` as a mathematical value.
pub enum XmlItemView {
    Start { name: Seq<char>, attributes: Seq<AttributeView> },
    End,
    Other,
    Failure { message: Seq<char> },
}

impl View for Attribute {
    type V = AttributeView;

    open spec fn view(&self) -> AttributeView {
        AttributeView { name: self.name@, value: self.value@ }
    }
}

impl DeepView for Attribute {
    type V = AttributeView;

    open spec fn deep_view(&self) -> AttributeView {
        self@
    }
}

impl View for XmlItem {
    type V = XmlItemView;

    open spec fn view(&self) -> XmlItemView {
        match self {
            XmlItem::Start { name, attributes } => XmlItemView::Start {
                name: name@,
                attributes: attributes.deep_view(),
            },
            XmlItem::End => XmlItemView::End,
            XmlItem::Other => XmlItemView::Other,
            XmlItem::Failure { message } => XmlItemView::Failure { message: message@ },
        }
    }
}

impl DeepView for XmlItem {
    type V = XmlItemView;

    open spec fn deep_view(&self) -> XmlItemView {
        self@
    }
}

/// The events that the XML parser reads from the bytes of a document, in
/// the order of the document, up to its end or to the first failure.
pub uninterp spec fn xml_events(content: Seq<u8>) -> Seq<XmlItemView>;

/// The attributes called `name`, in their order.
pub open spec fn attributes_named(attributes: Seq<AttributeView>, name: Seq<char>) -> Seq<
    AttributeView,
> {
    attributes.filter(|attribute: AttributeView| attribute.name == name)
}

/// The value of the first attribute called `name`, if there is one.
pub open spec fn attribute_value(attributes: Seq<AttributeView>, name: Seq<char>) -> Option<
    Seq<char>,
> {
    let matching = attributes_named(attributes, name);
    if matching.len() == 0 {
        None
    } else {
        Some(matching[0].value)
    }
}

/// Runs `xml::reader::EventReader` over the bytes of a document and collects
/// what its iterator yields, each event turned into an `XmlItem`: the local
/// names of an opening element and of its attributes with their values are
/// kept, a failure is kept by its text. The iterator ends after the end of the
/// document or after the first failure. The parse depends on the bytes alone,
/// so the contract names its result.
#[verifier::external_body]
pub(crate) fn read_events(content: &[u8]) -> (items: Vec<XmlItem>)
    ensures
        items.deep_view() == xml_events(content@),
{
    xml::reader::EventReader::new(content).into_iter().map(|event| match event {
        Ok(xml::reader::XmlEvent::StartElement { name, attributes, .. }) => XmlItem::Start {
            name: name.local_name,
            attributes: attributes.into_iter().map(|attribute| Attribute {
                name: attribute.name.local_name,
                value: attribute.value,
            }).collect(),
        },
        Ok(xml::reader::XmlEvent::EndElement { .. }) => XmlItem::End,
        Ok(_) => XmlItem::Other,
        Err(failure) => XmlItem::Failure { message: failure.to_string() },
    }).collect()
}

/// Looks up the value of the first attribute called `name`.
pub fn find_attribute(attributes: &Vec<Attribute>, name: &str) -> (value: Option<String>)
    ensures
        value.deep_view() == attribute_value(attributes.deep_view(), name@),
{
    let ghost all = attributes.deep_view();
    let ghost wanted = |attribute: AttributeView| attribute.name == name@;
    let sought = String::from_str(name);
    let mut i: usize = 0;
    assert(all.take(0) =~= Seq::empty());
    assert(all.take(0).filter(wanted) =~= Seq::empty()) by {
        reveal(Seq::filter);
    }
    while i < attributes.len()
        invariant
            i <= attributes.len(),
            all == attributes.deep_view(),
            sought@ == name@,
            wanted == |attribute: AttributeView| attribute.name == name@,
            all.take(i as int).filter(wanted).len() == 0,
        decreases attributes.len() - i,
    {
        let attribute = &attributes[i];
        proof {
            assert(all.take(i as int + 1) =~= all.take(i as int).push(attribute@));
            all.take(i as int).lemma_filter_push(attribute@, wanted);
        }
        if attribute.name == sought {
            proof {
                let head = all.take(i as int + 1);
                let tail = all.skip(i as int + 1);
                assert(head + tail =~= all);
                Seq::filter_distributes_over_add(head, tail, wanted);
                assert(head.filter(wanted) =~= seq![attribute@]);
            }
            return Some(attribute.value.clone());
        }
        i += 1;
    }
    assert(all.take(i as int) =~= all);
    None
}

} // verus!
