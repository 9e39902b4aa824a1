//! Document operations that components ask for, such as injecting stylesheets.
//!
//! A component's request becomes a message. The messages queue up while components run, and the
//! window handler applies them before the next layout.

use vstd::prelude::*;
use vstd::utf8::encode_utf8;

use crate::text::{same_text, text_view};

verus! {

/// A message from a component to the window handler.
pub enum DocumentMessage {
    /// Adds an element to the document's head.
    CreateHeadElement {
        name: String,
        attributes: Vec<(String, String)>,
        contents: Option<String>,
    },
}

/// The contents of a [`DocumentMessage`].
pub struct HeadElement {
    pub name: Seq<char>,
    pub attributes: Seq<(Seq<char>, Seq<char>)>,
    pub contents: Option<Seq<char>>,
}

impl View for DocumentMessage {
    type V = HeadElement;

    open spec fn view(&self) -> HeadElement {
        match self {
            DocumentMessage::CreateHeadElement { name, attributes, contents } => HeadElement {
                name: name@,
                attributes: attributes@.map_values(|a: (String, String)| (a.0@, a.1@)),
                contents: text_view(*contents),
            },
        }
    }
}

/// The names and values of some attributes.
pub open spec fn attributes_view(attributes: Seq<(&str, String)>) -> Seq<(Seq<char>, Seq<char>)> {
    attributes.map_values(|a: (&str, String)| (a.0@, a.1@))
}

/// The element that sets a title.
pub open spec fn title_element(title: Seq<char>) -> HeadElement {
    HeadElement { name: "title"@, attributes: Seq::empty(), contents: Some(title) }
}

/// A `<meta>` element.
pub open spec fn meta_element(attributes: Seq<(Seq<char>, Seq<char>)>) -> HeadElement {
    HeadElement { name: "meta"@, attributes, contents: None }
}

/// A `<script>` element.
pub open spec fn script_element(
    attributes: Seq<(Seq<char>, Seq<char>)>,
    contents: Option<Seq<char>>,
) -> HeadElement {
    HeadElement { name: "script"@, attributes, contents }
}

/// A `<style>` element.
pub open spec fn style_element(
    attributes: Seq<(Seq<char>, Seq<char>)>,
    contents: Option<Seq<char>>,
) -> HeadElement {
    HeadElement { name: "style"@, attributes, contents }
}

/// A `<link>` element.
pub open spec fn link_element(attributes: Seq<(Seq<char>, Seq<char>)>) -> HeadElement {
    HeadElement { name: "link"@, attributes, contents: None }
}

/// Turns the document operations of components into messages.
#[derive(Clone)]
pub struct DocumentProxy<S> {
    /// Where the messages are sent.
    pub sender: S,
}

impl<S> DocumentProxy<S> {
    pub fn new(sender: S) -> (r: DocumentProxy<S>)
        ensures
            r.sender == sender,
    {
        DocumentProxy { sender }
    }

    /// The message that adds an element to the head.
    pub fn create_head_element(
        &self,
        name: &str,
        attributes: &[(&str, String)],
        contents: Option<String>,
    ) -> (r: DocumentMessage)
        ensures
            r@ == (HeadElement {
                name: name@,
                attributes: attributes_view(attributes@),
                contents: text_view(contents),
            }),
    {
        let mut copied: Vec<(String, String)> = Vec::new();
        let mut i: usize = 0;
        while i < attributes.len()
            invariant
                i <= attributes.len(),
                copied@.map_values(|a: (String, String)| (a.0@, a.1@)) == attributes_view(
                    attributes@,
                ).take(i as int),
            decreases attributes.len() - i,
        {
            let ghost before = copied@;
            copied.push((attributes[i].0.to_owned(), attributes[i].1.clone()));
            proof {
                assert(copied@.map_values(|a: (String, String)| (a.0@, a.1@)) =~= before.map_values(
                    |a: (String, String)| (a.0@, a.1@),
                ).push(attributes_view(attributes@)[i as int]));
                assert(attributes_view(attributes@).take(i + 1) =~= attributes_view(
                    attributes@,
                ).take(i as int).push(attributes_view(attributes@)[i as int]));
            }
            i = i + 1;
        }
        proof {
            assert(attributes_view(attributes@).take(i as int) =~= attributes_view(attributes@));
        }
        DocumentMessage::CreateHeadElement { name: name.to_owned(), attributes: copied, contents }
    }

    /// Sets the title.
    pub fn set_title(&self, title: String) -> (r: DocumentMessage)
        ensures
            r@ == (HeadElement { name: "title"@, attributes: Seq::empty(), contents: Some(title@) }),
            r@ == title_element(title@),
    {
        let message: DocumentMessage = self.create_head_element("title", &[], Some(title));
        proof {
            assert(message@.attributes =~= Seq::empty());
        }
        message
    }

    /// Adds a `<meta>` element.
    pub fn create_meta(&self, attributes: &[(&str, String)]) -> (r: DocumentMessage)
        ensures
            r@ == (HeadElement {
                name: "meta"@,
                attributes: attributes_view(attributes@),
                contents: None,
            }),
            r@ == meta_element(attributes_view(attributes@)),
    {
        self.create_head_element("meta", attributes, None)
    }

    /// Adds a `<script>` element.
    pub fn create_script(&self, attributes: &[(&str, String)], contents: Option<String>)
        -> (r: DocumentMessage)
        ensures
            r@ == (HeadElement {
                name: "script"@,
                attributes: attributes_view(attributes@),
                contents: text_view(contents),
            }),
            r@ == script_element(attributes_view(attributes@), text_view(contents)),
    {
        self.create_head_element("script", attributes, contents)
    }

    /// Adds a `<style>` element.
    pub fn create_style(&self, attributes: &[(&str, String)], contents: Option<String>)
        -> (r: DocumentMessage)
        ensures
            r@ == (HeadElement {
                name: "style"@,
                attributes: attributes_view(attributes@),
                contents: text_view(contents),
            }),
            r@ == style_element(attributes_view(attributes@), text_view(contents)),
    {
        self.create_head_element("style", attributes, contents)
    }

    /// Adds a `<link>` element.
    pub fn create_link(&self, attributes: &[(&str, String)]) -> (r: DocumentMessage)
        ensures
            r@ == (HeadElement {
                name: "link"@,
                attributes: attributes_view(attributes@),
                contents: None,
            }),
            r@ == link_element(attributes_view(attributes@)),
    {
        self.create_head_element("link", attributes, None)
    }

    /// Runs a script. Scripts are not supported: there is no message, and nothing to wait for.
    pub fn eval(&self, _js: String) -> (r: Option<DocumentMessage>)
        ensures
            r is None,
    {
        None
    }

    /// Whether head components are created: they always are.
    pub fn create_head_component(&self) -> (r: bool)
        ensures
            r,
    {
        true
    }
}

/// How many head elements were applied, and how many bytes of style they held.
#[derive(Clone, Copy, Debug, PartialEq, Eq, Structural)]
pub struct HeadTally {
    pub elements: usize,
    pub style_bytes: usize,
}

/// The bytes of style that an element holds: those of its contents, where it is a `<style>`.
pub open spec fn style_length(element: HeadElement) -> nat {
    if element.name == "style"@ {
        match element.contents {
            Some(text) => encode_utf8(text).len(),
            None => 0,
        }
    } else {
        0
    }
}

/// The bytes of style that some elements hold.
pub open spec fn style_total(elements: Seq<HeadElement>) -> nat
    decreases elements.len(),
{
    if elements.len() == 0 {
        0
    } else {
        style_total(elements.drop_last()) + style_length(elements.last())
    }
}

/// What to do with what the queue of messages gave.
pub enum HeadAction {
    /// Create this head element, then ask the queue again.
    Create(DocumentMessage),
    /// The queue is empty: stop.
    Done,
}

/// The contents of a [`HeadAction`].
pub enum HeadActionView {
    Create(HeadElement),
    Done,
}

impl View for HeadAction {
    type V = HeadActionView;

    open spec fn view(&self) -> HeadActionView {
        match self {
            HeadAction::Create(message) => HeadActionView::Create(message@),
            HeadAction::Done => HeadActionView::Done,
        }
    }
}

/// What to do with what the queue gave: a message is applied, and an empty queue ends the delivery.
pub open spec fn head_action(received: Option<HeadElement>) -> HeadActionView {
    match received {
        Some(element) => HeadActionView::Create(element),
        None => HeadActionView::Done,
    }
}

/// The element that a message asks for, where there is a message.
pub open spec fn message_view(message: Option<DocumentMessage>) -> Option<HeadElement> {
    match message {
        Some(m) => Some(m@),
        None => None,
    }
}

/// What a queue gives next, if it holds anything.
pub open spec fn next_in(queue: Seq<HeadElement>) -> Option<HeadElement> {
    if queue.len() == 0 {
        None
    } else {
        Some(queue.first())
    }
}

/// The elements that are created when a queue is delivered, in order.
pub open spec fn created_from(queue: Seq<HeadElement>) -> Seq<HeadElement>
    decreases queue.len(),
{
    match head_action(next_in(queue)) {
        HeadActionView::Create(element) => if queue.len() == 0 {
            seq![element]
        } else {
            seq![element] + created_from(queue.drop_first())
        },
        HeadActionView::Done => seq![],
    }
}

/// What is left of a queue when its delivery has ended.
pub open spec fn left_in(queue: Seq<HeadElement>) -> Seq<HeadElement>
    decreases queue.len(),
{
    match head_action(next_in(queue)) {
        HeadActionView::Create(_) => if queue.len() == 0 {
            queue
        } else {
            left_in(queue.drop_first())
        },
        HeadActionView::Done => queue,
    }
}

impl HeadTally {
    /// Whether an element can be counted.
    pub open spec fn has_room(self, element: HeadElement) -> bool {
        &&& self.elements < usize::MAX
        &&& self.style_bytes + style_length(element) <= usize::MAX
    }

    /// Takes in what the queue of messages gave, and says what to do with it. A delivery asks the
    /// queue again after each element.
    pub fn received(&mut self, message: Option<DocumentMessage>) -> (r: HeadAction)
        requires
            message matches Some(m) ==> old(self).has_room(m@),
        ensures
            r@ == head_action(message_view(message)),
            match message_view(message) {
                Some(element) => {
                    &&& final(self).elements == old(self).elements + 1
                    &&& final(self).style_bytes == old(self).style_bytes + style_length(element)
                    &&& forall|elements: Seq<HeadElement>| #[trigger]
                        old(self).counts(elements) ==> final(self).counts(elements.push(element))
                },
                None => *final(self) == *old(self),
            },
    {
        match message {
            Some(m) => {
                self.record(&m);
                HeadAction::Create(m)
            },
            None => HeadAction::Done,
        }
    }

    /// The tally of these elements.
    pub open spec fn counts(self, elements: Seq<HeadElement>) -> bool {
        self.elements == elements.len() && self.style_bytes == style_total(elements)
    }

    /// The tally before any element was applied.
    pub fn new() -> (r: HeadTally)
        ensures
            r.counts(Seq::empty()),
            r.elements == 0,
            r.style_bytes == 0,
    {
        HeadTally { elements: 0, style_bytes: 0 }
    }

    /// Counts an element that is applied.
    pub fn record(&mut self, message: &DocumentMessage)
        requires
            old(self).elements < usize::MAX,
            style_length(message@) <= usize::MAX,
            old(self).style_bytes + style_length(message@) <= usize::MAX,
        ensures
            final(self).elements == old(self).elements + 1,
            final(self).style_bytes == old(self).style_bytes + style_length(message@),
            forall|elements: Seq<HeadElement>| #[trigger]
                old(self).counts(elements) ==> final(self).counts(elements.push(message@)),
    {
        let DocumentMessage::CreateHeadElement { name, contents, .. } = message;
        self.elements = self.elements + 1;
        if same_text(name.as_str(), "style") {
            match contents {
                Some(text) => {
                    let length: usize = text.as_str().len();
                    self.style_bytes = self.style_bytes + length;
                },
                None => {},
            }
        }
        proof {
            assert forall|elements: Seq<HeadElement>| #[trigger]
                old(self).counts(elements) implies self.counts(elements.push(message@)) by {
                recording_extends_the_tally(*old(self), *self, elements, message@);
            }
        }
    }

    /// Whether the tally of a frame is worth reporting.
    pub fn is_empty(self) -> (r: bool)
        ensures
            r == (self.elements == 0),
    {
        self.elements == 0
    }
}

/// Recording each element in turn counts them all.
pub proof fn recording_extends_the_tally(
    before: HeadTally,
    after: HeadTally,
    elements: Seq<HeadElement>,
    next: HeadElement,
)
    requires
        before.counts(elements),
        after.elements == before.elements + 1,
        after.style_bytes == before.style_bytes + style_length(next),
    ensures
        after.counts(elements.push(next)),
{
    assert(elements.push(next).drop_last() =~= elements);
}

/// A delivery creates every element that is queued once, in the order in which they were queued, and
/// leaves none behind.
pub proof fn every_queued_element_is_created(queue: Seq<HeadElement>)
    ensures
        created_from(queue) == queue,
        left_in(queue).len() == 0,
    decreases queue.len(),
{
    if queue.len() > 0 {
        every_queued_element_is_created(queue.drop_first());
        assert(seq![queue.first()] + queue.drop_first() =~= queue);
    }
}

/// The bytes of style that an element holds are the bytes of its contents in UTF-8 where it is a
/// `<style>`; no other element holds any, nor does one without contents.
pub proof fn only_styles_hold_style(element: HeadElement, text: Seq<char>)
    ensures
        element.name == "style"@ && element.contents == Some(text) ==> style_length(element)
            == encode_utf8(text).len(),
        element.name != "style"@ ==> style_length(element) == 0,
        element.contents is None ==> style_length(element) == 0,
{
}

/// Elements that are applied in two batches hold as much style as those of both batches together,
/// and one element as much as itself.
pub proof fn batches_add_up(first: Seq<HeadElement>, second: Seq<HeadElement>, element: HeadElement)
    ensures
        style_total(first + second) == style_total(first) + style_total(second),
        style_total(seq![element]) == style_length(element),
        style_total(seq![]) == 0,
    decreases second.len(),
{
    reveal_with_fuel(style_total, 2);
    assert(seq![element].drop_last() =~= seq![]);
    if second.len() == 0 {
        assert(first + second =~= first);
    } else {
        batches_add_up(first, second.drop_last(), element);
        assert((first + second).drop_last() =~= first + second.drop_last());
        assert((first + second).last() == second.last());
    }
}

/// A tally counts elements where it has their number and the bytes of style that they hold.
pub proof fn a_tally_has_both_counts(tally: HeadTally, elements: Seq<HeadElement>)
    ensures
        tally.counts(elements) <==> tally.elements == elements.len() && tally.style_bytes
            == style_total(elements),
{
}

/// A message asks for the element that it holds: the same name, the same attributes in the same
/// order, the same contents.
pub proof fn a_message_is_handed_over_whole(message: DocumentMessage, i: int)
    ensures
        message matches DocumentMessage::CreateHeadElement { name, attributes, contents } ==> {
            &&& message@.name == name@
            &&& message@.attributes.len() == attributes@.len()
            &&& 0 <= i < attributes@.len() ==> message@.attributes[i].0 == attributes@[i].0@
                && message@.attributes[i].1 == attributes@[i].1@
            &&& contents matches Some(text) ==> message@.contents == Some(text@)
            &&& contents is None ==> message@.contents is None
        },
{
}

/// Attributes are passed on one by one: as many as there are, each with its name and its value.
pub proof fn attributes_are_passed_on(attributes: Seq<(&str, String)>, i: int)
    ensures
        attributes_view(attributes).len() == attributes.len(),
        0 <= i < attributes.len() ==> attributes_view(attributes)[i].0 == attributes[i].0@
            && attributes_view(attributes)[i].1 == attributes[i].1@,
{
}

/// Each operation of a component asks for the element of its own kind, with the attributes that it
/// was given. Only a title, a script and a style have contents, and those are the ones given.
pub proof fn each_operation_asks_for_its_element(
    attributes: Seq<(Seq<char>, Seq<char>)>,
    contents: Option<Seq<char>>,
    title: Seq<char>,
)
    ensures
        title_element(title).name == "title"@,
        title_element(title).attributes.len() == 0,
        title_element(title).contents == Some(title),
        meta_element(attributes).name == "meta"@,
        meta_element(attributes).attributes == attributes,
        meta_element(attributes).contents is None,
        script_element(attributes, contents).name == "script"@,
        script_element(attributes, contents).attributes == attributes,
        script_element(attributes, contents).contents == contents,
        style_element(attributes, contents).name == "style"@,
        style_element(attributes, contents).attributes == attributes,
        style_element(attributes, contents).contents == contents,
        link_element(attributes).name == "link"@,
        link_element(attributes).attributes == attributes,
        link_element(attributes).contents is None,
{
}

/// What the queue gave is taken as it is: a message by the element that it asks for, and nothing as
/// nothing.
pub proof fn what_was_received_is_taken_whole(message: DocumentMessage)
    ensures
        message_view(Some(message)) == Some(message@),
        message_view(None) is None,
        HeadAction::Create(message)@ == HeadActionView::Create(message@),
        HeadAction::Done@ is Done,
{
}

/// An element can be counted as long as both counts, with it, fit a machine word.
pub proof fn there_is_room_while_the_counts_fit(tally: HeadTally, element: HeadElement)
    ensures
        element.name != "style"@ || element.contents is None ==> (tally.has_room(element)
            <==> tally.elements + 1 <= usize::MAX),
        element.name == "style"@ ==> (element.contents matches Some(text) ==> (tally.has_room(
            element,
        ) <==> tally.elements + 1 <= usize::MAX && tally.style_bytes + encode_utf8(text).len()
            <= usize::MAX)),
{
}

} // verus!
