//! The forms of the page: what they show when they open, and what a
//! submission asks of the store.
//!
//! A form hands in the texts of its fields in the order in which it shows
//! them, or nothing where the user gave up. What follows is decided here;
//! showing the form and sending the action is left to the page.

use vstd::prelude::*;
use crate::cards::{Anchor, AnchorView, CardId, CardView, Cards, LinkId};
use vstd::std_specs::cmp::PartialEqSpecImpl;
use crate::store::{CardsHandler, CardsHandlerView};
use crate::text::{clone_option, same_option, text_view};

verus! {

/// One text field of a form: its label, the text it starts with and the
/// hint it shows while empty.
#[derive(Debug)]
pub struct Input {
    pub label: String,
    pub value: Option<String>,
    pub place_holder: Option<String>,
}

/// What an [`Input`] holds.
pub struct InputView {
    pub label: Seq<char>,
    pub value: Option<Seq<char>>,
    pub place_holder: Option<Seq<char>>,
}

impl View for Input {
    type V = InputView;

    open spec fn view(&self) -> InputView {
        InputView {
            label: self.label@,
            value: text_view(self.value),
            place_holder: text_view(self.place_holder),
        }
    }
}

impl Input {
    /// A field with a label, without a starting text and without a hint.
    pub fn new(label: String) -> (input: Input)
        ensures
            input@ == (InputView { label: label@, value: None, place_holder: None }),
    {
        Input { label, value: None, place_holder: None }
    }

    /// The same field, starting with `value`.
    pub fn value(self, value: String) -> (input: Input)
        ensures
            input@ == (InputView {
                label: self@.label,
                value: Some(value@),
                place_holder: self@.place_holder,
            }),
    {
        let mut input = self;
        input.value = Some(value);
        input
    }

    /// The same field, showing `place_holder` while it is empty.
    pub fn place_holder(self, place_holder: String) -> (input: Input)
        ensures
            input@ == (InputView {
                label: self@.label,
                value: self@.value,
                place_holder: Some(place_holder@),
            }),
    {
        let mut input = self;
        input.place_holder = Some(place_holder);
        input
    }
}

impl Clone for Input {
    fn clone(&self) -> (res: Self)
        ensures
            res@ == self@,
    {
        Input {
            label: self.label.clone(),
            value: clone_option(&self.value),
            place_holder: clone_option(&self.place_holder),
        }
    }
}

impl PartialEq for Input {
    fn eq(&self, other: &Self) -> (r: bool) {
        self.label == other.label && same_option(&self.value, &other.value) && same_option(
            &self.place_holder,
            &other.place_holder,
        )
    }
}

impl PartialEqSpecImpl for Input {
    open spec fn obeys_eq_spec() -> bool {
        true
    }

    open spec fn eq_spec(&self, other: &Self) -> bool {
        self@ == other@
    }
}

/// What the card form was opened for.
#[derive(Clone, Copy, Debug, PartialEq, Eq, Structural)]
pub enum CardFormAct {
    /// A new card.
    Add,
    /// Another name for the card at this position.
    Rename(CardId),
}

/// What the link form was opened for.
#[derive(Clone, Copy, Debug, PartialEq, Eq, Structural)]
pub enum LinkFormAct {
    /// A new link in the card at this position.
    Add(CardId),
    /// Other texts for this link.
    Edit(LinkId),
}

/// What becomes of a form after a submission.
#[derive(Debug)]
pub enum Submission {
    /// The form stays open and nothing is sent.
    Stay,
    /// The form closes and nothing is sent.
    Close,
    /// The action is sent to the store and the form closes.
    Dispatch(CardsHandler),
}

/// What a [`Submission`] holds.
pub enum SubmissionView {
    Stay,
    Close,
    Dispatch(CardsHandlerView),
}

impl View for Submission {
    type V = SubmissionView;

    open spec fn view(&self) -> SubmissionView {
        match *self {
            Submission::Stay => SubmissionView::Stay,
            Submission::Close => SubmissionView::Close,
            Submission::Dispatch(action) => SubmissionView::Dispatch(action@),
        }
    }
}

impl Clone for Submission {
    fn clone(&self) -> (res: Self)
        ensures
            res@ == self@,
    {
        match self {
            Submission::Stay => Submission::Stay,
            Submission::Close => Submission::Close,
            Submission::Dispatch(action) => Submission::Dispatch(action.clone()),
        }
    }
}

impl PartialEq for Submission {
    fn eq(&self, other: &Self) -> (r: bool) {
        match (self, other) {
            (Submission::Stay, Submission::Stay) => true,
            (Submission::Close, Submission::Close) => true,
            (Submission::Dispatch(a), Submission::Dispatch(b)) => *a == *b,
            _ => false,
        }
    }
}

impl PartialEqSpecImpl for Submission {
    open spec fn obeys_eq_spec() -> bool {
        true
    }

    open spec fn eq_spec(&self, other: &Self) -> bool {
        self@ == other@
    }
}

/// The texts of the fields of a form, in order.
pub open spec fn texts(values: Seq<String>) -> Seq<Seq<char>> {
    values.map_values(|t: String| t@)
}

/// The texts that a form hands in, where it hands in any.
pub open spec fn option_texts(values: Option<Vec<String>>) -> Option<Seq<Seq<char>>> {
    match values {
        Some(v) => Some(texts(v@)),
        None => None,
    }
}

/// The text that stands `back` places before the last one, or the empty
/// text where there are not that many.
pub open spec fn from_end(values: Seq<Seq<char>>, back: int) -> Seq<char> {
    if 0 <= back < values.len() {
        values[values.len() - 1 - back]
    } else {
        Seq::empty()
    }
}

/// A text as an optional one: none where it is empty.
pub open spec fn given(text: Seq<char>) -> Option<Seq<char>> {
    if text.len() == 0 {
        None
    } else {
        Some(text)
    }
}

/// What a submission of the card form does. Without texts, or with a form
/// that was opened for nothing, the form closes. With an empty or missing
/// first text the form stays open. Else the first text is the name of the new
/// card, or the new name of the card that the form was opened for.
pub open spec fn card_submission(
    values: Option<Seq<Seq<char>>>,
    form: Option<CardFormAct>,
) -> SubmissionView {
    match (values, form) {
        (Some(values), Some(form)) => if values.len() == 0 || values[0].len() == 0 {
            SubmissionView::Stay
        } else {
            SubmissionView::Dispatch(
                match form {
                    CardFormAct::Add => CardsHandlerView::Add(values[0]),
                    CardFormAct::Rename(card) => CardsHandlerView::Rename {
                        card,
                        new_name: values[0],
                    },
                },
            )
        },
        _ => SubmissionView::Close,
    }
}

/// What a submission of the link form does. Without texts, or with a form
/// that was opened for nothing, the form closes. The url is the last text and
/// the label the one before it; where both are empty the form stays open.
/// Else a new link gets both texts, and an edit gets each text that is not
/// empty.
pub open spec fn link_submission(
    values: Option<Seq<Seq<char>>>,
    form: Option<LinkFormAct>,
) -> SubmissionView {
    match (values, form) {
        (Some(values), Some(form)) => {
            let url = from_end(values, 0);
            let label = from_end(values, 1);
            if url.len() == 0 && label.len() == 0 {
                SubmissionView::Stay
            } else {
                SubmissionView::Dispatch(
                    match form {
                        LinkFormAct::Add(card_index) => CardsHandlerView::AddLink {
                            card_index,
                            link: AnchorView { label, url },
                        },
                        LinkFormAct::Edit(link) => CardsHandlerView::EditLink {
                            link,
                            new_label: given(label),
                            new_url: given(url),
                        },
                    },
                )
            }
        },
        _ => SubmissionView::Close,
    }
}

/// The user name that a submission of the name form sets: the first text,
/// or the empty text where there is none; nothing where the user gave up.
pub open spec fn name_submission(values: Option<Seq<Seq<char>>>) -> Option<Seq<char>> {
    match values {
        Some(values) => Some(
            if values.len() == 0 {
                Seq::empty()
            } else {
                values[0]
            },
        ),
        None => None,
    }
}

/// The card form never sends an empty name: what it sends is an `Add` or a
/// `Rename` for the card it was opened for, with the first text as the name,
/// and that text is not empty.
pub proof fn card_form_sends_a_name(values: Option<Seq<Seq<char>>>, form: Option<CardFormAct>)
    ensures
        match card_submission(values, form) {
            SubmissionView::Dispatch(CardsHandlerView::Add(name)) => {
                &&& form == Some(CardFormAct::Add)
                &&& name.len() > 0
                &&& name == values.unwrap()[0]
            },
            SubmissionView::Dispatch(CardsHandlerView::Rename { card, new_name }) => {
                &&& form == Some(CardFormAct::Rename(card))
                &&& new_name.len() > 0
                &&& new_name == values.unwrap()[0]
            },
            SubmissionView::Dispatch(_) => false,
            _ => true,
        },
{
}

/// An edit that the link form sends brings at least one text, and no empty
/// one: the store changes the link with it.
pub proof fn link_form_sends_a_text(values: Option<Seq<Seq<char>>>, link: LinkId)
    ensures
        match link_submission(values, Some(LinkFormAct::Edit(link))) {
            SubmissionView::Dispatch(
                CardsHandlerView::EditLink { link: sent, new_label, new_url },
            ) => {
                &&& sent == link
                &&& new_label is Some || new_url is Some
                &&& new_label matches Some(text) ==> text.len() > 0
                &&& new_url matches Some(text) ==> text.len() > 0
            },
            SubmissionView::Dispatch(_) => false,
            _ => true,
        },
{
}

/// Takes the last text out of `values`, or hands out the empty text where
/// there is none.
fn pop_or_empty(values: &mut Vec<String>) -> (text: String)
    ensures
        text@ == from_end(texts(old(values)@), 0),
        final(values)@ == old(values)@.take(
            if old(values)@.len() == 0 {
                0
            } else {
                old(values)@.len() - 1
            },
        ),
{
    match values.pop() {
        Some(text) => text,
        None => String::new(),
    }
}

/// A text as an optional one: none where it is empty.
fn given_text(text: String) -> (out: Option<String>)
    ensures
        text_view(out) == given(text@),
{
    if text.as_str().is_empty() {
        None
    } else {
        Some(text)
    }
}

/// Decides what a submission of the card form does.
pub fn change_card(values: Option<Vec<String>>, form: Option<CardFormAct>) -> (outcome: Submission)
    ensures
        outcome@ == card_submission(option_texts(values), form),
{
    match (values, form) {
        (Some(values), Some(form)) => {
            let mut values = values;
            if values.len() == 0 {
                return Submission::Stay;
            }
            let name = values.remove(0);
            if name.as_str().is_empty() {
                return Submission::Stay;
            }
            match form {
                CardFormAct::Add => Submission::Dispatch(CardsHandler::Add(name)),
                CardFormAct::Rename(card) => Submission::Dispatch(
                    CardsHandler::Rename { card, new_name: name },
                ),
            }
        },
        _ => Submission::Close,
    }
}

/// Decides what a submission of the link form does.
pub fn change_link(values: Option<Vec<String>>, form: Option<LinkFormAct>) -> (outcome: Submission)
    ensures
        outcome@ == link_submission(option_texts(values), form),
{
    match (values, form) {
        (Some(values), Some(form)) => {
            let mut values = values;
            let url = pop_or_empty(&mut values);
            let label = pop_or_empty(&mut values);
            if url.as_str().is_empty() && label.as_str().is_empty() {
                return Submission::Stay;
            }
            match form {
                LinkFormAct::Add(card_index) => Submission::Dispatch(
                    CardsHandler::AddLink { card_index, link: Anchor { label, url } },
                ),
                LinkFormAct::Edit(link) => Submission::Dispatch(
                    CardsHandler::EditLink {
                        link,
                        new_label: given_text(label),
                        new_url: given_text(url),
                    },
                ),
            }
        },
        _ => Submission::Close,
    }
}

/// Decides what a submission of the name form sets the user name to. The
/// form closes in either case.
pub fn save_name(values: Option<Vec<String>>) -> (name: Option<String>)
    ensures
        text_view(name) == name_submission(option_texts(values)),
{
    match values {
        Some(values) => {
            let mut values = values;
            if values.len() == 0 {
                Some(String::new())
            } else {
                Some(values.remove(0))
            }
        },
        None => None,
    }
}

/// The text that the card form starts with: the name of the card that it
/// was opened to rename, where there is such a card, else the empty text.
pub open spec fn card_form_text(cards: Seq<CardView>, form: Option<CardFormAct>) -> Seq<char> {
    match form {
        Some(CardFormAct::Rename(card)) => if card < cards.len() {
            cards[card as int].name
        } else {
            Seq::empty()
        },
        _ => Seq::empty(),
    }
}

/// The link that the link form starts with: the one that it was opened to
/// edit, where there is such a link, else a link of two empty texts.
pub open spec fn link_form_texts(cards: Seq<CardView>, form: Option<LinkFormAct>) -> AnchorView {
    match form {
        Some(LinkFormAct::Edit(link)) => if link.card < cards.len() && link.link
            < cards[link.card as int].links.len() {
            cards[link.card as int].links[link.link as int]
        } else {
            AnchorView { label: Seq::empty(), url: Seq::empty() }
        },
        _ => AnchorView { label: Seq::empty(), url: Seq::empty() },
    }
}

/// A field with a label and a starting text, and no hint.
pub open spec fn field(label: Seq<char>, value: Seq<char>) -> InputView {
    InputView { label, value: Some(value), place_holder: None }
}

/// The one field of the card form.
pub fn card_form_inputs(cards: &Cards, form: Option<CardFormAct>) -> (inputs: Vec<Input>)
    ensures
        inputs.len() == 1,
        inputs[0]@ == field("New card name:"@, card_form_text(cards@, form)),
{
    let name = match form {
        Some(CardFormAct::Rename(card)) => if card < cards.inner.len() {
            cards.inner[card].name.clone()
        } else {
            String::new()
        },
        _ => String::new(),
    };
    let mut inputs: Vec<Input> = Vec::new();
    inputs.push(Input::new("New card name:".to_owned()).value(name));
    inputs
}

/// The two fields of the link form: the label, then the url.
pub fn link_form_inputs(cards: &Cards, form: Option<LinkFormAct>) -> (inputs: Vec<Input>)
    ensures
        inputs.len() == 2,
        inputs[0]@ == field("Label:"@, link_form_texts(cards@, form).label),
        inputs[1]@ == field("URL:"@, link_form_texts(cards@, form).url),
{
    let mut label = String::new();
    let mut url = String::new();
    if let Some(LinkFormAct::Edit(link)) = form {
        if link.card < cards.inner.len() {
            if link.link < cards.inner[link.card].links.len() {
                label = cards.inner[link.card].links[link.link].label.clone();
                url = cards.inner[link.card].links[link.link].url.clone();
            }
        }
    }
    let mut inputs: Vec<Input> = Vec::new();
    inputs.push(Input::new("Label:".to_owned()).value(label));
    inputs.push(Input::new("URL:".to_owned()).value(url));
    inputs
}

/// The one field of the name form, which starts with the current user name.
pub fn name_form_inputs(user_name: String) -> (inputs: Vec<Input>)
    ensures
        inputs.len() == 1,
        inputs[0]@ == field("Your user name:"@, user_name@),
{
    let mut inputs: Vec<Input> = Vec::new();
    inputs.push(Input::new("Your user name:".to_owned()).value(user_name));
    inputs
}

} // verus!
