//! The store: the actions on the collection and the reducer that applies one.
//!
//! A snapshot is never changed in place. [`Cards::reduce`] reads the current
//! snapshot and hands out the next one, or the position that the action names
//! and the snapshot does not have. What the next snapshot holds is given by
//! [`effect`], a function on views.

use vstd::prelude::*;
use vstd::std_specs::cmp::PartialEqSpecImpl;
use crate::cards::{
    anchor_views, card_views, Anchor, AnchorView, Card, CardId, CardView, Cards, LinkId, LinkPos,
};
use crate::text::{clone_option, same_option, text_view};

verus! {

/// A change to the collection.
#[allow(inconsistent_fields)]
#[derive(Debug)]
pub enum CardsHandler {
    /// Appends a card without links. An empty name changes nothing.
    Add(String),
    /// Removes the card at this position.
    Remove(CardId),
    /// Gives a card another name. An empty name changes nothing.
    Rename { card: CardId, new_name: String },
    /// Exchanges two cards.
    Swap { card1: CardId, card2: CardId },
    /// Appends a link to a card. A link with an empty label or an empty url
    /// changes nothing.
    AddLink { card_index: CardId, link: Anchor },
    /// Removes one link.
    RemoveLink(LinkId),
    /// Replaces the label, the url or both of one link. A text that is
    /// absent or empty leaves its field as it is.
    EditLink { link: LinkId, new_label: Option<String>, new_url: Option<String> },
    /// Exchanges two links of one card.
    SwapLinks { card: CardId, link1: LinkPos, link2: LinkPos },
}

/// What a [`CardsHandler`] holds.
#[allow(inconsistent_fields)]
pub enum CardsHandlerView {
    Add(Seq<char>),
    Remove(CardId),
    Rename { card: CardId, new_name: Seq<char> },
    Swap { card1: CardId, card2: CardId },
    AddLink { card_index: CardId, link: AnchorView },
    RemoveLink(LinkId),
    EditLink { link: LinkId, new_label: Option<Seq<char>>, new_url: Option<Seq<char>> },
    SwapLinks { card: CardId, link1: LinkPos, link2: LinkPos },
}

impl View for CardsHandler {
    type V = CardsHandlerView;

    open spec fn view(&self) -> CardsHandlerView {
        match *self {
            CardsHandler::Add(name) => CardsHandlerView::Add(name@),
            CardsHandler::Remove(card) => CardsHandlerView::Remove(card),
            CardsHandler::Rename { card, new_name } => CardsHandlerView::Rename {
                card,
                new_name: new_name@,
            },
            CardsHandler::Swap { card1, card2 } => CardsHandlerView::Swap { card1, card2 },
            CardsHandler::AddLink { card_index, link } => CardsHandlerView::AddLink {
                card_index,
                link: link@,
            },
            CardsHandler::RemoveLink(link) => CardsHandlerView::RemoveLink(link),
            CardsHandler::EditLink { link, new_label, new_url } => CardsHandlerView::EditLink {
                link,
                new_label: text_view(new_label),
                new_url: text_view(new_url),
            },
            CardsHandler::SwapLinks { card, link1, link2 } => CardsHandlerView::SwapLinks {
                card,
                link1,
                link2,
            },
        }
    }
}

impl Clone for CardsHandler {
    fn clone(&self) -> (res: Self)
        ensures
            res@ == self@,
    {
        match self {
            CardsHandler::Add(name) => CardsHandler::Add(name.clone()),
            CardsHandler::Remove(card) => CardsHandler::Remove(*card),
            CardsHandler::Rename { card, new_name } => CardsHandler::Rename {
                card: *card,
                new_name: new_name.clone(),
            },
            CardsHandler::Swap { card1, card2 } => CardsHandler::Swap {
                card1: *card1,
                card2: *card2,
            },
            CardsHandler::AddLink { card_index, link } => CardsHandler::AddLink {
                card_index: *card_index,
                link: link.clone(),
            },
            CardsHandler::RemoveLink(link) => CardsHandler::RemoveLink(*link),
            CardsHandler::EditLink { link, new_label, new_url } => CardsHandler::EditLink {
                link: *link,
                new_label: clone_option(new_label),
                new_url: clone_option(new_url),
            },
            CardsHandler::SwapLinks { card, link1, link2 } => CardsHandler::SwapLinks {
                card: *card,
                link1: *link1,
                link2: *link2,
            },
        }
    }
}

impl PartialEq for CardsHandler {
    fn eq(&self, other: &Self) -> (r: bool) {
        match (self, other) {
            (CardsHandler::Add(a), CardsHandler::Add(b)) => *a == *b,
            (CardsHandler::Remove(a), CardsHandler::Remove(b)) => *a == *b,
            (
                CardsHandler::Rename { card: a, new_name: x },
                CardsHandler::Rename { card: b, new_name: y },
            ) => *a == *b && *x == *y,
            (
                CardsHandler::Swap { card1: a1, card2: a2 },
                CardsHandler::Swap { card1: b1, card2: b2 },
            ) => *a1 == *b1 && *a2 == *b2,
            (
                CardsHandler::AddLink { card_index: a, link: x },
                CardsHandler::AddLink { card_index: b, link: y },
            ) => *a == *b && *x == *y,
            (CardsHandler::RemoveLink(a), CardsHandler::RemoveLink(b)) => *a == *b,
            (
                CardsHandler::EditLink { link: a, new_label: x1, new_url: x2 },
                CardsHandler::EditLink { link: b, new_label: y1, new_url: y2 },
            ) => *a == *b && same_option(x1, y1) && same_option(x2, y2),
            (
                CardsHandler::SwapLinks { card: a, link1: a1, link2: a2 },
                CardsHandler::SwapLinks { card: b, link1: b1, link2: b2 },
            ) => *a == *b && *a1 == *b1 && *a2 == *b2,
            _ => false,
        }
    }
}

impl PartialEqSpecImpl for CardsHandler {
    open spec fn obeys_eq_spec() -> bool {
        true
    }

    open spec fn eq_spec(&self, other: &Self) -> bool {
        self@ == other@
    }
}

/// A position that an action names and the collection does not have.
#[derive(Clone, Copy, Debug, PartialEq, Eq, Structural)]
pub enum IndexError {
    /// There is no card at this position.
    Card(CardId),
    /// The card is there, and it has no link at this position.
    Link(LinkId),
}

/// The fault of naming the card at `card`, if there is none.
pub open spec fn card_fault(cards: Seq<CardView>, card: CardId) -> Option<IndexError> {
    if card < cards.len() {
        None
    } else {
        Some(IndexError::Card(card))
    }
}

/// The fault of naming the link at `link` of the card at `card`: the card
/// where it is missing, else the link where that is missing.
pub open spec fn link_fault(cards: Seq<CardView>, card: CardId, link: LinkPos) -> Option<
    IndexError,
> {
    if card >= cards.len() {
        Some(IndexError::Card(card))
    } else if link >= cards[card as int].links.len() {
        Some(IndexError::Link(LinkId { card, link }))
    } else {
        None
    }
}

/// The first of two faults.
pub open spec fn first_fault(first: Option<IndexError>, second: Option<IndexError>) -> Option<
    IndexError,
> {
    if first is Some {
        first
    } else {
        second
    }
}

/// The first position, in the order in which the action names them, that
/// `cards` does not have. `None` says that the action can be applied.
pub open spec fn index_fault(cards: Seq<CardView>, action: CardsHandlerView) -> Option<
    IndexError,
> {
    match action {
        CardsHandlerView::Add(_) => None,
        CardsHandlerView::Remove(card) => card_fault(cards, card),
        CardsHandlerView::Rename { card, .. } => card_fault(cards, card),
        CardsHandlerView::Swap { card1, card2 } => first_fault(
            card_fault(cards, card1),
            card_fault(cards, card2),
        ),
        CardsHandlerView::AddLink { card_index, .. } => card_fault(cards, card_index),
        CardsHandlerView::RemoveLink(link) => link_fault(cards, link.card, link.link),
        CardsHandlerView::EditLink { link, .. } => link_fault(cards, link.card, link.link),
        CardsHandlerView::SwapLinks { card, link1, link2 } => first_fault(
            link_fault(cards, card, link1),
            link_fault(cards, card, link2),
        ),
    }
}

/// `items` with the elements at `i` and `j` exchanged.
pub open spec fn swapped<A>(items: Seq<A>, i: int, j: int) -> Seq<A> {
    items.update(i, items[j]).update(j, items[i])
}

/// `card` with `links` in place of its links.
pub open spec fn with_links(card: CardView, links: Seq<AnchorView>) -> CardView {
    CardView { name: card.name, links }
}

/// The text of a field after an edit: the new text where one is given and
/// is not empty, else the text it had.
pub open spec fn edited(current: Seq<char>, new: Option<Seq<char>>) -> Seq<char> {
    match new {
        Some(text) => if text.len() == 0 {
            current
        } else {
            text
        },
        None => current,
    }
}

/// The collection that `action` makes of `cards`, where `cards` has every
/// position that the action names.
pub open spec fn effect(cards: Seq<CardView>, action: CardsHandlerView) -> Seq<CardView>
    recommends
        index_fault(cards, action) is None,
{
    match action {
        CardsHandlerView::Add(name) => if name.len() == 0 {
            cards
        } else {
            cards.push(CardView { name, links: Seq::empty() })
        },
        CardsHandlerView::Remove(card) => cards.remove(card as int),
        CardsHandlerView::Rename { card, new_name } => if new_name.len() == 0 {
            cards
        } else {
            cards.update(card as int, CardView { name: new_name, links: cards[card as int].links })
        },
        CardsHandlerView::Swap { card1, card2 } => swapped(cards, card1 as int, card2 as int),
        CardsHandlerView::AddLink { card_index, link } => if link.label.len() == 0 || link.url.len()
            == 0 {
            cards
        } else {
            let card = cards[card_index as int];
            cards.update(card_index as int, with_links(card, card.links.push(link)))
        },
        CardsHandlerView::RemoveLink(link) => {
            let card = cards[link.card as int];
            cards.update(link.card as int, with_links(card, card.links.remove(link.link as int)))
        },
        CardsHandlerView::EditLink { link, new_label, new_url } => {
            let card = cards[link.card as int];
            let current = card.links[link.link as int];
            let next = AnchorView {
                label: edited(current.label, new_label),
                url: edited(current.url, new_url),
            };
            cards.update(
                link.card as int,
                with_links(card, card.links.update(link.link as int, next)),
            )
        },
        CardsHandlerView::SwapLinks { card, link1, link2 } => {
            let links = cards[card as int].links;
            cards.update(
                card as int,
                with_links(cards[card as int], swapped(links, link1 as int, link2 as int)),
            )
        },
    }
}

/// Exchanges the elements at `i` and `j`.
fn swap_items<T>(items: &mut Vec<T>, i: usize, j: usize)
    requires
        i < old(items).len(),
        j < old(items).len(),
    ensures
        final(items)@ == swapped(old(items)@, i as int, j as int),
{
    if i != j {
        let (low, high) = if i < j {
            (i, j)
        } else {
            (j, i)
        };
        let upper = items.remove(high);
        let lower = items.remove(low);
        items.insert(low, upper);
        items.insert(high, lower);
    }
}

impl Cards {
    /// Applies `action` to this snapshot and hands out the next one; this
    /// snapshot stays as it is.
    ///
    /// The action is applied exactly where the snapshot has every position
    /// that the action names. Else the result is the first position that is
    /// missing, and there is no next snapshot.
    ///
    /// The page puts the next snapshot in the place of this one and writes
    /// it to storage. A write that fails takes nothing back: the next
    /// snapshot stands.
    pub fn reduce(&self, action: CardsHandler) -> (result: Result<Cards, IndexError>)
        ensures
            result is Ok <==> index_fault(self@, action@) is None,
            result matches Ok(next) ==> next@ == effect(self@, action@),
            result matches Err(fault) ==> index_fault(self@, action@) == Some(fault),
    {
        let mut inner = self.clone().into_inner();
        match action {
            CardsHandler::Add(name) => {
                if !name.as_str().is_empty() {
                    inner.push(Card::new(name));
                }
            },
            CardsHandler::Remove(card) => {
                if card >= inner.len() {
                    return Err(IndexError::Card(card));
                }
                inner.remove(card);
            },
            CardsHandler::Rename { card, new_name } => {
                if card >= inner.len() {
                    return Err(IndexError::Card(card));
                }
                if !new_name.as_str().is_empty() {
                    inner[card].name = new_name;
                }
            },
            CardsHandler::Swap { card1, card2 } => {
                if card1 >= inner.len() {
                    return Err(IndexError::Card(card1));
                }
                if card2 >= inner.len() {
                    return Err(IndexError::Card(card2));
                }
                swap_items(&mut inner, card1, card2);
            },
            CardsHandler::AddLink { card_index, link } => {
                if card_index >= inner.len() {
                    return Err(IndexError::Card(card_index));
                }
                if !link.label.as_str().is_empty() && !link.url.as_str().is_empty() {
                    inner[card_index].push_link(link);
                }
            },
            CardsHandler::RemoveLink(link) => {
                if link.card >= inner.len() {
                    return Err(IndexError::Card(link.card));
                }
                if link.link >= inner[link.card].links.len() {
                    return Err(IndexError::Link(link));
                }
                inner[link.card].remove_link(link.link);
            },
            CardsHandler::EditLink { link, new_label, new_url } => {
                if link.card >= inner.len() {
                    return Err(IndexError::Card(link.card));
                }
                if link.link >= inner[link.card].links.len() {
                    return Err(IndexError::Link(link));
                }
                let target = &mut inner[link.card].links[link.link];
                if let Some(label) = new_label {
                    if !label.as_str().is_empty() {
                        target.label = label;
                    }
                }
                if let Some(url) = new_url {
                    if !url.as_str().is_empty() {
                        target.url = url;
                    }
                }
                assert(inner[link.card as int]@.links =~= effect(
                    self@,
                    action@,
                )[link.card as int].links);
            },
            CardsHandler::SwapLinks { card, link1, link2 } => {
                if card >= inner.len() {
                    return Err(IndexError::Card(card));
                }
                if link1 >= inner[card].links.len() {
                    return Err(IndexError::Link(LinkId { card, link: link1 }));
                }
                if link2 >= inner[card].links.len() {
                    return Err(IndexError::Link(LinkId { card, link: link2 }));
                }
                proof {
                    let links = inner[card as int].links@;
                    assert(anchor_views(swapped(links, link1 as int, link2 as int)) =~= swapped(
                        anchor_views(links),
                        link1 as int,
                        link2 as int,
                    ));
                }
                swap_items(&mut inner[card].links, link1, link2);
            },
        }
        Ok(Cards { inner })
    }
}

} // verus!
