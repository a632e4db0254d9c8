//! What holds of every snapshot and every action.
//!
//! [`Cards::reduce`](crate::cards::Cards) hands out exactly what
//! [`index_fault`] and [`effect`] say, so each statement here about those two
//! is a statement about the reducer.

use vstd::prelude::*;
use crate::cards::{AnchorView, CardId, CardView, LinkId, LinkPos};
use crate::store::{CardsHandlerView, effect, index_fault, swapped};

verus! {

/// Whether no card name, no label and no url in `cards` is empty.
pub open spec fn filled(cards: Seq<CardView>) -> bool {
    forall|c: int|
        0 <= c < cards.len() ==> {
            &&& (#[trigger] cards[c]).name.len() > 0
            &&& forall|l: int|
                0 <= l < cards[c].links.len() ==> {
                    &&& (#[trigger] cards[c].links[l]).label.len() > 0
                    &&& cards[c].links[l].url.len() > 0
                }
        }
}

/// The card that an action changes, if it is one that works inside a single
/// card.
pub open spec fn touched_card(action: CardsHandlerView) -> Option<CardId> {
    match action {
        CardsHandlerView::Rename { card, .. } => Some(card),
        CardsHandlerView::AddLink { card_index, .. } => Some(card_index),
        CardsHandlerView::RemoveLink(link) => Some(link.card),
        CardsHandlerView::EditLink { link, .. } => Some(link.card),
        CardsHandlerView::SwapLinks { card, .. } => Some(card),
        _ => None,
    }
}

/// An action that can be applied changes the number of cards only by
/// adding or removing one: a named card more after `Add`, one card fewer
/// after `Remove`, and as many as before after every other action.
pub proof fn effect_counts_cards(cards: Seq<CardView>, action: CardsHandlerView)
    requires
        index_fault(cards, action) is None,
    ensures
        effect(cards, action).len() == match action {
            CardsHandlerView::Add(name) => if name.len() == 0 {
                cards.len() as int
            } else {
                cards.len() as int + 1
            },
            CardsHandlerView::Remove(_) => cards.len() as int - 1,
            _ => cards.len() as int,
        },
{
}

/// Adding a card with a name puts that card, without links, behind all the
/// others and leaves them as they are.
pub proof fn add_appends_empty_card(cards: Seq<CardView>, name: Seq<char>)
    requires
        name.len() > 0,
    ensures
        index_fault(cards, CardsHandlerView::Add(name)) is None,
        effect(cards, CardsHandlerView::Add(name)).len() == cards.len() + 1,
        effect(cards, CardsHandlerView::Add(name)).last() == (CardView {
            name,
            links: Seq::empty(),
        }),
        forall|k: int|
            0 <= k < cards.len() ==> #[trigger] effect(cards, CardsHandlerView::Add(name))[k]
                == cards[k],
{
}

/// Removing a card leaves one card fewer, and all other cards in the order
/// they had: those before it keep their position, those behind it move one
/// position down.
pub proof fn remove_keeps_the_rest_in_order(cards: Seq<CardView>, card: CardId)
    requires
        card < cards.len(),
    ensures
        index_fault(cards, CardsHandlerView::Remove(card)) is None,
        effect(cards, CardsHandlerView::Remove(card)).len() == cards.len() - 1,
        forall|k: int|
            0 <= k < card ==> #[trigger] effect(cards, CardsHandlerView::Remove(card))[k]
                == cards[k],
        forall|k: int|
            card <= k < cards.len() - 1 ==> #[trigger] effect(
                cards,
                CardsHandlerView::Remove(card),
            )[k] == cards[k + 1],
{
}

/// Exchanging two cards puts each at the position of the other and leaves
/// every other card where it is.
pub proof fn swap_exchanges_two_cards(cards: Seq<CardView>, card1: CardId, card2: CardId)
    requires
        card1 < cards.len(),
        card2 < cards.len(),
    ensures
        index_fault(cards, CardsHandlerView::Swap { card1, card2 }) is None,
        effect(cards, CardsHandlerView::Swap { card1, card2 }).len() == cards.len(),
        effect(cards, CardsHandlerView::Swap { card1, card2 })[card1 as int] == cards[card2 as int],
        effect(cards, CardsHandlerView::Swap { card1, card2 })[card2 as int] == cards[card1 as int],
        forall|k: int|
            0 <= k < cards.len() && k != card1 && k != card2 ==> #[trigger] effect(
                cards,
                CardsHandlerView::Swap { card1, card2 },
            )[k] == cards[k],
{
}

/// Exchanging the same two cards twice gives the collection that was there;
/// the second exchange can always be applied after the first.
pub proof fn swap_cards_twice_restores(cards: Seq<CardView>, card1: CardId, card2: CardId)
    requires
        card1 < cards.len(),
        card2 < cards.len(),
    ensures
        index_fault(cards, CardsHandlerView::Swap { card1, card2 }) is None,
        index_fault(
            effect(cards, CardsHandlerView::Swap { card1, card2 }),
            CardsHandlerView::Swap { card1, card2 },
        ) is None,
        effect(
            effect(cards, CardsHandlerView::Swap { card1, card2 }),
            CardsHandlerView::Swap { card1, card2 },
        ) == cards,
{
}

/// Exchanging the same two links of a card twice gives the collection that
/// was there; the second exchange can always be applied after the first.
pub proof fn swap_links_twice_restores(
    cards: Seq<CardView>,
    card: CardId,
    link1: LinkPos,
    link2: LinkPos,
)
    requires
        index_fault(cards, CardsHandlerView::SwapLinks { card, link1, link2 }) is None,
    ensures
        index_fault(
            effect(cards, CardsHandlerView::SwapLinks { card, link1, link2 }),
            CardsHandlerView::SwapLinks { card, link1, link2 },
        ) is None,
        effect(
            effect(cards, CardsHandlerView::SwapLinks { card, link1, link2 }),
            CardsHandlerView::SwapLinks { card, link1, link2 },
        ) == cards,
{
    let links = cards[card as int].links;
    let once = swapped(links, link1 as int, link2 as int);
    assert(swapped(once, link1 as int, link2 as int) =~= links);
}

/// An edit that brings no text, or only empty text, changes nothing.
pub proof fn edit_without_text_changes_nothing(
    cards: Seq<CardView>,
    link: LinkId,
    new_label: Option<Seq<char>>,
    new_url: Option<Seq<char>>,
)
    requires
        index_fault(cards, CardsHandlerView::EditLink { link, new_label, new_url }) is None,
        new_label matches Some(text) ==> text.len() == 0,
        new_url matches Some(text) ==> text.len() == 0,
    ensures
        effect(cards, CardsHandlerView::EditLink { link, new_label, new_url }) == cards,
{
    let links = cards[link.card as int].links;
    assert(links.update(link.link as int, links[link.link as int]) =~= links);
}

/// An edit replaces each field for which it brings a text that is not
/// empty, keeps the other field, and leaves every other link and the name of
/// the card as they are.
pub proof fn edit_replaces_given_fields(
    cards: Seq<CardView>,
    link: LinkId,
    new_label: Option<Seq<char>>,
    new_url: Option<Seq<char>>,
)
    requires
        index_fault(cards, CardsHandlerView::EditLink { link, new_label, new_url }) is None,
    ensures
        ({
            let next = effect(cards, CardsHandlerView::EditLink { link, new_label, new_url });
            let before = cards[link.card as int];
            let after = next[link.card as int];
            &&& next.len() == cards.len()
            &&& after.name == before.name
            &&& after.links.len() == before.links.len()
            &&& after.links[link.link as int].label == match new_label {
                Some(text) if text.len() > 0 => text,
                _ => before.links[link.link as int].label,
            }
            &&& after.links[link.link as int].url == match new_url {
                Some(text) if text.len() > 0 => text,
                _ => before.links[link.link as int].url,
            }
            &&& forall|l: int|
                0 <= l < before.links.len() && l != link.link ==> #[trigger] after.links[l]
                    == before.links[l]
        }),
{
}

/// Adding a card without a name changes nothing.
pub proof fn add_without_name_changes_nothing(cards: Seq<CardView>, name: Seq<char>)
    requires
        name.len() == 0,
    ensures
        index_fault(cards, CardsHandlerView::Add(name)) is None,
        effect(cards, CardsHandlerView::Add(name)) == cards,
{
}

/// Renaming a card that is there to the empty name changes nothing.
pub proof fn rename_without_name_changes_nothing(
    cards: Seq<CardView>,
    card: CardId,
    new_name: Seq<char>,
)
    requires
        card < cards.len(),
        new_name.len() == 0,
    ensures
        index_fault(cards, CardsHandlerView::Rename { card, new_name }) is None,
        effect(cards, CardsHandlerView::Rename { card, new_name }) == cards,
{
}

/// Adding a link whose label or url is empty to a card that is there changes
/// nothing: the links of the card, and the whole collection, stay as they are.
pub proof fn add_link_without_text_changes_nothing(
    cards: Seq<CardView>,
    card_index: CardId,
    link: AnchorView,
)
    requires
        card_index < cards.len(),
        link.label.len() == 0 || link.url.len() == 0,
    ensures
        index_fault(cards, CardsHandlerView::AddLink { card_index, link }) is None,
        effect(cards, CardsHandlerView::AddLink { card_index, link })[card_index as int].links
            == cards[card_index as int].links,
        effect(cards, CardsHandlerView::AddLink { card_index, link }) == cards,
{
}

/// Adding a link with a label and a url puts it behind the other links of
/// its card and leaves them, and the name of the card, as they are.
pub proof fn add_link_appends(cards: Seq<CardView>, card_index: CardId, link: AnchorView)
    requires
        card_index < cards.len(),
        link.label.len() > 0,
        link.url.len() > 0,
    ensures
        ({
            let next = effect(cards, CardsHandlerView::AddLink { card_index, link });
            let before = cards[card_index as int];
            let after = next[card_index as int];
            &&& index_fault(cards, CardsHandlerView::AddLink { card_index, link }) is None
            &&& after.name == before.name
            &&& after.links == before.links.push(link)
        }),
{
}

/// Removing a link leaves one link fewer in its card, and all other links
/// of the card in the order they had.
pub proof fn remove_link_keeps_the_rest_in_order(cards: Seq<CardView>, link: LinkId)
    requires
        index_fault(cards, CardsHandlerView::RemoveLink(link)) is None,
    ensures
        ({
            let next = effect(cards, CardsHandlerView::RemoveLink(link));
            let before = cards[link.card as int];
            let after = next[link.card as int];
            &&& after.name == before.name
            &&& after.links.len() == before.links.len() - 1
            &&& forall|l: int| 0 <= l < link.link ==> #[trigger] after.links[l] == before.links[l]
            &&& forall|l: int|
                link.link <= l < before.links.len() - 1 ==> #[trigger] after.links[l]
                    == before.links[l + 1]
        }),
{
}

/// An action that works inside one card leaves every other card as it is
/// and every card at its position.
pub proof fn other_cards_stay(cards: Seq<CardView>, action: CardsHandlerView)
    requires
        index_fault(cards, action) is None,
        touched_card(action) is Some,
    ensures
        effect(cards, action).len() == cards.len(),
        forall|k: int|
            0 <= k < cards.len() && k != touched_card(action).unwrap() ==> #[trigger] effect(
                cards,
                action,
            )[k] == cards[k],
{
}

/// Only a rename changes the name of a card: after every other action that
/// works inside one card, that card has the name it had.
pub proof fn link_actions_keep_the_name(cards: Seq<CardView>, action: CardsHandlerView)
    requires
        index_fault(cards, action) is None,
        touched_card(action) is Some,
        !(action is Rename),
    ensures
        effect(cards, action)[touched_card(action).unwrap() as int].name == cards[touched_card(
            action,
        ).unwrap() as int].name,
{
}

/// No action brings an empty text into the collection: where no name, label
/// or url was empty before, none is empty after.
pub proof fn effect_keeps_texts_filled(cards: Seq<CardView>, action: CardsHandlerView)
    requires
        index_fault(cards, action) is None,
        filled(cards),
    ensures
        filled(effect(cards, action)),
{
}

/// The collection that a run of actions makes of `cards`, one applied
/// after the other; nothing where one of them names a position that the
/// collection before it does not have.
pub open spec fn run(cards: Seq<CardView>, actions: Seq<CardsHandlerView>) -> Option<
    Seq<CardView>,
>
    decreases actions.len(),
{
    if actions.len() == 0 {
        Some(cards)
    } else {
        match run(cards, actions.drop_last()) {
            Some(before) => if index_fault(before, actions.last()) is None {
                Some(effect(before, actions.last()))
            } else {
                None
            },
            None => None,
        }
    }
}

/// Whatever actions are applied to the collection without cards, one after
/// the other, the collection they lead to holds no empty name, label or url.
pub proof fn reached_collections_are_filled(actions: Seq<CardsHandlerView>)
    ensures
        run(Seq::empty(), actions) matches Some(cards) ==> filled(cards),
    decreases actions.len(),
{
    if actions.len() > 0 {
        reached_collections_are_filled(actions.drop_last());
        match run(Seq::empty(), actions.drop_last()) {
            Some(before) => {
                if index_fault(before, actions.last()) is None {
                    effect_keeps_texts_filled(before, actions.last());
                }
            },
            None => {},
        }
    }
}

} // verus!
