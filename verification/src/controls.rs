//! The buttons that move a card or a link by one place.
//!
//! The store exchanges whatever two positions it is given and refuses those
//! that do not exist. The page therefore asks here before it sends: the
//! answer is the exchange to send, or nothing where the element is already
//! at the end it would move towards.

use vstd::prelude::*;
use crate::cards::{CardId, CardView, LinkPos};
use crate::store::{effect, index_fault, CardsHandler, CardsHandlerView};

verus! {

/// What an action that may be absent holds.
pub open spec fn action_view(action: Option<CardsHandler>) -> Option<CardsHandlerView> {
    match action {
        Some(a) => Some(a@),
        None => None,
    }
}

/// The exchange that moves the card at `card` one place towards the front.
pub open spec fn left_move(card: CardId) -> Option<CardsHandlerView> {
    if card == 0 {
        None
    } else {
        Some(CardsHandlerView::Swap { card1: card, card2: (card - 1) as usize })
    }
}

/// The exchange that moves the card at `card`, one of `count` cards, one
/// place towards the back.
pub open spec fn right_move(card: CardId, count: usize) -> Option<CardsHandlerView> {
    if card + 1 < count {
        Some(CardsHandlerView::Swap { card1: card, card2: (card + 1) as usize })
    } else {
        None
    }
}

/// The exchange that moves the link at `link` of the card at `card` one
/// place up.
pub open spec fn up_move(card: CardId, link: LinkPos) -> Option<CardsHandlerView> {
    if link == 0 {
        None
    } else {
        Some(CardsHandlerView::SwapLinks { card, link1: link, link2: (link - 1) as usize })
    }
}

/// The exchange that moves the link at `link`, one of the `count` links of
/// the card at `card`, one place down.
pub open spec fn down_move(card: CardId, link: LinkPos, count: usize) -> Option<CardsHandlerView> {
    if link + 1 < count {
        Some(CardsHandlerView::SwapLinks { card, link1: link, link2: (link + 1) as usize })
    } else {
        None
    }
}

/// Moves a card one place towards the front, unless it is the first.
pub fn move_left(card: CardId) -> (action: Option<CardsHandler>)
    ensures
        action_view(action) == left_move(card),
{
    if card == 0 {
        None
    } else {
        Some(CardsHandler::Swap { card1: card, card2: card - 1 })
    }
}

/// Moves a card one place towards the back, unless it is the last of the
/// `count` cards.
pub fn move_right(card: CardId, count: usize) -> (action: Option<CardsHandler>)
    ensures
        action_view(action) == right_move(card, count),
{
    if card < count && card + 1 < count {
        Some(CardsHandler::Swap { card1: card, card2: card + 1 })
    } else {
        None
    }
}

/// Moves a link one place up in its card, unless it is the first.
pub fn move_up(card: CardId, link: LinkPos) -> (action: Option<CardsHandler>)
    ensures
        action_view(action) == up_move(card, link),
{
    if link == 0 {
        None
    } else {
        Some(CardsHandler::SwapLinks { card, link1: link, link2: link - 1 })
    }
}

/// Moves a link one place down in its card, unless it is the last of the
/// `count` links.
pub fn move_down(card: CardId, link: LinkPos, count: usize) -> (action: Option<CardsHandler>)
    ensures
        action_view(action) == down_move(card, link, count),
{
    if link < count && link + 1 < count {
        Some(CardsHandler::SwapLinks { card, link1: link, link2: link + 1 })
    } else {
        None
    }
}

/// The store never refuses what the card buttons send, and what they send
/// moves the card by one place: for a card that is there, and with the true
/// number of cards, each exchange names two cards that are there, and after
/// it the card stands where its neighbour stood and the neighbour where the
/// card stood.
pub proof fn card_moves_by_one_place(cards: Seq<CardView>, card: CardId, count: usize)
    requires
        card < cards.len(),
        count == cards.len(),
    ensures
        left_move(card) matches Some(action) ==> {
            &&& index_fault(cards, action) is None
            &&& effect(cards, action)[card - 1] == cards[card as int]
            &&& effect(cards, action)[card as int] == cards[card - 1]
        },
        right_move(card, count) matches Some(action) ==> {
            &&& index_fault(cards, action) is None
            &&& effect(cards, action)[card + 1] == cards[card as int]
            &&& effect(cards, action)[card as int] == cards[card + 1]
        },
{
}

/// The same for the link buttons: for a link that is there, and with the
/// true number of links of its card, each exchange names two links that are
/// there, and after it the link stands where its neighbour stood and the
/// neighbour where the link stood.
pub proof fn link_moves_by_one_place(
    cards: Seq<CardView>,
    card: CardId,
    link: LinkPos,
    count: usize,
)
    requires
        card < cards.len(),
        link < cards[card as int].links.len(),
        count == cards[card as int].links.len(),
    ensures
        up_move(card, link) matches Some(action) ==> {
            &&& index_fault(cards, action) is None
            &&& effect(cards, action)[card as int].links[link - 1]
                == cards[card as int].links[link as int]
            &&& effect(cards, action)[card as int].links[link as int]
                == cards[card as int].links[link - 1]
        },
        down_move(card, link, count) matches Some(action) ==> {
            &&& index_fault(cards, action) is None
            &&& effect(cards, action)[card as int].links[link + 1]
                == cards[card as int].links[link as int]
            &&& effect(cards, action)[card as int].links[link as int]
                == cards[card as int].links[link + 1]
        },
{
}

} // verus!
