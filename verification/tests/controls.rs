use foxhole::cards::{Card, Cards};
use foxhole::controls::{move_down, move_left, move_right, move_up};
use foxhole::store::CardsHandler;

#[test]
fn first_card_does_not_move_left() {
    assert_eq!(move_left(0), None);
}

#[test]
fn later_cards_move_left() {
    assert_eq!(move_left(1), Some(CardsHandler::Swap { card1: 1, card2: 0 }));
    assert_eq!(move_left(7), Some(CardsHandler::Swap { card1: 7, card2: 6 }));
    assert_eq!(
        move_left(usize::MAX),
        Some(CardsHandler::Swap { card1: usize::MAX, card2: usize::MAX - 1 })
    );
}

#[test]
fn last_card_does_not_move_right() {
    assert_eq!(move_right(2, 3), None);
    assert_eq!(move_right(0, 1), None);
    assert_eq!(move_right(0, 0), None);
    assert_eq!(move_right(5, 3), None);
    assert_eq!(move_right(usize::MAX, usize::MAX), None);
    assert_eq!(move_right(usize::MAX, 3), None);
}

#[test]
fn earlier_cards_move_right() {
    assert_eq!(move_right(0, 2), Some(CardsHandler::Swap { card1: 0, card2: 1 }));
    assert_eq!(move_right(1, 3), Some(CardsHandler::Swap { card1: 1, card2: 2 }));
}

#[test]
fn first_link_does_not_move_up() {
    assert_eq!(move_up(3, 0), None);
}

#[test]
fn later_links_move_up() {
    assert_eq!(move_up(3, 2), Some(CardsHandler::SwapLinks { card: 3, link1: 2, link2: 1 }));
}

#[test]
fn last_link_does_not_move_down() {
    assert_eq!(move_down(1, 4, 5), None);
    assert_eq!(move_down(1, 0, 0), None);
    assert_eq!(move_down(1, 9, 5), None);
    assert_eq!(move_down(1, usize::MAX, usize::MAX), None);
}

#[test]
fn earlier_links_move_down() {
    assert_eq!(move_down(1, 3, 5), Some(CardsHandler::SwapLinks { card: 1, link1: 3, link2: 4 }));
    assert_eq!(move_down(0, 0, 2), Some(CardsHandler::SwapLinks { card: 0, link1: 0, link2: 1 }));
}

#[test]
fn what_the_buttons_send_is_applied_by_the_store() {
    let cards = Cards {
        inner: vec![
            Card::from(
                "X".to_string(),
                vec![["a".to_string(), "1".to_string()], ["b".to_string(), "2".to_string()]],
            ),
            Card::new("Y".to_string()),
        ],
    };
    for card in 0..cards.inner.len() {
        for action in [move_left(card), move_right(card, cards.inner.len())].into_iter().flatten()
        {
            assert!(cards.reduce(action).is_ok());
        }
        let count = cards.inner[card].links.len();
        for link in 0..count {
            for action in [move_up(card, link), move_down(card, link, count)].into_iter().flatten()
            {
                assert!(cards.reduce(action).is_ok());
            }
        }
    }
    let moved = cards.reduce(move_right(0, 2).unwrap()).unwrap();
    assert_eq!(moved.inner[0].name, "Y");
    assert_eq!(moved.inner[1].name, "X");
    let moved = cards.reduce(move_down(0, 0, 2).unwrap()).unwrap();
    assert_eq!(moved.inner[0].links[0].label, "b");
    assert_eq!(moved.inner[0].links[1].label, "a");
}
