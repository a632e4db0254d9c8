use foxhole::cards::{Anchor, Card, Cards, LinkId};
use foxhole::store::{CardsHandler, IndexError};

fn anchor(label: &str, url: &str) -> Anchor {
    Anchor { label: label.to_string(), url: url.to_string() }
}

fn card(name: &str, links: Vec<Anchor>) -> Card {
    Card { name: name.to_string(), links }
}

fn collection(cards: Vec<Card>) -> Cards {
    Cards { inner: cards }
}

fn sample() -> Cards {
    collection(vec![
        card(
            "Tools",
            vec![anchor("A", "http://a"), anchor("B", "http://b"), anchor("C", "http://c")],
        ),
        card("News", vec![]),
        card("Docs", vec![anchor("Rust", "http://rust")]),
    ])
}

#[test]
fn add_card_to_empty_collection() {
    let start = Cards::default();
    let next = start.reduce(CardsHandler::Add("Tools".to_string())).unwrap();
    assert_eq!(next.inner.len(), 1);
    assert_eq!(next.inner[0].name, "Tools");
    assert!(next.inner[0].links.is_empty());
    assert_eq!(next, collection(vec![card("Tools", vec![])]));
}

#[test]
fn add_link_to_first_card() {
    let start = collection(vec![card("Tools", vec![])]);
    let next = start
        .reduce(CardsHandler::AddLink { card_index: 0, link: anchor("Repo", "http://x") })
        .unwrap();
    assert_eq!(next.inner[0].links, vec![anchor("Repo", "http://x")]);
    assert_eq!(next, collection(vec![card("Tools", vec![anchor("Repo", "http://x")])]));
}

#[test]
fn swap_links_of_first_card() {
    let start = collection(vec![card("Tools", vec![anchor("A", "a"), anchor("B", "b")])]);
    let next = start.reduce(CardsHandler::SwapLinks { card: 0, link1: 0, link2: 1 }).unwrap();
    assert_eq!(next.inner[0].links, vec![anchor("B", "b"), anchor("A", "a")]);
    assert_eq!(next.inner[0].name, "Tools");
}

#[test]
fn swap_cards_and_swap_back() {
    let start = collection(vec![card("X", vec![]), card("Y", vec![anchor("y", "u")])]);
    let once = start.reduce(CardsHandler::Swap { card1: 0, card2: 1 }).unwrap();
    assert_eq!(once, collection(vec![card("Y", vec![anchor("y", "u")]), card("X", vec![])]));
    let twice = once.reduce(CardsHandler::Swap { card1: 0, card2: 1 }).unwrap();
    assert_eq!(twice, collection(vec![card("X", vec![]), card("Y", vec![anchor("y", "u")])]));
    assert_eq!(twice, start);
}

#[test]
fn remove_link_out_of_range_fails() {
    let start = collection(vec![card("Tools", vec![anchor("A", "a"), anchor("B", "b")])]);
    let result = start.reduce(CardsHandler::RemoveLink(LinkId { card: 0, link: 5 }));
    assert_eq!(result, Err(IndexError::Link(LinkId { card: 0, link: 5 })));
    assert_eq!(start, collection(vec![card("Tools", vec![anchor("A", "a"), anchor("B", "b")])]));
}

#[test]
fn reduce_leaves_the_old_snapshot_alone() {
    let start = sample();
    let next = start.reduce(CardsHandler::Remove(0)).unwrap();
    assert_eq!(start, sample());
    assert_ne!(next, start);
    let next = start
        .reduce(CardsHandler::EditLink {
            link: LinkId { card: 0, link: 1 },
            new_label: Some("Z".to_string()),
            new_url: None,
        })
        .unwrap();
    assert_eq!(start, sample());
    assert_ne!(next, start);
}

#[test]
fn add_appends_behind_the_other_cards() {
    let next = sample().reduce(CardsHandler::Add("Last".to_string())).unwrap();
    let mut expected = sample().into_inner();
    expected.push(card("Last", vec![]));
    assert_eq!(next, collection(expected));
}

#[test]
fn add_with_empty_name_changes_nothing() {
    let next = sample().reduce(CardsHandler::Add(String::new())).unwrap();
    assert_eq!(next, sample());
    let next = Cards::default().reduce(CardsHandler::Add(String::new())).unwrap();
    assert_eq!(next, Cards::default());
}

#[test]
fn remove_first_middle_and_last_card() {
    let all = sample().into_inner();
    let next = sample().reduce(CardsHandler::Remove(0)).unwrap();
    assert_eq!(next, collection(vec![all[1].clone(), all[2].clone()]));
    let next = sample().reduce(CardsHandler::Remove(1)).unwrap();
    assert_eq!(next, collection(vec![all[0].clone(), all[2].clone()]));
    let next = sample().reduce(CardsHandler::Remove(2)).unwrap();
    assert_eq!(next, collection(vec![all[0].clone(), all[1].clone()]));
}

#[test]
fn remove_the_only_card() {
    let start = collection(vec![card("Tools", vec![anchor("A", "a")])]);
    assert_eq!(start.reduce(CardsHandler::Remove(0)), Ok(Cards::default()));
}

#[test]
fn remove_card_out_of_range_fails() {
    assert_eq!(sample().reduce(CardsHandler::Remove(3)), Err(IndexError::Card(3)));
    assert_eq!(Cards::default().reduce(CardsHandler::Remove(0)), Err(IndexError::Card(0)));
    assert_eq!(
        sample().reduce(CardsHandler::Remove(usize::MAX)),
        Err(IndexError::Card(usize::MAX))
    );
}

#[test]
fn rename_sets_the_name_and_keeps_the_links() {
    let next = sample()
        .reduce(CardsHandler::Rename { card: 2, new_name: "Manuals".to_string() })
        .unwrap();
    let all = sample().into_inner();
    assert_eq!(
        next,
        collection(vec![
            all[0].clone(),
            all[1].clone(),
            card("Manuals", vec![anchor("Rust", "http://rust")]),
        ])
    );
}

#[test]
fn rename_with_empty_name_changes_nothing() {
    let next = sample().reduce(CardsHandler::Rename { card: 1, new_name: String::new() }).unwrap();
    assert_eq!(next, sample());
}

#[test]
fn rename_out_of_range_fails_whatever_the_name() {
    assert_eq!(
        sample().reduce(CardsHandler::Rename { card: 3, new_name: "x".to_string() }),
        Err(IndexError::Card(3))
    );
    assert_eq!(
        sample().reduce(CardsHandler::Rename { card: 7, new_name: String::new() }),
        Err(IndexError::Card(7))
    );
}

#[test]
fn swap_distant_cards() {
    let all = sample().into_inner();
    let next = sample().reduce(CardsHandler::Swap { card1: 2, card2: 0 }).unwrap();
    assert_eq!(next, collection(vec![all[2].clone(), all[1].clone(), all[0].clone()]));
    let next = sample().reduce(CardsHandler::Swap { card1: 0, card2: 2 }).unwrap();
    assert_eq!(next, collection(vec![all[2].clone(), all[1].clone(), all[0].clone()]));
}

#[test]
fn swap_a_card_with_itself() {
    let next = sample().reduce(CardsHandler::Swap { card1: 1, card2: 1 }).unwrap();
    assert_eq!(next, sample());
}

#[test]
fn swap_cards_out_of_range_names_the_first_missing() {
    assert_eq!(
        sample().reduce(CardsHandler::Swap { card1: 3, card2: 0 }),
        Err(IndexError::Card(3))
    );
    assert_eq!(
        sample().reduce(CardsHandler::Swap { card1: 0, card2: 4 }),
        Err(IndexError::Card(4))
    );
    assert_eq!(
        sample().reduce(CardsHandler::Swap { card1: 9, card2: 8 }),
        Err(IndexError::Card(9))
    );
}

#[test]
fn add_link_appends_behind_the_other_links() {
    let next = sample()
        .reduce(CardsHandler::AddLink { card_index: 2, link: anchor("Verus", "http://verus") })
        .unwrap();
    let all = sample().into_inner();
    assert_eq!(
        next,
        collection(vec![
            all[0].clone(),
            all[1].clone(),
            card("Docs", vec![anchor("Rust", "http://rust"), anchor("Verus", "http://verus")]),
        ])
    );
}

#[test]
fn add_link_with_an_empty_text_changes_nothing() {
    let next = sample()
        .reduce(CardsHandler::AddLink { card_index: 0, link: anchor("", "x") })
        .unwrap();
    assert_eq!(next, sample());
    let next = sample()
        .reduce(CardsHandler::AddLink { card_index: 0, link: anchor("x", "") })
        .unwrap();
    assert_eq!(next, sample());
    let next = sample()
        .reduce(CardsHandler::AddLink { card_index: 1, link: anchor("", "") })
        .unwrap();
    assert_eq!(next, sample());
}

#[test]
fn add_link_out_of_range_fails_whatever_the_link() {
    assert_eq!(
        sample().reduce(CardsHandler::AddLink { card_index: 3, link: anchor("a", "b") }),
        Err(IndexError::Card(3))
    );
    assert_eq!(
        sample().reduce(CardsHandler::AddLink { card_index: 3, link: anchor("", "") }),
        Err(IndexError::Card(3))
    );
}

#[test]
fn remove_link_moves_the_later_links_down() {
    let next = sample().reduce(CardsHandler::RemoveLink(LinkId { card: 0, link: 0 })).unwrap();
    assert_eq!(next.inner[0].links, vec![anchor("B", "http://b"), anchor("C", "http://c")]);
    let next = sample().reduce(CardsHandler::RemoveLink(LinkId { card: 0, link: 1 })).unwrap();
    assert_eq!(next.inner[0].links, vec![anchor("A", "http://a"), anchor("C", "http://c")]);
    let next = sample().reduce(CardsHandler::RemoveLink(LinkId { card: 0, link: 2 })).unwrap();
    assert_eq!(next.inner[0].links, vec![anchor("A", "http://a"), anchor("B", "http://b")]);
    assert_eq!(next.inner[0].name, "Tools");
    assert_eq!(next.inner[1], sample().inner[1]);
    assert_eq!(next.inner[2], sample().inner[2]);
}

#[test]
fn remove_link_names_the_card_before_the_link() {
    assert_eq!(
        sample().reduce(CardsHandler::RemoveLink(LinkId { card: 5, link: 9 })),
        Err(IndexError::Card(5))
    );
    assert_eq!(
        sample().reduce(CardsHandler::RemoveLink(LinkId { card: 1, link: 0 })),
        Err(IndexError::Link(LinkId { card: 1, link: 0 }))
    );
    assert_eq!(
        sample().reduce(CardsHandler::RemoveLink(LinkId { card: 0, link: 3 })),
        Err(IndexError::Link(LinkId { card: 0, link: 3 }))
    );
}

#[test]
fn edit_link_replaces_both_texts() {
    let next = sample()
        .reduce(CardsHandler::EditLink {
            link: LinkId { card: 0, link: 1 },
            new_label: Some("Bee".to_string()),
            new_url: Some("http://bee".to_string()),
        })
        .unwrap();
    assert_eq!(
        next.inner[0].links,
        vec![anchor("A", "http://a"), anchor("Bee", "http://bee"), anchor("C", "http://c")]
    );
    assert_eq!(next.inner[1], sample().inner[1]);
    assert_eq!(next.inner[2], sample().inner[2]);
}

#[test]
fn edit_link_replaces_one_text_and_keeps_the_other() {
    let next = sample()
        .reduce(CardsHandler::EditLink {
            link: LinkId { card: 2, link: 0 },
            new_label: Some("Ferris".to_string()),
            new_url: None,
        })
        .unwrap();
    assert_eq!(next.inner[2].links, vec![anchor("Ferris", "http://rust")]);
    let next = sample()
        .reduce(CardsHandler::EditLink {
            link: LinkId { card: 2, link: 0 },
            new_label: None,
            new_url: Some("http://rust-lang".to_string()),
        })
        .unwrap();
    assert_eq!(next.inner[2].links, vec![anchor("Rust", "http://rust-lang")]);
}

#[test]
fn edit_link_without_text_changes_nothing() {
    let next = sample()
        .reduce(CardsHandler::EditLink {
            link: LinkId { card: 0, link: 2 },
            new_label: None,
            new_url: None,
        })
        .unwrap();
    assert_eq!(next, sample());
}

#[test]
fn edit_link_takes_an_empty_text_as_absent() {
    let next = sample()
        .reduce(CardsHandler::EditLink {
            link: LinkId { card: 0, link: 2 },
            new_label: Some(String::new()),
            new_url: Some(String::new()),
        })
        .unwrap();
    assert_eq!(next, sample());
    let next = sample()
        .reduce(CardsHandler::EditLink {
            link: LinkId { card: 0, link: 2 },
            new_label: Some(String::new()),
            new_url: Some("http://sea".to_string()),
        })
        .unwrap();
    assert_eq!(next.inner[0].links[2], anchor("C", "http://sea"));
}

#[test]
fn edit_link_out_of_range_fails_whatever_the_texts() {
    assert_eq!(
        sample().reduce(CardsHandler::EditLink {
            link: LinkId { card: 3, link: 0 },
            new_label: None,
            new_url: None,
        }),
        Err(IndexError::Card(3))
    );
    assert_eq!(
        sample().reduce(CardsHandler::EditLink {
            link: LinkId { card: 2, link: 1 },
            new_label: Some("x".to_string()),
            new_url: None,
        }),
        Err(IndexError::Link(LinkId { card: 2, link: 1 }))
    );
}

#[test]
fn swap_distant_links() {
    let next = sample().reduce(CardsHandler::SwapLinks { card: 0, link1: 2, link2: 0 }).unwrap();
    assert_eq!(
        next.inner[0].links,
        vec![anchor("C", "http://c"), anchor("B", "http://b"), anchor("A", "http://a")]
    );
    let same = sample().reduce(CardsHandler::SwapLinks { card: 0, link1: 1, link2: 1 }).unwrap();
    assert_eq!(same, sample());
}

#[test]
fn swap_links_out_of_range_names_the_first_missing() {
    assert_eq!(
        sample().reduce(CardsHandler::SwapLinks { card: 4, link1: 0, link2: 1 }),
        Err(IndexError::Card(4))
    );
    assert_eq!(
        sample().reduce(CardsHandler::SwapLinks { card: 0, link1: 3, link2: 4 }),
        Err(IndexError::Link(LinkId { card: 0, link: 3 }))
    );
    assert_eq!(
        sample().reduce(CardsHandler::SwapLinks { card: 0, link1: 0, link2: 3 }),
        Err(IndexError::Link(LinkId { card: 0, link: 3 }))
    );
    assert_eq!(
        sample().reduce(CardsHandler::SwapLinks { card: 1, link1: 0, link2: 0 }),
        Err(IndexError::Link(LinkId { card: 1, link: 0 }))
    );
}

#[test]
fn actions_compare_by_what_they_hold() {
    let edit = CardsHandler::EditLink {
        link: LinkId { card: 1, link: 2 },
        new_label: Some("a".to_string()),
        new_url: None,
    };
    assert_eq!(edit.clone(), edit);
    assert_ne!(
        edit,
        CardsHandler::EditLink {
            link: LinkId { card: 1, link: 2 },
            new_label: None,
            new_url: Some("a".to_string()),
        }
    );
    assert_ne!(CardsHandler::Remove(1), CardsHandler::RemoveLink(LinkId { card: 1, link: 0 }));
    assert_eq!(
        CardsHandler::AddLink { card_index: 1, link: anchor("a", "b") },
        CardsHandler::AddLink { card_index: 1, link: anchor("a", "b") }
    );
    assert_ne!(
        CardsHandler::Swap { card1: 1, card2: 2 },
        CardsHandler::Swap { card1: 2, card2: 1 }
    );
    assert_ne!(
        CardsHandler::SwapLinks { card: 0, link1: 1, link2: 2 },
        CardsHandler::SwapLinks { card: 0, link1: 1, link2: 3 }
    );
    assert_ne!(CardsHandler::Add("a".to_string()), CardsHandler::Add("b".to_string()));
    assert_ne!(
        CardsHandler::Rename { card: 0, new_name: "a".to_string() },
        CardsHandler::Rename { card: 1, new_name: "a".to_string() }
    );
}
