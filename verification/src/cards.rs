//! The data model: links, cards and the collection of cards.
//!
//! Every type has a view that holds its text as sequences of characters and
//! its lists as sequences, and the contracts of the crate speak of those
//! views. Positions are dense and start at zero: the position of an element is
//! its index in the sequence.

use vstd::prelude::*;
use vstd::std_specs::cmp::PartialEqSpecImpl;

verus! {

/// The position of a card in the collection.
pub type CardId = usize;

/// The position of a link in its card.
pub type LinkPos = usize;

/// A labelled link.
#[derive(Debug)]
pub struct Anchor {
    pub label: String,
    pub url: String,
}

/// What an [`Anchor`] holds.
pub struct AnchorView {
    pub label: Seq<char>,
    pub url: Seq<char>,
}

impl View for Anchor {
    type V = AnchorView;

    open spec fn view(&self) -> AnchorView {
        AnchorView { label: self.label@, url: self.url@ }
    }
}

impl Clone for Anchor {
    fn clone(&self) -> (res: Self)
        ensures
            res@ == self@,
    {
        Anchor { label: self.label.clone(), url: self.url.clone() }
    }
}

impl PartialEq for Anchor {
    fn eq(&self, other: &Self) -> (r: bool) {
        self.label == other.label && self.url == other.url
    }
}

impl PartialEqSpecImpl for Anchor {
    open spec fn obeys_eq_spec() -> bool {
        true
    }

    open spec fn eq_spec(&self, other: &Self) -> bool {
        self@ == other@
    }
}

/// The views of a list of links, in order.
pub open spec fn anchor_views(links: Seq<Anchor>) -> Seq<AnchorView> {
    links.map_values(|a: Anchor| a@)
}

/// The link that a pair of the form `[label, url]` describes.
pub open spec fn pair_view(pair: [String; 2]) -> AnchorView {
    AnchorView { label: pair[0]@, url: pair[1]@ }
}

/// The links that a list of such pairs describes, in order.
pub open spec fn pair_views(pairs: Seq<[String; 2]>) -> Seq<AnchorView> {
    pairs.map_values(|pair: [String; 2]| pair_view(pair))
}

/// A named group of links. The order of the links is kept.
#[derive(Debug)]
pub struct Card {
    pub name: String,
    pub links: Vec<Anchor>,
}

/// What a [`Card`] holds.
pub struct CardView {
    pub name: Seq<char>,
    pub links: Seq<AnchorView>,
}

impl View for Card {
    type V = CardView;

    open spec fn view(&self) -> CardView {
        CardView { name: self.name@, links: anchor_views(self.links@) }
    }
}

impl Card {
    /// Constructs a card with no links.
    pub fn new(name: String) -> (card: Card)
        ensures
            card@ == (CardView { name: name@, links: Seq::empty() }),
    {
        let card = Card { name, links: Vec::new() };
        assert(anchor_views(card.links@) =~= Seq::empty());
        card
    }

    /// Constructs a card with links from pairs of the form `[label, url]`,
    /// in their order.
    pub fn from(name: String, links: Vec<[String; 2]>) -> (card: Card)
        ensures
            card@ == (CardView { name: name@, links: pair_views(links@) }),
    {
        let mut anchors: Vec<Anchor> = Vec::new();
        let mut i: usize = 0;
        while i < links.len()
            invariant
                i <= links.len(),
                anchors.len() == i,
                forall|k: int| 0 <= k < i ==> anchors[k]@ == pair_view(links[k]),
            decreases links.len() - i,
        {
            let pair = &links[i];
            anchors.push(Anchor { label: pair[0].clone(), url: pair[1].clone() });
            i += 1;
        }
        assert(anchor_views(anchors@) =~= pair_views(links@));
        Card { name, links: anchors }
    }

    /// Appends a link to the end of the card.
    pub fn push_link(&mut self, anchor: Anchor)
        ensures
            final(self)@ == (CardView {
                name: old(self)@.name,
                links: old(self)@.links.push(anchor@),
            }),
    {
        self.links.push(anchor);
        assert(anchor_views(self.links@) =~= anchor_views(old(self).links@).push(anchor@));
    }

    /// Removes the link at position `nth` and hands it out. The links behind
    /// it move one position down.
    pub fn remove_link(&mut self, nth: usize) -> (removed: Anchor)
        requires
            nth < old(self)@.links.len(),
        ensures
            removed@ == old(self)@.links[nth as int],
            final(self)@ == (CardView {
                name: old(self)@.name,
                links: old(self)@.links.remove(nth as int),
            }),
    {
        let removed = self.links.remove(nth);
        assert(anchor_views(self.links@) =~= anchor_views(old(self).links@).remove(nth as int));
        removed
    }
}

impl Clone for Card {
    fn clone(&self) -> (res: Self)
        ensures
            res@ == self@,
    {
        let mut links: Vec<Anchor> = Vec::new();
        let mut i: usize = 0;
        while i < self.links.len()
            invariant
                i <= self.links.len(),
                links.len() == i,
                forall|k: int| 0 <= k < i ==> links[k]@ == self.links[k]@,
            decreases self.links.len() - i,
        {
            links.push(self.links[i].clone());
            i += 1;
        }
        assert(anchor_views(links@) =~= anchor_views(self.links@));
        Card { name: self.name.clone(), links }
    }
}

impl PartialEq for Card {
    fn eq(&self, other: &Self) -> (r: bool) {
        if !(self.name == other.name) {
            return false;
        }
        if self.links.len() != other.links.len() {
            assert(self@.links.len() != other@.links.len());
            return false;
        }
        let mut i: usize = 0;
        while i < self.links.len()
            invariant
                i <= self.links.len(),
                self.links.len() == other.links.len(),
                forall|k: int| 0 <= k < i ==> self.links[k]@ == other.links[k]@,
            decreases self.links.len() - i,
        {
            if !(self.links[i] == other.links[i]) {
                assert(self@.links[i as int] != other@.links[i as int]);
                return false;
            }
            i += 1;
        }
        assert(self@.links =~= other@.links);
        true
    }
}

impl PartialEqSpecImpl for Card {
    open spec fn obeys_eq_spec() -> bool {
        true
    }

    open spec fn eq_spec(&self, other: &Self) -> bool {
        self@ == other@
    }
}

/// A card taken by itself, as it is handed to whatever shows a single card.
pub type CardData = Card;

/// The views of a list of cards, in order.
pub open spec fn card_views(cards: Seq<Card>) -> Seq<CardView> {
    cards.map_values(|c: Card| c@)
}

/// The place of one link: its card and its position in that card.
#[derive(Clone, Copy, Debug, PartialEq, Eq, Structural)]
pub struct LinkId {
    pub card: CardId,
    pub link: LinkPos,
}

/// The collection of cards: one snapshot of the whole state. The order of
/// the cards is kept.
#[derive(Debug)]
pub struct Cards {
    pub inner: Vec<Card>,
}

impl View for Cards {
    type V = Seq<CardView>;

    open spec fn view(&self) -> Seq<CardView> {
        card_views(self.inner@)
    }
}

impl Cards {
    /// Hands out the cards in their order.
    pub fn into_inner(self) -> (inner: Vec<Card>)
        ensures
            inner == self.inner,
    {
        self.inner
    }
}

impl Default for Cards {
    /// The collection without cards.
    fn default() -> (cards: Cards)
        ensures
            cards@ == Seq::<CardView>::empty(),
    {
        let cards = Cards { inner: Vec::new() };
        cards
    }
}

impl Clone for Cards {
    fn clone(&self) -> (res: Self)
        ensures
            res@ == self@,
    {
        let mut inner: Vec<Card> = Vec::new();
        let mut i: usize = 0;
        while i < self.inner.len()
            invariant
                i <= self.inner.len(),
                inner.len() == i,
                forall|k: int| 0 <= k < i ==> inner[k]@ == self.inner[k]@,
            decreases self.inner.len() - i,
        {
            inner.push(self.inner[i].clone());
            i += 1;
        }
        Cards { inner }
    }
}

impl PartialEq for Cards {
    fn eq(&self, other: &Self) -> (r: bool) {
        if self.inner.len() != other.inner.len() {
            assert(self@.len() != other@.len());
            return false;
        }
        let mut i: usize = 0;
        while i < self.inner.len()
            invariant
                i <= self.inner.len(),
                self.inner.len() == other.inner.len(),
                forall|k: int| 0 <= k < i ==> self.inner[k]@ == other.inner[k]@,
            decreases self.inner.len() - i,
        {
            if !(self.inner[i] == other.inner[i]) {
                assert(self@[i as int] != other@[i as int]);
                return false;
            }
            i += 1;
        }
        assert(self@ =~= other@);
        true
    }
}

impl PartialEqSpecImpl for Cards {
    open spec fn obeys_eq_spec() -> bool {
        true
    }

    open spec fn eq_spec(&self, other: &Self) -> bool {
        self@ == other@
    }
}

} // verus!
