//! The quest board: quests in columns by status.
use vstd::prelude::*;

use crate::plan::quests_of;
use crate::quest::{CompletionSource, Quest, QuestStatus, QuestView};
use crate::text::text_of;

verus! {

/// A card on the board.
#[derive(Debug, PartialEq, Eq)]
pub struct Card {
    pub id: String,
    pub title: String,
    /// How a finished quest was completed, where that is known.
    pub source: Option<String>,
}

/// A card, as text.
pub struct CardView {
    pub id: Seq<char>,
    pub title: Seq<char>,
    pub source: Option<Seq<char>>,
}

impl View for Card {
    type V = CardView;

    open spec fn view(&self) -> CardView {
        CardView { id: self.id@, title: self.title@, source: text_of(self.source) }
    }
}

/// A column of the board.
#[derive(Debug, PartialEq, Eq)]
pub struct Column {
    pub status: String,
    pub count: usize,
    pub quests: Vec<Card>,
}

/// A column, as text.
pub struct ColumnView {
    pub status: Seq<char>,
    pub count: nat,
    pub quests: Seq<CardView>,
}

/// The cards of a list, as text.
pub open spec fn cards_of(cards: Seq<Card>) -> Seq<CardView> {
    cards.map_values(|c: Card| c@)
}

impl View for Column {
    type V = ColumnView;

    open spec fn view(&self) -> ColumnView {
        ColumnView {
            status: self.status@,
            count: self.count as nat,
            quests: cards_of(self.quests@),
        }
    }
}

/// The board: its columns from left to right.
#[derive(Debug, PartialEq, Eq)]
pub struct Board {
    pub open: Column,
    pub done: Column,
    pub dismissed: Column,
}

/// The label of a completion source.
pub open spec fn source_label(source: Option<CompletionSource>) -> Option<Seq<char>> {
    match source {
        Some(CompletionSource::Manual) => Some("manual"@),
        Some(CompletionSource::Detected) => Some("detected"@),
        None => None,
    }
}

/// The card of a quest.
pub open spec fn card_of(quest: QuestView) -> CardView {
    CardView {
        id: quest.id,
        title: quest.title,
        source: source_label(quest.completion_source),
    }
}

/// The cards of the quests with a status, in their order.
pub open spec fn cards_with(quests: Seq<QuestView>, status: QuestStatus) -> Seq<CardView> {
    quests.filter(|q: QuestView| q.status == status).map_values(|q: QuestView| card_of(q))
}

/// The name of a status.
pub open spec fn status_name(status: QuestStatus) -> Seq<char> {
    match status {
        QuestStatus::Open => "open"@,
        QuestStatus::Done => "done"@,
        QuestStatus::Dismissed => "dismissed"@,
    }
}

/// The column of a status.
pub open spec fn column(quests: Seq<QuestView>, status: QuestStatus) -> ColumnView {
    ColumnView {
        status: status_name(status),
        count: cards_with(quests, status).len(),
        quests: cards_with(quests, status),
    }
}

/// The card of a quest.
fn make_card(quest: &Quest) -> (r: Card)
    ensures
        r@ == card_of(quest@),
{
    Card {
        id: quest.id.clone(),
        title: quest.title.clone(),
        source: match quest.completion_source {
            Some(CompletionSource::Manual) => Some("manual".to_owned()),
            Some(CompletionSource::Detected) => Some("detected".to_owned()),
            None => None,
        },
    }
}

/// A column of the given cards.
fn make_column(status: &str, quests: Vec<Card>) -> (r: Column)
    ensures
        r@ == (ColumnView {
            status: status@,
            count: quests@.len(),
            quests: cards_of(quests@),
        }),
{
    Column { status: status.to_owned(), count: quests.len(), quests }
}

/// What one more quest does to the cards with a status.
pub proof fn lemma_cards_step(quests: Seq<QuestView>, at: int, status: QuestStatus)
    requires
        0 <= at < quests.len(),
    ensures
        cards_with(quests.take(at + 1), status) == (if quests[at].status == status {
            cards_with(quests.take(at), status).push(card_of(quests[at]))
        } else {
            cards_with(quests.take(at), status)
        }),
{
    let wanted = |q: QuestView| q.status == status;
    let shown = |q: QuestView| card_of(q);
    let longer = quests.take(at + 1);
    assert(longer.drop_last() == quests.take(at));
    assert(longer.last() == quests[at]);
    reveal(Seq::filter);
    assert(longer.filter(wanted) == (if wanted(longer.last()) {
        longer.drop_last().filter(wanted).push(longer.last())
    } else {
        longer.drop_last().filter(wanted)
    }));
    assert(longer.drop_last().filter(wanted).push(quests[at]).map_values(shown)
        =~= longer.drop_last().filter(wanted).map_values(shown).push(card_of(quests[at])));
}

/// Groups quests into the columns of the board.
pub fn board_columns(quests: &[Quest]) -> (r: Board)
    ensures
        r.open@ == column(quests_of(quests@), QuestStatus::Open),
        r.done@ == column(quests_of(quests@), QuestStatus::Done),
        r.dismissed@ == column(quests_of(quests@), QuestStatus::Dismissed),
{
    let mut open: Vec<Card> = Vec::new();
    let mut done: Vec<Card> = Vec::new();
    let mut dismissed: Vec<Card> = Vec::new();
    let ghost all = quests_of(quests@);
    let n: usize = quests.len();
    let mut i: usize = 0;
    proof {
        reveal(Seq::filter);
        assert(all.take(0) == Seq::<QuestView>::empty());
        assert(cards_of(open@) =~= cards_with(all.take(0), QuestStatus::Open));
        assert(cards_of(done@) =~= cards_with(all.take(0), QuestStatus::Done));
        assert(cards_of(dismissed@) =~= cards_with(all.take(0), QuestStatus::Dismissed));
    }
    while i < n
        invariant
            n == quests@.len(),
            i <= n,
            all == quests_of(quests@),
            cards_of(open@) == cards_with(all.take(i as int), QuestStatus::Open),
            cards_of(done@) == cards_with(all.take(i as int), QuestStatus::Done),
            cards_of(dismissed@) == cards_with(all.take(i as int), QuestStatus::Dismissed),
        decreases n - i,
    {
        let quest = &quests[i];
        assert(all[i as int] == quest@);
        proof {
            lemma_cards_step(all, i as int, QuestStatus::Open);
            lemma_cards_step(all, i as int, QuestStatus::Done);
            lemma_cards_step(all, i as int, QuestStatus::Dismissed);
        }
        let card = make_card(quest);
        match quest.status {
            QuestStatus::Open => put(&mut open, card),
            QuestStatus::Done => put(&mut done, card),
            QuestStatus::Dismissed => put(&mut dismissed, card),
        }
        i = i + 1;
    }
    assert(all.take(n as int) == all);
    assert(cards_of(open@).len() == open@.len());
    assert(cards_of(done@).len() == done@.len());
    assert(cards_of(dismissed@).len() == dismissed@.len());
    Board {
        open: make_column("open", open),
        done: make_column("done", done),
        dismissed: make_column("dismissed", dismissed),
    }
}

/// The quests with the pinned ones first, in their order, and then the others in theirs.
pub open spec fn with_pinned_first(quests: Seq<QuestView>) -> Seq<QuestView> {
    quests.filter(|q: QuestView| q.pinned) + quests.filter(|q: QuestView| !q.pinned)
}

/// Moves the pinned quests to the top.
pub fn pinned_first(quests: Vec<Quest>) -> (r: Vec<Quest>)
    ensures
        quests_of(r@) == with_pinned_first(quests_of(quests@)),
{
    let mut top = pick(&quests, true);
    let mut rest = pick(&quests, false);
    let ghost (a, b) = (top@, rest@);
    top.append(&mut rest);
    assert(quests_of(a + b) =~= quests_of(a) + quests_of(b));
    assert((|q: QuestView| q.pinned == true) =~= (|q: QuestView| q.pinned));
    assert((|q: QuestView| q.pinned == false) =~= (|q: QuestView| !q.pinned));
    top
}

/// The quests that are pinned, or those that are not.
fn pick(quests: &Vec<Quest>, pinned: bool) -> (r: Vec<Quest>)
    ensures
        quests_of(r@) == quests_of(quests@).filter(|q: QuestView| q.pinned == pinned),
{
    let mut picked: Vec<Quest> = Vec::new();
    let ghost all = quests_of(quests@);
    let ghost wanted = |q: QuestView| q.pinned == pinned;
    let n: usize = quests.len();
    let mut i: usize = 0;
    proof {
        reveal(Seq::filter);
        assert(quests_of(picked@) =~= all.take(0).filter(wanted));
    }
    while i < n
        invariant
            n == quests@.len(),
            i <= n,
            all == quests_of(quests@),
            wanted == (|q: QuestView| q.pinned == pinned),
            quests_of(picked@) == all.take(i as int).filter(wanted),
        decreases n - i,
    {
        proof {
            reveal(Seq::filter);
            assert(all.take(i + 1).drop_last() == all.take(i as int));
            assert(all.take(i + 1).last() == quests@[i as int]@);
        }
        if quests[i].pinned == pinned {
            let ghost before = picked@;
            let copy = quests[i].clone();
            picked.push(copy);
            assert(quests_of(before.push(copy)) =~= quests_of(before).push(copy@));
        }
        i = i + 1;
    }
    assert(all.take(n as int) == all);
    picked
}

/// Moving the pinned quests to the top loses none and adds none, and puts no pinned one
/// below one that is not.
pub proof fn pinning_reorders(quests: Seq<QuestView>)
    ensures
        with_pinned_first(quests).to_multiset() == quests.to_multiset(),
        forall|i: int, j: int|
            0 <= i < j < quests.len() && (#[trigger] with_pinned_first(quests)[j]).pinned ==> (
            #[trigger] with_pinned_first(quests)[i]).pinned,
{
    let pinned = |q: QuestView| q.pinned;
    let other = |q: QuestView| !q.pinned;
    let (top, rest) = (quests.filter(pinned), quests.filter(other));
    lemma_split(quests);
    vstd::seq_lib::lemma_multiset_commutative(top, rest);
    assert forall|i: int| 0 <= i < top.len() implies (#[trigger] top[i]).pinned by {
        quests.lemma_filter_pred(pinned, i);
    }
    assert forall|i: int| 0 <= i < rest.len() implies !(#[trigger] rest[i]).pinned by {
        quests.lemma_filter_pred(other, i);
    }
    assert forall|i: int, j: int|
        0 <= i < j < quests.len() && (#[trigger] with_pinned_first(quests)[j]).pinned implies (
    #[trigger] with_pinned_first(quests)[i]).pinned by {
        let all = with_pinned_first(quests);
        if j >= top.len() {
            assert(j < all.len()) by {
                lemma_lengths(quests);
            }
            assert(all[j] == rest[j - top.len()]);
        } else {
            assert(all[i] == top[i]);
        }
    }
}

/// The pinned quests and the others are all quests.
proof fn lemma_split(quests: Seq<QuestView>)
    ensures
        quests.filter(|q: QuestView| q.pinned).to_multiset().add(
            quests.filter(|q: QuestView| !q.pinned).to_multiset(),
        ) == quests.to_multiset(),
    decreases quests.len(),
{
    broadcast use vstd::seq_lib::group_to_multiset_ensures;

    let pinned = |q: QuestView| q.pinned;
    let other = |q: QuestView| !q.pinned;
    reveal(Seq::filter);
    if quests.len() == 0 {
        assert(quests.filter(pinned).to_multiset().add(quests.filter(other).to_multiset())
            =~= quests.to_multiset());
    } else {
        let init = quests.drop_last();
        lemma_split(init);
        assert(quests =~= init.push(quests.last()));
        assert(quests.filter(pinned).to_multiset().add(quests.filter(other).to_multiset())
            =~= quests.to_multiset());
    }
}

/// The pinned quests and the others are as many as all quests.
proof fn lemma_lengths(quests: Seq<QuestView>)
    ensures
        with_pinned_first(quests).len() == quests.len(),
    decreases quests.len(),
{
    reveal(Seq::filter);
    if quests.len() > 0 {
        lemma_lengths(quests.drop_last());
    }
}

/// Appends a card.
fn put(cards: &mut Vec<Card>, card: Card)
    ensures
        cards_of(final(cards)@) == cards_of(old(cards)@).push(card@),
{
    let ghost before = cards@;
    cards.push(card);
    assert(cards_of(before.push(card)) =~= cards_of(before).push(card@));
}

/// The columns together count as many cards as there are quests.
pub proof fn board_counts_every_quest(quests: Seq<QuestView>)
    ensures
        column(quests, QuestStatus::Open).count + column(quests, QuestStatus::Done).count
            + column(quests, QuestStatus::Dismissed).count == quests.len(),
    decreases quests.len(),
{
    if quests.len() == 0 {
        reveal(Seq::filter);
    } else {
        let at = quests.len() - 1;
        board_counts_every_quest(quests.drop_last());
        assert(quests.take(at) == quests.drop_last());
        assert(quests.take(at + 1) == quests);
        lemma_cards_step(quests, at, QuestStatus::Open);
        lemma_cards_step(quests, at, QuestStatus::Done);
        lemma_cards_step(quests, at, QuestStatus::Dismissed);
    }
}

/// The card of a quest is in the column of its status.
pub proof fn board_holds_every_quest(quests: Seq<QuestView>, at: int)
    requires
        0 <= at < quests.len(),
    ensures
        column(quests, quests[at].status).quests.contains(card_of(quests[at])),
    decreases quests.len(),
{
    let last = quests.len() - 1;
    let status = quests[at].status;
    assert(quests.take(last + 1) == quests);
    lemma_cards_step(quests, last, status);
    let cards = cards_with(quests, status);
    if at < last {
        board_holds_every_quest(quests.take(last), at);
        let before = cards_with(quests.take(last), status);
        let i = choose|i: int| 0 <= i < before.len() && before[i] == card_of(quests[at]);
        assert(cards[i] == card_of(quests[at]));
    } else {
        assert(cards[cards.len() - 1] == card_of(quests[at]));
    }
}

} // verus!
