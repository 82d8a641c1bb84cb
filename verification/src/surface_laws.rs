//! What holds of the replies, the lists and the board.
use vstd::prelude::*;

use crate::api::{
    error_reply, missing, of_kind, or_empty, quest_reply, skip_reason, wanted_kind, written,
    BodyView, ReplyView,
};
use crate::board::{column, with_pinned_first, CardView};
use crate::quest::{kind_named, CompletionSource, Quest, QuestKind, QuestStatus, QuestView};
use crate::text::trimmed;
use crate::text_laws::{all_white, blank_is_white_space_alone};

verus! {

// ---- replies ---------------------------------------------------------------------------
/// A write that succeeded is answered with the quest, and one that failed with its error
/// and the status for it.
pub proof fn writes_are_answered(quest: Quest, error: String, failure: u16)
    ensures
        written(Ok(quest), failure) == (ReplyView { status: 200, body: BodyView::Quest(quest@) }),
        written(Err(error), failure) == (ReplyView {
            status: failure,
            body: BodyView::Error(error@),
        }),
        quest_reply(quest@) == (ReplyView { status: 200, body: BodyView::Quest(quest@) }),
        error_reply(failure, error@) == (ReplyView {
            status: failure,
            body: BodyView::Error(error@),
        }),
{
}

/// An operation is refused for want of a quest exactly where none was found: as not found
/// where there is none, and with the error where it could not be looked up.
pub proof fn missing_quests_are_refused(
    quest: Quest,
    error: String,
    not_found: Seq<char>,
    failure: u16,
)
    ensures
        missing(Ok(Some(quest)), not_found, failure) is None,
        missing(Ok(None), not_found, failure) == Some(
            ReplyView { status: 404, body: BodyView::Error(not_found) },
        ),
        missing(Err(error), not_found, failure) == Some(
            ReplyView { status: failure, body: BodyView::Error(error@) },
        ),
{
}

/// A skipped pass is answered with these words, and a setting that is not there as empty.
pub proof fn absence_is_answered(text: Seq<char>)
    ensures
        skip_reason() == "not open, snoozed, detection off, or no context available"@,
        or_empty(Some(text)) == text,
        or_empty(None) == Seq::<char>::empty(),
{
}

// ---- lists -----------------------------------------------------------------------------
/// A list is restricted to a kind exactly where the query names one, whatever the space
/// around the name.
pub proof fn lists_are_restricted_by_name(name: Seq<char>)
    ensures
        wanted_kind(None) is None,
        all_white(name) ==> wanted_kind(Some(name)) is None,
        !all_white(name) ==> wanted_kind(Some(name)) == Some(kind_named(trimmed(name))),
{
    blank_is_white_space_alone(name);
}

/// A list holds, in order, exactly the quests of the wanted kind, and all of them where no
/// kind is wanted.
pub proof fn lists_hold_the_wanted_kind(quests: Seq<QuestView>, quest: QuestView, kind: QuestKind)
    ensures
        of_kind(quests, None) == quests,
        of_kind(Seq::empty(), Some(kind)) == Seq::<QuestView>::empty(),
        quest.kind == kind ==> of_kind(quests.push(quest), Some(kind)) == of_kind(
            quests,
            Some(kind),
        ).push(quest),
        quest.kind != kind ==> of_kind(quests.push(quest), Some(kind)) == of_kind(
            quests,
            Some(kind),
        ),
    decreases quests.len(),
{
    reveal(Seq::filter);
    assert(quests.push(quest).drop_last() =~= quests);
    if quests.len() > 0 {
        lists_hold_the_wanted_kind(quests.drop_last(), quests.last(), kind);
        assert(quests.drop_last().push(quests.last()) =~= quests);
        assert(of_kind(quests, None) =~= of_kind(quests.drop_last(), None).push(quests.last()));
    } else {
        assert(of_kind(quests, None) =~= quests);
    }
}

// ---- the board -------------------------------------------------------------------------
/// One more quest adds one card, at the end of the column of its status, with its id, its
/// title and how it was completed, and changes no other column; a column counts its cards.
pub proof fn quests_add_their_card(quests: Seq<QuestView>, quest: QuestView, status: QuestStatus)
    ensures
        ({
            let before = column(quests, status);
            let after = column(quests.push(quest), status);
            let card = CardView {
                id: quest.id,
                title: quest.title,
                source: match quest.completion_source {
                    Some(CompletionSource::Manual) => Some("manual"@),
                    Some(CompletionSource::Detected) => Some("detected"@),
                    None => None,
                },
            };
            &&& quest.status == status ==> after.quests == before.quests.push(card)
            &&& quest.status != status ==> after.quests == before.quests
            &&& after.count == after.quests.len()
        }),
        column(Seq::empty(), status).quests == Seq::<CardView>::empty(),
        column(quests, QuestStatus::Open).status == "open"@,
        column(quests, QuestStatus::Done).status == "done"@,
        column(quests, QuestStatus::Dismissed).status == "dismissed"@,
{
    let all = quests.push(quest);
    let at = quests.len() as int;
    crate::board::lemma_cards_step(all, at, status);
    assert(all.take(at + 1) =~= all);
    assert(all.take(at) =~= quests);
    reveal(Seq::filter);
    assert(column(Seq::empty(), status).quests =~= Seq::<CardView>::empty());
}

/// Moving the pinned quests to the top keeps the pinned ones in their order, and the others
/// in theirs.
pub proof fn pinning_keeps_the_order(quests: Seq<QuestView>)
    ensures
        with_pinned_first(quests).filter(|q: QuestView| q.pinned) == quests.filter(
            |q: QuestView| q.pinned,
        ),
        with_pinned_first(quests).filter(|q: QuestView| !q.pinned) == quests.filter(
            |q: QuestView| !q.pinned,
        ),
{
    let pinned = |q: QuestView| q.pinned;
    let other = |q: QuestView| !q.pinned;
    let (top, rest) = (quests.filter(pinned), quests.filter(other));
    Seq::filter_distributes_over_add(top, rest, pinned);
    Seq::filter_distributes_over_add(top, rest, other);
    assert forall|i: int| 0 <= i < top.len() implies pinned(#[trigger] top[i]) by {
        quests.lemma_filter_pred(pinned, i);
    }
    assert forall|i: int| 0 <= i < rest.len() implies other(#[trigger] rest[i]) by {
        quests.lemma_filter_pred(other, i);
    }
    lemma_filter_all(top, pinned);
    lemma_filter_none(rest, pinned);
    lemma_filter_none(top, other);
    lemma_filter_all(rest, other);
    assert(top + Seq::<QuestView>::empty() =~= top);
    assert(Seq::<QuestView>::empty() + rest =~= rest);
}

proof fn lemma_filter_all(quests: Seq<QuestView>, wanted: spec_fn(QuestView) -> bool)
    requires
        forall|i: int| 0 <= i < quests.len() ==> wanted(#[trigger] quests[i]),
    ensures
        quests.filter(wanted) == quests,
    decreases quests.len(),
{
    reveal(Seq::filter);
    if quests.len() > 0 {
        let init = quests.drop_last();
        assert forall|i: int| 0 <= i < init.len() implies wanted(#[trigger] init[i]) by {
            assert(init[i] == quests[i]);
        }
        lemma_filter_all(init, wanted);
        assert(wanted(quests[quests.len() - 1]));
        assert(init.push(quests.last()) =~= quests);
    } else {
        assert(quests.filter(wanted) =~= quests);
    }
}

proof fn lemma_filter_none(quests: Seq<QuestView>, wanted: spec_fn(QuestView) -> bool)
    requires
        forall|i: int| 0 <= i < quests.len() ==> !wanted(#[trigger] quests[i]),
    ensures
        quests.filter(wanted) == Seq::<QuestView>::empty(),
    decreases quests.len(),
{
    reveal(Seq::filter);
    if quests.len() > 0 {
        let init = quests.drop_last();
        assert forall|i: int| 0 <= i < init.len() implies !wanted(#[trigger] init[i]) by {
            assert(init[i] == quests[i]);
        }
        lemma_filter_none(init, wanted);
        assert(!wanted(quests[quests.len() - 1]));
    } else {
        assert(quests.filter(wanted) =~= Seq::<QuestView>::empty());
    }
}

} // verus!
