//! What stays true of the program.
use vstd::prelude::*;

use crate::laws::sessions::{
    law_answered_sessions_stay_well_formed, law_sessions_stay_well_formed, rows_countable,
    well_formed,
};
use crate::laws::steady::{
    law_an_answer_opens_nothing_else, law_one_thing_stays_open, one_thing_open,
};
use crate::state::{AppModel, Message, SessionModel, initial_app};
use crate::update::{
    answers, app_updated, covered, law_sessions_keep_their_id, process_wide, prompt_typed,
    session_answered, session_updated, within_limits,
};
use crate::update::collection::{blank_session, lemma_position, position, session_closed};

verus! {

/// What is true of every session of the program: it is well-formed, and at
/// most one thing lies over its requests.
pub open spec fn in_order(s: SessionModel) -> bool {
    well_formed(s) && one_thing_open(s)
}

/// What is true of the program at every moment: its tabs are valid, and each
/// of its sessions is in order.
pub open spec fn app_well_formed(a: AppModel) -> bool {
    &&& a.tabs_valid()
    &&& forall|i: int| 0 <= i < a.collections.len() ==> in_order(#[trigger] a.collections[i])
}

/// Whether a message asks no more than the machine can count.
pub open spec fn countable(a: AppModel, msg: Message) -> bool {
    &&& within_limits(a, msg)
    &&& msg is CollectionOpened ==> a.collections.len() < usize::MAX
    &&& forall|i: int|
        0 <= i < a.collections.len() ==> rows_countable(#[trigger] a.collections[i])
}

proof fn lemma_replaced_session(a: AppModel, index: int, session: SessionModel)
    requires
        app_well_formed(a),
        0 <= index < a.collections.len(),
        session.id == a.collections[index].id,
        in_order(session),
    ensures
        app_well_formed(AppModel { collections: a.collections.update(index, session), ..a }),
{
    let after = AppModel { collections: a.collections.update(index, session), ..a };
    assert forall|i: int| 0 <= i < after.collections.len() implies in_order(
        #[trigger] after.collections[i],
    ) && after.collections[i].id < after.next_id by {
        assert(in_order(a.collections[i]));
    }
    assert forall|i: int, j: int| 0 <= i < j < after.collections.len() implies (
    #[trigger] after.collections[i]).id != (#[trigger] after.collections[j]).id by {
        assert(after.collections[i].id == a.collections[i].id);
        assert(after.collections[j].id == a.collections[j].id);
    }
}

proof fn lemma_closed(a: AppModel, id: u64)
    requires
        app_well_formed(a),
    ensures
        app_well_formed(session_closed(a, id).0),
{
    let index = position(a.collections, id);
    lemma_position(a.collections, id);
    if index < a.collections.len() {
        let after = session_closed(a, id).0;
        if a.collections.len() > 1 {
            assert forall|i: int| 0 <= i < after.collections.len() implies in_order(
                #[trigger] after.collections[i],
            ) && after.collections[i].id < after.next_id by {
                let k = if i < index { i } else { i + 1 };
                assert(after.collections[i] == a.collections[k]);
            }
            assert forall|i: int, j: int| 0 <= i < j < after.collections.len() implies (
            #[trigger] after.collections[i]).id != (#[trigger] after.collections[j]).id by {
                let k = if i < index { i } else { i + 1 };
                let l = if j < index { j } else { j + 1 };
                assert(after.collections[i] == a.collections[k]);
                assert(after.collections[j] == a.collections[l]);
            }
        } else {
            assert(a.collections[0].id == id);
            assert(in_order(blank_session(id)));
        }
    }
}

/// Whatever the program is told, it stays well-formed: there is always an
/// active tab, no two tabs are confused with one another, a finished run is
/// shown only while it is remembered, at most one thing lies over the requests
/// of a tab, and what is on the screen can always be told.
#[verifier::spinoff_prover]
#[verifier::rlimit(60)]
pub proof fn law_the_program_stays_well_formed(a: AppModel, msg: Message)
    requires
        app_well_formed(a),
        countable(a, msg),
    ensures
        app_well_formed(app_updated(a, msg).0),
{
    let after = app_updated(a, msg).0;
    if answers(msg) is Some {
        let index = position(a.collections, answers(msg)->0);
        lemma_position(a.collections, answers(msg)->0);
        if index < a.collections.len() {
            law_answered_sessions_stay_well_formed(a.collections[index], msg);
            law_an_answer_opens_nothing_else(a.collections[index], msg);
            lemma_replaced_session(a, index, session_answered(a.collections[index], msg));
        }
    } else if process_wide(msg) {
        match msg {
            Message::CollectionOpened { base_dir, path, result, .. } => {
                if result is Ok {
                    let opened = after.collections.last();
                    assert(in_order(opened));
                    assert forall|i: int| 0 <= i < after.collections.len() implies in_order(
                        #[trigger] after.collections[i],
                    ) && after.collections[i].id < after.next_id by {
                        if i < a.collections.len() {
                            assert(after.collections[i] == a.collections[i]);
                        }
                    }
                    assert forall|i: int, j: int| 0 <= i < j < after.collections.len() implies (
                    #[trigger] after.collections[i]).id != (
                    #[trigger] after.collections[j]).id by {
                        assert(after.collections[i] == a.collections[i]);
                        if j < a.collections.len() {
                            assert(after.collections[j] == a.collections[j]);
                        }
                    }
                }
            },
            Message::CloseCollectionRequested => {
                lemma_closed(a, a.active().id);
            },
            Message::ConfirmCloseCollection => {
                if a.close_confirm is Some {
                    lemma_closed(
                        AppModel { close_confirm: None, ..a },
                        a.close_confirm->0.collection_id,
                    );
                }
            },
            _ => {},
        }
    } else if !(a.open_collection_prompt is Some && prompt_typed(
        a.open_collection_prompt->0,
        msg,
    ) is Some) && !covered(a) {
        law_sessions_stay_well_formed(a.active(), msg);
        law_one_thing_stays_open(a.active(), msg);
        law_sessions_keep_their_id(a.active(), msg);
        lemma_replaced_session(
            a,
            a.active_collection as int,
            session_updated(a.active(), msg).0,
        );
    }
}

/// The program starts well-formed.
pub proof fn law_the_program_starts_well_formed()
    ensures
        app_well_formed(initial_app()),
{
}

} // verus!
