use vstd::prelude::*;
use crate::codec::decoded_data_set;
use crate::dataset::{
    first_item, lookup, text_of, u16_of, DataSet, Tag, ACCESSION_NUMBER, MODALITY,
    PATIENT_BIRTH_DATE, PATIENT_ID, PATIENT_NAME, PATIENT_SEX, SCHEDULED_PROCEDURE_STEP_SEQUENCE,
    SCHEDULED_PROCEDURE_STEP_START_DATE, STATUS, STUDY_INSTANCE_UID, WORKLIST_LABEL,
};
use crate::query::{is_identifier_of, QueryIdentifier};
use crate::engine::{
    command_of, is_pending, is_terminal, next, outcome, ActionView, Event, Message, Phase,
    QueryError, QueryState,
};
use crate::record::{record_of, DicomDataView};

verus! {

/// The states and actions of a query fed `events` one after the other, from `s`.
pub open spec fn run(s: QueryState, events: Seq<Event>) -> (QueryState, Seq<ActionView>)
    decreases events.len(),
{
    if events.len() == 0 {
        (s, Seq::empty())
    } else {
        let (s1, a) = next(s, events[0]);
        let (s2, rest) = run(s1, events.drop_first());
        (s2, seq![a] + rest)
    }
}

/// How many graceful releases `actions` asks for.
pub open spec fn releases(actions: Seq<ActionView>) -> nat
    decreases actions.len(),
{
    if actions.len() == 0 {
        0
    } else {
        (if actions[0] is Release { 1nat } else { 0nat }) + releases(actions.drop_first())
    }
}

/// How many aborts `actions` asks for.
pub open spec fn aborts(actions: Seq<ActionView>) -> nat
    decreases actions.len(),
{
    if actions.len() == 0 {
        0
    } else {
        (if actions[0] is Abort { 1nat } else { 0nat }) + aborts(actions.drop_first())
    }
}

/// Whether a phase ends the query in failure.
pub open spec fn is_fatal(p: Phase) -> bool {
    p == Phase::Failed || p == Phase::Aborted
}

proof fn lemma_counts_prepend(a: ActionView, rest: Seq<ActionView>)
    ensures
        releases(seq![a] + rest) == (if a is Release { 1nat } else { 0nat }) + releases(rest),
        aborts(seq![a] + rest) == (if a is Abort { 1nat } else { 0nat }) + aborts(rest),
{
    assert((seq![a] + rest).drop_first() =~= rest);
}

proof fn lemma_step_teardown(s: QueryState, e: Event)
    requires
        !is_terminal(s.phase),
    ensures
        (next(s, e).1 is Release) == (next(s, e).0.phase == Phase::Completed),
        (next(s, e).1 is Abort) == is_fatal(next(s, e).0.phase),
{
}

proof fn lemma_terminal_stays(s: QueryState, events: Seq<Event>)
    requires
        is_terminal(s.phase),
    ensures
        run(s, events).0 == s,
        releases(run(s, events).1) == 0,
        aborts(run(s, events).1) == 0,
    decreases events.len(),
{
    if events.len() > 0 {
        lemma_terminal_stays(s, events.drop_first());
        lemma_counts_prepend(ActionView::Stop, run(s, events.drop_first()).1);
    }
}

/// Teardown happens once: whatever the transport reports, a query that has not ended
/// asks for a graceful release exactly once if it completes and never otherwise, and
/// for an abort exactly once if it fails and never otherwise; never both.
pub proof fn lemma_teardown_exactly_once(s: QueryState, events: Seq<Event>)
    requires
        !is_terminal(s.phase),
    ensures
        releases(run(s, events).1) == (if run(s, events).0.phase == Phase::Completed { 1nat } else { 0nat }),
        aborts(run(s, events).1) == (if is_fatal(run(s, events).0.phase) { 1nat } else { 0nat }),
    decreases events.len(),
{
    if events.len() > 0 {
        let (s1, a) = next(s, events[0]);
        lemma_step_teardown(s, events[0]);
        lemma_counts_prepend(a, run(s1, events.drop_first()).1);
        if is_terminal(s1.phase) {
            lemma_terminal_stays(s1, events.drop_first());
        } else {
            lemma_teardown_exactly_once(s1, events.drop_first());
        }
    }
}

/// The status carried by an event that is a data message, once its command is decoded.
pub open spec fn status_of_event(e: Event) -> Option<u16> {
    match e {
        Event::Received(Message::Data(f)) => match command_of(f@) {
            Some(c) => u16_of(c, Tag::of(STATUS)),
            None => None,
        },
        _ => None,
    }
}

/// The identifier carried by an event, decoded in the transfer syntax `ts`.
pub open spec fn identifier_of_event(e: Event, ts: Seq<char>) -> Option<DataSet> {
    match e {
        Event::IdentifierReceived(b) => decoded_data_set(b@, ts),
        _ => None,
    }
}

/// The records of a sequence of identifiers.
pub open spec fn records_of(ids: Seq<DataSet>) -> Seq<DicomDataView> {
    ids.map_values(|d: DataSet| record_of(d))
}

/// `events` is `ids.len()` pending responses, each followed by its identifier `ids[i]`,
/// then one more response with status `code`.
pub open spec fn is_conversation(events: Seq<Event>, ids: Seq<DataSet>, ts: Seq<char>, code: u16) -> bool {
    &&& events.len() == 2 * ids.len() + 1
    &&& forall|i: int| 0 <= i < ids.len() ==> {
        &&& #[trigger] status_of_event(events[2 * i]) matches Some(c)
        &&& is_pending(c)
    }
    &&& forall|i: int| 0 <= i < ids.len() ==> #[trigger] identifier_of_event(events[2 * i + 1], ts) == Some(ids[i])
    &&& status_of_event(events[2 * ids.len() as int]) == Some(code)
}

proof fn lemma_conversation(s: QueryState, events: Seq<Event>, ids: Seq<DataSet>, code: u16)
    requires
        s.phase == Phase::QueryPending,
        !s.awaiting_identifier,
        s.error is None,
        is_conversation(events, ids, s.transfer_syntax, code),
    ensures
        code == 0 ==> outcome(run(s, events).0) == Some(Ok::<Seq<DicomDataView>, QueryError>(s.records + records_of(ids))),
        code != 0 && !is_pending(code) ==> outcome(run(s, events).0) == Some(Err::<Seq<DicomDataView>, QueryError>(QueryError::QueryRejected(code))),
    decreases ids.len(),
{
    if ids.len() == 0 {
        let (s1, a1) = next(s, events[0]);
        assert(run(s1, events.drop_first()).0 == s1);
        assert(run(s, events).0 == s1);
        assert(s.records + records_of(ids) =~= s.records);
    } else {
        let e0 = events[0];
        let e1 = events[1];
        let z: int = 0;
        assert(status_of_event(events[2 * z]) matches Some(c) && is_pending(c));
        assert(identifier_of_event(events[2 * z + 1], s.transfer_syntax) == Some(ids[z]));
        let (s1, a1) = next(s, e0);
        assert(s1 == QueryState { awaiting_identifier: true, ..s });
        let rest1 = events.drop_first();
        assert(rest1[0] == e1);
        let (s2, a2) = next(s1, e1);
        assert(s2 == QueryState { records: s.records.push(record_of(ids[0])), ..s });
        let rest2 = rest1.drop_first();
        let ids2 = ids.drop_first();
        assert forall|i: int| 0 <= i < ids2.len() implies {
            &&& #[trigger] status_of_event(rest2[2 * i]) matches Some(c)
            &&& is_pending(c)
        } by {
            assert(rest2[2 * i] == events[2 * (i + 1)]);
        }
        assert forall|i: int| 0 <= i < ids2.len() implies #[trigger] identifier_of_event(rest2[2 * i + 1], s2.transfer_syntax) == Some(ids2[i]) by {
            assert(rest2[2 * i + 1] == events[2 * (i + 1) + 1]);
        }
        assert(rest2[2 * ids2.len() as int] == events[2 * ids.len() as int]);
        assert(run(s1, rest1).0 == run(s2, rest2).0);
        assert(run(s, events).0 == run(s1, rest1).0);
        lemma_conversation(s2, rest2, ids2, code);
        assert(s2.records + records_of(ids2) =~= s.records + records_of(ids));
    }
}

/// A server that answers success at once yields an empty result set.
pub proof fn lemma_immediate_success_is_empty(s: QueryState, e: Event)
    requires
        s.phase == Phase::QueryPending,
        !s.awaiting_identifier,
        s.error is None,
        s.records.len() == 0,
        status_of_event(e) == Some(0u16),
    ensures
        outcome(run(s, seq![e]).0) == Some(Ok::<Seq<DicomDataView>, QueryError>(Seq::<DicomDataView>::empty())),
{
    assert(is_conversation(seq![e], Seq::empty(), s.transfer_syntax, 0));
    lemma_conversation(s, seq![e], Seq::empty(), 0);
    assert(s.records + records_of(Seq::empty()) =~= Seq::<DicomDataView>::empty());
}

/// A server that sends pending responses with identifiers `ids`, then success, yields
/// exactly one record per identifier, in the order they were sent.
pub proof fn lemma_pending_matches_in_order(s: QueryState, events: Seq<Event>, ids: Seq<DataSet>)
    requires
        s.phase == Phase::QueryPending,
        !s.awaiting_identifier,
        s.error is None,
        s.records.len() == 0,
        is_conversation(events, ids, s.transfer_syntax, 0),
    ensures
        outcome(run(s, events).0) == Some(Ok::<Seq<DicomDataView>, QueryError>(records_of(ids))),
        records_of(ids).len() == ids.len(),
{
    lemma_conversation(s, events, ids, 0);
    assert(s.records + records_of(ids) =~= records_of(ids));
}

/// A server that ends with a status that is neither success nor pending makes the query
/// fail with that status, and no records come out, however many matches preceded it.
pub proof fn lemma_rejection_surfaces_no_records(s: QueryState, events: Seq<Event>, ids: Seq<DataSet>, code: u16)
    requires
        s.phase == Phase::QueryPending,
        !s.awaiting_identifier,
        s.error is None,
        code != 0,
        !is_pending(code),
        is_conversation(events, ids, s.transfer_syntax, code),
    ensures
        outcome(run(s, events).0) == Some(Err::<Seq<DicomDataView>, QueryError>(QueryError::QueryRejected(code))),
{
    lemma_conversation(s, events, ids, code);
}

/// The records of the identifiers among `events`, read in the transfer syntax `ts`, in
/// order of arrival.
pub open spec fn received_records(events: Seq<Event>, ts: Seq<char>) -> Seq<DicomDataView>
    decreases events.len(),
{
    if events.len() == 0 {
        Seq::empty()
    } else {
        let head = match identifier_of_event(events[0], ts) {
            Some(d) => seq![record_of(d)],
            None => Seq::empty(),
        };
        head + received_records(events.drop_first(), ts)
    }
}

/// The query is still running when each of `events` arrives: the transport stops
/// reporting once the engine has stopped.
pub open spec fn runs_throughout(s: QueryState, events: Seq<Event>) -> bool {
    forall|k: int| 0 <= k < events.len() ==> !is_terminal(#[trigger] run(s, events.take(k)).0.phase)
}

proof fn lemma_run_records(s: QueryState, events: Seq<Event>)
    requires
        !is_terminal(s.phase),
        s.error is None,
        runs_throughout(s, events),
    ensures
        run(s, events).0.phase == Phase::Completed ==> run(s, events).0.records
            == s.records + received_records(events, run(s, events).0.transfer_syntax),
        s.phase != Phase::Idle ==> run(s, events).0.transfer_syntax == s.transfer_syntax,
        is_fatal(run(s, events).0.phase) <==> run(s, events).0.error is Some,
    decreases events.len(),
{
    if events.len() == 0 {
        assert(s.records + received_records(events, s.transfer_syntax) =~= s.records);
    } else {
        let e0 = events[0];
        let (s1, a) = next(s, e0);
        let rest = events.drop_first();
        let f = run(s, events).0;
        assert(f == run(s1, rest).0);
        assert(s1.phase != Phase::Idle);
        if rest.len() == 0 {
            assert(f == s1);
            if f.phase == Phase::Completed {
                assert(identifier_of_event(e0, f.transfer_syntax) is None);
                assert(received_records(rest, f.transfer_syntax) =~= Seq::<DicomDataView>::empty());
                assert(received_records(events, f.transfer_syntax) =~= Seq::<DicomDataView>::empty());
                assert(s.records + received_records(events, f.transfer_syntax) =~= s.records);
            }
        } else {
            let one = events.take(1);
            assert(one.len() == 1 && one[0] == e0);
            assert(one.drop_first() =~= Seq::<Event>::empty());
            assert(run(s1, one.drop_first()).0 == s1);
            assert(run(s, one).0 == s1);
            assert(!is_terminal(s1.phase));
            assert forall|k: int| 0 <= k < rest.len() implies !is_terminal(#[trigger] run(s1, rest.take(k)).0.phase) by {
                assert(events.take(k + 1).drop_first() =~= rest.take(k));
                assert(events.take(k + 1)[0] == e0);
                assert(run(s, events.take(k + 1)).0 == run(s1, rest.take(k)).0);
            }
            lemma_run_records(s1, rest);
            if f.phase == Phase::Completed {
                let ts = f.transfer_syntax;
                let head = match identifier_of_event(e0, ts) {
                    Some(d) => seq![record_of(d)],
                    None => Seq::<DicomDataView>::empty(),
                };
                assert(received_records(events, ts) == head + received_records(rest, ts));
                assert(s1.records == s.records + head) by {
                    if e0 is IdentifierReceived {
                        assert(s.phase == Phase::QueryPending);
                        assert(s1.records =~= s.records + head);
                    } else {
                        assert(s1.records =~= s.records + head);
                    }
                }
                assert(f.records =~= s.records + received_records(events, ts));
            }
        }
    }
}

/// Every run of a query from its start ends in a typed outcome: while it runs there is
/// none; once completed, the records of the identifiers received, in order of receipt;
/// once failed or aborted, an error and no records.
pub proof fn lemma_outcome_in_receipt_order(s: QueryState, events: Seq<Event>)
    requires
        s.phase == Phase::Idle,
        s.error is None,
        s.records.len() == 0,
        runs_throughout(s, events),
    ensures
        outcome(run(s, events).0) is Some <==> is_terminal(run(s, events).0.phase),
        run(s, events).0.phase == Phase::Completed ==> outcome(run(s, events).0) == Some(
            Ok::<Seq<DicomDataView>, QueryError>(received_records(events, run(s, events).0.transfer_syntax)),
        ),
        is_fatal(run(s, events).0.phase) ==> outcome(run(s, events).0) matches Some(Err(_)),
{
    lemma_run_records(s, events);
    let f = run(s, events).0;
    assert(s.records + received_records(events, f.transfer_syntax) =~= received_records(events, f.transfer_syntax));
}

/// A response without a scheduled procedure step sequence still yields a record, with
/// an empty modality.
pub proof fn lemma_missing_step_sequence_gives_empty_modality(ds: DataSet)
    requires
        lookup(ds.elements@, Tag::of(SCHEDULED_PROCEDURE_STEP_SEQUENCE)) is None,
    ensures
        record_of(ds).modality == Seq::<char>::empty(),
{
}

/// The identifier data set of a query carries every value of the query unchanged:
/// reading each attribute back, nested ones included, gives the value it was built from.
pub proof fn lemma_identifier_reads_back(q: QueryIdentifier, ds: DataSet)
    requires
        is_identifier_of(ds, q),
    ensures
        text_of(ds, Tag::of(PATIENT_NAME)) == q.patient_name@,
        text_of(ds, Tag::of(PATIENT_ID)) == q.patient_id@,
        text_of(ds, Tag::of(STUDY_INSTANCE_UID)) == q.study_instance_uid@,
        text_of(ds, Tag::of(PATIENT_SEX)) == q.patient_sex@,
        text_of(ds, Tag::of(PATIENT_BIRTH_DATE)) == q.patient_birth_date@,
        text_of(ds, Tag::of(ACCESSION_NUMBER)) == q.accession_number@,
        text_of(ds, Tag::of(WORKLIST_LABEL)) == q.worklist_label@,
        first_item(ds, Tag::of(SCHEDULED_PROCEDURE_STEP_SEQUENCE)) matches Some(item)
            && text_of(item, Tag::of(SCHEDULED_PROCEDURE_STEP_START_DATE)) == q.scheduled_start_date@
            && text_of(item, Tag::of(MODALITY)) == q.scheduled_modality@,
{
    reveal_with_fuel(lookup, 9);
}

} // verus!
