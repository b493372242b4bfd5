//! Whole requests: what a session does over a sequence of events.

use crate::config::DestinationView;
use crate::key::{entry_text, key_text, law_url_prefix, url_text};
use crate::reply::{storage_failure, success};
use crate::session::{
    closed, fresh, plan_model, run_model, step_model, ActionView, EventView, PartView, SessionView,
};
use vstd::prelude::*;

verus! {

/// A part that has its field name and its file name.
pub open spec fn named_part(
    category: Seq<char>,
    file_name: Seq<char>,
    stamp: Seq<char>,
) -> PartView {
    PartView { category: Some(category), file_name: Some(file_name), stamp }
}

/// A run asks for one action for each event.
pub proof fn lemma_run_len(s: SessionView, events: Seq<EventView>)
    ensures
        run_model(s, events).1.len() == events.len(),
    decreases events.len(),
{
    if events.len() > 0 {
        lemma_run_len(s, events.drop_last());
    }
}

/// Running `first` and then `second` is running the two in a row.
pub proof fn lemma_run_concat(s: SessionView, first: Seq<EventView>, second: Seq<EventView>)
    ensures
        ({
            let (middle, actions) = run_model(s, first);
            &&& run_model(s, first + second).0 == run_model(middle, second).0
            &&& run_model(s, first + second).1 == actions + run_model(middle, second).1
        }),
    decreases second.len(),
{
    if second.len() == 0 {
        assert(first + second =~= first);
        assert(run_model(s, first).1 + Seq::<ActionView>::empty() =~= run_model(s, first).1);
    } else {
        let all = first + second;
        assert(all.drop_last() =~= first + second.drop_last());
        assert(all.last() == second.last());
        lemma_run_concat(s, first, second.drop_last());
        let middle = run_model(s, first).0;
        let (before, actions) = run_model(middle, second.drop_last());
        let (after, action) = step_model(before, second.last());
        let head = run_model(s, first).1;
        assert((head + actions).push(action) =~= head + actions.push(action));
    }
}

/// Once the reply is given nothing is done any more: the session stays as it
/// is, and it asks for nothing, whatever it is told.
pub proof fn law_closed_session_halts(s: SessionView, events: Seq<EventView>)
    requires
        !s.open,
    ensures
        run_model(s, events).0 == s,
        run_model(s, events).1.len() == events.len(),
        forall|i: int|
            0 <= i < events.len() ==> #[trigger] run_model(s, events).1[i] == ActionView::Halt,
    decreases events.len(),
{
    if events.len() > 0 {
        law_closed_session_halts(s, events.drop_last());
    }
}

/// When the store refuses an object the request is over: the reply is the
/// storage failure, with the status 500 and no address in it, and whatever
/// is told to the session afterwards, it plans no further upload and reports
/// nothing.
pub proof fn law_storage_failure_ends_request(
    s: SessionView,
    before: Seq<EventView>,
    after: Seq<EventView>,
)
    requires
        run_model(s, before).0.open,
    ensures
        ({
            let events = before + seq![EventView::StoreFailed] + after;
            let (end, actions) = run_model(s, events);
            &&& actions.len() == events.len()
            &&& actions[before.len() as int] == ActionView::Reply(storage_failure())
            &&& storage_failure().status.number() == 500
            &&& forall|i: int|
                before.len() < i < events.len() ==> #[trigger] actions[i] == ActionView::Halt
            &&& !end.open
            &&& end.urls == Map::<Seq<char>, Seq<char>>::empty()
        }),
{
    let failure = seq![EventView::StoreFailed];
    let middle = run_model(s, before).0;
    let events = before + failure + after;
    lemma_run_len(s, before);
    lemma_run_concat(s, before, failure);
    assert(failure.drop_last() =~= Seq::<EventView>::empty());
    let reply = ActionView::Reply(storage_failure());
    assert(run_model(middle, failure) == (closed(middle), seq![reply])) by {
        reveal_with_fuel(run_model, 2);
        assert(run_model(middle, failure.drop_last()).1.push(reply) =~= seq![reply]);
    }
    lemma_run_concat(s, before + failure, after);
    law_closed_session_halts(closed(middle), after);
    lemma_run_len(s, events);
}

/// A request of one file is answered with one entry: the file's address,
/// which begins with the bucket's address, under the file's entry name.
pub proof fn law_one_file_one_entry(
    to: DestinationView,
    category: Seq<char>,
    file_name: Seq<char>,
    stamp: Seq<char>,
)
    ensures
        ({
            let part = named_part(category, file_name, stamp);
            let events = seq![
                EventView::Part(part),
                EventView::Stored(plan_model(to, part)->Ok_0),
                EventView::End,
            ];
            let url = url_text(to.bucket_url, key_text(to.sub_path, category, stamp, file_name));
            let urls = Map::<Seq<char>, Seq<char>>::empty().insert(
                entry_text(file_name, category),
                url,
            );
            &&& run_model(fresh(to), events).1[2] == ActionView::Reply(success(urls))
            &&& urls.dom() == set![entry_text(file_name, category)]
            &&& to.bucket_url.is_prefix_of(url)
        }),
{
    let part = named_part(category, file_name, stamp);
    let upload = plan_model(to, part)->Ok_0;
    let e0 = seq![EventView::Part(part)];
    let e1 = e0.push(EventView::Stored(upload));
    let e2 = e1.push(EventView::End);
    let events = seq![EventView::Part(part), EventView::Stored(upload), EventView::End];
    assert(events =~= e2);
    assert(e0.drop_last() =~= Seq::<EventView>::empty());
    assert(e1.drop_last() =~= e0);
    assert(e2.drop_last() =~= e1);
    let s0 = fresh(to);
    assert(run_model(s0, e0.drop_last()).0 == s0);
    assert(plan_model(to, part) is Ok);
    assert(step_model(s0, e0.last()).0 == s0);
    assert(run_model(s0, e0).0 == s0);
    let s1 = SessionView { urls: s0.urls.insert(upload.name, upload.url), ..s0 };
    assert(run_model(s0, e1).0 == s1);
    lemma_run_len(s0, e1);
    let urls = Map::<Seq<char>, Seq<char>>::empty().insert(upload.name, upload.url);
    assert(urls.dom() =~= set![upload.name]);
    law_url_prefix(to.bucket_url, upload.key);
}

/// Two files of one request with the same file name and the same category
/// leave one entry: the address of the later one, under their common name.
pub proof fn law_same_name_one_entry(
    to: DestinationView,
    category: Seq<char>,
    file_name: Seq<char>,
    first_stamp: Seq<char>,
    second_stamp: Seq<char>,
)
    ensures
        ({
            let first = named_part(category, file_name, first_stamp);
            let second = named_part(category, file_name, second_stamp);
            let events = seq![
                EventView::Part(first),
                EventView::Stored(plan_model(to, first)->Ok_0),
                EventView::Part(second),
                EventView::Stored(plan_model(to, second)->Ok_0),
                EventView::End,
            ];
            let urls = Map::<Seq<char>, Seq<char>>::empty().insert(
                entry_text(file_name, category),
                url_text(to.bucket_url, key_text(to.sub_path, category, second_stamp, file_name)),
            );
            &&& run_model(fresh(to), events).1[4] == ActionView::Reply(success(urls))
            &&& urls.dom().finite()
            &&& urls.dom().len() == 1
        }),
{
    let first = named_part(category, file_name, first_stamp);
    let second = named_part(category, file_name, second_stamp);
    let u1 = plan_model(to, first)->Ok_0;
    let u2 = plan_model(to, second)->Ok_0;
    let e0 = seq![EventView::Part(first)];
    let e1 = e0.push(EventView::Stored(u1));
    let e2 = e1.push(EventView::Part(second));
    let e3 = e2.push(EventView::Stored(u2));
    let e4 = e3.push(EventView::End);
    let events = seq![
        EventView::Part(first),
        EventView::Stored(u1),
        EventView::Part(second),
        EventView::Stored(u2),
        EventView::End,
    ];
    assert(events =~= e4);
    assert(e0.drop_last() =~= Seq::<EventView>::empty());
    assert(e1.drop_last() =~= e0);
    assert(e2.drop_last() =~= e1);
    assert(e3.drop_last() =~= e2);
    assert(e4.drop_last() =~= e3);
    let s0 = fresh(to);
    assert(run_model(s0, e0.drop_last()).0 == s0);
    assert(plan_model(to, first) is Ok);
    assert(plan_model(to, second) is Ok);
    assert(step_model(s0, e0.last()).0 == s0);
    assert(run_model(s0, e0).0 == s0);
    let s1 = SessionView { urls: s0.urls.insert(u1.name, u1.url), ..s0 };
    assert(run_model(s0, e1).0 == s1);
    assert(run_model(s0, e2).0 == s1);
    let s2 = SessionView { urls: s1.urls.insert(u2.name, u2.url), ..s1 };
    assert(run_model(s0, e3).0 == s2);
    let urls = Map::<Seq<char>, Seq<char>>::empty().insert(u2.name, u2.url);
    assert(s2.urls =~= urls);
    lemma_run_len(s0, e3);
    assert(urls.dom() =~= set![u2.name]);
}

} // verus!
