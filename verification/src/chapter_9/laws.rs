use crate::chapter_9::loader::{
    create_report, default_line, default_payload, drive, lemma_drive_is_load, load_spec,
    read_report, write_report, ActionView, EventView, LoadErrorView, LoadStateView, ResultView,
};
use crate::chapter_9::storage::{FailureView, StoreView};
use vstd::prelude::*;

verus! {

/// A load succeeds exactly where the resource can be read, or is missing on a
/// medium that accepts changes and has room for the default content.
pub proof fn lemma_load_succeeds_iff(store: StoreView, name: Seq<char>)
    ensures
        load_spec(store, name).result is Ok <==> (store.read(name) is Ok || (!store.holds(name)
            && !store.read_only && default_payload().len() <= store.max_len)),
        default_payload().len() == 13,
{
    reveal_strlit("Hello world!");
    assert(Seq::<char>::empty() + default_line() + seq!['\n'] =~= default_payload());
}

/// A load asks for one creation at most, and for none exactly where the
/// first read succeeds; the medium counts what the load asked for, and so
/// does a driver that runs the state machine on it.
pub proof fn lemma_one_creation_at_most(store: StoreView, name: Seq<char>)
    ensures
        load_spec(store, name).creations <= 1,
        load_spec(store, name).creations == 0 <==> store.read(name) is Ok,
        load_spec(store, name).store.creations == store.creations + load_spec(
            store,
            name,
        ).creations,
        drive(store, LoadStateView::start(name)).creations == load_spec(store, name).creations,
{
    lemma_drive_is_load(store, name);
}

/// A failed first read is reported, and first; a failed creation or write is
/// reported after it, in the words of the failure itself; nothing else is
/// reported, and nothing at all where the first read succeeds.
pub proof fn lemma_reports(store: StoreView, name: Seq<char>)
    ensures
        load_spec(store, name).reports == match (
            store.read(name),
            load_spec(store, name).result,
        ) {
            (Ok(_), _) => Seq::<Seq<char>>::empty(),
            (Err(cause), Err(LoadErrorView::CreateFailed(failure))) => seq![
                read_report(cause.message),
                create_report(failure.message),
            ],
            (Err(cause), Err(LoadErrorView::WriteFailed(failure))) => seq![
                read_report(cause.message),
                write_report(failure.message),
            ],
            (Err(cause), _) => seq![read_report(cause.message)],
        },
{
}

/// After a successful load the resource is in the medium and can be read, and
/// what the load returned is what it holds.
pub proof fn lemma_loaded_is_stored(store: StoreView, name: Seq<char>)
    requires
        load_spec(store, name).result is Ok,
    ensures
        load_spec(store, name).store.read(name) == Ok::<Seq<char>, FailureView>(
            load_spec(store, name).result->Ok_0,
        ),
{
}

/// A second load of a resource that a first load returned finds the same
/// content, leaves the medium as the first load left it, asks for no
/// creation and reports nothing. The first load asks for one creation where
/// the resource was missing, and never for more than one.
pub proof fn lemma_load_twice(store: StoreView, name: Seq<char>)
    requires
        load_spec(store, name).result is Ok,
    ensures
        load_spec(load_spec(store, name).store, name).result == load_spec(store, name).result,
        load_spec(load_spec(store, name).store, name).store == load_spec(store, name).store,
        load_spec(load_spec(store, name).store, name).creations == 0,
        load_spec(load_spec(store, name).store, name).reports == Seq::<Seq<char>>::empty(),
        load_spec(store, name).creations <= 1,
        !store.holds(name) ==> load_spec(store, name).creations == 1,
        load_spec(load_spec(store, name).store, name).store.creations == store.creations
            + load_spec(store, name).creations,
{
    lemma_loaded_is_stored(store, name);
}

/// A load of a resource that can be read returns its content as it is, asks
/// for no creation or write, leaves the medium untouched and reports nothing.
pub proof fn lemma_read_passthrough(store: StoreView, name: Seq<char>, content: Seq<char>)
    requires
        store.read(name) == Ok::<Seq<char>, FailureView>(content),
    ensures
        load_spec(store, name).result == Ok::<Seq<char>, LoadErrorView>(content),
        load_spec(store, name).store == store,
        load_spec(store, name).creations == 0,
        load_spec(store, name).reports == Seq::<Seq<char>>::empty(),
{
}

/// A successful load of a missing resource leaves it in the medium with the
/// default content, and returns that content; no other resource is touched.
pub proof fn lemma_creation_default(store: StoreView, name: Seq<char>)
    requires
        !store.holds(name),
        load_spec(store, name).result is Ok,
    ensures
        load_spec(store, name).result == Ok::<Seq<char>, LoadErrorView>(default_payload()),
        load_spec(store, name).store.holds(name),
        load_spec(store, name).store.resources[name].content == default_payload(),
        load_spec(store, name).store.resources == store.resources.insert(
            name,
            load_spec(store, name).store.resources[name],
        ),
{
    let made = store.create(name).0;
    let filled = made.write_line(name, default_line())->Ok_0;
    assert(Seq::<char>::empty() + default_line() + seq!['\n'] =~= default_payload());
    assert(filled.resources =~= store.resources.insert(name, filled.resources[name]));
}

/// A load of a missing resource on a medium that refuses the creation ends
/// with that failure and no content, and leaves the medium as it was but for
/// the one creation that it has counted.
pub proof fn lemma_failed_creation_is_fatal(store: StoreView, name: Seq<char>)
    requires
        !store.holds(name),
        store.create(name).1 is Err,
    ensures
        load_spec(store, name).result == Err::<Seq<char>, LoadErrorView>(
            LoadErrorView::CreateFailed(store.create(name).1->Err_0),
        ),
        load_spec(store, name).store == store.asked(),
        load_spec(store, name).creations == 1,
{
}

/// How a load ends on any medium, by the medium's answers alone: with the
/// first read's content; else with the failure of the creation, of the write
/// or of the second read, the first of them that the medium answers with;
/// else with the second read's content.
pub open spec fn result_of(
    first: Result<Seq<char>, FailureView>,
    creation: Result<(), FailureView>,
    write: Result<(), FailureView>,
    second: Result<Seq<char>, FailureView>,
) -> ResultView {
    match (first, creation, write, second) {
        (Ok(content), _, _, _) => Ok(content),
        (Err(_), Err(failure), _, _) => Err(LoadErrorView::CreateFailed(failure)),
        (Err(_), Ok(_), Err(failure), _) => Err(LoadErrorView::WriteFailed(failure)),
        (Err(_), Ok(_), Ok(_), Err(failure)) => Err(LoadErrorView::ReadFailed(failure)),
        (Err(_), Ok(_), Ok(_), Ok(content)) => Ok(content),
    }
}

/// Whatever medium a driver works on, a load asks for a read first and ends
/// at once where the read succeeds; else it reports the failed read and asks
/// for one creation, then for the write of the default line, then for a
/// second read, ends at the first of them that fails, reporting a failed
/// creation or write in its own words, and asks for nothing twice but the
/// read. Its result is `result_of` the answers.
pub proof fn lemma_answers_decide(
    name: Seq<char>,
    first: Result<Seq<char>, FailureView>,
    creation: Result<(), FailureView>,
    write: Result<(), FailureView>,
    second: Result<Seq<char>, FailureView>,
)
    ensures
        ({
            let begun = LoadStateView::start(name);
            let read = begun.step(EventView::Read(first));
            let made = read.state.step(EventView::Create(creation));
            let filled = made.state.step(EventView::Write(write));
            let reread = filled.state.step(EventView::Read(second));
            let ended = ActionView::Return(result_of(first, creation, write, second));
            &&& begun.action() == ActionView::Read { name }
            &&& if first is Ok {
                &&& read.state.action() == ended
                &&& read.report is None
            } else {
                &&& read.state.action() == ActionView::Create { name }
                &&& read.report == Some(read_report(first->Err_0.message))
                &&& if creation is Err {
                    &&& made.state.action() == ended
                    &&& made.report == Some(create_report(creation->Err_0.message))
                } else {
                    &&& made.state.action() == ActionView::WriteLine {
                        name,
                        line: default_line(),
                    }
                    &&& made.report is None
                    &&& if write is Err {
                        &&& filled.state.action() == ended
                        &&& filled.report == Some(write_report(write->Err_0.message))
                    } else {
                        &&& filled.state.action() == ActionView::Read { name }
                        &&& filled.report is None
                        &&& reread.state.action() == ended
                        &&& reread.report is None
                    }
                }
            }
        }),
{
}

} // verus!
