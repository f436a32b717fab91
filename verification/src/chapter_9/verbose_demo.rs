use crate::chapter_9::loader::{load, load_spec, result_view, LoadError};
use crate::chapter_9::storage::MemStore;
use crate::text::texts;
use vstd::prelude::*;

verus! {

/// Loads the resource `hello.txt` from `store`, creating it with the default
/// line where it cannot be read, and reporting every failure but that of the
/// second read to `console`, in the failure's own words. The medium is asked
/// for a creation once where the first read fails, and not at all where it
/// succeeds; where it is asked, its count of creations has room for it.
pub fn run(store: &mut MemStore, console: &mut Vec<String>) -> (result: Result<String, LoadError>)
    requires
        old(store)@.read("hello.txt"@) is Err ==> old(store)@.creations < u64::MAX,
    ensures
        final(store)@ == load_spec(old(store)@, "hello.txt"@).store,
        result_view(result) == load_spec(old(store)@, "hello.txt"@).result,
        texts(final(console)@) == texts(old(console)@) + load_spec(
            old(store)@,
            "hello.txt"@,
        ).reports,
        final(store)@.creations == old(store)@.creations + load_spec(
            old(store)@,
            "hello.txt"@,
        ).creations,
{
    load(store, console, "hello.txt")
}

} // verus!
