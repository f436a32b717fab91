use vstd::prelude::*;

verus! {

/// The two classes of failure that a storage medium reports.
#[derive(Clone, Copy, Debug, PartialEq, Eq, Structural)]
pub enum FailureKind {
    /// The named resource is not in the medium.
    NotFound,
    /// Anything else: a missing permission, a read-only medium, a size limit.
    Other,
}

/// A failed storage operation: its class and the medium's own words for it.
#[derive(Debug, PartialEq, Eq)]
pub struct Failure {
    pub kind: FailureKind,
    pub message: String,
}

/// A `Failure` as a mathematical value.
pub struct FailureView {
    pub kind: FailureKind,
    pub message: Seq<char>,
}

impl View for Failure {
    type V = FailureView;

    open spec fn view(&self) -> FailureView {
        FailureView { kind: self.kind, message: self.message@ }
    }
}

impl Clone for Failure {
    fn clone(&self) -> (f: Failure)
        ensures
            f@ == self@,
    {
        Failure { kind: self.kind, message: self.message.clone() }
    }
}

impl Failure {
    /// A failure of the given class with the given message.
    pub fn new(kind: FailureKind, message: &str) -> (f: Failure)
        ensures
            f@ == (FailureView { kind, message: message@ }),
    {
        Failure { kind, message: message.to_owned() }
    }
}

/// What a read of a missing resource reports.
pub open spec fn not_found() -> FailureView {
    FailureView { kind: FailureKind::NotFound, message: "resource not found"@ }
}

/// What a read of a resource that may not be read reports.
pub open spec fn permission_denied() -> FailureView {
    FailureView { kind: FailureKind::Other, message: "permission denied"@ }
}

/// What a change to a read-only medium reports.
pub open spec fn read_only_medium() -> FailureView {
    FailureView { kind: FailureKind::Other, message: "read-only storage"@ }
}

/// What a write past the size limit reports.
pub open spec fn too_large() -> FailureView {
    FailureView { kind: FailureKind::Other, message: "resource too large"@ }
}

/// One resource of a medium: its text, and whether reads of it are allowed.
pub struct ResourceView {
    pub content: Seq<char>,
    pub readable: bool,
}

/// A storage medium as a mathematical value: the resources by name, whether
/// the medium refuses every change, the longest text one resource may hold,
/// and how often a creation has been asked of it, granted or not.
pub struct StoreView {
    pub resources: Map<Seq<char>, ResourceView>,
    pub read_only: bool,
    pub max_len: nat,
    pub creations: nat,
}

impl StoreView {
    /// Whether a resource of that name exists.
    pub open spec fn holds(self, name: Seq<char>) -> bool {
        self.resources.dom().contains(name)
    }

    /// Reading a whole resource: its content where it exists and may be read.
    pub open spec fn read(self, name: Seq<char>) -> Result<Seq<char>, FailureView> {
        if !self.holds(name) {
            Err(not_found())
        } else if !self.resources[name].readable {
            Err(permission_denied())
        } else {
            Ok(self.resources[name].content)
        }
    }

    /// The medium after one more creation has been asked of it.
    pub open spec fn asked(self) -> StoreView {
        StoreView { creations: self.creations + 1, ..self }
    }

    /// Creating a resource for writing: what the medium becomes, and its
    /// answer. The medium counts the request, granted or not. Where it is
    /// granted, a new resource is empty and readable, an existing one loses
    /// its content and keeps its permission.
    pub open spec fn create(self, name: Seq<char>) -> (StoreView, Result<(), FailureView>) {
        if self.read_only {
            (self.asked(), Err(read_only_medium()))
        } else {
            let readable = if self.holds(name) {
                self.resources[name].readable
            } else {
                true
            };
            (
                StoreView {
                    resources: self.resources.insert(
                        name,
                        ResourceView { content: Seq::empty(), readable },
                    ),
                    ..self.asked()
                },
                Ok(()),
            )
        }
    }

    /// Writing one line: the text and a line feed are added to the end of the
    /// resource, unless the medium is read-only, the resource is missing or
    /// the result would pass the size limit.
    pub open spec fn write_line(self, name: Seq<char>, line: Seq<char>) -> Result<
        StoreView,
        FailureView,
    > {
        if self.read_only {
            Err(read_only_medium())
        } else if !self.holds(name) {
            Err(not_found())
        } else if self.resources[name].content.len() + line.len() + 1 > self.max_len {
            Err(too_large())
        } else {
            Ok(
                StoreView {
                    resources: self.resources.insert(
                        name,
                        ResourceView {
                            content: self.resources[name].content + line + seq!['\n'],
                            ..self.resources[name]
                        },
                    ),
                    ..self
                },
            )
        }
    }
}

/// A text that a read handed out, as a mathematical value.
pub open spec fn read_view(r: Result<String, Failure>) -> Result<Seq<char>, FailureView> {
    match r {
        Ok(content) => Ok(content@),
        Err(failure) => Err(failure@),
    }
}

/// The answer to a creation or a write, as a mathematical value.
pub open spec fn done_view(r: Result<(), Failure>) -> Result<(), FailureView> {
    match r {
        Ok(_) => Ok(()),
        Err(failure) => Err(failure@),
    }
}

#[derive(Debug)]
struct Resource {
    name: String,
    content: String,
    readable: bool,
}

impl View for Resource {
    type V = ResourceView;

    closed spec fn view(&self) -> ResourceView {
        ResourceView { content: self.content@, readable: self.readable }
    }
}

spec fn first_named(rs: Seq<Resource>, i: int, name: Seq<char>) -> bool {
    &&& 0 <= i < rs.len()
    &&& rs[i].name@ == name
    &&& forall|j: int| 0 <= j < i ==> rs[j].name@ != name
}

spec fn by_name(rs: Seq<Resource>) -> Map<Seq<char>, ResourceView> {
    Map::new(
        |name: Seq<char>| exists|i: int| first_named(rs, i, name),
        |name: Seq<char>| rs[choose|i: int| first_named(rs, i, name)]@,
    )
}

proof fn lemma_by_name_at(rs: Seq<Resource>, i: int)
    requires
        first_named(rs, i, rs[i].name@),
    ensures
        by_name(rs).dom().contains(rs[i].name@),
        by_name(rs)[rs[i].name@] == rs[i]@,
{
    let name = rs[i].name@;
    let j = choose|j: int| first_named(rs, j, name);
    assert(j == i);
}

proof fn lemma_by_name_absent(rs: Seq<Resource>, name: Seq<char>)
    requires
        forall|i: int| 0 <= i < rs.len() ==> rs[i].name@ != name,
    ensures
        !by_name(rs).dom().contains(name),
{
}

proof fn lemma_by_name_push(rs: Seq<Resource>, r: Resource)
    requires
        forall|i: int| 0 <= i < rs.len() ==> rs[i].name@ != r.name@,
    ensures
        by_name(rs.push(r)) == by_name(rs).insert(r.name@, r@),
{
    let after = rs.push(r);
    let wanted = by_name(rs).insert(r.name@, r@);
    assert forall|name: Seq<char>, i: int| first_named(after, i, name) <==> (first_named(
        rs,
        i,
        name,
    ) || (i == rs.len() && name == r.name@)) by {
        if first_named(rs, i, name) {
            assert(after[i].name@ == name);
            assert forall|j: int| 0 <= j < i implies after[j].name@ != name by {
                assert(after[j] == rs[j]);
            }
        }
        if first_named(after, i, name) && i < rs.len() {
            assert(after[i] == rs[i]);
            assert forall|j: int| 0 <= j < i implies rs[j].name@ != name by {
                assert(after[j] == rs[j]);
            }
        }
        if i == rs.len() && name == r.name@ {
            assert(after[i] == r);
            assert forall|j: int| 0 <= j < i implies after[j].name@ != name by {
                assert(after[j] == rs[j]);
            }
        }
    }
    assert forall|name: Seq<char>| by_name(after).dom().contains(name) <==> wanted.dom().contains(
        name,
    ) by {
        if by_name(after).dom().contains(name) {
            let i = choose|i: int| first_named(after, i, name);
            assert(first_named(rs, i, name) || name == r.name@);
        }
        if by_name(rs).dom().contains(name) {
            let i = choose|i: int| first_named(rs, i, name);
            assert(first_named(after, i, name));
        }
        if name == r.name@ {
            assert(first_named(after, rs.len() as int, name));
        }
    }
    assert forall|name: Seq<char>| by_name(after).dom().contains(name) implies by_name(
        after,
    )[name] == wanted[name] by {
        let i = choose|i: int| first_named(after, i, name);
        if i < rs.len() {
            assert(first_named(rs, i, name));
            lemma_by_name_at(rs, i);
        }
    }
    assert(by_name(after) =~= wanted);
}

proof fn lemma_by_name_update(rs: Seq<Resource>, k: int, r: Resource)
    requires
        first_named(rs, k, r.name@),
    ensures
        by_name(rs.update(k, r)) == by_name(rs).insert(r.name@, r@),
{
    let after = rs.update(k, r);
    let wanted = by_name(rs).insert(r.name@, r@);
    assert forall|i: int| 0 <= i < rs.len() implies after[i].name@ == rs[i].name@ by {}
    assert forall|name: Seq<char>, i: int| first_named(after, i, name) <==> first_named(
        rs,
        i,
        name,
    ) by {
        if first_named(rs, i, name) {
            assert(after[i].name@ == name);
            assert forall|j: int| 0 <= j < i implies after[j].name@ != name by {
                assert(after[j].name@ == rs[j].name@);
            }
        }
        if first_named(after, i, name) {
            assert(rs[i].name@ == name);
            assert forall|j: int| 0 <= j < i implies rs[j].name@ != name by {
                assert(after[j].name@ == rs[j].name@);
            }
        }
    }
    assert forall|name: Seq<char>| by_name(after).dom().contains(name) <==> wanted.dom().contains(
        name,
    ) by {
        if by_name(after).dom().contains(name) {
            let i = choose|i: int| first_named(after, i, name);
            assert(first_named(rs, i, name));
        }
        if by_name(rs).dom().contains(name) {
            let i = choose|i: int| first_named(rs, i, name);
            assert(first_named(after, i, name));
        }
        if name == r.name@ {
            assert(first_named(after, k, name));
        }
    }
    assert forall|name: Seq<char>| by_name(after).dom().contains(name) implies by_name(
        after,
    )[name] == wanted[name] by {
        let i = choose|i: int| first_named(after, i, name);
        lemma_by_name_at(after, i);
        if i != k {
            assert(first_named(rs, i, name));
            lemma_by_name_at(rs, i);
        }
    }
    assert(by_name(after) =~= wanted);
}

/// A storage medium held in memory, with the faults of a real one to switch on:
/// resources that may not be read, a read-only medium, a size limit.
#[derive(Debug)]
pub struct MemStore {
    resources: Vec<Resource>,
    read_only: bool,
    max_len: usize,
    creations: u64,
}

impl View for MemStore {
    type V = StoreView;

    closed spec fn view(&self) -> StoreView {
        StoreView {
            resources: by_name(self.resources@),
            read_only: self.read_only,
            max_len: self.max_len as nat,
            creations: self.creations as nat,
        }
    }
}

impl MemStore {
    /// An empty medium that accepts changes, sets no limit below `usize::MAX`
    /// and has been asked for no creation.
    pub fn new() -> (store: MemStore)
        ensures
            store@ == (StoreView {
                resources: Map::empty(),
                read_only: false,
                max_len: usize::MAX as nat,
                creations: 0,
            }),
    {
        let store = MemStore {
            resources: Vec::new(),
            read_only: false,
            max_len: usize::MAX,
            creations: 0,
        };
        assert(by_name(store.resources@) =~= Map::empty());
        store
    }

    fn position(&self, name: &String) -> (at: Option<usize>)
        ensures
            match at {
                Some(i) => first_named(self.resources@, i as int, name@),
                None => forall|i: int|
                    0 <= i < self.resources.len() ==> self.resources[i].name@ != name@,
            },
    {
        let mut i: usize = 0;
        while i < self.resources.len()
            invariant
                i <= self.resources.len(),
                forall|j: int| 0 <= j < i ==> self.resources[j].name@ != name@,
            decreases self.resources.len() - i,
        {
            if self.resources[i].name == *name {
                return Some(i);
            }
            i += 1;
        }
        None
    }

    fn place(&mut self, name: &str, content: &str, readable: bool)
        ensures
            final(self)@ == (StoreView {
                resources: old(self)@.resources.insert(
                    name@,
                    ResourceView { content: content@, readable },
                ),
                ..old(self)@
            }),
    {
        let resource = Resource { name: name.to_owned(), content: content.to_owned(), readable };
        match self.position(&resource.name) {
            Some(i) => {
                proof {
                    lemma_by_name_update(self.resources@, i as int, resource);
                }
                self.resources.set(i, resource);
            },
            None => {
                proof {
                    lemma_by_name_push(self.resources@, resource);
                }
                self.resources.push(resource);
            },
        }
    }

    /// Puts a readable resource with the given content under the given name,
    /// in place of any that was there, whatever the medium's faults.
    pub fn put(&mut self, name: &str, content: &str)
        ensures
            final(self)@ == (StoreView {
                resources: old(self)@.resources.insert(
                    name@,
                    ResourceView { content: content@, readable: true },
                ),
                ..old(self)@
            }),
    {
        self.place(name, content, true)
    }

    /// Puts a resource that may not be read under the given name, in place of
    /// any that was there, whatever the medium's faults.
    pub fn put_unreadable(&mut self, name: &str, content: &str)
        ensures
            final(self)@ == (StoreView {
                resources: old(self)@.resources.insert(
                    name@,
                    ResourceView { content: content@, readable: false },
                ),
                ..old(self)@
            }),
    {
        self.place(name, content, false)
    }

    /// Makes the medium refuse every creation and write, or accept them again.
    pub fn set_read_only(&mut self, read_only: bool)
        ensures
            final(self)@ == (StoreView { read_only, ..old(self)@ }),
    {
        self.read_only = read_only;
    }

    /// Sets the longest text, in characters, that a write may leave in one resource.
    pub fn set_max_len(&mut self, max_len: usize)
        ensures
            final(self)@ == (StoreView { max_len: max_len as nat, ..old(self)@ }),
    {
        self.max_len = max_len;
    }

    /// How often a creation has been asked of the medium, granted or not.
    pub fn creations(&self) -> (count: u64)
        ensures
            count == self@.creations,
    {
        self.creations
    }

    /// Whether a resource of that name exists, readable or not.
    pub fn contains(&self, name: &str) -> (found: bool)
        ensures
            found == self@.holds(name@),
    {
        let wanted = name.to_owned();
        match self.position(&wanted) {
            Some(i) => {
                proof {
                    lemma_by_name_at(self.resources@, i as int);
                }
                true
            },
            None => {
                proof {
                    lemma_by_name_absent(self.resources@, name@);
                }
                false
            },
        }
    }

    /// The content stored under that name, whether or not reads of it are
    /// allowed: what an inspection of the medium itself shows.
    pub fn content_of(&self, name: &str) -> (content: Option<String>)
        ensures
            match content {
                Some(text) => self@.holds(name@) && text@ == self@.resources[name@].content,
                None => !self@.holds(name@),
            },
    {
        let wanted = name.to_owned();
        match self.position(&wanted) {
            Some(i) => {
                proof {
                    lemma_by_name_at(self.resources@, i as int);
                }
                Some(self.resources[i].content.clone())
            },
            None => {
                proof {
                    lemma_by_name_absent(self.resources@, name@);
                }
                None
            },
        }
    }

    /// Reads the whole resource of that name.
    pub fn read(&self, name: &str) -> (r: Result<String, Failure>)
        ensures
            read_view(r) == self@.read(name@),
    {
        let wanted = name.to_owned();
        match self.position(&wanted) {
            Some(i) => {
                proof {
                    lemma_by_name_at(self.resources@, i as int);
                }
                if self.resources[i].readable {
                    Ok(self.resources[i].content.clone())
                } else {
                    Err(Failure::new(FailureKind::Other, "permission denied"))
                }
            },
            None => {
                proof {
                    lemma_by_name_absent(self.resources@, name@);
                }
                Err(Failure::new(FailureKind::NotFound, "resource not found"))
            },
        }
    }

    /// Creates the resource of that name for writing, or empties the one
    /// that exists, and counts the request. The count has room for it.
    pub fn create(&mut self, name: &str) -> (r: Result<(), Failure>)
        requires
            old(self)@.creations < u64::MAX,
        ensures
            final(self)@ == old(self)@.create(name@).0,
            done_view(r) == old(self)@.create(name@).1,
    {
        self.creations = self.creations + 1;
        if self.read_only {
            return Err(Failure::new(FailureKind::Other, "read-only storage"));
        }
        let wanted = name.to_owned();
        match self.position(&wanted) {
            Some(i) => {
                let emptied = Resource {
                    name: wanted,
                    content: String::new(),
                    readable: self.resources[i].readable,
                };
                proof {
                    lemma_by_name_at(self.resources@, i as int);
                    lemma_by_name_update(self.resources@, i as int, emptied);
                }
                self.resources.set(i, emptied);
            },
            None => {
                let fresh = Resource { name: wanted, content: String::new(), readable: true };
                proof {
                    lemma_by_name_absent(self.resources@, name@);
                    lemma_by_name_push(self.resources@, fresh);
                }
                self.resources.push(fresh);
            },
        }
        Ok(())
    }

    /// Adds one line, the text and a line feed, to the end of the resource of that name.
    pub fn write_line(&mut self, name: &str, line: &str) -> (r: Result<(), Failure>)
        ensures
            match old(self)@.write_line(name@, line@) {
                Ok(after) => r is Ok && final(self)@ == after,
                Err(failure) => r matches Err(f) && f@ == failure && final(self)@ == old(self)@,
            },
    {
        if self.read_only {
            return Err(Failure::new(FailureKind::Other, "read-only storage"));
        }
        let wanted = name.to_owned();
        match self.position(&wanted) {
            Some(i) => {
                proof {
                    lemma_by_name_at(self.resources@, i as int);
                }
                let held = self.resources[i].content.as_str().unicode_len();
                let added = line.unicode_len();
                if added >= self.max_len || held > self.max_len - added - 1 {
                    return Err(Failure::new(FailureKind::Other, "resource too large"));
                }
                let mut content = self.resources[i].content.clone();
                content.append(line);
                content.append("\n");
                proof {
                    reveal_strlit("\n");
                    assert("\n"@ =~= seq!['\n']);
                }
                let longer = Resource {
                    name: wanted,
                    content,
                    readable: self.resources[i].readable,
                };
                proof {
                    lemma_by_name_update(self.resources@, i as int, longer);
                }
                self.resources.set(i, longer);
                Ok(())
            },
            None => {
                proof {
                    lemma_by_name_absent(self.resources@, name@);
                }
                Err(Failure::new(FailureKind::NotFound, "resource not found"))
            },
        }
    }
}

} // verus!
