//! `load` and `save`: the decisions around the container-file reader and writer.
//!
//! A composite's members have index entries of their own, so once `load` has read a
//! composite, every name in its tree is claimed and does not come back as a separate
//! top-level entry. A tensor read from a file must carry one byte range per buffer
//! handle, and at least one.

use vstd::prelude::*;
use crate::errors::ErrorClass;
use crate::text::{str_eq, views};

verus! {

/// The kinds of failure the file and stream layers report.
#[derive(Clone, Copy, Debug, PartialEq, Eq, Structural)]
pub enum IoFailure {
    /// An operating-system I/O error.
    Io,
    /// A descriptor the core rejected.
    Core,
    /// Any other framing or container error.
    Other,
}

/// File errors: a rejected descriptor is `InvalidDescriptorError`, everything else
/// `FileError`.
pub fn file_error_class(f: IoFailure) -> (r: ErrorClass)
    ensures
        r == (if f == IoFailure::Core {
            ErrorClass::InvalidDescriptor
        } else {
            ErrorClass::File
        }),
{
    match f {
        IoFailure::Core => ErrorClass::InvalidDescriptor,
        _ => ErrorClass::File,
    }
}

/// A tensor whose buffers disagree with its descriptor; raises
/// `InvalidDescriptorError`.
#[derive(Clone, Copy, Debug, PartialEq, Eq, Structural)]
pub enum BufferCountError {
    /// No buffer was carried at all.
    NoBuffers,
    /// The descriptor declares `declared` buffers but `carried` arrived.
    Mismatch { declared: u64, carried: u64 },
}

impl BufferCountError {
    /// Both raise `InvalidDescriptorError`.
    pub fn class(&self) -> (r: ErrorClass)
        ensures
            r == ErrorClass::InvalidDescriptor,
    {
        ErrorClass::InvalidDescriptor
    }
}

/// A tensor read from a file: at least one buffer, then one per declared handle.
pub fn check_read_buffers(carried: u64, declared: u64) -> (r: Result<(), BufferCountError>)
    ensures
        r == (if carried == 0 {
            Err::<(), BufferCountError>(BufferCountError::NoBuffers)
        } else if carried != declared {
            Err(BufferCountError::Mismatch { declared, carried })
        } else {
            Ok(())
        }),
{
    if carried == 0 {
        return Err(BufferCountError::NoBuffers);
    }
    if carried != declared {
        return Err(BufferCountError::Mismatch { declared, carried });
    }
    Ok(())
}

/// What `save` was handed for one name.
#[derive(Clone, Copy, Debug, PartialEq, Eq, Structural)]
pub enum SaveValue {
    Tensor,
    Composite,
    Other,
}

/// `save` accepts only tensors and composites; anything else is unsupported.
#[derive(Clone, Copy, Debug, PartialEq, Eq, Structural)]
pub struct NotSaveable;

impl NotSaveable {
    /// The error raises `UnsupportedError`.
    pub fn class(&self) -> (r: ErrorClass)
        ensures
            r == ErrorClass::Unsupported,
    {
        ErrorClass::Unsupported
    }
}

/// Check one value handed to `save`.
pub fn check_save_value(v: SaveValue) -> (r: Result<SaveValue, NotSaveable>)
    ensures
        r == (if v == SaveValue::Other {
            Err::<SaveValue, NotSaveable>(NotSaveable)
        } else {
            Ok(v)
        }),
{
    match v {
        SaveValue::Other => Err(NotSaveable),
        _ => Ok(v),
    }
}

/// The names an item read from a file occupies: a tensor its own; a composite its own
/// and those of every member, depth first.
#[derive(Debug)]
pub enum ItemNames {
    Tensor(String),
    Composite(String, Vec<ItemNames>),
}

/// Every name in an item's tree, the item's own first.
pub open spec fn names_of(item: ItemNames) -> Seq<Seq<char>>
    decreases item, 0nat,
{
    match item {
        ItemNames::Tensor(n) => seq![n@],
        ItemNames::Composite(n, members) => seq![n@] + names_from(members@, 0),
    }
}

/// The names of members `i..`, in order.
pub open spec fn names_from(ms: Seq<ItemNames>, i: int) -> Seq<Seq<char>>
    decreases ms, ms.len() - i,
{
    if i < 0 || i >= ms.len() {
        Seq::empty()
    } else {
        names_of(ms[i]) + names_from(ms, i + 1)
    }
}

/// Every subtree of an item, in the order of `names_of`: the item itself, then its
/// members' subtrees depth first. Reading a member's index entry yields its subtree.
pub open spec fn subtrees_of(item: ItemNames) -> Seq<ItemNames>
    decreases item, 0nat,
{
    match item {
        ItemNames::Tensor(_) => seq![item],
        ItemNames::Composite(_, members) => seq![item] + subtrees_from(members@, 0),
    }
}

/// The subtrees of members `i..`, in order.
pub open spec fn subtrees_from(ms: Seq<ItemNames>, i: int) -> Seq<ItemNames>
    decreases ms, ms.len() - i,
{
    if i < 0 || i >= ms.len() {
        Seq::empty()
    } else {
        subtrees_of(ms[i]) + subtrees_from(ms, i + 1)
    }
}

proof fn lemma_names_from_split(ms: Seq<ItemNames>, i: int)
    requires
        0 <= i < ms.len(),
    ensures
        names_from(ms, 0) == names_from_prefix(ms, i) + names_of(ms[i]) + names_from(ms, i + 1),
    decreases i,
{
    if i > 0 {
        lemma_names_from_split(ms, i - 1);
        assert(names_from_prefix(ms, i) == names_from_prefix(ms, i - 1) + names_of(ms[i - 1]));
        assert(names_from(ms, i) == names_of(ms[i]) + names_from(ms, i + 1));
        assert(names_from(ms, 0) =~= names_from_prefix(ms, i) + names_of(ms[i]) + names_from(ms, i + 1));
    } else {
        assert(names_from_prefix(ms, 0) =~= Seq::<Seq<char>>::empty());
        assert(names_from(ms, 0) =~= names_from_prefix(ms, 0) + names_of(ms[0]) + names_from(ms, 1));
    }
}

/// The names of members `..i`, in order.
pub open spec fn names_from_prefix(ms: Seq<ItemNames>, i: int) -> Seq<Seq<char>>
    decreases i,
{
    if i <= 0 || i > ms.len() {
        Seq::empty()
    } else {
        names_from_prefix(ms, i - 1) + names_of(ms[i - 1])
    }
}

fn copy_string(s: &String) -> (r: String)
    ensures
        r@ == s@,
{
    s.as_str().to_owned()
}

/// Append every name in `item`'s tree to `out`.
#[verifier::loop_isolation(false)]
pub fn push_names(item: &ItemNames, out: &mut Vec<String>)
    ensures
        views(final(out)@) == views(old(out)@) + names_of(*item),
    decreases item,
{
    match item {
        ItemNames::Tensor(n) => {
            out.push(copy_string(n));
            assert(views(out@) =~= views(old(out)@) + names_of(*item));
        },
        ItemNames::Composite(n, members) => {
            out.push(copy_string(n));
            let ghost base = views(out@);
            assert(base =~= views(old(out)@) + seq![n@]);
            let mut i: usize = 0;
            while i < members.len()
                invariant
                    i <= members@.len(),
                    views(out@) == base + names_from_prefix(members@, i as int),
                decreases members.len() - i,
            {
                proof {
                    assert(decreases_to!(*item => *members));
                    assert(decreases_to!(*members => members@));
                    assert(decreases_to!(members@ => members@[i as int]));
                }
                let ghost before = views(out@);
                push_names(&members[i], out);
                assert(names_from_prefix(members@, i + 1) == names_from_prefix(members@, i as int)
                    + names_of(members@[i as int]));
                assert(views(out@) =~= base + names_from_prefix(members@, i + 1));
                i = i + 1;
            }
            proof {
                if members@.len() > 0 {
                    lemma_names_from_split(members@, members@.len() - 1);
                    assert(names_from(members@, members@.len() as int) =~= Seq::<Seq<char>>::empty());
                    assert(names_from_prefix(members@, members@.len() as int) == names_from_prefix(
                        members@,
                        members@.len() - 1,
                    ) + names_of(members@[members@.len() - 1]));
                    assert(names_from(members@, 0) =~= names_from_prefix(members@, members@.len() as int));
                } else {
                    assert(names_from(members@, 0) =~= Seq::<Seq<char>>::empty());
                    assert(names_from_prefix(members@, 0) =~= Seq::<Seq<char>>::empty());
                }
            }
            assert(views(out@) =~= views(old(out)@) + names_of(*item));
        },
    }
}

/// The names `load` has already seen claimed by a composite it read.
pub struct LoadSelection {
    claimed: Vec<String>,
}

impl View for LoadSelection {
    type V = Seq<Seq<char>>;

    closed spec fn view(&self) -> Seq<Seq<char>> {
        views(self.claimed@)
    }
}

impl LoadSelection {
    /// Nothing claimed yet.
    pub fn new() -> (r: LoadSelection)
        ensures
            r@ == Seq::<Seq<char>>::empty(),
    {
        let r = LoadSelection { claimed: Vec::new() };
        assert(r@ =~= Seq::<Seq<char>>::empty());
        r
    }

    /// Should `name` be read? Not if an earlier item already claimed it.
    pub fn should_load(&self, name: &str) -> (r: bool)
        ensures
            r == !self@.contains(name@),
    {
        let mut i: usize = 0;
        while i < self.claimed.len()
            invariant
                i <= self.claimed@.len(),
                forall|j: int| 0 <= j < i ==> self.claimed@[j]@ != name@,
            decreases self.claimed.len() - i,
        {
            if str_eq(self.claimed[i].as_str(), name) {
                assert(self@[i as int] == name@);
                return false;
            }
            i = i + 1;
        }
        proof {
            if self@.contains(name@) {
                let k = choose|k: int| 0 <= k < self@.len() && self@[k] == name@;
                assert(self.claimed@[k]@ == name@);
            }
        }
        true
    }

    /// Record the names an item just read occupies.
    pub fn claim(&mut self, item: &ItemNames)
        ensures
            final(self)@ == old(self)@ + names_of(*item),
    {
        push_names(item, &mut self.claimed);
    }
}

/// After an item is read, no name in its tree is read again as a separate entry.
pub proof fn lemma_claimed_names_not_reloaded(before: Seq<Seq<char>>, item: ItemNames, name: Seq<char>)
    requires
        names_of(item).contains(name),
    ensures
        (before + names_of(item)).contains(name),
{
    let k = choose|k: int| 0 <= k < names_of(item).len() && names_of(item)[k] == name;
    assert((before + names_of(item))[before.len() + k] == name);
}


// ── The whole of `load`'s selection ──────────────────────────────────────────

/// A name `load` was asked for that the file does not hold; raises `FileError`.
#[derive(Clone, Copy, Debug, PartialEq, Eq, Structural)]
pub struct MissingEntry;

impl MissingEntry {
    /// The error raises `FileError`.
    pub fn class(&self) -> (r: ErrorClass)
        ensures
            r == ErrorClass::File,
    {
        ErrorClass::File
    }
}

/// The names of a file's index entries, in file order. Each entry pairs a name with
/// what reading that name yields.
pub open spec fn entry_names(file: Seq<(String, ItemNames)>) -> Seq<Seq<char>> {
    Seq::new(file.len(), |k: int| file[k].0@)
}

/// What reading `name` yields: the first entry of that name from position `j` on.
pub open spec fn lookup_from(file: Seq<(String, ItemNames)>, name: Seq<char>, j: int) -> Option<
    ItemNames,
>
    decreases file.len() - j,
{
    if j < 0 || j >= file.len() {
        None
    } else if file[j].0@ == name {
        Some(file[j].1)
    } else {
        lookup_from(file, name, j + 1)
    }
}

/// `load`'s walk over the names to load from position `i`, with the names already
/// claimed and the keys chosen so far: a claimed name is skipped; an unclaimed one is
/// read (or the walk fails when the file lacks it), claims its whole tree and becomes a
/// key.
pub open spec fn load_from(
    names: Seq<Seq<char>>,
    i: int,
    file: Seq<(String, ItemNames)>,
    claimed: Seq<Seq<char>>,
    keys: Seq<Seq<char>>,
) -> Result<Seq<Seq<char>>, MissingEntry>
    decreases names.len() - i,
{
    if i < 0 || i >= names.len() {
        Ok(keys)
    } else if claimed.contains(names[i]) {
        load_from(names, i + 1, file, claimed, keys)
    } else {
        match lookup_from(file, names[i], 0) {
            None => Err(MissingEntry),
            Some(item) => load_from(
                names,
                i + 1,
                file,
                claimed + names_of(item),
                keys.push(names[i]),
            ),
        }
    }
}

/// The keys `load` returns: for the names asked for, or every index entry when none
/// were named.
pub open spec fn spec_load(names: Option<Seq<Seq<char>>>, file: Seq<(String, ItemNames)>) -> Result<
    Seq<Seq<char>>,
    MissingEntry,
> {
    let ns = match names {
        Some(ns) => ns,
        None => entry_names(file),
    };
    load_from(ns, 0, file, Seq::empty(), Seq::empty())
}

/// The position of the first entry named `name`, if any.
fn find_entry(file: &Vec<(String, ItemNames)>, name: &str) -> (r: Option<usize>)
    ensures
        match r {
            Some(k) => k < file@.len() && lookup_from(file@, name@, 0) == Some(file@[k as int].1),
            None => lookup_from(file@, name@, 0) is None,
        },
{
    let mut k: usize = 0;
    while k < file.len()
        invariant
            k <= file@.len(),
            lookup_from(file@, name@, 0) == lookup_from(file@, name@, k as int),
        decreases file.len() - k,
    {
        if str_eq(file[k].0.as_str(), name) {
            return Some(k);
        }
        k = k + 1;
    }
    None
}

fn load_names(names: &Vec<String>, file: &Vec<(String, ItemNames)>) -> (r: Result<
    Vec<String>,
    MissingEntry,
>)
    ensures
        match r {
            Ok(ks) => load_from(views(names@), 0, file@, Seq::empty(), Seq::empty()) == Ok::<
                Seq<Seq<char>>,
                MissingEntry,
            >(views(ks@)),
            Err(e) => load_from(views(names@), 0, file@, Seq::empty(), Seq::empty()) == Err::<
                Seq<Seq<char>>,
                MissingEntry,
            >(e),
        },
{
    let mut sel = LoadSelection::new();
    let mut keys: Vec<String> = Vec::new();
    let mut i: usize = 0;
    assert(views(keys@) =~= Seq::<Seq<char>>::empty());
    while i < names.len()
        invariant
            i <= names@.len(),
            load_from(views(names@), 0, file@, Seq::empty(), Seq::empty()) == load_from(
                views(names@),
                i as int,
                file@,
                sel@,
                views(keys@),
            ),
        decreases names.len() - i,
    {
        let name = names[i].as_str();
        assert(views(names@)[i as int] == name@);
        if sel.should_load(name) {
            match find_entry(file, name) {
                None => {
                    return Err(MissingEntry);
                },
                Some(k) => {
                    sel.claim(&file[k].1);
                    let ghost before = views(keys@);
                    keys.push(copy_string(&names[i]));
                    assert(views(keys@) =~= before.push(name@));
                },
            }
        }
        i = i + 1;
    }
    Ok(keys)
}

/// Which top-level keys `load` returns from `file`, whose index entries pair each name
/// with what reading it yields: the names asked for, or every index entry when
/// `names` is `None`, skipping each name claimed by a composite read earlier. A name
/// the file lacks fails the load with `MissingEntry`.
pub fn load_keys(names: Option<&Vec<String>>, file: &Vec<(String, ItemNames)>) -> (r: Result<
    Vec<String>,
    MissingEntry,
>)
    ensures
        match r {
            Ok(ks) => spec_load(
                match names {
                    Some(ns) => Some(views(ns@)),
                    None => None,
                },
                file@,
            ) == Ok::<Seq<Seq<char>>, MissingEntry>(views(ks@)),
            Err(e) => spec_load(
                match names {
                    Some(ns) => Some(views(ns@)),
                    None => None,
                },
                file@,
            ) == Err::<Seq<Seq<char>>, MissingEntry>(e),
        },
{
    match names {
        Some(ns) => load_names(ns, file),
        None => {
            let mut all: Vec<String> = Vec::new();
            let mut k: usize = 0;
            while k < file.len()
                invariant
                    k <= file@.len(),
                    views(all@) == entry_names(file@).subrange(0, k as int),
                decreases file.len() - k,
            {
                let ghost before = views(all@);
                all.push(copy_string(&file[k].0));
                assert(views(all@) =~= before.push(file@[k as int].0@));
                assert(entry_names(file@).subrange(0, k + 1) =~= entry_names(file@).subrange(
                    0,
                    k as int,
                ).push(file@[k as int].0@));
                k = k + 1;
            }
            assert(entry_names(file@).subrange(0, file@.len() as int) =~= entry_names(file@));
            load_names(&all, file)
        },
    }
}

// ── Laws of `load` ───────────────────────────────────────────────────────────

proof fn lemma_keys_from_requested(
    names: Seq<Seq<char>>,
    i: int,
    file: Seq<(String, ItemNames)>,
    claimed: Seq<Seq<char>>,
    keys: Seq<Seq<char>>,
    ks: Seq<Seq<char>>,
)
    requires
        0 <= i,
        load_from(names, i, file, claimed, keys) == Ok::<Seq<Seq<char>>, MissingEntry>(ks),
    ensures
        forall|x: Seq<char>| #[trigger]
            ks.contains(x) ==> keys.contains(x) || exists|t: int|
                i <= t < names.len() && names[t] == x,
    decreases names.len() - i,
{
    if i < names.len() {
        if claimed.contains(names[i]) {
            lemma_keys_from_requested(names, i + 1, file, claimed, keys, ks);
        } else {
            match lookup_from(file, names[i], 0) {
                None => {},
                Some(item) => {
                    let keys2 = keys.push(names[i]);
                    lemma_keys_from_requested(
                        names,
                        i + 1,
                        file,
                        claimed + names_of(item),
                        keys2,
                        ks,
                    );
                    assert forall|x: Seq<char>| #[trigger]
                        ks.contains(x) implies keys.contains(x) || exists|t: int|
                        i <= t < names.len() && names[t] == x by {
                        if keys2.contains(x) && !keys.contains(x) {
                            let w = choose|w: int| 0 <= w < keys2.len() && keys2[w] == x;
                            assert(w == keys.len());
                            assert(names[i] == x);
                        }
                    }
                },
            }
        }
    }
}

/// Every key `load` returns for the names asked for is one of those names.
pub proof fn lemma_load_keys_are_requested(
    names: Seq<Seq<char>>,
    file: Seq<(String, ItemNames)>,
    ks: Seq<Seq<char>>,
)
    requires
        spec_load(Some(names), file) == Ok::<Seq<Seq<char>>, MissingEntry>(ks),
    ensures
        forall|x: Seq<char>| #[trigger] ks.contains(x) ==> names.contains(x),
{
    lemma_keys_from_requested(names, 0, file, Seq::empty(), Seq::empty(), ks);
}

proof fn lemma_lookup_from_facts(file: Seq<(String, ItemNames)>, name: Seq<char>, j: int)
    requires
        0 <= j,
    ensures
        lookup_from(file, name, j) is None <==> forall|k: int|
            j <= k < file.len() ==> #[trigger] file[k].0@ != name,
        lookup_from(file, name, j) matches Some(it) ==> exists|k: int|
            j <= k < file.len() && file[k].0@ == name && #[trigger] file[k].1 == it,
    decreases file.len() - j,
{
    if j < file.len() {
        lemma_lookup_from_facts(file, name, j + 1);
    }
}

/// Every name in the tree of every entry is itself an entry of the file.
pub open spec fn closed_index(file: Seq<(String, ItemNames)>) -> bool {
    forall|k: int, x: Seq<char>|
        0 <= k < file.len() && #[trigger] names_of(file[k].1).contains(x) ==> entry_names(
            file,
        ).contains(x)
}

proof fn lemma_fails_iff_missing_from(
    names: Seq<Seq<char>>,
    i: int,
    file: Seq<(String, ItemNames)>,
    claimed: Seq<Seq<char>>,
    keys: Seq<Seq<char>>,
)
    requires
        0 <= i,
        closed_index(file),
        forall|x: Seq<char>| #[trigger] claimed.contains(x) ==> entry_names(file).contains(x),
    ensures
        load_from(names, i, file, claimed, keys) is Err <==> exists|t: int|
            i <= t < names.len() && !entry_names(file).contains(#[trigger] names[t]),
    decreases names.len() - i,
{
    if i < names.len() {
        let n = names[i];
        if claimed.contains(n) {
            lemma_fails_iff_missing_from(names, i + 1, file, claimed, keys);
            assert(entry_names(file).contains(n));
            if exists|t: int| i <= t < names.len() && !entry_names(file).contains(#[trigger] names[t]) {
                let t = choose|t: int| i <= t < names.len() && !entry_names(file).contains(#[trigger] names[t]);
                assert(t != i);
            }
        } else {
            lemma_lookup_from_facts(file, n, 0);
            match lookup_from(file, n, 0) {
                None => {
                    if entry_names(file).contains(n) {
                        let w = choose|w: int| 0 <= w < entry_names(file).len() && entry_names(file)[w] == n;
                        assert(file[w].0@ == n);
                    }
                    assert(!entry_names(file).contains(names[i]));
                },
                Some(item) => {
                    let k = choose|k: int| 0 <= k < file.len() && file[k].0@ == n && #[trigger] file[k].1 == item;
                    let c2 = claimed + names_of(item);
                    assert forall|x: Seq<char>| #[trigger] c2.contains(x) implies entry_names(file).contains(x) by {
                        let w = choose|w: int| 0 <= w < c2.len() && c2[w] == x;
                        if w < claimed.len() {
                            assert(claimed[w] == x);
                            assert(claimed.contains(x));
                        } else {
                            assert(names_of(item)[w - claimed.len()] == x);
                            assert(names_of(file[k].1).contains(x));
                        }
                    }
                    lemma_fails_iff_missing_from(names, i + 1, file, c2, keys.push(n));
                    assert(entry_names(file)[k] == n);
                    assert(entry_names(file).contains(n));
                    if exists|t: int| i <= t < names.len() && !entry_names(file).contains(#[trigger] names[t]) {
                        let t = choose|t: int| i <= t < names.len() && !entry_names(file).contains(#[trigger] names[t]);
                        assert(t != i);
                    }
                },
            }
        }
    }
}

/// In a file whose index is closed (every member name of every entry is an entry),
/// `load` fails exactly when a name asked for is not in the file.
pub proof fn lemma_load_fails_iff_name_missing(names: Seq<Seq<char>>, file: Seq<(String, ItemNames)>)
    requires
        closed_index(file),
    ensures
        spec_load(Some(names), file) is Err <==> exists|t: int|
            0 <= t < names.len() && !entry_names(file).contains(#[trigger] names[t]),
{
    lemma_fails_iff_missing_from(names, 0, file, Seq::empty(), Seq::empty());
}

/// The name an item is saved under.
pub open spec fn item_name(item: ItemNames) -> Seq<char> {
    match item {
        ItemNames::Tensor(n) => n@,
        ItemNames::Composite(n, _) => n@,
    }
}

/// Every name in the trees of the first `j` saved items, in order.
pub open spec fn names_upto(saved: Seq<ItemNames>, j: int) -> Seq<Seq<char>>
    decreases j,
{
    if j <= 0 || j > saved.len() {
        Seq::empty()
    } else {
        names_upto(saved, j - 1) + names_of(saved[j - 1])
    }
}

/// The names of the first `j` saved items.
pub open spec fn heads_upto(saved: Seq<ItemNames>, j: int) -> Seq<Seq<char>>
    decreases j,
{
    if j <= 0 || j > saved.len() {
        Seq::empty()
    } else {
        heads_upto(saved, j - 1).push(item_name(saved[j - 1]))
    }
}

/// No name occurs twice.
pub open spec fn distinct_names(s: Seq<Seq<char>>) -> bool {
    forall|a: int, b: int| 0 <= a < b < s.len() ==> #[trigger] s[a] != #[trigger] s[b]
}

/// `file` is what `save` wrote for the items `saved`: each item's entry, followed by
/// its members' entries depth first, item after item; every name once; and each entry
/// reads back as the subtree of that name (a saved item's own entry as the whole item).
pub open spec fn written_by_save(file: Seq<(String, ItemNames)>, saved: Seq<ItemNames>) -> bool {
    &&& entry_names(file) == names_upto(saved, saved.len() as int)
    &&& distinct_names(entry_names(file))
    &&& forall|j: int, t: int|
        0 <= j < saved.len() && 0 <= t < names_of(saved[j]).len() ==> file[names_upto(
            saved,
            j,
        ).len() + t].1 == #[trigger] subtrees_of(saved[j])[t]
}

proof fn lemma_names_of_head(item: ItemNames)
    ensures
        names_of(item).len() >= 1,
        names_of(item)[0] == item_name(item),
{
}

proof fn lemma_names_upto_prefix(saved: Seq<ItemNames>, j: int, m: int)
    requires
        0 <= j <= m <= saved.len(),
    ensures
        names_upto(saved, j).len() <= names_upto(saved, m).len(),
        forall|k: int|
            0 <= k < names_upto(saved, j).len() ==> #[trigger] names_upto(saved, m)[k]
                == names_upto(saved, j)[k],
    decreases m - j,
{
    if j < m {
        lemma_names_upto_prefix(saved, j, m - 1);
    }
}

proof fn lemma_skip_claimed(
    names: Seq<Seq<char>>,
    a: int,
    b: int,
    file: Seq<(String, ItemNames)>,
    claimed: Seq<Seq<char>>,
    keys: Seq<Seq<char>>,
)
    requires
        0 <= a <= b <= names.len(),
        forall|t: int| a <= t < b ==> claimed.contains(#[trigger] names[t]),
    ensures
        load_from(names, a, file, claimed, keys) == load_from(names, b, file, claimed, keys),
    decreases b - a,
{
    if a < b {
        assert(claimed.contains(names[a]));
        lemma_skip_claimed(names, a + 1, b, file, claimed, keys);
    }
}

proof fn lemma_lookup_unique(file: Seq<(String, ItemNames)>, p: int, j: int)
    requires
        0 <= j <= p < file.len(),
        distinct_names(entry_names(file)),
    ensures
        lookup_from(file, file[p].0@, j) == Some(file[p].1),
    decreases p - j,
{
    if j < p {
        assert(entry_names(file)[j] != entry_names(file)[p]);
        lemma_lookup_unique(file, p, j + 1);
    }
}

proof fn lemma_load_saved_from(file: Seq<(String, ItemNames)>, saved: Seq<ItemNames>, j: int)
    requires
        0 <= j <= saved.len(),
        written_by_save(file, saved),
    ensures
        load_from(
            entry_names(file),
            names_upto(saved, j).len() as int,
            file,
            names_upto(saved, j),
            heads_upto(saved, j),
        ) == Ok::<Seq<Seq<char>>, MissingEntry>(heads_upto(saved, saved.len() as int)),
    decreases saved.len() - j,
{
    let ns = entry_names(file);
    let len = saved.len() as int;
    if j < len {
        let c = names_upto(saved, j);
        let c2 = names_upto(saved, j + 1);
        let mine = names_of(saved[j]);
        let p = c.len() as int;
        let q = c2.len() as int;
        lemma_names_of_head(saved[j]);
        assert(c2 == c + mine);
        lemma_names_upto_prefix(saved, j + 1, len);
        lemma_names_upto_prefix(saved, j, j + 1);
        assert(q == p + mine.len());
        assert(q <= ns.len());
        assert forall|t: int| p <= t < q implies #[trigger] ns[t] == mine[t - p] by {
            assert(names_upto(saved, len)[t] == c2[t]);
        }
        assert forall|k: int| 0 <= k < p implies #[trigger] ns[k] == c[k] by {
            assert(names_upto(saved, len)[k] == c2[k]);
        }
        // The item's own name is not yet claimed.
        assert(ns[p] == item_name(saved[j]));
        if c.contains(ns[p]) {
            let k = choose|k: int| 0 <= k < c.len() && c[k] == ns[p];
            assert(ns[k] == c[k]);
            assert(ns[k] != ns[p]);
        }
        // Reading it yields the saved item.
        assert(file[p].0@ == ns[p]);
        lemma_lookup_unique(file, p, 0);
        assert(subtrees_of(saved[j])[0] == saved[j]);
        assert(file[p + 0].1 == subtrees_of(saved[j])[0]);
        assert(file[p].1 == saved[j]);
        assert(heads_upto(saved, j + 1) == heads_upto(saved, j).push(item_name(saved[j])));
        assert(load_from(ns, p, file, c, heads_upto(saved, j)) == load_from(
            ns,
            p + 1,
            file,
            c2,
            heads_upto(saved, j + 1),
        ));
        // Its members' entries are claimed and skipped.
        assert forall|t: int| p + 1 <= t < q implies c2.contains(#[trigger] ns[t]) by {
            assert(c2[t] == mine[t - p]);
        }
        lemma_skip_claimed(ns, p + 1, q, file, c2, heads_upto(saved, j + 1));
        lemma_load_saved_from(file, saved, j + 1);
    } else {
        assert(names_upto(saved, j).len() == ns.len());
    }
}

/// Loading every entry of a file written by `save` returns exactly the names saved, in
/// order: a composite comes back under its own name, and its members, which have index
/// entries of their own, do not come back as keys.
pub proof fn lemma_load_returns_saved_names(file: Seq<(String, ItemNames)>, saved: Seq<ItemNames>)
    requires
        written_by_save(file, saved),
    ensures
        spec_load(None, file) == Ok::<Seq<Seq<char>>, MissingEntry>(
            heads_upto(saved, saved.len() as int),
        ),
{
    assert(names_upto(saved, 0) =~= Seq::<Seq<char>>::empty());
    assert(heads_upto(saved, 0) =~= Seq::<Seq<char>>::empty());
    lemma_load_saved_from(file, saved, 0);
}

proof fn lemma_subtrees_of(item: ItemNames)
    ensures
        subtrees_of(item).len() == names_of(item).len(),
        forall|t: int|
            0 <= t < names_of(item).len() ==> item_name(#[trigger] subtrees_of(item)[t])
                == names_of(item)[t],
        forall|t: int, x: Seq<char>|
            0 <= t < subtrees_of(item).len() && #[trigger] names_of(subtrees_of(item)[t]).contains(
                x,
            ) ==> names_of(item).contains(x),
    decreases item, 0nat,
{
    match item {
        ItemNames::Tensor(n) => {
            assert forall|t: int, x: Seq<char>|
                0 <= t < subtrees_of(item).len() && #[trigger] names_of(
                    subtrees_of(item)[t],
                ).contains(x) implies names_of(item).contains(x) by {
                assert(subtrees_of(item)[t] == item);
            }
        },
        ItemNames::Composite(n, ms) => {
            lemma_subtrees_from(ms@, 0);
            let st = subtrees_from(ms@, 0);
            let nm = names_from(ms@, 0);
            assert(subtrees_of(item) == seq![item] + st);
            assert(names_of(item) == seq![n@] + nm);
            assert forall|t: int|
                0 <= t < names_of(item).len() implies item_name(#[trigger] subtrees_of(item)[t])
                == names_of(item)[t] by {
                if t > 0 {
                    assert(subtrees_of(item)[t] == st[t - 1]);
                    assert(names_of(item)[t] == nm[t - 1]);
                }
            }
            assert forall|t: int, x: Seq<char>|
                0 <= t < subtrees_of(item).len() && #[trigger] names_of(
                    subtrees_of(item)[t],
                ).contains(x) implies names_of(item).contains(x) by {
                if t == 0 {
                    assert(subtrees_of(item)[0] == item);
                } else {
                    assert(subtrees_of(item)[t] == st[t - 1]);
                    assert(names_of(st[t - 1]).contains(x));
                    assert(nm.contains(x));
                    let w = choose|w: int| 0 <= w < nm.len() && nm[w] == x;
                    assert(names_of(item)[w + 1] == x);
                }
            }
        },
    }
}

proof fn lemma_subtrees_from(ms: Seq<ItemNames>, i: int)
    ensures
        subtrees_from(ms, i).len() == names_from(ms, i).len(),
        forall|t: int|
            0 <= t < names_from(ms, i).len() ==> item_name(#[trigger] subtrees_from(ms, i)[t])
                == names_from(ms, i)[t],
        forall|t: int, x: Seq<char>|
            0 <= t < subtrees_from(ms, i).len() && #[trigger] names_of(
                subtrees_from(ms, i)[t],
            ).contains(x) ==> names_from(ms, i).contains(x),
    decreases ms, ms.len() - i,
{
    if 0 <= i < ms.len() {
        lemma_subtrees_of(ms[i]);
        lemma_subtrees_from(ms, i + 1);
        let a = subtrees_of(ms[i]);
        let b = subtrees_from(ms, i + 1);
        let na = names_of(ms[i]);
        let nb = names_from(ms, i + 1);
        assert(subtrees_from(ms, i) == a + b);
        assert(names_from(ms, i) == na + nb);
        assert forall|t: int|
            0 <= t < names_from(ms, i).len() implies item_name(#[trigger] subtrees_from(ms, i)[t])
            == names_from(ms, i)[t] by {
            if t < a.len() {
                assert(subtrees_from(ms, i)[t] == a[t]);
                assert(names_from(ms, i)[t] == na[t]);
            } else {
                assert(subtrees_from(ms, i)[t] == b[t - a.len()]);
                assert(names_from(ms, i)[t] == nb[t - a.len()]);
            }
        }
        assert forall|t: int, x: Seq<char>|
            0 <= t < subtrees_from(ms, i).len() && #[trigger] names_of(
                subtrees_from(ms, i)[t],
            ).contains(x) implies names_from(ms, i).contains(x) by {
            if t < a.len() {
                assert(subtrees_from(ms, i)[t] == a[t]);
                assert(names_of(a[t]).contains(x));
                assert(na.contains(x));
                let w = choose|w: int| 0 <= w < na.len() && na[w] == x;
                assert(names_from(ms, i)[w] == x);
            } else {
                assert(subtrees_from(ms, i)[t] == b[t - a.len()]);
                assert(names_of(b[t - a.len()]).contains(x));
                assert(nb.contains(x));
                let w = choose|w: int| 0 <= w < nb.len() && nb[w] == x;
                assert(names_from(ms, i)[na.len() + w] == x);
            }
        }
    } else {
        assert(subtrees_from(ms, i) =~= Seq::<ItemNames>::empty());
        assert(names_from(ms, i) =~= Seq::<Seq<char>>::empty());
    }
}

spec fn block_pos(saved: Seq<ItemNames>, j: int, t: int) -> int {
    names_upto(saved, j).len() + t
}

proof fn lemma_locate_in_blocks(saved: Seq<ItemNames>, m: int, k: int)
    requires
        0 <= m <= saved.len(),
        0 <= k < names_upto(saved, m).len(),
    ensures
        exists|j: int, t: int|
            0 <= j < m && 0 <= t < names_of(saved[j]).len() && k == #[trigger] block_pos(saved, j, t),
    decreases m,
{
    if m > 0 {
        let prev = names_upto(saved, m - 1);
        assert(names_upto(saved, m) == prev + names_of(saved[m - 1]));
        if k < prev.len() {
            lemma_locate_in_blocks(saved, m - 1, k);
            let (j, t) = choose|j: int, t: int|
                0 <= j < m - 1 && 0 <= t < names_of(saved[j]).len() && k == #[trigger] block_pos(saved, j, t);
            assert(0 <= j < m && 0 <= t < names_of(saved[j]).len() && k == block_pos(saved, j, t));
        } else {
            let t = k - prev.len();
            assert(0 <= m - 1 < m && 0 <= t < names_of(saved[m - 1]).len() && k == block_pos(saved, m - 1, t));
        }
    }
}

/// A file written by `save` has a closed index: every name in the tree of every entry
/// is itself an entry.
pub proof fn lemma_saved_file_is_closed(file: Seq<(String, ItemNames)>, saved: Seq<ItemNames>)
    requires
        written_by_save(file, saved),
    ensures
        closed_index(file),
{
    let len = saved.len() as int;
    let ns = entry_names(file);
    assert forall|k: int, x: Seq<char>|
        0 <= k < file.len() && #[trigger] names_of(file[k].1).contains(x) implies ns.contains(
        x,
    ) by {
        assert(ns.len() == file.len());
        lemma_locate_in_blocks(saved, len, k);
        let (j, t) = choose|j: int, t: int|
            0 <= j < len && 0 <= t < names_of(saved[j]).len() && k == #[trigger] block_pos(saved, j, t);
        lemma_subtrees_of(saved[j]);
        assert(file[names_upto(saved, j).len() + t].1 == subtrees_of(saved[j])[t]);
        assert(names_of(subtrees_of(saved[j])[t]).contains(x));
        assert(names_of(saved[j]).contains(x));
        let w = choose|w: int| 0 <= w < names_of(saved[j]).len() && names_of(saved[j])[w] == x;
        let c = names_upto(saved, j);
        let c2 = names_upto(saved, j + 1);
        assert(c2 == c + names_of(saved[j]));
        lemma_names_upto_prefix(saved, j + 1, len);
        assert(c2[c.len() + w] == x);
        assert(names_upto(saved, len)[c.len() + w] == x);
        assert(ns[c.len() + w] == x);
    }
}

/// Loading named entries of a file written by `save` fails exactly when one of the
/// names is not in the file: neither a saved item's name nor one of its members'.
pub proof fn lemma_saved_load_fails_iff_name_missing(
    names: Seq<Seq<char>>,
    file: Seq<(String, ItemNames)>,
    saved: Seq<ItemNames>,
)
    requires
        written_by_save(file, saved),
    ensures
        spec_load(Some(names), file) is Err <==> exists|t: int|
            0 <= t < names.len() && !names_upto(saved, saved.len() as int).contains(
                #[trigger] names[t],
            ),
{
    lemma_saved_file_is_closed(file, saved);
    lemma_load_fails_iff_name_missing(names, file);
}

} // verus!
