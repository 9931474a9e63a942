//! Property names on their way to and from the native library.

use vstd::prelude::*;
use vstd::string::*;

verus! {

/// The code a visitor returns to have the native iteration go on.
pub const ITER_CONTINUE: i32 = 0;

/// The bytes of the C string that holds `bytes`: the same bytes, then a NUL.
pub open spec fn c_string(bytes: Seq<u8>) -> Seq<u8> {
    bytes.push(0u8)
}

/// Whether `bytes` can be handed to the native library as a C string: no
/// byte is NUL.
pub open spec fn encodable(bytes: Seq<u8>) -> bool {
    forall|i: int| 0 <= i < bytes.len() ==> bytes[i] != 0u8
}

/// Encodes a name as a NUL-terminated C string. A name that holds a NUL has
/// no encoding.
pub fn to_cstring(name: &str) -> (encoded: Option<Vec<u8>>)
    ensures
        encodable(name.spec_bytes()) ==> encoded is Some && encoded->Some_0@ == c_string(
            name.spec_bytes(),
        ),
        !encodable(name.spec_bytes()) ==> encoded is None,
{
    let mut bytes = name.as_bytes_vec();
    let mut i: usize = 0;
    while i < bytes.len()
        invariant
            i <= bytes.len(),
            bytes@ == name.spec_bytes(),
            forall|j: int| 0 <= j < i ==> bytes@[j] != 0u8,
        decreases bytes.len() - i,
    {
        if bytes[i] == 0 {
            return None;
        }
        i += 1;
    }
    bytes.push(0);
    Some(bytes)
}

/// The views of a sequence of strings.
pub open spec fn views(names: Seq<String>) -> Seq<Seq<char>> {
    names.map_values(|name: String| name@)
}

/// The names kept after one more name has been visited: an empty name is
/// dropped, any other is appended.
pub open spec fn visited(kept: Seq<Seq<char>>, name: Seq<char>) -> Seq<Seq<char>> {
    if name.len() > 0 {
        kept.push(name)
    } else {
        kept
    }
}

/// The names kept after every name of `yielded` has been visited in turn,
/// starting with none.
pub open spec fn visited_all(yielded: Seq<Seq<char>>) -> Seq<Seq<char>>
    decreases yielded.len(),
{
    if yielded.len() == 0 {
        Seq::empty()
    } else {
        visited(visited_all(yielded.drop_last()), yielded.last())
    }
}

/// The non-empty names of `yielded`, in the order in which they came.
pub open spec fn retained(yielded: Seq<Seq<char>>) -> Seq<Seq<char>> {
    yielded.filter(|name: Seq<char>| name.len() > 0)
}

/// Whether no name but the empty one occurs twice in `yielded`.
pub open spec fn distinct_names(yielded: Seq<Seq<char>>) -> bool {
    forall|i: int, j: int|
        0 <= i < j < yielded.len() && yielded[i] == yielded[j] ==> yielded[i].len() == 0
}

/// A walk keeps exactly the non-empty names that the native library
/// yields, in the order in which it yields them.
pub proof fn lemma_walk_keeps_the_nonempty_names(yielded: Seq<Seq<char>>)
    ensures
        visited_all(yielded) == retained(yielded),
    decreases yielded.len(),
{
    reveal(Seq::filter);
    if yielded.len() > 0 {
        lemma_walk_keeps_the_nonempty_names(yielded.drop_last());
    }
}

/// What a walk keeps never holds an empty name, whatever the native library
/// yields.
pub proof fn lemma_no_empty_name_is_kept(yielded: Seq<Seq<char>>)
    ensures
        forall|i: int| 0 <= i < retained(yielded).len() ==> (#[trigger] retained(yielded)[i]).len() > 0,
{
    let nonempty = |name: Seq<char>| name.len() > 0;
    assert forall|i: int| 0 <= i < retained(yielded).len() implies (#[trigger] retained(
        yielded,
    )[i]).len() > 0 by {
        yielded.lemma_filter_pred(nonempty, i);
    }
}

/// What a walk keeps holds no name twice, provided that the native library
/// yields no name twice but, possibly, the empty one.
pub proof fn lemma_no_name_is_kept_twice(yielded: Seq<Seq<char>>)
    requires
        distinct_names(yielded),
    ensures
        retained(yielded).no_duplicates(),
    decreases yielded.len(),
{
    reveal(Seq::filter);
    let nonempty = |name: Seq<char>| name.len() > 0;
    if yielded.len() > 0 {
        let before = yielded.drop_last();
        let last = yielded.last();
        assert(distinct_names(before)) by {
            assert forall|i: int, j: int|
                0 <= i < j < before.len() && before[i] == before[j] implies before[i].len()
                == 0 by {
                assert(yielded[i] == before[i] && yielded[j] == before[j]);
            }
        }
        lemma_no_name_is_kept_twice(before);
        if last.len() > 0 {
            let kept = retained(before);
            assert(!kept.contains(last)) by {
                if kept.contains(last) {
                    before.lemma_filter_contains_rev(nonempty, last);
                    let i = choose|i: int| 0 <= i < before.len() && before[i] == last;
                    assert(yielded[i] == yielded[yielded.len() - 1]);
                }
            }
            assert(retained(yielded) == kept.push(last));
        }
    }
}

/// The names gathered so far while the native library walks the entries of
/// one property list.
pub struct NameCollector {
    id: i64,
    names: Vec<String>,
}

impl View for NameCollector {
    type V = Seq<Seq<char>>;

    /// The names kept so far, oldest first.
    closed spec fn view(&self) -> Seq<Seq<char>> {
        views(self.names@)
    }
}

impl NameCollector {
    #[verifier::type_invariant]
    spec fn no_empty_name(self) -> bool {
        forall|i: int| 0 <= i < self.names@.len() ==> (#[trigger] self.names@[i])@.len() > 0
    }

    /// The identifier of the list that is being walked.
    pub closed spec fn spec_id(&self) -> i64 {
        self.id
    }

    /// A collector for the entries of the list `id`, with nothing gathered.
    pub fn new(id: i64) -> (collector: NameCollector)
        ensures
            collector.spec_id() == id,
            collector@ == Seq::<Seq<char>>::empty(),
    {
        let collector = NameCollector { id, names: Vec::new() };
        assert(collector@ =~= Seq::<Seq<char>>::empty());
        collector
    }

    /// The identifier of the list that is being walked.
    pub fn id(&self) -> (id: i64)
        ensures
            id == self.spec_id(),
    {
        self.id
    }

    /// Takes one name that the native iteration yields: an empty name is
    /// dropped, any other is appended. Always asks the iteration to go on.
    pub fn visit(&mut self, name: String) -> (code: i32)
        ensures
            code == ITER_CONTINUE,
            final(self).spec_id() == old(self).spec_id(),
            final(self)@ == visited(old(self)@, name@),
    {
        proof {
            use_type_invariant(&*self);
        }
        if !name.as_str().is_empty() {
            // The vector leaves the collector while it grows, so that the
            // collector is whole at every call.
            let mut names: Vec<String> = Vec::new();
            core::mem::swap(&mut self.names, &mut names);
            names.push(name);
            core::mem::swap(&mut self.names, &mut names);
            assert(self@ =~= old(self)@.push(name@));
        }
        ITER_CONTINUE
    }

    /// Ends the walk and hands out the names, in the order in which they
    /// were kept. None of them is empty.
    pub fn into_names(self) -> (names: Vec<String>)
        ensures
            views(names@) == self@,
            forall|i: int| 0 <= i < names@.len() ==> (#[trigger] names@[i])@.len() > 0,
    {
        proof {
            use_type_invariant(&self);
        }
        self.names
    }
}

} // verus!
