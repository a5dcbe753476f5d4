//! The statements that a driver-managed backend has registered, each under
//! the handle it was issued.

use vstd::prelude::*;
use vstd::string::*;
use crate::error::{ErrorKind, StorageError};
use crate::handle::{
    decode_handle, encode_handle, handle_bytes, handle_value, lemma_handle_bytes_of_value,
    lemma_handle_round_trip,
};

verus! {

/// What a handle stands for among the registered texts: the text at the
/// position that the handle's number gives, if the handle has eight bytes
/// and that many texts were registered.
pub open spec fn lookup(texts: Seq<Seq<char>>, handle: Seq<u8>) -> Option<Seq<char>> {
    if handle.len() == 8 && handle_value(handle) < texts.len() {
        Some(texts[handle_value(handle)])
    } else {
        None
    }
}

/// The handles issued for the first `count` registrations, in order.
pub open spec fn issued_handles(count: nat) -> Seq<Seq<u8>> {
    Seq::new(count, |i: int| handle_bytes(i as u64))
}

/// The registered statements of one backend. Nothing is ever removed.
#[derive(Debug)]
pub struct StatementCache {
    counter: u64,
    statements: Vec<(u64, String)>,
}

impl View for StatementCache {
    type V = Seq<Seq<char>>;

    /// The registered texts, in the order of their registration.
    closed spec fn view(&self) -> Seq<Seq<char>> {
        Seq::new(self.statements@.len(), |i: int| self.statements@[i].1@)
    }
}

impl StatementCache {
    /// The numbers run from zero without a gap, and the counter is the next
    /// one.
    pub closed spec fn wf(&self) -> bool {
        &&& self.counter == self.statements@.len()
        &&& forall|i: int|
            0 <= i < self.statements@.len() ==> (#[trigger] self.statements@[i]).0 == i
    }

    /// A cache never holds more statements than there are numbers for
    /// handles.
    pub proof fn lemma_count_bounded(&self)
        requires
            self.wf(),
        ensures
            self@.len() <= u64::MAX,
    {
    }

    /// A handle resolves exactly if it is one of those that this cache has
    /// issued; any other is refused.
    pub proof fn lemma_resolves_iff_issued(&self, handle: Seq<u8>)
        requires
            self.wf(),
        ensures
            lookup(self@, handle) is Some <==> issued_handles(self@.len()).contains(handle),
    {
        self.lemma_count_bounded();
        lemma_lookup_issued(self@, handle);
    }

    /// A cache that holds nothing.
    pub fn new() -> (r: StatementCache)
        ensures
            r.wf(),
            r@ == Seq::<Seq<char>>::empty(),
    {
        let r = StatementCache { counter: 0, statements: Vec::new() };
        assert(r@ =~= Seq::<Seq<char>>::empty());
        r
    }

    /// How many statements are registered.
    pub fn len(&self) -> (n: usize)
        requires
            self.wf(),
        ensures
            n == self@.len(),
    {
        self.statements.len()
    }

    /// Registers `query` and issues its handle: the number of statements
    /// registered before it. No handle issued earlier equals the new one.
    pub fn prepare(&mut self, query: &str) -> (handle: Vec<u8>)
        requires
            old(self).wf(),
        ensures
            final(self).wf(),
            final(self)@ == old(self)@.push(query@),
            handle@ == handle_bytes(old(self)@.len() as u64),
            lookup(final(self)@, handle@) == Some(query@),
            !issued_handles(old(self)@.len()).contains(handle@),
    {
        let number = self.counter;
        self.statements.push((number, String::from_str(query)));
        let registered: usize = self.statements.len();
        assert(number + 1 == registered);
        self.counter = number + 1;
        let handle = encode_handle(number);
        proof {
            assert(self@ =~= old(self)@.push(query@));
            lemma_handle_round_trip(number);
            lemma_issued_handles_distinct(old(self)@.len(), number);
        }
        handle
    }

    /// Finds the statement that `handle` was issued for.
    ///
    /// A handle that has not eight bytes is malformed; one whose number was
    /// never issued is unknown. Both are invalid arguments.
    pub fn resolve(&self, handle: &[u8]) -> (r: Result<String, StorageError>)
        requires
            self.wf(),
        ensures
            match r {
                Ok(sql) => lookup(self@, handle@) == Some(sql@),
                Err(e) => lookup(self@, handle@) is None && e.says(
                    ErrorKind::InvalidArgument,
                    if handle@.len() != 8 {
                        "Invalid statement handle"@
                    } else {
                        "Statement handle not found"@
                    },
                ),
            },
    {
        let number = match decode_handle(handle) {
            None => {
                return Err(StorageError::invalid_argument("Invalid statement handle"));
            },
            Some(number) => number,
        };
        let mut i: usize = 0;
        while i < self.statements.len()
            invariant
                self.wf(),
                i <= self.statements@.len(),
                number == handle_value(handle@),
                handle@.len() == 8,
                forall|j: int| 0 <= j < i ==> (#[trigger] self.statements@[j]).0 != number,
            decreases self.statements@.len() - i,
        {
            if self.statements[i].0 == number {
                return Ok(self.statements[i].1.clone());
            }
            i = i + 1;
        }
        assert(number >= self.statements@.len()) by {
            if number < self.statements@.len() {
                assert(self.statements@[number as int].0 == number);
            }
        }
        Err(StorageError::invalid_argument("Statement handle not found"))
    }
}

/// A handle issued for a number is not among those issued for the numbers
/// below it.
pub proof fn lemma_issued_handles_distinct(count: nat, number: u64)
    requires
        count <= number,
    ensures
        !issued_handles(count).contains(handle_bytes(number)),
{
    if issued_handles(count).contains(handle_bytes(number)) {
        let i = choose|i: int|
            0 <= i < count && issued_handles(count)[i] == handle_bytes(number);
        lemma_handle_round_trip(i as u64);
        lemma_handle_round_trip(number);
    }
}

/// Any two of the handles issued by one cache differ.
pub proof fn lemma_handles_pairwise_distinct(count: nat, i: int, j: int)
    requires
        count <= u64::MAX,
        0 <= i < count,
        0 <= j < count,
        i != j,
    ensures
        issued_handles(count)[i] != issued_handles(count)[j],
{
    lemma_handle_round_trip(i as u64);
    lemma_handle_round_trip(j as u64);
}

/// A handle that resolves keeps resolving to the same text however many
/// statements are registered after it.
pub proof fn lemma_lookup_stable(texts: Seq<Seq<char>>, later: Seq<char>, handle: Seq<u8>)
    requires
        lookup(texts, handle) is Some,
    ensures
        lookup(texts.push(later), handle) == lookup(texts, handle),
{
}

/// Only issued handles resolve: a handle resolves exactly if it is one of
/// those issued so far, and then to the text registered under it.
pub proof fn lemma_lookup_issued(texts: Seq<Seq<char>>, handle: Seq<u8>)
    requires
        texts.len() <= u64::MAX,
    ensures
        lookup(texts, handle) is Some <==> issued_handles(texts.len()).contains(handle),
        forall|i: int|
            0 <= i < texts.len() ==> lookup(texts, #[trigger] issued_handles(texts.len())[i])
                == Some(texts[i]),
{
    if lookup(texts, handle) is Some {
        lemma_handle_bytes_of_value(handle);
        let i = handle_value(handle);
        assert(issued_handles(texts.len())[i] == handle);
    }
    if issued_handles(texts.len()).contains(handle) {
        let i = choose|i: int|
            0 <= i < texts.len() && issued_handles(texts.len())[i] == handle;
        lemma_handle_round_trip(i as u64);
    }
    assert forall|i: int| 0 <= i < texts.len() implies lookup(
        texts,
        #[trigger] issued_handles(texts.len())[i],
    ) == Some(texts[i]) by {
        lemma_handle_round_trip(i as u64);
    }
}

} // verus!
